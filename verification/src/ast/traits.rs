//! What several kinds of node have in common: a name, a visibility, a type,
//! a body, arguments, items.

use crate::ast::nodes::{
    ArgList, BlockExpr, FunctionDef, ModuleItem, Name, TypeRef, Visibility,
};
use crate::ast::{are_children, child_opt, children, is_first_child, AstNode};
use crate::syntax_kind::SyntaxKind;
use crate::syntax_node::{Cursor, SyntaxToken};
use vstd::prelude::*;

verus! {

/// A node that holds the items of a module.
pub trait ModuleItemOwner: AstNode {
    /// The items, in source order.
    fn items(&self) -> (r: Vec<ModuleItem>)
        ensures
            are_children::<ModuleItem>(self.node(), r@),
    {
        children(self)
    }
}

/// A node that holds function definitions.
pub trait FunctionDefOwner: AstNode {
    /// The functions, in source order.
    fn functions(&self) -> (r: Vec<FunctionDef>)
        ensures
            are_children::<FunctionDef>(self.node(), r@),
    {
        children(self)
    }
}

/// A node that introduces a name.
pub trait NameOwner: AstNode {
    /// The name that the node introduces.
    fn name(&self) -> (r: Option<Name>)
        ensures
            is_first_child::<Name>(self.node(), r),
    {
        child_opt(self)
    }
}

/// A node that may carry a type after a colon.
pub trait TypeAscriptionOwner: AstNode {
    /// The type that the node is given.
    fn ascribed_type(&self) -> (r: Option<TypeRef>)
        ensures
            is_first_child::<TypeRef>(self.node(), r),
    {
        child_opt(self)
    }
}

/// A node that may carry a visibility marker; without one it is private.
pub trait VisibilityOwner: AstNode {
    /// The visibility marker of the node.
    fn visibility(&self) -> (r: Option<Visibility>)
        ensures
            is_first_child::<Visibility>(self.node(), r),
    {
        child_opt(self)
    }
}

/// A node that is followed by arguments.
pub trait ArgListOwner: AstNode {
    /// The arguments of the node.
    fn arg_list(&self) -> (r: Option<ArgList>)
        ensures
            is_first_child::<ArgList>(self.node(), r),
    {
        child_opt(self)
    }
}

/// A loop, which has a body.
pub trait LoopBodyOwner: AstNode {
    /// The body of the loop.
    fn loop_body(&self) -> (r: Option<BlockExpr>)
        ensures
            is_first_child::<BlockExpr>(self.node(), r),
    {
        child_opt(self)
    }
}

/// Whether the token under `c` is a documentation comment: a comment that
/// begins with three slashes.
pub open spec fn is_doc_comment(c: Cursor) -> bool {
    c.kind() == SyntaxKind::COMMENT && c.green.text().len() >= 3 && c.green.text()[0] == 0x2f
        && c.green.text()[1] == 0x2f && c.green.text()[2] == 0x2f
}

/// The documentation comments among `tokens`, in order.
pub open spec fn doc_comments_of(tokens: Seq<Cursor>) -> Seq<Cursor> {
    tokens.filter(|c: Cursor| is_doc_comment(c))
}

/// A node that documentation comments may stand in front of. The comments
/// that belong to a node are among its children: the block of comments in
/// front of it that no empty line parts from it.
pub trait DocCommentsOwner: AstNode {
    /// The documentation comments of the node, in source order.
    fn doc_comments(&self) -> (r: Vec<SyntaxToken>)
        ensures
            r@.len() == doc_comments_of(self.node().child_tokens()).len(),
            forall|i: int|
                0 <= i < r@.len() ==> (#[trigger] r@[i]).is_at(
                    doc_comments_of(self.node().child_tokens())[i],
                ),
    {
        let tokens = self.syntax().tokens();
        let ghost cursors = self.node().child_tokens();
        let ghost wanted = |c: Cursor| is_doc_comment(c);
        let mut out: Vec<SyntaxToken> = Vec::new();
        let mut i: usize = 0;
        while i < tokens.len()
            invariant
                i <= tokens@.len(),
                tokens@.len() == cursors.len(),
                forall|j: int| 0 <= j < tokens@.len() ==> (#[trigger] tokens@[j]).is_at(cursors[j]),
                wanted == (|c: Cursor| is_doc_comment(c)),
                out@.len() == cursors.take(i as int).filter(wanted).len(),
                forall|j: int|
                    0 <= j < out@.len() ==> (#[trigger] out@[j]).is_at(
                        cursors.take(i as int).filter(wanted)[j],
                    ),
            decreases tokens.len() - i,
        {
            proof {
                assert(cursors.take(i + 1).drop_last() =~= cursors.take(i as int));
                reveal(Seq::filter);
            }
            assert(tokens@[i as int].is_at(cursors[i as int]));
            let token = &tokens[i];
            if token.kind == SyntaxKind::COMMENT && token.text.len() >= 3 && token.text[0] == 0x2f
                && token.text[1] == 0x2f && token.text[2] == 0x2f {
                out.push(token.clone());
            }
            i = i + 1;
        }
        assert(cursors.take(i as int) =~= cursors);
        out
    }
}

} // verus!
