//! Typed views over the nodes of a syntax tree.

pub mod extensions;
pub mod nodes;
pub mod traits;

use crate::syntax_kind::SyntaxKind;
use crate::syntax_node::{Cursor, SyntaxNode};
use vstd::prelude::*;

verus! {

/// A typed view of a syntax node. A view exists for a node exactly when the
/// node's kind is one that the type accepts.
pub trait AstNode: Sized {
    /// Whether a node of `kind` can be viewed as this type.
    spec fn castable(kind: SyntaxKind) -> bool;

    /// The node under the view.
    spec fn node(&self) -> Cursor;

    /// Returns whether a node of `kind` can be viewed as this type.
    fn can_cast(kind: SyntaxKind) -> (r: bool)
        ensures
            r == Self::castable(kind),
    ;

    /// Views `syntax` as this type, if its kind allows.
    fn cast(syntax: SyntaxNode) -> (r: Option<Self>)
        ensures
            r.is_some() == Self::castable(syntax@.kind()),
            r matches Some(n) ==> n.node() == syntax@,
    ;

    /// The node under the view.
    fn syntax(&self) -> (r: &SyntaxNode)
        ensures
            r@ == self.node(),
            Self::castable(r@.kind()),
    ;
}

/// The first of `nodes`, from position `from` on, that `C` accepts.
pub open spec fn first_castable<C: AstNode>(nodes: Seq<Cursor>, from: int) -> Option<Cursor>
    decreases nodes.len() - from,
{
    if from < 0 || from >= nodes.len() {
        None
    } else if C::castable(nodes[from].kind()) {
        Some(nodes[from])
    } else {
        first_castable::<C>(nodes, from + 1)
    }
}

/// Those of `nodes` that `C` accepts, in the order in which they stand.
pub open spec fn all_castable<C: AstNode>(nodes: Seq<Cursor>) -> Seq<Cursor> {
    nodes.filter(|n: Cursor| C::castable(n.kind()))
}

/// Whether `found` is the view of the first child node of `parent` that `C`
/// accepts; none where `parent` has no such child.
pub open spec fn is_first_child<C: AstNode>(parent: Cursor, found: Option<C>) -> bool {
    match first_castable::<C>(parent.child_nodes(), 0) {
        Some(c) => found matches Some(x) && x.node() == c,
        None => found is None,
    }
}

/// Whether `found` are the views of the child nodes of `parent` that `C`
/// accepts, in source order.
pub open spec fn are_children<C: AstNode>(parent: Cursor, found: Seq<C>) -> bool {
    found.map_values(|c: C| c.node()) == all_castable::<C>(parent.child_nodes())
}

/// The first child node of `parent` that can be viewed as `C`.
pub fn child_opt<P: AstNode, C: AstNode>(parent: &P) -> (r: Option<C>)
    ensures
        is_first_child::<C>(parent.node(), r),
{
    let kids = parent.syntax().children();
    let ghost nodes = parent.node().child_nodes();
    let mut i: usize = 0;
    while i < kids.len()
        invariant
            i <= kids.len(),
            kids@.len() == nodes.len(),
            forall|j: int| 0 <= j < kids@.len() ==> (#[trigger] kids@[j])@ == nodes[j],
            nodes == parent.node().child_nodes(),
            first_castable::<C>(nodes, 0) == first_castable::<C>(nodes, i as int),
        decreases kids.len() - i,
    {
        assert(kids@[i as int]@ == nodes[i as int]);
        let found = C::cast(kids[i].clone());
        if found.is_some() {
            return found;
        }
        i = i + 1;
    }
    None
}

/// The child nodes of `parent` that can be viewed as `C`, in source order.
pub fn children<P: AstNode, C: AstNode>(parent: &P) -> (r: Vec<C>)
    ensures
        are_children::<C>(parent.node(), r@),
{
    let kids = parent.syntax().children();
    let ghost nodes = parent.node().child_nodes();
    let ghost accepts = |n: Cursor| C::castable(n.kind());
    let mut out: Vec<C> = Vec::new();
    let mut i: usize = 0;
    while i < kids.len()
        invariant
            i <= kids.len(),
            kids@.len() == nodes.len(),
            accepts == (|n: Cursor| C::castable(n.kind())),
            forall|j: int| 0 <= j < kids@.len() ==> (#[trigger] kids@[j])@ == nodes[j],
            out@.map_values(|c: C| c.node()) == nodes.take(i as int).filter(accepts),
        decreases kids.len() - i,
    {
        proof {
            assert(nodes.take(i + 1).drop_last() =~= nodes.take(i as int));
            reveal(Seq::filter);
        }
        let ghost before = out@;
        assert(kids@[i as int]@ == nodes[i as int]);
        match C::cast(kids[i].clone()) {
            Some(c) => {
                out.push(c);
                assert(out@.map_values(|c: C| c.node()) =~= before.map_values(|c: C| c.node()).push(
                    nodes[i as int],
                ));
            },
            None => {},
        }
        i = i + 1;
    }
    assert(nodes.take(i as int) =~= nodes);
    out
}

} // verus!
