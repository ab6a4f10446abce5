//! The red layer of the syntax tree: cursors over green nodes that know
//! their place in the text and the node they were reached from.

use crate::green::{concat_text, elements_view, lemma_concat_text_take, GreenNode, Tree};
use crate::syntax_kind::SyntaxKind;
use crate::text::{TextRange, TextSize};
use std::sync::Arc;
use vstd::prelude::*;

verus! {

/// The mathematical content of a cursor: the tree it stands on, the offset
/// of that tree's first byte in the whole text, and the cursor it was
/// reached from, with the position it has among that cursor's children.
pub struct Cursor {
    pub green: Tree,
    pub offset: nat,
    pub parent: Option<Box<Cursor>>,
    pub index: nat,
}

impl Cursor {
    /// The cursor on the root of a tree.
    pub open spec fn root(green: Tree) -> Cursor {
        Cursor { green, offset: 0, parent: None, index: 0 }
    }

    /// The kind of the element under the cursor.
    pub open spec fn kind(self) -> SyntaxKind {
        self.green.kind()
    }

    /// The offset just behind the last byte under the cursor.
    pub open spec fn end(self) -> nat {
        self.offset + self.green.text().len()
    }

    /// The cursor on the `i`-th child, when there is one.
    pub open spec fn child(self, i: int) -> Cursor {
        Cursor {
            green: self.green.children()[i],
            offset: self.offset + concat_text(self.green.children().take(i)).len(),
            parent: Some(Box::new(self)),
            index: i as nat,
        }
    }

    /// The cursors on those of the first `k` children that are nodes.
    pub open spec fn child_nodes_upto(self, k: nat) -> Seq<Cursor>
        decreases k,
    {
        if k == 0 {
            Seq::empty()
        } else if self.green.children()[k - 1] is Node {
            self.child_nodes_upto((k - 1) as nat).push(self.child(k - 1))
        } else {
            self.child_nodes_upto((k - 1) as nat)
        }
    }

    /// The cursors on the children that are nodes, in source order.
    pub open spec fn child_nodes(self) -> Seq<Cursor> {
        self.child_nodes_upto(self.green.children().len())
    }

    /// The cursors on those of the first `k` children that are tokens.
    pub open spec fn child_tokens_upto(self, k: nat) -> Seq<Cursor>
        decreases k,
    {
        if k == 0 {
            Seq::empty()
        } else if self.green.children()[k - 1] is Token {
            self.child_tokens_upto((k - 1) as nat).push(self.child(k - 1))
        } else {
            self.child_tokens_upto((k - 1) as nat)
        }
    }

    /// The cursors on the children that are tokens, in source order.
    pub open spec fn child_tokens(self) -> Seq<Cursor> {
        self.child_tokens_upto(self.green.children().len())
    }

    /// Whether the cursor stands where its parent says: on the child at
    /// `index`, at the offset where that child's text begins.
    pub open spec fn linked(self) -> bool {
        match self.parent {
            None => true,
            Some(p) => self.index < p.green.children().len() && self == p.child(self.index as int),
        }
    }
}

/// `Arc::clone`: another handle to the value that `a` points to.
#[verifier::external_body]
pub(crate) fn share<T>(a: &Arc<T>) -> (r: Arc<T>)
    ensures
        r == *a,
{
    Arc::clone(a)
}

/// A token of a syntax tree with its place in the text.
#[derive(Debug, PartialEq, Eq, Hash)]
pub struct SyntaxToken {
    pub kind: SyntaxKind,
    pub text: Vec<u8>,
    pub range: TextRange,
}

impl Clone for SyntaxToken {
    fn clone(&self) -> (r: Self)
        ensures
            r.kind == self.kind,
            r.text@ == self.text@,
            r.range == self.range,
    {
        let text = self.text.clone();
        assert(text@ =~= self.text@);
        SyntaxToken { kind: self.kind, text, range: self.range }
    }
}

impl SyntaxToken {
    /// Whether the token is what stands under the cursor `c`.
    pub open spec fn is_at(&self, c: Cursor) -> bool {
        &&& self.kind == c.kind()
        &&& self.text@ == c.green.text()
        &&& self.range.lo() == c.offset
        &&& self.range.hi() == c.end()
    }
}

/// A cursor on a node of a syntax tree.
#[derive(Debug, PartialEq, Eq, Hash)]
pub struct SyntaxNode {
    green: Arc<GreenNode>,
    offset: u32,
    parent: Option<Arc<SyntaxNode>>,
    index: usize,
}

spec fn node_model(n: SyntaxNode) -> Cursor
    decreases n,
{
    Cursor {
        green: n.green@,
        offset: n.offset as nat,
        parent: match n.parent {
            Some(p) => Some(Box::new(node_model(*p))),
            None => None,
        },
        index: n.index as nat,
    }
}

impl View for SyntaxNode {
    type V = Cursor;

    closed spec fn view(&self) -> Cursor {
        node_model(*self)
    }
}

impl Clone for SyntaxNode {
    fn clone(&self) -> (r: Self)
        ensures
            r == *self,
    {
        proof {
            use_type_invariant(self);
        }
        SyntaxNode {
            green: share(&self.green),
            offset: self.offset,
            parent: match &self.parent {
                Some(p) => Some(share(p)),
                None => None,
            },
            index: self.index,
        }
    }
}

impl SyntaxNode {
    #[verifier::type_invariant]
    spec fn well_formed(self) -> bool {
        &&& self@.end() <= u32::MAX
        &&& self@.linked()
        &&& self@.green is Node
    }

    /// The cursor on the root of the tree `green`.
    pub fn new_root(green: GreenNode) -> (r: SyntaxNode)
        ensures
            r@ == Cursor::root(green@),
    {
        let len = green.text_len();
        proof {
            green.lemma_is_node();
        }
        SyntaxNode { green: Arc::new(green), offset: 0, parent: None, index: 0 }
    }

    /// The cursor on the root of the tree `green`, which is shared.
    pub fn new_root_shared(green: &Arc<GreenNode>) -> (r: SyntaxNode)
        ensures
            r@ == Cursor::root(green@),
    {
        let len = green.text_len();
        proof {
            green.lemma_is_node();
        }
        SyntaxNode { green: share(green), offset: 0, parent: None, index: 0 }
    }

    /// The kind of the node.
    pub fn kind(&self) -> (k: SyntaxKind)
        ensures
            k == self@.kind(),
    {
        self.green.kind()
    }

    /// The green node under the cursor.
    pub fn green(&self) -> (g: &GreenNode)
        ensures
            g@ == self@.green,
    {
        &self.green
    }

    /// The text that the node covers.
    pub fn text(&self) -> (r: Vec<u8>)
        ensures
            r@ == self@.green.text(),
    {
        crate::green::print_green(&self.green)
    }

    /// The bytes of the text that the node covers.
    pub fn text_range(&self) -> (r: TextRange)
        ensures
            r.lo() == self@.offset,
            r.hi() == self@.end(),
    {
        proof {
            use_type_invariant(self);
        }
        TextRange::at(TextSize::new(self.offset), TextSize::new(self.green.text_len()))
    }

    /// The node that this one was reached from; the root has none. A node
    /// stands where its parent says: it is the child of its parent at its
    /// position among the children.
    pub fn parent(&self) -> (r: Option<SyntaxNode>)
        ensures
            match r {
                Some(p) => self@.parent == Some(Box::new(p@)),
                None => self@.parent is None,
            },
            self@.linked(),
    {
        proof {
            use_type_invariant(self);
        }
        match &self.parent {
            Some(p) => Some((**p).clone()),
            None => None,
        }
    }

    /// The children of this node that are nodes, in source order.
    pub fn children(&self) -> (r: Vec<SyntaxNode>)
        ensures
            r@.len() == self@.child_nodes().len(),
            forall|i: int| 0 <= i < r@.len() ==> (#[trigger] r@[i])@ == self@.child_nodes()[i],
    {
        proof {
            use_type_invariant(self);
        }
        let me = Arc::new(self.clone());
        let kids = self.green.children();
        let ghost models = self@.green.children();
        let mut out: Vec<SyntaxNode> = Vec::new();
        let mut offset: u32 = self.offset;
        let mut i: usize = 0;
        while i < kids.len()
            invariant
                i <= kids.len(),
                *me == *self,
                self@.end() <= u32::MAX,
                self@.green is Node,
                models == self@.green.children(),
                models == elements_view(kids@),
                offset == self@.offset + concat_text(models.take(i as int)).len(),
                out@.len() == self@.child_nodes_upto(i as nat).len(),
                forall|j: int|
                    0 <= j < out@.len() ==> (#[trigger] out@[j])@ == self@.child_nodes_upto(
                        i as nat,
                    )[j],
            decreases kids.len() - i,
        {
            proof {
                lemma_concat_text_take(models, i as int);
                lemma_concat_text_take(models, i + 1);
            }
            match kids[i].as_node() {
                Some(g) => {
                    proof {
                        g.lemma_is_node();
                    }
                    let child = SyntaxNode {
                        green: share(g),
                        offset,
                        parent: Some(share(&me)),
                        index: i,
                    };
                    assert(child@ == self@.child(i as int));
                    out.push(child);
                },
                None => {},
            }
            offset = offset + kids[i].text_len();
            i = i + 1;
        }
        out
    }
}

impl SyntaxNode {
    /// The children of this node that are tokens, in source order.
    pub fn tokens(&self) -> (r: Vec<SyntaxToken>)
        ensures
            r@.len() == self@.child_tokens().len(),
            forall|i: int| 0 <= i < r@.len() ==> (#[trigger] r@[i]).is_at(self@.child_tokens()[i]),
    {
        proof {
            use_type_invariant(self);
        }
        let kids = self.green.children();
        let ghost models = self@.green.children();
        let mut out: Vec<SyntaxToken> = Vec::new();
        let mut offset: u32 = self.offset;
        let mut i: usize = 0;
        while i < kids.len()
            invariant
                i <= kids.len(),
                self@.end() <= u32::MAX,
                self@.green is Node,
                models == self@.green.children(),
                models == elements_view(kids@),
                offset == self@.offset + concat_text(models.take(i as int)).len(),
                out@.len() == self@.child_tokens_upto(i as nat).len(),
                forall|j: int|
                    0 <= j < out@.len() ==> (#[trigger] out@[j]).is_at(
                        self@.child_tokens_upto(i as nat)[j],
                    ),
            decreases kids.len() - i,
        {
            proof {
                lemma_concat_text_take(models, i as int);
                lemma_concat_text_take(models, i + 1);
            }
            let len = kids[i].text_len();
            match kids[i].as_token() {
                Some(t) => {
                    let text = t.text().clone();
                    assert(text@ =~= t@.text());
                    let token = SyntaxToken {
                        kind: t.kind(),
                        text,
                        range: TextRange::at(TextSize::new(offset), TextSize::new(len)),
                    };
                    assert(token.is_at(self@.child(i as int)));
                    out.push(token);
                },
                None => {},
            }
            offset = offset + len;
            i = i + 1;
        }
        out
    }
}

} // verus!
