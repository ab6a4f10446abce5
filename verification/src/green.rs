//! The green layer of the syntax tree: immutable, parent-less nodes that
//! hold every byte of the text they cover.

use crate::syntax_kind::SyntaxKind;
use std::sync::Arc;
use vstd::prelude::*;

verus! {

/// The mathematical content of a syntax tree: a token is a kind with its
/// text, a node is a kind with its children in source order.
pub enum Tree {
    Token { kind: SyntaxKind, text: Seq<u8> },
    Node { kind: SyntaxKind, children: Seq<Tree> },
}

impl Tree {
    /// The kind that tags this element.
    pub open spec fn kind(self) -> SyntaxKind {
        match self {
            Tree::Token { kind, .. } => kind,
            Tree::Node { kind, .. } => kind,
        }
    }

    /// The children of a node; a token has none.
    pub open spec fn children(self) -> Seq<Tree> {
        match self {
            Tree::Token { .. } => Seq::empty(),
            Tree::Node { children, .. } => children,
        }
    }

    /// The bytes that this element covers: a token's own text, or the text
    /// of a node's children, one after the other.
    pub open spec fn text(self) -> Seq<u8>
        decreases self, 0nat,
    {
        match self {
            Tree::Token { text, .. } => text,
            Tree::Node { children, .. } => concat_text(children),
        }
    }
}

/// The text of a run of elements, one after the other.
pub open spec fn concat_text(elements: Seq<Tree>) -> Seq<u8>
    decreases elements, elements.len(),
{
    if elements.len() == 0 {
        Seq::empty()
    } else {
        concat_text(elements.drop_last()) + elements.last().text()
    }
}

/// The text of one more element comes after the text of those before it.
pub proof fn lemma_concat_text_push(elements: Seq<Tree>, last: Tree)
    ensures
        concat_text(elements.push(last)) == concat_text(elements) + last.text(),
{
    assert(elements.push(last).drop_last() =~= elements);
}

/// The text of two runs laid end to end is the text of the first followed by
/// the text of the second.
pub proof fn lemma_concat_text_add(a: Seq<Tree>, b: Seq<Tree>)
    ensures
        concat_text(a + b) == concat_text(a) + concat_text(b),
    decreases b.len(),
{
    if b.len() == 0 {
        assert(a + b =~= a);
        assert(concat_text(a) + concat_text(b) =~= concat_text(a));
    } else {
        lemma_concat_text_add(a, b.drop_last());
        assert((a + b).drop_last() =~= a + b.drop_last());
        assert((a + b).last() == b.last());
        assert(concat_text(a + b) =~= concat_text(a) + concat_text(b));
    }
}

/// A leaf of the tree: a kind and the bytes of the text it stands for.
#[derive(Debug, PartialEq, Eq, Hash)]
pub struct GreenToken {
    kind: SyntaxKind,
    text: Vec<u8>,
}

/// A child of a green node.
#[derive(Debug, PartialEq, Eq, Hash)]
pub enum GreenElement {
    Node(Arc<GreenNode>),
    Token(GreenToken),
}

/// An inner node of the tree: a kind, the number of bytes it covers, and its
/// children in source order.
#[derive(Debug, PartialEq, Eq, Hash)]
pub struct GreenNode {
    kind: SyntaxKind,
    text_len: u32,
    children: Vec<GreenElement>,
}

/// The models of the first `k` children of `n`.
spec fn children_model(n: GreenNode, k: nat) -> Seq<Tree>
    decreases n, k,
{
    if k == 0 || k > n.children.len() {
        Seq::empty()
    } else {
        children_model(n, (k - 1) as nat).push(
            match n.children[k - 1] {
                GreenElement::Node(c) => Tree::Node {
                    kind: c.kind,
                    children: children_model(*c, c.children.len() as nat),
                },
                GreenElement::Token(t) => Tree::Token { kind: t.kind, text: t.text@ },
            },
        )
    }
}

impl View for GreenToken {
    type V = Tree;

    closed spec fn view(&self) -> Tree {
        Tree::Token { kind: self.kind, text: self.text@ }
    }
}

impl View for GreenNode {
    type V = Tree;

    closed spec fn view(&self) -> Tree {
        Tree::Node { kind: self.kind, children: children_model(*self, self.children.len() as nat) }
    }
}

impl View for GreenElement {
    type V = Tree;

    closed spec fn view(&self) -> Tree {
        match *self {
            GreenElement::Node(n) => n@,
            GreenElement::Token(t) => t@,
        }
    }
}

/// The models of a run of elements, element by element.
pub open spec fn elements_view(elements: Seq<GreenElement>) -> Seq<Tree> {
    Seq::new(elements.len(), |i: int| elements[i]@)
}

proof fn lemma_children_model(n: GreenNode, k: nat)
    requires
        k <= n.children.len(),
    ensures
        children_model(n, k) == elements_view(n.children@.take(k as int)),
    decreases k,
{
    if k == 0 {
        assert(children_model(n, k) =~= elements_view(n.children@.take(k as int)));
    } else {
        lemma_children_model(n, (k - 1) as nat);
        assert(n.children@.take(k as int).take(k - 1) =~= n.children@.take(k - 1));
        assert(children_model(n, k) =~= elements_view(n.children@.take(k as int)));
    }
}

/// The text of a prefix of a run is no longer than the text of the run.
pub proof fn lemma_concat_text_take(elements: Seq<Tree>, k: int)
    requires
        0 <= k <= elements.len(),
    ensures
        concat_text(elements.take(k)).len() <= concat_text(elements).len(),
        k < elements.len() ==> concat_text(elements.take(k + 1)) == concat_text(elements.take(k))
            + elements[k].text(),
{
    assert(elements =~= elements.take(k) + elements.skip(k));
    lemma_concat_text_add(elements.take(k), elements.skip(k));
    if k < elements.len() {
        assert(elements.take(k + 1) =~= elements.take(k).push(elements[k]));
        lemma_concat_text_push(elements.take(k), elements[k]);
    }
}

impl GreenToken {
    #[verifier::type_invariant]
    spec fn well_formed(self) -> bool {
        self.text.len() <= u32::MAX
    }

    /// Makes a token of the given kind that stands for `text`.
    pub fn new(kind: SyntaxKind, text: Vec<u8>) -> (t: GreenToken)
        requires
            text.len() <= u32::MAX,
        ensures
            t@ == (Tree::Token { kind, text: text@ }),
    {
        GreenToken { kind, text }
    }

    /// The kind of this token.
    pub fn kind(&self) -> (k: SyntaxKind)
        ensures
            k == self@.kind(),
    {
        self.kind
    }

    /// The bytes of this token.
    pub fn text(&self) -> (r: &Vec<u8>)
        ensures
            r@ == self@.text(),
    {
        &self.text
    }

    /// The number of bytes of this token.
    pub fn text_len(&self) -> (r: u32)
        ensures
            r == self@.text().len(),
    {
        proof {
            use_type_invariant(self);
        }
        self.text.len() as u32
    }
}

impl Clone for GreenToken {
    fn clone(&self) -> (r: Self)
        ensures
            r@ == self@,
    {
        proof {
            use_type_invariant(self);
        }
        let text = self.text.clone();
        assert(text@ =~= self.text@);
        GreenToken { kind: self.kind, text }
    }
}

impl GreenElement {
    /// The element that is the token `token`.
    pub fn token(token: GreenToken) -> (r: GreenElement)
        ensures
            r@ == token@,
    {
        GreenElement::Token(token)
    }

    /// The element that is the node `node`.
    pub fn node(node: GreenNode) -> (r: GreenElement)
        ensures
            r@ == node@,
    {
        GreenElement::Node(Arc::new(node))
    }

    /// The kind of this element.
    pub fn kind(&self) -> (k: SyntaxKind)
        ensures
            k == self@.kind(),
    {
        match self {
            GreenElement::Node(n) => n.kind(),
            GreenElement::Token(t) => t.kind(),
        }
    }

    /// The number of bytes that this element covers.
    pub fn text_len(&self) -> (r: u32)
        ensures
            r == self@.text().len(),
    {
        match self {
            GreenElement::Node(n) => n.text_len(),
            GreenElement::Token(t) => t.text_len(),
        }
    }

    /// The node, if this element is one.
    pub fn as_node(&self) -> (r: Option<&Arc<GreenNode>>)
        ensures
            r.is_some() == (self@ is Node),
            r matches Some(n) ==> n@ == self@,
    {
        match self {
            GreenElement::Node(n) => Some(n),
            GreenElement::Token(_) => None,
        }
    }

    /// The node, if this element is one, for keeps.
    pub fn into_node(self) -> (r: Option<Arc<GreenNode>>)
        ensures
            r.is_some() == (self@ is Node),
            r matches Some(n) ==> n@ == self@,
    {
        match self {
            GreenElement::Node(n) => Some(n),
            GreenElement::Token(_) => None,
        }
    }

    /// The token, if this element is one.
    pub fn as_token(&self) -> (r: Option<&GreenToken>)
        ensures
            r.is_some() == (self@ is Token),
            r matches Some(t) ==> t@ == self@,
    {
        match self {
            GreenElement::Node(_) => None,
            GreenElement::Token(t) => Some(t),
        }
    }
}

impl GreenNode {
    #[verifier::type_invariant]
    spec fn well_formed(self) -> bool {
        self.text_len == self@.text().len()
    }

    /// Makes a node of the given kind over `children`.
    pub fn new(kind: SyntaxKind, children: Vec<GreenElement>) -> (n: GreenNode)
        requires
            concat_text(elements_view(children@)).len() <= u32::MAX,
        ensures
            n@ == (Tree::Node { kind, children: elements_view(children@) }),
    {
        let ghost models = elements_view(children@);
        let mut len: u32 = 0;
        let mut i: usize = 0;
        while i < children.len()
            invariant
                i <= children.len(),
                models == elements_view(children@),
                concat_text(models).len() <= u32::MAX,
                len == concat_text(models.take(i as int)).len(),
            decreases children.len() - i,
        {
            proof {
                lemma_concat_text_take(models, i as int);
                lemma_concat_text_take(models, i + 1);
            }
            len = len + children[i].text_len();
            i = i + 1;
        }
        proof {
            let n = GreenNode { kind, text_len: len, children };
            lemma_children_model(n, n.children.len() as nat);
            assert(n.children@.take(n.children.len() as int) =~= n.children@);
            assert(models.take(i as int) =~= models);
        }
        GreenNode { kind, text_len: len, children }
    }

    /// The model of a node is a node.
    pub proof fn lemma_is_node(&self)
        ensures
            self@ is Node,
    {
    }

    /// The kind of this node.
    pub fn kind(&self) -> (k: SyntaxKind)
        ensures
            k == self@.kind(),
    {
        self.kind
    }

    /// The number of bytes that this node covers.
    pub fn text_len(&self) -> (r: u32)
        ensures
            r == self@.text().len(),
    {
        proof {
            use_type_invariant(self);
        }
        self.text_len
    }

    /// The children of this node, in source order.
    pub fn children(&self) -> (r: &Vec<GreenElement>)
        ensures
            elements_view(r@) == self@.children(),
    {
        proof {
            lemma_children_model(*self, self.children.len() as nat);
            assert(self.children@.take(self.children.len() as int) =~= self.children@);
        }
        &self.children
    }
}

/// Appends `bytes` to `out`.
fn append_bytes(out: &mut Vec<u8>, bytes: &Vec<u8>)
    ensures
        final(out)@ == old(out)@ + bytes@,
{
    let mut i: usize = 0;
    while i < bytes.len()
        invariant
            i <= bytes.len(),
            out@ == old(out)@ + bytes@.take(i as int),
        decreases bytes.len() - i,
    {
        out.push(bytes[i]);
        i = i + 1;
        assert(out@ =~= old(out)@ + bytes@.take(i as int));
    }
    assert(bytes@.take(i as int) =~= bytes@);
}

impl GreenNode {
    /// Appends the text that this node covers to `out`.
    pub fn append_text(&self, out: &mut Vec<u8>)
        ensures
            final(out)@ == old(out)@ + self@.text(),
        decreases self,
    {
        let ghost models = elements_view(self.children@);
        proof {
            lemma_children_model(*self, self.children.len() as nat);
            assert(self.children@.take(self.children.len() as int) =~= self.children@);
        }
        let mut i: usize = 0;
        while i < self.children.len()
            invariant
                i <= self.children.len(),
                models == elements_view(self.children@),
                out@ == old(out)@ + concat_text(models.take(i as int)),
            decreases self.children.len() - i,
        {
            proof {
                lemma_concat_text_take(models, i as int);
            }
            match &self.children[i] {
                GreenElement::Node(n) => {
                    n.append_text(out);
                },
                GreenElement::Token(t) => {
                    append_bytes(out, &t.text);
                },
            }
            i = i + 1;
            assert(out@ =~= old(out)@ + concat_text(models.take(i as int)));
        }
        assert(models.take(i as int) =~= models);
    }
}

/// Writes out the text that `node` covers, byte for byte.
pub fn print_green(node: &GreenNode) -> (text: Vec<u8>)
    ensures
        text@ == node@.text(),
{
    let mut text: Vec<u8> = Vec::new();
    node.append_text(&mut text);
    assert(text@ =~= node@.text());
    text
}

} // verus!
