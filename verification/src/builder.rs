//! Builds a green tree from the events of a parse: a node begins, a token
//! is met, a node ends.

use crate::green::{
    concat_text, elements_view, lemma_concat_text_add, lemma_concat_text_push, GreenElement,
    GreenNode, GreenToken, Tree,
};
use crate::parser::{ParseError, ParseErrorKind};
use crate::syntax_kind::SyntaxKind;
use std::sync::Arc;
use vstd::prelude::*;

verus! {

/// The mathematical content of a builder: the nodes that have begun and
/// not ended, each with its kind and the number of elements that stood
/// before it; the elements built so far; and the errors noted.
pub struct BuilderModel {
    pub open: Seq<(SyntaxKind, nat)>,
    pub elems: Seq<Tree>,
    pub errors: Seq<ParseError>,
}

impl BuilderModel {
    /// The text of all that was built so far.
    pub open spec fn text(self) -> Seq<u8> {
        concat_text(self.elems)
    }

    /// The builder once a node of `kind` has begun.
    pub open spec fn start_node(self, kind: SyntaxKind) -> BuilderModel {
        BuilderModel { open: self.open.push((kind, self.elems.len())), ..self }
    }

    /// The builder once a token of `kind` with the text `text` was met.
    pub open spec fn token(self, kind: SyntaxKind, text: Seq<u8>) -> BuilderModel {
        BuilderModel { elems: self.elems.push(Tree::Token { kind, text }), ..self }
    }

    /// The builder once the node that began last has ended: the elements
    /// built since it began are its children.
    pub open spec fn finish_node(self) -> BuilderModel {
        let (kind, first) = self.open.last();
        BuilderModel {
            open: self.open.drop_last(),
            elems: self.elems.take(first as int).push(
                Tree::Node { kind, children: self.elems.skip(first as int) },
            ),
            ..self
        }
    }

    /// The builder once an error of `kind` was noted at the end of the text
    /// built so far.
    pub open spec fn error(self, kind: ParseErrorKind) -> BuilderModel {
        BuilderModel {
            errors: self.errors.push(ParseError { kind, offset: self.text().len() as u32 }),
            ..self
        }
    }

    /// Whether every node that has begun began at or before the end, and no
    /// node began before one that began earlier.
    pub open spec fn nested(self) -> bool {
        &&& forall|i: int|
            0 <= i < self.open.len() ==> (#[trigger] self.open[i]).1 <= self.elems.len()
        &&& forall|i: int, j: int|
            0 <= i <= j < self.open.len() ==> (#[trigger] self.open[i]).1 <= (
            #[trigger] self.open[j]).1
    }
}

/// Ending a node changes nothing of the text that was built.
pub proof fn lemma_finish_node_keeps_text(model: BuilderModel)
    requires
        model.nested(),
        model.open.len() > 0,
    ensures
        model.finish_node().text() == model.text(),
        model.finish_node().nested(),
{
    let (kind, first) = model.open.last();
    let head = model.elems.take(first as int);
    let tail = model.elems.skip(first as int);
    let node = Tree::Node { kind, children: tail };
    assert(model.elems =~= head + tail);
    lemma_concat_text_add(head, tail);
    lemma_concat_text_push(head, node);
    let after = model.finish_node();
    assert forall|i: int| 0 <= i < after.open.len() implies (#[trigger] after.open[i]).1
        <= after.elems.len() by {
        assert(model.open[i].1 <= model.open[model.open.len() - 1].1);
    }
    assert forall|i: int, j: int| 0 <= i <= j < after.open.len() implies (
    #[trigger] after.open[i]).1 <= (#[trigger] after.open[j]).1 by {
        assert(model.open[i].1 <= model.open[j].1);
    }
}

/// Builds a green tree piece by piece.
pub struct GreenNodeBuilder {
    parents: Vec<(SyntaxKind, usize)>,
    children: Vec<GreenElement>,
    errors: Vec<ParseError>,
    text_len: u32,
}

impl View for GreenNodeBuilder {
    type V = BuilderModel;

    closed spec fn view(&self) -> BuilderModel {
        BuilderModel {
            open: self.parents@.map_values(|p: (SyntaxKind, usize)| (p.0, p.1 as nat)),
            elems: elements_view(self.children@),
            errors: self.errors@,
        }
    }
}

impl GreenNodeBuilder {
    /// Whether the builder is in order: it knows the length of what it has
    /// built, and the nodes that have begun are nested.
    pub closed spec fn ready(&self) -> bool {
        &&& self.text_len == self@.text().len()
        &&& self@.nested()
    }

    /// A builder that has built nothing.
    pub fn new() -> (r: GreenNodeBuilder)
        ensures
            r.ready(),
            r@ == (BuilderModel { open: Seq::empty(), elems: Seq::empty(), errors: Seq::empty() }),
    {
        let r = GreenNodeBuilder {
            parents: Vec::new(),
            children: Vec::new(),
            errors: Vec::new(),
            text_len: 0,
        };
        assert(r@.open =~= Seq::empty());
        assert(r@.elems =~= Seq::empty());
        r
    }

    /// Begins a node of `kind`; what is built until the node ends becomes
    /// its children.
    pub fn start_node(&mut self, kind: SyntaxKind)
        requires
            old(self).ready(),
        ensures
            final(self).ready(),
            final(self)@ == old(self)@.start_node(kind),
    {
        let ghost before = self.parents@;
        let at = self.children.len();
        self.parents.push((kind, at));
        assert(self@.open =~= old(self)@.open.push((kind, at as nat)));
    }

    /// Adds a token of `kind` with the text `text`.
    pub fn token(&mut self, kind: SyntaxKind, text: &[u8])
        requires
            old(self).ready(),
            old(self)@.text().len() + text@.len() <= u32::MAX,
        ensures
            final(self).ready(),
            final(self)@ == old(self)@.token(kind, text@),
            final(self)@.text() == old(self)@.text() + text@,
    {
        let mut bytes: Vec<u8> = Vec::new();
        let mut i: usize = 0;
        while i < text.len()
            invariant
                i <= text@.len(),
                bytes@ == text@.take(i as int),
            decreases text.len() - i,
        {
            bytes.push(text[i]);
            i = i + 1;
            assert(bytes@ =~= text@.take(i as int));
        }
        assert(text@.take(i as int) =~= text@);
        let token = GreenToken::new(kind, bytes);
        let ghost before = self.children@;
        proof {
            lemma_concat_text_push(elements_view(before), token@);
        }
        self.children.push(GreenElement::token(token));
        self.text_len = self.text_len + text.len() as u32;
        assert(elements_view(self.children@) =~= elements_view(before).push(token@));
        assert(self@.open == old(self)@.open);
        assert(self@.text() == old(self)@.text() + text@);
        assert(self@.nested()) by {
            assert forall|i: int| 0 <= i < self@.open.len() implies (#[trigger] self@.open[i]).1
                <= self@.elems.len() by {
                assert(old(self)@.open[i].1 <= old(self)@.elems.len());
            }
            assert forall|i: int, j: int| 0 <= i <= j < self@.open.len() implies (
            #[trigger] self@.open[i]).1 <= (#[trigger] self@.open[j]).1 by {
                assert(old(self)@.open[i].1 <= old(self)@.open[j].1);
            }
        }
    }

    /// Ends the node that began last.
    pub fn finish_node(&mut self)
        requires
            old(self).ready(),
            old(self)@.open.len() > 0,
        ensures
            final(self).ready(),
            final(self)@ == old(self)@.finish_node(),
            final(self)@.text() == old(self)@.text(),
    {
        proof {
            lemma_finish_node_keeps_text(self@);
        }
        let ghost model = self@;
        let ghost before = self.children@;
        let (kind, first) = self.parents.pop().unwrap();
        assert(model.open[model.open.len() - 1] == (kind, first as nat));
        let kids = self.children.split_off(first);
        proof {
            let head = elements_view(before).take(first as int);
            let tail = elements_view(before).skip(first as int);
            assert(elements_view(kids@) =~= tail);
            assert(elements_view(self.children@) =~= head);
            assert(elements_view(before) =~= head + tail);
            lemma_concat_text_add(head, tail);
        }
        let node = GreenNode::new(kind, kids);
        let ghost head = self.children@;
        self.children.push(GreenElement::node(node));
        assert(elements_view(self.children@) =~= elements_view(head).push(node@));
        assert(self@.open =~= model.open.drop_last());
    }

    /// Notes an error of `kind` at the end of the text built so far.
    pub fn error(&mut self, kind: ParseErrorKind)
        requires
            old(self).ready(),
        ensures
            final(self).ready(),
            final(self)@ == old(self)@.error(kind),
    {
        self.errors.push(ParseError { kind, offset: self.text_len });
    }

    /// The tree that was built, with the errors that were noted. Every
    /// node that began must have ended, and one node must be all that was
    /// built.
    pub fn finish(self) -> (r: (Arc<GreenNode>, Vec<ParseError>))
        requires
            self.ready(),
            self@.open.len() == 0,
            self@.elems.len() == 1,
            self@.elems[0] is Node,
        ensures
            r.0@ == self@.elems[0],
            r.1@ == self@.errors,
            r.0@.text() == self@.text(),
    {
        let mut children = self.children;
        let ghost before = children@;
        let root = children.pop().unwrap();
        assert(root@ == elements_view(before)[0]);
        proof {
            let elems = elements_view(before);
            assert(elems.drop_last() =~= Seq::<Tree>::empty());
            assert(concat_text(elems.drop_last()) =~= Seq::<u8>::empty());
            assert(concat_text(elems) =~= elems[0].text());
        }
        (root.into_node().unwrap(), self.errors)
    }
}

} // verus!
