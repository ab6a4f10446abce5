//! The items of a file at a glance: for each its kind, its name, whether
//! it is public, its documentation, and the shape of its signature.

use crate::abi::Privacy;
use crate::ast::nodes::{
    FunctionDef, ModuleItem, ModuleItemKind, Name, Param, ParamList, RecordFieldDef,
    RecordFieldDefList, RetType, SourceFile, StructDef, TupleFieldDef, TupleFieldDefList,
    Visibility,
};
use crate::ast::traits::{
    doc_comments_of, is_doc_comment, DocCommentsOwner, ModuleItemOwner, NameOwner, VisibilityOwner,
};
use crate::ast::{all_castable, child_opt, first_castable, AstNode};
use crate::interner::{distinct, interned, lemma_interned, Interner, NameId};
use crate::syntax_kind::SyntaxKind;
use crate::syntax_node::{Cursor, SyntaxToken};
use crate::text::TextRange;
use vstd::prelude::*;

verus! {

/// The shape of the signature of an item.
#[derive(Clone, Copy, Debug, PartialEq, Eq, Structural, Hash)]
pub enum Signature {
    /// A function with so many parameters, with or without a return type.
    Function { params: usize, has_ret: bool },
    /// A struct with named fields.
    Record { fields: usize },
    /// A struct with positional fields.
    Tuple { fields: usize },
    /// A struct without fields.
    Unit,
}

/// The mathematical content of an entry of an item tree.
pub struct ItemModel {
    pub name: Option<nat>,
    pub visibility: Privacy,
    pub docs: Seq<u8>,
    pub signature: Signature,
    pub range: (nat, nat),
}

/// An entry of an item tree.
#[derive(Debug, PartialEq, Eq)]
pub struct Item {
    /// The handle of the name; none where the item has no name.
    pub name: Option<NameId>,
    /// Whether the item is public; without a marker it is private.
    pub visibility: Privacy,
    /// The documentation: the text of each documentation comment behind
    /// its slashes, each followed by a line feed.
    pub docs: Vec<u8>,
    /// The shape of the signature.
    pub signature: Signature,
    /// The range of the item in the source.
    pub range: TextRange,
}

impl View for Item {
    type V = ItemModel;

    open spec fn view(&self) -> ItemModel {
        ItemModel {
            name: match self.name {
                Some(n) => Some(n.0 as nat),
                None => None,
            },
            visibility: self.visibility,
            docs: self.docs@,
            signature: self.signature,
            range: (self.range.lo(), self.range.hi()),
        }
    }
}

/// The first child node of `c` that `C` accepts.
pub open spec fn child<C: AstNode>(c: Cursor) -> Option<Cursor> {
    first_castable::<C>(c.child_nodes(), 0)
}

/// The text of the first `k` of the documentation comments `docs`: of each
/// what stands behind its slashes, followed by a line feed.
pub open spec fn doc_text(docs: Seq<Cursor>, k: nat) -> Seq<u8>
    decreases k,
{
    if k == 0 || k > docs.len() {
        Seq::empty()
    } else {
        doc_text(docs, (k - 1) as nat) + docs[k - 1].green.text().skip(3) + seq![0x0au8]
    }
}

/// The shape of the signature of the item under `item`.
pub open spec fn signature_of(item: Cursor) -> Signature {
    if item.kind() == SyntaxKind::FUNCTION_DEF {
        Signature::Function {
            params: match child::<ParamList>(item) {
                Some(list) => all_castable::<Param>(list.child_nodes()).len() as usize,
                None => 0,
            },
            has_ret: child::<RetType>(item) is Some,
        }
    } else {
        match child::<RecordFieldDefList>(item) {
            Some(list) => Signature::Record {
                fields: all_castable::<RecordFieldDef>(list.child_nodes()).len() as usize,
            },
            None => match child::<TupleFieldDefList>(item) {
                Some(list) => Signature::Tuple {
                    fields: all_castable::<TupleFieldDef>(list.child_nodes()).len() as usize,
                },
                None => Signature::Unit,
            },
        }
    }
}

/// The entry for the item under `item` when `names` are interned already,
/// and the names once the name of the item is interned too. Where the table
/// of names is full the item is entered without a name.
pub open spec fn item_entry(item: Cursor, names: Seq<Seq<u8>>) -> (ItemModel, Seq<Seq<u8>>) {
    let named = match child::<Name>(item) {
        Some(n) => if names.len() < u32::MAX {
            Some(interned(names, n.green.text()))
        } else {
            None
        },
        None => None,
    };
    (
        ItemModel {
            name: match named {
                Some(x) => Some(x.1),
                None => None,
            },
            visibility: if child::<Visibility>(item) is Some {
                Privacy::Public
            } else {
                Privacy::Private
            },
            docs: doc_text(
                doc_comments_of(item.child_tokens()),
                doc_comments_of(item.child_tokens()).len(),
            ),
            signature: signature_of(item),
            range: (item.offset, item.end()),
        },
        match named {
            Some(x) => x.0,
            None => names,
        },
    )
}

/// The entries for the first `k` of `items`, in order, and the names that
/// they intern.
pub open spec fn entries(items: Seq<Cursor>, k: nat) -> (Seq<ItemModel>, Seq<Seq<u8>>)
    decreases k,
{
    if k == 0 || k > items.len() {
        (Seq::empty(), Seq::empty())
    } else {
        let (before, names) = entries(items, (k - 1) as nat);
        let (entry, names) = item_entry(items[k - 1], names);
        (before.push(entry), names)
    }
}

/// The item tree of the file under `root`: an entry for each of its items,
/// in source order, and the names of the items.
pub open spec fn item_tree_of(root: Cursor) -> (Seq<ItemModel>, Seq<Seq<u8>>) {
    let items = all_castable::<ModuleItem>(root.child_nodes());
    entries(items, items.len())
}

/// Interning the names of items keeps the names distinct.
pub proof fn lemma_entries_distinct(items: Seq<Cursor>, k: nat)
    requires
        k <= items.len(),
    ensures
        distinct(entries(items, k).1),
    decreases k,
{
    if k > 0 {
        lemma_entries_distinct(items, (k - 1) as nat);
        let names = entries(items, (k - 1) as nat).1;
        match child::<Name>(items[k - 1]) {
            Some(n) => {
                lemma_interned(names, n.green.text());
            },
            None => {},
        }
    }
}

/// The items of a file, with the table of their names.
#[derive(Debug, PartialEq, Eq)]
pub struct ItemTree {
    items: Vec<Item>,
    names: Interner,
}

impl ItemTree {
    /// The entries, as mathematics.
    pub closed spec fn items_model(&self) -> Seq<ItemModel> {
        self.items@.map_values(|i: Item| i@)
    }

    /// The names, as mathematics.
    pub closed spec fn names_model(&self) -> Seq<Seq<u8>> {
        self.names@
    }

    /// The entries, in source order.
    pub fn items(&self) -> (r: &Vec<Item>)
        ensures
            r@.map_values(|i: Item| i@) == self.items_model(),
    {
        &self.items
    }

    /// The table of the names of the items.
    pub fn names(&self) -> (r: &Interner)
        ensures
            r@ == self.names_model(),
    {
        &self.names
    }

    /// The item tree of `file`.
    pub fn new(file: &SourceFile) -> (r: ItemTree)
        ensures
            r.items_model() == item_tree_of(file.node()).0,
            r.names_model() == item_tree_of(file.node()).1,
    {
        let nodes = file.items();
        let ghost cursors = all_castable::<ModuleItem>(file.node().child_nodes());
        let ghost view = |i: Item| i@;
        assert(nodes@.len() == cursors.len()) by {
            assert(nodes@.map_values(|c: ModuleItem| c.node()).len() == cursors.len());
        }
        let mut items: Vec<Item> = Vec::new();
        let mut names = Interner::new();
        let mut k: usize = 0;
        assert(items@.map_values(view) =~= Seq::<ItemModel>::empty());
        while k < nodes.len()
            invariant
                k <= nodes@.len(),
                nodes@.len() == cursors.len(),
                nodes@.map_values(|c: ModuleItem| c.node()) == cursors,
                view == (|i: Item| i@),
                items@.map_values(view) == entries(cursors, k as nat).0,
                names@ == entries(cursors, k as nat).1,
            decreases nodes.len() - k,
        {
            assert(nodes@.map_values(|c: ModuleItem| c.node())[k as int] == cursors[k as int]);
            let entry = match nodes[k].kind() {
                ModuleItemKind::FunctionDef(function) => function_entry(&function, &mut names),
                ModuleItemKind::StructDef(def) => struct_entry(&def, &mut names),
            };
            let ghost before = items@;
            items.push(entry);
            assert(items@.map_values(view) =~= before.map_values(view).push(entry@));
            k = k + 1;
        }
        ItemTree { items, names }
    }
}

/// The text of the documentation comments `docs`.
fn doc_text_of(docs: &Vec<SyntaxToken>, Ghost(tokens): Ghost<Seq<Cursor>>) -> (r: Vec<u8>)
    requires
        docs@.len() == doc_comments_of(tokens).len(),
        forall|i: int|
            0 <= i < docs@.len() ==> (#[trigger] docs@[i]).is_at(doc_comments_of(tokens)[i]),
    ensures
        r@ == doc_text(doc_comments_of(tokens), doc_comments_of(tokens).len()),
{
    let ghost cursors = doc_comments_of(tokens);
    let mut out: Vec<u8> = Vec::new();
    let mut i: usize = 0;
    while i < docs.len()
        invariant
            i <= docs@.len(),
            cursors == doc_comments_of(tokens),
            docs@.len() == cursors.len(),
            forall|i: int| 0 <= i < docs@.len() ==> (#[trigger] docs@[i]).is_at(cursors[i]),
            out@ == doc_text(cursors, i as nat),
        decreases docs.len() - i,
    {
        assert(docs@[i as int].is_at(cursors[i as int]));
        proof {
            tokens.lemma_filter_pred(|c: Cursor| is_doc_comment(c), i as int);
        }
        let text = &docs[i].text;
        let ghost start = out@;
        let mut k: usize = 3;
        assert(text@.subrange(3, 3) =~= Seq::<u8>::empty());
        while k < text.len()
            invariant
                3 <= k <= text@.len(),
                out@ == start + text@.subrange(3, k as int),
            decreases text.len() - k,
        {
            out.push(text[k]);
            k = k + 1;
            assert(out@ =~= start + text@.subrange(3, k as int));
        }
        out.push(0x0a);
        assert(text@.subrange(3, text@.len() as int) =~= text@.skip(3));
        assert(out@ =~= start + text@.skip(3) + seq![0x0au8]);
        i = i + 1;
    }
    out
}

/// The handle of `name` in `names`; none where there is no name or the
/// table is full.
fn intern_name(name: Option<Name>, names: &mut Interner) -> (r: Option<NameId>)
    ensures
        match name {
            Some(n) => if old(names)@.len() < u32::MAX {
                r matches Some(id) && id.0 == interned(old(names)@, n.node().green.text()).1
                    && final(names)@ == interned(old(names)@, n.node().green.text()).0
            } else {
                r is None && final(names)@ == old(names)@
            },
            None => r is None && final(names)@ == old(names)@,
        },
{
    match name {
        Some(n) => {
            if names.len() < 0xffff_ffff {
                let text = n.text();
                Some(names.intern(text.as_slice()))
            } else {
                None
            }
        },
        None => None,
    }
}

/// The entry for a function.
fn function_entry(function: &FunctionDef, names: &mut Interner) -> (r: Item)
    ensures
        r@ == item_entry(function.node(), old(names)@).0,
        final(names)@ == item_entry(function.node(), old(names)@).1,
{
    let name = intern_name(function.name(), names);
    let visibility = match function.visibility() {
        Some(_) => Privacy::Public,
        None => Privacy::Private,
    };
    let docs = function.doc_comments();
    let docs = doc_text_of(&docs, Ghost(function.node().child_tokens()));
    let params = match function.param_list() {
        Some(list) => {
            let params = list.params();
            assert(params@.map_values(|c: Param| c.node()).len() == params@.len());
            params.len()
        },
        None => 0,
    };
    let has_ret = function.ret_type().is_some();
    Item {
        name,
        visibility,
        docs,
        signature: Signature::Function { params, has_ret },
        range: function.syntax().text_range(),
    }
}

/// The entry for a struct.
fn struct_entry(def: &StructDef, names: &mut Interner) -> (r: Item)
    ensures
        r@ == item_entry(def.node(), old(names)@).0,
        final(names)@ == item_entry(def.node(), old(names)@).1,
{
    let name = intern_name(def.name(), names);
    let visibility = match def.visibility() {
        Some(_) => Privacy::Public,
        None => Privacy::Private,
    };
    let docs = def.doc_comments();
    let docs = doc_text_of(&docs, Ghost(def.node().child_tokens()));
    let record: Option<RecordFieldDefList> = child_opt(def);
    let signature = match record {
        Some(list) => {
            let fields = list.fields();
            assert(fields@.map_values(|c: RecordFieldDef| c.node()).len() == fields@.len());
            Signature::Record { fields: fields.len() }
        },
        None => {
            let tuple: Option<TupleFieldDefList> = child_opt(def);
            match tuple {
                Some(list) => {
                    let fields = list.fields();
                    assert(fields@.map_values(|c: TupleFieldDef| c.node()).len() == fields@.len());
                    Signature::Tuple { fields: fields.len() }
                },
                None => Signature::Unit,
            }
        },
    };
    Item { name, visibility, docs, signature, range: def.syntax().text_range() }
}

} // verus!
