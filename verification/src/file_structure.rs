//! The outline of a file: its named items, each with its kind and its place
//! in the text.

use crate::ast::nodes::{
    FunctionDef, ModuleItem, ModuleItemKind, Name, ParamList, RetType, SourceFile, StructDef,
};
use crate::ast::traits::{ModuleItemOwner, NameOwner};
use crate::ast::{all_castable, first_castable, AstNode};
use crate::symbol_kind::SymbolKind;
use crate::syntax_kind::SyntaxKind;
use crate::syntax_node::Cursor;
use crate::text::{lossy_text, TextRange};
use vstd::prelude::*;

verus! {

/// The mathematical content of an entry of an outline.
pub struct StructureModel {
    pub parent: Option<nat>,
    pub label: Seq<u8>,
    pub navigation_range: (nat, nat),
    pub node_range: (nat, nat),
    pub kind: SymbolKind,
    pub detail: Option<Seq<u8>>,
}

/// An entry of an outline.
#[derive(Debug, Clone, PartialEq, Eq)]
pub struct StructureNode {
    /// The position in the outline of the entry that this one belongs to.
    pub parent: Option<usize>,
    /// The name of the item, as it stands in the text; empty where the item
    /// has no name.
    pub label: Vec<u8>,
    /// The range to jump to: that of the name, or of the item where it has
    /// no name.
    pub navigation_range: TextRange,
    /// The range of the whole item.
    pub node_range: TextRange,
    /// The kind of the item.
    pub kind: SymbolKind,
    /// What more is shown of the item: for a function its parameters and
    /// return type.
    pub detail: Option<Vec<u8>>,
}

impl View for StructureNode {
    type V = StructureModel;

    open spec fn view(&self) -> StructureModel {
        StructureModel {
            parent: match self.parent {
                Some(p) => Some(p as nat),
                None => None,
            },
            label: self.label@,
            navigation_range: (self.navigation_range.lo(), self.navigation_range.hi()),
            node_range: (self.node_range.lo(), self.node_range.hi()),
            kind: self.kind,
            detail: match self.detail {
                Some(d) => Some(d@),
                None => None,
            },
        }
    }
}

impl StructureNode {
    /// The name of the item as text.
    pub fn label(&self) -> (r: String)
        ensures
            vstd::utf8::valid_utf8(self.label@) ==> r@ == vstd::utf8::decode_utf8(self.label@),
    {
        lossy_text(self.label.as_slice())
    }

    /// What more is shown of the item, as text.
    pub fn detail(&self) -> (r: Option<String>)
        ensures
            r.is_some() == self.detail.is_some(),
            r matches Some(t) ==> vstd::utf8::valid_utf8(self.detail->0@) ==> t@
                == vstd::utf8::decode_utf8(self.detail->0@),
    {
        match &self.detail {
            Some(d) => Some(lossy_text(d.as_slice())),
            None => None,
        }
    }
}

/// The range of the text under a cursor.
pub open spec fn range_of(c: Cursor) -> (nat, nat) {
    (c.offset, c.end())
}

/// What the outline shows of a function besides its name: `fn`, its
/// parameters, and its return type behind a blank.
pub open spec fn function_detail(item: Cursor) -> Seq<u8> {
    let params = match first_castable::<ParamList>(item.child_nodes(), 0) {
        Some(p) => p.green.text(),
        None => Seq::empty(),
    };
    let ret = match first_castable::<RetType>(item.child_nodes(), 0) {
        Some(r) => seq![0x20u8] + r.green.text(),
        None => Seq::empty(),
    };
    seq![0x66u8, 0x6e] + params + ret
}

/// The entry of the outline for the item under `item`.
pub open spec fn item_structure(item: Cursor) -> StructureModel {
    let name = first_castable::<Name>(item.child_nodes(), 0);
    StructureModel {
        parent: None,
        label: match name {
            Some(n) => n.green.text(),
            None => Seq::empty(),
        },
        navigation_range: match name {
            Some(n) => range_of(n),
            None => range_of(item),
        },
        node_range: range_of(item),
        kind: if item.kind() == SyntaxKind::FUNCTION_DEF {
            SymbolKind::Function
        } else {
            SymbolKind::Struct
        },
        detail: if item.kind() == SyntaxKind::FUNCTION_DEF {
            Some(function_detail(item))
        } else {
            None
        },
    }
}

/// The outline of the file under `root`: one entry for each of its items, in
/// source order.
pub open spec fn structure_of(root: Cursor) -> Seq<StructureModel> {
    all_castable::<ModuleItem>(root.child_nodes()).map_values(|item: Cursor| item_structure(item))
}

/// Appends `bytes` to `out`.
fn append(out: &mut Vec<u8>, bytes: &Vec<u8>)
    ensures
        final(out)@ == old(out)@ + bytes@,
{
    let mut i: usize = 0;
    while i < bytes.len()
        invariant
            i <= bytes.len(),
            out@ == old(out)@ + bytes@.take(i as int),
        decreases bytes.len() - i,
    {
        out.push(bytes[i]);
        i = i + 1;
        assert(out@ =~= old(out)@ + bytes@.take(i as int));
    }
    assert(bytes@.take(i as int) =~= bytes@);
}

/// The entry of the outline for a function.
fn function_structure(function: &FunctionDef) -> (r: StructureNode)
    ensures
        r@ == item_structure(function.node()),
{
    let name = function.name();
    let node_range = function.syntax().text_range();
    let mut detail: Vec<u8> = Vec::new();
    detail.push(0x66);
    detail.push(0x6e);
    assert(detail@ =~= seq![0x66u8, 0x6e]);
    match function.param_list() {
        Some(params) => {
            append(&mut detail, &params.syntax().text());
        },
        None => {
            assert(detail@ =~= detail@ + Seq::<u8>::empty());
        },
    }
    let ghost with_params = detail@;
    match function.ret_type() {
        Some(ret) => {
            detail.push(0x20);
            append(&mut detail, &ret.syntax().text());
            assert(detail@ =~= with_params + (seq![0x20u8] + ret.node().green.text()));
        },
        None => {
            assert(detail@ =~= detail@ + Seq::<u8>::empty());
        },
    }
    match name {
        Some(name) => StructureNode {
            parent: None,
            label: name.syntax().text(),
            navigation_range: name.syntax().text_range(),
            node_range,
            kind: SymbolKind::Function,
            detail: Some(detail),
        },
        None => StructureNode {
            parent: None,
            label: Vec::new(),
            navigation_range: node_range,
            node_range,
            kind: SymbolKind::Function,
            detail: Some(detail),
        },
    }
}

/// The entry of the outline for a struct.
fn struct_structure(def: &StructDef) -> (r: StructureNode)
    ensures
        r@ == item_structure(def.node()),
{
    let node_range = def.syntax().text_range();
    match def.name() {
        Some(name) => StructureNode {
            parent: None,
            label: name.syntax().text(),
            navigation_range: name.syntax().text_range(),
            node_range,
            kind: SymbolKind::Struct,
            detail: None,
        },
        None => StructureNode {
            parent: None,
            label: Vec::new(),
            navigation_range: node_range,
            node_range,
            kind: SymbolKind::Struct,
            detail: None,
        },
    }
}

/// The outline of `file`: one entry for each of its items, in source order.
pub fn file_structure(file: &SourceFile) -> (r: Vec<StructureNode>)
    ensures
        r@.map_values(|n: StructureNode| n@) == structure_of(file.node()),
{
    let items = file.items();
    let ghost cursors = all_castable::<ModuleItem>(file.node().child_nodes());
    let ghost describe = |item: Cursor| item_structure(item);
    let ghost view = |n: StructureNode| n@;
    assert(items@.len() == cursors.len()) by {
        assert(items@.map_values(|c: ModuleItem| c.node()).len() == cursors.len());
    }
    let mut out: Vec<StructureNode> = Vec::new();
    let mut i: usize = 0;
    while i < items.len()
        invariant
            i <= items@.len(),
            items@.len() == cursors.len(),
            items@.map_values(|c: ModuleItem| c.node()) == cursors,
            describe == (|item: Cursor| item_structure(item)),
            view == (|n: StructureNode| n@),
            out@.map_values(view) == cursors.take(i as int).map_values(describe),
        decreases items.len() - i,
    {
        assert(items@.map_values(|c: ModuleItem| c.node())[i as int] == cursors[i as int]);
        let entry = match items[i].kind() {
            ModuleItemKind::FunctionDef(function) => function_structure(&function),
            ModuleItemKind::StructDef(def) => struct_structure(&def),
        };
        let ghost before = out@;
        out.push(entry);
        assert(out@.map_values(view) =~= before.map_values(view).push(entry@));
        assert(cursors.take(i + 1).map_values(describe) =~= cursors.take(i as int).map_values(
            describe,
        ).push(item_structure(cursors[i as int])));
        i = i + 1;
    }
    assert(cursors.take(i as int) =~= cursors);
    out
}

} // verus!
