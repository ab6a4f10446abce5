//! The kinds of symbol that an outline of a file tells apart.

use vstd::prelude::*;

verus! {

/// The kind of a named item.
#[derive(Clone, Copy, Debug, PartialEq, Eq, Structural, Hash)]
pub enum SymbolKind {
    Function,
    Struct,
    TypeAlias,
}

} // verus!
