//! Markers shared between the compiler and the runtime.

use vstd::prelude::*;

verus! {

/// Represents the privacy level of modules, functions, or variables.
#[derive(Clone, Copy, Debug, PartialEq, Eq, Structural)]
pub enum Privacy {
    /// Publicly (and privately) accessible
    Public,
    /// Privately accessible
    Private,
}

/// Represents a group of types that illicit the same characteristics.
#[derive(Clone, Copy, Debug, PartialEq, Eq, Structural, PartialOrd, Ord)]
pub enum TypeGroup {
    /// Fundamental types (i.e. `()`, `bool`, `float`, `int`, etc.)
    FundamentalTypes,
    /// Struct types (i.e. record, tuple, or unit structs)
    StructTypes,
}

impl TypeGroup {
    /// Returns whether this is a fundamental type.
    pub fn is_fundamental(self) -> (r: bool)
        ensures
            r == (self == TypeGroup::FundamentalTypes),
    {
        match self {
            TypeGroup::FundamentalTypes => true,
            _ => false,
        }
    }

    /// Returns whether this is a struct type.
    pub fn is_struct(self) -> (r: bool)
        ensures
            r == (self == TypeGroup::StructTypes),
    {
        match self {
            TypeGroup::StructTypes => true,
            _ => false,
        }
    }
}

} // verus!
