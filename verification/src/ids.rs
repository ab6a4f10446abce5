//! The handles by which files, source roots and packages are told apart.

use vstd::prelude::*;

verus! {

/// Identifies a source file.
#[derive(Clone, Copy, Debug, PartialEq, Eq, Structural, Hash)]
pub struct FileId(pub u32);

/// Identifies a source root: a set of files that are compiled together.
#[derive(Clone, Copy, Debug, PartialEq, Eq, Structural, Hash)]
pub struct SourceRootId(pub u32);

/// Identifies a package. A package has exactly one source root.
#[derive(Clone, Copy, Debug, PartialEq, Eq, Structural, Hash)]
pub struct PackageId(pub u32);

} // verus!
