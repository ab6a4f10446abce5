//! A bundle of edits to the inputs of the analysis.

use crate::ids::{FileId, SourceRootId};
use vstd::prelude::*;
use vstd::string::StringSliceAdditionalSpecFns;

verus! {

/// What is known of a package: the source root that holds its files.
#[derive(Clone, Copy, Debug, PartialEq, Eq, Structural)]
pub struct PackageInfo {
    pub source_root: SourceRootId,
}

/// The packages of a workspace; the position of a package is its handle.
#[derive(Clone, Debug, PartialEq, Eq)]
pub struct PackageSet {
    pub packages: Vec<PackageInfo>,
}

/// The files of a source root.
#[derive(Clone, Debug, PartialEq, Eq)]
pub struct SourceRoot {
    pub files: Vec<FileId>,
}

/// One edit of a file: its new text, or none where the file is gone.
pub struct FileEdit {
    pub file_id: FileId,
    pub text: Option<String>,
}

/// The mathematical content of a bundle of edits.
pub struct ChangeModel {
    pub packages: Option<Seq<PackageInfo>>,
    pub roots: Option<Seq<Seq<FileId>>>,
    pub files_changed: Seq<(FileId, Seq<char>)>,
}

/// A bundle of edits to the inputs of the analysis, applied as one.
pub struct AnalysisChange {
    packages: Option<PackageSet>,
    roots: Option<Vec<SourceRoot>>,
    files_changed: Vec<FileEdit>,
}

/// The files of each root of `roots`.
pub open spec fn roots_model(roots: Seq<SourceRoot>) -> Seq<Seq<FileId>> {
    roots.map_values(|r: SourceRoot| r.files@)
}

/// The text that an edit leaves a file with: the new text, or the empty text
/// where the file is gone.
pub open spec fn edit_model(edit: FileEdit) -> (FileId, Seq<char>) {
    (
        edit.file_id,
        match edit.text {
            Some(t) => t@,
            None => Seq::empty(),
        },
    )
}

/// Whether `text`, written out in UTF-8, is short enough for 32-bit offsets.
pub open spec fn fits(text: Seq<char>) -> bool {
    vstd::utf8::encode_utf8(text).len() <= u32::MAX
}

impl View for AnalysisChange {
    type V = ChangeModel;

    closed spec fn view(&self) -> ChangeModel {
        ChangeModel {
            packages: match self.packages {
                Some(p) => Some(p.packages@),
                None => None,
            },
            roots: match self.roots {
                Some(r) => Some(roots_model(r@)),
                None => None,
            },
            files_changed: self.files_changed@.map_values(|e: FileEdit| edit_model(e)),
        }
    }
}

impl AnalysisChange {
    #[verifier::type_invariant]
    spec fn well_formed(self) -> bool {
        forall|i: int|
            0 <= i < self.files_changed@.len() ==> fits(
                (#[trigger] edit_model(self.files_changed@[i])).1,
            )
    }

    /// The bundle that changes nothing.
    pub fn new() -> (r: AnalysisChange)
        ensures
            r@ == (ChangeModel {
                packages: None,
                roots: None,
                files_changed: Seq::empty(),
            }),
    {
        let r = AnalysisChange { packages: None, roots: None, files_changed: Vec::new() };
        assert(r@.files_changed =~= Seq::empty());
        r
    }

    /// Sets the packages.
    pub fn set_packages(self, packages: PackageSet) -> (r: AnalysisChange)
        ensures
            r@ == (ChangeModel { packages: Some(packages.packages@), ..self@ }),
    {
        proof {
            use_type_invariant(&self);
        }
        AnalysisChange {
            packages: Some(packages),
            roots: self.roots,
            files_changed: self.files_changed,
        }
    }

    /// Sets the source roots; the position of a root is its handle.
    pub fn set_roots(self, roots: Vec<SourceRoot>) -> (r: AnalysisChange)
        ensures
            r@ == (ChangeModel { roots: Some(roots_model(roots@)), ..self@ }),
    {
        proof {
            use_type_invariant(&self);
        }
        AnalysisChange {
            packages: self.packages,
            roots: Some(roots),
            files_changed: self.files_changed,
        }
    }

    /// Gives the file `file_id` the text `text`; without a text the file
    /// becomes empty.
    pub fn replace_file(self, file_id: FileId, text: Option<String>) -> (r: AnalysisChange)
        requires
            text matches Some(t) ==> fits(t@),
        ensures
            r@ == (ChangeModel {
                files_changed: self@.files_changed.push(edit_model(FileEdit { file_id, text })),
                ..self@
            }),
    {
        proof {
            use_type_invariant(&self);
            assert(vstd::utf8::encode_utf8(Seq::<char>::empty()).len() == 0) by {
                reveal_with_fuel(vstd::utf8::encode_utf8, 1);
            }
        }
        let mut files_changed = self.files_changed;
        let ghost before = files_changed@;
        files_changed.push(FileEdit { file_id, text });
        assert(files_changed@.map_values(|e: FileEdit| edit_model(e)) =~= before.map_values(
            |e: FileEdit| edit_model(e),
        ).push(edit_model(FileEdit { file_id, text })));
        AnalysisChange { packages: self.packages, roots: self.roots, files_changed }
    }

    /// Takes the bundle apart.
    pub(crate) fn into_parts(self) -> (r: (
        Option<PackageSet>,
        Option<Vec<SourceRoot>>,
        Vec<FileEdit>,
    ))
        ensures
            self@.packages == match r.0 {
                Some(p) => Some(p.packages@),
                None => None,
            },
            self@.roots == match r.1 {
                Some(x) => Some(roots_model(x@)),
                None => None,
            },
            self@.files_changed == r.2@.map_values(|e: FileEdit| edit_model(e)),
            forall|i: int| 0 <= i < r.2@.len() ==> fits((#[trigger] edit_model(r.2@[i])).1),
    {
        proof {
            use_type_invariant(&self);
        }
        (self.packages, self.roots, self.files_changed)
    }
}

} // verus!
