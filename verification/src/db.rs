//! The state of the analysis: the inputs that the editor has set, and the
//! revision that counts how often they were written.

use crate::change::{
    edit_model, fits, roots_model, AnalysisChange, ChangeModel, FileEdit, PackageInfo, SourceRoot,
};
use crate::diagnostics::{diagnostics, diagnostics_for, Diagnostic, DiagnosticModel};
use crate::file_structure::{file_structure, structure_of, StructureModel, StructureNode};
use crate::ids::{FileId, PackageId};
use crate::line_index::{LineIndex, LineTable};
use crate::ast::AstNode;
use crate::parser::{parse, parse_errors, parse_tree, Parse};
use crate::syntax_node::{share, Cursor};
use std::collections::HashMap;
use std::sync::atomic::AtomicU64;
use std::sync::atomic::Ordering;
use std::sync::Arc;
use vstd::prelude::*;
use vstd::string::StringSliceAdditionalSpecFns;

verus! {

/// The mathematical content of the inputs: the text of each file, the files
/// of each source root, and the packages.
pub struct InputsModel {
    pub files: Map<u32, Seq<char>>,
    pub roots: Seq<Seq<FileId>>,
    pub packages: Seq<PackageInfo>,
}

/// The texts that `files` holds once the first `k` of `edits` were made, in
/// order.
pub open spec fn edited(files: Map<u32, Seq<char>>, edits: Seq<(FileId, Seq<char>)>, k: nat) -> Map<
    u32,
    Seq<char>,
>
    decreases k,
{
    if k == 0 || k > edits.len() {
        files
    } else {
        edited(files, edits, (k - 1) as nat).insert(edits[k - 1].0.0, edits[k - 1].1)
    }
}

impl InputsModel {
    /// The inputs before anything was set.
    pub open spec fn empty() -> InputsModel {
        InputsModel { files: Map::empty(), roots: Seq::empty(), packages: Seq::empty() }
    }

    /// The inputs once `change` was applied: the packages and the roots are
    /// those of the change where it sets them, and the files are edited in
    /// the order of the change.
    pub open spec fn apply(self, change: ChangeModel) -> InputsModel {
        InputsModel {
            files: edited(self.files, change.files_changed, change.files_changed.len()),
            roots: match change.roots {
                Some(r) => r,
                None => self.roots,
            },
            packages: match change.packages {
                Some(p) => p,
                None => self.packages,
            },
        }
    }

    /// The bytes of the text of `file_id`.
    pub open spec fn text(self, file_id: FileId) -> Seq<u8> {
        vstd::utf8::encode_utf8(self.files[file_id.0])
    }

    /// Whether the file `file_id` was given a text.
    pub open spec fn has_file(self, file_id: FileId) -> bool {
        self.files.contains_key(file_id.0)
    }

    /// Whether `package_id` is a package whose source root is known.
    pub open spec fn has_package(self, package_id: PackageId) -> bool {
        package_id.0 < self.packages.len() && self.packages[package_id.0 as int].source_root.0
            < self.roots.len()
    }

    /// The files of the source root of `package_id`.
    pub open spec fn package_files(self, package_id: PackageId) -> Seq<FileId> {
        self.roots[self.packages[package_id.0 as int].source_root.0 as int]
    }
}

/// The diagnostics of a file with the text `text`.
pub open spec fn diagnostics_of(file_id: FileId, text: Seq<u8>) -> Seq<DiagnosticModel> {
    diagnostics_for(file_id, Cursor::root(parse_tree(text)), parse_errors(text))
}

/// The outline of a file with the text `text`.
pub open spec fn file_structure_of(text: Seq<u8>) -> Seq<StructureModel> {
    structure_of(Cursor::root(parse_tree(text)))
}

/// A change that changes nothing leaves every input as it was, so every
/// question is answered as before.
pub proof fn lemma_empty_change_is_no_op(inputs: InputsModel)
    ensures
        inputs.apply(
            ChangeModel { packages: None, roots: None, files_changed: Seq::empty() },
        ) == inputs,
{
}

/// What is said of a file depends on its text alone: on two states of the
/// inputs that give a file the same text, its diagnostics, its outline and
/// its line table are the same.
pub proof fn lemma_answers_depend_on_text_alone(a: InputsModel, b: InputsModel, file_id: FileId)
    requires
        a.text(file_id) == b.text(file_id),
    ensures
        diagnostics_of(file_id, a.text(file_id)) == diagnostics_of(file_id, b.text(file_id)),
        file_structure_of(a.text(file_id)) == file_structure_of(b.text(file_id)),
        LineTable::of(a.text(file_id)) == LineTable::of(b.text(file_id)),
{
}

/// An edit of one file leaves the text of every other file as it was.
pub proof fn lemma_edit_leaves_other_files(
    files: Map<u32, Seq<char>>,
    edits: Seq<(FileId, Seq<char>)>,
    k: nat,
    file_id: FileId,
)
    requires
        k <= edits.len(),
        forall|i: int| 0 <= i < k ==> (#[trigger] edits[i]).0 != file_id,
    ensures
        edited(files, edits, k).contains_key(file_id.0) == files.contains_key(file_id.0),
        files.contains_key(file_id.0) ==> edited(files, edits, k)[file_id.0] == files[file_id.0],
    decreases k,
{
    if k > 0 {
        lemma_edit_leaves_other_files(files, edits, (k - 1) as nat, file_id);
        assert(edits[k - 1].0 != file_id);
    }
}

/// The inputs of the analysis.
pub struct Inputs {
    files: HashMap<u32, String>,
    roots: Arc<Vec<SourceRoot>>,
    packages: Arc<Vec<PackageInfo>>,
}

impl View for Inputs {
    type V = InputsModel;

    closed spec fn view(&self) -> InputsModel {
        InputsModel {
            files: self.files@.map_values(|t: String| t@),
            roots: roots_model(self.roots@),
            packages: self.packages@,
        }
    }
}

impl Inputs {
    #[verifier::type_invariant]
    spec fn well_formed(self) -> bool {
        forall|k: u32| #[trigger] self.files@.contains_key(k) ==> fits(self.files@[k]@)
    }

    /// Inputs with nothing set.
    fn new() -> (r: Inputs)
        ensures
            r@ == InputsModel::empty(),
    {
        let r = Inputs {
            files: HashMap::new(),
            roots: Arc::new(Vec::new()),
            packages: Arc::new(Vec::new()),
        };
        assert(r@.files =~= Map::empty());
        assert(r@.roots =~= Seq::empty());
        r
    }

    /// The inputs once `change` was applied.
    fn apply(&self, change: AnalysisChange) -> (r: Inputs)
        ensures
            r@ == self@.apply(change@),
    {
        proof {
            use_type_invariant(self);
        }
        broadcast use vstd::std_specs::hash::group_hash_axioms;

        let ghost model = change@;
        let (packages, roots, edits) = change.into_parts();
        let mut files = self.files.clone();
        let ghost texts = |t: String| t@;
        let mut i: usize = 0;
        while i < edits.len()
            invariant
                i <= edits@.len(),
                model.files_changed == edits@.map_values(|e: FileEdit| edit_model(e)),
                forall|j: int| 0 <= j < edits@.len() ==> fits((#[trigger] edit_model(edits@[j])).1),
                forall|k: u32| #[trigger] files@.contains_key(k) ==> fits(files@[k]@),
                texts == (|t: String| t@),
                files@.map_values(texts) == edited(self@.files, model.files_changed, i as nat),
            decreases edits.len() - i,
        {
            let text = match &edits[i].text {
                Some(t) => t.clone(),
                None => String::new(),
            };
            assert(text@ == edit_model(edits@[i as int]).1);
            assert(model.files_changed[i as int] == edit_model(edits@[i as int]));
            let ghost before = files@;
            files.insert(edits[i].file_id.0, text);
            assert(files@.map_values(texts) =~= before.map_values(texts).insert(
                edits@[i as int].file_id.0,
                text@,
            ));
            i = i + 1;
        }
        let roots = match roots {
            Some(r) => Arc::new(r),
            None => share(&self.roots),
        };
        let packages = match packages {
            Some(p) => Arc::new(p.packages),
            None => share(&self.packages),
        };
        Inputs { files, roots, packages }
    }

    /// The text of the file `file_id`.
    fn file_text(&self, file_id: FileId) -> (r: &String)
        requires
            self@.has_file(file_id),
        ensures
            r@ == self@.files[file_id.0],
            fits(r@),
    {
        proof {
            use_type_invariant(self);
        }
        broadcast use vstd::std_specs::hash::group_hash_axioms;

        let found = self.files.get(&file_id.0);
        found.unwrap()
    }

    /// Returns whether the file `file_id` was given a text.
    fn has_file(&self, file_id: FileId) -> (r: bool)
        ensures
            r == self@.has_file(file_id),
    {
        broadcast use vstd::std_specs::hash::group_hash_axioms;

        self.files.contains_key(&file_id.0)
    }

    /// The files of the source root of the package `package_id`.
    fn package_files(&self, package_id: PackageId) -> (r: Vec<FileId>)
        requires
            self@.has_package(package_id),
        ensures
            r@ == self@.package_files(package_id),
    {
        let root = self.packages[package_id.0 as usize].source_root;
        let files = &self.roots[root.0 as usize].files;
        let mut out: Vec<FileId> = Vec::new();
        let mut i: usize = 0;
        while i < files.len()
            invariant
                i <= files@.len(),
                out@ == files@.take(i as int),
            decreases files.len() - i,
        {
            out.push(files[i]);
            i = i + 1;
            assert(out@ =~= files@.take(i as int));
        }
        assert(files@.take(i as int) =~= files@);
        out
    }
}

/// The state of the analysis: its inputs, and the revision that counts the
/// writes to them. The revision is also kept where every snapshot can see
/// it, so that a snapshot notices when it has become stale.
pub struct AnalysisDatabase {
    inputs: Arc<Inputs>,
    revision: u64,
    current: Arc<AtomicU64>,
}

/// A read-only view of the database at one revision.
pub struct DatabaseSnapshot {
    inputs: Arc<Inputs>,
    revision: u64,
    current: Arc<AtomicU64>,
}

impl AnalysisDatabase {
    /// The inputs, as mathematics.
    pub closed spec fn inputs(&self) -> InputsModel {
        self.inputs@
    }

    /// The number of writes so far.
    pub closed spec fn revision(&self) -> nat {
        self.revision as nat
    }

    /// A database with nothing set, at revision zero.
    pub fn new() -> (r: AnalysisDatabase)
        ensures
            r.inputs() == InputsModel::empty(),
            r.revision() == 0,
    {
        AnalysisDatabase {
            inputs: Arc::new(Inputs::new()),
            revision: 0,
            current: Arc::new(AtomicU64::new(0)),
        }
    }

    /// Applies `change` to the inputs and moves on to the next revision.
    /// Snapshots taken before are stale from now on.
    pub fn apply_change(&mut self, change: AnalysisChange)
        requires
            old(self).revision() < u64::MAX,
        ensures
            final(self).inputs() == old(self).inputs().apply(change@),
            final(self).revision() == old(self).revision() + 1,
    {
        let inputs = self.inputs.apply(change);
        self.inputs = Arc::new(inputs);
        self.revision = self.revision + 1;
        self.current.store(self.revision, Ordering::SeqCst);
    }

    /// Moves on to the next revision without changing the inputs, so that
    /// snapshots taken before give up what they compute.
    pub fn request_cancelation(&mut self)
        requires
            old(self).revision() < u64::MAX,
        ensures
            final(self).inputs() == old(self).inputs(),
            final(self).revision() == old(self).revision() + 1,
    {
        self.revision = self.revision + 1;
        self.current.store(self.revision, Ordering::SeqCst);
    }

    /// A view of the database as it is now.
    pub fn snapshot(&self) -> (r: DatabaseSnapshot)
        ensures
            r.inputs() == self.inputs(),
            r.revision() == self.revision(),
    {
        DatabaseSnapshot {
            inputs: share(&self.inputs),
            revision: self.revision,
            current: share(&self.current),
        }
    }
}

impl DatabaseSnapshot {
    /// The inputs, as mathematics.
    pub closed spec fn inputs(&self) -> InputsModel {
        self.inputs@
    }

    /// The revision at which the snapshot was taken.
    pub closed spec fn revision(&self) -> nat {
        self.revision as nat
    }

    /// The revision at which the snapshot was taken.
    pub fn taken_at(&self) -> (r: u64)
        ensures
            r == self.revision(),
    {
        self.revision
    }

    /// The revision that the database is at, as far as this thread can see
    /// now. It depends on what other threads have done, so nothing is
    /// claimed of it.
    pub fn seen(&self) -> (r: u64) {
        self.current.load(Ordering::SeqCst)
    }

    /// Returns whether the file `file_id` was given a text.
    pub fn has_file(&self, file_id: FileId) -> (r: bool)
        ensures
            r == self.inputs().has_file(file_id),
    {
        self.inputs.has_file(file_id)
    }

    /// Returns whether `package_id` is a package whose source root is known.
    pub fn has_package(&self, package_id: PackageId) -> (r: bool)
        ensures
            r == self.inputs().has_package(package_id),
    {
        let index = package_id.0 as usize;
        index < self.inputs.packages.len() && (self.inputs.packages[index].source_root.0 as usize)
            < self.inputs.roots.len()
    }

    /// The text of the file `file_id`.
    pub fn file_text(&self, file_id: FileId) -> (r: &String)
        requires
            self.inputs().has_file(file_id),
        ensures
            r@ == self.inputs().files[file_id.0],
            fits(r@),
    {
        self.inputs.file_text(file_id)
    }

    /// The parse of the file `file_id`.
    pub fn parse(&self, file_id: FileId) -> (r: Parse)
        requires
            self.inputs().has_file(file_id),
        ensures
            r.tree_model() == parse_tree(self.inputs().text(file_id)),
            r.errors_model() == parse_errors(self.inputs().text(file_id)),
            r.tree_model().text() == self.inputs().text(file_id),
    {
        parse(self.file_text(file_id).as_str())
    }

    /// The line table of the file `file_id`.
    pub fn line_index(&self, file_id: FileId) -> (r: LineIndex)
        requires
            self.inputs().has_file(file_id),
        ensures
            r@ == LineTable::of(self.inputs().text(file_id)),
    {
        LineIndex::new(self.file_text(file_id).as_str())
    }

    /// The diagnostics of the file `file_id`.
    pub fn diagnostics(&self, file_id: FileId) -> (r: Vec<Diagnostic>)
        requires
            self.inputs().has_file(file_id),
        ensures
            r@.map_values(|d: Diagnostic| d@) == diagnostics_of(
                file_id,
                self.inputs().text(file_id),
            ),
    {
        let parse = self.parse(file_id);
        diagnostics(file_id, &parse)
    }

    /// The outline of the file `file_id`.
    pub fn file_structure(&self, file_id: FileId) -> (r: Vec<StructureNode>)
        requires
            self.inputs().has_file(file_id),
        ensures
            r@.map_values(|n: StructureNode| n@) == file_structure_of(self.inputs().text(file_id)),
    {
        let parse = self.parse(file_id);
        file_structure(&parse.tree())
    }

    /// The files of the source root of the package `package_id`.
    pub fn package_source_files(&self, package_id: PackageId) -> (r: Vec<FileId>)
        requires
            self.inputs().has_package(package_id),
        ensures
            r@ == self.inputs().package_files(package_id),
    {
        self.inputs.package_files(package_id)
    }
}

} // verus!
