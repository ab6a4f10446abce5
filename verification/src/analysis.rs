//! The interface that a language server works with: a state that takes
//! changes, and snapshots of it that answer questions about the source.

use crate::cancelation::{checked, is_stale, Canceled};
use crate::change::AnalysisChange;
use crate::db::{
    diagnostics_of, file_structure_of, AnalysisDatabase, DatabaseSnapshot, InputsModel,
};
use crate::diagnostics::Diagnostic;
use crate::file_structure::StructureNode;
use crate::ids::{FileId, PackageId};
use crate::line_index::{LineIndex, LineTable};
use crate::memo::Memo;
use std::sync::Arc;
use vstd::prelude::*;

verus! {

/// Result of an operation that can be canceled.
pub type Cancelable<T> = Result<T, Canceled>;

/// The `Analysis` struct is the basis of all language server operations. It
/// maintains the current state of the source.
pub struct Analysis {
    db: AnalysisDatabase,
}

impl Analysis {
    /// The inputs that the analysis holds, as mathematics.
    pub closed spec fn inputs(&self) -> InputsModel {
        self.db.inputs()
    }

    /// The number of writes so far.
    pub closed spec fn revision(&self) -> nat {
        self.db.revision()
    }

    /// An analysis that holds nothing, at revision zero.
    pub fn new() -> (r: Analysis)
        ensures
            r.inputs() == InputsModel::empty(),
            r.revision() == 0,
    {
        Analysis { db: AnalysisDatabase::new() }
    }

    /// Applies the given changes to the state. If there are outstanding
    /// `AnalysisSnapshot`s they will be canceled.
    pub fn apply_change(&mut self, change: AnalysisChange)
        requires
            old(self).revision() < u64::MAX,
        ensures
            final(self).inputs() == old(self).inputs().apply(change@),
            final(self).revision() == old(self).revision() + 1,
    {
        self.db.apply_change(change)
    }

    /// Creates a snapshot of the current `Analysis`. You can query the
    /// resulting `AnalysisSnapshot` to get analysis and diagnostics.
    pub fn snapshot(&self) -> (r: AnalysisSnapshot)
        ensures
            r.inputs() == self.inputs(),
            r.revision() == self.revision(),
    {
        AnalysisSnapshot { db: self.db.snapshot() }
    }

    /// Requests any outstanding snapshot to cancel computations.
    pub fn request_cancelation(&mut self)
        requires
            old(self).revision() < u64::MAX,
        ensures
            final(self).inputs() == old(self).inputs(),
            final(self).revision() == old(self).revision() + 1,
    {
        self.db.request_cancelation();
    }
}

/// The `AnalysisSnapshot` is a snapshot of the state of the source, it
/// enables querying for the snapshot in a consistent state.
///
/// A `AnalysisSnapshot` is created by calling `Analysis::snapshot`. When
/// applying changes to the `Analysis` struct through the use of
/// `Analysis::apply_change` all snapshots are cancelled (most methods return
/// `Err(Canceled)`).
pub struct AnalysisSnapshot {
    db: DatabaseSnapshot,
}

impl AnalysisSnapshot {
    /// The inputs that the snapshot holds, as mathematics.
    pub closed spec fn inputs(&self) -> InputsModel {
        self.db.inputs()
    }

    /// The revision at which the snapshot was taken.
    pub closed spec fn revision(&self) -> nat {
        self.db.revision()
    }

    /// Returns whether the file `file_id` was given a text.
    pub fn has_file(&self, file_id: FileId) -> (r: bool)
        ensures
            r == self.inputs().has_file(file_id),
    {
        self.db.has_file(file_id)
    }

    /// Returns whether `package_id` is a package whose source root is known.
    pub fn has_package(&self, package_id: PackageId) -> (r: bool)
        ensures
            r == self.inputs().has_package(package_id),
    {
        self.db.has_package(package_id)
    }

    /// Returns whether the analysis has moved on since the snapshot was
    /// taken, as far as this thread can see now. What this thread sees
    /// depends on the other threads, so nothing is claimed of the answer;
    /// `is_stale` says what is made of what is seen.
    pub fn is_canceled(&self) -> (r: bool) {
        is_stale(self.db.taken_at(), self.db.seen())
    }

    /// Computes the set of diagnostics for the given file when the analysis
    /// is seen at revision `seen`: a snapshot that is stale by then gives up
    /// without computing anything.
    pub fn diagnostics_at(&self, seen: u64, file_id: FileId) -> (r: Cancelable<Vec<Diagnostic>>)
        requires
            self.inputs().has_file(file_id),
        ensures
            match r {
                Ok(v) => seen == self.revision() && v@.map_values(|d: Diagnostic| d@)
                    == diagnostics_of(file_id, self.inputs().text(file_id)),
                Err(_) => seen != self.revision(),
            },
    {
        if is_stale(self.db.taken_at(), seen) {
            Err(Canceled)
        } else {
            Ok(self.db.diagnostics(file_id))
        }
    }

    /// Computes the set of diagnostics for the given file. The snapshot
    /// looks at the revision of the analysis before it computes and again
    /// when it is done, and gives up where it finds itself stale.
    pub fn diagnostics(&self, file_id: FileId) -> (r: Cancelable<Vec<Diagnostic>>)
        requires
            self.inputs().has_file(file_id),
        ensures
            r matches Ok(v) ==> v@.map_values(|d: Diagnostic| d@) == diagnostics_of(
                file_id,
                self.inputs().text(file_id),
            ),
    {
        match self.diagnostics_at(self.db.seen(), file_id) {
            Ok(value) => self.with_db(value),
            Err(canceled) => Err(canceled),
        }
    }

    /// Returns all the source files of the given package when the analysis
    /// is seen at revision `seen`.
    pub fn package_source_files_at(&self, seen: u64, package_id: PackageId) -> (r: Cancelable<
        Vec<FileId>,
    >)
        requires
            self.inputs().has_package(package_id),
        ensures
            match r {
                Ok(v) => seen == self.revision() && v@ == self.inputs().package_files(package_id),
                Err(_) => seen != self.revision(),
            },
    {
        if is_stale(self.db.taken_at(), seen) {
            Err(Canceled)
        } else {
            Ok(self.db.package_source_files(package_id))
        }
    }

    /// Returns all the source files of the given package
    pub fn package_source_files(&self, package_id: PackageId) -> (r: Cancelable<Vec<FileId>>)
        requires
            self.inputs().has_package(package_id),
        ensures
            r matches Ok(v) ==> v@ == self.inputs().package_files(package_id),
    {
        match self.package_source_files_at(self.db.seen(), package_id) {
            Ok(value) => self.with_db(value),
            Err(canceled) => Err(canceled),
        }
    }

    /// Returns the line index for the specified file when the analysis is
    /// seen at revision `seen`.
    pub fn file_line_index_at(&self, seen: u64, file_id: FileId) -> (r: Cancelable<
        Arc<LineIndex>,
    >)
        requires
            self.inputs().has_file(file_id),
        ensures
            match r {
                Ok(v) => seen == self.revision() && v@ == LineTable::of(
                    self.inputs().text(file_id),
                ),
                Err(_) => seen != self.revision(),
            },
    {
        if is_stale(self.db.taken_at(), seen) {
            Err(Canceled)
        } else {
            Ok(Arc::new(self.db.line_index(file_id)))
        }
    }

    /// Returns the line index for the specified file
    pub fn file_line_index(&self, file_id: FileId) -> (r: Cancelable<Arc<LineIndex>>)
        requires
            self.inputs().has_file(file_id),
        ensures
            r matches Ok(v) ==> v@ == LineTable::of(self.inputs().text(file_id)),
    {
        match self.file_line_index_at(self.db.seen(), file_id) {
            Ok(value) => self.with_db(value),
            Err(canceled) => Err(canceled),
        }
    }

    /// Returns a tree structure of the symbols of a file when the analysis
    /// is seen at revision `seen`.
    pub fn file_structure_at(&self, seen: u64, file_id: FileId) -> (r: Cancelable<
        Vec<StructureNode>,
    >)
        requires
            self.inputs().has_file(file_id),
        ensures
            match r {
                Ok(v) => seen == self.revision() && v@.map_values(|n: StructureNode| n@)
                    == file_structure_of(self.inputs().text(file_id)),
                Err(_) => seen != self.revision(),
            },
    {
        if is_stale(self.db.taken_at(), seen) {
            Err(Canceled)
        } else {
            Ok(self.db.file_structure(file_id))
        }
    }

    /// Returns a tree structure of the symbols of a file.
    pub fn file_structure(&self, file_id: FileId) -> (r: Cancelable<Vec<StructureNode>>)
        requires
            self.inputs().has_file(file_id),
        ensures
            r matches Ok(v) ==> v@.map_values(|n: StructureNode| n@) == file_structure_of(
                self.inputs().text(file_id),
            ),
    {
        match self.file_structure_at(self.db.seen(), file_id) {
            Ok(value) => self.with_db(value),
            Err(canceled) => Err(canceled),
        }
    }

    /// Whether every answer in `memo` is what this snapshot says of the file
    /// that the answer stands under.
    pub open spec fn remembers(&self, memo: Memo<Vec<Diagnostic>>) -> bool {
        forall|k: u32| #[trigger]
            memo.entries().contains_key(k) ==> memo.entries()[k]@.map_values(|d: Diagnostic| d@)
                == diagnostics_of(FileId(k), self.inputs().text(FileId(k)))
    }

    /// Computes the set of diagnostics for the given file, unless `memo`
    /// holds them already: what was answered once is answered again as it
    /// was, and nothing is computed for it a second time.
    pub fn diagnostics_once(&self, memo: &mut Memo<Vec<Diagnostic>>, file_id: FileId) -> (r:
        Cancelable<Vec<Diagnostic>>)
        requires
            self.inputs().has_file(file_id),
            self.remembers(*old(memo)),
        ensures
            self.remembers(*final(memo)),
            r matches Ok(v) ==> v@.map_values(|d: Diagnostic| d@) == diagnostics_of(
                file_id,
                self.inputs().text(file_id),
            ),
            old(memo).entries().contains_key(file_id.0) ==> {
                &&& r matches Ok(v) && v@ == old(memo).entries()[file_id.0]@
                &&& final(memo).executions() == old(memo).executions()
                &&& final(memo).entries() == old(memo).entries()
            },
            !old(memo).entries().contains_key(file_id.0) ==> {
                &&& r is Ok ==> final(memo).entries().contains_key(file_id.0)
                &&& r is Err ==> final(memo).entries() == old(memo).entries()
                &&& r is Err ==> final(memo).executions() == old(memo).executions()
            },
    {
        match memo.get(file_id.0) {
            Some(known) => {
                let copy = known.clone();
                assert(copy@ =~= known@);
                return Ok(copy);
            },
            None => {},
        }
        if self.is_canceled() {
            return Err(Canceled);
        }
        let value = self.db.diagnostics(file_id);
        if self.is_canceled() {
            return Err(Canceled);
        }
        let copy = value.clone();
        assert(copy@ =~= value@);
        memo.put(file_id.0, copy);
        Ok(value)
    }

    /// Hands out `value`, which was computed on this snapshot, unless the
    /// analysis has moved on in the meantime. Whether it has depends on the
    /// other threads, so it is not stated when the value is handed out;
    /// `checked` says what is answered for each revision that is seen.
    fn with_db<T>(&self, value: T) -> (r: Cancelable<T>)
        ensures
            r matches Ok(v) ==> v == value,
    {
        checked(self.db.taken_at(), self.db.seen(), value)
    }
}

impl Analysis {
    /// Once the analysis has moved on, a snapshot that was taken before is
    /// at an earlier revision than the analysis, for good: revisions only
    /// rise. What such a snapshot answers when it sees the revision of the
    /// analysis is that it was canceled, whatever it had computed.
    pub proof fn lemma_moving_on_cancels<T>(
        before: Analysis,
        after: Analysis,
        snapshot: AnalysisSnapshot,
        value: T,
    )
        requires
            snapshot.revision() == before.revision(),
            after.revision() == before.revision() + 1,
            after.revision() <= u64::MAX,
        ensures
            snapshot.revision() < after.revision(),
            crate::cancelation::answer(snapshot.revision() as u64, after.revision() as u64, value)
                == Err::<T, Canceled>(Canceled),
    {
    }
}

} // verus!
