//! The signal that a computation was given up because its inputs changed.

use vstd::prelude::*;

verus! {

/// Says that a computation was canceled: the snapshot it ran on is older
/// than the state of the analysis. Take a new snapshot and ask again.
#[derive(Clone, Copy, Debug, PartialEq, Eq, Structural, Hash)]
pub struct Canceled;

/// What a snapshot that was taken at revision `taken` answers when the
/// analysis is seen to be at revision `seen`: `value` where the two are the
/// same, and the signal that the computation was canceled where they differ.
pub open spec fn answer<T>(taken: u64, seen: u64, value: T) -> Result<T, Canceled> {
    if seen == taken {
        Ok(value)
    } else {
        Err(Canceled)
    }
}

/// Returns whether a snapshot that was taken at revision `taken` is stale
/// when the analysis is seen to be at revision `seen`: it is unless the two
/// are the same.
pub fn is_stale(taken: u64, seen: u64) -> (r: bool)
    ensures
        r == (seen != taken),
{
    seen != taken
}

/// Returns what a snapshot that was taken at revision `taken` answers when
/// the analysis is seen to be at revision `seen`.
pub fn checked<T>(taken: u64, seen: u64, value: T) -> (r: Result<T, Canceled>)
    ensures
        r == answer(taken, seen, value),
{
    if seen == taken {
        Ok(value)
    } else {
        Err(Canceled)
    }
}

} // verus!
