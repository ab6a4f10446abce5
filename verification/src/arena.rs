//! Append-only storage that hands out compact integer handles.

pub mod map;

use std::marker::PhantomData;
use vstd::prelude::*;

verus! {

/// The plain number behind a handle.
#[derive(Clone, Copy, Debug, PartialEq, Eq, Structural, Hash)]
pub struct RawId(pub u32);

impl From<RawId> for u32 {
    fn from(raw: RawId) -> (r: u32)
        ensures
            r == raw.0,
    {
        raw.0
    }
}

impl vstd::std_specs::convert::FromSpecImpl<RawId> for u32 {
    open spec fn obeys_from_spec() -> bool {
        true
    }

    open spec fn from_spec(raw: RawId) -> u32 {
        raw.0
    }
}

impl From<u32> for RawId {
    fn from(id: u32) -> (r: RawId)
        ensures
            r.0 == id,
    {
        RawId(id)
    }
}

impl vstd::std_specs::convert::FromSpecImpl<u32> for RawId {
    open spec fn obeys_from_spec() -> bool {
        true
    }

    open spec fn from_spec(id: u32) -> RawId {
        RawId(id)
    }
}

/// A handle to a value of type `T` in an [`Arena`]. Handles count from one:
/// the first value that an arena takes in gets the handle 1.
#[derive(Debug)]
pub struct Idx<T> {
    raw: RawId,
    _ty: PhantomData<T>,
}

impl<T> View for Idx<T> {
    type V = nat;

    closed spec fn view(&self) -> nat {
        self.raw.0 as nat
    }
}

impl<T> Clone for Idx<T> {
    fn clone(&self) -> (r: Self)
        ensures
            r == *self,
    {
        Idx { raw: self.raw, _ty: PhantomData }
    }
}

impl<T> Copy for Idx<T> {

}

impl<T> PartialEq for Idx<T> {
    fn eq(&self, other: &Idx<T>) -> (r: bool) {
        self.raw.0 == other.raw.0
    }
}

impl<T> vstd::std_specs::cmp::PartialEqSpecImpl for Idx<T> {
    open spec fn obeys_eq_spec() -> bool {
        true
    }

    open spec fn eq_spec(&self, other: &Idx<T>) -> bool {
        self@ == other@
    }
}

impl<T> Eq for Idx<T> {

}

impl<T> Idx<T> {
    /// Two handles with the same number are the same handle.
    pub broadcast proof fn lemma_same_number(a: Idx<T>, b: Idx<T>)
        requires
            #[trigger] a@ == #[trigger] b@,
        ensures
            a == b,
    {
    }

    /// The handle with the number `raw`.
    pub fn from_raw(raw: RawId) -> (r: Idx<T>)
        ensures
            r@ == raw.0,
    {
        Idx { raw, _ty: PhantomData }
    }

    /// The number of the handle.
    pub fn into_raw(self) -> (r: RawId)
        ensures
            r.0 == self@,
    {
        self.raw
    }
}

/// Append-only storage for values of type `T`.
#[derive(Debug, PartialEq, Eq)]
pub struct Arena<T> {
    data: Vec<T>,
}

impl<T> View for Arena<T> {
    type V = Seq<T>;

    closed spec fn view(&self) -> Seq<T> {
        self.data@
    }
}

impl<T> Arena<T> {
    /// Whether `idx` is the handle of a value in the arena.
    pub open spec fn holds(&self, idx: Idx<T>) -> bool {
        1 <= idx@ <= self@.len()
    }

    /// The value that `idx` stands for.
    pub open spec fn value(&self, idx: Idx<T>) -> T {
        self@[idx@ - 1]
    }

    /// An arena that holds nothing.
    pub fn new() -> (r: Arena<T>)
        ensures
            r@ == Seq::<T>::empty(),
    {
        Arena { data: Vec::new() }
    }

    /// The number of values in the arena.
    pub fn len(&self) -> (r: usize)
        ensures
            r == self@.len(),
    {
        self.data.len()
    }

    /// Whether the arena holds nothing.
    pub fn is_empty(&self) -> (r: bool)
        ensures
            r == (self@.len() == 0),
    {
        self.data.len() == 0
    }

    /// Takes in `value` and hands out its handle: one more than the number
    /// of values taken in before.
    pub fn allocate(&mut self, value: T) -> (r: Idx<T>)
        requires
            old(self)@.len() < u32::MAX,
        ensures
            final(self)@ == old(self)@.push(value),
            r@ == old(self)@.len() + 1,
    {
        let id = RawId((self.data.len() + 1) as u32);
        self.data.push(value);
        Idx::from_raw(id)
    }

    /// The value that `idx` stands for.
    pub fn get(&self, idx: Idx<T>) -> (r: &T)
        requires
            self.holds(idx),
        ensures
            *r == self.value(idx),
    {
        &self.data[(idx.raw.0 - 1) as usize]
    }

    /// The values of the arena with their handles, in the order in which
    /// they were taken in.
    pub fn iter(&self) -> (r: Vec<(Idx<T>, &T)>)
        requires
            self@.len() < u32::MAX,
        ensures
            r@.len() == self@.len(),
            forall|i: int|
                0 <= i < r@.len() ==> (#[trigger] r@[i]).0@ == i + 1 && *r@[i].1 == self@[i],
    {
        let mut out: Vec<(Idx<T>, &T)> = Vec::new();
        let mut i: usize = 0;
        while i < self.data.len()
            invariant
                i <= self.data.len(),
                self@.len() < u32::MAX,
                out@.len() == i,
                forall|j: int|
                    0 <= j < out@.len() ==> (#[trigger] out@[j]).0@ == j + 1 && *out@[j].1
                        == self@[j],
            decreases self.data.len() - i,
        {
            out.push((Idx::from_raw(RawId((i + 1) as u32)), &self.data[i]));
            i = i + 1;
        }
        out
    }
}

/// The handle that an arena hands out depends on nothing but the number of
/// values it took in before: two arenas that took in equally many values
/// hand out the same handle next, whatever the values are.
pub proof fn lemma_handles_stable<T>(a: Arena<T>, b: Arena<T>, ia: Idx<T>, ib: Idx<T>)
    requires
        a@.len() == b@.len(),
        ia@ == a@.len() + 1,
        ib@ == b@.len() + 1,
    ensures
        ia == ib,
{
    Idx::lemma_same_number(ia, ib);
}

} // verus!
