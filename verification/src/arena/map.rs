//! A map from arena handles to some other type. Space requirement is
//! O(highest handle).

use crate::arena::Idx;
use std::marker::PhantomData;
use vstd::prelude::*;

verus! {

/// A map from arena handles to some other type. Space requirement is
/// O(highest handle).
#[derive(Debug, PartialEq, Eq, PartialOrd, Ord, Hash)]
pub struct ArenaMap<ID, T> {
    v: Vec<Option<T>>,
    _ty: PhantomData<ID>,
}

impl<ID, T: Clone> Clone for ArenaMap<ID, T> {
    fn clone(&self) -> (r: Self)
        ensures
            r@.dom() == self@.dom(),
            forall|k: nat| #[trigger] self@.contains_key(k) ==> cloned::<T>(self@[k], r@[k]),
    {
        let mut v: Vec<Option<T>> = Vec::new();
        let mut i: usize = 0;
        while i < self.v.len()
            invariant
                i <= self.v@.len(),
                v@.len() == i,
                forall|j: int|
                    0 <= j < i ==> (#[trigger] v@[j] is Some) == (self.v@[j] is Some) && (self.v@[j]
                        is Some ==> cloned::<T>(self.v@[j]->0, v@[j]->0)),
            decreases self.v.len() - i,
        {
            let slot = match &self.v[i] {
                Some(t) => Some(t.clone()),
                None => None,
            };
            v.push(slot);
            i = i + 1;
        }
        let r = ArenaMap { v, _ty: PhantomData };
        assert(r@.dom() =~= self@.dom()) by {
            assert forall|k: nat| r@.dom().contains(k) == self@.dom().contains(k) by {
                if k < self.v@.len() {
                    assert((v@[k as int] is Some) == (self.v@[k as int] is Some));
                }
            }
        }
        r
    }
}

/// The entries that a run of slots holds: the filled slots that a handle
/// can reach, each under its position.
spec fn slots_model<T>(v: Seq<Option<T>>) -> Map<nat, T> {
    Map::new(
        |i: nat| i < v.len() && i <= u32::MAX && v[i as int] is Some,
        |i: nat| v[i as int]->0,
    )
}

/// Whether `keys` are the keys of `m` in rising order, and `values` what
/// stands under each of them.
pub open spec fn in_key_order<V>(m: Map<nat, V>, keys: Seq<nat>, values: Seq<V>) -> bool {
    &&& keys.len() == values.len()
    &&& forall|i: int, j: int| 0 <= i < j < keys.len() ==> keys[i] < keys[j]
    &&& forall|i: int|
        0 <= i < keys.len() ==> m.contains_key(#[trigger] keys[i]) && m[keys[i]] == values[i]
    &&& forall|k: nat| #[trigger]
        m.contains_key(k) ==> exists|i: int| 0 <= i < keys.len() && #[trigger] keys[i] == k
}

/// The numbers of the handles in `entries`, one by one.
pub open spec fn handles<T, V>(entries: Seq<(Idx<T>, &mut V)>) -> Seq<nat> {
    Seq::new(entries.len(), |i: int| entries[i].0@)
}

/// What the references in `entries` point to now, one by one.
pub open spec fn current_values<T, V>(entries: Seq<(Idx<T>, &mut V)>) -> Seq<V> {
    Seq::new(entries.len(), |i: int| *entries[i].1)
}

/// What the references in `refs` point to now, one by one.
pub open spec fn current<V>(refs: Seq<&mut V>) -> Seq<V> {
    Seq::new(refs.len(), |i: int| *refs[i])
}

/// What the references in `refs` point to, one by one.
pub open spec fn referents<V>(refs: Seq<&V>) -> Seq<V> {
    refs.map_values(|v: &V| *v)
}

impl<ID, T> View for ArenaMap<ID, T> {
    type V = Map<nat, T>;

    closed spec fn view(&self) -> Map<nat, T> {
        slots_model(self.v@)
    }
}

impl<T, V> ArenaMap<Idx<T>, V> {
    /// Puts `t` under `id`, in place of what was there.
    pub fn insert(&mut self, id: Idx<T>, t: V)
        ensures
            final(self)@ == old(self)@.insert(id@, t),
    {
        let idx = Self::idx_to_raw(id);
        while self.v.len() <= idx
            invariant
                self@ == old(self)@,
            decreases idx + 1 - self.v.len(),
        {
            assert(slots_model(self.v@.push(None)) =~= slots_model(self.v@));
            self.v.push(None);
        }
        assert(slots_model(self.v@.update(idx as int, Some(t))) =~= self@.insert(id@, t));
        self.v[idx] = Some(t);
    }

    /// What stands under `id`, if anything.
    pub fn get(&self, id: Idx<T>) -> (r: Option<&V>)
        ensures
            r == (if self@.contains_key(id@) {
                Some(&self@[id@])
            } else {
                None
            }),
    {
        let idx = Self::idx_to_raw(id);
        if idx < self.v.len() {
            self.v[idx].as_ref()
        } else {
            None
        }
    }

    /// What stands under `id`, if anything, to be changed in place.
    pub fn get_mut(&mut self, id: Idx<T>) -> (r: Option<&mut V>)
        ensures
            match r {
                Some(v) => old(self)@.contains_key(id@) && *v == old(self)@[id@] && final(self)@
                    == old(self)@.insert(id@, *final(v)),
                None => !old(self)@.contains_key(id@) && final(self)@ == old(self)@,
            },
    {
        let idx = Self::idx_to_raw(id);
        if idx < self.v.len() {
            let ghost before = self.v@;
            let slot = &mut self.v[idx];
            let r = slot.as_mut();
            assert(r matches Some(v) ==> slots_model(before.update(idx as int, Some(*final(v))))
                =~= slots_model(before).insert(id@, *final(v)));
            r
        } else {
            None
        }
    }

    /// The values of the map, in the order of their handles.
    pub fn values(&self) -> (r: Vec<&V>)
        ensures
            exists|keys: Seq<nat>|
                #[trigger] in_key_order(self@, keys, referents(r@)),
    {
        let mut out: Vec<&V> = Vec::new();
        let ghost mut keys: Seq<nat> = Seq::empty();
        let mut i: usize = 0;
        while i < self.v.len() && i <= 0xffff_ffff
            invariant
                i <= self.v.len(),
                in_key_order(slots_model(self.v@.take(i as int)), keys, referents(out@)),
                forall|j: int| 0 <= j < keys.len() ==> keys[j] < i,
            decreases self.v.len() - i,
        {
            let ghost before = out@;
            let ghost old_keys = keys;
            match &self.v[i] {
                Some(v) => {
                    out.push(v);
                    proof {
                        keys = keys.push(i as nat);
                        assert(referents(out@) =~= referents(before).push(*v));
                    }
                },
                None => {},
            }
            proof {
                let m0 = slots_model(self.v@.take(i as int));
                let m1 = slots_model(self.v@.take(i + 1));
                assert forall|k: nat| #[trigger] m1.contains_key(k) implies exists|j: int|
                    0 <= j < keys.len() && #[trigger] keys[j] == k by {
                    if k < i {
                        assert(m0.contains_key(k));
                        let j = choose|j: int|
                            0 <= j < old_keys.len() && #[trigger] old_keys[j] == k;
                        assert(keys[j] == k);
                    } else {
                        assert(keys[keys.len() - 1] == k);
                    }
                }
            }
            i = i + 1;
        }
        assert(slots_model(self.v@.take(i as int)) =~= self@);
        out
    }

    /// The values of the map, in the order of their handles, to be changed
    /// in place.
    pub fn values_mut(&mut self) -> (r: Vec<&mut V>)
        ensures
            exists|keys: Seq<nat>|
                {
                    &&& #[trigger] in_key_order(old(self)@, keys, current(r@))
                    &&& final(self)@.dom() == old(self)@.dom()
                    &&& forall|i: int|
                        0 <= i < keys.len() ==> final(self)@[keys[i]] == *final(r@[i])
                },
    {
        let ghost before = self.v@;
        let ghost after = final(self).v@;
        let total = self.v.len();
        let mut out: Vec<&mut V> = Vec::new();
        let ghost mut keys: Seq<nat> = Seq::empty();
        let mut rest: &mut [Option<V>] = self.v.as_mut_slice();
        let ghost whole = final(rest)@;
        let mut n: usize = 0;
        assert(whole.skip(0) =~= whole);
        while rest.len() > 0 && n <= 0xffff_ffff
            invariant
                n <= before.len() == total,
                n <= whole.len(),
                rest@ == before.skip(n as int),
                whole.skip(n as int) == final(rest)@,
                forall|j: int| 0 <= j < n && before[j] is None ==> (#[trigger] whole[j]) is None,
                keys.len() == out@.len(),
                forall|m: int|
                    0 <= m < keys.len() ==> (#[trigger] keys[m]) < n && keys[m] <= u32::MAX
                        && before[keys[m] as int] == Some(*out@[m]) && whole[keys[m] as int]
                        == Some(*final(out@[m])),
                forall|a: int, b: int| 0 <= a < b < keys.len() ==> keys[a] < keys[b],
                forall|j: nat|
                    j < n && j <= u32::MAX && before[j as int] is Some ==> exists|m: int|
                        0 <= m < keys.len() && #[trigger] keys[m] == j,
            decreases rest@.len(),
        {
            let ghost old_keys = keys;
            let ghost rest_final = final(rest)@;
            let (head, tail) = rest.split_at_mut(1);
            let ghost head_final = final(head)@;
            let ghost here = head@[0];
            assert(here == before[n as int]);
            match head.first_mut() {
                Some(slot) => match slot.as_mut() {
                    Some(v) => {
                        proof {
                            keys = keys.push(n as nat);
                        }
                        out.push(v);
                    },
                    None => {},
                },
                None => {},
            }
            rest = tail;
            proof {
                assert(head_final.len() == 1);
                assert(rest_final =~= head_final + final(rest)@);
                assert(whole.skip(n as int).len() >= 1);
                assert(whole[n as int] == whole.skip(n as int)[0]);
                assert(whole[n as int] == rest_final[0]);
                assert(rest_final[0] == head_final[0]);
                assert(whole.skip(n + 1) =~= rest_final.skip(1));
                assert(rest_final.skip(1) =~= final(rest)@);
                assert(before.skip(n as int).subrange(1, before.len() - n) =~= before.skip(n + 1));
                assert forall|j: nat|
                    j < n + 1 && j <= u32::MAX && before[j as int] is Some implies exists|m: int|
                    0 <= m < keys.len() && #[trigger] keys[m] == j by {
                    if j < n {
                        let m = choose|m: int|
                            0 <= m < old_keys.len() && #[trigger] old_keys[m] == j;
                        assert(keys[m] == j);
                    } else {
                        assert(keys[keys.len() - 1] == j);
                    }
                }
            }
            n = n + 1;
        }
        proof {
            assert(final(rest)@ == rest@);
            assert(whole.skip(n as int) == before.skip(n as int));
            assert(after == whole);
            assert(in_key_order(slots_model(before), keys, current(out@))) by {
                assert forall|k: nat| #[trigger]
                    slots_model(before).contains_key(k) implies exists|m: int|
                    0 <= m < keys.len() && #[trigger] keys[m] == k by {
                    assert(k < n);
                }
            }
            assert(whole.len() == before.len());
            assert forall|j: int| 0 <= j < before.len() && j <= u32::MAX implies (
            #[trigger] whole[j] is Some) == (before[j] is Some) by {
                if j >= n {
                    assert(whole[j] == whole.skip(n as int)[j - n]);
                    assert(before[j] == before.skip(n as int)[j - n]);
                } else if before[j] is Some {
                    let m = choose|m: int| 0 <= m < keys.len() && #[trigger] keys[m] == j as nat;
                    assert(whole[keys[m] as int] == Some(*final(out@[m])));
                }
            }
            assert(slots_model(whole).dom() =~= slots_model(before).dom());
            assert forall|i: int| 0 <= i < keys.len() implies slots_model(after)[keys[i]]
                == *final(out@[i]) by {
                assert(whole[keys[i] as int] == Some(*final(out@[i])));
            }
            assert(in_key_order(old(self)@, keys, current(out@)));
        }
        out
    }

    /// The entries of the map, in the order of their handles, with the
    /// values to be changed in place.
    pub fn iter_mut(&mut self) -> (r: Vec<(Idx<T>, &mut V)>)
        ensures
            in_key_order(old(self)@, handles(r@), current_values(r@)),
            final(self)@.dom() == old(self)@.dom(),
            forall|i: int| 0 <= i < r@.len() ==> final(self)@[r@[i].0@] == *final(r@[i].1),
    {
        let ghost before = self.v@;
        let ghost after = final(self).v@;
        let total = self.v.len();
        let mut out: Vec<(Idx<T>, &mut V)> = Vec::new();
        let ghost mut keys: Seq<nat> = Seq::empty();
        let mut rest: &mut [Option<V>] = self.v.as_mut_slice();
        let ghost whole = final(rest)@;
        let mut n: usize = 0;
        assert(whole.skip(0) =~= whole);
        while rest.len() > 0 && n <= 0xffff_ffff
            invariant
                n <= before.len() == total,
                n <= whole.len(),
                rest@ == before.skip(n as int),
                whole.skip(n as int) == final(rest)@,
                forall|j: int| 0 <= j < n && before[j] is None ==> (#[trigger] whole[j]) is None,
                keys.len() == out@.len(),
                forall|m: int|
                    0 <= m < keys.len() ==> (#[trigger] keys[m]) < n && keys[m] <= u32::MAX
                        && out@[m].0@ == keys[m] && before[keys[m] as int] == Some(*out@[m].1)
                        && whole[keys[m] as int] == Some(*final(out@[m].1)),
                forall|a: int, b: int| 0 <= a < b < keys.len() ==> keys[a] < keys[b],
                forall|j: nat|
                    j < n && j <= u32::MAX && before[j as int] is Some ==> exists|m: int|
                        0 <= m < keys.len() && #[trigger] keys[m] == j,
            decreases rest@.len(),
        {
            let ghost old_keys = keys;
            let ghost rest_final = final(rest)@;
            let (head, tail) = rest.split_at_mut(1);
            let ghost head_final = final(head)@;
            let ghost here = head@[0];
            assert(here == before[n as int]);
            match head.first_mut() {
                Some(slot) => match slot.as_mut() {
                    Some(v) => {
                        proof {
                            keys = keys.push(n as nat);
                        }
                        out.push((Self::idx_from_raw(n), v));
                    },
                    None => {},
                },
                None => {},
            }
            rest = tail;
            proof {
                assert(head_final.len() == 1);
                assert(rest_final =~= head_final + final(rest)@);
                assert(whole.skip(n as int).len() >= 1);
                assert(whole[n as int] == whole.skip(n as int)[0]);
                assert(whole[n as int] == rest_final[0]);
                assert(rest_final[0] == head_final[0]);
                assert(whole.skip(n + 1) =~= rest_final.skip(1));
                assert(rest_final.skip(1) =~= final(rest)@);
                assert(before.skip(n as int).subrange(1, before.len() - n) =~= before.skip(n + 1));
                assert forall|j: nat|
                    j < n + 1 && j <= u32::MAX && before[j as int] is Some implies exists|m: int|
                    0 <= m < keys.len() && #[trigger] keys[m] == j by {
                    if j < n {
                        let m = choose|m: int|
                            0 <= m < old_keys.len() && #[trigger] old_keys[m] == j;
                        assert(keys[m] == j);
                    } else {
                        assert(keys[keys.len() - 1] == j);
                    }
                }
            }
            n = n + 1;
        }
        proof {
            assert(final(rest)@ == rest@);
            assert(whole.skip(n as int) == before.skip(n as int));
            assert(after == whole);
            assert(handles(out@) =~= keys);
            assert(in_key_order(slots_model(before), keys, current_values(out@))) by {
                assert forall|k: nat| #[trigger]
                    slots_model(before).contains_key(k) implies exists|m: int|
                    0 <= m < keys.len() && #[trigger] keys[m] == k by {
                    assert(k < n);
                }
            }
            assert(whole.len() == before.len());
            assert forall|j: int| 0 <= j < before.len() && j <= u32::MAX implies (
            #[trigger] whole[j] is Some) == (before[j] is Some) by {
                if j >= n {
                    assert(whole[j] == whole.skip(n as int)[j - n]);
                    assert(before[j] == before.skip(n as int)[j - n]);
                } else if before[j] is Some {
                    let m = choose|m: int| 0 <= m < keys.len() && #[trigger] keys[m] == j as nat;
                    assert(whole[keys[m] as int] == Some(*final(out@[m].1)));
                }
            }
            assert(slots_model(whole).dom() =~= slots_model(before).dom());
            assert forall|i: int| 0 <= i < out@.len() implies slots_model(after)[out@[i].0@]
                == *final(out@[i].1) by {
                assert(whole[keys[i] as int] == Some(*final(out@[i].1)));
            }
        }
        out
    }

    /// The entries of the map, in the order of their handles.
    pub fn iter(&self) -> (r: Vec<(Idx<T>, &V)>)
        ensures
            in_key_order(
                self@,
                r@.map_values(|e: (Idx<T>, &V)| e.0@),
                r@.map_values(|e: (Idx<T>, &V)| *e.1),
            ),
    {
        let mut out: Vec<(Idx<T>, &V)> = Vec::new();
        let mut i: usize = 0;
        while i < self.v.len() && i <= 0xffff_ffff
            invariant
                i <= self.v.len(),
                in_key_order(
                    slots_model(self.v@.take(i as int)),
                    out@.map_values(|e: (Idx<T>, &V)| e.0@),
                    out@.map_values(|e: (Idx<T>, &V)| *e.1),
                ),
                forall|j: int| 0 <= j < out@.len() ==> (#[trigger] out@[j]).0@ < i,
            decreases self.v.len() - i,
        {
            let ghost before = out@;
            match &self.v[i] {
                Some(v) => {
                    out.push((Self::idx_from_raw(i), v));
                    proof {
                        assert(out@.map_values(|e: (Idx<T>, &V)| e.0@) =~= before.map_values(
                            |e: (Idx<T>, &V)| e.0@,
                        ).push(i as nat));
                        assert(out@.map_values(|e: (Idx<T>, &V)| *e.1) =~= before.map_values(
                            |e: (Idx<T>, &V)| *e.1,
                        ).push(*v));
                    }
                },
                None => {},
            }
            proof {
                let keys = out@.map_values(|e: (Idx<T>, &V)| e.0@);
                let old_keys = before.map_values(|e: (Idx<T>, &V)| e.0@);
                let m0 = slots_model(self.v@.take(i as int));
                let m1 = slots_model(self.v@.take(i + 1));
                assert forall|k: nat| #[trigger] m1.contains_key(k) implies exists|j: int|
                    0 <= j < keys.len() && #[trigger] keys[j] == k by {
                    if k < i {
                        assert(m0.contains_key(k));
                        let j = choose|j: int|
                            0 <= j < old_keys.len() && #[trigger] old_keys[j] == k;
                        assert(keys[j] == k);
                    } else {
                        assert(keys[keys.len() - 1] == k);
                    }
                }
            }
            i = i + 1;
        }
        assert(slots_model(self.v@.take(i as int)) =~= self@);
        out
    }

    /// The slot that belongs to `id`.
    fn idx_to_raw(id: Idx<T>) -> (r: usize)
        ensures
            r == id@,
    {
        u32::from(id.into_raw()) as usize
    }

    /// The handle that the slot `idx` belongs to.
    fn idx_from_raw(idx: usize) -> (r: Idx<T>)
        requires
            idx <= u32::MAX,
        ensures
            r@ == idx,
    {
        Idx::from_raw((idx as u32).into())
    }
}

impl<T, V> std::ops::Index<Idx<V>> for ArenaMap<Idx<V>, T> {
    type Output = T;

    fn index(&self, index: Idx<V>) -> (r: &T)
        ensures
            *r == self@[index@],
    {
        self.v[Self::idx_to_raw(index)].as_ref().unwrap()
    }
}

impl<T, V> vstd::std_specs::core::IndexSpecImpl<Idx<V>> for ArenaMap<Idx<V>, T> {
    open spec fn index_req(&self, index: &Idx<V>) -> bool {
        self@.contains_key(index@)
    }
}

impl<T, V> std::ops::IndexMut<Idx<V>> for ArenaMap<Idx<V>, T> {
    fn index_mut(&mut self, index: Idx<V>) -> (r: &mut T)
        requires
            old(self)@.contains_key(index@),
        ensures
            *r == old(self)@[index@],
            final(self)@ == old(self)@.insert(index@, *final(r)),
    {
        let ghost before = self.v@;
        let idx = Self::idx_to_raw(index);
        let r = self.v[idx].as_mut().unwrap();
        assert(slots_model(before.update(idx as int, Some(*final(r)))) =~= slots_model(
            before,
        ).insert(index@, *final(r)));
        r
    }
}

impl<T, V> Default for ArenaMap<Idx<V>, T> {
    fn default() -> (r: Self)
        ensures
            r@ == Map::<nat, T>::empty(),
    {
        let r = ArenaMap { v: Vec::new(), _ty: PhantomData };
        assert(r@ =~= Map::<nat, T>::empty());
        r
    }
}

} // verus!
