//! Interning: equal names get equal handles, so that names are compared by
//! comparing numbers.

use vstd::prelude::*;

verus! {

/// The handle of an interned name.
#[derive(Clone, Copy, Debug, PartialEq, Eq, Structural, Hash)]
pub struct NameId(pub u32);

/// The position of `text` among the first `upto` of `names`, where it is
/// among them.
pub open spec fn position_of(names: Seq<Seq<u8>>, text: Seq<u8>, upto: nat) -> Option<nat>
    decreases upto,
{
    if upto == 0 || upto > names.len() {
        None
    } else {
        match position_of(names, text, (upto - 1) as nat) {
            Some(i) => Some(i),
            None => if names[upto - 1] == text {
                Some((upto - 1) as nat)
            } else {
                None
            },
        }
    }
}

/// The names once `text` is interned, and the handle of `text`: the place
/// where it stands already, or a new place at the end.
pub open spec fn interned(names: Seq<Seq<u8>>, text: Seq<u8>) -> (Seq<Seq<u8>>, nat) {
    match position_of(names, text, names.len()) {
        Some(i) => (names, i),
        None => (names.push(text), names.len()),
    }
}

/// Whether no name stands at two places.
pub open spec fn distinct(names: Seq<Seq<u8>>) -> bool {
    forall|i: int, j: int| 0 <= i < j < names.len() ==> names[i] != names[j]
}

/// Where `position_of` finds a name, the name stands, and nowhere before;
/// where it finds none, the name stands nowhere.
pub proof fn lemma_position_of(names: Seq<Seq<u8>>, text: Seq<u8>, upto: nat)
    requires
        upto <= names.len(),
    ensures
        match position_of(names, text, upto) {
            Some(i) => i < upto && names[i as int] == text && forall|j: int|
                0 <= j < i ==> names[j] != text,
            None => forall|j: int| 0 <= j < upto ==> names[j] != text,
        },
    decreases upto,
{
    if upto > 0 {
        lemma_position_of(names, text, (upto - 1) as nat);
    }
}

/// Interning keeps names distinct, keeps the handles of the names that were
/// there, and gives the handle at which the name stands.
pub proof fn lemma_interned(names: Seq<Seq<u8>>, text: Seq<u8>)
    requires
        distinct(names),
    ensures
        distinct(interned(names, text).0),
        interned(names, text).1 < interned(names, text).0.len(),
        interned(names, text).0[interned(names, text).1 as int] == text,
        names.len() <= interned(names, text).0.len(),
        forall|i: int| 0 <= i < names.len() ==> interned(names, text).0[i] == names[i],
{
    lemma_position_of(names, text, names.len());
}

/// Equal names have equal handles, and different names different ones:
/// interning two names one after the other gives the same handle exactly
/// when the names are the same.
pub proof fn lemma_equal_names_equal_handles(names: Seq<Seq<u8>>, a: Seq<u8>, b: Seq<u8>)
    requires
        distinct(names),
    ensures
        (interned(names, a).1 == interned(interned(names, a).0, b).1) <==> a == b,
{
    let after_a = interned(names, a).0;
    lemma_interned(names, a);
    lemma_interned(after_a, b);
    lemma_position_of(after_a, b, after_a.len());
    lemma_position_of(names, a, names.len());
}

/// A table of names, each at the place that is its handle.
#[derive(Debug, PartialEq, Eq)]
pub struct Interner {
    names: Vec<Vec<u8>>,
}

impl View for Interner {
    type V = Seq<Seq<u8>>;

    closed spec fn view(&self) -> Seq<Seq<u8>> {
        self.names@.map_values(|n: Vec<u8>| n@)
    }
}

impl Interner {
    /// A table without names.
    pub fn new() -> (r: Interner)
        ensures
            r@ == Seq::<Seq<u8>>::empty(),
    {
        let r = Interner { names: Vec::new() };
        assert(r@ =~= Seq::<Seq<u8>>::empty());
        r
    }

    /// The number of names.
    pub fn len(&self) -> (r: usize)
        ensures
            r == self@.len(),
    {
        self.names.len()
    }

    /// The handle of `text`; the name is added where the table lacks it.
    pub fn intern(&mut self, text: &[u8]) -> (r: NameId)
        requires
            old(self)@.len() < u32::MAX,
        ensures
            final(self)@ == interned(old(self)@, text@).0,
            r.0 == interned(old(self)@, text@).1,
    {
        let mut i: usize = 0;
        while i < self.names.len()
            invariant
                i <= self.names@.len() < u32::MAX,
                self@ == old(self)@,
                position_of(self@, text@, i as nat) is None,
            decreases self.names.len() - i,
        {
            assert(self@[i as int] == self.names@[i as int]@);
            if same_text(&self.names[i], text) {
                proof {
                    lemma_found_stays(self@, text@, (i + 1) as nat, self@.len());
                }
                return NameId(i as u32);
            }
            i = i + 1;
        }
        let mut bytes: Vec<u8> = Vec::new();
        let mut k: usize = 0;
        while k < text.len()
            invariant
                k <= text@.len(),
                bytes@ == text@.take(k as int),
            decreases text.len() - k,
        {
            bytes.push(text[k]);
            k = k + 1;
            assert(bytes@ =~= text@.take(k as int));
        }
        assert(text@.take(k as int) =~= text@);
        let ghost before = self.names@;
        self.names.push(bytes);
        assert(self@ =~= old(self)@.push(text@));
        NameId(i as u32)
    }

    /// The name that `id` stands for.
    pub fn lookup(&self, id: NameId) -> (r: &Vec<u8>)
        requires
            id.0 < self@.len(),
        ensures
            r@ == self@[id.0 as int],
    {
        &self.names[id.0 as usize]
    }
}

/// A name that was found among the first names is found among more.
pub proof fn lemma_found_stays(names: Seq<Seq<u8>>, text: Seq<u8>, found: nat, upto: nat)
    requires
        found <= upto <= names.len(),
        position_of(names, text, found) is Some,
    ensures
        position_of(names, text, upto) == position_of(names, text, found),
    decreases upto - found,
{
    if found < upto {
        lemma_found_stays(names, text, found, (upto - 1) as nat);
    }
}

/// Whether `name` is the text `text`.
fn same_text(name: &Vec<u8>, text: &[u8]) -> (r: bool)
    ensures
        r == (name@ == text@),
{
    if name.len() != text.len() {
        return false;
    }
    let mut i: usize = 0;
    while i < name.len()
        invariant
            i <= name@.len(),
            name@.len() == text@.len(),
            forall|j: int| 0 <= j < i ==> name@[j] == text@[j],
        decreases name.len() - i,
    {
        if name[i] != text[i] {
            return false;
        }
        i = i + 1;
    }
    assert(name@ =~= text@);
    true
}

} // verus!
