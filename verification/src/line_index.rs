//! A table, built once for a text, that turns a byte offset into a line and
//! a column counted in UTF-16 code units.

use crate::text::TextSize;
use vstd::string::StringSliceAdditionalSpecFns;
use vstd::prelude::*;

verus! {

/// A place in a text: a line, counted from zero, and a column on that line,
/// counted in UTF-16 code units.
#[derive(Clone, Copy, Debug, PartialEq, Eq, Structural, Hash)]
pub struct LineCol {
    /// Zero-based
    pub line: u32,
    /// Zero-based
    pub col_utf16: u32,
}

/// Whether `b` is a byte that continues a character begun by an earlier byte.
pub open spec fn continues(b: u8) -> bool {
    0x80 <= b < 0xc0
}

/// Whether `b` begins a character that takes two UTF-16 code units.
pub open spec fn begins_wide(b: u8) -> bool {
    b >= 0xf0
}

/// The number of members of `s` that are below `x`.
pub open spec fn rank(s: Seq<nat>, x: nat) -> nat
    decreases s.len(),
{
    if s.len() == 0 {
        0
    } else {
        rank(s.drop_last(), x) + if s.last() < x {
            1nat
        } else {
            0nat
        }
    }
}

/// Whether the members of `s` rise strictly.
pub open spec fn rising(s: Seq<nat>) -> bool {
    forall|i: int, j: int| 0 <= i < j < s.len() ==> s[i] < s[j]
}

/// The offsets below `upto` whose byte in `text` meets `wanted`, in rising
/// order.
pub open spec fn positions(text: Seq<u8>, wanted: spec_fn(u8) -> bool, upto: nat) -> Seq<nat>
    decreases upto,
{
    if upto == 0 || upto > text.len() {
        Seq::empty()
    } else if wanted(text[upto - 1]) {
        positions(text, wanted, (upto - 1) as nat).push((upto - 1) as nat)
    } else {
        positions(text, wanted, (upto - 1) as nat)
    }
}

/// The offsets at which the lines of `text` begin: zero, and the offset
/// behind each newline below `upto`.
pub open spec fn line_starts(text: Seq<u8>, upto: nat) -> Seq<nat>
    decreases upto,
{
    if upto == 0 || upto > text.len() {
        seq![0nat]
    } else if text[upto - 1] == 0x0a {
        line_starts(text, (upto - 1) as nat).push(upto)
    } else {
        line_starts(text, (upto - 1) as nat)
    }
}

/// The mathematical content of a line table.
pub struct LineTable {
    /// The offsets at which the lines begin.
    pub starts: Seq<nat>,
    /// The offsets of the bytes that continue a character.
    pub narrow: Seq<nat>,
    /// The offsets of the bytes that begin a character of two UTF-16 units.
    pub wide: Seq<nat>,
}

impl LineTable {
    /// The table of `text`.
    pub open spec fn of(text: Seq<u8>) -> LineTable {
        LineTable {
            starts: line_starts(text, text.len()),
            narrow: positions(text, |b: u8| continues(b), text.len()),
            wide: positions(text, |b: u8| begins_wide(b), text.len()),
        }
    }

    /// The line that `offset` lies on: the number of lines that begin at or
    /// before it, less one.
    pub open spec fn line(self, offset: nat) -> int {
        rank(self.starts, offset + 1) - 1
    }

    /// The offset at which the line of `offset` begins.
    pub open spec fn line_start(self, offset: nat) -> nat {
        self.starts[self.line(offset)]
    }

    /// The column of `offset` in UTF-16 code units: one for each byte from
    /// the start of the line up to `offset`, none for a byte that continues a
    /// character, one more for a byte that begins a wide one.
    pub open spec fn column(self, offset: nat) -> int {
        let start = self.line_start(offset);
        (offset - start) - (rank(self.narrow, offset) - rank(self.narrow, start)) + (rank(
            self.wide,
            offset,
        ) - rank(self.wide, start))
    }
}

/// In a rising sequence, the members below `x` are those in front of
/// position `r`, if all of these are below `x` and no later one is.
pub proof fn lemma_rank_boundary(s: Seq<nat>, x: nat, r: int)
    requires
        0 <= r <= s.len(),
        forall|i: int| 0 <= i < r ==> s[i] < x,
        forall|i: int| r <= i < s.len() ==> s[i] >= x,
    ensures
        rank(s, x) == r,
    decreases s.len(),
{
    if s.len() > 0 {
        if r == s.len() {
            lemma_rank_boundary(s.drop_last(), x, r - 1);
        } else {
            lemma_rank_boundary(s.drop_last(), x, r);
        }
    }
}

/// In a rising sequence a later member exceeds an earlier one by at least
/// the distance between them.
pub proof fn lemma_rising_gap(s: Seq<nat>, i: int, j: int)
    requires
        rising(s),
        0 <= i <= j < s.len(),
    ensures
        s[j] >= s[i] + (j - i),
    decreases j - i,
{
    if i < j {
        lemma_rising_gap(s, i, j - 1);
    }
}

/// In a rising sequence the members below `x` stand in front of all others.
pub proof fn lemma_rank_splits(s: Seq<nat>, x: nat)
    requires
        rising(s),
    ensures
        rank(s, x) <= s.len(),
        forall|i: int| 0 <= i < rank(s, x) ==> s[i] < x,
        forall|i: int| rank(s, x) <= i < s.len() ==> s[i] >= x,
    decreases s.len(),
{
    if s.len() > 0 {
        let t = s.drop_last();
        assert(rising(t)) by {
            assert forall|i: int, j: int| 0 <= i < j < t.len() implies t[i] < t[j] by {
                assert(s[i] < s[j]);
            }
        }
        lemma_rank_splits(t, x);
        if s.last() < x {
            assert forall|i: int| 0 <= i < t.len() implies t[i] < x by {
                assert(s[i] < s[s.len() - 1]);
            }
            lemma_rank_boundary(t, x, t.len() as int);
        }
        let r = rank(s, x) as int;
        assert forall|i: int| 0 <= i < r implies s[i] < x by {
            if i < t.len() {
                assert(t[i] == s[i]);
            }
        }
        assert forall|i: int| r <= i < s.len() implies s[i] >= x by {
            if i < t.len() {
                assert(t[i] == s[i]);
            }
        }
    }
}

/// A rising sequence has at most `b - a` members from `a` up to `b`.
pub proof fn lemma_rank_span(s: Seq<nat>, a: nat, b: nat)
    requires
        rising(s),
        a <= b,
    ensures
        rank(s, a) <= rank(s, b),
        rank(s, b) - rank(s, a) <= b - a,
{
    lemma_rank_splits(s, a);
    lemma_rank_splits(s, b);
    let ra = rank(s, a) as int;
    let rb = rank(s, b) as int;
    if rb < ra {
        assert(s[rb] < a);
        assert(s[rb] >= b);
    }
    if ra < rb {
        lemma_rising_gap(s, ra, rb - 1);
    }
}

/// The numbers in `v`, as naturals.
pub open spec fn naturals(v: Seq<u32>) -> Seq<nat> {
    v.map_values(|x: u32| x as nat)
}

/// The number of members of the rising `v` that are below `x`.
fn count_below(v: &Vec<u32>, x: u64) -> (r: usize)
    requires
        rising(naturals(v@)),
    ensures
        r == rank(naturals(v@), x as nat),
        r <= v@.len(),
{
    let ghost s = naturals(v@);
    let mut lo: usize = 0;
    let mut hi: usize = v.len();
    while lo < hi
        invariant
            0 <= lo <= hi <= v@.len(),
            s == naturals(v@),
            rising(s),
            forall|i: int| 0 <= i < lo ==> s[i] < x,
            forall|i: int| hi <= i < s.len() ==> s[i] >= x,
        decreases hi - lo,
    {
        let mid = lo + (hi - lo) / 2;
        if (v[mid] as u64) < x {
            assert forall|i: int| 0 <= i < mid + 1 implies s[i] < x by {
                if i < mid {
                    assert(s[i] < s[mid as int]);
                }
            }
            lo = mid + 1;
        } else {
            assert forall|i: int| mid <= i < s.len() implies s[i] >= x by {
                if mid < i {
                    assert(s[mid as int] < s[i]);
                }
            }
            hi = mid;
        }
    }
    proof {
        lemma_rank_boundary(s, x as nat, lo as int);
    }
    lo
}

/// A table that turns byte offsets of one text into lines and columns.
#[derive(Debug, PartialEq, Eq)]
pub struct LineIndex {
    newlines: Vec<u32>,
    narrow: Vec<u32>,
    wide: Vec<u32>,
}

impl Clone for LineIndex {
    fn clone(&self) -> (r: Self)
        ensures
            r@ == self@,
    {
        proof {
            use_type_invariant(self);
        }
        let newlines = self.newlines.clone();
        let narrow = self.narrow.clone();
        let wide = self.wide.clone();
        assert(newlines@ =~= self.newlines@);
        assert(narrow@ =~= self.narrow@);
        assert(wide@ =~= self.wide@);
        LineIndex { newlines, narrow, wide }
    }
}

impl View for LineIndex {
    type V = LineTable;

    closed spec fn view(&self) -> LineTable {
        LineTable {
            starts: naturals(self.newlines@),
            narrow: naturals(self.narrow@),
            wide: naturals(self.wide@),
        }
    }
}

/// The offsets that `positions` gives rise strictly and lie below `upto`.
pub proof fn lemma_positions_rising(text: Seq<u8>, wanted: spec_fn(u8) -> bool, upto: nat)
    requires
        upto <= text.len(),
    ensures
        rising(positions(text, wanted, upto)),
        forall|i: int|
            0 <= i < positions(text, wanted, upto).len() ==> positions(text, wanted, upto)[i]
                < upto,
    decreases upto,
{
    if upto > 0 {
        lemma_positions_rising(text, wanted, (upto - 1) as nat);
    }
}

/// The offsets that `line_starts` gives begin with zero, rise strictly and
/// are at most `upto`.
pub proof fn lemma_line_starts_rising(text: Seq<u8>, upto: nat)
    requires
        upto <= text.len(),
    ensures
        rising(line_starts(text, upto)),
        line_starts(text, upto).len() >= 1,
        line_starts(text, upto)[0] == 0,
        forall|i: int|
            0 <= i < line_starts(text, upto).len() ==> line_starts(text, upto)[i] <= upto,
    decreases upto,
{
    if upto > 0 {
        lemma_line_starts_rising(text, (upto - 1) as nat);
    }
}

impl LineIndex {
    #[verifier::type_invariant]
    spec fn well_formed(self) -> bool {
        &&& rising(naturals(self.newlines@))
        &&& rising(naturals(self.narrow@))
        &&& rising(naturals(self.wide@))
        &&& self.newlines@.len() >= 1
        &&& self.newlines@[0] == 0
    }

    /// Builds the table of `text`.
    pub fn new(text: &str) -> (r: LineIndex)
        requires
            text.spec_bytes().len() <= u32::MAX,
        ensures
            r@ == LineTable::of(text.spec_bytes()),
    {
        let bytes = text.as_bytes();
        let ghost content = text.spec_bytes();
        let ghost is_narrow = |b: u8| continues(b);
        let ghost is_wide = |b: u8| begins_wide(b);
        let mut newlines: Vec<u32> = Vec::new();
        let mut narrow: Vec<u32> = Vec::new();
        let mut wide: Vec<u32> = Vec::new();
        newlines.push(0);
        assert(naturals(newlines@) =~= line_starts(content, 0));
        assert(naturals(narrow@) =~= positions(content, is_narrow, 0));
        assert(naturals(wide@) =~= positions(content, is_wide, 0));
        let mut i: usize = 0;
        while i < bytes.len()
            invariant
                i <= bytes@.len(),
                bytes@ == content,
                content.len() <= u32::MAX,
                is_narrow == (|b: u8| continues(b)),
                is_wide == (|b: u8| begins_wide(b)),
                naturals(newlines@) == line_starts(content, i as nat),
                naturals(narrow@) == positions(content, is_narrow, i as nat),
                naturals(wide@) == positions(content, is_wide, i as nat),
            decreases bytes.len() - i,
        {
            let b = bytes[i];
            let ghost old_newlines = newlines@;
            let ghost old_narrow = narrow@;
            let ghost old_wide = wide@;
            if b == 0x0a {
                newlines.push((i + 1) as u32);
                assert(naturals(newlines@) =~= naturals(old_newlines).push((i + 1) as nat));
            }
            if 0x80 <= b && b < 0xc0 {
                narrow.push(i as u32);
                assert(naturals(narrow@) =~= naturals(old_narrow).push(i as nat));
            }
            if b >= 0xf0 {
                wide.push(i as u32);
                assert(naturals(wide@) =~= naturals(old_wide).push(i as nat));
            }
            i = i + 1;
        }
        proof {
            lemma_line_starts_rising(content, content.len());
            lemma_positions_rising(content, is_narrow, content.len());
            lemma_positions_rising(content, is_wide, content.len());
            assert(naturals(newlines@)[0] == newlines@[0]);
        }
        LineIndex { newlines, narrow, wide }
    }

    /// The line and the column of `offset`. A column that does not fit in 32
    /// bits is given as the greatest number that does.
    pub fn line_col(&self, offset: TextSize) -> (r: LineCol)
        ensures
            r.line == self@.line(offset.raw as nat),
            r.col_utf16 == if self@.column(offset.raw as nat) <= u32::MAX {
                self@.column(offset.raw as nat)
            } else {
                u32::MAX as int
            },
            0 <= self@.column(offset.raw as nat),
    {
        proof {
            use_type_invariant(self);
        }
        let ghost starts = naturals(self.newlines@);
        let ghost at = offset.raw as nat;
        let above = count_below(&self.newlines, offset.raw as u64 + 1);
        proof {
            lemma_rank_splits(starts, at + 1);
            if above == 0 {
                assert(starts[0] >= at + 1);
            }
            lemma_rising_gap(starts, 0, above - 1);
        }
        let line = above - 1;
        let start = self.newlines[line];
        assert(start as nat == starts[line as int]);
        assert(start <= offset.raw);
        let narrow_hi = count_below(&self.narrow, offset.raw as u64);
        let narrow_lo = count_below(&self.narrow, start as u64);
        let wide_hi = count_below(&self.wide, offset.raw as u64);
        let wide_lo = count_below(&self.wide, start as u64);
        proof {
            lemma_rank_span(naturals(self.narrow@), start as nat, at);
            lemma_rank_span(naturals(self.wide@), start as nat, at);
        }
        let span: u64 = (offset.raw - start) as u64;
        let column: u64 = span - ((narrow_hi - narrow_lo) as u64) + ((wide_hi - wide_lo) as u64);
        let col_utf16: u32 = if column <= 0xffff_ffff {
            column as u32
        } else {
            0xffff_ffff
        };
        LineCol { line: line as u32, col_utf16 }
    }
}

/// The number of bytes among the first `upto` of `text` that meet `wanted`.
pub open spec fn count(text: Seq<u8>, wanted: spec_fn(u8) -> bool, upto: nat) -> nat
    decreases upto,
{
    if upto == 0 || upto > text.len() {
        0
    } else {
        count(text, wanted, (upto - 1) as nat) + if wanted(text[upto - 1]) {
            1nat
        } else {
            0nat
        }
    }
}

/// The number of UTF-16 code units that the characters beginning in `bytes`
/// take: none for a byte that continues a character, two for a byte that
/// begins a wide one, one for any other.
pub open spec fn utf16_len(bytes: Seq<u8>) -> nat
    decreases bytes.len(),
{
    if bytes.len() == 0 {
        0
    } else {
        utf16_len(bytes.drop_last()) + if continues(bytes.last()) {
            0nat
        } else if begins_wide(bytes.last()) {
            2nat
        } else {
            1nat
        }
    }
}

/// The smaller of two numbers.
pub open spec fn least(a: nat, b: nat) -> nat {
    if a <= b {
        a
    } else {
        b
    }
}

/// As many of the offsets that `positions` gives lie below `x` as there are
/// bytes below `x` that meet `wanted`.
pub proof fn lemma_rank_of_positions(text: Seq<u8>, wanted: spec_fn(u8) -> bool, upto: nat, x: nat)
    requires
        upto <= text.len(),
    ensures
        rank(positions(text, wanted, upto), x) == count(text, wanted, least(upto, x)),
    decreases upto,
{
    if upto > 0 {
        let before = (upto - 1) as nat;
        lemma_rank_of_positions(text, wanted, before, x);
        if wanted(text[upto - 1]) {
            assert(positions(text, wanted, upto).drop_last() =~= positions(text, wanted, before));
        }
    }
}

/// As many line starts lie below `x` as there are line feeds whose line
/// begins below `x`, and one more for the first line.
pub proof fn lemma_rank_of_line_starts(text: Seq<u8>, upto: nat, x: nat)
    requires
        upto <= text.len(),
        x >= 1,
    ensures
        rank(line_starts(text, upto), x) == 1 + count(
            text,
            |b: u8| b == 0x0a,
            least(upto, (x - 1) as nat),
        ),
    decreases upto,
{
    if upto == 0 {
        assert(line_starts(text, 0).drop_last() =~= Seq::<nat>::empty());
        assert(rank(line_starts(text, 0).drop_last(), x) == 0);
    } else {
        let before = (upto - 1) as nat;
        lemma_rank_of_line_starts(text, before, x);
        if text[upto - 1] == 0x0a {
            assert(line_starts(text, upto).drop_last() =~= line_starts(text, before));
        }
    }
}

/// The UTF-16 length of a stretch of `text` is its length in bytes, less the
/// bytes in it that continue a character, and more the bytes in it that
/// begin a wide one.
pub proof fn lemma_utf16_len_of_stretch(text: Seq<u8>, from: nat, to: nat)
    requires
        from <= to <= text.len(),
    ensures
        utf16_len(text.subrange(from as int, to as int)) == (to - from) - (count(
            text,
            |b: u8| continues(b),
            to,
        ) - count(text, |b: u8| continues(b), from)) + (count(text, |b: u8| begins_wide(b), to)
            - count(text, |b: u8| begins_wide(b), from)),
    decreases to - from,
{
    if from < to {
        lemma_utf16_len_of_stretch(text, from, (to - 1) as nat);
        assert(text.subrange(from as int, to as int).drop_last() =~= text.subrange(
            from as int,
            to - 1,
        ));
        assert(!(continues(text[to - 1]) && begins_wide(text[to - 1])));
    }
}

/// What the table of a text says of an offset in the text is what the text
/// itself says: the line is the number of line feeds in front of the offset,
/// and the column is the UTF-16 length of the text from the start of the
/// line up to the offset.
pub proof fn lemma_table_agrees_with_text(text: Seq<u8>, offset: nat)
    requires
        offset <= text.len(),
    ensures
        LineTable::of(text).line(offset) == count(text, |b: u8| b == 0x0a, offset),
        LineTable::of(text).line_start(offset) <= offset,
        LineTable::of(text).column(offset) == utf16_len(
            text.subrange(LineTable::of(text).line_start(offset) as int, offset as int),
        ),
{
    let table = LineTable::of(text);
    lemma_rank_of_line_starts(text, text.len(), offset + 1);
    lemma_line_starts_rising(text, text.len());
    lemma_rank_splits(table.starts, offset + 1);
    let start = table.line_start(offset);
    assert(start < offset + 1);
    lemma_rank_of_positions(text, |b: u8| continues(b), text.len(), offset);
    lemma_rank_of_positions(text, |b: u8| continues(b), text.len(), start);
    lemma_rank_of_positions(text, |b: u8| begins_wide(b), text.len(), offset);
    lemma_rank_of_positions(text, |b: u8| begins_wide(b), text.len(), start);
    lemma_utf16_len_of_stretch(text, start, offset);
}

} // verus!
