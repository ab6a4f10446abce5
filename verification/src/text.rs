//! Byte offsets into a text and half-open ranges of them.

use vstd::prelude::*;

verus! {

/// A byte offset into a text, or a length in bytes.
#[derive(Clone, Copy, Debug, PartialEq, Eq, Structural, Hash)]
pub struct TextSize {
    pub raw: u32,
}

impl TextSize {
    /// The offset `raw` bytes into a text.
    pub fn new(raw: u32) -> (r: TextSize)
        ensures
            r.raw == raw,
    {
        TextSize { raw }
    }

    /// The number of bytes, as a plain integer.
    pub fn to_u32(self) -> (r: u32)
        ensures
            r == self.raw,
    {
        self.raw
    }
}

/// The bytes from `start` up to, and not including, `end`.
#[derive(Clone, Copy, Debug, PartialEq, Eq, Structural, Hash)]
pub struct TextRange {
    start: TextSize,
    end: TextSize,
}

impl TextRange {
    #[verifier::type_invariant]
    spec fn well_formed(self) -> bool {
        self.start.raw <= self.end.raw
    }

    /// The offset of the first byte of the range.
    pub closed spec fn lo(self) -> nat {
        self.start.raw as nat
    }

    /// The offset just behind the last byte of the range.
    pub closed spec fn hi(self) -> nat {
        self.end.raw as nat
    }

    /// Two ranges with the same bounds are the same range.
    pub proof fn lemma_same_bounds(a: TextRange, b: TextRange)
        requires
            a.lo() == b.lo(),
            a.hi() == b.hi(),
        ensures
            a == b,
    {
    }

    /// The range from `start` to `end`.
    pub fn new(start: TextSize, end: TextSize) -> (r: TextRange)
        requires
            start.raw <= end.raw,
        ensures
            r.lo() == start.raw,
            r.hi() == end.raw,
    {
        TextRange { start, end }
    }

    /// The range of `len` bytes that begins at `start`.
    pub fn at(start: TextSize, len: TextSize) -> (r: TextRange)
        requires
            start.raw + len.raw <= u32::MAX,
        ensures
            r.lo() == start.raw,
            r.hi() == start.raw + len.raw,
    {
        TextRange { start, end: TextSize { raw: start.raw + len.raw } }
    }

    /// The offset of the first byte of the range.
    pub fn start(&self) -> (r: TextSize)
        ensures
            r.raw == self.lo(),
            self.lo() <= self.hi(),
    {
        proof {
            use_type_invariant(self);
        }
        self.start
    }

    /// The offset just behind the last byte of the range.
    pub fn end(&self) -> (r: TextSize)
        ensures
            r.raw == self.hi(),
            self.lo() <= self.hi(),
    {
        proof {
            use_type_invariant(self);
        }
        self.end
    }

    /// The number of bytes in the range.
    pub fn len(&self) -> (r: TextSize)
        ensures
            r.raw == self.hi() - self.lo(),
    {
        proof {
            use_type_invariant(self);
        }
        TextSize { raw: self.end.raw - self.start.raw }
    }

    /// Whether the range holds no byte.
    pub fn is_empty(&self) -> (r: bool)
        ensures
            r == (self.lo() == self.hi()),
    {
        self.start.raw == self.end.raw
    }

    /// Whether `offset` lies in the range.
    pub fn contains(&self, offset: TextSize) -> (r: bool)
        ensures
            r == (self.lo() <= offset.raw < self.hi()),
    {
        self.start.raw <= offset.raw && offset.raw < self.end.raw
    }

    /// Whether every byte of `other` lies in this range.
    pub fn contains_range(&self, other: TextRange) -> (r: bool)
        ensures
            r == (self.lo() <= other.lo() && other.hi() <= self.hi()),
    {
        self.start.raw <= other.start.raw && other.end.raw <= self.end.raw
    }
}

/// `String::from_utf8_lossy`: the text that `bytes` encode. Bytes that
/// encode no character are replaced, so nothing is claimed where `bytes` are
/// not valid UTF-8.
#[verifier::external_body]
pub(crate) fn lossy_text(bytes: &[u8]) -> (text: String)
    ensures
        vstd::utf8::valid_utf8(bytes@) ==> text@ == vstd::utf8::decode_utf8(bytes@),
{
    String::from_utf8_lossy(bytes).into_owned()
}

} // verus!
