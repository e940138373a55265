//! Length and capacity of a buffer, packed into machine words.
//!
//! Two encodings are offered. [`Extent`] packs the length into the low half
//! of one 64-bit word and the capacity into the high half. [`Extra`] keeps
//! both in full-width fields, for targets whose word is too narrow to hold
//! two useful halves. In both, the ownership tag is implicit: a capacity of
//! zero means "borrowed".
use vstd::prelude::*;

verus! {

/// Number of bits by which the capacity is shifted in a packed word.
pub const SHIFT: u64 = 32;

/// Mask of the low half of a packed word, where the length lives.
pub const LOWER: u64 = 0xFFFF_FFFF;

/// Mask of the high half of a packed word, where the capacity lives.
pub const UPPER: u64 = 0xFFFF_FFFF_0000_0000;

/// Whether some extent describes an owned buffer.
pub trait IsOwned {
    spec fn spec_is_owned(&self) -> bool;

    fn is_owned(&self) -> (r: bool)
        ensures
            r == self.spec_is_owned(),
    ;
}

/// For kinds with neither length nor capacity, the tag is a plain flag.
impl IsOwned for bool {
    open spec fn spec_is_owned(&self) -> bool {
        *self
    }

    fn is_owned(&self) -> (r: bool) {
        *self
    }
}

/// Length and capacity packed into one 64-bit word: the length in the low
/// half, the capacity in the high half.
#[derive(Clone, Copy)]
pub struct Extent(u64);

impl Extent {
    /// The length this extent records.
    pub closed spec fn spec_len(&self) -> nat {
        (self.0 & LOWER) as nat
    }

    /// The capacity this extent records; zero for borrowed data.
    pub closed spec fn spec_capacity(&self) -> nat {
        ((self.0 & UPPER) >> SHIFT) as nat
    }

    /// The extent of borrowed data of length `len`.
    ///
    /// A length that does not fit in half a word cannot be recorded.
    pub fn borrowed(len: usize) -> (r: Self)
        requires
            len <= LOWER,
        ensures
            r.spec_len() == len,
            r.spec_capacity() == 0,
            !r.spec_is_owned(),
    {
        let w: u64 = len as u64;
        assert(w & LOWER == w && (w & UPPER) >> SHIFT == 0) by (bit_vector)
            requires
                w <= LOWER,
        ;
        Extent(w)
    }

    /// The extent of an owned buffer of length `len` and capacity `cap`.
    ///
    /// A length or a capacity that does not fit in half a word cannot be
    /// recorded. Note that an owned buffer of capacity zero reads back as
    /// borrowed: the tag is inferred from the capacity alone.
    pub fn owned(len: usize, cap: usize) -> (r: Self)
        requires
            len <= LOWER,
            cap <= LOWER,
        ensures
            r.spec_len() == len,
            r.spec_capacity() == cap,
            r.spec_is_owned() == (cap != 0),
    {
        let l: u64 = len as u64;
        let c: u64 = cap as u64;
        let w: u64 = (c << SHIFT) | l;
        assert(w & LOWER == l && (w & UPPER) >> SHIFT == c) by (bit_vector)
            requires
                l <= LOWER,
                c <= LOWER,
                w == (c << SHIFT) | l,
        ;
        Extent(w)
    }

    /// The recorded length.
    pub fn len(&self) -> (r: usize)
        ensures
            r == self.spec_len(),
    {
        let w = self.0;
        assert(w & LOWER <= LOWER) by (bit_vector);
        (w & LOWER) as usize
    }

    /// The recorded capacity.
    pub fn capacity(&self) -> (r: usize)
        ensures
            r == self.spec_capacity(),
    {
        let w = self.0;
        assert((w & UPPER) >> SHIFT <= LOWER) by (bit_vector);
        ((w & UPPER) >> SHIFT) as usize
    }
}

impl IsOwned for Extent {
    open spec fn spec_is_owned(&self) -> bool {
        self.spec_capacity() != 0
    }

    fn is_owned(&self) -> (r: bool) {
        self.capacity() != 0
    }
}

/// Length and capacity in two full words.
#[derive(Clone, Copy)]
pub struct Extra {
    len: usize,
    cap: usize,
}

impl Extra {
    /// The length this extent records.
    pub closed spec fn spec_len(&self) -> nat {
        self.len as nat
    }

    /// The capacity this extent records; zero for borrowed data.
    pub closed spec fn spec_capacity(&self) -> nat {
        self.cap as nat
    }

    /// The extent of borrowed data of length `len`.
    pub fn borrowed(len: usize) -> (r: Self)
        ensures
            r.spec_len() == len,
            r.spec_capacity() == 0,
            !r.spec_is_owned(),
    {
        Extra { len, cap: 0 }
    }

    /// The extent of an owned buffer of length `len` and capacity `cap`.
    ///
    /// As with [`Extent`], a capacity of zero reads back as borrowed.
    pub fn owned(len: usize, cap: usize) -> (r: Self)
        ensures
            r.spec_len() == len,
            r.spec_capacity() == cap,
            r.spec_is_owned() == (cap != 0),
    {
        Extra { len, cap }
    }

    /// The recorded length.
    pub fn len(&self) -> (r: usize)
        ensures
            r == self.spec_len(),
    {
        self.len
    }

    /// The recorded capacity.
    pub fn capacity(&self) -> (r: usize)
        ensures
            r == self.spec_capacity(),
    {
        self.cap
    }
}

impl IsOwned for Extra {
    open spec fn spec_is_owned(&self) -> bool {
        self.spec_capacity() != 0
    }

    fn is_owned(&self) -> (r: bool) {
        self.cap != 0
    }
}

} // verus!
