//! Packing a small value into the low bits of a pointer-sized word.
//!
//! A word holds a pointer whose alignment keeps its low bits zero; those
//! bits are free to carry a tag. Everything here is plain bit arithmetic
//! on `usize`: the mask of the tag bits, the word with the tag cleared,
//! the tag bits alone, and the word with a new tag installed.

use vstd::prelude::*;

verus! {

/// Tags are small: a mask never covers more than this many low bits.
pub const MAX_TAG_BITS: usize = 16;

/// The mask with the low `k` bits set: tag bits live under it.
pub open spec fn mask_spec(k: usize) -> usize {
    ((1usize << k) - 1) as usize
}

/// The word with the bits under `mask` cleared: the pointer part alone.
pub open spec fn strip_bits(data: usize, mask: usize) -> usize {
    data & !mask
}

/// The bits of the word under `mask`: the stored tag bits.
pub open spec fn tag_bits(data: usize, mask: usize) -> usize {
    data & mask
}

/// The word with the bits under `mask` replaced by `bits`.
pub open spec fn with_bits(data: usize, mask: usize, bits: usize) -> usize {
    (data & !mask) | bits
}

/// Installing tag bits and reading them back returns them unchanged,
/// as long as they lie under the mask.
pub proof fn lemma_with_then_tag(data: usize, mask: usize, bits: usize)
    requires
        bits & !mask == 0,
    ensures
        tag_bits(with_bits(data, mask, bits), mask) == bits,
{
    assert(((data & !mask) | bits) & mask == bits) by (bit_vector)
        requires
            bits & !mask == 0usize,
    ;
}

/// Installing tag bits never disturbs the pointer part of the word.
pub proof fn lemma_with_preserves_strip(data: usize, mask: usize, bits: usize)
    requires
        bits & !mask == 0,
    ensures
        strip_bits(with_bits(data, mask, bits), mask) == strip_bits(data, mask),
{
    assert(((data & !mask) | bits) & !mask == data & !mask) by (bit_vector)
        requires
            bits & !mask == 0usize,
    ;
}

/// The zero word strips to zero under any mask: a null address stays
/// null whatever tag bits are carved out of it.
pub proof fn lemma_strip_zero(mask: usize)
    ensures
        strip_bits(0, mask) == 0,
{
    assert(0usize & !mask == 0) by (bit_vector);
}

/// A value that can ride in the low bits of an aligned pointer.
///
/// A tag serializes to a small integer occupying at most `width()` low
/// bits and deserializes back to exactly the value it came from. The
/// width must not exceed the free low bits that the alignment of the
/// pointed-to type guarantees; that obligation stays with the caller
/// choosing the pairing.
pub trait Tag: Sized {
    /// How many low bits the serialized tag occupies.
    spec fn width() -> usize;

    /// Which values of the type may be stored as tags.
    spec fn valid(self) -> bool;

    /// The serialized bits of the tag.
    spec fn spec_serialize(self) -> usize;

    /// The tag read back from stored bits.
    spec fn spec_deserialize(bits: usize) -> Self;

    /// A tag is small: it never claims more than `MAX_TAG_BITS` bits.
    proof fn lemma_width()
        ensures
            Self::width() <= MAX_TAG_BITS,
    ;

    /// Serialization stays under the mask of the declared width, and
    /// deserializing a serialized tag returns the tag unchanged.
    proof fn lemma_round_trip(self)
        requires
            self.valid(),
        ensures
            self.spec_serialize() & !mask_spec(Self::width()) == 0,
            Self::spec_deserialize(self.spec_serialize()) == self,
    ;

    /// The number of low bits the tag occupies, at run time.
    fn size() -> (r: usize)
        ensures
            r == Self::width(),
    ;

    /// Turn the tag into its stored bits.
    fn serialize(self) -> (r: usize)
        requires
            self.valid(),
        ensures
            r == self.spec_serialize(),
    ;

    /// Rebuild the tag from stored bits.
    fn deserialize(bits: usize) -> (r: Self)
        ensures
            r == Self::spec_deserialize(bits),
    ;
}

/// The run-time mask for the tag type `T`: the low `T::width()` bits.
pub fn mask_of<T: Tag>() -> (m: usize)
    ensures
        m == mask_spec(T::width()),
{
    let k = T::size();
    proof {
        T::lemma_width();
        assert(1usize << k >= 1 && 1usize << k <= 65536) by (bit_vector)
            requires
                k <= 16usize,
        ;
    }
    (1usize << k) - 1
}

/// The pointer part of a word carrying a tag of type `T`: the word with
/// the tag bits cleared.
pub open spec fn spec_strip<T: Tag>(data: usize) -> usize {
    strip_bits(data, mask_spec(T::width()))
}

/// The stored tag bits of a word carrying a tag of type `T`.
pub open spec fn spec_read_tag<T: Tag>(data: usize) -> usize {
    tag_bits(data, mask_spec(T::width()))
}

/// The word with the tag bits of type `T` replaced by `bits`.
pub open spec fn spec_set_tag<T: Tag>(data: usize, bits: usize) -> usize {
    with_bits(data, mask_spec(T::width()), bits)
}

/// Clear the tag bits of the word, leaving the pointer part.
pub fn strip<T: Tag>(data: usize) -> (r: usize)
    ensures
        r == spec_strip::<T>(data),
{
    let m = mask_of::<T>();
    data & !m
}

/// Read the stored tag bits of the word.
pub fn read_tag<T: Tag>(data: usize) -> (r: usize)
    ensures
        r == spec_read_tag::<T>(data),
{
    let m = mask_of::<T>();
    data & m
}

/// Replace the tag bits of the word by `bits`, leaving the pointer part.
pub fn set_tag<T: Tag>(data: usize, bits: usize) -> (r: usize)
    ensures
        r == spec_set_tag::<T>(data, bits),
{
    let m = mask_of::<T>();
    (data & !m) | bits
}

/// The trivial tag: no bits at all, one value.
impl Tag for () {
    open spec fn width() -> usize {
        0
    }

    open spec fn valid(self) -> bool {
        true
    }

    open spec fn spec_serialize(self) -> usize {
        0
    }

    open spec fn spec_deserialize(bits: usize) -> Self {
        ()
    }

    proof fn lemma_width() {
    }

    proof fn lemma_round_trip(self) {
        assert(1usize << 0 == 1 && 0usize & !0usize == 0) by (bit_vector);
    }

    fn size() -> (r: usize) {
        0
    }

    fn serialize(self) -> (r: usize) {
        0
    }

    fn deserialize(bits: usize) -> (r: Self) {
        ()
    }
}

/// A one-bit mark, the classic deletion flag.
impl Tag for bool {
    open spec fn width() -> usize {
        1
    }

    open spec fn valid(self) -> bool {
        true
    }

    open spec fn spec_serialize(self) -> usize {
        if self {
            1
        } else {
            0
        }
    }

    open spec fn spec_deserialize(bits: usize) -> Self {
        bits & 1 == 1
    }

    proof fn lemma_width() {
    }

    proof fn lemma_round_trip(self) {
        assert(1usize << 1 == 2 && 0usize & !1usize == 0 && 1usize & !1usize == 0
            && 0usize & 1 == 0 && 1usize & 1 == 1) by (bit_vector);
    }

    fn size() -> (r: usize) {
        1
    }

    fn serialize(self) -> (r: usize) {
        if self {
            1
        } else {
            0
        }
    }

    fn deserialize(bits: usize) -> (r: Self) {
        bits & 1 == 1
    }
}

/// A two-bit tag with four values, for pointees aligned to at least four
/// bytes.
#[derive(Clone, Copy, Debug, PartialEq, Eq, Structural)]
pub enum TwoBitTag {
    Zero,
    One,
    Two,
    Three,
}

impl Tag for TwoBitTag {
    open spec fn width() -> usize {
        2
    }

    open spec fn valid(self) -> bool {
        true
    }

    open spec fn spec_serialize(self) -> usize {
        match self {
            TwoBitTag::Zero => 0,
            TwoBitTag::One => 1,
            TwoBitTag::Two => 2,
            TwoBitTag::Three => 3,
        }
    }

    open spec fn spec_deserialize(bits: usize) -> Self {
        if bits & 3 == 0 {
            TwoBitTag::Zero
        } else if bits & 3 == 1 {
            TwoBitTag::One
        } else if bits & 3 == 2 {
            TwoBitTag::Two
        } else {
            TwoBitTag::Three
        }
    }

    proof fn lemma_width() {
    }

    proof fn lemma_round_trip(self) {
        assert(1usize << 2 == 4 && 0usize & !3usize == 0 && 1usize & !3usize == 0
            && 2usize & !3usize == 0 && 3usize & !3usize == 0 && 0usize & 3 == 0
            && 1usize & 3 == 1 && 2usize & 3 == 2 && 3usize & 3 == 3) by (bit_vector);
    }

    fn size() -> (r: usize) {
        2
    }

    fn serialize(self) -> (r: usize) {
        match self {
            TwoBitTag::Zero => 0,
            TwoBitTag::One => 1,
            TwoBitTag::Two => 2,
            TwoBitTag::Three => 3,
        }
    }

    fn deserialize(bits: usize) -> (r: Self) {
        let b = bits & 3;
        if b == 0 {
            TwoBitTag::Zero
        } else if b == 1 {
            TwoBitTag::One
        } else if b == 2 {
            TwoBitTag::Two
        } else {
            TwoBitTag::Three
        }
    }
}

} // verus!
