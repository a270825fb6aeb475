//! A tagged shared pointer: one machine word combining the address of a
//! value of type `V` with a tag of type `T` packed into the low bits that
//! `V`'s alignment leaves free.
//!
//! The word is the whole state: stripping the tag bits yields the plain
//! address (zero for null), and installing a tag never disturbs the
//! address bits. Whether the address is safe to dereference is the
//! caller's obligation, tied to the borrowed scope `'shield`; this module
//! only accounts for the bits.

use core::marker::PhantomData;
use vstd::prelude::*;

use crate::tag::{
    lemma_strip_zero, lemma_with_preserves_strip, lemma_with_then_tag, mask_spec, read_tag,
    set_tag, spec_read_tag, spec_set_tag, spec_strip, strip, Tag,
};

verus! {

/// A pointer-sized word holding the address of a `V` together with a tag
/// of type `T` in the low bits. It is a plain value: cheap to copy, and
/// two of them are equal exactly when their raw words are equal.
///
/// The caller must pick a pairing in which `V`'s alignment frees at least
/// `T::width()` low bits, and must guarantee any address it dereferences;
/// the `'shield` parameter stands for that external validity scope.
#[derive(Debug)]
pub struct Shared<'shield, V, T> where V: 'shield, T: Tag {
    data: usize,
    _m0: PhantomData<&'shield ()>,
    _m1: PhantomData<V>,
    _m2: PhantomData<T>,
}

impl<'shield, V, T> Shared<'shield, V, T> where V: 'shield, T: Tag {
    /// The raw word: address bits and tag bits together.
    pub closed spec fn raw_spec(self) -> usize {
        self.data
    }

    /// The tagged pointer holding a given raw word.
    pub closed spec fn spec_from_raw(data: usize) -> Self {
        Shared { data, _m0: PhantomData, _m1: PhantomData, _m2: PhantomData }
    }

    /// The null pointer: a zero word, so a zero address under a zero tag.
    pub fn null() -> (r: Self)
        ensures
            r.raw_spec() == 0,
            r == Self::spec_from_raw(0),
    {
        Self::from_raw(0)
    }

    /// Wrap an already combined word. The caller guarantees that the
    /// word's address part came from a pointer whose alignment leaves
    /// `T::width()` low bits free.
    pub fn from_raw(data: usize) -> (r: Self)
        ensures
            r.raw_spec() == data,
            r == Self::spec_from_raw(data),
    {
        Shared { data, _m0: PhantomData, _m1: PhantomData, _m2: PhantomData }
    }

    /// Unwrap to the raw word, tag bits included.
    pub fn into_raw(self) -> (r: usize)
        ensures
            r == self.raw_spec(),
    {
        self.data
    }

    /// The address part alone: the word with the tag bits stripped.
    pub fn as_ptr(&self) -> (r: usize)
        ensures
            r == spec_strip::<T>(self.raw_spec()),
    {
        strip::<T>(self.data)
    }

    /// Whether the address part is zero. Tag bits play no role here: a
    /// null pointer stays null under any tag.
    pub fn is_null(&self) -> (r: bool)
        ensures
            r <==> spec_strip::<T>(self.raw_spec()) == 0,
    {
        self.as_ptr() == 0
    }

    /// The tag read out of the low bits.
    pub fn tag(&self) -> (r: T)
        ensures
            r == T::spec_deserialize(spec_read_tag::<T>(self.raw_spec())),
    {
        let bits = read_tag::<T>(self.data);
        T::deserialize(bits)
    }

    /// The same address under a new tag. The original is untouched; the
    /// result carries exactly the new tag and exactly the old address.
    pub fn with_tag(&self, tag: T) -> (r: Self)
        requires
            tag.valid(),
        ensures
            r.raw_spec() == spec_set_tag::<T>(self.raw_spec(), tag.spec_serialize()),
            spec_strip::<T>(r.raw_spec()) == spec_strip::<T>(self.raw_spec()),
            T::spec_deserialize(spec_read_tag::<T>(r.raw_spec())) == tag,
    {
        proof {
            tag.lemma_round_trip();
            lemma_with_preserves_strip(self.data, mask_spec(T::width()), tag.spec_serialize());
            lemma_with_then_tag(self.data, mask_spec(T::width()), tag.spec_serialize());
        }
        let bits = tag.serialize();
        let data = set_tag::<T>(self.data, bits);
        Self::from_raw(data)
    }
}

impl<'shield, V, T> Clone for Shared<'shield, V, T> where V: 'shield, T: Tag {
    fn clone(&self) -> (r: Self)
        ensures
            r == *self,
    {
        Shared { data: self.data, _m0: PhantomData, _m1: PhantomData, _m2: PhantomData }
    }
}

impl<'shield, V, T> Copy for Shared<'shield, V, T> where V: 'shield, T: Tag {

}

impl<'shield, V, T> PartialEq for Shared<'shield, V, T> where V: 'shield, T: Tag {
    fn eq(&self, other: &Self) -> (r: bool) {
        self.data == other.data
    }
}

impl<'shield, V, T> vstd::std_specs::cmp::PartialEqSpecImpl for Shared<'shield, V, T> where V: 'shield, T: Tag {
    open spec fn obeys_eq_spec() -> bool {
        true
    }

    open spec fn eq_spec(&self, other: &Self) -> bool {
        self.raw_spec() == other.raw_spec()
    }
}

/// Installing a valid tag and reading it back returns the tag unchanged,
/// and never disturbs the address bits: the two stores are independent.
pub proof fn lemma_with_tag_round_trip<T: Tag>(data: usize, t: T)
    requires
        t.valid(),
    ensures
        T::spec_deserialize(spec_read_tag::<T>(spec_set_tag::<T>(data, t.spec_serialize()))) == t,
        spec_strip::<T>(spec_set_tag::<T>(data, t.spec_serialize())) == spec_strip::<T>(data),
{
    t.lemma_round_trip();
    lemma_with_then_tag(data, mask_spec(T::width()), t.spec_serialize());
    lemma_with_preserves_strip(data, mask_spec(T::width()), t.spec_serialize());
}

/// Tag bits alone never make a stripped pointer non-null: a zero word
/// keeps a zero address under any valid tag.
pub proof fn lemma_null_stays_null<T: Tag>(t: T)
    requires
        t.valid(),
    ensures
        spec_strip::<T>(spec_set_tag::<T>(0, t.spec_serialize())) == 0,
{
    t.lemma_round_trip();
    lemma_with_preserves_strip(0, mask_spec(T::width()), t.spec_serialize());
    lemma_strip_zero(mask_spec(T::width()));
}

/// Unwrapping a tagged pointer to its raw word and wrapping that word
/// again yields the identical tagged pointer.
pub proof fn lemma_raw_round_trip<'shield, V, T>(s: Shared<'shield, V, T>) where
    V: 'shield,
    T: Tag,

    ensures
        Shared::<'shield, V, T>::spec_from_raw(s.raw_spec()) == s,
{
}

} // verus!

