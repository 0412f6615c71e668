//! The three operations that every wire type has, and the mathematical
//! description of a wire format that their contracts are stated over.

use crate::buffer::{remaining, written};
use crate::error::Error;
use bytes::{Bytes, BytesMut};
use vstd::pervasive::unreached;
use vstd::prelude::*;

verus! {

/// What reading one item off the front of a byte sequence comes to: the value
/// read or the reason why none was, and the number of bytes used up on the way.
pub struct Decoded<V> {
    pub outcome: Result<V, Error>,
    pub consumed: int,
}

/// A reading that gave `value` from the first `consumed` bytes.
pub open spec fn read<V>(value: V, consumed: int) -> Decoded<V> {
    Decoded { outcome: Ok(value), consumed }
}

/// A reading that failed with `error` after `consumed` bytes.
pub open spec fn failed<V>(error: Error, consumed: int) -> Decoded<V> {
    Decoded { outcome: Err(error), consumed }
}

/// A wire format: the values of a type, their bytes on the wire, and what
/// reading those bytes gives.
pub trait Wire: Sized {
    /// The mathematical value that an item of the type stands for.
    type Value;

    /// The value that `self` stands for.
    spec fn value(&self) -> Self::Value;

    /// Whether the format can carry `v` and give it back.
    spec fn well_formed(v: Self::Value) -> bool;

    /// The bytes that stand for `v` on the wire.
    spec fn encoding(v: Self::Value) -> Seq<u8>;

    /// What reading one item off the front of `s` gives.
    spec fn decoding(s: Seq<u8>) -> Decoded<Self::Value>;

    /// Whether an item runs to the end of the bytes it is read from, so that
    /// nothing can follow it.
    spec fn fills_buffer() -> bool;

    /// A reading uses up bytes of the sequence it reads, and no others.
    proof fn lemma_consumed_in_bounds(s: Seq<u8>)
        ensures
            0 <= Self::decoding(s).consumed <= s.len(),
    ;

    /// Reading the bytes of a well-formed value gives the value back and uses
    /// up those bytes exactly, whatever follows them. Behind an item that
    /// fills its buffer nothing may follow.
    proof fn lemma_round_trip(v: Self::Value, rest: Seq<u8>)
        requires
            Self::well_formed(v),
            Self::fills_buffer() ==> rest.len() == 0,
        ensures
            Self::decoding(Self::encoding(v) + rest) == read(v, Self::encoding(v).len() as int),
    ;
}

/// The length of a value on the wire.
pub trait ByteSized: Wire {
    /// The number of bytes that `self` takes on the wire, if a signed 32-bit
    /// integer can hold it.
    fn checked_byte_size(&self) -> (size: Option<i32>)
        ensures
            size == (if Self::encoding(self.value()).len() <= i32::MAX {
                Some(Self::encoding(self.value()).len() as i32)
            } else {
                None
            }),
    ;

    /// The number of bytes that `self` takes on the wire.
    fn byte_size(&self) -> (size: i32)
        requires
            Self::encoding(self.value()).len() <= i32::MAX,
        ensures
            size == Self::encoding(self.value()).len(),
    {
        match self.checked_byte_size() {
            Some(size) => size,
            None => unreached(),
        }
    }
}

/// Writing a value to the wire.
pub trait Serialize: Wire {
    /// Appends the bytes of `self` to `buffer`.
    fn serialize(&self, buffer: &mut BytesMut)
        requires
            written(*old(buffer)).len() + Self::encoding(self.value()).len() <= isize::MAX,
        ensures
            written(*final(buffer)) == written(*old(buffer)) + Self::encoding(self.value()),
    ;
}

/// Reading a value from the wire.
pub trait Deserialize: Wire {
    /// Reads one item off the front of `buffer`. The bytes that the reading
    /// used up are gone from the buffer, also where it failed.
    fn deserialize(buffer: &mut Bytes) -> (r: Result<Self, Error>)
        ensures
            match Self::decoding(remaining(*old(buffer))).outcome {
                Ok(v) => r is Ok && r->Ok_0.value() == v,
                Err(e) => r == Err::<Self, Error>(e),
            },
            remaining(*final(buffer)) == remaining(*old(buffer)).skip(
                Self::decoding(remaining(*old(buffer))).consumed,
            ),
    ;
}

/// The sum of two lengths, if both are there and a signed 32-bit integer can
/// hold it.
pub fn checked_sum(first: Option<i32>, second: Option<i32>) -> (sum: Option<i32>)
    requires
        first matches Some(a) ==> a >= 0,
        second matches Some(b) ==> b >= 0,
    ensures
        sum == (if first is Some && second is Some && first->Some_0 + second->Some_0 <= i32::MAX {
            Some((first->Some_0 + second->Some_0) as i32)
        } else {
            None
        }),
{
    match first {
        None => None,
        Some(a) => match second {
            None => None,
            Some(b) => a.checked_add(b),
        },
    }
}

/// Reading what was written for a well-formed value gives the value back and
/// uses up every byte.
pub proof fn lemma_decode_encode<T: Wire>(v: T::Value)
    requires
        T::well_formed(v),
    ensures
        T::decoding(T::encoding(v)) == read(v, T::encoding(v).len() as int),
{
    assert(T::encoding(v) + Seq::<u8>::empty() =~= T::encoding(v));
    T::lemma_round_trip(v, Seq::empty());
}

} // verus!
