//! Arrays whose number of elements goes before them as a 16-bit integer.

use crate::buffer::{be_i16, put_i16, remaining, try_get_i16, written};
use crate::error::Error;
use crate::libpq_types::elements::{
    all_well_formed, checked_elements_size, deserialize_elements, elements_encoding,
    lemma_repeat_consumed_in_bounds, lemma_repeat_round_trip, prepend, repeat_decoding,
    serialize_elements, values_of,
};
use crate::wire::{failed, ByteSized, Decoded, Deserialize, Serialize, Wire};
use bytes::{Bytes, BytesMut};
use vstd::prelude::*;
use vstd::std_specs::convert::FromSpecImpl;

verus! {

/// An array where the length is encoded on 16 bits.
#[derive(Debug, PartialEq)]
pub struct Vec16<T>(Vec<T>);

impl<T> View for Vec16<T> {
    type V = Seq<T>;

    closed spec fn view(&self) -> Seq<T> {
        self.0@
    }
}

impl<T> Vec16<T> {
    /// An array without elements.
    pub fn new() -> (array: Self)
        ensures
            array@ == Seq::<T>::empty(),
    {
        Self(Vec::new())
    }

    /// The elements of the array.
    pub fn as_ref(&self) -> (items: &Vec<T>)
        ensures
            items@ == self@,
    {
        &self.0
    }

    /// The elements of the array, to be changed in place.
    pub fn as_mut(&mut self) -> (items: &mut Vec<T>)
        ensures
            items@ == old(self)@,
            final(self)@ == final(items)@,
    {
        &mut self.0
    }
}

impl<T> From<Vec<T>> for Vec16<T> {
    fn from(item: Vec<T>) -> (array: Vec16<T>)
        ensures
            array@ == item@,
    {
        Vec16(item)
    }
}

impl<T> FromSpecImpl<Vec<T>> for Vec16<T> {
    open spec fn obeys_from_spec() -> bool {
        true
    }

    closed spec fn from_spec(item: Vec<T>) -> Vec16<T> {
        Vec16(item)
    }
}

/// The number of elements that a count read from the wire asks for: none
/// where it is negative.
pub open spec fn count_of(n: int) -> nat {
    if n > 0 {
        n as nat
    } else {
        0
    }
}

impl<T: Wire> Wire for Vec16<T> {
    type Value = Seq<T::Value>;

    open spec fn value(&self) -> Seq<T::Value> {
        values_of(self@)
    }

    open spec fn well_formed(v: Seq<T::Value>) -> bool {
        &&& v.len() <= i16::MAX
        &&& all_well_formed::<T>(v)
        &&& !T::fills_buffer()
    }

    open spec fn encoding(v: Seq<T::Value>) -> Seq<u8> {
        be_i16(v.len() as i16) + elements_encoding::<T>(v)
    }

    open spec fn decoding(s: Seq<u8>) -> Decoded<Seq<T::Value>> {
        let count = i16::decoding(s);
        match count.outcome {
            Err(e) => failed(e, count.consumed),
            Ok(n) => prepend(
                Seq::empty(),
                count.consumed,
                repeat_decoding::<T>(s.skip(count.consumed), count_of(n as int)),
            ),
        }
    }

    open spec fn fills_buffer() -> bool {
        false
    }

    proof fn lemma_consumed_in_bounds(s: Seq<u8>) {
        let count = i16::decoding(s);
        if count.outcome is Ok {
            lemma_repeat_consumed_in_bounds::<T>(s.skip(2), count_of(count.outcome->Ok_0 as int));
        }
    }

    proof fn lemma_round_trip(v: Seq<T::Value>, rest: Seq<u8>) {
        let s = Self::encoding(v) + rest;
        let after = elements_encoding::<T>(v) + rest;
        assert(s =~= be_i16(v.len() as i16) + after);
        i16::lemma_round_trip(v.len() as i16, after);
        assert(s.skip(2) =~= after);
        lemma_repeat_round_trip::<T>(v, rest);
        assert(Seq::<T::Value>::empty() + v =~= v);
    }
}

impl<T: ByteSized> ByteSized for Vec16<T> {
    fn checked_byte_size(&self) -> (size: Option<i32>) {
        checked_elements_size(&self.0, 2)
    }
}

impl<T: Serialize> Serialize for Vec16<T> {
    fn serialize(&self, buffer: &mut BytesMut) {
        put_i16(buffer, #[verifier::truncate] (self.0.len() as i16));
        serialize_elements(&self.0, buffer);
        assert(written(*buffer) =~= written(*old(buffer)) + Self::encoding(self.value()));
    }
}

impl<T: Deserialize> Deserialize for Vec16<T> {
    fn deserialize(buffer: &mut Bytes) -> (r: Result<Self, Error>) {
        let ghost s = remaining(*buffer);
        let len = match try_get_i16(buffer) {
            Ok(len) => len,
            Err(_) => {
                assert(remaining(*buffer) =~= s.skip(0));
                return Err(Error::BufferUnderflow);
            },
        };
        let count: usize = if len > 0 {
            len as usize
        } else {
            0
        };
        proof {
            lemma_repeat_consumed_in_bounds::<T>(s.skip(2), count as nat);
            let used = repeat_decoding::<T>(s.skip(2), count as nat).consumed;
            assert(s.skip(2).skip(used) =~= s.skip(2 + used));
        }
        match deserialize_elements::<T>(buffer, count) {
            Err(e) => Err(e),
            Ok(items) => {
                assert(Seq::<T::Value>::empty() + values_of(items@) =~= values_of(items@));
                Ok(Vec16(items))
            },
        }
    }
}

} // verus!
