//! Arrays whose number of elements goes before them as a 32-bit integer.

use crate::buffer::{be_i32, put_i32, remaining, try_get_i32, written};
use crate::error::Error;
use crate::libpq_types::elements::{
    all_well_formed, checked_elements_size, deserialize_elements, elements_encoding,
    lemma_repeat_consumed_in_bounds, lemma_repeat_round_trip, prepend, repeat_decoding,
    serialize_elements, values_of,
};
use crate::libpq_types::vec16::count_of;
use crate::wire::{failed, ByteSized, Decoded, Deserialize, Serialize, Wire};
use bytes::{Bytes, BytesMut};
use vstd::prelude::*;
use vstd::std_specs::convert::FromSpecImpl;

verus! {

/// An array where the length is encoded on 32 bits.
#[derive(Debug, PartialEq)]
pub struct Vec32<T>(Vec<T>);

impl<T> View for Vec32<T> {
    type V = Seq<T>;

    closed spec fn view(&self) -> Seq<T> {
        self.0@
    }
}

impl<T> Vec32<T> {
    /// An array without elements.
    pub fn new() -> (array: Self)
        ensures
            array@ == Seq::<T>::empty(),
    {
        Self(Vec::new())
    }

    /// The elements of the array.
    pub fn as_ref(&self) -> (items: &Vec<T>)
        ensures
            items@ == self@,
    {
        &self.0
    }

    /// The elements of the array, to be changed in place.
    pub fn as_mut(&mut self) -> (items: &mut Vec<T>)
        ensures
            items@ == old(self)@,
            final(self)@ == final(items)@,
    {
        &mut self.0
    }
}

impl<T> From<Vec<T>> for Vec32<T> {
    fn from(item: Vec<T>) -> (array: Vec32<T>)
        ensures
            array@ == item@,
    {
        Vec32(item)
    }
}

impl<T> FromSpecImpl<Vec<T>> for Vec32<T> {
    open spec fn obeys_from_spec() -> bool {
        true
    }

    closed spec fn from_spec(item: Vec<T>) -> Vec32<T> {
        Vec32(item)
    }
}

impl<T: Wire> Wire for Vec32<T> {
    type Value = Seq<T::Value>;

    open spec fn value(&self) -> Seq<T::Value> {
        values_of(self@)
    }

    open spec fn well_formed(v: Seq<T::Value>) -> bool {
        &&& v.len() <= i32::MAX
        &&& all_well_formed::<T>(v)
        &&& !T::fills_buffer()
    }

    open spec fn encoding(v: Seq<T::Value>) -> Seq<u8> {
        be_i32(v.len() as i32) + elements_encoding::<T>(v)
    }

    open spec fn decoding(s: Seq<u8>) -> Decoded<Seq<T::Value>> {
        let count = i32::decoding(s);
        match count.outcome {
            Err(e) => failed(e, count.consumed),
            Ok(n) => prepend(
                Seq::empty(),
                count.consumed,
                repeat_decoding::<T>(s.skip(count.consumed), count_of(n as int)),
            ),
        }
    }

    open spec fn fills_buffer() -> bool {
        false
    }

    proof fn lemma_consumed_in_bounds(s: Seq<u8>) {
        let count = i32::decoding(s);
        if count.outcome is Ok {
            lemma_repeat_consumed_in_bounds::<T>(s.skip(4), count_of(count.outcome->Ok_0 as int));
        }
    }

    proof fn lemma_round_trip(v: Seq<T::Value>, rest: Seq<u8>) {
        let s = Self::encoding(v) + rest;
        let after = elements_encoding::<T>(v) + rest;
        assert(s =~= be_i32(v.len() as i32) + after);
        i32::lemma_round_trip(v.len() as i32, after);
        assert(s.skip(4) =~= after);
        lemma_repeat_round_trip::<T>(v, rest);
        assert(Seq::<T::Value>::empty() + v =~= v);
    }
}

impl<T: ByteSized> ByteSized for Vec32<T> {
    fn checked_byte_size(&self) -> (size: Option<i32>) {
        checked_elements_size(&self.0, 4)
    }
}

impl<T: Serialize> Serialize for Vec32<T> {
    fn serialize(&self, buffer: &mut BytesMut) {
        put_i32(buffer, #[verifier::truncate] (self.0.len() as i32));
        serialize_elements(&self.0, buffer);
        assert(written(*buffer) =~= written(*old(buffer)) + Self::encoding(self.value()));
    }
}

impl<T: Deserialize> Deserialize for Vec32<T> {
    fn deserialize(buffer: &mut Bytes) -> (r: Result<Self, Error>) {
        let ghost s = remaining(*buffer);
        let len = match try_get_i32(buffer) {
            Ok(len) => len,
            Err(_) => {
                assert(remaining(*buffer) =~= s.skip(0));
                return Err(Error::BufferUnderflow);
            },
        };
        let count: usize = if len > 0 {
            len as usize
        } else {
            0
        };
        proof {
            lemma_repeat_consumed_in_bounds::<T>(s.skip(4), count as nat);
            let used = repeat_decoding::<T>(s.skip(4), count as nat).consumed;
            assert(s.skip(4).skip(used) =~= s.skip(4 + used));
        }
        match deserialize_elements::<T>(buffer, count) {
            Err(e) => Err(e),
            Ok(items) => {
                assert(Seq::<T::Value>::empty() + values_of(items@) =~= values_of(items@));
                Ok(Vec32(items))
            },
        }
    }
}

} // verus!
