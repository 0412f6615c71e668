//! The rule by which records are composed: the fields of a record stand on
//! the wire one after the other, in the order in which they are declared.
//!
//! A pair is the record of two fields, and a record of more fields is a pair
//! whose second part is the record of the fields after the first.

use crate::buffer::{remaining, written};
use crate::error::Error;
use crate::wire::{failed, read, ByteSized, Decoded, Deserialize, Serialize, Wire};
use bytes::{Bytes, BytesMut};
use vstd::prelude::*;

verus! {

impl<A: Wire, B: Wire> Wire for (A, B) {
    type Value = (A::Value, B::Value);

    open spec fn value(&self) -> (A::Value, B::Value) {
        (self.0.value(), self.1.value())
    }

    open spec fn well_formed(v: (A::Value, B::Value)) -> bool {
        &&& A::well_formed(v.0)
        &&& B::well_formed(v.1)
        &&& !A::fills_buffer()
    }

    open spec fn encoding(v: (A::Value, B::Value)) -> Seq<u8> {
        A::encoding(v.0) + B::encoding(v.1)
    }

    open spec fn decoding(s: Seq<u8>) -> Decoded<(A::Value, B::Value)> {
        let first = A::decoding(s);
        match first.outcome {
            Err(e) => failed(e, first.consumed),
            Ok(a) => {
                let second = B::decoding(s.skip(first.consumed));
                match second.outcome {
                    Err(e) => failed(e, first.consumed + second.consumed),
                    Ok(b) => read((a, b), first.consumed + second.consumed),
                }
            },
        }
    }

    open spec fn fills_buffer() -> bool {
        B::fills_buffer()
    }

    proof fn lemma_consumed_in_bounds(s: Seq<u8>) {
        A::lemma_consumed_in_bounds(s);
        B::lemma_consumed_in_bounds(s.skip(A::decoding(s).consumed));
    }

    proof fn lemma_round_trip(v: (A::Value, B::Value), rest: Seq<u8>) {
        let s = Self::encoding(v) + rest;
        let after = B::encoding(v.1) + rest;
        assert(s =~= A::encoding(v.0) + after);
        A::lemma_round_trip(v.0, after);
        assert(s.skip(A::encoding(v.0).len() as int) =~= after);
        B::lemma_round_trip(v.1, rest);
    }
}

impl<A: ByteSized, B: ByteSized> ByteSized for (A, B) {
    fn checked_byte_size(&self) -> (size: Option<i32>) {
        match self.0.checked_byte_size() {
            None => None,
            Some(first) => match self.1.checked_byte_size() {
                None => None,
                Some(second) => first.checked_add(second),
            },
        }
    }
}

impl<A: Serialize, B: Serialize> Serialize for (A, B) {
    fn serialize(&self, buffer: &mut BytesMut) {
        self.0.serialize(buffer);
        self.1.serialize(buffer);
        assert(written(*buffer) =~= written(*old(buffer)) + Self::encoding(self.value()));
    }
}

impl<A: Deserialize, B: Deserialize> Deserialize for (A, B) {
    fn deserialize(buffer: &mut Bytes) -> (r: Result<Self, Error>) {
        proof {
            lemma_skip_twice::<A, B>(remaining(*buffer));
        }
        let first = A::deserialize(buffer)?;
        let second = B::deserialize(buffer)?;
        Ok((first, second))
    }
}

/// What is left behind the first field of a record and then behind the second
/// is what is left behind both.
pub proof fn lemma_skip_twice<A: Wire, B: Wire>(s: Seq<u8>)
    ensures
        ({
            let first = A::decoding(s).consumed;
            let second = B::decoding(s.skip(first)).consumed;
            s.skip(first).skip(second) == s.skip(first + second)
        }),
{
    let first = A::decoding(s).consumed;
    let second = B::decoding(s.skip(first)).consumed;
    A::lemma_consumed_in_bounds(s);
    B::lemma_consumed_in_bounds(s.skip(first));
    assert(s.skip(first).skip(second) =~= s.skip(first + second));
}

} // verus!
