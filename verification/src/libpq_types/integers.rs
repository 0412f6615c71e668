//! Fixed-width integers, the single byte and the array of four bytes.

use crate::buffer::{
    be_i16, be_i32, byte_of_i8, i16_of_be, i32_of_be, i8_of_byte, put_i16, put_i32, put_i8,
    put_slice, put_u8, try_get_byte4, try_get_i16, try_get_i32, try_get_i8, try_get_u8,
    written,
};
use crate::error::Error;
use crate::wire::{failed, read, ByteSized, Decoded, Deserialize, Serialize, Wire};
use bytes::{Bytes, BytesMut};
use vstd::prelude::*;

verus! {

/// A single byte.
pub type Byte = u8;

/// Four bytes, as they are.
pub type Byte4 = [u8; 4];

impl Wire for i8 {
    type Value = i8;

    open spec fn value(&self) -> i8 {
        *self
    }

    open spec fn well_formed(v: i8) -> bool {
        true
    }

    open spec fn encoding(v: i8) -> Seq<u8> {
        seq![byte_of_i8(v)]
    }

    open spec fn decoding(s: Seq<u8>) -> Decoded<i8> {
        if s.len() >= 1 {
            read(i8_of_byte(s[0]), 1)
        } else {
            failed(Error::BufferUnderflow, 0)
        }
    }

    open spec fn fills_buffer() -> bool {
        false
    }

    proof fn lemma_consumed_in_bounds(s: Seq<u8>) {
    }

    proof fn lemma_round_trip(v: i8, rest: Seq<u8>) {
    }
}

impl ByteSized for i8 {
    fn checked_byte_size(&self) -> (size: Option<i32>) {
        Some(1)
    }
}

impl Serialize for i8 {
    fn serialize(&self, buffer: &mut BytesMut) {
        put_i8(buffer, *self);
    }
}

impl Deserialize for i8 {
    fn deserialize(buffer: &mut Bytes) -> (r: Result<i8, Error>) {
        match try_get_i8(buffer) {
            Ok(v) => Ok(v),
            Err(_) => Err(Error::BufferUnderflow),
        }
    }
}

impl Wire for i16 {
    type Value = i16;

    open spec fn value(&self) -> i16 {
        *self
    }

    open spec fn well_formed(v: i16) -> bool {
        true
    }

    open spec fn encoding(v: i16) -> Seq<u8> {
        be_i16(v)
    }

    open spec fn decoding(s: Seq<u8>) -> Decoded<i16> {
        if s.len() >= 2 {
            read(i16_of_be(s[0], s[1]), 2)
        } else {
            failed(Error::BufferUnderflow, 0)
        }
    }

    open spec fn fills_buffer() -> bool {
        false
    }

    proof fn lemma_consumed_in_bounds(s: Seq<u8>) {
    }

    proof fn lemma_round_trip(v: i16, rest: Seq<u8>) {
    }
}

impl ByteSized for i16 {
    fn checked_byte_size(&self) -> (size: Option<i32>) {
        Some(2)
    }
}

impl Serialize for i16 {
    fn serialize(&self, buffer: &mut BytesMut) {
        put_i16(buffer, *self);
    }
}

impl Deserialize for i16 {
    fn deserialize(buffer: &mut Bytes) -> (r: Result<i16, Error>) {
        match try_get_i16(buffer) {
            Ok(v) => Ok(v),
            Err(_) => Err(Error::BufferUnderflow),
        }
    }
}

impl Wire for i32 {
    type Value = i32;

    open spec fn value(&self) -> i32 {
        *self
    }

    open spec fn well_formed(v: i32) -> bool {
        true
    }

    open spec fn encoding(v: i32) -> Seq<u8> {
        be_i32(v)
    }

    open spec fn decoding(s: Seq<u8>) -> Decoded<i32> {
        if s.len() >= 4 {
            read(i32_of_be(s[0], s[1], s[2], s[3]), 4)
        } else {
            failed(Error::BufferUnderflow, 0)
        }
    }

    open spec fn fills_buffer() -> bool {
        false
    }

    proof fn lemma_consumed_in_bounds(s: Seq<u8>) {
    }

    proof fn lemma_round_trip(v: i32, rest: Seq<u8>) {
    }
}

impl ByteSized for i32 {
    fn checked_byte_size(&self) -> (size: Option<i32>) {
        Some(4)
    }
}

impl Serialize for i32 {
    fn serialize(&self, buffer: &mut BytesMut) {
        put_i32(buffer, *self);
    }
}

impl Deserialize for i32 {
    fn deserialize(buffer: &mut Bytes) -> (r: Result<i32, Error>) {
        match try_get_i32(buffer) {
            Ok(v) => Ok(v),
            Err(_) => Err(Error::BufferUnderflow),
        }
    }
}

impl Wire for u8 {
    type Value = u8;

    open spec fn value(&self) -> u8 {
        *self
    }

    open spec fn well_formed(v: u8) -> bool {
        true
    }

    open spec fn encoding(v: u8) -> Seq<u8> {
        seq![v]
    }

    open spec fn decoding(s: Seq<u8>) -> Decoded<u8> {
        if s.len() >= 1 {
            read(s[0], 1)
        } else {
            failed(Error::BufferUnderflow, 0)
        }
    }

    open spec fn fills_buffer() -> bool {
        false
    }

    proof fn lemma_consumed_in_bounds(s: Seq<u8>) {
    }

    proof fn lemma_round_trip(v: u8, rest: Seq<u8>) {
    }
}

impl ByteSized for u8 {
    fn checked_byte_size(&self) -> (size: Option<i32>) {
        Some(1)
    }
}

impl Serialize for u8 {
    fn serialize(&self, buffer: &mut BytesMut) {
        put_u8(buffer, *self);
        assert(written(*buffer) =~= written(*old(buffer)) + seq![*self]);
    }
}

impl Deserialize for u8 {
    fn deserialize(buffer: &mut Bytes) -> (r: Result<u8, Error>) {
        match try_get_u8(buffer) {
            Ok(v) => Ok(v),
            Err(_) => Err(Error::BufferUnderflow),
        }
    }
}

impl Wire for [u8; 4] {
    type Value = Seq<u8>;

    open spec fn value(&self) -> Seq<u8> {
        self@
    }

    open spec fn well_formed(v: Seq<u8>) -> bool {
        v.len() == 4
    }

    open spec fn encoding(v: Seq<u8>) -> Seq<u8> {
        v
    }

    open spec fn decoding(s: Seq<u8>) -> Decoded<Seq<u8>> {
        if s.len() >= 4 {
            read(s.take(4), 4)
        } else {
            failed(Error::BufferUnderflow, 0)
        }
    }

    open spec fn fills_buffer() -> bool {
        false
    }

    proof fn lemma_consumed_in_bounds(s: Seq<u8>) {
    }

    proof fn lemma_round_trip(v: Seq<u8>, rest: Seq<u8>) {
        assert((v + rest).take(4) =~= v);
    }
}

impl ByteSized for [u8; 4] {
    fn checked_byte_size(&self) -> (size: Option<i32>) {
        Some(4)
    }
}

impl Serialize for [u8; 4] {
    fn serialize(&self, buffer: &mut BytesMut) {
        put_slice(buffer, self.as_slice());
    }
}

impl Deserialize for [u8; 4] {
    fn deserialize(buffer: &mut Bytes) -> (r: Result<[u8; 4], Error>) {
        match try_get_byte4(buffer) {
            Ok(v) => Ok(v),
            Err(_) => Err(Error::BufferUnderflow),
        }
    }
}

} // verus!
