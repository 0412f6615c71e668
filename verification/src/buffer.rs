//! The byte buffers of the `bytes` crate, as the codec sees them.
//!
//! `Bytes` is the readable buffer that decoding consumes from the front and
//! `BytesMut` the growable buffer that encoding appends to. Verus does not
//! look inside either: what it knows of them is what the contracts below
//! state, and those are taken on trust from the crate's source.

use bytes::{Buf, BufMut, Bytes, BytesMut, TryGetError};
use vstd::prelude::*;

verus! {

/// `bytes::Bytes`, a buffer to read from.
#[verifier::external_type_specification]
#[verifier::external_body]
pub struct ExBytes(Bytes);

/// `bytes::BytesMut`, a buffer to write to.
#[verifier::external_type_specification]
#[verifier::external_body]
pub struct ExBytesMut(BytesMut);

/// `bytes::TryGetError`, with which a reading says that the buffer holds too
/// few bytes.
#[verifier::external_type_specification]
#[verifier::external_body]
pub struct ExTryGetError(TryGetError);

/// The bytes that are still to be read from a `Bytes`, front first.
pub uninterp spec fn remaining(buffer: Bytes) -> Seq<u8>;

/// The bytes that a `BytesMut` holds, in the order in which they were written.
pub uninterp spec fn written(buffer: BytesMut) -> Seq<u8>;

/// The two bytes of `v` in network order.
pub open spec fn be_i16(v: i16) -> Seq<u8> {
    let u = if v < 0 { v + 0x1_0000 } else { v as int };
    seq![(u / 0x100) as u8, (u % 0x100) as u8]
}

/// The four bytes of `v` in network order.
pub open spec fn be_i32(v: i32) -> Seq<u8> {
    let u = if v < 0 { v + 0x1_0000_0000 } else { v as int };
    seq![
        (u / 0x100_0000) as u8,
        (u / 0x1_0000 % 0x100) as u8,
        (u / 0x100 % 0x100) as u8,
        (u % 0x100) as u8,
    ]
}

/// The byte that stands for `v` in two's complement.
pub open spec fn byte_of_i8(v: i8) -> u8 {
    if v < 0 { (v + 0x100) as u8 } else { v as u8 }
}

/// The signed integer that the byte `b` stands for in two's complement.
pub open spec fn i8_of_byte(b: u8) -> i8 {
    if b >= 0x80 { (b - 0x100) as i8 } else { b as i8 }
}

/// The signed integer whose two bytes in network order are `hi`, `lo`.
pub open spec fn i16_of_be(hi: u8, lo: u8) -> i16 {
    let u = hi * 0x100 + lo;
    if u >= 0x8000 { (u - 0x1_0000) as i16 } else { u as i16 }
}

/// The signed integer whose four bytes in network order are `b0` to `b3`.
pub open spec fn i32_of_be(b0: u8, b1: u8, b2: u8, b3: u8) -> i32 {
    let u = b0 * 0x100_0000 + b1 * 0x1_0000 + b2 * 0x100 + b3;
    if u >= 0x8000_0000 { (u - 0x1_0000_0000) as i32 } else { u as i32 }
}

/// `BytesMut::new`: a buffer that holds nothing.
#[verifier::external_body]
pub(crate) fn new_buffer() -> (buffer: BytesMut)
    ensures
        written(buffer) == Seq::<u8>::empty(),
{
    BytesMut::new()
}

/// `BytesMut::len`: the number of bytes written.
#[verifier::external_body]
pub(crate) fn written_len(buffer: &BytesMut) -> (n: usize)
    ensures
        n == written(*buffer).len(),
{
    buffer.len()
}

/// `BufMut::put_u8` on a `BytesMut`: appends the byte. The crate grows the
/// buffer as needed and refuses a length beyond `isize::MAX`.
#[verifier::external_body]
pub(crate) fn put_u8(buffer: &mut BytesMut, v: u8)
    requires
        written(*old(buffer)).len() + 1 <= isize::MAX,
    ensures
        written(*final(buffer)) == written(*old(buffer)).push(v),
{
    buffer.put_u8(v)
}

/// `BufMut::put_i8` on a `BytesMut`: appends the byte that stands for `v` in
/// two's complement.
#[verifier::external_body]
pub(crate) fn put_i8(buffer: &mut BytesMut, v: i8)
    requires
        written(*old(buffer)).len() + 1 <= isize::MAX,
    ensures
        written(*final(buffer)) == written(*old(buffer)).push(byte_of_i8(v)),
{
    buffer.put_i8(v)
}

/// `BufMut::put_i16` on a `BytesMut`: appends the two bytes of `v`, most
/// significant first.
#[verifier::external_body]
pub(crate) fn put_i16(buffer: &mut BytesMut, v: i16)
    requires
        written(*old(buffer)).len() + 2 <= isize::MAX,
    ensures
        written(*final(buffer)) == written(*old(buffer)) + be_i16(v),
{
    buffer.put_i16(v)
}

/// `BufMut::put_i32` on a `BytesMut`: appends the four bytes of `v`, most
/// significant first.
#[verifier::external_body]
pub(crate) fn put_i32(buffer: &mut BytesMut, v: i32)
    requires
        written(*old(buffer)).len() + 4 <= isize::MAX,
    ensures
        written(*final(buffer)) == written(*old(buffer)) + be_i32(v),
{
    buffer.put_i32(v)
}

/// `BufMut::put_slice` on a `BytesMut`: appends the bytes of `src` in order.
#[verifier::external_body]
pub(crate) fn put_slice(buffer: &mut BytesMut, src: &[u8])
    requires
        written(*old(buffer)).len() + src@.len() <= isize::MAX,
    ensures
        written(*final(buffer)) == written(*old(buffer)) + src@,
{
    buffer.put_slice(src)
}

/// `Bytes::len`: the number of bytes still to be read.
#[verifier::external_body]
pub(crate) fn remaining_len(buffer: &Bytes) -> (n: usize)
    ensures
        n == remaining(*buffer).len(),
{
    buffer.len()
}

/// `Buf::try_get_u8` on a `Bytes`: takes the first byte, or fails and leaves
/// the buffer as it is when there is none.
#[verifier::external_body]
pub(crate) fn try_get_u8(buffer: &mut Bytes) -> (r: Result<u8, TryGetError>)
    ensures
        r is Ok <==> remaining(*old(buffer)).len() >= 1,
        r is Ok ==> r->Ok_0 == remaining(*old(buffer))[0] && remaining(*final(buffer))
            == remaining(*old(buffer)).skip(1),
        r is Err ==> remaining(*final(buffer)) == remaining(*old(buffer)),
{
    buffer.try_get_u8()
}

/// `Buf::try_get_i8` on a `Bytes`: takes the first byte as a signed integer,
/// or fails and leaves the buffer as it is when there is none.
#[verifier::external_body]
pub(crate) fn try_get_i8(buffer: &mut Bytes) -> (r: Result<i8, TryGetError>)
    ensures
        r is Ok <==> remaining(*old(buffer)).len() >= 1,
        r is Ok ==> r->Ok_0 == i8_of_byte(remaining(*old(buffer))[0]) && remaining(*final(buffer))
            == remaining(*old(buffer)).skip(1),
        r is Err ==> remaining(*final(buffer)) == remaining(*old(buffer)),
{
    buffer.try_get_i8()
}

/// `Buf::try_get_i16` on a `Bytes`: takes the first two bytes as a signed
/// integer in network order, or fails and leaves the buffer as it is when
/// there are fewer.
#[verifier::external_body]
pub(crate) fn try_get_i16(buffer: &mut Bytes) -> (r: Result<i16, TryGetError>)
    ensures
        r is Ok <==> remaining(*old(buffer)).len() >= 2,
        r is Ok ==> r->Ok_0 == i16_of_be(remaining(*old(buffer))[0], remaining(*old(buffer))[1])
            && remaining(*final(buffer)) == remaining(*old(buffer)).skip(2),
        r is Err ==> remaining(*final(buffer)) == remaining(*old(buffer)),
{
    buffer.try_get_i16()
}

/// `Buf::try_get_i32` on a `Bytes`: takes the first four bytes as a signed
/// integer in network order, or fails and leaves the buffer as it is when
/// there are fewer.
#[verifier::external_body]
pub(crate) fn try_get_i32(buffer: &mut Bytes) -> (r: Result<i32, TryGetError>)
    ensures
        r is Ok <==> remaining(*old(buffer)).len() >= 4,
        r is Ok ==> r->Ok_0 == i32_of_be(
            remaining(*old(buffer))[0],
            remaining(*old(buffer))[1],
            remaining(*old(buffer))[2],
            remaining(*old(buffer))[3],
        ) && remaining(*final(buffer)) == remaining(*old(buffer)).skip(4),
        r is Err ==> remaining(*final(buffer)) == remaining(*old(buffer)),
{
    buffer.try_get_i32()
}

/// `Buf::try_copy_to_slice` on a `Bytes`, with an array of four bytes as the
/// slice: takes the first four bytes, or fails and leaves the buffer as it is
/// when there are fewer.
#[verifier::external_body]
pub(crate) fn try_get_byte4(buffer: &mut Bytes) -> (r: Result<[u8; 4], TryGetError>)
    ensures
        r is Ok <==> remaining(*old(buffer)).len() >= 4,
        r is Ok ==> r->Ok_0@ == remaining(*old(buffer)).take(4) && remaining(*final(buffer))
            == remaining(*old(buffer)).skip(4),
        r is Err ==> remaining(*final(buffer)) == remaining(*old(buffer)),
{
    let mut t = [0_u8; 4];
    buffer.try_copy_to_slice(&mut t)?;
    Ok(t)
}

/// `Bytes::split_to`: takes the first `at` bytes off the buffer and hands
/// them out as a buffer of their own. The crate panics where `at` is beyond
/// the end.
#[verifier::external_body]
pub(crate) fn split_to(buffer: &mut Bytes, at: usize) -> (front: Bytes)
    requires
        at <= remaining(*old(buffer)).len(),
    ensures
        remaining(front) == remaining(*old(buffer)).take(at as int),
        remaining(*final(buffer)) == remaining(*old(buffer)).skip(at as int),
{
    buffer.split_to(at)
}

/// `Bytes::clone`: a second handle on the same bytes.
#[verifier::external_body]
pub(crate) fn share(buffer: &Bytes) -> (copy: Bytes)
    ensures
        remaining(copy) == remaining(*buffer),
{
    buffer.clone()
}

/// `Buf::try_get_u8` on a `BytesMut`: takes the first byte that the buffer
/// holds, or fails and leaves the buffer as it is when it holds none.
#[verifier::external_body]
pub(crate) fn take_u8(buffer: &mut BytesMut) -> (r: Result<u8, TryGetError>)
    ensures
        r is Ok <==> written(*old(buffer)).len() >= 1,
        r is Ok ==> r->Ok_0 == written(*old(buffer))[0] && written(*final(buffer)) == written(
            *old(buffer),
        ).skip(1),
        r is Err ==> written(*final(buffer)) == written(*old(buffer)),
{
    buffer.try_get_u8()
}

} // verus!
