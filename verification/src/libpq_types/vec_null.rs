//! Arrays whose elements follow one another up to a terminating zero byte at
//! the end of the buffer.

use crate::buffer::{put_u8, remaining, remaining_len, try_get_u8, written};
use crate::error::{Error, Flaw};
use crate::libpq_types::elements::{
    all_well_formed, checked_elements_size, elements_encoding, lemma_elements_encoding_concat,
    prepend, serialize_elements, values_of,
};
use crate::wire::{failed, read, ByteSized, Decoded, Deserialize, Serialize, Wire};
use bytes::{Bytes, BytesMut};
use vstd::prelude::*;
use vstd::std_specs::convert::FromSpecImpl;

verus! {

/// An array where the elements stand one after the other without a count. A
/// zero byte ends it, and it takes up the whole buffer.
#[derive(Debug, PartialEq)]
pub struct VecNull<T>(Vec<T>);

impl<T> View for VecNull<T> {
    type V = Seq<T>;

    closed spec fn view(&self) -> Seq<T> {
        self.0@
    }
}

impl<T> VecNull<T> {
    /// An array without elements.
    pub fn new() -> (array: Self)
        ensures
            array@ == Seq::<T>::empty(),
    {
        Self(Vec::new())
    }

    /// The elements of the array.
    pub fn as_ref(&self) -> (items: &Vec<T>)
        ensures
            items@ == self@,
    {
        &self.0
    }

    /// The elements of the array, to be changed in place.
    pub fn as_mut(&mut self) -> (items: &mut Vec<T>)
        ensures
            items@ == old(self)@,
            final(self)@ == final(items)@,
    {
        &mut self.0
    }

    /// The elements of the array, without the array.
    pub fn into_vec(self) -> (items: Vec<T>)
        ensures
            items@ == self@,
    {
        self.0
    }
}

impl<T> From<Vec<T>> for VecNull<T> {
    fn from(item: Vec<T>) -> (array: VecNull<T>)
        ensures
            array@ == item@,
    {
        VecNull(item)
    }
}

impl<T> FromSpecImpl<Vec<T>> for VecNull<T> {
    open spec fn obeys_from_spec() -> bool {
        true
    }

    closed spec fn from_spec(item: Vec<T>) -> VecNull<T> {
        VecNull(item)
    }
}

/// What reading items off the front of `s` gives, up to the last byte of `s`,
/// which has to be the terminator. The first item that cannot be read ends the
/// reading with its error; so does an item that takes up no bytes.
pub open spec fn list_decoding<T: Wire>(s: Seq<u8>) -> Decoded<Seq<T::Value>>
    decreases s.len(),
{
    if s.len() == 0 {
        failed(Error::Malformed(Flaw::MissingTerminator), 0)
    } else if s.len() == 1 {
        if s[0] == 0 {
            read(Seq::empty(), 1)
        } else {
            failed(Error::Malformed(Flaw::IncorrectTerminator), 1)
        }
    } else {
        let first = T::decoding(s);
        match first.outcome {
            Err(e) => failed(e, first.consumed),
            Ok(v) => if 0 < first.consumed <= s.len() {
                prepend(seq![v], first.consumed, list_decoding::<T>(s.skip(first.consumed)))
            } else {
                failed(Error::Malformed(Flaw::EmptyElement), first.consumed)
            },
        }
    }
}

/// Whether every value of `values` takes at least one byte on the wire.
pub open spec fn none_empty<T: Wire>(values: Seq<T::Value>) -> bool {
    forall|i: int| 0 <= i < values.len() ==> T::encoding(#[trigger] values[i]).len() > 0
}

/// A reading of a terminated array uses up bytes of the sequence it reads,
/// and no others.
pub proof fn lemma_list_consumed_in_bounds<T: Wire>(s: Seq<u8>)
    ensures
        0 <= list_decoding::<T>(s).consumed <= s.len(),
    decreases s.len(),
{
    if s.len() >= 2 {
        T::lemma_consumed_in_bounds(s);
        let first = T::decoding(s);
        if first.outcome is Ok && 0 < first.consumed {
            lemma_list_consumed_in_bounds::<T>(s.skip(first.consumed));
        }
    }
}

/// Reading the bytes of well-formed values, none of them empty on the wire,
/// with the terminator behind them, gives the values back and uses up all
/// the bytes.
pub proof fn lemma_list_round_trip<T: Wire>(values: Seq<T::Value>)
    requires
        all_well_formed::<T>(values),
        none_empty::<T>(values),
        !T::fills_buffer(),
    ensures
        list_decoding::<T>(elements_encoding::<T>(values).push(0)) == read(
            values,
            elements_encoding::<T>(values).len() as int + 1,
        ),
    decreases values.len(),
{
    let s = elements_encoding::<T>(values).push(0);
    if values.len() == 0 {
        assert(values =~= Seq::empty());
    } else {
        let head = values[0];
        let tail = values.skip(1);
        let one = seq![head];
        assert(values =~= one + tail);
        lemma_elements_encoding_concat::<T>(one, tail);
        assert(one.len() == 1 && one.last() == head);
        assert(one.drop_last() =~= Seq::<T::Value>::empty());
        assert(elements_encoding::<T>(one.drop_last()) =~= Seq::<u8>::empty());
        assert(elements_encoding::<T>(one) =~= T::encoding(head));
        let after = elements_encoding::<T>(tail).push(0);
        assert(s =~= T::encoding(head) + after);
        T::lemma_round_trip(head, after);
        assert(s.skip(T::encoding(head).len() as int) =~= after);
        lemma_list_round_trip::<T>(tail);
        assert(one + tail =~= values);
    }
}

/// A terminated array is never read from bytes that do not end in a zero
/// byte. The reading fails as malformed, unless an element at some place in
/// the bytes cannot be read: then it fails as that element does.
pub proof fn lemma_list_needs_terminator<T: Wire>(s: Seq<u8>)
    requires
        s.len() == 0 || s.last() != 0,
    ensures
        match list_decoding::<T>(s).outcome {
            Ok(_) => false,
            Err(Error::Malformed(_)) => true,
            Err(e) => exists|k: int|
                0 <= k <= s.len() && (#[trigger] T::decoding(s.skip(k))).outcome == Err::<
                    T::Value,
                    Error,
                >(e),
        },
    decreases s.len(),
{
    if s.len() >= 2 {
        let first = T::decoding(s);
        assert(s.skip(0) =~= s);
        match first.outcome {
            Err(e) => {
                assert(T::decoding(s.skip(0)).outcome == Err::<T::Value, Error>(e));
            },
            Ok(v) => {
                if 0 < first.consumed <= s.len() {
                    let rest = s.skip(first.consumed);
                    lemma_list_needs_terminator::<T>(rest);
                    match list_decoding::<T>(rest).outcome {
                        Ok(_) => {},
                        Err(Error::Malformed(_)) => {},
                        Err(e) => {
                            let k = choose|k: int|
                                0 <= k <= rest.len() && (#[trigger] T::decoding(
                                    rest.skip(k),
                                )).outcome == Err::<T::Value, Error>(e);
                            assert(rest.skip(k) =~= s.skip(first.consumed + k));
                            assert(T::decoding(s.skip(first.consumed + k)).outcome == Err::<
                                T::Value,
                                Error,
                            >(e));
                        },
                    }
                }
            },
        }
    }
}

impl<T: Wire> Wire for VecNull<T> {
    type Value = Seq<T::Value>;

    open spec fn value(&self) -> Seq<T::Value> {
        values_of(self@)
    }

    open spec fn well_formed(v: Seq<T::Value>) -> bool {
        &&& all_well_formed::<T>(v)
        &&& none_empty::<T>(v)
        &&& !T::fills_buffer()
    }

    open spec fn encoding(v: Seq<T::Value>) -> Seq<u8> {
        elements_encoding::<T>(v).push(0)
    }

    open spec fn decoding(s: Seq<u8>) -> Decoded<Seq<T::Value>> {
        list_decoding::<T>(s)
    }

    open spec fn fills_buffer() -> bool {
        true
    }

    proof fn lemma_consumed_in_bounds(s: Seq<u8>) {
        lemma_list_consumed_in_bounds::<T>(s);
    }

    proof fn lemma_round_trip(v: Seq<T::Value>, rest: Seq<u8>) {
        assert(Self::encoding(v) + rest =~= Self::encoding(v));
        lemma_list_round_trip::<T>(v);
    }
}

impl<T: ByteSized> ByteSized for VecNull<T> {
    fn checked_byte_size(&self) -> (size: Option<i32>) {
        checked_elements_size(&self.0, 1)
    }
}

impl<T: Serialize> Serialize for VecNull<T> {
    fn serialize(&self, buffer: &mut BytesMut) {
        serialize_elements(&self.0, buffer);
        put_u8(buffer, 0);
        assert(written(*buffer) =~= written(*old(buffer)) + Self::encoding(self.value()));
    }
}

impl<T: Deserialize> Deserialize for VecNull<T> {
    fn deserialize(buffer: &mut Bytes) -> (r: Result<Self, Error>) {
        let ghost s = remaining(*buffer);
        let ghost mut used: int = 0;
        let mut items: Vec<T> = Vec::new();
        assert(s.skip(0) =~= s);
        loop
            invariant
                s == remaining(*old(buffer)),
                0 <= used <= s.len(),
                remaining(*buffer) == s.skip(used),
                list_decoding::<T>(s).consumed == used + list_decoding::<T>(s.skip(used)).consumed,
                match list_decoding::<T>(s.skip(used)).outcome {
                    Ok(more) => list_decoding::<T>(s).outcome == Ok::<Seq<T::Value>, Error>(
                        values_of(items@) + more,
                    ),
                    Err(e) => list_decoding::<T>(s).outcome == Err::<Seq<T::Value>, Error>(e),
                },
            decreases s.len() - used,
        {
            let ghost before = s.skip(used);
            let ghost first = T::decoding(before);
            let ghost prefix = values_of(items@);
            let len = remaining_len(buffer);
            if len == 1 {
                assert(before.skip(1) =~= s.skip(used + 1));
                return match try_get_u8(buffer) {
                    Ok(byte) => if byte == 0 {
                        assert(prefix + Seq::<T::Value>::empty() =~= prefix);
                        Ok(VecNull(items))
                    } else {
                        Err(Error::Malformed(Flaw::IncorrectTerminator))
                    },
                    Err(_) => Err(Error::BufferUnderflow),
                };
            } else if len == 0 {
                return Err(Error::Malformed(Flaw::MissingTerminator));
            } else {
                proof {
                    T::lemma_consumed_in_bounds(before);
                    assert(before.skip(first.consumed) =~= s.skip(used + first.consumed));
                }
                match T::deserialize(buffer) {
                    Err(e) => {
                        return Err(e);
                    },
                    Ok(item) => {
                        if remaining_len(buffer) >= len {
                            return Err(Error::Malformed(Flaw::EmptyElement));
                        }
                        items.push(item);
                        proof {
                            let rest = list_decoding::<T>(s.skip(used + first.consumed));
                            assert(values_of(items@) =~= prefix + seq![item.value()]);
                            if rest.outcome is Ok {
                                assert(prefix + (seq![item.value()] + rest.outcome->Ok_0) =~= (
                                prefix + seq![item.value()]) + rest.outcome->Ok_0);
                            }
                            used = used + first.consumed;
                        }
                    },
                }
            }
        }
    }
}

} // verus!
