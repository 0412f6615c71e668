//! What the three array shapes share: the elements of an array one after the
//! other on the wire.

use crate::buffer::{remaining, written};
use crate::error::Error;
use crate::wire::{failed, read, ByteSized, Decoded, Deserialize, Serialize, Wire};
use bytes::{Bytes, BytesMut};
use vstd::prelude::*;

verus! {

/// The values that the items of `items` stand for, in order.
pub open spec fn values_of<T: Wire>(items: Seq<T>) -> Seq<T::Value> {
    Seq::new(items.len(), |i: int| items[i].value())
}

/// The bytes of the values of `values`, one value after the other.
pub open spec fn elements_encoding<T: Wire>(values: Seq<T::Value>) -> Seq<u8>
    decreases values.len(),
{
    if values.len() == 0 {
        Seq::empty()
    } else {
        elements_encoding::<T>(values.drop_last()) + T::encoding(values.last())
    }
}

/// The reading `rest`, made behind the values `values` that took `consumed` bytes.
pub open spec fn prepend<V>(values: Seq<V>, consumed: int, rest: Decoded<Seq<V>>) -> Decoded<
    Seq<V>,
> {
    Decoded {
        outcome: match rest.outcome {
            Ok(more) => Ok(values + more),
            Err(e) => Err(e),
        },
        consumed: consumed + rest.consumed,
    }
}

/// What reading `count` items off the front of `s`, one after the other, gives.
/// The first item that cannot be read ends the reading with its error.
pub open spec fn repeat_decoding<T: Wire>(s: Seq<u8>, count: nat) -> Decoded<Seq<T::Value>>
    decreases count,
{
    if count == 0 {
        read(Seq::empty(), 0)
    } else {
        let first = T::decoding(s);
        match first.outcome {
            Err(e) => failed(e, first.consumed),
            Ok(v) => prepend(
                seq![v],
                first.consumed,
                repeat_decoding::<T>(s.skip(first.consumed), (count - 1) as nat),
            ),
        }
    }
}

/// Whether every value of `values` is well formed.
pub open spec fn all_well_formed<T: Wire>(values: Seq<T::Value>) -> bool {
    forall|i: int| 0 <= i < values.len() ==> T::well_formed(#[trigger] values[i])
}

/// The bytes of two runs of values are the bytes of the first followed by
/// those of the second.
pub proof fn lemma_elements_encoding_concat<T: Wire>(a: Seq<T::Value>, b: Seq<T::Value>)
    ensures
        elements_encoding::<T>(a + b) == elements_encoding::<T>(a) + elements_encoding::<T>(b),
    decreases b.len(),
{
    if b.len() == 0 {
        assert(a + b =~= a);
        assert(elements_encoding::<T>(a) + elements_encoding::<T>(b) =~= elements_encoding::<T>(a));
    } else {
        assert((a + b).drop_last() =~= a + b.drop_last());
        assert((a + b).last() == b.last());
        lemma_elements_encoding_concat::<T>(a, b.drop_last());
        assert(elements_encoding::<T>(a + b) =~= elements_encoding::<T>(a) + elements_encoding::<T>(
            b,
        ));
    }
}

/// The bytes of the first `i + 1` values are those of the first `i` followed
/// by those of the value at `i`.
pub proof fn lemma_elements_encoding_step<T: Wire>(values: Seq<T::Value>, i: int)
    requires
        0 <= i < values.len(),
    ensures
        elements_encoding::<T>(values.take(i + 1)) == elements_encoding::<T>(values.take(i))
            + T::encoding(values[i]),
        elements_encoding::<T>(values.take(i + 1)).len() <= elements_encoding::<T>(values).len(),
{
    assert(values.take(i + 1).drop_last() =~= values.take(i));
    assert(values =~= values.take(i + 1) + values.skip(i + 1));
    lemma_elements_encoding_concat::<T>(values.take(i + 1), values.skip(i + 1));
}

/// A reading of items uses up bytes of the sequence it reads, and no others.
pub proof fn lemma_repeat_consumed_in_bounds<T: Wire>(s: Seq<u8>, count: nat)
    ensures
        0 <= repeat_decoding::<T>(s, count).consumed <= s.len(),
    decreases count,
{
    if count > 0 {
        T::lemma_consumed_in_bounds(s);
        let first = T::decoding(s);
        if first.outcome is Ok {
            lemma_repeat_consumed_in_bounds::<T>(s.skip(first.consumed), (count - 1) as nat);
        }
    }
}

/// Reading as many items as there are values, from the bytes of well-formed
/// values, gives the values back and uses up those bytes exactly, whatever
/// follows them.
pub proof fn lemma_repeat_round_trip<T: Wire>(values: Seq<T::Value>, rest: Seq<u8>)
    requires
        all_well_formed::<T>(values),
        !T::fills_buffer(),
    ensures
        repeat_decoding::<T>(elements_encoding::<T>(values) + rest, values.len()) == read(
            values,
            elements_encoding::<T>(values).len() as int,
        ),
    decreases values.len(),
{
    let s = elements_encoding::<T>(values) + rest;
    if values.len() == 0 {
        assert(values =~= Seq::empty());
    } else {
        let head = values[0];
        let tail = values.skip(1);
        assert(values =~= seq![head] + tail);
        lemma_elements_encoding_concat::<T>(seq![head], tail);
        let one = seq![head];
        assert(one.len() == 1 && one.last() == head);
        assert(one.drop_last() =~= Seq::<T::Value>::empty());
        assert(elements_encoding::<T>(one.drop_last()) =~= Seq::<u8>::empty());
        assert(elements_encoding::<T>(one) =~= T::encoding(head));
        let after = elements_encoding::<T>(tail) + rest;
        assert(s =~= T::encoding(head) + after);
        T::lemma_round_trip(head, after);
        assert(s.skip(T::encoding(head).len() as int) =~= after);
        lemma_repeat_round_trip::<T>(tail, rest);
        assert(seq![head] + tail =~= values);
    }
}

/// Appends the bytes of the items of `items`, in order, to `buffer`.
pub fn serialize_elements<T: Serialize>(items: &Vec<T>, buffer: &mut BytesMut)
    requires
        written(*old(buffer)).len() + elements_encoding::<T>(values_of(items@)).len()
            <= isize::MAX,
    ensures
        written(*final(buffer)) == written(*old(buffer)) + elements_encoding::<T>(
            values_of(items@),
        ),
{
    let ghost values = values_of(items@);
    let mut i: usize = 0;
    assert(written(*buffer) =~= written(*old(buffer)) + elements_encoding::<T>(values.take(0)));
    while i < items.len()
        invariant
            i <= items@.len(),
            values == values_of(items@),
            written(*old(buffer)).len() + elements_encoding::<T>(values).len() <= isize::MAX,
            written(*buffer) == written(*old(buffer)) + elements_encoding::<T>(
                values.take(i as int),
            ),
        decreases items@.len() - i,
    {
        proof {
            lemma_elements_encoding_step::<T>(values, i as int);
        }
        items[i].serialize(buffer);
        assert(written(*buffer) =~= written(*old(buffer)) + elements_encoding::<T>(
            values.take(i + 1),
        ));
        i = i + 1;
    }
    assert(values.take(i as int) =~= values);
}

/// The number `start` and the lengths on the wire of the items of `items`,
/// added up, if a signed 32-bit integer can hold the sum.
pub fn checked_elements_size<T: ByteSized>(items: &Vec<T>, start: i32) -> (size: Option<i32>)
    requires
        start >= 0,
    ensures
        size == (if start + elements_encoding::<T>(values_of(items@)).len() <= i32::MAX {
            Some((start + elements_encoding::<T>(values_of(items@)).len()) as i32)
        } else {
            None
        }),
{
    let ghost values = values_of(items@);
    let mut size: i32 = start;
    let mut i: usize = 0;
    while i < items.len()
        invariant
            i <= items@.len(),
            values == values_of(items@),
            size == start + elements_encoding::<T>(values.take(i as int)).len(),
            start >= 0,
        decreases items@.len() - i,
    {
        proof {
            lemma_elements_encoding_step::<T>(values, i as int);
        }
        match items[i].checked_byte_size() {
            None => {
                return None;
            },
            Some(n) => match size.checked_add(n) {
                None => {
                    return None;
                },
                Some(sum) => {
                    size = sum;
                },
            },
        }
        i = i + 1;
    }
    assert(values.take(i as int) =~= values);
    Some(size)
}

/// Reads `count` items off the front of `buffer`, one after the other.
pub fn deserialize_elements<T: Deserialize>(buffer: &mut Bytes, count: usize) -> (r: Result<
    Vec<T>,
    Error,
>)
    ensures
        match repeat_decoding::<T>(remaining(*old(buffer)), count as nat).outcome {
            Ok(values) => r is Ok && values_of(r->Ok_0@) == values,
            Err(e) => r == Err::<Vec<T>, Error>(e),
        },
        remaining(*final(buffer)) == remaining(*old(buffer)).skip(
            repeat_decoding::<T>(remaining(*old(buffer)), count as nat).consumed,
        ),
{
    let ghost s = remaining(*buffer);
    let ghost mut used: int = 0;
    let mut items: Vec<T> = Vec::new();
    let mut i: usize = 0;
    assert(s.skip(0) =~= s);
    assert(values_of(items@) + Seq::<T::Value>::empty() =~= values_of(items@));
    while i < count
        invariant
            s == remaining(*old(buffer)),
            i <= count,
            0 <= used <= s.len(),
            remaining(*buffer) == s.skip(used),
            repeat_decoding::<T>(s, count as nat) == prepend(
                values_of(items@),
                used,
                repeat_decoding::<T>(s.skip(used), (count - i) as nat),
            ),
        decreases count - i,
    {
        let ghost before = s.skip(used);
        let ghost first = T::decoding(before);
        let ghost prefix = values_of(items@);
        proof {
            T::lemma_consumed_in_bounds(before);
            assert(s.skip(used).skip(first.consumed) =~= s.skip(used + first.consumed));
        }
        match T::deserialize(buffer) {
            Err(e) => {
                return Err(e);
            },
            Ok(item) => {
                items.push(item);
                proof {
                    let rest = repeat_decoding::<T>(
                        s.skip(used + first.consumed),
                        (count - i - 1) as nat,
                    );
                    assert(values_of(items@) =~= prefix + seq![item.value()]);
                    if rest.outcome is Ok {
                        assert(prefix + (seq![item.value()] + rest.outcome->Ok_0) =~= (prefix
                            + seq![item.value()]) + rest.outcome->Ok_0);
                    }
                    used = used + first.consumed;
                }
            },
        }
        i = i + 1;
    }
    assert(values_of(items@) + Seq::<T::Value>::empty() =~= values_of(items@));
    Ok(items)
}

} // verus!
