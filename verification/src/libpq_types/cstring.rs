//! Null-terminated strings.

use crate::buffer::{put_slice, put_u8, remaining, try_get_u8, written};
use crate::error::{Error, Flaw};
use crate::wire::{failed, read, ByteSized, Decoded, Deserialize, Serialize, Wire};
use bytes::{Bytes, BytesMut};
use vstd::prelude::*;
use vstd::string::StringSliceAdditionalSpecFns;

verus! {

/// Whether no byte of `s` is zero.
pub open spec fn nul_free(s: Seq<u8>) -> bool {
    forall|i: int| 0 <= i < s.len() ==> s[i] != 0
}

/// The place of the first zero byte of `s`, or the length of `s` if it has none.
pub open spec fn first_nul(s: Seq<u8>) -> int
    decreases s.len(),
{
    if s.len() == 0 || s[0] == 0 {
        0
    } else {
        1 + first_nul(s.skip(1))
    }
}

/// `first_nul(s)` is `n` when no byte before `n` is zero and either the byte at
/// `n` is, or `s` ends there.
pub proof fn lemma_first_nul(s: Seq<u8>, n: int)
    requires
        0 <= n <= s.len(),
        nul_free(s.take(n)),
        n < s.len() ==> s[n] == 0,
    ensures
        first_nul(s) == n,
    decreases n,
{
    if n > 0 {
        assert(s.take(n)[0] == s[0]);
        let t = s.skip(1).take(n - 1);
        assert forall|i: int| 0 <= i < t.len() implies t[i] != 0 by {
            assert(t[i] == s.take(n)[i + 1]);
        }
        lemma_first_nul(s.skip(1), n - 1);
    }
}

/// A string of bytes none of which is zero. On the wire a zero byte follows it.
#[derive(Debug, PartialEq, Eq)]
pub struct CString {
    bytes: Vec<u8>,
}

impl View for CString {
    type V = Seq<u8>;

    closed spec fn view(&self) -> Seq<u8> {
        self.bytes@
    }
}

impl Clone for CString {
    fn clone(&self) -> (copy: CString)
        ensures
            copy@ == self@,
    {
        proof {
            use_type_invariant(self);
        }
        let bytes = self.bytes.clone();
        assert(bytes@ =~= self.bytes@);
        CString { bytes }
    }
}

impl CString {
    #[verifier::type_invariant]
    spec fn holds_no_nul(self) -> bool {
        nul_free(self.bytes@)
    }

    /// The string that holds `bytes`, none of which is zero.
    pub fn from_nul_free(bytes: Vec<u8>) -> (string: CString)
        requires
            nul_free(bytes@),
        ensures
            string@ == bytes@,
    {
        CString { bytes }
    }

    /// The string that holds the bytes of `text`; none if one of them is zero.
    pub fn new(text: &str) -> (r: Result<CString, Error>)
        ensures
            nul_free(text.spec_bytes()) ==> r is Ok && r->Ok_0@ == text.spec_bytes(),
            !nul_free(text.spec_bytes()) ==> r == Err::<CString, Error>(
                Error::Malformed(Flaw::InteriorNul),
            ),
    {
        CString::from_bytes(text.as_bytes())
    }

    /// The string that holds `bytes`; none if one of them is zero.
    pub fn from_bytes(bytes: &[u8]) -> (r: Result<CString, Error>)
        ensures
            nul_free(bytes@) ==> r is Ok && r->Ok_0@ == bytes@,
            !nul_free(bytes@) ==> r == Err::<CString, Error>(Error::Malformed(Flaw::InteriorNul)),
    {
        let mut copy: Vec<u8> = Vec::new();
        let mut i: usize = 0;
        while i < bytes.len()
            invariant
                i <= bytes@.len(),
                copy@ == bytes@.take(i as int),
                nul_free(copy@),
            decreases bytes@.len() - i,
        {
            if bytes[i] == 0 {
                return Err(Error::Malformed(Flaw::InteriorNul));
            }
            copy.push(bytes[i]);
            assert(copy@ =~= bytes@.take(i + 1));
            i = i + 1;
        }
        assert(copy@ =~= bytes@);
        Ok(CString { bytes: copy })
    }

    /// The bytes of the string, without the terminator.
    pub fn as_bytes(&self) -> (bytes: &[u8])
        ensures
            bytes@ == self@,
            nul_free(bytes@),
    {
        proof {
            use_type_invariant(self);
        }
        self.bytes.as_slice()
    }

    /// The bytes of the string, without the terminator.
    pub fn into_bytes(self) -> (bytes: Vec<u8>)
        ensures
            bytes@ == self@,
            nul_free(bytes@),
    {
        proof {
            use_type_invariant(&self);
        }
        self.bytes
    }

    /// The number of bytes of the string, without the terminator.
    pub fn count_bytes(&self) -> (n: usize)
        ensures
            n == self@.len(),
    {
        self.bytes.len()
    }
}

impl Wire for CString {
    type Value = Seq<u8>;

    open spec fn value(&self) -> Seq<u8> {
        self@
    }

    open spec fn well_formed(v: Seq<u8>) -> bool {
        nul_free(v)
    }

    open spec fn encoding(v: Seq<u8>) -> Seq<u8> {
        v.push(0)
    }

    open spec fn decoding(s: Seq<u8>) -> Decoded<Seq<u8>> {
        let n = first_nul(s);
        if n < s.len() {
            read(s.take(n), n + 1)
        } else {
            failed(Error::BufferUnderflow, s.len() as int)
        }
    }

    open spec fn fills_buffer() -> bool {
        false
    }

    proof fn lemma_consumed_in_bounds(s: Seq<u8>) {
        lemma_first_nul_in_bounds(s);
    }

    proof fn lemma_round_trip(v: Seq<u8>, rest: Seq<u8>) {
        let s = v.push(0) + rest;
        assert(s.take(v.len() as int) =~= v);
        lemma_first_nul(s, v.len() as int);
    }
}

/// `first_nul(s)` is a place in `s` or its length, no byte before it is zero,
/// and the byte at it is, where there is one.
pub proof fn lemma_first_nul_in_bounds(s: Seq<u8>)
    ensures
        0 <= first_nul(s) <= s.len(),
        nul_free(s.take(first_nul(s))),
        first_nul(s) < s.len() ==> s[first_nul(s)] == 0,
    decreases s.len(),
{
    if s.len() == 0 || s[0] == 0 {
    } else {
        lemma_first_nul_in_bounds(s.skip(1));
        let n = first_nul(s);
        let t = s.take(n);
        assert forall|i: int| 0 <= i < t.len() implies t[i] != 0 by {
            if i > 0 {
                assert(t[i] == s.skip(1).take(n - 1)[i - 1]);
            }
        }
    }
}

/// Reading the bytes of a string that holds no zero byte gives the string
/// back, whatever follows it, and the string takes one byte more on the wire
/// than it has.
pub proof fn lemma_string_round_trip(s: Seq<u8>, rest: Seq<u8>)
    requires
        nul_free(s),
    ensures
        CString::decoding(CString::encoding(s) + rest) == read(s, s.len() as int + 1),
        CString::encoding(s).len() == s.len() + 1,
{
    CString::lemma_round_trip(s, rest);
}

impl ByteSized for CString {
    fn checked_byte_size(&self) -> (size: Option<i32>) {
        let n = self.bytes.len();
        if n < 0x7fff_ffff {
            Some((n + 1) as i32)
        } else {
            None
        }
    }
}

impl Serialize for CString {
    fn serialize(&self, buffer: &mut BytesMut) {
        put_slice(buffer, self.bytes.as_slice());
        put_u8(buffer, 0);
        assert(written(*buffer) =~= written(*old(buffer)) + self.bytes@.push(0));
    }
}

impl Deserialize for CString {
    fn deserialize(buffer: &mut Bytes) -> (r: Result<CString, Error>) {
        let ghost s = remaining(*buffer);
        let mut v: Vec<u8> = Vec::new();
        let mut c: u8 = match try_get_u8(buffer) {
            Ok(c) => c,
            Err(_) => {
                assert(remaining(*buffer) =~= s.skip(0));
                return Err(Error::BufferUnderflow);
            },
        };
        while c != 0
            invariant
                s == remaining(*old(buffer)),
                v@.len() < s.len(),
                v@ == s.take(v@.len() as int),
                nul_free(v@),
                c == s[v@.len() as int],
                remaining(*buffer) == s.skip(v@.len() as int + 1),
            decreases s.len() - v@.len(),
        {
            v.push(c);
            assert(v@ =~= s.take(v@.len() as int));
            assert(nul_free(v@));
            c = match try_get_u8(buffer) {
                Ok(c) => c,
                Err(_) => {
                    proof {
                        assert(v@.len() == s.len());
                        lemma_first_nul(s, s.len() as int);
                        assert(remaining(*buffer) =~= s.skip(s.len() as int));
                    }
                    return Err(Error::BufferUnderflow);
                },
            };
            assert(remaining(*buffer) =~= s.skip(v@.len() as int + 1));
        }
        proof {
            lemma_first_nul(s, v@.len() as int);
        }
        Ok(CString { bytes: v })
    }
}

} // verus!
