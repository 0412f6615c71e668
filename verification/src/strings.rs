//! Null-terminated strings as `String`s, read from and written to a buffer
//! of bytes directly.
//!
//! A byte that is read becomes the character with the same number, so that
//! whatever the bytes are, they make a `String`. A `String` is written as its
//! bytes in UTF-8.

use crate::buffer::{put_u8, take_u8, written};
use crate::error::Error;
use crate::libpq_types::cstring::{first_nul, lemma_first_nul, nul_free};
use bytes::BytesMut;
use vstd::prelude::*;
use vstd::utf8::encode_utf8;

verus! {

/// The text whose characters have the numbers of the bytes `bytes`.
pub open spec fn text_of(bytes: Seq<u8>) -> Seq<char> {
    Seq::new(bytes.len(), |i: int| bytes[i] as char)
}

/// `String::push`: appends the character to the text.
#[verifier::external_body]
pub(crate) fn push_char(text: &mut String, c: char)
    ensures
        final(text)@ == old(text)@.push(c),
{
    text.push(c)
}

/// The text whose characters have the numbers of the bytes `bytes`.
pub fn text_from(bytes: &[u8]) -> (text: String)
    ensures
        text@ == text_of(bytes@),
{
    let mut text = String::new();
    let mut i: usize = 0;
    while i < bytes.len()
        invariant
            i <= bytes@.len(),
            text@ == text_of(bytes@.take(i as int)),
        decreases bytes@.len() - i,
    {
        push_char(&mut text, bytes[i] as char);
        assert(text@ =~= text_of(bytes@.take(i + 1)));
        i = i + 1;
    }
    assert(bytes@.take(i as int) =~= bytes@);
    text
}

/// Null-terminated strings on a buffer.
pub trait CString {
    /// The bytes that the buffer holds.
    spec fn bytes(&self) -> Seq<u8>;

    /// Takes a string off the front of the buffer: the bytes up to the first
    /// zero byte, and that byte. Where the buffer holds no zero byte, all of
    /// its bytes are taken and the reading fails.
    fn get_cstring(&mut self) -> (r: Result<String, Error>)
        ensures
            first_nul(old(self).bytes()) < old(self).bytes().len() ==> r is Ok && r->Ok_0@
                == text_of(old(self).bytes().take(first_nul(old(self).bytes())))
                && final(self).bytes() == old(self).bytes().skip(
                first_nul(old(self).bytes()) + 1,
            ),
            first_nul(old(self).bytes()) >= old(self).bytes().len() ==> r == Err::<String, Error>(
                Error::BufferUnderflow,
            ) && final(self).bytes() == Seq::<u8>::empty(),
    ;

    /// Appends the bytes of `str` and a zero byte to the buffer.
    fn put_cstring(&mut self, str: &String)
        requires
            old(self).bytes().len() + encode_utf8(str@).len() + 1 <= isize::MAX,
        ensures
            final(self).bytes() == old(self).bytes() + encode_utf8(str@).push(0),
    ;
}

impl CString for BytesMut {
    open spec fn bytes(&self) -> Seq<u8> {
        written(*self)
    }

    fn get_cstring(&mut self) -> (r: Result<String, Error>) {
        let ghost s = written(*self);
        let ghost mut n: int = 0;
        let mut text = String::new();
        assert(s.skip(0) =~= s);
        loop
            invariant
                s == written(*old(self)),
                0 <= n <= s.len(),
                written(*self) == s.skip(n),
                nul_free(s.take(n)),
                text@ == text_of(s.take(n)),
            decreases s.len() - n,
        {
            match take_u8(self) {
                Err(_) => {
                    proof {
                        lemma_first_nul(s, s.len() as int);
                        assert(written(*self) =~= Seq::<u8>::empty());
                    }
                    return Err(Error::BufferUnderflow);
                },
                Ok(c) => {
                    assert(c == s[n]);
                    assert(s.skip(n).skip(1) =~= s.skip(n + 1));
                    if c == 0 {
                        proof {
                            lemma_first_nul(s, n);
                        }
                        return Ok(text);
                    }
                    push_char(&mut text, c as char);
                    proof {
                        assert(s.take(n + 1) =~= s.take(n).push(c));
                        assert(text@ =~= text_of(s.take(n + 1)));
                        n = n + 1;
                    }
                },
            }
        }
    }

    fn put_cstring(&mut self, str: &String) {
        let bytes = str.as_str().as_bytes();
        let ghost before = written(*self);
        let mut i: usize = 0;
        assert(written(*self) =~= before + bytes@.take(0));
        while i < bytes.len()
            invariant
                i <= bytes@.len(),
                before == written(*old(self)),
                bytes@ == encode_utf8(str@),
                before.len() + bytes@.len() + 1 <= isize::MAX,
                written(*self) == before + bytes@.take(i as int),
            decreases bytes@.len() - i,
        {
            put_u8(self, bytes[i]);
            assert(written(*self) =~= before + bytes@.take(i + 1));
            i = i + 1;
        }
        put_u8(self, 0x00);
        assert(written(*self) =~= before + bytes@.push(0));
    }
}

} // verus!
