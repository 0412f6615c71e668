//! The password of the MD5 authentication method.
//!
//! A frontend does not send its password as it is. It hashes the password
//! together with the user name, writes the hash in hexadecimal digits, hashes
//! those together with the salt that the backend chose, and sends the second
//! hash in hexadecimal digits behind the letters `md5`.

use crate::digest::{md5_digest, md5_of_two};
use crate::error::Error;
use crate::libpq_types::cstring::nul_free;
use crate::libpq_types::{Byte4, CString};
use crate::message::frontend::PasswordMessage;
use vstd::prelude::*;
use vstd::utf8::encode_utf8;

verus! {

/// The digit that stands for `n`, a number below 16, in lower-case
/// hexadecimal.
pub open spec fn hex_digit(n: int) -> u8 {
    if n < 10 {
        (0x30 + n) as u8
    } else {
        (0x61 + n - 10) as u8
    }
}

/// The bytes of `bytes` in lower-case hexadecimal: two digits for each byte,
/// the upper half first.
pub open spec fn lower_hex_of(bytes: Seq<u8>) -> Seq<u8> {
    Seq::new(
        2 * bytes.len(),
        |i: int|
            hex_digit(
                if i % 2 == 0 {
                    bytes[i / 2] as int / 16
                } else {
                    bytes[i / 2] as int % 16
                },
            ),
    )
}

/// The letters `md5`.
pub open spec fn md5_prefix() -> Seq<u8> {
    seq![0x6d, 0x64, 0x35]
}

/// What a frontend sends as its password where the second hash is `hash`.
pub open spec fn hashed_password_of(hash: Seq<u8>) -> Seq<u8> {
    md5_prefix() + lower_hex_of(hash)
}

/// What a frontend sends as its password for the MD5 method: the letters
/// `md5`, then in hexadecimal the hash of the salt behind the hexadecimal
/// hash of the user name behind the password.
pub open spec fn md5_password(user: Seq<u8>, password: Seq<u8>, salt: Seq<u8>) -> Seq<u8> {
    hashed_password_of(md5_digest(lower_hex_of(md5_digest(password + user)) + salt))
}

/// Hexadecimal digits are never zero bytes.
pub proof fn lemma_lower_hex_nul_free(bytes: Seq<u8>)
    ensures
        nul_free(lower_hex_of(bytes)),
        nul_free(hashed_password_of(bytes)),
{
}

/// The digit that stands for `n` in lower-case hexadecimal.
fn digit(n: u8) -> (d: u8)
    requires
        n < 16,
    ensures
        d == hex_digit(n as int),
{
    if n < 10 {
        0x30 + n
    } else {
        0x61 + (n - 10)
    }
}

/// The bytes of `bytes` in lower-case hexadecimal.
pub fn lower_hex(bytes: &[u8]) -> (text: Vec<u8>)
    requires
        2 * bytes@.len() <= usize::MAX,
    ensures
        text@ == lower_hex_of(bytes@),
{
    let mut text: Vec<u8> = Vec::new();
    let mut i: usize = 0;
    while i < bytes.len()
        invariant
            i <= bytes@.len(),
            text@ == lower_hex_of(bytes@.take(i as int)),
        decreases bytes@.len() - i,
    {
        let b = bytes[i];
        text.push(digit(b / 16));
        text.push(digit(b % 16));
        assert(text@ =~= lower_hex_of(bytes@.take(i + 1)));
        i = i + 1;
    }
    assert(bytes@.take(i as int) =~= bytes@);
    text
}

impl PasswordMessage {
    /// The message that holds the second hash `hash` in hexadecimal behind
    /// the letters `md5`.
    pub fn new_from_hash(hash: &[u8; 16]) -> (message: Self)
        ensures
            message.password@ == hashed_password_of(hash@),
            message.password@.len() == 35,
    {
        let mut text: Vec<u8> = Vec::new();
        text.push(0x6d);
        text.push(0x64);
        text.push(0x35);
        let mut digits = lower_hex(hash.as_slice());
        text.append(&mut digits);
        assert(text@ =~= hashed_password_of(hash@));
        proof {
            lemma_lower_hex_nul_free(hash@);
        }
        PasswordMessage { password: CString::from_nul_free(text) }
    }

    /// The message that answers a request for a password hashed with `salt`,
    /// for the user `user` with the password `password`.
    pub fn new_from_user_password(user: &String, password: &String, salt: &Byte4) -> (r: Result<
        Self,
        Error,
    >)
        ensures
            r is Ok,
            r->Ok_0.password@ == md5_password(
                encode_utf8(user@),
                encode_utf8(password@),
                salt@,
            ),
            r->Ok_0.password@.len() == 35,
    {
        let hash = md5_of_two(password.as_str().as_bytes(), user.as_str().as_bytes());
        let digits = lower_hex(hash.as_slice());
        let hash = md5_of_two(digits.as_slice(), salt.as_slice());
        Ok(Self::new_from_hash(&hash))
    }
}

} // verus!
