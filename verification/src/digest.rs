//! The MD5 hash function of the `md-5` crate.
//!
//! Verus does not look into the hash function. It knows the hash of given
//! bytes by name only: equal bytes have equal hashes, and a hash has sixteen
//! bytes.

use md5::{Digest, Md5};
use vstd::prelude::*;

verus! {

/// The MD5 hash of `data`.
pub uninterp spec fn md5_digest(data: Seq<u8>) -> Seq<u8>;

/// `Md5::new`, `Digest::update` with `first` and then with `second`, and
/// `Digest::finalize`: the MD5 hash of the bytes of `first` followed by those
/// of `second`.
#[verifier::external_body]
pub(crate) fn md5_of_two(first: &[u8], second: &[u8]) -> (hash: [u8; 16])
    ensures
        hash@ == md5_digest(first@ + second@),
{
    let mut md5 = Md5::new();
    md5.update(first);
    md5.update(second);
    md5.finalize().into()
}

} // verus!
