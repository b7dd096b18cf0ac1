//! Password hashing.

use crypto::digest::Digest;
use crypto::sha2::Sha256;
use vstd::prelude::*;
use vstd::utf8::encode_utf8;

verus! {

/// The SHA-256 digest of the bytes of a text in UTF-8, in hexadecimal.
pub uninterp spec fn sha256_hex(message: Seq<char>) -> Seq<char>;

/// The number of bytes from which on the hasher cannot count the bits of its input.
pub const SHA256_INPUT_LIMIT: u64 = 0x2000_0000_0000_0000;

/// Puts a string through SHA-256.
///
/// Trusted: feeds the bytes of `password` to `crypto::sha2::Sha256`
/// (`Sha256::new`, `Digest::input_str`, `Digest::result_str`) and returns the
/// digest in hexadecimal. The digest depends on the bytes alone. The hasher
/// panics where the length of its input in bits does not fit in 64 bits, so
/// such an input is left out.
#[verifier::external_body]
pub fn sha256(password: &str) -> (digest: String)
    requires
        encode_utf8(password@).len() < SHA256_INPUT_LIMIT,
    ensures
        digest@ == sha256_hex(password@),
{
    let mut hasher = Sha256::new();
    hasher.input_str(password);
    hasher.result_str()
}

/// The hash of a password, or nothing where the password is too long to hash.
pub fn hash_password(password: &str) -> (digest: Option<String>)
    ensures
        digest is Some <==> encode_utf8(password@).len() < SHA256_INPUT_LIMIT,
        digest matches Some(d) ==> d@ == sha256_hex(password@),
{
    let length: usize = password.as_bytes().len();
    if (length as u64) < SHA256_INPUT_LIMIT {
        Some(sha256(password))
    } else {
        None
    }
}

} // verus!
