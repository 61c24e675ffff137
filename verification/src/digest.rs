//! SHA-256 digests, computed by the Soroban host.

use vstd::prelude::*;

verus! {

/// Width of a digest in bytes.
pub const DIGEST_LEN: usize = 32;

/// Longest input, in bytes, that [`sha256`] accepts. The host meters its
/// work; this much is hashed well within the budget of a new host.
pub const DIGEST_INPUT_MAX: usize = 65536;

/// The SHA-256 digest of `data`.
pub uninterp spec fn sha256_of(data: Seq<u8>) -> Seq<u8>;

/// Whether `a` and `b` are two different inputs with one digest.
pub open spec fn collide(a: Seq<u8>, b: Seq<u8>) -> bool {
    a != b && sha256_of(a) == sha256_of(b)
}

/// Calls `soroban_sdk::crypto::Crypto::sha256` on a host that
/// `soroban_sdk::Env::default` makes for this one call. The input goes in
/// through `soroban_sdk::Bytes::from_slice`, the digest comes back through
/// `soroban_sdk::crypto::Hash::to_array`.
///
/// Trusted, not proved: the result is the SHA-256 digest of exactly the bytes
/// given, it depends on nothing else, and it is 32 bytes long. The host
/// meters its work and fails once its budget is spent; an input of at most
/// `DIGEST_INPUT_MAX` bytes takes a small part of the budget of a new host.
#[verifier::external_body]
pub(crate) fn host_sha256(data: &Vec<u8>) -> (digest: Vec<u8>)
    requires
        data@.len() <= DIGEST_INPUT_MAX,
    ensures
        digest@ == sha256_of(data@),
        digest@.len() == DIGEST_LEN,
{
    let env = soroban_sdk::Env::default();
    let input = soroban_sdk::Bytes::from_slice(&env, data.as_slice());
    env.crypto().sha256(&input).to_array().to_vec()
}

/// The SHA-256 digest of `data`, or `None` where `data` is longer than
/// `DIGEST_INPUT_MAX` bytes.
pub fn sha256(data: &Vec<u8>) -> (digest: Option<Vec<u8>>)
    ensures
        data@.len() <= DIGEST_INPUT_MAX ==> digest is Some && digest->0@ == sha256_of(data@)
            && digest->0@.len() == DIGEST_LEN,
        data@.len() > DIGEST_INPUT_MAX ==> digest is None,
{
    if data.len() <= DIGEST_INPUT_MAX {
        Some(host_sha256(data))
    } else {
        None
    }
}

} // verus!
