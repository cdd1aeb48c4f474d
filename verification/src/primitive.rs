//! The trusted boundary to the external hashing primitive.
//!
//! Everything the library states about the primitive is concentrated here:
//! two wrappers around its hash and verify entry points, the names given to
//! their results, and the exact parameter-validation rule under which the
//! primitive accepts a hashing call.

use vstd::prelude::*;

verus! {

/// A failure reported by the hashing primitive, carrying the primitive's
/// own cause text verbatim as UTF-8 bytes.
#[derive(Debug)]
pub struct HashError {
    /// The primitive's display text for the failure.
    pub message: Vec<u8>,
}

/// The encoded hash string that the primitive produces for the given
/// password, salt, secret, associated data, variant code, version code,
/// memory cost, time cost, lane count and digest length.  The digest is a
/// function of these inputs alone; in particular the thread mode never
/// influences it, which is why it is not a parameter here.
pub uninterp spec fn encoded_hash(
    pwd: Seq<u8>,
    salt: Seq<u8>,
    secret: Seq<u8>,
    ad: Seq<u8>,
    variant: u32,
    version: u32,
    mem_cost: u32,
    time_cost: u32,
    lanes: u32,
    hash_length: u32,
) -> Seq<char>;

/// Whether an encoded hash string is well formed for the primitive: it
/// decodes into a parameter set (variant, version, costs, lanes, salt and
/// digest) that the primitive accepts.  Verification of a well-formed
/// string succeeds with some boolean outcome; verification of any other
/// string fails with a decoding error.
pub uninterp spec fn encoded_wf(hash: Seq<char>) -> bool;

/// The outcome of successfully verifying a password, secret and associated
/// data against a well-formed encoded hash: whether the digest recomputed
/// from them matches the one stored in the string.
pub uninterp spec fn verify_match(
    hash: Seq<char>,
    pwd: Seq<u8>,
    secret: Seq<u8>,
    ad: Seq<u8>,
) -> bool;

/// The parameter-validation rule of the primitive's context constructor:
/// a hashing call is accepted exactly when the lane count, memory cost,
/// time cost, digest length and the lengths of password, salt, secret and
/// associated data all lie within these documented bounds.
pub open spec fn hash_params_ok(
    pwd_len: nat,
    salt_len: nat,
    secret_len: nat,
    ad_len: nat,
    mem_cost: u32,
    time_cost: u32,
    lanes: u32,
    hash_length: u32,
) -> bool {
    &&& 1 <= lanes <= 0xFF_FFFF
    &&& 8 <= mem_cost
    &&& mem_cost >= 8 * (lanes as int)
    &&& 1 <= time_cost
    &&& pwd_len <= 0xFFFF_FFFF
    &&& 8 <= salt_len <= 0xFFFF_FFFF
    &&& secret_len <= 0xFFFF_FFFF
    &&& ad_len <= 0xFFFF_FFFF
    &&& 4 <= hash_length
}

/// Relies on `argon2::hash_encoded` of the `rust-argon2` crate.  Its
/// context constructor accepts the call exactly under [`hash_params_ok`];
/// on acceptance it returns the self-describing encoded hash string, a
/// deterministic function of the arguments named [`encoded_hash`].  The
/// crate documents that the returned string is well formed and that
/// verifying it with the same password, secret and associated data
/// succeeds, whatever thread mode was used.  On rejection the primitive's
/// cause text is preserved verbatim.
#[verifier::external_body]
pub(crate) fn argon2_hash_encoded(
    pwd: &[u8],
    salt: &[u8],
    variant: u32,
    version: u32,
    mem_cost: u32,
    time_cost: u32,
    lanes: u32,
    parallel: bool,
    secret: &[u8],
    ad: &[u8],
    hash_length: u32,
) -> (r: Result<String, HashError>)
    requires
        variant <= 2,
        version == 0x10 || version == 0x13,
    ensures
        r is Ok <==> hash_params_ok(
            pwd@.len(), salt@.len(), secret@.len(), ad@.len(),
            mem_cost, time_cost, lanes, hash_length,
        ),
        r matches Ok(h) ==> h@ == encoded_hash(
            pwd@, salt@, secret@, ad@,
            variant, version, mem_cost, time_cost, lanes, hash_length,
        ),
        r matches Ok(h) ==> encoded_wf(h@),
        r matches Ok(h) ==> verify_match(h@, pwd@, secret@, ad@),
{
    let thread_mode =
        if parallel { argon2::ThreadMode::Parallel } else { argon2::ThreadMode::Sequential };
    let config = argon2::Config {
        variant: argon2::Variant::from_u32(variant).unwrap(),
        version: argon2::Version::from_u32(version).unwrap(),
        thread_mode, mem_cost, time_cost, lanes, secret, ad, hash_length,
    };
    match argon2::hash_encoded(pwd, salt, &config) {
        Ok(h) => Ok(h),
        Err(e) => Err(HashError { message: e.to_string().into_bytes() }),
    }
}

/// Relies on `argon2::verify_encoded_ext` of the `rust-argon2` crate.  It
/// decodes the encoded string, recomputes the digest from the password,
/// secret and associated data under the decoded parameters, and returns
/// whether the digests match; a string that does not decode into accepted
/// parameters, or an over-long input, yields an error instead, never a
/// false.  Verifying without secret and associated data is the same call
/// with both empty.
#[verifier::external_body]
pub(crate) fn argon2_verify_encoded(
    encoded: &str,
    pwd: &[u8],
    secret: &[u8],
    ad: &[u8],
) -> (r: Result<bool, HashError>)
    ensures
        r is Ok <==> (encoded_wf(encoded@) && pwd@.len() <= 0xFFFF_FFFF
            && secret@.len() <= 0xFFFF_FFFF && ad@.len() <= 0xFFFF_FFFF),
        r matches Ok(b) ==> b == verify_match(encoded@, pwd@, secret@, ad@),
{
    match argon2::verify_encoded_ext(encoded, pwd, secret, ad) {
        Ok(b) => Ok(b),
        Err(e) => Err(HashError { message: e.to_string().into_bytes() }),
    }
}

} // verus!
