//! The facade over the hashing primitive: one hashing operation and two
//! verification operations, each total up to the typed error it returns.

use vstd::prelude::*;
use vstd::utf8::encode_utf8;
use crate::config::{
    opt_bytes, opt_u32_or, resolve, resolved_variant, resolved_version,
    DEFAULT_HASH_LENGTH, DEFAULT_LANES, DEFAULT_MEM_COST, DEFAULT_TIME_COST,
};
use crate::options::{HashParams, VerifyParams, VerifyParamsExt};
use crate::primitive::{
    argon2_hash_encoded, argon2_verify_encoded, encoded_hash, encoded_wf,
    hash_params_ok, verify_match, HashError,
};

verus! {

/// The UTF-8 bytes of a password.
pub open spec fn password_bytes(s: Seq<char>) -> Seq<u8> {
    encode_utf8(s)
}

/// Whether the primitive accepts a hashing request once its options are
/// resolved over the defaults.
pub open spec fn request_ok(p: HashParams) -> bool {
    hash_params_ok(
        password_bytes(p.password@).len(),
        p.options.salt@.len(),
        opt_bytes(p.options.secret).len(),
        opt_bytes(p.options.data).len(),
        opt_u32_or(p.options.memory_cost, DEFAULT_MEM_COST),
        opt_u32_or(p.options.time_cost, DEFAULT_TIME_COST),
        opt_u32_or(p.options.lanes, DEFAULT_LANES),
        opt_u32_or(p.options.hash_length, DEFAULT_HASH_LENGTH),
    )
}

/// The encoded hash an accepted hashing request produces.
pub open spec fn request_hash(p: HashParams) -> Seq<char> {
    encoded_hash(
        password_bytes(p.password@),
        p.options.salt@,
        opt_bytes(p.options.secret),
        opt_bytes(p.options.data),
        resolved_variant(p.options.variant).spec_code(),
        resolved_version(p.options.version).spec_code(),
        opt_u32_or(p.options.memory_cost, DEFAULT_MEM_COST),
        opt_u32_or(p.options.time_cost, DEFAULT_TIME_COST),
        opt_u32_or(p.options.lanes, DEFAULT_LANES),
        opt_u32_or(p.options.hash_length, DEFAULT_HASH_LENGTH),
    )
}

/// Whether a plain verification request succeeds (with either outcome):
/// the encoded hash must be well formed and the password not over-long.
pub open spec fn verify_request_ok(p: VerifyParams) -> bool {
    encoded_wf(p.hash@) && password_bytes(p.password@).len() <= 0xFFFF_FFFF
}

/// The outcome of a successful plain verification request.
pub open spec fn verify_request_result(p: VerifyParams) -> bool {
    verify_match(p.hash@, password_bytes(p.password@), Seq::empty(), Seq::empty())
}

/// Whether an extended verification request succeeds (with either outcome).
pub open spec fn verify_ext_request_ok(p: VerifyParamsExt) -> bool {
    &&& encoded_wf(p.verify_params.hash@)
    &&& password_bytes(p.verify_params.password@).len() <= 0xFFFF_FFFF
    &&& p.secret@.len() <= 0xFFFF_FFFF
    &&& opt_bytes(p.data).len() <= 0xFFFF_FFFF
}

/// The outcome of a successful extended verification request.
pub open spec fn verify_ext_request_result(p: VerifyParamsExt) -> bool {
    verify_match(
        p.verify_params.hash@,
        password_bytes(p.verify_params.password@),
        p.secret@,
        opt_bytes(p.data),
    )
}

/// Hashes the request's password under its resolved options and returns
/// the self-describing encoded hash string.
///
/// The call succeeds exactly when the primitive accepts the resolved
/// parameters.  On success the result is the primitive's encoded hash for
/// this request; it is well formed, and verifying it with the same
/// password, secret and associated data succeeds with a match.  On
/// rejection the primitive's cause text is returned in the error.
pub fn hash_internal(params: HashParams) -> (r: Result<String, HashError>)
    ensures
        r is Ok <==> request_ok(params),
        r matches Ok(h) ==> h@ == request_hash(params),
        r matches Ok(h) ==> encoded_wf(h@),
        r matches Ok(h) ==> verify_match(
            h@,
            password_bytes(params.password@),
            opt_bytes(params.options.secret),
            opt_bytes(params.options.data),
        ),
{
    let cfg = resolve(&params.options);
    argon2_hash_encoded(
        params.password.as_str().as_bytes(),
        params.options.salt.as_slice(),
        cfg.variant.code(),
        cfg.version.code(),
        cfg.mem_cost,
        cfg.time_cost,
        cfg.lanes,
        cfg.thread_mode == crate::config::ThreadModeChoice::Parallel,
        cfg.secret.as_slice(),
        cfg.ad.as_slice(),
        cfg.hash_length,
    )
}

/// The facade's round-trip law: hashing a request that carries no secret
/// and no associated data and then verifying the result with the same
/// password returns `Ok(true)` whenever the request is accepted at all,
/// and the primitive's rejection otherwise.  A request with a secret or
/// associated data is outside this law: the plain verification supplies
/// both as empty, so its outcome is their match, not `true`.
pub fn hash_then_verify(params: HashParams) -> (r: Result<bool, HashError>)
    requires
        params.options.secret is None,
        params.options.data is None,
    ensures
        request_ok(params) ==> r == Ok::<bool, HashError>(true),
        !request_ok(params) ==> r is Err,
{
    let password = params.password.clone();
    match hash_internal(params) {
        Ok(h) => verify_internal(VerifyParams { password, hash: h }),
        Err(e) => Err(e),
    }
}

/// The mismatch side of the round-trip law, as far as the primitive's
/// contracts carry it: verifying a freshly computed hash never errs,
/// whatever password is offered.  A differing password can only turn the
/// outcome `false`; it cannot turn success into failure.
pub fn hash_then_verify_other(params: HashParams, other_password: String) -> (r: Result<bool, HashError>)
    requires
        password_bytes(other_password@).len() <= 0xFFFF_FFFF,
    ensures
        request_ok(params) ==> r is Ok,
        !request_ok(params) ==> r is Err,
        r matches Ok(b) ==> b == verify_match(
            request_hash(params),
            password_bytes(other_password@),
            Seq::empty(),
            Seq::empty(),
        ),
{
    match hash_internal(params) {
        Ok(h) => verify_internal(VerifyParams { password: other_password, hash: h }),
        Err(e) => Err(e),
    }
}

/// Verifies the request's password against its encoded hash.
///
/// A structurally malformed hash yields an error; a well-formed hash
/// yields the match outcome, so a wrong password is a successful `false`,
/// never an error.
pub fn verify_internal(options: VerifyParams) -> (r: Result<bool, HashError>)
    ensures
        r is Ok <==> verify_request_ok(options),
        r matches Ok(b) ==> b == verify_request_result(options),
{
    let empty_secret: Vec<u8> = Vec::new();
    let empty_ad: Vec<u8> = Vec::new();
    argon2_verify_encoded(
        options.hash.as_str(),
        options.password.as_str().as_bytes(),
        empty_secret.as_slice(),
        empty_ad.as_slice(),
    )
}

/// Verifies the request's password, secret and associated data against its
/// encoded hash; absent associated data counts as empty.
///
/// As with the plain verification, only a malformed hash is an error: a
/// wrong password or secret is a successful `false`.
pub fn verify_ext_internal(options: VerifyParamsExt) -> (r: Result<bool, HashError>)
    ensures
        r is Ok <==> verify_ext_request_ok(options),
        r matches Ok(b) ==> b == verify_ext_request_result(options),
{
    let ad: Vec<u8> = match options.data {
        Some(d) => d,
        None => Vec::new(),
    };
    argon2_verify_encoded(
        options.verify_params.hash.as_str(),
        options.verify_params.password.as_str().as_bytes(),
        options.secret.as_slice(),
        ad.as_slice(),
    )
}

} // verus!
