//! Failure-collapsing result encodings for the boundaries that have no
//! error channel.
//!
//! The foreign-pointer boundary and the managed-object boundary both return
//! a bare string, boolean or byte.  A failure there collapses to an empty
//! string, `false` or 0, which a caller cannot structurally distinguish
//! from a legitimately empty or negative result — a documented limitation
//! of those boundaries; the callers emit a diagnostic on the collapse.

use vstd::prelude::*;
use crate::facade::{
    hash_internal, request_hash, request_ok, verify_ext_internal,
    verify_ext_request_ok, verify_ext_request_result, verify_internal,
    verify_request_ok, verify_request_result,
};
use crate::options::{HashParams, VerifyParams, VerifyParamsExt};

verus! {

/// Hashes the request, collapsing any failure to the empty string.
pub fn hash_or_empty(params: HashParams) -> (r: String)
    ensures
        request_ok(params) ==> r@ == request_hash(params),
        !request_ok(params) ==> r@ == Seq::<char>::empty(),
{
    match hash_internal(params) {
        Ok(h) => h,
        Err(_) => String::new(),
    }
}

/// Verifies the request, collapsing any failure to `false`.
pub fn verify_or_false(params: VerifyParams) -> (r: bool)
    ensures
        r == (verify_request_ok(params) && verify_request_result(params)),
{
    match verify_internal(params) {
        Ok(matched) => matched,
        Err(_) => false,
    }
}

/// Verifies the extended request, collapsing any failure to `false`.
pub fn verify_ext_or_false(params: VerifyParamsExt) -> (r: bool)
    ensures
        r == (verify_ext_request_ok(params) && verify_ext_request_result(params)),
{
    match verify_ext_internal(params) {
        Ok(matched) => matched,
        Err(_) => false,
    }
}

/// Verifies the request and encodes the collapsed outcome as the single
/// status byte the foreign-pointer boundary returns.
pub fn verify_status(params: VerifyParams) -> (r: u8)
    ensures
        r == (if verify_request_ok(params) && verify_request_result(params) {
            1u8
        } else {
            0u8
        }),
{
    if verify_or_false(params) {
        1
    } else {
        0
    }
}

/// Verifies the extended request and encodes the collapsed outcome as the
/// single status byte the foreign-pointer boundary returns.
pub fn verify_ext_status(params: VerifyParamsExt) -> (r: u8)
    ensures
        r == (if verify_ext_request_ok(params) && verify_ext_request_result(params) {
            1u8
        } else {
            0u8
        }),
{
    if verify_ext_or_false(params) {
        1
    } else {
        0
    }
}

} // verus!
