//! The zero-copy plugin boundary's in-band protocol.
//!
//! Each call owns two host buffers: a decoded input request and a writable,
//! pre-sized output buffer.  Status and payload share that buffer by
//! convention, because the boundary offers no exception and no multi-return
//! mechanism: byte 0 is the status, 1 for success and 0 for failure; on
//! failure the bytes from position 1 hold the failure's display text,
//! truncated to the buffer's capacity.  On success the result payload is
//! returned separately, as the boundary's response value.

use vstd::prelude::*;
use vstd::utf8::encode_utf8;
use crate::facade::{
    hash_internal, request_hash, request_ok, verify_internal,
    verify_request_ok, verify_request_result,
};
use crate::options::{HashParams, VerifyParams};
use crate::primitive::HashError;

verus! {

/// How many bytes of a failure text of length `msg_len` fit after the
/// status byte of a buffer of length `buf_len`.
pub open spec fn failure_copy_len(msg_len: int, buf_len: int) -> int {
    if msg_len + 1 <= buf_len {
        msg_len
    } else {
        buf_len - 1
    }
}

/// Writes a failure into the output buffer: status byte 0, then the
/// failure's text, truncated to the buffer's capacity; bytes past the text
/// keep their previous values.
pub fn error_handler(err: &HashError, buf: &mut Vec<u8>)
    requires
        old(buf).len() >= 1,
    ensures
        final(buf).len() == old(buf).len(),
        final(buf)@[0] == 0u8,
        ({
            let n = failure_copy_len(err.message@.len() as int, old(buf)@.len() as int);
            &&& final(buf)@.subrange(1, n + 1) == err.message@.subrange(0, n)
            &&& forall|j: int| n + 1 <= j < old(buf)@.len() ==> final(buf)@[j] == old(buf)@[j]
        }),
{
    buf[0] = 0;
    let mut i: usize = 0;
    while i < err.message.len() && i + 1 < buf.len()
        invariant
            buf.len() == old(buf).len(),
            buf.len() >= 1,
            i <= err.message@.len(),
            i + 1 <= buf.len(),
            buf@[0] == 0u8,
            forall|j: int| 1 <= j <= i ==> buf@[j] == err.message@[j - 1],
            forall|j: int| i < j < buf@.len() ==> buf@[j] == old(buf)@[j],
        decreases err.message@.len() - i,
    {
        buf[i + 1] = err.message[i];
        i = i + 1;
    }
    proof {
        let n = failure_copy_len(err.message@.len() as int, old(buf)@.len() as int);
        assert(n == i);
        assert(buf@.subrange(1, n + 1) =~= err.message@.subrange(0, n));
    }
}

/// The plugin boundary's hashing operation, past its decode step: hashes
/// the request and signals the outcome in band.
///
/// On success the status byte becomes 1, the rest of the output buffer is
/// untouched, and the returned payload holds the UTF-8 bytes of the
/// encoded hash.  On failure the status byte becomes 0, the failure text
/// is written after it, and the returned payload is empty.
pub fn hash(params: HashParams, out: &mut Vec<u8>) -> (payload: Vec<u8>)
    requires
        old(out).len() >= 1,
    ensures
        final(out).len() == old(out).len(),
        request_ok(params) ==> final(out)@[0] == 1u8,
        request_ok(params) ==> payload@ == encode_utf8(request_hash(params)),
        request_ok(params) ==> forall|j: int|
            1 <= j < old(out)@.len() ==> final(out)@[j] == old(out)@[j],
        !request_ok(params) ==> final(out)@[0] == 0u8 && payload@.len() == 0,
{
    match hash_internal(params) {
        Ok(h) => {
            out[0] = 1;
            h.as_str().as_bytes_vec()
        },
        Err(e) => {
            error_handler(&e, out);
            Vec::new()
        },
    }
}

/// The plugin boundary's verification operation, past its decode step:
/// verifies the request and signals the outcome in band.
///
/// On success the status byte becomes 1 and the returned payload is one
/// byte, 1 for a match and 0 for a mismatch.  On failure — here, a
/// malformed encoded hash — the status byte becomes 0, the failure text is
/// written after it, and the returned payload is empty.
pub fn verify(params: VerifyParams, out: &mut Vec<u8>) -> (payload: Vec<u8>)
    requires
        old(out).len() >= 1,
    ensures
        final(out).len() == old(out).len(),
        verify_request_ok(params) ==> final(out)@[0] == 1u8,
        verify_request_ok(params) ==> payload@ == seq![
            if verify_request_result(params) { 1u8 } else { 0u8 },
        ],
        verify_request_ok(params) ==> forall|j: int|
            1 <= j < old(out)@.len() ==> final(out)@[j] == old(out)@[j],
        !verify_request_ok(params) ==> final(out)@[0] == 0u8 && payload@.len() == 0,
{
    match verify_internal(params) {
        Ok(matched) => {
            out[0] = 1;
            let mut payload: Vec<u8> = Vec::new();
            payload.push(if matched { 1 } else { 0 });
            payload
        },
        Err(e) => {
            error_handler(&e, out);
            Vec::new()
        },
    }
}

} // verus!
