//! Typed request records shared by every boundary adapter.
//!
//! Each adapter decodes its own wire format into these records before the
//! facade is invoked; the records are owned by the caller and dropped when
//! the call returns.

use vstd::prelude::*;

verus! {

/// Tuning fields for one hashing call.  Every field except the salt is
/// optional: an absent field leaves the documented default untouched.
pub struct HashOptions {
    /// Salt bytes; the primitive requires at least eight of them.
    pub salt: Vec<u8>,
    /// Optional keyed-hash secret folded into the digest.
    pub secret: Option<Vec<u8>>,
    /// Optional associated data, authenticated but not hidden.
    pub data: Option<Vec<u8>>,
    /// Optional version name; an unrecognized name keeps the default.
    pub version: Option<String>,
    /// Optional variant name; an unrecognized name keeps the default.
    pub variant: Option<String>,
    /// Optional memory cost in KiB.
    pub memory_cost: Option<u32>,
    /// Optional iteration count.
    pub time_cost: Option<u32>,
    /// Optional parallelism degree.
    pub lanes: Option<u32>,
    /// Optional thread mode: 0 is sequential, 1 is parallel, anything else
    /// keeps the default.
    pub thread_mode: Option<u8>,
    /// Optional digest length in bytes.
    pub hash_length: Option<u32>,
}

/// A request to hash one password under the given options.
pub struct HashParams {
    /// The password; consumed as its UTF-8 bytes and never logged.
    pub password: String,
    /// The tuning options, salt included.
    pub options: HashOptions,
}

/// A request to verify one password against a self-describing encoded hash.
pub struct VerifyParams {
    /// The password to check.
    pub password: String,
    /// The encoded hash carrying its own parameters and salt.
    pub hash: String,
}

/// A verification request that also supplies the keyed-hash secret and the
/// associated data that were used at hash time.
pub struct VerifyParamsExt {
    /// The password and encoded hash.
    pub verify_params: VerifyParams,
    /// The secret; required on this path.
    pub secret: Vec<u8>,
    /// The associated data; absent means empty.
    pub data: Option<Vec<u8>>,
}

} // verus!
