//! The configuration resolver: turns the optional tuning fields of a request
//! into a fully populated configuration for the hashing primitive.
//!
//! Resolution is total.  Every absent field keeps the documented default, an
//! unrecognized variant or version name keeps the default as well, and a
//! thread-mode integer other than 0 or 1 is silently ignored.

use vstd::prelude::*;
use crate::options::HashOptions;

verus! {

/// Variant of the hashing primitive.
#[derive(Clone, Copy, Debug, PartialEq, Eq, Structural)]
pub enum HashVariant {
    /// Data-dependent memory access.
    Argon2d,
    /// Data-independent memory access.
    Argon2i,
    /// The hybrid construction.
    Argon2id,
}

/// Version of the hashing primitive.
#[derive(Clone, Copy, Debug, PartialEq, Eq, Structural)]
pub enum HashVersion {
    /// Version 0x10, named "16" on the wire.
    Version10,
    /// Version 0x13, named "19" on the wire.
    Version13,
}

/// Lane processing strategy of the primitive.  It never influences the
/// digest, only how the lanes are scheduled.
#[derive(Clone, Copy, Debug, PartialEq, Eq, Structural)]
pub enum ThreadModeChoice {
    /// Process all lanes in one thread.
    Sequential,
    /// Process lanes in parallel threads.
    Parallel,
}

/// Default memory cost in KiB.
pub const DEFAULT_MEM_COST: u32 = 19456;

/// Default iteration count.
pub const DEFAULT_TIME_COST: u32 = 2;

/// Default parallelism degree.
pub const DEFAULT_LANES: u32 = 1;

/// Default digest length in bytes.
pub const DEFAULT_HASH_LENGTH: u32 = 32;

impl HashVariant {
    /// The numeric code of the variant, as the primitive counts them.
    pub open spec fn spec_code(self) -> u32 {
        match self {
            HashVariant::Argon2d => 0,
            HashVariant::Argon2i => 1,
            HashVariant::Argon2id => 2,
        }
    }

    /// Executable form of [`Self::spec_code`].
    pub fn code(&self) -> (c: u32)
        ensures
            c == self.spec_code(),
    {
        match self {
            HashVariant::Argon2d => 0,
            HashVariant::Argon2i => 1,
            HashVariant::Argon2id => 2,
        }
    }
}

impl HashVersion {
    /// The numeric code of the version, as the primitive counts them.
    pub open spec fn spec_code(self) -> u32 {
        match self {
            HashVersion::Version10 => 0x10,
            HashVersion::Version13 => 0x13,
        }
    }

    /// Executable form of [`Self::spec_code`].
    pub fn code(&self) -> (c: u32)
        ensures
            c == self.spec_code(),
    {
        match self {
            HashVersion::Version10 => 0x10,
            HashVersion::Version13 => 0x13,
        }
    }
}

/// The variant denoted by a name, if any.  The primitive accepts each
/// variant under its capitalized and its lowercase spelling.
pub open spec fn variant_of_name(s: Seq<char>) -> Option<HashVariant> {
    if s == "Argon2d"@ || s == "argon2d"@ {
        Some(HashVariant::Argon2d)
    } else if s == "Argon2i"@ || s == "argon2i"@ {
        Some(HashVariant::Argon2i)
    } else if s == "Argon2id"@ || s == "argon2id"@ {
        Some(HashVariant::Argon2id)
    } else {
        None
    }
}

/// The version denoted by a name, if any: the primitive names its versions
/// by their decimal numbers.
pub open spec fn version_of_name(s: Seq<char>) -> Option<HashVersion> {
    if s == "16"@ {
        Some(HashVersion::Version10)
    } else if s == "19"@ {
        Some(HashVersion::Version13)
    } else {
        None
    }
}

/// Looks a variant up by name.
pub fn variant_from_name(s: &String) -> (r: Option<HashVariant>)
    ensures
        r == variant_of_name(s@),
{
    let d_upper: String = "Argon2d".to_owned();
    let d_lower: String = "argon2d".to_owned();
    let i_upper: String = "Argon2i".to_owned();
    let i_lower: String = "argon2i".to_owned();
    let id_upper: String = "Argon2id".to_owned();
    let id_lower: String = "argon2id".to_owned();
    if *s == d_upper || *s == d_lower {
        Some(HashVariant::Argon2d)
    } else if *s == i_upper || *s == i_lower {
        Some(HashVariant::Argon2i)
    } else if *s == id_upper || *s == id_lower {
        Some(HashVariant::Argon2id)
    } else {
        None
    }
}

/// Looks a version up by name.
pub fn version_from_name(s: &String) -> (r: Option<HashVersion>)
    ensures
        r == version_of_name(s@),
{
    let v10: String = "16".to_owned();
    let v13: String = "19".to_owned();
    if *s == v10 {
        Some(HashVersion::Version10)
    } else if *s == v13 {
        Some(HashVersion::Version13)
    } else {
        None
    }
}

/// The primitive's configuration record, fully populated.
pub struct ResolvedConfig {
    /// Associated data; empty when the request carried none.
    pub ad: Vec<u8>,
    /// Digest length in bytes.
    pub hash_length: u32,
    /// Parallelism degree.
    pub lanes: u32,
    /// Memory cost in KiB.
    pub mem_cost: u32,
    /// Keyed-hash secret; empty when the request carried none.
    pub secret: Vec<u8>,
    /// Lane processing strategy.
    pub thread_mode: ThreadModeChoice,
    /// Iteration count.
    pub time_cost: u32,
    /// Variant of the primitive.
    pub variant: HashVariant,
    /// Version of the primitive.
    pub version: HashVersion,
}

/// The value an optional integer field resolves to.
pub open spec fn opt_u32_or(o: Option<u32>, d: u32) -> u32 {
    match o {
        Some(v) => v,
        None => d,
    }
}

/// The bytes an optional byte-sequence field resolves to.
pub open spec fn opt_bytes(o: Option<Vec<u8>>) -> Seq<u8> {
    match o {
        Some(b) => b@,
        None => Seq::empty(),
    }
}

/// The variant an optional variant name resolves to.
pub open spec fn resolved_variant(o: Option<String>) -> HashVariant {
    match o {
        Some(name) => match variant_of_name(name@) {
            Some(v) => v,
            None => HashVariant::Argon2id,
        },
        None => HashVariant::Argon2id,
    }
}

/// The version an optional version name resolves to.
pub open spec fn resolved_version(o: Option<String>) -> HashVersion {
    match o {
        Some(name) => match version_of_name(name@) {
            Some(v) => v,
            None => HashVersion::Version13,
        },
        None => HashVersion::Version13,
    }
}

/// The thread mode an optional thread-mode integer resolves to.
pub open spec fn resolved_thread_mode(o: Option<u8>) -> ThreadModeChoice {
    match o {
        Some(m) => if m == 1 {
            ThreadModeChoice::Parallel
        } else {
            ThreadModeChoice::Sequential
        },
        None => ThreadModeChoice::Sequential,
    }
}

/// Whether a configuration is exactly the documented default one.
pub open spec fn is_default_config(c: ResolvedConfig) -> bool {
    &&& c.variant == HashVariant::Argon2id
    &&& c.version == HashVersion::Version13
    &&& c.mem_cost == DEFAULT_MEM_COST
    &&& c.time_cost == DEFAULT_TIME_COST
    &&& c.lanes == DEFAULT_LANES
    &&& c.hash_length == DEFAULT_HASH_LENGTH
    &&& c.thread_mode == ThreadModeChoice::Sequential
    &&& c.secret@ == Seq::<u8>::empty()
    &&& c.ad@ == Seq::<u8>::empty()
}

/// Copies a byte sequence.
fn clone_bytes(v: &Vec<u8>) -> (r: Vec<u8>)
    ensures
        r@ == v@,
{
    vstd::slice::slice_to_vec(v.as_slice())
}

/// Resolves the optional tuning fields over the documented defaults.
///
/// Resolution is total: it never fails, whatever the fields hold.  An
/// unrecognized variant or version name and a thread-mode integer other
/// than 0 or 1 keep the respective default, mirroring the primitive's own
/// leniency.  With every optional field omitted the result is exactly the
/// documented default configuration.
pub fn resolve(options: &HashOptions) -> (c: ResolvedConfig)
    ensures
        c.variant == resolved_variant(options.variant),
        c.version == resolved_version(options.version),
        c.thread_mode == resolved_thread_mode(options.thread_mode),
        c.mem_cost == opt_u32_or(options.memory_cost, DEFAULT_MEM_COST),
        c.time_cost == opt_u32_or(options.time_cost, DEFAULT_TIME_COST),
        c.lanes == opt_u32_or(options.lanes, DEFAULT_LANES),
        c.hash_length == opt_u32_or(options.hash_length, DEFAULT_HASH_LENGTH),
        c.secret@ == opt_bytes(options.secret),
        c.ad@ == opt_bytes(options.data),
        (options.variant is None && options.version is None
            && options.thread_mode is None && options.memory_cost is None
            && options.time_cost is None && options.lanes is None
            && options.hash_length is None && options.secret is None
            && options.data is None) ==> is_default_config(c),
        (options.variant matches Some(name) && variant_of_name(name@) is None)
            ==> c.variant == HashVariant::Argon2id,
        (options.version matches Some(name) && version_of_name(name@) is None)
            ==> c.version == HashVersion::Version13,
{
    let variant: HashVariant = match &options.variant {
        Some(name) => match variant_from_name(name) {
            Some(v) => v,
            None => HashVariant::Argon2id,
        },
        None => HashVariant::Argon2id,
    };
    let version: HashVersion = match &options.version {
        Some(name) => match version_from_name(name) {
            Some(v) => v,
            None => HashVersion::Version13,
        },
        None => HashVersion::Version13,
    };
    let thread_mode: ThreadModeChoice = match &options.thread_mode {
        Some(m) => if *m == 1 {
            ThreadModeChoice::Parallel
        } else {
            ThreadModeChoice::Sequential
        },
        None => ThreadModeChoice::Sequential,
    };
    let mem_cost: u32 = match &options.memory_cost {
        Some(v) => *v,
        None => DEFAULT_MEM_COST,
    };
    let time_cost: u32 = match &options.time_cost {
        Some(v) => *v,
        None => DEFAULT_TIME_COST,
    };
    let lanes: u32 = match &options.lanes {
        Some(v) => *v,
        None => DEFAULT_LANES,
    };
    let hash_length: u32 = match &options.hash_length {
        Some(v) => *v,
        None => DEFAULT_HASH_LENGTH,
    };
    let secret: Vec<u8> = match &options.secret {
        Some(b) => clone_bytes(b),
        None => Vec::new(),
    };
    let ad: Vec<u8> = match &options.data {
        Some(b) => clone_bytes(b),
        None => Vec::new(),
    };
    ResolvedConfig {
        ad,
        hash_length,
        lanes,
        mem_cost,
        secret,
        thread_mode,
        time_cost,
        variant,
        version,
    }
}

} // verus!
