//! A small password-hashing library that exposes one salted, memory-hard
//! hashing primitive together with the pieces its boundary adapters share:
//! a total configuration resolver, a facade over the primitive, the in-band
//! status-plus-payload buffer protocol of the zero-copy plugin boundary,
//! and the failure-collapsing result encodings of the other boundaries.

pub mod config;
pub mod facade;
pub mod fallback;
pub mod options;
pub mod plugin;
pub mod primitive;
