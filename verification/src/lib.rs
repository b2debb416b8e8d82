//! Byte-range requests against a resource of known or unknown length.
//!
//! [`range`] models what a client asked for and resolves it against a length,
//! [`header`] reads and writes the header values, and [`responder`] decides
//! how a request is answered.

pub mod header;
pub mod range;
pub mod responder;
