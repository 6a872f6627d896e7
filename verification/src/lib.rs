//! Path-based redirect rules and a strict single-value integer header codec.
//!
//! Two independent components, each a pure function of its inputs:
//!
//! - [`redirect`] answers a matched request with a redirect response
//!   descriptor (status code and Location value), computed from a rule that
//!   was configured once at registration time.
//! - [`integer_header`] validates the raw byte-string values supplied under
//!   one header name and yields the single non-negative decimal integer they
//!   encode, or nothing when the header is absent, duplicated or malformed.
//!
//! The host router owns path-pattern matching and wire-format I/O; these
//! components only decide, once a match occurred, what to return.

pub mod integer_header;
pub mod redirect;
