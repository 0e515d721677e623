//! An external-scaler adapter: it turns the result set of a caller-supplied
//! SQL query into a single signed 64-bit scaling metric, and implements the
//! four-operation external-scaler protocol around that reduction.
//!
//! The crate holds the verified core: integer parsing, the row reduction,
//! the protocol handlers, and the connection/failure lifecycle policy.
//! The binary around it supplies the transport, the database driver and the
//! process environment, and hands this crate plain values.

pub mod conn;
pub mod parse;
pub mod protocol;
pub mod reducer;
pub mod resilience;

pub use parse::parse_i64;
