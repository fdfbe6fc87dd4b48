//! Codec for the temporal and row-version column types of the SQL Server
//! wire protocol.
//!
//! Every value is handled by three operations: `type_info` announces the wire
//! type of a column or parameter, `encode_by_ref` appends the outbound bytes of
//! a value to a buffer, and `decode` reads a value from the raw bytes of a
//! column. Malformed input is reported as a [`fault::Fault`], never by a panic.

pub mod calendar;
pub mod fault;
pub mod naive;
pub mod ticks;
pub mod timestamp;
pub mod type_info;
pub mod wire;
pub mod zoned;
