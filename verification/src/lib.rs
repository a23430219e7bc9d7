//! An adapter core for a serverless SQL engine reached through a
//! host-provided binding: value/type marshaling between the host's
//! dynamically-typed values and a strongly-typed parameter/column model,
//! row decoding, and a pseudo-transaction batcher.

use vstd::prelude::*;

pub mod arguments;
pub mod connection;
pub mod describe;
pub mod error;
pub mod offline;
pub mod options;
pub mod query_result;
pub mod row;
pub mod statement;
pub mod transaction;
pub mod temporal;
pub mod text;
pub mod types;
pub mod type_info;
pub mod uuid_value;
pub mod value;

verus! {

/// Marker for the database driver this crate adapts.
#[derive(Debug)]
pub struct D1;

} // verus!
