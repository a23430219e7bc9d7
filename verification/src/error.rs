//! The adapter's error taxonomy.
//!
//! Errors are structured values: each variant carries the data a caller
//! needs for diagnostics (the offending value, the parameter position, the
//! column name or index) rather than a pre-rendered message.

use vstd::prelude::*;

use crate::value::HostValue;

verus! {

/// A parameter serialization failure, before it has been tagged with its
/// destination position.
#[derive(Debug, Clone, PartialEq)]
pub struct EncodeError {
    /// What the encoder could not represent as a host value.
    pub message: String,
}

/// Every failure this adapter reports.
#[derive(Debug, Clone, PartialEq)]
pub enum D1Error {
    /// A failure returned by a host binding call, wrapping the host's own
    /// message.
    HostCall { message: String },
    /// A parameter failed to serialize, tagged with its position in the
    /// argument list.
    Encode { param_index: usize, message: String },
    /// A column value could not be converted to the requested type; carries
    /// the name of the expected type and the unconvertible value itself.
    Decode { expected: String, value: HostValue },
    /// A name lookup on a row found no column of that name.
    ColumnNotFound { name: String },
    /// An index lookup on a row was out of range.
    ColumnIndexOutOfBounds { index: usize, len: usize },
    /// Missing or ambiguous local emulator state, or an operation the host
    /// binding cannot support.
    Configuration { message: String },
}

} // verus!
