//! The describe bridge: mapping an embedded engine's statement metadata
//! into this adapter's type model.
//!
//! Describe runs only against the native emulation path. The embedded
//! engine reports parameter and column type names; they are mapped onto
//! storage-class tags through the fixed name-based lookup, with unknown
//! names falling back to Blob. Against the live host binding describe is
//! unsupported and reports a configuration error rather than guessing
//! metadata.

use vstd::prelude::*;
use vstd::string::*;

use crate::error::D1Error;
use crate::row::D1Column;
use crate::type_info::{D1TypeInfo, spec_sqlite_kind};

verus! {

/// The metadata describing one statement: its parameter types, its result
/// columns, and per-column nullability.
#[derive(Debug)]
pub struct D1Describe {
    /// One tag per statement parameter.
    pub parameters: Vec<D1TypeInfo>,
    /// The result columns, with ordinals `0..len`.
    pub columns: Vec<D1Column>,
    /// Per-column nullability, where the engine reports it.
    pub nullable: Vec<Option<bool>>,
}

/// Maps the engine's parameter type names onto tags, in order.
pub fn map_param_types(names: &Vec<String>) -> (r: Vec<D1TypeInfo>)
    ensures
        r@.len() == names@.len(),
        forall|i: int|
            0 <= i < names@.len() ==> (#[trigger] r@[i]).kind == spec_sqlite_kind(
                names.deep_view()[i],
            ),
{
    let n = names.len();
    let mut r: Vec<D1TypeInfo> = Vec::new();
    let mut i: usize = 0;
    while i < n
        invariant
            i <= n,
            n == names@.len(),
            names.deep_view().len() == n,
            r@.len() == i,
            forall|j: int|
                0 <= j < i ==> (#[trigger] r@[j]).kind == spec_sqlite_kind(names.deep_view()[j]),
        decreases n - i,
    {
        proof {
            assert(names.deep_view()[i as int] == names@[i as int]@);
        }
        r.push(D1TypeInfo::from_sqlite(names[i].as_str()));
        i = i + 1;
    }
    r
}

/// Maps the engine's column metadata — name and declared type name, in
/// result order — onto columns with ordinals `0..len`.
pub fn map_columns(cols: &Vec<(String, String)>) -> (r: Vec<D1Column>)
    ensures
        r@.len() == cols@.len(),
        forall|i: int| 0 <= i < cols@.len() ==> (#[trigger] r@[i]).ordinal == i,
        forall|i: int| 0 <= i < cols@.len() ==> (#[trigger] r@[i]).name@ == cols@[i].0@,
        forall|i: int|
            0 <= i < cols@.len() ==> (#[trigger] r@[i]).type_info.kind == spec_sqlite_kind(
                cols@[i].1@,
            ),
{
    let n = cols.len();
    let mut r: Vec<D1Column> = Vec::new();
    let mut i: usize = 0;
    while i < n
        invariant
            i <= n,
            n == cols@.len(),
            r@.len() == i,
            forall|j: int| 0 <= j < i ==> (#[trigger] r@[j]).ordinal == j,
            forall|j: int| 0 <= j < i ==> (#[trigger] r@[j]).name@ == cols@[j].0@,
            forall|j: int|
                0 <= j < i ==> (#[trigger] r@[j]).type_info.kind == spec_sqlite_kind(cols@[j].1@),
        decreases n - i,
    {
        let name = cols[i].0.clone();
        let ti = D1TypeInfo::from_sqlite(cols[i].1.as_str());
        r.push(D1Column { ordinal: i, name, type_info: ti });
        i = i + 1;
    }
    r
}

/// Assembles a describe result from the engine's reported metadata.
pub fn map_describe(
    param_type_names: &Vec<String>,
    cols: &Vec<(String, String)>,
    nullable: Vec<Option<bool>>,
) -> (r: D1Describe)
    ensures
        r.parameters@.len() == param_type_names@.len(),
        forall|i: int|
            0 <= i < param_type_names@.len() ==> (#[trigger] r.parameters@[i]).kind
                == spec_sqlite_kind(param_type_names.deep_view()[i]),
        r.columns@.len() == cols@.len(),
        forall|i: int| 0 <= i < cols@.len() ==> (#[trigger] r.columns@[i]).ordinal == i,
        forall|i: int| 0 <= i < cols@.len() ==> (#[trigger] r.columns@[i]).name@ == cols@[i].0@,
        forall|i: int|
            0 <= i < cols@.len() ==> (#[trigger] r.columns@[i]).type_info.kind == spec_sqlite_kind(
                cols@[i].1@,
            ),
        r.nullable@ == nullable@,
{
    D1Describe {
        parameters: map_param_types(param_type_names),
        columns: map_columns(cols),
        nullable,
    }
}

/// Describe against the live host binding is unsupported: the host's
/// call surface exposes no statement metadata, and wrong metadata must
/// never be silently invented.
pub fn live_describe_error() -> (r: D1Error)
    ensures
        r matches D1Error::Configuration { message } && message@
            == "describe is not supported against the live host binding"@,
{
    D1Error::Configuration {
        message: String::from_str("describe is not supported against the live host binding"),
    }
}

} // verus!
