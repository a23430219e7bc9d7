//! Storage-class tags for host values and columns.
//!
//! Every value coming back from the host binding is classified into one of
//! a small closed set of SQL storage classes. `Boolean`, `Date`, `Time` and
//! `Datetime` are logical refinements used only for type-compatibility
//! decisions; at the storage level they collapse to `Integer` or `Text`.

use vstd::prelude::*;

use crate::text::str_eq;
use crate::value::{HostValue, SpecValue};

verus! {

/// The closed set of storage classes, plus the logical refinements.
#[derive(Debug, Clone, Copy, PartialEq, Eq, Structural)]
pub enum D1Type {
    Null,
    Real,
    Integer,
    Text,
    Blob,
    Boolean,
    Date,
    Time,
    Datetime,
}

/// Type tag attached to a value or a column.
#[derive(Debug, Clone, Copy, PartialEq, Eq, Structural)]
pub struct D1TypeInfo {
    pub kind: D1Type,
}

impl D1TypeInfo {
    /// The storage class this tag carries.
    pub fn kind(&self) -> (k: D1Type)
        ensures
            k == self.kind,
    {
        self.kind
    }

    pub fn null() -> (r: Self)
        ensures
            r.kind == D1Type::Null,
    {
        Self { kind: D1Type::Null }
    }

    /// The tag for the Real storage class. (The bare class name is a
    /// reserved word of the specification language, hence the longer
    /// constructor name.)
    pub fn real_type() -> (r: Self)
        ensures
            r.kind == D1Type::Real,
    {
        Self { kind: D1Type::Real }
    }

    pub fn integer() -> (r: Self)
        ensures
            r.kind == D1Type::Integer,
    {
        Self { kind: D1Type::Integer }
    }

    pub fn text() -> (r: Self)
        ensures
            r.kind == D1Type::Text,
    {
        Self { kind: D1Type::Text }
    }

    pub fn blob() -> (r: Self)
        ensures
            r.kind == D1Type::Blob,
    {
        Self { kind: D1Type::Blob }
    }

    pub fn boolean() -> (r: Self)
        ensures
            r.kind == D1Type::Boolean,
    {
        Self { kind: D1Type::Boolean }
    }

    pub fn date() -> (r: Self)
        ensures
            r.kind == D1Type::Date,
    {
        Self { kind: D1Type::Date }
    }

    pub fn time() -> (r: Self)
        ensures
            r.kind == D1Type::Time,
    {
        Self { kind: D1Type::Time }
    }

    pub fn datetime() -> (r: Self)
        ensures
            r.kind == D1Type::Datetime,
    {
        Self { kind: D1Type::Datetime }
    }

    /// The fallback tag for payloads with no direct SQL analogue: a blob is
    /// the least-bad default.
    pub fn unknown() -> (r: Self)
        ensures
            r.kind == D1Type::Blob,
    {
        Self { kind: D1Type::Blob }
    }

    /// True exactly when the tag is the `Null` storage class.
    pub fn is_null(&self) -> (r: bool)
        ensures
            r == (self.kind == D1Type::Null),
    {
        matches!(self.kind, D1Type::Null)
    }

    /// Runtime classification of a host payload into a storage class.
    pub fn from_raw(raw: &HostValue) -> (r: Self)
        ensures
            r.kind == spec_classify(raw@),
    {
        match raw {
            HostValue::Null => Self::null(),
            HostValue::Undefined => Self::null(),
            HostValue::Text(_) => Self::text(),
            HostValue::Bool(_) => Self::integer(),
            HostValue::Int(_) => Self::integer(),
            HostValue::Real(_) => Self::real_type(),
            HostValue::Bytes(_) => Self::unknown(),
        }
    }

    /// Maps an embedded engine's declared type name onto a tag; unknown
    /// names fall back to the blob tag.
    pub fn from_sqlite(name: &str) -> (r: Self)
        ensures
            r.kind == spec_sqlite_kind(name@),
    {
        if str_eq(name, "NULL") {
            Self::null()
        } else if str_eq(name, "TEXT") {
            Self::text()
        } else if str_eq(name, "REAL") {
            Self::real_type()
        } else if str_eq(name, "BLOB") {
            Self::blob()
        } else if str_eq(name, "INTEGER") {
            Self::integer()
        } else if str_eq(name, "NUMERIC") {
            Self::integer()
        } else if str_eq(name, "BOOLEAN") {
            Self::boolean()
        } else if str_eq(name, "DATE") {
            Self::date()
        } else if str_eq(name, "TIME") {
            Self::time()
        } else if str_eq(name, "DATETIME") {
            Self::datetime()
        } else {
            Self::unknown()
        }
    }

    /// The canonical SQL name of a storage class, used in messages and
    /// introspection. Only the five storage classes have one; the logical
    /// refinements never reach the wire.
    pub fn name(&self) -> (r: &'static str)
        requires
            !is_logical(self.kind),
        ensures
            self.kind == D1Type::Null ==> r@ == "NULL"@,
            self.kind == D1Type::Text ==> r@ == "TEXT"@,
            self.kind == D1Type::Real ==> r@ == "REAL"@,
            self.kind == D1Type::Blob ==> r@ == "BLOB"@,
            self.kind == D1Type::Integer ==> r@ == "INTEGER"@,
    {
        match self.kind {
            D1Type::Null => "NULL",
            D1Type::Text => "TEXT",
            D1Type::Real => "REAL",
            D1Type::Blob => "BLOB",
            _ => "INTEGER",
        }
    }

    /// The weak type-compatibility check: a declared tag is accepted for an
    /// actual storage class when they are equal or when the declared logical
    /// refinement is stored under that class by the host.
    pub fn compatible(&self, actual: &D1TypeInfo) -> (r: bool)
        ensures
            r == spec_compatible(self.kind, actual.kind),
    {
        if self.kind == actual.kind {
            return true;
        }
        match self.kind {
            D1Type::Boolean => matches!(actual.kind, D1Type::Integer),
            D1Type::Datetime => matches!(
                actual.kind,
                D1Type::Text | D1Type::Integer | D1Type::Real,
            ),
            D1Type::Date => matches!(actual.kind, D1Type::Text),
            D1Type::Time => matches!(actual.kind, D1Type::Text),
            _ => false,
        }
    }
}

/// The logical refinements, which collapse to Integer or Text at the
/// storage level.
pub open spec fn is_logical(k: D1Type) -> bool {
    match k {
        D1Type::Boolean => true,
        D1Type::Date => true,
        D1Type::Time => true,
        D1Type::Datetime => true,
        _ => false,
    }
}

/// What classification assigns to each shape of host payload: null and
/// undefined are Null; strings are Text; booleans and safe-integer numbers
/// are Integer; other numbers are Real; everything else is Blob.
pub open spec fn spec_classify(v: SpecValue) -> D1Type {
    match v {
        SpecValue::Null => D1Type::Null,
        SpecValue::Undefined => D1Type::Null,
        SpecValue::Text(_) => D1Type::Text,
        SpecValue::Bool(_) => D1Type::Integer,
        SpecValue::Int(_) => D1Type::Integer,
        SpecValue::Real(_) => D1Type::Real,
        SpecValue::Bytes(_) => D1Type::Blob,
    }
}

/// The fixed name-based lookup used by the describe bridge.
pub open spec fn spec_sqlite_kind(n: Seq<char>) -> D1Type {
    if n == "NULL"@ {
        D1Type::Null
    } else if n == "TEXT"@ {
        D1Type::Text
    } else if n == "REAL"@ {
        D1Type::Real
    } else if n == "BLOB"@ {
        D1Type::Blob
    } else if n == "INTEGER"@ || n == "NUMERIC"@ {
        D1Type::Integer
    } else if n == "BOOLEAN"@ {
        D1Type::Boolean
    } else if n == "DATE"@ {
        D1Type::Date
    } else if n == "TIME"@ {
        D1Type::Time
    } else if n == "DATETIME"@ {
        D1Type::Datetime
    } else {
        D1Type::Blob
    }
}

/// The weak-compatibility table over storage classes.
pub open spec fn spec_compatible(decl: D1Type, actual: D1Type) -> bool {
    decl == actual || match decl {
        D1Type::Boolean => actual == D1Type::Integer,
        D1Type::Datetime => actual == D1Type::Text || actual == D1Type::Integer
            || actual == D1Type::Real,
        D1Type::Date => actual == D1Type::Text,
        D1Type::Time => actual == D1Type::Text,
        _ => false,
    }
}

/// A host value classifies as Null exactly when it loosely equals the host
/// null sentinel.
pub proof fn lemma_classify_null_iff(v: SpecValue)
    ensures
        (spec_classify(v) == D1Type::Null) <==> v.loose_null(),
{
}

} // verus!
