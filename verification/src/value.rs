//! A plain-value model of the host environment's dynamically-typed scalar.
//!
//! The host binding hands values over as duck-typed payloads; all the logic
//! here ever inspects is whether a payload is null/undefined, a string, a
//! boolean, a number (and whether that number is a safe integer), or
//! something else. `HostValue` holds exactly that information. A number
//! that is not a safe integer is carried as the bit pattern of the host's
//! double-precision payload, which this crate never interprets further.
//!
//! At the specification level a host value is abstracted to a `SpecValue`,
//! in which strings and byte payloads appear as mathematical sequences.

use vstd::prelude::*;

verus! {

/// Largest magnitude the host's number type can represent exactly as an
/// integer.
pub const MAX_SAFE_INTEGER: i64 = 0x1f_ffff_ffff_ffff;

/// Whether `i` lies in the host's safe-integer range.
pub open spec fn is_safe_integer(i: int) -> bool {
    -0x1f_ffff_ffff_ffff <= i <= 0x1f_ffff_ffff_ffff
}

/// One dynamically-typed host scalar.
#[derive(Debug, Clone, PartialEq)]
pub enum HostValue {
    /// The host's null sentinel.
    Null,
    /// The host's undefined marker, which loosely equals null.
    Undefined,
    /// A host boolean.
    Bool(bool),
    /// A host number that is a safe integer.
    Int(i64),
    /// A host number that is not a safe integer, as its raw bit pattern.
    Real(u64),
    /// A host string.
    Text(String),
    /// A host byte payload (and the stand-in for every other payload the
    /// logic cannot classify further).
    Bytes(Vec<u8>),
}

/// The mathematical abstraction of one host scalar.
pub enum SpecValue {
    Null,
    Undefined,
    Bool(bool),
    Int(i64),
    Real(u64),
    Text(Seq<char>),
    Bytes(Seq<u8>),
}

impl View for HostValue {
    type V = SpecValue;

    open spec fn view(&self) -> SpecValue {
        match self {
            HostValue::Null => SpecValue::Null,
            HostValue::Undefined => SpecValue::Undefined,
            HostValue::Bool(b) => SpecValue::Bool(*b),
            HostValue::Int(i) => SpecValue::Int(*i),
            HostValue::Real(bits) => SpecValue::Real(*bits),
            HostValue::Text(s) => SpecValue::Text(s@),
            HostValue::Bytes(b) => SpecValue::Bytes(b@),
        }
    }
}

impl DeepView for HostValue {
    type V = SpecValue;

    open spec fn deep_view(&self) -> SpecValue {
        self.view()
    }
}

impl SpecValue {
    /// A well-formed host value only carries safe integers in `Int`.
    pub open spec fn wf(self) -> bool {
        match self {
            SpecValue::Int(i) => is_safe_integer(i as int),
            _ => true,
        }
    }

    /// Loose (coercive) equality with the host's null sentinel: both null
    /// and undefined compare loosely equal to null, and nothing else does.
    pub open spec fn loose_null(self) -> bool {
        self == SpecValue::Null || self == SpecValue::Undefined
    }
}

impl HostValue {
    /// Null detection by loose equality with the host null sentinel.
    pub fn is_loose_null(&self) -> (r: bool)
        ensures
            r == self@.loose_null(),
    {
        match self {
            HostValue::Null => true,
            HostValue::Undefined => true,
            _ => false,
        }
    }

    /// A deep copy whose contents are known to equal the original's.
    pub fn duplicate(&self) -> (r: HostValue)
        ensures
            r@ == self@,
    {
        match self {
            HostValue::Null => HostValue::Null,
            HostValue::Undefined => HostValue::Undefined,
            HostValue::Bool(b) => HostValue::Bool(*b),
            HostValue::Int(i) => HostValue::Int(*i),
            HostValue::Real(bits) => HostValue::Real(*bits),
            HostValue::Text(s) => HostValue::Text(s.clone()),
            HostValue::Bytes(b) => HostValue::Bytes(clone_bytes(b)),
        }
    }
}

/// An owned host value as the toolkit sees it: null detection by loose
/// equality and a type tag derived purely by runtime inspection.
#[derive(Debug, Clone, PartialEq)]
pub struct D1Value {
    raw: HostValue,
}

impl View for D1Value {
    type V = SpecValue;

    closed spec fn view(&self) -> SpecValue {
        self.raw@
    }
}

impl D1Value {
    /// Wraps one host payload.
    pub fn from_raw(raw: HostValue) -> (r: Self)
        ensures
            r@ == raw@,
    {
        D1Value { raw }
    }

    /// An explicit host null.
    pub fn null() -> (r: Self)
        ensures
            r@ == SpecValue::Null,
    {
        D1Value { raw: HostValue::Null }
    }

    /// The wrapped payload.
    pub fn raw(&self) -> (r: &HostValue)
        ensures
            r@ == self@,
    {
        &self.raw
    }

    /// A borrowed view for zero-copy reads.
    pub fn as_ref(&self) -> (r: D1ValueRef<'_>)
        ensures
            r@ == self@,
    {
        D1ValueRef { raw: &self.raw }
    }

    /// The storage class derived from the payload alone.
    pub fn type_info(&self) -> (r: crate::type_info::D1TypeInfo)
        ensures
            r.kind == crate::type_info::spec_classify(self@),
    {
        crate::type_info::D1TypeInfo::from_raw(&self.raw)
    }

    /// Null detection by loose equality with the host null sentinel.
    pub fn is_null(&self) -> (r: bool)
        ensures
            r == self@.loose_null(),
    {
        self.raw.is_loose_null()
    }
}

/// A non-owning view of one host value, for zero-copy reads during decode.
#[derive(Debug, Clone, Copy)]
pub struct D1ValueRef<'r> {
    raw: &'r HostValue,
}

impl<'r> View for D1ValueRef<'r> {
    type V = SpecValue;

    closed spec fn view(&self) -> SpecValue {
        self.raw@
    }
}

impl<'r> D1ValueRef<'r> {
    /// Borrows one host payload.
    pub fn from_raw(raw: &'r HostValue) -> (r: Self)
        ensures
            r@ == raw@,
    {
        D1ValueRef { raw }
    }

    /// The borrowed payload.
    pub fn raw(&self) -> (r: &'r HostValue)
        ensures
            r@ == self@,
    {
        self.raw
    }

    /// Converts the borrowed view into an owned value by copying the
    /// payload.
    pub fn to_owned(&self) -> (r: D1Value)
        ensures
            r@ == self@,
    {
        D1Value { raw: self.raw.duplicate() }
    }

    /// The storage class derived from the payload alone.
    pub fn type_info(&self) -> (r: crate::type_info::D1TypeInfo)
        ensures
            r.kind == crate::type_info::spec_classify(self@),
    {
        crate::type_info::D1TypeInfo::from_raw(self.raw)
    }

    /// Null detection by loose equality with the host null sentinel.
    pub fn is_null(&self) -> (r: bool)
        ensures
            r == self@.loose_null(),
    {
        self.raw.is_loose_null()
    }
}

/// A byte-vector copy whose contents are known to equal the original's.
pub fn clone_bytes(b: &Vec<u8>) -> (r: Vec<u8>)
    ensures
        r@ == b@,
{
    let r = vstd::slice::slice_to_vec(b.as_slice());
    proof {
        assert(r@ =~= b@);
    }
    r
}

} // verus!
