//! Encoding and decoding of typed values to and from host scalars.
//!
//! `D1Encode` serializes one typed parameter into the host's value
//! representation; `D1Decode` converts one host scalar back into a typed
//! value. Both carry a specification-level description of exactly which
//! conversions succeed, so that round-trip laws can be stated and proved.

use vstd::prelude::*;
use vstd::string::*;

use crate::error::{D1Error, EncodeError};
use crate::value::{HostValue, SpecValue, MAX_SAFE_INTEGER, is_safe_integer};

verus! {

/// A typed value that can be serialized into the host value representation.
pub trait D1Encode {
    /// The host value this encodes to, or `None` when encoding fails.
    spec fn spec_encode(&self) -> Option<SpecValue>;

    /// Whether a successful encode reports the is-null flag to the caller.
    spec fn spec_encode_is_null(&self) -> bool;

    /// Appends the encoding of `self` to `buf`. On success exactly one
    /// host value is appended; on failure `buf` keeps its old contents as
    /// a prefix (a partial entry may trail, which the caller removes).
    fn encode_by_ref(&self, buf: &mut Vec<HostValue>) -> (r: Result<bool, EncodeError>)
        ensures
            r matches Ok(is_null) ==> (self.spec_encode() matches Some(sv)
                && old(buf)@.is_prefix_of(final(buf)@)
                && final(buf)@.len() == old(buf)@.len() + 1
                && final(buf).deep_view() == old(buf).deep_view().push(sv)
                && is_null == self.spec_encode_is_null()),
            r is Err ==> self.spec_encode() is None && old(buf)@.is_prefix_of(final(buf)@),
    ;
}

/// A typed value that can be read back from one host scalar.
pub trait D1Decode: Sized + DeepView {
    /// The exact conversion relation: which host values decode, and to
    /// what.
    spec fn spec_decode(v: SpecValue) -> Option<Self::V>;

    /// The name of the expected type, carried in decode errors.
    spec fn spec_expected() -> Seq<char>;

    /// Converts one host scalar, reporting the unconvertible value on
    /// failure.
    fn decode(v: &HostValue) -> (r: Result<Self, D1Error>)
        ensures
            r matches Ok(x) ==> Self::spec_decode(v@) == Some(x.deep_view()),
            r is Err ==> Self::spec_decode(v@) is None,
            r is Err ==> (r->Err_0 matches D1Error::Decode { expected, value }
                && expected@ == Self::spec_expected() && value@ == v@),
    ;
}

impl D1Encode for i64 {
    /// Safe integers encode as host integers; anything larger has no exact
    /// host representation and fails.
    open spec fn spec_encode(&self) -> Option<SpecValue> {
        if is_safe_integer(*self as int) {
            Some(SpecValue::Int(*self))
        } else {
            None
        }
    }

    open spec fn spec_encode_is_null(&self) -> bool {
        false
    }

    fn encode_by_ref(&self, buf: &mut Vec<HostValue>) -> (r: Result<bool, EncodeError>) {
        if -MAX_SAFE_INTEGER <= *self && *self <= MAX_SAFE_INTEGER {
            buf.push(HostValue::Int(*self));
            Ok(false)
        } else {
            Err(EncodeError {
                message: String::from_str("integer outside the host's safe-integer range"),
            })
        }
    }
}

impl D1Decode for i64 {
    open spec fn spec_decode(v: SpecValue) -> Option<i64> {
        match v {
            SpecValue::Int(i) => Some(i),
            _ => None,
        }
    }

    open spec fn spec_expected() -> Seq<char> {
        "integer"@
    }

    fn decode(v: &HostValue) -> (r: Result<i64, D1Error>) {
        match v {
            HostValue::Int(i) => Ok(*i),
            _ => Err(D1Error::Decode {
                expected: String::from_str("integer"),
                value: v.duplicate(),
            }),
        }
    }
}

impl D1Encode for i32 {
    /// Every 32-bit integer is a safe integer for the host.
    open spec fn spec_encode(&self) -> Option<SpecValue> {
        Some(SpecValue::Int(*self as i64))
    }

    open spec fn spec_encode_is_null(&self) -> bool {
        false
    }

    fn encode_by_ref(&self, buf: &mut Vec<HostValue>) -> (r: Result<bool, EncodeError>) {
        buf.push(HostValue::Int(*self as i64));
        Ok(false)
    }
}

impl D1Decode for i32 {
    /// Only host integers within the 32-bit range convert.
    open spec fn spec_decode(v: SpecValue) -> Option<i32> {
        match v {
            SpecValue::Int(i) => if i32::MIN <= i <= i32::MAX {
                Some(i as i32)
            } else {
                None
            },
            _ => None,
        }
    }

    open spec fn spec_expected() -> Seq<char> {
        "integer"@
    }

    fn decode(v: &HostValue) -> (r: Result<i32, D1Error>) {
        match v {
            HostValue::Int(i) => {
                if i32::MIN as i64 <= *i && *i <= i32::MAX as i64 {
                    Ok(*i as i32)
                } else {
                    Err(D1Error::Decode {
                        expected: String::from_str("integer"),
                        value: v.duplicate(),
                    })
                }
            },
            _ => Err(D1Error::Decode {
                expected: String::from_str("integer"),
                value: v.duplicate(),
            }),
        }
    }
}

impl D1Encode for i8 {
    /// Every 8-bit integer is a safe integer for the host.
    open spec fn spec_encode(&self) -> Option<SpecValue> {
        Some(SpecValue::Int(*self as i64))
    }

    open spec fn spec_encode_is_null(&self) -> bool {
        false
    }

    fn encode_by_ref(&self, buf: &mut Vec<HostValue>) -> (r: Result<bool, EncodeError>) {
        buf.push(HostValue::Int(*self as i64));
        Ok(false)
    }
}

impl D1Decode for i8 {
    /// Only host integers within the 8-bit range convert.
    open spec fn spec_decode(v: SpecValue) -> Option<i8> {
        match v {
            SpecValue::Int(i) => if i8::MIN <= i <= i8::MAX {
                Some(i as i8)
            } else {
                None
            },
            _ => None,
        }
    }

    open spec fn spec_expected() -> Seq<char> {
        "integer"@
    }

    fn decode(v: &HostValue) -> (r: Result<i8, D1Error>) {
        match v {
            HostValue::Int(i) => {
                if i8::MIN as i64 <= *i && *i <= i8::MAX as i64 {
                    Ok(*i as i8)
                } else {
                    Err(D1Error::Decode {
                        expected: String::from_str("integer"),
                        value: v.duplicate(),
                    })
                }
            },
            _ => Err(D1Error::Decode {
                expected: String::from_str("integer"),
                value: v.duplicate(),
            }),
        }
    }
}

impl D1Encode for i16 {
    /// Every 16-bit integer is a safe integer for the host.
    open spec fn spec_encode(&self) -> Option<SpecValue> {
        Some(SpecValue::Int(*self as i64))
    }

    open spec fn spec_encode_is_null(&self) -> bool {
        false
    }

    fn encode_by_ref(&self, buf: &mut Vec<HostValue>) -> (r: Result<bool, EncodeError>) {
        buf.push(HostValue::Int(*self as i64));
        Ok(false)
    }
}

impl D1Decode for i16 {
    /// Only host integers within the 16-bit range convert.
    open spec fn spec_decode(v: SpecValue) -> Option<i16> {
        match v {
            SpecValue::Int(i) => if i16::MIN <= i <= i16::MAX {
                Some(i as i16)
            } else {
                None
            },
            _ => None,
        }
    }

    open spec fn spec_expected() -> Seq<char> {
        "integer"@
    }

    fn decode(v: &HostValue) -> (r: Result<i16, D1Error>) {
        match v {
            HostValue::Int(i) => {
                if i16::MIN as i64 <= *i && *i <= i16::MAX as i64 {
                    Ok(*i as i16)
                } else {
                    Err(D1Error::Decode {
                        expected: String::from_str("integer"),
                        value: v.duplicate(),
                    })
                }
            },
            _ => Err(D1Error::Decode {
                expected: String::from_str("integer"),
                value: v.duplicate(),
            }),
        }
    }
}

impl D1Encode for u8 {
    /// Every 8-bit unsigned integer is a safe integer for the host.
    open spec fn spec_encode(&self) -> Option<SpecValue> {
        Some(SpecValue::Int(*self as i64))
    }

    open spec fn spec_encode_is_null(&self) -> bool {
        false
    }

    fn encode_by_ref(&self, buf: &mut Vec<HostValue>) -> (r: Result<bool, EncodeError>) {
        buf.push(HostValue::Int(*self as i64));
        Ok(false)
    }
}

impl D1Decode for u8 {
    /// Only host integers within the 8-bit unsigned range convert.
    open spec fn spec_decode(v: SpecValue) -> Option<u8> {
        match v {
            SpecValue::Int(i) => if 0 <= i <= u8::MAX {
                Some(i as u8)
            } else {
                None
            },
            _ => None,
        }
    }

    open spec fn spec_expected() -> Seq<char> {
        "integer"@
    }

    fn decode(v: &HostValue) -> (r: Result<u8, D1Error>) {
        match v {
            HostValue::Int(i) => {
                if 0 <= *i && *i <= u8::MAX as i64 {
                    Ok(*i as u8)
                } else {
                    Err(D1Error::Decode {
                        expected: String::from_str("integer"),
                        value: v.duplicate(),
                    })
                }
            },
            _ => Err(D1Error::Decode {
                expected: String::from_str("integer"),
                value: v.duplicate(),
            }),
        }
    }
}

impl D1Encode for u16 {
    /// Every 16-bit unsigned integer is a safe integer for the host.
    open spec fn spec_encode(&self) -> Option<SpecValue> {
        Some(SpecValue::Int(*self as i64))
    }

    open spec fn spec_encode_is_null(&self) -> bool {
        false
    }

    fn encode_by_ref(&self, buf: &mut Vec<HostValue>) -> (r: Result<bool, EncodeError>) {
        buf.push(HostValue::Int(*self as i64));
        Ok(false)
    }
}

impl D1Decode for u16 {
    /// Only host integers within the 16-bit unsigned range convert.
    open spec fn spec_decode(v: SpecValue) -> Option<u16> {
        match v {
            SpecValue::Int(i) => if 0 <= i <= u16::MAX {
                Some(i as u16)
            } else {
                None
            },
            _ => None,
        }
    }

    open spec fn spec_expected() -> Seq<char> {
        "integer"@
    }

    fn decode(v: &HostValue) -> (r: Result<u16, D1Error>) {
        match v {
            HostValue::Int(i) => {
                if 0 <= *i && *i <= u16::MAX as i64 {
                    Ok(*i as u16)
                } else {
                    Err(D1Error::Decode {
                        expected: String::from_str("integer"),
                        value: v.duplicate(),
                    })
                }
            },
            _ => Err(D1Error::Decode {
                expected: String::from_str("integer"),
                value: v.duplicate(),
            }),
        }
    }
}

impl D1Encode for u32 {
    /// Every 32-bit unsigned integer is a safe integer for the host.
    open spec fn spec_encode(&self) -> Option<SpecValue> {
        Some(SpecValue::Int(*self as i64))
    }

    open spec fn spec_encode_is_null(&self) -> bool {
        false
    }

    fn encode_by_ref(&self, buf: &mut Vec<HostValue>) -> (r: Result<bool, EncodeError>) {
        buf.push(HostValue::Int(*self as i64));
        Ok(false)
    }
}

impl D1Decode for u32 {
    /// Only host integers within the 32-bit unsigned range convert.
    open spec fn spec_decode(v: SpecValue) -> Option<u32> {
        match v {
            SpecValue::Int(i) => if 0 <= i <= u32::MAX {
                Some(i as u32)
            } else {
                None
            },
            _ => None,
        }
    }

    open spec fn spec_expected() -> Seq<char> {
        "integer"@
    }

    fn decode(v: &HostValue) -> (r: Result<u32, D1Error>) {
        match v {
            HostValue::Int(i) => {
                if 0 <= *i && *i <= u32::MAX as i64 {
                    Ok(*i as u32)
                } else {
                    Err(D1Error::Decode {
                        expected: String::from_str("integer"),
                        value: v.duplicate(),
                    })
                }
            },
            _ => Err(D1Error::Decode {
                expected: String::from_str("integer"),
                value: v.duplicate(),
            }),
        }
    }
}

impl D1Encode for u64 {
    /// Unsigned integers encode while they stay in the host's
    /// safe-integer range; anything larger has no exact representation
    /// and fails.
    open spec fn spec_encode(&self) -> Option<SpecValue> {
        if *self <= 0x1f_ffff_ffff_ffff {
            Some(SpecValue::Int(*self as i64))
        } else {
            None
        }
    }

    open spec fn spec_encode_is_null(&self) -> bool {
        false
    }

    fn encode_by_ref(&self, buf: &mut Vec<HostValue>) -> (r: Result<bool, EncodeError>) {
        if *self <= MAX_SAFE_INTEGER as u64 {
            buf.push(HostValue::Int(*self as i64));
            Ok(false)
        } else {
            Err(EncodeError {
                message: String::from_str("integer outside the host's safe-integer range"),
            })
        }
    }
}

impl D1Decode for u64 {
    /// Only non-negative host integers convert.
    open spec fn spec_decode(v: SpecValue) -> Option<u64> {
        match v {
            SpecValue::Int(i) => if i >= 0 {
                Some(i as u64)
            } else {
                None
            },
            _ => None,
        }
    }

    open spec fn spec_expected() -> Seq<char> {
        "integer"@
    }

    fn decode(v: &HostValue) -> (r: Result<u64, D1Error>) {
        match v {
            HostValue::Int(i) => {
                if *i >= 0 {
                    Ok(*i as u64)
                } else {
                    Err(D1Error::Decode {
                        expected: String::from_str("integer"),
                        value: v.duplicate(),
                    })
                }
            },
            _ => Err(D1Error::Decode {
                expected: String::from_str("integer"),
                value: v.duplicate(),
            }),
        }
    }
}

impl D1Encode for isize {
    /// Pointer-sized integers encode while they stay in the host's
    /// safe-integer range.
    open spec fn spec_encode(&self) -> Option<SpecValue> {
        if is_safe_integer(*self as int) {
            Some(SpecValue::Int(*self as i64))
        } else {
            None
        }
    }

    open spec fn spec_encode_is_null(&self) -> bool {
        false
    }

    fn encode_by_ref(&self, buf: &mut Vec<HostValue>) -> (r: Result<bool, EncodeError>) {
        let v = *self as i64;
        if -MAX_SAFE_INTEGER <= v && v <= MAX_SAFE_INTEGER {
            buf.push(HostValue::Int(v));
            Ok(false)
        } else {
            Err(EncodeError {
                message: String::from_str("integer outside the host's safe-integer range"),
            })
        }
    }
}

impl D1Decode for isize {
    /// Only host integers within the pointer-sized range convert.
    open spec fn spec_decode(v: SpecValue) -> Option<isize> {
        match v {
            SpecValue::Int(i) => if isize::MIN <= i <= isize::MAX {
                Some(i as isize)
            } else {
                None
            },
            _ => None,
        }
    }

    open spec fn spec_expected() -> Seq<char> {
        "integer"@
    }

    fn decode(v: &HostValue) -> (r: Result<isize, D1Error>) {
        match v {
            HostValue::Int(i) => {
                if isize::MIN as i64 <= *i && *i <= isize::MAX as i64 {
                    Ok(*i as isize)
                } else {
                    Err(D1Error::Decode {
                        expected: String::from_str("integer"),
                        value: v.duplicate(),
                    })
                }
            },
            _ => Err(D1Error::Decode {
                expected: String::from_str("integer"),
                value: v.duplicate(),
            }),
        }
    }
}

impl D1Encode for usize {
    /// Pointer-sized unsigned integers encode while they stay in the
    /// host's safe-integer range.
    open spec fn spec_encode(&self) -> Option<SpecValue> {
        if *self <= 0x1f_ffff_ffff_ffff {
            Some(SpecValue::Int(*self as i64))
        } else {
            None
        }
    }

    open spec fn spec_encode_is_null(&self) -> bool {
        false
    }

    fn encode_by_ref(&self, buf: &mut Vec<HostValue>) -> (r: Result<bool, EncodeError>) {
        if *self as u64 <= MAX_SAFE_INTEGER as u64 {
            buf.push(HostValue::Int(*self as i64));
            Ok(false)
        } else {
            Err(EncodeError {
                message: String::from_str("integer outside the host's safe-integer range"),
            })
        }
    }
}

impl D1Decode for usize {
    /// Only host integers within the pointer-sized unsigned range
    /// convert.
    open spec fn spec_decode(v: SpecValue) -> Option<usize> {
        match v {
            SpecValue::Int(i) => if 0 <= i <= usize::MAX {
                Some(i as usize)
            } else {
                None
            },
            _ => None,
        }
    }

    open spec fn spec_expected() -> Seq<char> {
        "integer"@
    }

    fn decode(v: &HostValue) -> (r: Result<usize, D1Error>) {
        match v {
            HostValue::Int(i) => {
                if 0 <= *i && *i as u64 <= usize::MAX as u64 {
                    Ok(*i as usize)
                } else {
                    Err(D1Error::Decode {
                        expected: String::from_str("integer"),
                        value: v.duplicate(),
                    })
                }
            },
            _ => Err(D1Error::Decode {
                expected: String::from_str("integer"),
                value: v.duplicate(),
            }),
        }
    }
}

impl D1Encode for bool {
    /// Booleans encode as the host numbers 1 and 0, matching the host's
    /// boolean-as-integer convention.
    open spec fn spec_encode(&self) -> Option<SpecValue> {
        Some(SpecValue::Int(if *self { 1i64 } else { 0i64 }))
    }

    open spec fn spec_encode_is_null(&self) -> bool {
        false
    }

    fn encode_by_ref(&self, buf: &mut Vec<HostValue>) -> (r: Result<bool, EncodeError>) {
        if *self {
            buf.push(HostValue::Int(1));
        } else {
            buf.push(HostValue::Int(0));
        }
        Ok(false)
    }
}

impl D1Decode for bool {
    /// A numeric host value decodes to whether it is non-zero; any other
    /// payload reads as false. This conversion never fails.
    open spec fn spec_decode(v: SpecValue) -> Option<bool> {
        match v {
            SpecValue::Int(i) => Some(i != 0),
            SpecValue::Real(bits) => Some(!(bits == 0u64 || bits == 0x8000_0000_0000_0000u64)),
            _ => Some(false),
        }
    }

    open spec fn spec_expected() -> Seq<char> {
        "boolean"@
    }

    fn decode(v: &HostValue) -> (r: Result<bool, D1Error>) {
        match v {
            HostValue::Int(i) => Ok(*i != 0),
            HostValue::Real(bits) => Ok(!(*bits == 0u64 || *bits == 0x8000_0000_0000_0000u64)),
            _ => Ok(false),
        }
    }
}

impl D1Encode for String {
    open spec fn spec_encode(&self) -> Option<SpecValue> {
        Some(SpecValue::Text(self@))
    }

    open spec fn spec_encode_is_null(&self) -> bool {
        false
    }

    fn encode_by_ref(&self, buf: &mut Vec<HostValue>) -> (r: Result<bool, EncodeError>) {
        buf.push(HostValue::Text(self.clone()));
        Ok(false)
    }
}

impl D1Decode for String {
    open spec fn spec_decode(v: SpecValue) -> Option<Seq<char>> {
        match v {
            SpecValue::Text(s) => Some(s),
            _ => None,
        }
    }

    open spec fn spec_expected() -> Seq<char> {
        "text"@
    }

    fn decode(v: &HostValue) -> (r: Result<String, D1Error>) {
        match v {
            HostValue::Text(s) => Ok(s.clone()),
            _ => Err(D1Error::Decode {
                expected: String::from_str("text"),
                value: v.duplicate(),
            }),
        }
    }
}

impl D1Encode for Vec<u8> {
    open spec fn spec_encode(&self) -> Option<SpecValue> {
        Some(SpecValue::Bytes(self@))
    }

    open spec fn spec_encode_is_null(&self) -> bool {
        false
    }

    fn encode_by_ref(&self, buf: &mut Vec<HostValue>) -> (r: Result<bool, EncodeError>) {
        buf.push(HostValue::Bytes(crate::value::clone_bytes(self)));
        Ok(false)
    }
}

impl D1Decode for Vec<u8> {
    open spec fn spec_decode(v: SpecValue) -> Option<Seq<u8>> {
        match v {
            SpecValue::Bytes(b) => Some(b),
            _ => None,
        }
    }

    open spec fn spec_expected() -> Seq<char> {
        "blob"@
    }

    fn decode(v: &HostValue) -> (r: Result<Vec<u8>, D1Error>) {
        match v {
            HostValue::Bytes(b) => Ok(crate::value::clone_bytes(b)),
            _ => Err(D1Error::Decode {
                expected: String::from_str("blob"),
                value: v.duplicate(),
            }),
        }
    }
}

impl<T: D1Encode> D1Encode for Option<T> {
    /// `None` encodes as exactly one explicit host null; `Some(x)` encodes
    /// exactly as `x` does.
    open spec fn spec_encode(&self) -> Option<SpecValue> {
        match self {
            Some(x) => x.spec_encode(),
            None => Some(SpecValue::Null),
        }
    }

    /// `None` reports is-null; `Some(x)` reports whatever `x` reports.
    open spec fn spec_encode_is_null(&self) -> bool {
        match self {
            Some(x) => x.spec_encode_is_null(),
            None => true,
        }
    }

    fn encode_by_ref(&self, buf: &mut Vec<HostValue>) -> (r: Result<bool, EncodeError>) {
        match self {
            Some(x) => x.encode_by_ref(buf),
            None => {
                buf.push(HostValue::Null);
                Ok(true)
            },
        }
    }
}

impl<T: D1Decode> D1Decode for Option<T> {
    /// A loosely-null host value decodes to `None`; anything else decodes
    /// through `T`.
    open spec fn spec_decode(v: SpecValue) -> Option<Option<T::V>> {

        if v.loose_null() {
            Some(None)
        } else {
            match T::spec_decode(v) {
                Some(x) => Some(Some(x)),
                None => None,
            }
        }
    }

    open spec fn spec_expected() -> Seq<char> {
        T::spec_expected()
    }

    fn decode(v: &HostValue) -> (r: Result<Option<T>, D1Error>) {
        if v.is_loose_null() {
            Ok(None)
        } else {
            match T::decode(v) {
                Ok(x) => Ok(Some(x)),
                Err(e) => Err(e),
            }
        }
    }
}

/// The tag a Rust-level type declares for itself when the query layer
/// checks parameter and column types at expansion time.
pub trait TypeChecker {
    /// The declared tag.
    spec fn spec_type_info() -> crate::type_info::D1Type;

    /// The declared tag, as a value.
    fn type_info() -> (r: crate::type_info::D1TypeInfo)
        ensures
            r.kind == Self::spec_type_info(),
    ;
}

/// Marker relation of the weak checking policy: the implementing type is
/// accepted where `X` is the declared checker type.
pub trait Compatible<X: TypeChecker> {

}

impl TypeChecker for bool {
    open spec fn spec_type_info() -> crate::type_info::D1Type {
        crate::type_info::D1Type::Boolean
    }

    fn type_info() -> (r: crate::type_info::D1TypeInfo) {
        crate::type_info::D1TypeInfo::boolean()
    }
}

impl TypeChecker for i64 {
    open spec fn spec_type_info() -> crate::type_info::D1Type {
        crate::type_info::D1Type::Integer
    }

    fn type_info() -> (r: crate::type_info::D1TypeInfo) {
        crate::type_info::D1TypeInfo::integer()
    }
}

impl TypeChecker for String {
    open spec fn spec_type_info() -> crate::type_info::D1Type {
        crate::type_info::D1Type::Text
    }

    fn type_info() -> (r: crate::type_info::D1TypeInfo) {
        crate::type_info::D1TypeInfo::text()
    }
}

impl TypeChecker for Vec<u8> {
    open spec fn spec_type_info() -> crate::type_info::D1Type {
        crate::type_info::D1Type::Blob
    }

    fn type_info() -> (r: crate::type_info::D1TypeInfo) {
        crate::type_info::D1TypeInfo::blob()
    }
}

impl TypeChecker for crate::temporal::DateValue {
    open spec fn spec_type_info() -> crate::type_info::D1Type {
        crate::type_info::D1Type::Date
    }

    fn type_info() -> (r: crate::type_info::D1TypeInfo) {
        crate::type_info::D1TypeInfo::date()
    }
}

impl TypeChecker for crate::temporal::TimeValue {
    open spec fn spec_type_info() -> crate::type_info::D1Type {
        crate::type_info::D1Type::Time
    }

    fn type_info() -> (r: crate::type_info::D1TypeInfo) {
        crate::type_info::D1TypeInfo::time()
    }
}

impl TypeChecker for crate::temporal::DateTimeValue {
    open spec fn spec_type_info() -> crate::type_info::D1Type {
        crate::type_info::D1Type::Datetime
    }

    fn type_info() -> (r: crate::type_info::D1TypeInfo) {
        crate::type_info::D1TypeInfo::datetime()
    }
}

/// An optional value declares its inner type's tag; nullability is
/// inferred separately.
impl<X: TypeChecker> TypeChecker for Option<X> {
    open spec fn spec_type_info() -> crate::type_info::D1Type {
        X::spec_type_info()
    }

    fn type_info() -> (r: crate::type_info::D1TypeInfo) {
        X::type_info()
    }
}

impl Compatible<bool> for bool {

}

impl Compatible<i64> for i64 {

}

impl Compatible<i64> for i8 {

}

impl Compatible<i64> for i16 {

}

impl Compatible<i64> for i32 {

}

impl Compatible<i64> for u8 {

}

impl Compatible<i64> for u16 {

}

impl Compatible<i64> for u32 {

}

impl Compatible<i64> for u64 {

}

impl Compatible<String> for String {

}

impl Compatible<Vec<u8>> for Vec<u8> {

}

/// A UUID is stored as its byte blob.
impl Compatible<Vec<u8>> for crate::uuid_value::UuidValue {

}

impl Compatible<crate::temporal::DateValue> for crate::temporal::DateValue {

}

/// Dates are also stored as text.
impl Compatible<String> for crate::temporal::DateValue {

}

impl Compatible<crate::temporal::TimeValue> for crate::temporal::TimeValue {

}

/// Times are also stored as text.
impl Compatible<String> for crate::temporal::TimeValue {

}

impl Compatible<crate::temporal::DateTimeValue> for crate::temporal::DateTimeValue {

}

/// Datetimes are also stored as text or as epoch seconds.
impl Compatible<String> for crate::temporal::DateTimeValue {

}

impl Compatible<i64> for crate::temporal::DateTimeValue {

}

/// An optional value is accepted wherever its inner type is.
impl<X: TypeChecker, C: Compatible<X>> Compatible<Option<X>> for Option<C> {

}

/// Encoding `None` always yields exactly one explicit null entry and
/// reports is-null; encoding `Some(x)` is identical to encoding `x`
/// directly.
pub proof fn lemma_option_encoding<T: D1Encode>(x: T)
    ensures
        <Option<T> as D1Encode>::spec_encode(&None::<T>) == Some(SpecValue::Null),
        <Option<T> as D1Encode>::spec_encode_is_null(&None::<T>),
        <Option<T> as D1Encode>::spec_encode(&Some(x)) == x.spec_encode(),
{
}

/// The round-trip law relating a type's encoder and decoder: whenever a
/// value encodes successfully, decoding the encoded host value yields
/// the original value back.
pub open spec fn spec_roundtrips<T: D1Encode + D1Decode>(x: T) -> bool {
    x.spec_encode() matches Some(v) ==> T::spec_decode(v) == Some(x.deep_view())
}

/// Integers round-trip: encoding succeeds exactly on the safe-integer
/// range, and every successful encoding decodes back unchanged.
pub proof fn lemma_roundtrip_i64(x: i64)
    ensures
        spec_roundtrips(x),
        is_safe_integer(x as int) ==> x.spec_encode() is Some,
{
}

/// Narrow signed integers always encode, and round-trip unchanged.
pub proof fn lemma_roundtrip_i8(x: i8)
    ensures
        spec_roundtrips(x),
        x.spec_encode() is Some,
{
}

/// Narrow signed integers always encode, and round-trip unchanged.
pub proof fn lemma_roundtrip_i16(x: i16)
    ensures
        spec_roundtrips(x),
        x.spec_encode() is Some,
{
}

/// Narrow signed integers always encode, and round-trip unchanged.
pub proof fn lemma_roundtrip_i32(x: i32)
    ensures
        spec_roundtrips(x),
        x.spec_encode() is Some,
{
}

/// Narrow unsigned integers always encode, and round-trip unchanged.
pub proof fn lemma_roundtrip_u8(x: u8)
    ensures
        spec_roundtrips(x),
        x.spec_encode() is Some,
{
}

/// Narrow unsigned integers always encode, and round-trip unchanged.
pub proof fn lemma_roundtrip_u16(x: u16)
    ensures
        spec_roundtrips(x),
        x.spec_encode() is Some,
{
}

/// Narrow unsigned integers always encode, and round-trip unchanged.
pub proof fn lemma_roundtrip_u32(x: u32)
    ensures
        spec_roundtrips(x),
        x.spec_encode() is Some,
{
}

/// Unsigned integers round-trip: encoding succeeds exactly on the
/// safe-integer range, and every successful encoding decodes back
/// unchanged.
pub proof fn lemma_roundtrip_u64(x: u64)
    ensures
        spec_roundtrips(x),
        x <= 0x1f_ffff_ffff_ffff ==> x.spec_encode() is Some,
{
}

/// Pointer-sized integers round-trip within the safe-integer range.
pub proof fn lemma_roundtrip_isize(x: isize)
    ensures
        spec_roundtrips(x),
        is_safe_integer(x as int) ==> x.spec_encode() is Some,
{
}

/// Pointer-sized unsigned integers round-trip within the safe-integer
/// range.
pub proof fn lemma_roundtrip_usize(x: usize)
    ensures
        spec_roundtrips(x),
        x <= 0x1f_ffff_ffff_ffff ==> x.spec_encode() is Some,
{
}

/// Booleans always encode, and round-trip unchanged.
pub proof fn lemma_roundtrip_bool(x: bool)
    ensures
        spec_roundtrips(x),
        x.spec_encode() is Some,
{
}

/// Strings always encode, and round-trip unchanged.
pub proof fn lemma_roundtrip_text(x: String)
    ensures
        spec_roundtrips(x),
        x.spec_encode() is Some,
{
}

/// Byte blobs always encode, and round-trip unchanged.
pub proof fn lemma_roundtrip_blob(x: Vec<u8>)
    ensures
        spec_roundtrips(x),
        x.spec_encode() is Some,
{
    assert(x.deep_view() =~= x@);
}

/// Optional values round-trip whenever the inner type round-trips and
/// never encodes to the explicit null (no encoder of this crate does).
pub proof fn lemma_roundtrip_option<T: D1Encode + D1Decode>(x: Option<T>)
    requires
        x matches Some(inner) ==> spec_roundtrips(inner) && (inner.spec_encode() matches Some(v)
            ==> !v.loose_null()),
    ensures
        spec_roundtrips(x),
{
}

} // verus!
