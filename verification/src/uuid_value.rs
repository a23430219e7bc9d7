//! UUID values and their blob and text codecs.
//!
//! A UUID is sixteen bytes. As a parameter it is bound either as the raw
//! byte blob, as the hyphenated text form, or as the simple (plain hex)
//! text form. Formatting and parsing of the text forms are delegated to
//! the outside UUID library; both renderings are pinned down exactly as
//! hex encodings, so the text round trips are stated byte for byte.

use vstd::prelude::*;
use vstd::string::*;

use crate::error::{D1Error, EncodeError};
use crate::offline::hex_of;
use crate::value::{HostValue, SpecValue};

verus! {

/// One UUID as its sixteen bytes.
#[derive(Debug, Clone, Copy, PartialEq, Eq)]
pub struct UuidValue {
    pub bytes: [u8; 16],
}

/// The hyphenated rendering: lowercase hex in the 8-4-4-4-12 grouping.
pub open spec fn uuid_hyphenated_of(b: Seq<u8>) -> Seq<char> {
    hex_of(b.take(4)) + seq!['-'] + hex_of(b.subrange(4, 6)) + seq!['-'] + hex_of(
        b.subrange(6, 8),
    ) + seq!['-'] + hex_of(b.subrange(8, 10)) + seq!['-'] + hex_of(b.skip(10))
}

/// What the outside UUID parser returns for a text: the encoded bytes,
/// or nothing; a pure function of the text.
pub uninterp spec fn uuid_parse_of(s: Seq<char>) -> Option<Seq<u8>>;

/// Relies on `uuid::Uuid::hyphenated` formatting: lowercase hex in the
/// 8-4-4-4-12 grouping, which `Uuid::try_parse` reads back.
#[verifier::external_body]
fn uuid_format_hyphenated(b: &[u8; 16]) -> (r: String)
    ensures
        r@ == uuid_hyphenated_of(b@),
        uuid_parse_of(r@) == Some(b@),
{
    uuid::Uuid::from_bytes(*b).hyphenated().to_string()
}

/// Relies on `uuid::Uuid::simple` formatting: the plain lowercase hex
/// encoding of the bytes, which `Uuid::try_parse` reads back.
#[verifier::external_body]
fn uuid_format_simple(b: &[u8; 16]) -> (r: String)
    ensures
        r@ == hex_of(b@),
        uuid_parse_of(r@) == Some(b@),
{
    uuid::Uuid::from_bytes(*b).simple().to_string()
}

/// Relies on `uuid::Uuid::try_parse`, which accepts the formats the
/// library itself generates (simple and hyphenated among them).
#[verifier::external_body]
fn uuid_parse(s: &str) -> (r: Option<[u8; 16]>)
    ensures
        match r {
            Some(arr) => uuid_parse_of(s@) == Some(arr@),
            None => uuid_parse_of(s@) is None,
        },
{
    match uuid::Uuid::try_parse(s) {
        Ok(u) => Some(u.into_bytes()),
        Err(_) => None,
    }
}

impl UuidValue {
    /// Encodes as the raw sixteen-byte blob.
    pub fn encode_blob(&self) -> (r: HostValue)
        ensures
            r@ == SpecValue::Bytes(self.bytes@),
    {
        let mut v: Vec<u8> = Vec::new();
        let mut i: usize = 0;
        while i < 16
            invariant
                i <= 16,
                v@.len() == i,
                forall|j: int| 0 <= j < i ==> v@[j] == self.bytes@[j],
            decreases 16 - i,
        {
            v.push(self.bytes[i]);
            i = i + 1;
        }
        proof {
            assert(v@ =~= self.bytes@);
        }
        HostValue::Bytes(v)
    }

    /// Encodes as the hyphenated text form; decoding that text yields
    /// these bytes again.
    pub fn encode_hyphenated(&self) -> (r: HostValue)
        ensures
            r@ == SpecValue::Text(uuid_hyphenated_of(self.bytes@)),
            uuid_parse_of(uuid_hyphenated_of(self.bytes@)) == Some(self.bytes@),
    {
        HostValue::Text(uuid_format_hyphenated(&self.bytes))
    }

    /// Encodes as the simple (plain hex) text form; decoding that text
    /// yields these bytes again.
    pub fn encode_simple(&self) -> (r: HostValue)
        ensures
            r@ == SpecValue::Text(hex_of(self.bytes@)),
            uuid_parse_of(hex_of(self.bytes@)) == Some(self.bytes@),
    {
        HostValue::Text(uuid_format_simple(&self.bytes))
    }

    /// Decodes from a sixteen-byte blob.
    pub fn decode_blob(v: &HostValue) -> (r: Result<UuidValue, D1Error>)
        ensures
            match v@ {
                SpecValue::Bytes(b) => if b.len() == 16 {
                    r matches Ok(u) && u.bytes@ == b
                } else {
                    r is Err
                },
                _ => r is Err,
            },
            r is Err ==> (r->Err_0 matches D1Error::Decode { expected, value }
                && expected@ == "uuid"@ && value@ == v@),
    {
        match v {
            HostValue::Bytes(b) => {
                if b.len() == 16 {
                    let mut bytes: [u8; 16] = [0; 16];
                    let mut i: usize = 0;
                    while i < 16
                        invariant
                            i <= 16,
                            b@.len() == 16,
                            forall|j: int| 0 <= j < i ==> bytes@[j] == b@[j],
                        decreases 16 - i,
                    {
                        bytes = array_set16(bytes, i, b[i]);
                        i = i + 1;
                    }
                    proof {
                        assert(bytes@ =~= b@);
                    }
                    Ok(UuidValue { bytes })
                } else {
                    Err(D1Error::Decode {
                        expected: String::from_str("uuid"),
                        value: v.duplicate(),
                    })
                }
            },
            _ => Err(D1Error::Decode { expected: String::from_str("uuid"), value: v.duplicate() }),
        }
    }

    /// Decodes from a text form through the outside parser.
    pub fn decode_text(v: &HostValue) -> (r: Result<UuidValue, D1Error>)
        ensures
            match v@ {
                SpecValue::Text(s) => match uuid_parse_of(s) {
                    Some(b) => r matches Ok(u) && u.bytes@ == b,
                    None => r is Err,
                },
                _ => r is Err,
            },
            r is Err ==> (r->Err_0 matches D1Error::Decode { expected, value }
                && expected@ == "uuid"@ && value@ == v@),
    {
        match v {
            HostValue::Text(s) => match uuid_parse(s.as_str()) {
                Some(bytes) => Ok(UuidValue { bytes }),
                None => Err(D1Error::Decode {
                    expected: String::from_str("uuid"),
                    value: v.duplicate(),
                }),
            },
            _ => Err(D1Error::Decode { expected: String::from_str("uuid"), value: v.duplicate() }),
        }
    }
}

impl View for UuidValue {
    type V = Seq<u8>;

    open spec fn view(&self) -> Seq<u8> {
        self.bytes@
    }
}

impl DeepView for UuidValue {
    type V = Seq<u8>;

    open spec fn deep_view(&self) -> Seq<u8> {
        self.bytes@
    }
}

impl crate::types::D1Encode for UuidValue {
    /// A UUID binds as its raw sixteen-byte blob; this never fails.
    open spec fn spec_encode(&self) -> Option<SpecValue> {
        Some(SpecValue::Bytes(self.bytes@))
    }

    open spec fn spec_encode_is_null(&self) -> bool {
        false
    }

    fn encode_by_ref(&self, buf: &mut Vec<HostValue>) -> (r: Result<bool, EncodeError>) {
        buf.push(self.encode_blob());
        Ok(false)
    }
}

impl crate::types::D1Decode for UuidValue {
    /// Only a sixteen-byte blob converts back to a UUID.
    open spec fn spec_decode(v: SpecValue) -> Option<Seq<u8>> {
        match v {
            SpecValue::Bytes(b) => if b.len() == 16 {
                Some(b)
            } else {
                None
            },
            _ => None,
        }
    }

    open spec fn spec_expected() -> Seq<char> {
        "uuid"@
    }

    fn decode(v: &HostValue) -> (r: Result<UuidValue, D1Error>) {
        Self::decode_blob(v)
    }
}

/// UUIDs always encode (as their byte blob), and round-trip unchanged.
pub proof fn lemma_roundtrip_uuid(u: UuidValue)
    ensures
        crate::types::spec_roundtrips(u),
        <UuidValue as crate::types::D1Encode>::spec_encode(&u) is Some,
{
    assert(u.bytes@.len() == 16);
}

/// An array copy with one element replaced.
fn array_set16(a: [u8; 16], i: usize, x: u8) -> (r: [u8; 16])
    requires
        i < 16,
    ensures
        r@ == a@.update(i as int, x),
{
    let mut out = a;
    out[i] = x;
    out
}

} // verus!
