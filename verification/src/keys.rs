//! The binary key codec for ordered byte-comparison stores.
//!
//! An identifier encodes as one discriminant byte — `0x00` for `Coin`,
//! `0x01` for `Token` — followed by the payload's raw UTF-8 bytes, with no
//! length prefix and no terminator. A store can group and range-scan on the
//! discriminant prefix; splitting composite keys back into components is the
//! store's own segmentation convention, since the payload carries no length.
//!
//! The discriminant's numeric order (`Coin` = 0 below `Token` = 1) is the
//! opposite of the value order (`Token` sorts below `Coin`); both are fixed
//! by keys already written under this layout.

use vstd::prelude::*;
use vstd::slice::slice_subrange;
use vstd::slice::slice_to_vec;
use vstd::string::StrSliceExecFns;
use vstd::string::StringExecFns;
use vstd::utf8::decode_utf8;
use vstd::utf8::encode_utf8;
use vstd::utf8::encode_utf8_decode_utf8;
use vstd::utf8::encode_utf8_valid_utf8;
use vstd::utf8::valid_utf8;

use crate::Fungible;
use crate::FungibleAbs;

verus! {

/// Why a byte sequence failed to decode as an identifier.
#[derive(Debug, Clone, Copy, PartialEq, Eq, Structural)]
pub enum BinaryDecodeError {
    /// The input was empty, so no discriminant byte was available.
    Empty,
    /// The discriminant byte was neither 0 nor 1.
    InvalidDiscriminant,
    /// The payload bytes were not valid UTF-8.
    InvalidPayload,
}

impl BinaryDecodeError {
    /// The type the decode was attempting, carried for diagnostics.
    pub fn target_type(&self) -> (r: String)
        ensures
            r@ == "Fungible"@,
    {
        String::from_str("Fungible")
    }

    /// A diagnostic message naming the failure.
    pub fn message(&self) -> (r: String)
        ensures
            r@ == match *self {
                BinaryDecodeError::Empty => "Missing type byte"@,
                BinaryDecodeError::InvalidDiscriminant => "Invalid type byte"@,
                BinaryDecodeError::InvalidPayload => "Invalid UTF-8 payload"@,
            },
    {
        match self {
            BinaryDecodeError::Empty => String::from_str("Missing type byte"),
            BinaryDecodeError::InvalidDiscriminant => String::from_str("Invalid type byte"),
            BinaryDecodeError::InvalidPayload => String::from_str("Invalid UTF-8 payload"),
        }
    }
}

/// The discriminant byte of each variant in the binary encoding.
pub open spec fn discriminant_abs(v: FungibleAbs) -> u8 {
    match v {
        FungibleAbs::Coin(_) => 0,
        FungibleAbs::Token(_) => 1,
    }
}

/// The payload's raw UTF-8 bytes.
pub open spec fn payload_bytes_abs(v: FungibleAbs) -> Seq<u8> {
    match v {
        FungibleAbs::Coin(name) => encode_utf8(name),
        FungibleAbs::Token(address) => encode_utf8(address),
    }
}

/// The full binary key: the discriminant byte, then the payload bytes.
pub open spec fn encode_abs(v: FungibleAbs) -> Seq<u8> {
    seq![discriminant_abs(v)] + payload_bytes_abs(v)
}

/// The inverse of `encode_abs`, where one exists.
pub open spec fn decode_abs(bytes: Seq<u8>) -> Option<FungibleAbs> {
    if bytes.len() == 0 {
        None
    } else if bytes[0] == 0 && valid_utf8(bytes.skip(1)) {
        Some(FungibleAbs::Coin(decode_utf8(bytes.skip(1))))
    } else if bytes[0] == 1 && valid_utf8(bytes.skip(1)) {
        Some(FungibleAbs::Token(decode_utf8(bytes.skip(1))))
    } else {
        None
    }
}

/// The error reported on each byte sequence that does not decode.
pub open spec fn decode_error_abs(bytes: Seq<u8>) -> BinaryDecodeError {
    if bytes.len() == 0 {
        BinaryDecodeError::Empty
    } else if bytes[0] != 0 && bytes[0] != 1 {
        BinaryDecodeError::InvalidDiscriminant
    } else {
        BinaryDecodeError::InvalidPayload
    }
}

/// Relies on `String::from_utf8`: it succeeds exactly on valid UTF-8 input,
/// and then returns the string whose characters are the decoding of the
/// input bytes.
#[verifier::external_body]
fn string_from_utf8(bytes: Vec<u8>) -> (r: Option<String>)
    ensures
        r is Some <==> valid_utf8(bytes@),
        r matches Some(s) ==> s@ == decode_utf8(bytes@),
{
    String::from_utf8(bytes).ok()
}

impl Fungible {
    /// The one-byte discriminant prefix a store groups on: `0x00` for
    /// `Coin`, `0x01` for `Token`.
    pub fn prefix(&self) -> (r: Vec<u8>)
        ensures
            r@ == seq![discriminant_abs(self@)],
    {
        let mut r: Vec<u8> = Vec::new();
        match self {
            Fungible::Coin(_) => r.push(0u8),
            Fungible::Token(_) => r.push(1u8),
        }
        proof {
            assert(r@ =~= seq![discriminant_abs(self@)]);
        }
        r
    }

    /// The payload's raw UTF-8 bytes, with no length prefix and no
    /// terminator.
    pub fn key(&self) -> (r: Vec<u8>)
        ensures
            r@ == payload_bytes_abs(self@),
    {
        match self {
            Fungible::Coin(name) => name.as_str().as_bytes_vec(),
            Fungible::Token(address) => address.as_str().as_bytes_vec(),
        }
    }

    /// The full binary key: the discriminant byte, then the payload bytes.
    pub fn encode(&self) -> (r: Vec<u8>)
        ensures
            r@ == encode_abs(self@),
    {
        let mut r = self.prefix();
        let mut payload = self.key();
        r.append(&mut payload);
        proof {
            assert(r@ =~= encode_abs(self@));
        }
        r
    }

    /// Decode a binary key. Exactly the well-formed byte sequences — a
    /// recognized discriminant followed by valid UTF-8 — decode
    /// successfully; everything else is rejected with the error that
    /// `decode_error_abs` names.
    pub fn from_vec(value: Vec<u8>) -> (r: Result<Fungible, BinaryDecodeError>)
        ensures
            (r matches Ok(f)) <==> decode_abs(value@) is Some,
            r matches Ok(f) ==> Some(f@) == decode_abs(value@),
            r matches Err(e) ==> e == decode_error_abs(value@),
    {
        if value.len() == 0 {
            return Err(BinaryDecodeError::Empty);
        }
        let disc = value[0];
        if disc > 1 {
            return Err(BinaryDecodeError::InvalidDiscriminant);
        }
        let payload_bytes = slice_to_vec(slice_subrange(value.as_slice(), 1, value.len()));
        proof {
            assert(payload_bytes@ =~= value@.skip(1));
        }
        match string_from_utf8(payload_bytes) {
            Some(payload) => {
                if disc == 0 {
                    Ok(Fungible::Coin(payload))
                } else {
                    Ok(Fungible::Token(payload))
                }
            },
            None => Err(BinaryDecodeError::InvalidPayload),
        }
    }
}

/// Binary round trip: decoding an encoded identifier gives it back, for
/// both variants and any payload.
pub proof fn lemma_binary_round_trip(v: FungibleAbs)
    ensures
        decode_abs(encode_abs(v)) == Some(v),
{
    let payload = match v {
        FungibleAbs::Coin(p) => p,
        FungibleAbs::Token(p) => p,
    };
    assert(encode_abs(v).skip(1) =~= encode_utf8(payload));
    encode_utf8_valid_utf8(payload);
    encode_utf8_decode_utf8(payload);
}

/// Discriminant prefixes for range scans: every `Coin` key begins with byte
/// 0, every `Token` key with byte 1, so a scan over one discriminant prefix
/// retrieves exactly the matching variant.
pub proof fn lemma_discriminant_prefix(v: FungibleAbs)
    ensures
        encode_abs(v).len() >= 1,
        v is Coin <==> encode_abs(v)[0] == 0,
        v is Token <==> encode_abs(v)[0] == 1,
{
}

} // verus!
