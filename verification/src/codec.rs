//! The `u64` payload codec shared by the runtime and the hosts: a value
//! travels between components as its 8 little-endian bytes.

use vstd::prelude::*;
use vstd::bytes::{spec_u64_from_le_bytes, spec_u64_to_le_bytes};
use crate::status::ChildStatus;
use crate::number::{format_u64, spec_decimal};
use vstd::string::*;

verus! {

/// Number of bytes in an encoded `u64` payload.
pub const U64_PAYLOAD_LEN: usize = 8;

/// Encodes `value` as its 8 little-endian bytes.
pub fn encode_u64(value: u64) -> (payload: Vec<u8>)
    ensures
        payload@ == spec_u64_to_le_bytes(value),
        payload@.len() == U64_PAYLOAD_LEN,
{
    vstd::bytes::u64_to_le_bytes(value)
}

/// What a payload decodes to: the little-endian value when it holds exactly
/// 8 bytes, nothing otherwise.
pub open spec fn spec_decode_u64(payload: Seq<u8>) -> Option<u64> {
    if payload.len() == U64_PAYLOAD_LEN {
        Some(spec_u64_from_le_bytes(payload))
    } else {
        None
    }
}

/// Decodes a payload received from a child task; a payload that is not
/// exactly 8 bytes long is a runtime error of the child.
pub fn decode_u64(payload: Vec<u8>) -> (result: Result<u64, ChildStatus>)
    ensures
        match spec_decode_u64(payload@) {
            Some(v) => result == Ok::<u64, ChildStatus>(v),
            None => result == Err::<u64, ChildStatus>(ChildStatus::RuntimeError),
        },
{
    if payload.len() == U64_PAYLOAD_LEN {
        Ok(vstd::bytes::u64_from_le_bytes(payload.as_slice()))
    } else {
        Err(ChildStatus::RuntimeError)
    }
}

/// Why a host could not decode a payload.
#[derive(Clone, Copy, Debug, PartialEq, Eq)]
pub enum PayloadError {
    /// The payload did not hold exactly 8 bytes; `len` is how many it held.
    WrongLength { len: usize },
}

impl PayloadError {
    /// Describes the error.
    pub fn message(&self) -> (text: String)
        ensures
            match self {
                PayloadError::WrongLength { len } => text@ == "expected an 8-byte u64 payload, got "@
                    + spec_decimal(*len as nat) + " bytes"@,
            },
    {
        match self {
            PayloadError::WrongLength { len } => {
                let mut text = String::from_str("expected an 8-byte u64 payload, got ");
                text.append(format_u64(*len as u64).as_str());
                text.append(" bytes");
                text
            },
        }
    }
}

/// Decodes a payload on the host side, reporting the length of a payload
/// that is not exactly 8 bytes long.
pub fn decode_u64_payload(payload: &[u8]) -> (result: Result<u64, PayloadError>)
    ensures
        match spec_decode_u64(payload@) {
            Some(v) => result == Ok::<u64, PayloadError>(v),
            None => result == Err::<u64, PayloadError>(
                PayloadError::WrongLength { len: payload@.len() as usize },
            ),
        },
{
    if payload.len() == U64_PAYLOAD_LEN {
        Ok(vstd::bytes::u64_from_le_bytes(payload))
    } else {
        Err(PayloadError::WrongLength { len: payload.len() })
    }
}

/// Decoding an encoded value gives the value back.
pub proof fn lemma_decode_encode(value: u64)
    ensures
        spec_decode_u64(spec_u64_to_le_bytes(value)) == Some(value),
{
    vstd::bytes::lemma_auto_spec_u64_to_from_le_bytes();
}

/// A payload that decodes is the encoding of the value it decodes to.
pub proof fn lemma_encode_decode(payload: Seq<u8>)
    requires
        spec_decode_u64(payload) is Some,
    ensures
        spec_u64_to_le_bytes(spec_decode_u64(payload)->0) == payload,
{
    vstd::bytes::lemma_auto_spec_u64_to_from_le_bytes();
    assert(spec_u64_to_le_bytes(spec_u64_from_le_bytes(payload)) == payload);
}

} // verus!
