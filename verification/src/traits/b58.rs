//! The checksummed base58 text form of addresses.
//!
//! An address is written as base58 of a version byte of zero, the bytes, and
//! a four-byte checksum over both.

use crate::result::{EncodingError, WalletError};
use vstd::prelude::*;

verus! {

/// Version byte in front of every address.
pub const ADDRESS_VERSION: u8 = 0;

/// Longest byte string that is handed to the base58 encoder.
pub const MAX_B58_INPUT: usize = 0x0fff_ffff;

/// The error of the base58 decoder, carried through as it is.
#[verifier::external_type_specification]
#[verifier::external_body]
pub struct ExBs58DecodeError(bs58::decode::Error);

/// The text that `bs58::encode(..).with_check().into_string()` gives for
/// the bytes `data`.
pub uninterp spec fn b58check_text(data: Seq<u8>) -> Seq<char>;

/// The bytes that `bs58::decode(..).with_check(Some(0)).into_vec()` gives
/// for `text`: the checked payload, version byte included, or `None` where
/// the text is not base58, its checksum fails, or its version is not zero.
pub uninterp spec fn b58check_payload(text: Seq<char>) -> Option<Seq<u8>>;

/// Calls `bs58::encode(data).with_check().into_string()`. The contract
/// names the text, and claims that the decoder of this crate reads back
/// what the encoder wrote whenever the bytes start with the version byte
/// that the decoder asks for.
#[verifier::external_body]
fn b58check_encode(data: &[u8]) -> (r: String)
    requires
        data@.len() <= MAX_B58_INPUT + 1,
    ensures
        r@ == b58check_text(data@),
        data@.len() > 0 && data@[0] == ADDRESS_VERSION ==> b58check_payload(r@) == Some(data@),
{
    bs58::encode(data).with_check().into_string()
}

/// Calls `bs58::decode(text).with_check(Some(0)).into_vec()`. The contract
/// names the payload, and claims of a payload that is not empty that it
/// starts with the version byte asked for and that the encoder of this
/// crate writes it as the very text that was read.
#[verifier::external_body]
fn b58check_decode(text: &str) -> (r: Result<Vec<u8>, bs58::decode::Error>)
    ensures
        match r {
            Ok(payload) => b58check_payload(text@) == Some(payload@) && (payload@.len() > 0
                ==> payload@[0] == ADDRESS_VERSION && b58check_text(payload@) == text@),
            Err(_) => b58check_payload(text@) is None,
        },
{
    bs58::decode(text).with_check(Some(ADDRESS_VERSION)).into_vec()
}

/// The address text of the bytes `data`.
pub open spec fn b58_text(data: Seq<u8>) -> Seq<char> {
    b58check_text(seq![ADDRESS_VERSION] + data)
}

/// The bytes that the address text `text` stands for, if it is one.
pub open spec fn b58_data(text: Seq<char>) -> Option<Seq<u8>> {
    match b58check_payload(text) {
        Some(payload) => if payload.len() >= 1 {
            Some(payload.skip(1))
        } else {
            None
        },
        None => None,
    }
}

/// The address text of `data`, for data short enough to encode. The text
/// decodes to `data` again.
pub fn encode_b58_short(data: &[u8]) -> (r: String)
    requires
        data@.len() <= MAX_B58_INPUT,
    ensures
        r@ == b58_text(data@),
        b58_data(r@) == Some(data@),
{
    let mut versioned: Vec<u8> = Vec::new();
    versioned.push(ADDRESS_VERSION);
    crate::wire::append_bytes(&mut versioned, data);
    assert(versioned@ =~= seq![ADDRESS_VERSION] + data@);
    assert(versioned@.skip(1) =~= data@);
    b58check_encode(versioned.as_slice())
}

/// The address text of `data`. Fails only where `data` is too long to
/// encode. The text decodes to `data` again.
pub fn encode_b58(data: &[u8]) -> (r: Result<String, WalletError>)
    ensures
        match r {
            Ok(text) => data@.len() <= MAX_B58_INPUT && text@ == b58_text(data@) && b58_data(text@)
                == Some(data@),
            Err(err) => data@.len() > MAX_B58_INPUT && err == WalletError::Encoding(
                EncodingError::TooLarge,
            ),
        },
{
    if data.len() > MAX_B58_INPUT {
        return Err(WalletError::Encoding(EncodingError::TooLarge));
    }
    Ok(encode_b58_short(data))
}

/// The bytes of the address text `text`, or an encoding error where the
/// text is malformed, its checksum fails or its version is not zero. The
/// bytes are written as `text` again.
pub fn decode_b58(text: &str) -> (r: Result<Vec<u8>, WalletError>)
    ensures
        match r {
            Ok(data) => b58_data(text@) == Some(data@) && b58_text(data@) == text@,
            Err(err) => b58_data(text@) is None && err == WalletError::Encoding(EncodingError::Base58),
        },
{
    match b58check_decode(text) {
        Ok(payload) => {
            if payload.len() >= 1 {
                assert(seq![ADDRESS_VERSION] + payload@.skip(1) =~= payload@);
                assert(payload@.subrange(1, payload@.len() as int) =~= payload@.skip(1));
                Ok(crate::wire::slice_bytes(payload.as_slice(), 1, payload.len()))
            } else {
                Err(WalletError::Encoding(EncodingError::Base58))
            }
        },
        Err(_) => Err(WalletError::Encoding(EncodingError::Base58)),
    }
}

} // verus!
