//! Hexadecimal text, used for the hashlock of a timelock contract.

use crate::result::{EncodingError, WalletError};
use vstd::prelude::*;

verus! {

/// The error of the hexadecimal decoder, carried through as it is.
#[verifier::external_type_specification]
#[verifier::external_body]
pub struct ExFromHexError(hex::FromHexError);

/// The lower-case hexadecimal digit for a value below sixteen.
pub open spec fn hex_digit(n: int) -> char {
    if n < 10 {
        (n + 48) as char
    } else {
        (n + 87) as char
    }
}

/// The value of a hexadecimal digit of either case.
pub open spec fn hex_value(c: char) -> Option<int> {
    if '0' <= c <= '9' {
        Some(c as int - 48)
    } else if 'a' <= c <= 'f' {
        Some(c as int - 87)
    } else if 'A' <= c <= 'F' {
        Some(c as int - 55)
    } else {
        None
    }
}

/// The hexadecimal text of the bytes: two lower-case digits each, high
/// digit first.
pub open spec fn hex_text(data: Seq<u8>) -> Seq<char> {
    Seq::new(
        2 * data.len(),
        |i: int|
            if i % 2 == 0 {
                hex_digit(data[i / 2] as int / 16)
            } else {
                hex_digit(data[i / 2] as int % 16)
            },
    )
}

/// The text is an even number of hexadecimal digits.
pub open spec fn is_hex_text(text: Seq<char>) -> bool {
    &&& text.len() % 2 == 0
    &&& forall|i: int| 0 <= i < text.len() ==> hex_value(#[trigger] text[i]) is Some
}

/// The bytes that hexadecimal text stands for, if it is such text.
pub open spec fn hex_bytes(text: Seq<char>) -> Option<Seq<u8>> {
    if is_hex_text(text) {
        Some(
            Seq::new(
                text.len() / 2,
                |i: int|
                    (16 * hex_value(text[2 * i]).unwrap() + hex_value(text[2 * i + 1]).unwrap()) as u8,
            ),
        )
    } else {
        None
    }
}

/// Hexadecimal text of bytes reads back as the bytes.
pub proof fn lemma_hex_round_trip(data: Seq<u8>)
    ensures
        hex_bytes(hex_text(data)) == Some(data),
{
    let text = hex_text(data);
    assert forall|i: int| 0 <= i < text.len() implies hex_value(#[trigger] text[i]) is Some by {
        let b = data[i / 2] as int;
        assert(0 <= b / 16 < 16 && 0 <= b % 16 < 16);
    }
    assert(is_hex_text(text));
    let back = hex_bytes(text).unwrap();
    assert forall|i: int| 0 <= i < data.len() implies back[i] == data[i] by {
        let b = data[i] as int;
        assert(0 <= b / 16 < 16 && 0 <= b % 16 < 16);
        assert((2 * i) / 2 == i && (2 * i + 1) / 2 == i);
        assert((2 * i) % 2 == 0 && (2 * i + 1) % 2 == 1);
        assert(hex_value(text[2 * i]) == Some(b / 16));
        assert(hex_value(text[2 * i + 1]) == Some(b % 16));
    }
    assert(back =~= data);
}

/// Calls `hex::encode(data)`: two lower-case digits for each byte.
#[verifier::external_body]
fn hex_encode(data: &[u8]) -> (r: String)
    ensures
        r@ == hex_text(data@),
{
    hex::encode(data)
}

/// Calls `hex::decode(text)`: the bytes of an even number of digits of
/// either case, an error for anything else.
#[verifier::external_body]
fn hex_decode(text: &str) -> (r: Result<Vec<u8>, hex::FromHexError>)
    ensures
        match r {
            Ok(data) => hex_bytes(text@) == Some(data@),
            Err(_) => hex_bytes(text@) is None,
        },
{
    hex::decode(text)
}

/// The hexadecimal text of `data`. It decodes to `data` again.
pub fn encode_hex(data: &[u8]) -> (r: String)
    ensures
        r@ == hex_text(data@),
        hex_bytes(r@) == Some(data@),
{
    proof {
        lemma_hex_round_trip(data@);
    }
    hex_encode(data)
}

/// The bytes that hexadecimal text stands for, or an encoding error where
/// the text has an odd length or holds anything but hexadecimal digits.
pub fn decode_hex(text: &str) -> (r: Result<Vec<u8>, WalletError>)
    ensures
        match r {
            Ok(data) => hex_bytes(text@) == Some(data@),
            Err(err) => hex_bytes(text@) is None && err == WalletError::Encoding(
                EncodingError::Hex,
            ),
        },
{
    match hex_decode(text) {
        Ok(data) => Ok(data),
        Err(_) => Err(WalletError::Encoding(EncodingError::Hex)),
    }
}

} // verus!
