//! Base64 text: the standard padded form in which envelopes are exchanged,
//! and the URL-safe unpadded form used for opaque byte strings.

use crate::messages::envelope::{
    BlockchainTxn, envelope_decoding, envelope_encoding, lemma_envelope_round_trip, TxnView,
};
use crate::result::{EncodingError, WalletError};
use crate::text::{chars_of, string_of};
use vstd::prelude::*;
use vstd::utf8::{encode_utf8, is_ascii_chars, is_ascii_chars_encode_utf8};

verus! {

/// Longest byte string that is handed to a base64 encoder.
pub const MAX_B64_INPUT: usize = 0x2fff_fffd;

/// Longest text, in bytes, that is handed to a base64 decoder.
pub const MAX_B64_TEXT: usize = 0x3fff_ffff;

/// The error of the base64 decoder, carried through as it is.
#[verifier::external_type_specification]
#[verifier::external_body]
pub struct ExBase64DecodeError(base64::DecodeError);

/// The text that `base64::encode` gives for the bytes `data`.
pub uninterp spec fn base64_text(data: Seq<u8>) -> Seq<char>;

/// The bytes that `base64::decode` gives for `text`, or `None` where it
/// refuses the text.
pub uninterp spec fn base64_bytes(text: Seq<char>) -> Option<Seq<u8>>;

/// The text that `base64::encode_config` gives for the bytes `data` with
/// the URL-safe alphabet and no padding.
pub uninterp spec fn base64_url_text(data: Seq<u8>) -> Seq<char>;

/// The bytes that `base64::decode_config` gives for `text` with the
/// URL-safe alphabet and no padding, or `None` where it refuses the text.
pub uninterp spec fn base64_url_bytes(text: Seq<char>) -> Option<Seq<u8>>;

/// A character that a base64 encoder can write: a letter, a digit, one of
/// the two extra symbols of either alphabet, or the padding sign.
pub open spec fn is_b64_char(c: char) -> bool {
    ||| 'A' <= c <= 'Z'
    ||| 'a' <= c <= 'z'
    ||| '0' <= c <= '9'
    ||| c == '+'
    ||| c == '/'
    ||| c == '-'
    ||| c == '_'
    ||| c == '='
}

/// Every character of the text is one a base64 encoder can write.
pub open spec fn is_b64_text(text: Seq<char>) -> bool {
    forall|i: int| 0 <= i < text.len() ==> is_b64_char(#[trigger] text[i])
}

/// The length of the padded base64 text of `n` bytes: four characters for
/// every three bytes begun.
pub open spec fn b64_len(n: nat) -> nat {
    (n + 2) / 3 * 4
}

/// The length of the unpadded base64 text of `n` bytes: four characters
/// for every three bytes, and two or three for one or two bytes left over.
pub open spec fn b64_url_len(n: nat) -> nat {
    n / 3 * 4 + if n % 3 == 0 {
        0nat
    } else {
        n % 3 + 1
    }
}

/// Calls `base64::encode(data)`. The contract names the text, gives its
/// length and alphabet, and claims that `base64::decode` reads it back.
#[verifier::external_body]
fn base64_encode(data: &[u8]) -> (r: String)
    requires
        data@.len() <= MAX_B64_INPUT,
    ensures
        r@ == base64_text(data@),
        r@.len() == b64_len(data@.len()),
        is_b64_text(r@),
        base64_bytes(r@) == Some(data@),
{
    base64::encode(data)
}

/// Calls `base64::decode(text)`. The contract names the bytes.
#[verifier::external_body]
fn base64_decode(text: &str) -> (r: Result<Vec<u8>, base64::DecodeError>)
    requires
        encode_utf8(text@).len() <= MAX_B64_TEXT,
    ensures
        match r {
            Ok(data) => base64_bytes(text@) == Some(data@),
            Err(_) => base64_bytes(text@) is None,
        },
{
    base64::decode(text)
}

/// Calls `base64::encode_config(data, base64::URL_SAFE_NO_PAD)`. The
/// contract names the text, gives its length and alphabet, and
/// claims that `base64::decode_config` with the same configuration reads it
/// back.
#[verifier::external_body]
fn base64_url_encode(data: &[u8]) -> (r: String)
    requires
        data@.len() <= MAX_B64_INPUT,
    ensures
        r@ == base64_url_text(data@),
        r@.len() == b64_url_len(data@.len()),
        is_b64_text(r@),
        base64_url_bytes(r@) == Some(data@),
{
    base64::encode_config(data, base64::URL_SAFE_NO_PAD)
}

/// Calls `base64::decode_config(text, base64::URL_SAFE_NO_PAD)`. The
/// contract names the bytes.
#[verifier::external_body]
fn base64_url_decode(text: &str) -> (r: Result<Vec<u8>, base64::DecodeError>)
    requires
        encode_utf8(text@).len() <= MAX_B64_TEXT,
    ensures
        match r {
            Ok(data) => base64_url_bytes(text@) == Some(data@),
            Err(_) => base64_url_bytes(text@) is None,
        },
{
    base64::decode_config(text, base64::URL_SAFE_NO_PAD)
}

/// What decoding standard base64 text gives: the bytes, or why not.
pub open spec fn b64_decoding(text: Seq<char>) -> Result<Seq<u8>, EncodingError> {
    if encode_utf8(text).len() > MAX_B64_TEXT {
        Err(EncodingError::TooLarge)
    } else {
        match base64_bytes(text) {
            Some(data) => Ok(data),
            None => Err(EncodingError::Base64),
        }
    }
}

/// What decoding URL-safe base64 text gives: the bytes, or why not.
pub open spec fn b64_url_decoding(text: Seq<char>) -> Result<Seq<u8>, EncodingError> {
    if encode_utf8(text).len() > MAX_B64_TEXT {
        Err(EncodingError::TooLarge)
    } else {
        match base64_url_bytes(text) {
            Some(data) => Ok(data),
            None => Err(EncodingError::Base64),
        }
    }
}

/// Text that a base64 encoder wrote for bytes short enough is short
/// enough for the decoder.
proof fn lemma_b64_text_is_short(text: Seq<char>, n: nat)
    requires
        is_b64_text(text),
        text.len() <= (n + 2) / 3 * 4,
        n <= MAX_B64_INPUT,
    ensures
        encode_utf8(text).len() <= MAX_B64_TEXT,
{
    assert(is_ascii_chars(text)) by {
        assert forall|i: int| 0 <= i < text.len() implies '\0' <= #[trigger] text[i]
            <= '\u{7f}' by {
            assert(is_b64_char(text[i]));
        }
    }
    is_ascii_chars_encode_utf8(text);
}

/// Standard base64 of `data`. Fails only where `data` is too long to
/// encode. The text decodes to `data` again.
pub fn encode_b64(data: &[u8]) -> (r: Result<String, WalletError>)
    ensures
        match r {
            Ok(text) => data@.len() <= MAX_B64_INPUT && text@ == base64_text(data@)
                && text@.len() == b64_len(data@.len()) && is_b64_text(text@) && b64_decoding(
                text@,
            ) == Ok::<Seq<u8>, EncodingError>(data@),
            Err(err) => data@.len() > MAX_B64_INPUT && err == WalletError::Encoding(
                EncodingError::TooLarge,
            ),
        },
{
    if data.len() > MAX_B64_INPUT {
        return Err(WalletError::Encoding(EncodingError::TooLarge));
    }
    let text = base64_encode(data);
    proof {
        lemma_b64_text_is_short(text@, data@.len());
    }
    Ok(text)
}

/// The bytes that standard base64 text stands for.
pub fn decode_b64(text: &str) -> (r: Result<Vec<u8>, WalletError>)
    ensures
        match r {
            Ok(data) => b64_decoding(text@) == Ok::<Seq<u8>, EncodingError>(data@),
            Err(err) => b64_decoding(text@) matches Err(why) && err == WalletError::Encoding(why),
        },
{
    if text.as_bytes().len() > MAX_B64_TEXT {
        return Err(WalletError::Encoding(EncodingError::TooLarge));
    }
    match base64_decode(text) {
        Ok(data) => Ok(data),
        Err(_) => Err(WalletError::Encoding(EncodingError::Base64)),
    }
}

/// URL-safe unpadded base64 of `data`. Fails only where `data` is too long
/// to encode. The text decodes to `data` again, and is empty for no bytes
/// only.
pub fn encode_b64_url(data: &[u8]) -> (r: Result<String, WalletError>)
    ensures
        match r {
            Ok(text) => data@.len() <= MAX_B64_INPUT && text@ == base64_url_text(data@)
                && text@.len() == b64_url_len(data@.len()) && b64_url_decoding(text@) == Ok::<
                Seq<u8>,
                EncodingError,
            >(data@),
            Err(err) => data@.len() > MAX_B64_INPUT && err == WalletError::Encoding(
                EncodingError::TooLarge,
            ),
        },
{
    if data.len() > MAX_B64_INPUT {
        return Err(WalletError::Encoding(EncodingError::TooLarge));
    }
    let text = base64_url_encode(data);
    proof {
        lemma_b64_text_is_short(text@, data@.len());
    }
    Ok(text)
}

/// The bytes that URL-safe unpadded base64 text stands for.
pub fn decode_b64_url(text: &str) -> (r: Result<Vec<u8>, WalletError>)
    ensures
        match r {
            Ok(data) => b64_url_decoding(text@) == Ok::<Seq<u8>, EncodingError>(data@),
            Err(err) => b64_url_decoding(text@) matches Err(why) && err == WalletError::Encoding(
                why,
            ),
        },
{
    if text.as_bytes().len() > MAX_B64_TEXT {
        return Err(WalletError::Encoding(EncodingError::TooLarge));
    }
    match base64_url_decode(text) {
        Ok(data) => Ok(data),
        Err(_) => Err(WalletError::Encoding(EncodingError::Base64)),
    }
}

/// White space that may separate the characters of pasted text.
pub open spec fn is_space(c: char) -> bool {
    c == ' ' || c == '\n' || c == '\r' || c == '\t'
}

/// The text without its white space.
pub open spec fn without_spaces(text: Seq<char>) -> Seq<char>
    decreases text.len(),
{
    if text.len() == 0 {
        text
    } else if is_space(text.last()) {
        without_spaces(text.drop_last())
    } else {
        without_spaces(text.drop_last()).push(text.last())
    }
}

/// Text that holds no white space is unchanged by taking it out.
pub proof fn lemma_without_spaces_id(text: Seq<char>)
    requires
        forall|i: int| 0 <= i < text.len() ==> !is_space(#[trigger] text[i]),
    ensures
        without_spaces(text) == text,
    decreases text.len(),
{
    if text.len() > 0 {
        lemma_without_spaces_id(text.drop_last());
        assert(text.drop_last().push(text.last()) =~= text);
    }
}

/// A copy of the text without its white space.
pub fn strip_spaces(text: &str) -> (r: String)
    ensures
        r@ == without_spaces(text@),
{
    let chars = chars_of(text);
    let mut kept: Vec<char> = Vec::new();
    let mut i: usize = 0;
    assert(chars@.take(0) =~= Seq::<char>::empty());
    while i < chars.len()
        invariant
            i <= chars@.len(),
            kept@ == without_spaces(chars@.take(i as int)),
        decreases chars@.len() - i,
    {
        let c = chars[i];
        assert(chars@.take(i + 1).drop_last() =~= chars@.take(i as int));
        assert(chars@.take(i + 1).last() == c);
        if !(c == ' ' || c == '\n' || c == '\r' || c == '\t') {
            kept.push(c);
        }
        i += 1;
    }
    assert(chars@.take(i as int) =~= chars@);
    assert(kept@.subrange(0, kept@.len() as int) =~= kept@);
    string_of(kept.as_slice(), 0, kept.len())
}

/// The transaction that the text form of an envelope holds: standard
/// base64, white space aside, of the binary form.
pub open spec fn envelope_text_decoding(text: Seq<char>) -> Result<TxnView, EncodingError> {
    match b64_decoding(without_spaces(text)) {
        Ok(bytes) => envelope_decoding(bytes),
        Err(why) => Err(why),
    }
}

impl BlockchainTxn {
    /// The text form of the envelope: standard base64 of its binary form.
    /// Fails only where the envelope is too large to encode. The text
    /// decodes to the same envelope again, whether or not its signature
    /// slots are filled.
    pub fn to_b64(&self) -> (r: Result<String, WalletError>)
        ensures
            match r {
                Ok(text) => envelope_encoding(self@).len() <= MAX_B64_INPUT && text@
                    == base64_text(envelope_encoding(self@)) && envelope_text_decoding(text@)
                    == Ok::<TxnView, EncodingError>(self@),
                Err(err) => envelope_encoding(self@).len() > MAX_B64_INPUT && err
                    == WalletError::Encoding(EncodingError::TooLarge),
            },
    {
        let bytes = self.to_vec();
        match encode_b64(bytes.as_slice()) {
            Ok(text) => {
                proof {
                    lemma_without_spaces_id(text@);
                    lemma_envelope_round_trip(self@);
                }
                Ok(text)
            },
            Err(err) => Err(err),
        }
    }

    /// The envelope that the text form holds. White space in the text is
    /// passed over.
    pub fn from_b64(text: &str) -> (r: Result<BlockchainTxn, WalletError>)
        ensures
            match r {
                Ok(e) => envelope_text_decoding(text@) == Ok::<TxnView, EncodingError>(e@),
                Err(err) => envelope_text_decoding(text@) matches Err(why) && err
                    == WalletError::Encoding(why),
            },
    {
        let stripped = strip_spaces(text);
        match decode_b64(stripped.as_str()) {
            Ok(bytes) => BlockchainTxn::from_vec(bytes.as_slice()),
            Err(err) => Err(err),
        }
    }
}

} // verus!
