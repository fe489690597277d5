//! Rendering of byte fields as text, for reports on transactions and
//! ledger variables.

use crate::keypair::{PUBKEY_BIN_LEN, PubKeyBin};
use crate::result::{EncodingError, ValidationError, WalletError};
use crate::text::{all_digits, chars_of, digits_value, pow10, read_digits};
use crate::traits::b58::{b58_data, b58_text, encode_b58, MAX_B58_INPUT};
use crate::traits::b64::{
    b64_url_decoding, b64_url_len, base64_url_text, encode_b64_url, MAX_B64_INPUT,
};
use vstd::prelude::*;
use vstd::string::StringExecFns;
use vstd::utf8::{decode_utf8, valid_utf8};

verus! {

/// The error of `String::from_utf8`, carried through as it is.
#[verifier::external_type_specification]
#[verifier::external_body]
pub struct ExFromUtf8Error(std::string::FromUtf8Error);

/// Calls `String::from_utf8(bytes)`: the text that the bytes spell where
/// they are valid UTF-8, an error where they are not.
#[verifier::external_body]
fn string_from_utf8(bytes: Vec<u8>) -> (r: Result<String, std::string::FromUtf8Error>)
    ensures
        match r {
            Ok(text) => valid_utf8(bytes@) && text@ == decode_utf8(bytes@),
            Err(_) => !valid_utf8(bytes@),
        },
{
    String::from_utf8(bytes)
}

/// The text that the bytes spell, or an encoding error where they are not
/// valid UTF-8.
pub fn bytes_to_string(bytes: &[u8]) -> (r: Result<String, WalletError>)
    ensures
        match r {
            Ok(text) => valid_utf8(bytes@) && text@ == decode_utf8(bytes@),
            Err(err) => !valid_utf8(bytes@) && err == WalletError::Encoding(EncodingError::Utf8),
        },
{
    match string_from_utf8(crate::wire::copy_bytes(bytes)) {
        Ok(text) => Ok(text),
        Err(_) => Err(WalletError::Encoding(EncodingError::Utf8)),
    }
}

/// The address text of a public key identifier given as bytes, or an
/// encoding error where they do not have the length of an identifier. The
/// text decodes to the bytes again.
pub fn address_text(bytes: &[u8]) -> (r: Result<String, WalletError>)
    ensures
        match r {
            Ok(text) => bytes@.len() == PUBKEY_BIN_LEN && text@ == b58_text(bytes@) && b58_data(
                text@,
            ) == Some(bytes@),
            Err(err) => bytes@.len() != PUBKEY_BIN_LEN && err == WalletError::Encoding(
                EncodingError::Length,
            ),
        },
{
    match PubKeyBin::from_vec(bytes) {
        Ok(key) => Ok(key.to_b58()),
        Err(err) => Err(err),
    }
}

/// The address text of a byte field, or nothing where the field is empty.
/// Fails only where the field is too long to encode.
pub fn maybe_b58(data: &[u8]) -> (r: Result<Option<String>, WalletError>)
    ensures
        match r {
            Ok(None) => data@.len() == 0,
            Ok(Some(text)) => 0 < data@.len() <= MAX_B58_INPUT && text@ == b58_text(data@)
                && b58_data(text@) == Some(data@),
            Err(err) => data@.len() > MAX_B58_INPUT && err == WalletError::Encoding(
                EncodingError::TooLarge,
            ),
        },
{
    if data.len() == 0 {
        Ok(None)
    } else {
        match encode_b58(data) {
            Ok(text) => Ok(Some(text)),
            Err(err) => Err(err),
        }
    }
}

/// The URL-safe base64 text of a byte field, or nothing where the field is
/// empty. Fails only where the field is too long to encode.
pub fn maybe_b64_url(data: &[u8]) -> (r: Result<Option<String>, WalletError>)
    ensures
        match r {
            Ok(None) => data@.len() == 0,
            Ok(Some(text)) => 0 < data@.len() <= MAX_B64_INPUT && text@ == base64_url_text(data@)
                && text@.len() == b64_url_len(data@.len()) && text@.len() > 0 && b64_url_decoding(
                text@,
            ) == Ok::<Seq<u8>, EncodingError>(data@),
            Err(err) => data@.len() > MAX_B64_INPUT && err == WalletError::Encoding(
                EncodingError::TooLarge,
            ),
        },
{
    if data.len() == 0 {
        Ok(None)
    } else {
        match encode_b64_url(data) {
            Ok(text) => Ok(Some(text)),
            Err(err) => Err(err),
        }
    }
}

/// The texts that a list of byte strings spell, in order. An encoding
/// error as soon as one of them is not valid UTF-8.
pub fn vec_to_strings(vec: &[Vec<u8>]) -> (r: Result<Vec<String>, WalletError>)
    ensures
        match r {
            Ok(texts) => {
                &&& texts@.len() == vec@.len()
                &&& forall|i: int| 0 <= i < vec@.len() ==> valid_utf8(#[trigger] vec@[i]@)
                &&& forall|i: int|
                    0 <= i < vec@.len() ==> (#[trigger] texts@[i])@ == decode_utf8(vec@[i]@)
            },
            Err(err) => {
                &&& err == WalletError::Encoding(EncodingError::Utf8)
                &&& exists|i: int| 0 <= i < vec@.len() && !valid_utf8(#[trigger] vec@[i]@)
            },
        },
{
    let mut texts: Vec<String> = Vec::new();
    let mut i: usize = 0;
    while i < vec.len()
        invariant
            i <= vec@.len(),
            texts@.len() == i,
            forall|j: int| 0 <= j < i ==> valid_utf8(#[trigger] vec@[j]@),
            forall|j: int| 0 <= j < i ==> (#[trigger] texts@[j])@ == decode_utf8(vec@[j]@),
        decreases vec@.len() - i,
    {
        match bytes_to_string(vec[i].as_slice()) {
            Ok(text) => {
                texts.push(text);
            },
            Err(err) => {
                assert(!valid_utf8(vec@[i as int]@));
                return Err(err);
            },
        }
        i += 1;
    }
    Ok(texts)
}

/// The address texts of a list of public key identifiers given as bytes,
/// in order, each of which decodes to its bytes again. An encoding error
/// as soon as one of them does not have the length of an identifier.
pub fn vec_to_b58s(vec: &[Vec<u8>]) -> (r: Result<Vec<String>, WalletError>)
    ensures
        match r {
            Ok(texts) => {
                &&& texts@.len() == vec@.len()
                &&& forall|i: int|
                    0 <= i < vec@.len() ==> (#[trigger] vec@[i])@.len() == PUBKEY_BIN_LEN
                &&& forall|i: int|
                    0 <= i < vec@.len() ==> (#[trigger] texts@[i])@ == b58_text(vec@[i]@)
                        && b58_data(texts@[i]@) == Some(vec@[i]@)
            },
            Err(err) => {
                &&& err == WalletError::Encoding(EncodingError::Length)
                &&& exists|i: int|
                    0 <= i < vec@.len() && (#[trigger] vec@[i])@.len() != PUBKEY_BIN_LEN
            },
        },
{
    let mut texts: Vec<String> = Vec::new();
    let mut i: usize = 0;
    while i < vec.len()
        invariant
            i <= vec@.len(),
            texts@.len() == i,
            forall|j: int| 0 <= j < i ==> (#[trigger] vec@[j])@.len() == PUBKEY_BIN_LEN,
            forall|j: int|
                0 <= j < i ==> (#[trigger] texts@[j])@ == b58_text(vec@[j]@) && b58_data(
                    texts@[j]@,
                ) == Some(vec@[j]@),
        decreases vec@.len() - i,
    {
        match address_text(vec[i].as_slice()) {
            Ok(text) => {
                texts.push(text);
            },
            Err(err) => {
                assert(vec@[i as int]@.len() != PUBKEY_BIN_LEN);
                return Err(err);
            },
        }
        i += 1;
    }
    Ok(texts)
}

/// The URL-safe base64 texts of a list of byte strings, in order: one
/// text for each, the empty text for an empty one, and each decodes to its
/// bytes again. An encoding error as soon as one of them is too long to
/// encode.
pub fn vec_to_b64_urls(vec: &[Vec<u8>]) -> (r: Result<Vec<String>, WalletError>)
    ensures
        match r {
            Ok(texts) => {
                &&& texts@.len() == vec@.len()
                &&& forall|i: int|
                    0 <= i < vec@.len() ==> (#[trigger] vec@[i])@.len() <= MAX_B64_INPUT
                &&& forall|i: int|
                    0 <= i < vec@.len() ==> (#[trigger] texts@[i])@ == base64_url_text(vec@[i]@)
                        && texts@[i]@.len() == b64_url_len(vec@[i]@.len()) && b64_url_decoding(
                        texts@[i]@,
                    ) == Ok::<Seq<u8>, EncodingError>(vec@[i]@)
            },
            Err(err) => {
                &&& err == WalletError::Encoding(EncodingError::TooLarge)
                &&& exists|i: int|
                    0 <= i < vec@.len() && (#[trigger] vec@[i])@.len() > MAX_B64_INPUT
            },
        },
{
    let mut texts: Vec<String> = Vec::new();
    let mut i: usize = 0;
    while i < vec.len()
        invariant
            i <= vec@.len(),
            texts@.len() == i,
            forall|j: int| 0 <= j < i ==> (#[trigger] vec@[j])@.len() <= MAX_B64_INPUT,
            forall|j: int|
                0 <= j < i ==> (#[trigger] texts@[j])@ == base64_url_text(vec@[j]@)
                    && texts@[j]@.len() == b64_url_len(vec@[j]@.len()) && b64_url_decoding(
                    texts@[j]@,
                ) == Ok::<Seq<u8>, EncodingError>(vec@[j]@),
        decreases vec@.len() - i,
    {
        match encode_b64_url(vec[i].as_slice()) {
            Ok(text) => {
                texts.push(text);
            },
            Err(err) => {
                assert(vec@[i as int]@.len() > MAX_B64_INPUT);
                return Err(err);
            },
        }
        i += 1;
    }
    Ok(texts)
}

/// The digits of the text of an integer: the text without its sign.
pub open spec fn unsigned_part(text: Seq<char>) -> Seq<char> {
    if text.len() > 0 && (text[0] == '-' || text[0] == '+') {
        text.skip(1)
    } else {
        text
    }
}

/// The integer that a text spells: an optional sign and one or more
/// decimal digits, within 64 bits.
pub open spec fn i64_of_text(text: Seq<char>) -> Option<i64> {
    let digits = unsigned_part(text);
    let value = digits_value(digits);
    if digits.len() == 0 || !all_digits(digits) {
        None
    } else if text[0] == '-' {
        if value <= 0x8000_0000_0000_0000 {
            Some((-value) as i64)
        } else {
            None
        }
    } else if value <= i64::MAX {
        Some(value as i64)
    } else {
        None
    }
}

/// The integer that the text spells, if it spells one.
pub fn parse_i64(text: &str) -> (r: Option<i64>)
    ensures
        r == i64_of_text(text@),
{
    let chars = chars_of(text);
    let n = chars.len();
    if n == 0 {
        return None;
    }
    let negative = chars[0] == '-';
    let from: usize = if negative || chars[0] == '+' {
        1
    } else {
        0
    };
    let ghost digits = unsigned_part(chars@);
    assert(digits =~= chars@.subrange(from as int, n as int));
    if from == n {
        return None;
    }
    assert(0 * pow10((n - from) as nat) == 0) by (nonlinear_arith);
    match read_digits(chars.as_slice(), from, n, 0) {
        None => None,
        Some(v) => {
            if negative {
                if v > 0x8000_0000_0000_0000 {
                    None
                } else if v == 0x8000_0000_0000_0000 {
                    Some(i64::MIN)
                } else {
                    Some(-(v as i64))
                }
            } else if v > i64::MAX as u64 {
                None
            } else {
                Some(v as i64)
            }
        },
    }
}

/// A variable of the ledger: its name, the name of its type, and its value
/// as the bytes of a text.
#[derive(Clone, Debug, PartialEq, Eq)]
pub struct BlockchainVarV1 {
    pub name: String,
    pub kind: String,
    pub value: Vec<u8>,
}

/// The value of a variable, read as its type.
#[derive(Clone, Debug, PartialEq, Eq)]
pub enum VarValue {
    /// An integer.
    Int(i64),
    /// A number with a fraction, as the text that spells it.
    Float(String),
    /// A text.
    Text(String),
}

/// The mathematical value of a variable's value.
pub enum VarValueView {
    Int(i64),
    Float(Seq<char>),
    Text(Seq<char>),
}

impl View for VarValue {
    type V = VarValueView;

    open spec fn view(&self) -> VarValueView {
        match self {
            VarValue::Int(v) => VarValueView::Int(*v),
            VarValue::Float(t) => VarValueView::Float(t@),
            VarValue::Text(t) => VarValueView::Text(t@),
        }
    }
}

/// The value of a variable of the given type with the given bytes: an
/// encoding error where the type is known and the bytes are no text, a
/// validation error where the type is unknown or the text is no integer
/// though the type says so.
pub open spec fn var_value(kind: Seq<char>, value: Seq<u8>) -> Result<VarValueView, WalletError> {
    if kind == "int"@ {
        if !valid_utf8(value) {
            Err(WalletError::Encoding(EncodingError::Utf8))
        } else {
            match i64_of_text(decode_utf8(value)) {
                Some(v) => Ok(VarValueView::Int(v)),
                None => Err(WalletError::Validation(ValidationError::Variable)),
            }
        }
    } else if kind == "float"@ {
        if !valid_utf8(value) {
            Err(WalletError::Encoding(EncodingError::Utf8))
        } else {
            Ok(VarValueView::Float(decode_utf8(value)))
        }
    } else if kind == "string"@ {
        if !valid_utf8(value) {
            Err(WalletError::Encoding(EncodingError::Utf8))
        } else {
            Ok(VarValueView::Text(decode_utf8(value)))
        }
    } else {
        Err(WalletError::Validation(ValidationError::Variable))
    }
}

impl BlockchainVarV1 {
    /// What is said of an error found in this variable: the text of the
    /// error and the name of the variable.
    pub fn error_text(&self, err: &WalletError) -> (r: String)
        ensures
            r@ == err.text_in(self.name@),
    {
        err.in_context(self.name.as_str())
    }

    /// The value of the variable, read as its type.
    pub fn to_value(&self) -> (r: Result<VarValue, WalletError>)
        ensures
            match r {
                Ok(v) => var_value(self.kind@, self.value@) == Ok::<VarValueView, WalletError>(v@),
                Err(err) => var_value(self.kind@, self.value@) == Err::<VarValueView, WalletError>(
                    err,
                ),
            },
    {
        let is_int = self.kind == String::from_str("int");
        let is_float = self.kind == String::from_str("float");
        let is_text = self.kind == String::from_str("string");
        if !is_int && !is_float && !is_text {
            return Err(WalletError::Validation(ValidationError::Variable));
        }
        let text = match bytes_to_string(self.value.as_slice()) {
            Ok(text) => text,
            Err(err) => {
                return Err(err);
            },
        };
        if is_int {
            match parse_i64(text.as_str()) {
                Some(v) => Ok(VarValue::Int(v)),
                None => Err(WalletError::Validation(ValidationError::Variable)),
            }
        } else if is_float {
            Ok(VarValue::Float(text))
        } else {
            Ok(VarValue::Text(text))
        }
    }
}

/// A JSON value, as far as reports on the ledger need one.
pub enum Json {
    /// An integer.
    Int(i64),
    /// A number with a fraction, as the text that spells it.
    Float(String),
    /// A text.
    Text(String),
    /// A list of values.
    List(Vec<Json>),
    /// An object: names and their values, in order.
    Object(Vec<(String, Json)>),
}

/// The mathematical value of a JSON value.
pub enum JsonView {
    Int(i64),
    Float(Seq<char>),
    Text(Seq<char>),
    List(Seq<JsonView>),
    Object(Seq<(Seq<char>, JsonView)>),
}

/// The mathematical value of a JSON value: that of its parts, in order.
pub open spec fn json_view(j: Json) -> JsonView
    decreases j,
{
    match j {
        Json::Int(v) => JsonView::Int(v),
        Json::Float(t) => JsonView::Float(t@),
        Json::Text(t) => JsonView::Text(t@),
        Json::List(items) => JsonView::List(
            Seq::new(
                items@.len(),
                |i: int|
                    if 0 <= i < items@.len() {
                        json_view(items@[i])
                    } else {
                        JsonView::Int(0)
                    },
            ),
        ),
        Json::Object(entries) => JsonView::Object(
            Seq::new(
                entries@.len(),
                |i: int|
                    if 0 <= i < entries@.len() {
                        (entries@[i].0@, json_view(entries@[i].1))
                    } else {
                        (Seq::empty(), JsonView::Int(0))
                    },
            ),
        ),
    }
}

impl View for Json {
    type V = JsonView;

    open spec fn view(&self) -> JsonView {
        json_view(*self)
    }
}

/// The views of a list of JSON values, in order.
pub open spec fn jsons_view(items: Seq<Json>) -> Seq<JsonView> {
    Seq::new(items.len(), |i: int| items[i]@)
}

/// What can be rendered as a JSON value.
pub trait ToJson {
    /// The JSON value, or why there is none.
    spec fn json(&self) -> Result<JsonView, WalletError>;

    /// Renders the value.
    fn to_json(&self) -> (r: Result<Json, WalletError>)
        ensures
            match r {
                Ok(j) => self.json() == Ok::<JsonView, WalletError>(j@),
                Err(err) => self.json() == Err::<JsonView, WalletError>(err),
            },
    ;
}

/// The JSON values of a list of entries, in order, or the reason why the
/// first entry that has none has none.
pub open spec fn entries_json<T: ToJson>(entries: Seq<T>) -> Result<Seq<JsonView>, WalletError>
    decreases entries.len(),
{
    if entries.len() == 0 {
        Ok(Seq::empty())
    } else {
        match entries_json(entries.drop_last()) {
            Err(why) => Err(why),
            Ok(values) => match entries.last().json() {
                Ok(value) => Ok(values.push(value)),
                Err(why) => Err(why),
            },
        }
    }
}

/// Where the first `i` entries have JSON values and the next has none,
/// the list has none, for the reason that this entry has none.
proof fn lemma_entries_json_fail<T: ToJson>(entries: Seq<T>, i: int)
    requires
        0 <= i < entries.len(),
        entries_json(entries.take(i)) is Ok,
        entries[i].json() is Err,
    ensures
        entries_json(entries) == Err::<Seq<JsonView>, WalletError>(entries[i].json()->Err_0),
    decreases entries.len(),
{
    if i == entries.len() - 1 {
        assert(entries.drop_last() =~= entries.take(i));
    } else {
        assert(entries.drop_last().take(i) =~= entries.take(i));
        lemma_entries_json_fail(entries.drop_last(), i);
    }
}

impl<T: ToJson> ToJson for Vec<T> {
    open spec fn json(&self) -> Result<JsonView, WalletError> {
        match entries_json(self@) {
            Ok(values) => Ok(JsonView::List(values)),
            Err(why) => Err(why),
        }
    }

    /// The list of the JSON values of the entries, in order; the error of
    /// the first entry that cannot be rendered, where there is one.
    fn to_json(&self) -> (r: Result<Json, WalletError>) {
        let mut seq: Vec<Json> = Vec::new();
        let mut i: usize = 0;
        assert(self@.take(0) =~= Seq::<T>::empty());
        assert(jsons_view(seq@) =~= Seq::<JsonView>::empty());
        while i < self.len()
            invariant
                i <= self@.len(),
                entries_json(self@.take(i as int)) == Ok::<Seq<JsonView>, WalletError>(
                    jsons_view(seq@),
                ),
            decreases self@.len() - i,
        {
            let ghost before = jsons_view(seq@);
            let ghost head = self@.take(i + 1);
            assert(head.drop_last() =~= self@.take(i as int));
            assert(head.last() == self@[i as int]);
            match self[i].to_json() {
                Ok(value) => {
                    seq.push(value);
                    assert(jsons_view(seq@) =~= before.push(value@));
                },
                Err(err) => {
                    proof {
                        lemma_entries_json_fail(self@, i as int);
                    }
                    return Err(err);
                },
            }
            i += 1;
        }
        assert(self@.take(i as int) =~= self@);
        let list = Json::List(seq);
        assert(list@->List_0 =~= jsons_view(seq@));
        Ok(list)
    }
}

impl VarValueView {
    /// The JSON value of the value of a variable.
    pub open spec fn json(self) -> JsonView {
        match self {
            VarValueView::Int(v) => JsonView::Int(v),
            VarValueView::Float(t) => JsonView::Float(t),
            VarValueView::Text(t) => JsonView::Text(t),
        }
    }
}

impl ToJson for BlockchainVarV1 {
    open spec fn json(&self) -> Result<JsonView, WalletError> {
        match var_value(self.kind@, self.value@) {
            Ok(value) => Ok(
                JsonView::Object(
                    seq![("name"@, JsonView::Text(self.name@)), ("value"@, value.json())],
                ),
            ),
            Err(why) => Err(why),
        }
    }

    /// An object of the name of the variable and its value, read as its
    /// type.
    fn to_json(&self) -> (r: Result<Json, WalletError>) {
        let value = match self.to_value() {
            Ok(VarValue::Int(v)) => Json::Int(v),
            Ok(VarValue::Float(t)) => Json::Float(t),
            Ok(VarValue::Text(t)) => Json::Text(t),
            Err(err) => {
                return Err(err);
            },
        };
        let mut entries: Vec<(String, Json)> = Vec::new();
        entries.push((String::from_str("name"), Json::Text(self.name.clone())));
        entries.push((String::from_str("value"), value));
        let object = Json::Object(entries);
        reveal_with_fuel(json_view, 2);
        assert(entries@[0].1@ == JsonView::Text(self.name@));
        assert(entries@[1].1@ == value@);
        assert(object@->Object_0 =~= seq![
            ("name"@, JsonView::Text(self.name@)),
            ("value"@, value@),
        ]);
        Ok(object)
    }
}

} // verus!
