//! Typed errors returned by every fallible operation of the wallet core.

use vstd::prelude::*;
use vstd::string::StringExecFns;

verus! {

/// Malformed input to one of the codecs.
#[derive(Clone, Copy, Debug, PartialEq, Eq, Structural)]
pub enum EncodingError {
    /// The text is not checksummed base58, or its checksum or version fails.
    Base58,
    /// The text is not valid base64 of the expected alphabet.
    Base64,
    /// The text is not an even number of hexadecimal digits.
    Hex,
    /// The bytes are not valid UTF-8 text.
    Utf8,
    /// A decoded identifier does not have the expected length.
    Length,
    /// The bytes are not a well-formed message of the expected layout.
    Wire,
    /// The envelope names a transaction kind this wallet does not know.
    UnknownKind,
    /// The input is too large to be encoded on this machine.
    TooLarge,
}

/// Failures while producing a signature.
#[derive(Clone, Copy, Debug, PartialEq, Eq, Structural)]
pub enum SigningError {
    /// The key material is missing, has the wrong length, or is inconsistent.
    KeyMaterial,
}

/// Violations of a domain rule.
#[derive(Clone, Copy, Debug, PartialEq, Eq, Structural)]
pub enum ValidationError {
    /// The subnet size is not a power of two between 8 and 65536.
    SubnetSize,
    /// A payee argument is not of the form `address=amount`.
    PayeeArgument,
    /// An amount is not a decimal number with at most eight fractional digits,
    /// or does not fit the integer base unit.
    Amount,
    /// The envelope holds a transaction of another kind than the one asked for.
    WrongKind,
    /// The transaction kind has no signature slot for the requested role.
    Role,
    /// A nonce or counter cannot be advanced without overflow.
    Nonce,
    /// A ledger variable has a type other than int, float or string,
    /// or a value that does not read as its type.
    Variable,
}

/// Every error of the wallet core, by category.
#[derive(Clone, Copy, Debug, PartialEq, Eq, Structural)]
pub enum WalletError {
    Encoding(EncodingError),
    Signing(SigningError),
    Validation(ValidationError),
}

impl WalletError {
    /// What is said of the error in a report.
    pub open spec fn text(self) -> Seq<char> {
        match self {
            WalletError::Encoding(EncodingError::Base58) => "invalid address"@,
            WalletError::Encoding(EncodingError::Base64) => "invalid base64 text"@,
            WalletError::Encoding(EncodingError::Hex) => "invalid hexadecimal text"@,
            WalletError::Encoding(EncodingError::Utf8) => "invalid UTF-8 text"@,
            WalletError::Encoding(EncodingError::Length) => "invalid identifier length"@,
            WalletError::Encoding(EncodingError::Wire) => "malformed transaction"@,
            WalletError::Encoding(EncodingError::UnknownKind) => "unknown transaction kind"@,
            WalletError::Encoding(EncodingError::TooLarge) => "input too large"@,
            WalletError::Signing(SigningError::KeyMaterial) => "invalid key material"@,
            WalletError::Validation(ValidationError::SubnetSize) => "invalid subnet size"@,
            WalletError::Validation(ValidationError::PayeeArgument) => "invalid KEY=value: missing `=`"@,
            WalletError::Validation(ValidationError::Amount) => "invalid amount"@,
            WalletError::Validation(ValidationError::WrongKind) => "wrong transaction kind"@,
            WalletError::Validation(ValidationError::Role) => "invalid signer"@,
            WalletError::Validation(ValidationError::Nonce) => "nonce out of range"@,
            WalletError::Validation(ValidationError::Variable) => "Invalid variable"@,
        }
    }

    /// What is said of the error in a report.
    pub fn message(&self) -> (r: String)
        ensures
            r@ == self.text(),
    {
        match self {
            WalletError::Encoding(why) => match why {
                EncodingError::Base58 => String::from_str("invalid address"),
                EncodingError::Base64 => String::from_str("invalid base64 text"),
                EncodingError::Hex => String::from_str("invalid hexadecimal text"),
                EncodingError::Utf8 => String::from_str("invalid UTF-8 text"),
                EncodingError::Length => String::from_str("invalid identifier length"),
                EncodingError::Wire => String::from_str("malformed transaction"),
                EncodingError::UnknownKind => String::from_str("unknown transaction kind"),
                EncodingError::TooLarge => String::from_str("input too large"),
            },
            WalletError::Signing(why) => match why {
                SigningError::KeyMaterial => String::from_str("invalid key material"),
            },
            WalletError::Validation(why) => match why {
                ValidationError::SubnetSize => String::from_str("invalid subnet size"),
                ValidationError::PayeeArgument => String::from_str(
                    "invalid KEY=value: missing `=`",
                ),
                ValidationError::Amount => String::from_str("invalid amount"),
                ValidationError::WrongKind => String::from_str("wrong transaction kind"),
                ValidationError::Role => String::from_str("invalid signer"),
                ValidationError::Nonce => String::from_str("nonce out of range"),
                ValidationError::Variable => String::from_str("Invalid variable"),
            },
        }
    }

    /// What is said of the error together with the input it was found in.
    pub open spec fn text_in(self, input: Seq<char>) -> Seq<char> {
        self.text() + " in `"@ + input + "`"@
    }

    /// What is said of the error in a report that names the input it was
    /// found in.
    pub fn in_context(&self, input: &str) -> (r: String)
        ensures
            r@ == self.text_in(input@),
    {
        self.message().concat(" in `").concat(input).concat("`")
    }
}

} // verus!
