//! Public key identifiers and the keypair that signs for one of them.

use crate::result::{EncodingError, SigningError, WalletError};
use crate::traits::b58::{b58_data, b58_text, decode_b58, encode_b58_short};
use crate::wire::{append_bytes, copy_bytes, slice_bytes};
use vstd::prelude::*;

verus! {

/// Length of a public key identifier: a key type and a 32-byte public key.
pub const PUBKEY_BIN_LEN: usize = 33;

/// Length of the seed a keypair is made from.
pub const SEED_LEN: usize = 32;

/// Length of a public key.
pub const PUBLIC_KEY_LEN: usize = 32;

/// Length of a signature.
pub const SIGNATURE_LEN: usize = 64;

/// Key type of an Ed25519 public key.
pub const KEYTYPE_ED25519: u8 = 1;

/// The public key that `ed25519_dalek::SigningKey::from_bytes(seed)
/// .verifying_key()` holds, for a seed of 32 bytes.
pub uninterp spec fn ed25519_public(seed: Seq<u8>) -> Seq<u8>;

/// The signature that `ed25519_dalek::SigningKey::from_bytes(seed)
/// .sign(message)` gives, for a seed of 32 bytes. Ed25519 signatures are a
/// function of the key and the message alone.
pub uninterp spec fn ed25519_signature(seed: Seq<u8>, message: Seq<u8>) -> Seq<u8>;

/// Makes the signing key of `seed` with `SigningKey::from_bytes` and
/// returns the bytes of its `verifying_key()`. The contract names the key
/// and gives its length.
#[verifier::external_body]
fn derive_public(seed: &[u8]) -> (r: Vec<u8>)
    requires
        seed@.len() == SEED_LEN,
    ensures
        r@ == ed25519_public(seed@),
        r@.len() == PUBLIC_KEY_LEN,
{
    let mut secret = [0u8; 32];
    secret.copy_from_slice(seed);
    ed25519_dalek::SigningKey::from_bytes(&secret).verifying_key().to_bytes().to_vec()
}

/// Makes the signing key of `seed` with `SigningKey::from_bytes` and
/// returns the bytes of its signature over `message`. The contract names
/// the signature and gives its length.
#[verifier::external_body]
fn sign_detached(seed: &[u8], message: &[u8]) -> (r: Vec<u8>)
    requires
        seed@.len() == SEED_LEN,
    ensures
        r@ == ed25519_signature(seed@, message@),
        r@.len() == SIGNATURE_LEN,
{
    let mut secret = [0u8; 32];
    secret.copy_from_slice(seed);
    let key = ed25519_dalek::SigningKey::from_bytes(&secret);
    ed25519_dalek::Signer::sign(&key, message).to_bytes().to_vec()
}

/// Whether two byte strings are equal.
pub fn bytes_equal(a: &[u8], b: &[u8]) -> (r: bool)
    ensures
        r == (a@ == b@),
{
    if a.len() != b.len() {
        return false;
    }
    let mut i: usize = 0;
    while i < a.len()
        invariant
            a@.len() == b@.len(),
            i <= a@.len(),
            a@.take(i as int) == b@.take(i as int),
        decreases a@.len() - i,
    {
        if a[i] != b[i] {
            assert(a@[i as int] != b@[i as int]);
            return false;
        }
        i += 1;
        assert(a@.take(i as int) =~= a@.take(i - 1).push(a@[i - 1]));
        assert(b@.take(i as int) =~= b@.take(i - 1).push(b@[i - 1]));
    }
    assert(a@.take(i as int) =~= a@);
    assert(b@.take(i as int) =~= b@);
    true
}

/// A public key identifier: a key type followed by a public key, 33 bytes
/// in all.
#[derive(Debug, PartialEq, Eq)]
pub struct PubKeyBin {
    bytes: Vec<u8>,
}

impl View for PubKeyBin {
    type V = Seq<u8>;

    closed spec fn view(&self) -> Seq<u8> {
        self.bytes@
    }
}

/// The identifier that an address text stands for: the bytes it decodes
/// to, if they have the length of an identifier.
pub open spec fn pubkey_from_b58(text: Seq<char>) -> Result<Seq<u8>, EncodingError> {
    match b58_data(text) {
        Some(data) => if data.len() == PUBKEY_BIN_LEN {
            Ok(data)
        } else {
            Err(EncodingError::Length)
        },
        None => Err(EncodingError::Base58),
    }
}

impl PubKeyBin {
    #[verifier::type_invariant]
    spec fn inv(self) -> bool {
        self.bytes@.len() == PUBKEY_BIN_LEN
    }

    /// The identifier made of the given bytes, or an encoding error where
    /// they do not have the length of an identifier.
    pub fn from_vec(data: &[u8]) -> (r: Result<PubKeyBin, WalletError>)
        ensures
            match r {
                Ok(key) => data@.len() == PUBKEY_BIN_LEN && key@ == data@,
                Err(err) => data@.len() != PUBKEY_BIN_LEN && err == WalletError::Encoding(
                    EncodingError::Length,
                ),
            },
    {
        if data.len() != PUBKEY_BIN_LEN {
            return Err(WalletError::Encoding(EncodingError::Length));
        }
        Ok(PubKeyBin { bytes: copy_bytes(data) })
    }

    /// The bytes of the identifier.
    pub fn to_vec(&self) -> (r: Vec<u8>)
        ensures
            r@ == self@,
            r@.len() == PUBKEY_BIN_LEN,
    {
        proof {
            use_type_invariant(self);
        }
        copy_bytes(self.bytes.as_slice())
    }

    /// A copy of the identifier.
    pub fn duplicate(&self) -> (r: PubKeyBin)
        ensures
            r@ == self@,
    {
        proof {
            use_type_invariant(self);
        }
        PubKeyBin { bytes: copy_bytes(self.bytes.as_slice()) }
    }

    /// Whether the two identifiers are the same.
    pub fn same(&self, other: &PubKeyBin) -> (r: bool)
        ensures
            r == (self@ == other@),
    {
        bytes_equal(self.bytes.as_slice(), other.bytes.as_slice())
    }

    /// The address text of the identifier. It decodes to the identifier
    /// again.
    pub fn to_b58(&self) -> (r: String)
        ensures
            r@ == b58_text(self@),
            pubkey_from_b58(r@) == Ok::<Seq<u8>, EncodingError>(self@),
    {
        proof {
            use_type_invariant(self);
        }
        encode_b58_short(self.bytes.as_slice())
    }

    /// The identifier that the address text stands for, or an encoding
    /// error where the text is malformed, its checksum or version fails, or
    /// it decodes to another length than an identifier's. The identifier is
    /// written as `text` again.
    pub fn from_b58(text: &str) -> (r: Result<PubKeyBin, WalletError>)
        ensures
            match r {
                Ok(key) => pubkey_from_b58(text@) == Ok::<Seq<u8>, EncodingError>(key@)
                    && b58_text(key@) == text@,
                Err(err) => pubkey_from_b58(text@) matches Err(why) && err == WalletError::Encoding(
                    why,
                ),
            },
    {
        match decode_b58(text) {
            Ok(data) => PubKeyBin::from_vec(data.as_slice()),
            Err(err) => Err(err),
        }
    }
}

/// A seed and the identifier of the public key that belongs to it.
pub struct Keypair {
    public: PubKeyBin,
    seed: Vec<u8>,
}

/// The identifier of the Ed25519 public key of `seed`.
pub open spec fn pubkey_of_seed(seed: Seq<u8>) -> Seq<u8> {
    seq![KEYTYPE_ED25519] + ed25519_public(seed)
}

impl Keypair {
    #[verifier::type_invariant]
    spec fn inv(self) -> bool {
        &&& self.seed@.len() == SEED_LEN
        &&& self.public@ == pubkey_of_seed(self.seed@)
    }

    /// The seed of the keypair.
    pub closed spec fn seed(&self) -> Seq<u8> {
        self.seed@
    }

    /// The identifier of the public key.
    pub closed spec fn public(&self) -> Seq<u8> {
        self.public@
    }

    /// The keypair of a seed, or a signing error where the seed does not
    /// have 32 bytes.
    pub fn from_seed(seed: &[u8]) -> (r: Result<Keypair, WalletError>)
        ensures
            match r {
                Ok(keypair) => seed@.len() == SEED_LEN && keypair.seed() == seed@
                    && keypair.public() == pubkey_of_seed(seed@),
                Err(err) => seed@.len() != SEED_LEN && err == WalletError::Signing(
                    SigningError::KeyMaterial,
                ),
            },
    {
        if seed.len() != SEED_LEN {
            return Err(WalletError::Signing(SigningError::KeyMaterial));
        }
        let key = derive_public(seed);
        let mut bytes: Vec<u8> = Vec::new();
        bytes.push(KEYTYPE_ED25519);
        append_bytes(&mut bytes, key.as_slice());
        assert(bytes@ =~= pubkey_of_seed(seed@));
        let public = PubKeyBin { bytes };
        Ok(Keypair { public, seed: copy_bytes(seed) })
    }

    /// The keypair of 64 secret bytes: a seed followed by its public key.
    /// A signing error where there are not 64 bytes or the public key is
    /// not the seed's.
    pub fn from_secret(secret: &[u8]) -> (r: Result<Keypair, WalletError>)
        ensures
            match r {
                Ok(keypair) => secret@.len() == SEED_LEN + PUBLIC_KEY_LEN && keypair.seed()
                    == secret@.subrange(0, SEED_LEN as int) && keypair.public() == pubkey_of_seed(
                    keypair.seed(),
                ) && secret@.subrange(SEED_LEN as int, secret@.len() as int) == ed25519_public(
                    keypair.seed(),
                ),
                Err(err) => (secret@.len() != SEED_LEN + PUBLIC_KEY_LEN || secret@.subrange(
                    SEED_LEN as int,
                    secret@.len() as int,
                ) != ed25519_public(secret@.subrange(0, SEED_LEN as int))) && err
                    == WalletError::Signing(SigningError::KeyMaterial),
            },
    {
        if secret.len() != SEED_LEN + PUBLIC_KEY_LEN {
            return Err(WalletError::Signing(SigningError::KeyMaterial));
        }
        let seed = slice_bytes(secret, 0, SEED_LEN);
        let claimed = slice_bytes(secret, SEED_LEN, SEED_LEN + PUBLIC_KEY_LEN);
        let key = derive_public(seed.as_slice());
        if !bytes_equal(key.as_slice(), claimed.as_slice()) {
            return Err(WalletError::Signing(SigningError::KeyMaterial));
        }
        let mut bytes: Vec<u8> = Vec::new();
        bytes.push(KEYTYPE_ED25519);
        append_bytes(&mut bytes, key.as_slice());
        assert(bytes@ =~= pubkey_of_seed(seed@));
        let public = PubKeyBin { bytes };
        Ok(Keypair { public, seed })
    }

    /// The identifier of the public key.
    pub fn pubkey_bin(&self) -> (r: PubKeyBin)
        ensures
            r@ == self.public(),
            r@ == pubkey_of_seed(self.seed()),
    {
        proof {
            use_type_invariant(self);
        }
        self.public.duplicate()
    }

    /// The signature of the keypair over `message`: 64 bytes.
    pub fn sign(&self, message: &[u8]) -> (r: Vec<u8>)
        ensures
            r@ == ed25519_signature(self.seed(), message@),
            r@.len() == SIGNATURE_LEN,
    {
        proof {
            use_type_invariant(self);
        }
        sign_detached(self.seed.as_slice(), message)
    }
}

} // verus!
