use helium_wallet::keypair::{Keypair, PubKeyBin};
use helium_wallet::result::{EncodingError, SigningError, ValidationError, WalletError};
use helium_wallet::traits::b16::{decode_hex, encode_hex};
use helium_wallet::traits::b58::{decode_b58, encode_b58};
use helium_wallet::traits::b64::{
    decode_b64, decode_b64_url, encode_b64, encode_b64_url, strip_spaces,
};

fn identifier(fill: u8) -> Vec<u8> {
    let mut bytes = vec![1u8];
    bytes.extend(std::iter::repeat(fill).take(32));
    bytes
}

#[test]
fn checksummed_text_round_trips_identifiers() {
    for fill in [0u8, 1, 0x7f, 0xff] {
        let key = PubKeyBin::from_vec(&identifier(fill)).unwrap();
        let text = key.to_b58();
        let back = PubKeyBin::from_b58(&text).unwrap();
        assert_eq!(back.to_vec(), identifier(fill));
        assert_eq!(back, key);
    }
}

#[test]
fn url_safe_text_round_trips_identifiers() {
    for fill in [0u8, 1, 0x7f, 0xff] {
        let text = encode_b64_url(&identifier(fill)).unwrap();
        assert_eq!(decode_b64_url(&text).unwrap(), identifier(fill));
    }
}

#[test]
fn checksummed_text_is_base58check_with_version_zero() {
    let data = identifier(0x42);
    let mut versioned = vec![0u8];
    versioned.extend_from_slice(&data);
    let expected = bs58::encode(&versioned).with_check().into_string();
    assert_eq!(encode_b58(&data).unwrap(), expected);
    assert_ne!(expected.as_bytes(), &data[..]);
}

#[test]
fn checksummed_text_with_a_changed_character_is_refused() {
    let key = PubKeyBin::from_vec(&identifier(3)).unwrap();
    let text = key.to_b58();
    let mut chars: Vec<char> = text.chars().collect();
    let last = chars.len() - 1;
    chars[last] = if chars[last] == '2' { '3' } else { '2' };
    let changed: String = chars.into_iter().collect();
    assert_eq!(
        PubKeyBin::from_b58(&changed).unwrap_err(),
        WalletError::Encoding(EncodingError::Base58)
    );
}

#[test]
fn checksummed_text_of_another_version_is_refused() {
    let text = bs58::encode(identifier(3)).with_check_version(5).into_string();
    assert_eq!(
        decode_b58(&text).unwrap_err(),
        WalletError::Encoding(EncodingError::Base58)
    );
}

#[test]
fn checksummed_text_with_characters_outside_the_alphabet_is_refused() {
    for text in ["", "0OIl", "not base58!", "héllo"] {
        assert_eq!(
            decode_b58(text).unwrap_err(),
            WalletError::Encoding(EncodingError::Base58)
        );
    }
}

#[test]
fn address_of_another_length_is_refused() {
    let text = encode_b58(&[1, 2, 3]).unwrap();
    assert_eq!(decode_b58(&text).unwrap(), vec![1, 2, 3]);
    assert_eq!(
        PubKeyBin::from_b58(&text).unwrap_err(),
        WalletError::Encoding(EncodingError::Length)
    );
    assert_eq!(
        PubKeyBin::from_vec(&[1, 2, 3]).unwrap_err(),
        WalletError::Encoding(EncodingError::Length)
    );
    assert_eq!(
        PubKeyBin::from_vec(&vec![0u8; 34]).unwrap_err(),
        WalletError::Encoding(EncodingError::Length)
    );
}

#[test]
fn empty_bytes_have_an_address_text() {
    let text = encode_b58(&[]).unwrap();
    assert_eq!(decode_b58(&text).unwrap(), Vec::<u8>::new());
}

#[test]
fn identifiers_compare_by_their_bytes() {
    let a = PubKeyBin::from_vec(&identifier(1)).unwrap();
    let b = PubKeyBin::from_vec(&identifier(1)).unwrap();
    let c = PubKeyBin::from_vec(&identifier(2)).unwrap();
    assert!(a.same(&b));
    assert!(!a.same(&c));
    assert!(a.duplicate().same(&a));
}

#[test]
fn standard_base64_of_hello() {
    assert_eq!(encode_b64(b"hello").unwrap(), "aGVsbG8=");
    assert_eq!(decode_b64("aGVsbG8=").unwrap(), b"hello".to_vec());
    assert_eq!(encode_b64(&[]).unwrap(), "");
    assert_eq!(decode_b64("").unwrap(), Vec::<u8>::new());
}

#[test]
fn url_safe_base64_has_its_own_alphabet_and_no_padding() {
    assert_eq!(encode_b64_url(b"hello").unwrap(), "aGVsbG8");
    assert_eq!(encode_b64_url(&[0xfb, 0xff]).unwrap(), "-_8");
    assert_eq!(encode_b64(&[0xfb, 0xff]).unwrap(), "+/8=");
    assert_eq!(decode_b64_url("-_8").unwrap(), vec![0xfb, 0xff]);
}

#[test]
fn malformed_base64_is_refused() {
    for text in ["a", "aGVs bG8=", "aGVsbG8*", "-_8=", "aGVsbG9="] {
        assert_eq!(
            decode_b64(text).unwrap_err(),
            WalletError::Encoding(EncodingError::Base64)
        );
    }
    for text in ["a", "+/8", "aGVsbG9"] {
        assert_eq!(
            decode_b64_url(text).unwrap_err(),
            WalletError::Encoding(EncodingError::Base64)
        );
    }
}

#[test]
fn white_space_is_taken_out() {
    assert_eq!(strip_spaces(" a b\tc\r\nd \n"), "abcd");
    assert_eq!(strip_spaces(""), "");
    assert_eq!(strip_spaces("é x"), "éx");
}

#[test]
fn hexadecimal_text_of_bytes() {
    assert_eq!(encode_hex(&[0xde, 0xad, 0xbe, 0xef, 0x00, 0x0f]), "deadbeef000f");
    assert_eq!(encode_hex(&[]), "");
    assert_eq!(decode_hex("deadBEEF").unwrap(), vec![0xde, 0xad, 0xbe, 0xef]);
    assert_eq!(decode_hex("").unwrap(), Vec::<u8>::new());
    for byte in [0u8, 9, 10, 15, 16, 0x9a, 0xff] {
        assert_eq!(decode_hex(&encode_hex(&[byte])).unwrap(), vec![byte]);
    }
}

#[test]
fn malformed_hexadecimal_text_is_refused() {
    for text in ["abc", "zz", "0x10", "12 4", "é"] {
        assert_eq!(
            decode_hex(text).unwrap_err(),
            WalletError::Encoding(EncodingError::Hex)
        );
    }
}

#[test]
fn keypair_of_a_seed_has_the_ed25519_public_key() {
    let seed = [7u8; 32];
    let keypair = Keypair::from_seed(&seed).unwrap();
    let expected = ed25519_dalek::SigningKey::from_bytes(&seed).verifying_key().to_bytes();
    let public = keypair.pubkey_bin().to_vec();
    assert_eq!(public.len(), 33);
    assert_eq!(public[0], 1);
    assert_eq!(&public[1..], &expected[..]);
    assert_ne!(&public[1..], &seed[..]);
}

#[test]
fn keypair_of_secret_bytes_checks_the_public_half() {
    let seed = [9u8; 32];
    let key = ed25519_dalek::SigningKey::from_bytes(&seed);
    let secret = key.to_keypair_bytes();
    let keypair = Keypair::from_secret(&secret).unwrap();
    assert_eq!(
        keypair.pubkey_bin().to_vec(),
        Keypair::from_seed(&seed).unwrap().pubkey_bin().to_vec()
    );
    let mut wrong = secret;
    wrong[40] ^= 1;
    let invalid = WalletError::Signing(SigningError::KeyMaterial);
    assert_eq!(Keypair::from_secret(&wrong).err(), Some(invalid));
    assert_eq!(Keypair::from_secret(&secret[..63]).err(), Some(invalid));
    assert_eq!(Keypair::from_secret(&[]).err(), Some(invalid));
    assert_eq!(Keypair::from_seed(&seed[..31]).err(), Some(invalid));
    assert_eq!(Keypair::from_seed(&secret).err(), Some(invalid));
}

#[test]
fn signature_is_the_ed25519_signature() {
    let seed = [5u8; 32];
    let keypair = Keypair::from_seed(&seed).unwrap();
    let signature = keypair.sign(b"message");
    let key = ed25519_dalek::SigningKey::from_bytes(&seed);
    let expected = ed25519_dalek::Signer::sign(&key, b"message").to_bytes();
    assert_eq!(signature, expected.to_vec());
    assert_eq!(signature.len(), 64);
    assert_ne!(keypair.sign(b"another"), signature);
}

#[test]
fn address_text_that_decodes_is_written_back_as_it_was() {
    for data in [vec![], vec![0u8], vec![0, 0, 0, 5], vec![255; 7], identifier(9)] {
        let mut versioned = vec![0u8];
        versioned.extend_from_slice(&data);
        let text = bs58::encode(&versioned).with_check().into_string();
        let decoded = decode_b58(&text).unwrap();
        assert_eq!(decoded, data);
        assert_eq!(encode_b58(&decoded).unwrap(), text);
    }
    let key = PubKeyBin::from_vec(&identifier(0)).unwrap();
    let text = key.to_b58();
    assert_eq!(PubKeyBin::from_b58(&text).unwrap().to_b58(), text);
}

#[test]
fn address_text_without_a_payload_is_refused() {
    let checksum_only = bs58::encode(Vec::<u8>::new()).with_check().into_string();
    assert_eq!(
        decode_b58(&checksum_only).unwrap_err(),
        WalletError::Encoding(EncodingError::Base58)
    );
}

#[test]
fn input_too_large_to_encode_is_refused() {
    let too_large = WalletError::Encoding(EncodingError::TooLarge);
    let bytes = vec![0u8; 0x1000_0000];
    assert_eq!(encode_b58(&bytes).unwrap_err(), too_large);
    let bytes = vec![0u8; 0x2fff_fffe];
    assert_eq!(encode_b64(&bytes).unwrap_err(), too_large);
    assert_eq!(encode_b64_url(&bytes).unwrap_err(), too_large);
}

#[test]
fn errors_have_a_message() {
    assert_eq!(WalletError::Encoding(EncodingError::Base58).message(), "invalid address");
    assert_eq!(
        WalletError::Encoding(EncodingError::UnknownKind).message(),
        "unknown transaction kind"
    );
    assert_eq!(
        WalletError::Signing(SigningError::KeyMaterial).message(),
        "invalid key material"
    );
    assert_eq!(
        WalletError::Validation(ValidationError::WrongKind).message(),
        "wrong transaction kind"
    );
    assert_eq!(
        WalletError::Validation(ValidationError::SubnetSize).message(),
        "invalid subnet size"
    );
    assert_eq!(
        WalletError::Validation(ValidationError::PayeeArgument).message(),
        "invalid KEY=value: missing `=`"
    );
    let all = [
        WalletError::Encoding(EncodingError::Base58),
        WalletError::Encoding(EncodingError::Base64),
        WalletError::Encoding(EncodingError::Hex),
        WalletError::Encoding(EncodingError::Utf8),
        WalletError::Encoding(EncodingError::Length),
        WalletError::Encoding(EncodingError::Wire),
        WalletError::Encoding(EncodingError::UnknownKind),
        WalletError::Encoding(EncodingError::TooLarge),
        WalletError::Signing(SigningError::KeyMaterial),
        WalletError::Validation(ValidationError::SubnetSize),
        WalletError::Validation(ValidationError::PayeeArgument),
        WalletError::Validation(ValidationError::Amount),
        WalletError::Validation(ValidationError::WrongKind),
        WalletError::Validation(ValidationError::Role),
        WalletError::Validation(ValidationError::Nonce),
        WalletError::Validation(ValidationError::Variable),
    ];
    for (i, a) in all.iter().enumerate() {
        for b in &all[i + 1..] {
            assert_ne!(a.message(), b.message());
        }
    }
}

#[test]
fn padded_base64_has_four_characters_for_every_three_bytes_begun() {
    for (len, expected) in [(0usize, 0usize), (1, 4), (2, 4), (3, 4), (4, 8), (33, 44), (34, 48)] {
        assert_eq!(encode_b64(&vec![7u8; len]).unwrap().len(), expected);
    }
}
