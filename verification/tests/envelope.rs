use helium_wallet::messages::envelope::{BlockchainTxn, Txn};
use helium_wallet::messages::htlc::{BlockchainTxnCreateHtlcV1, BlockchainTxnRedeemHtlcV1};
use helium_wallet::messages::oui::BlockchainTxnOuiV1;
use helium_wallet::messages::payment::{BlockchainTxnPaymentV2, Payment};
use helium_wallet::result::{EncodingError, ValidationError, WalletError};

fn payment(signature: Vec<u8>) -> BlockchainTxnPaymentV2 {
    BlockchainTxnPaymentV2 {
        payer: vec![1; 33],
        payments: vec![
            Payment { payee: vec![2; 33], amount: 100_000_000 },
            Payment { payee: vec![], amount: 0 },
            Payment { payee: vec![3; 33], amount: u64::MAX },
        ],
        fee: 0,
        nonce: 5,
        signature,
    }
}

fn create_htlc(signature: Vec<u8>) -> BlockchainTxnCreateHtlcV1 {
    BlockchainTxnCreateHtlcV1 {
        payer: vec![1; 33],
        payee: vec![2; 33],
        address: vec![3; 33],
        hashlock: vec![4; 32],
        timelock: 1000,
        amount: 7,
        fee: 0,
        signature,
        nonce: 2,
    }
}

fn redeem_htlc(signature: Vec<u8>) -> BlockchainTxnRedeemHtlcV1 {
    BlockchainTxnRedeemHtlcV1 {
        payee: vec![1; 33],
        address: vec![3; 33],
        preimage: b"secret".to_vec(),
        fee: 0,
        signature,
    }
}

fn oui(owner_signature: Vec<u8>, payer_signature: Vec<u8>) -> BlockchainTxnOuiV1 {
    BlockchainTxnOuiV1 {
        owner: vec![1; 33],
        addresses: vec![vec![5; 33], vec![], vec![6; 33]],
        filter: vec![9, 8, 7],
        requested_subnet_size: 65536,
        payer: vec![],
        staking_fee: 1,
        fee: 0,
        owner_signature,
        payer_signature,
        oui: 12,
    }
}

fn all_envelopes() -> Vec<BlockchainTxn> {
    vec![
        payment(vec![]).in_envelope(),
        payment(vec![8; 64]).in_envelope(),
        create_htlc(vec![]).in_envelope(),
        create_htlc(vec![8; 64]).in_envelope(),
        redeem_htlc(vec![]).in_envelope(),
        redeem_htlc(vec![8; 64]).in_envelope(),
        oui(vec![], vec![]).in_envelope(),
        oui(vec![8; 64], vec![]).in_envelope(),
        oui(vec![], vec![9; 64]).in_envelope(),
        oui(vec![8; 64], vec![9; 64]).in_envelope(),
    ]
}

#[test]
fn payment_bytes_follow_the_field_layout() {
    let p = Payment { payee: vec![1, 2], amount: 5 };
    assert_eq!(p.to_vec(), vec![0x0a, 0x02, 1, 2, 0x10, 0x05]);
    let txn = BlockchainTxnPaymentV2 {
        payer: vec![9],
        payments: vec![p],
        fee: 0,
        nonce: 3,
        signature: vec![0xaa, 0xbb],
    };
    assert_eq!(
        txn.to_vec(),
        vec![0x0a, 0x01, 9, 0x12, 0x06, 0x0a, 0x02, 1, 2, 0x10, 0x05, 0x20, 0x03, 0x2a, 0x02, 0xaa, 0xbb]
    );
    assert_eq!(
        txn.canonical(),
        vec![0x0a, 0x01, 9, 0x12, 0x06, 0x0a, 0x02, 1, 2, 0x10, 0x05, 0x20, 0x03]
    );
}

#[test]
fn envelope_bytes_name_the_kind() {
    let empty_redeem = BlockchainTxnRedeemHtlcV1 {
        payee: vec![],
        address: vec![],
        preimage: vec![],
        fee: 0,
        signature: vec![],
    };
    assert_eq!(empty_redeem.in_envelope().to_vec(), vec![0x5a, 0x00]);
    let txn = BlockchainTxnPaymentV2 {
        payer: vec![],
        payments: vec![],
        fee: 1,
        nonce: 0,
        signature: vec![],
    };
    assert_eq!(txn.in_envelope().to_vec(), vec![0xc2, 0x01, 0x02, 0x18, 0x01]);
}

#[test]
fn envelopes_round_trip_through_binary() {
    for envelope in all_envelopes() {
        let bytes = envelope.to_vec();
        assert_eq!(BlockchainTxn::from_vec(&bytes).unwrap(), envelope);
    }
}

#[test]
fn envelopes_round_trip_through_text() {
    for envelope in all_envelopes() {
        let text = envelope.to_b64().unwrap();
        assert_eq!(BlockchainTxn::from_b64(&text).unwrap(), envelope);
    }
}

#[test]
fn text_form_is_base64_of_the_binary_form() {
    for envelope in all_envelopes() {
        let text = envelope.to_b64().unwrap();
        assert_eq!(base64::decode(&text).unwrap(), envelope.to_vec());
    }
}

#[test]
fn text_form_is_read_with_white_space_in_it() {
    let envelope = payment(vec![8; 64]).in_envelope();
    let text = envelope.to_b64().unwrap();
    let (head, tail) = text.split_at(text.len() / 2);
    let pasted = format!("  {}\n{}\r\n\t", head, tail);
    assert_eq!(BlockchainTxn::from_b64(&pasted).unwrap(), envelope);
}

#[test]
fn text_that_is_not_base64_is_refused() {
    assert_eq!(
        BlockchainTxn::from_b64("not base64!").unwrap_err(),
        WalletError::Encoding(EncodingError::Base64)
    );
}

#[test]
fn unknown_kind_is_refused() {
    assert_eq!(
        BlockchainTxn::from_vec(&[0x0a, 0x00]).unwrap_err(),
        WalletError::Encoding(EncodingError::UnknownKind)
    );
    assert_eq!(
        BlockchainTxn::from_vec(&[0x08, 0x01]).unwrap_err(),
        WalletError::Encoding(EncodingError::UnknownKind)
    );
    let text = base64::encode([0x0a, 0x00]);
    assert_eq!(
        BlockchainTxn::from_b64(&text).unwrap_err(),
        WalletError::Encoding(EncodingError::UnknownKind)
    );
}

#[test]
fn malformed_envelopes_are_refused() {
    let wire = WalletError::Encoding(EncodingError::Wire);
    assert_eq!(BlockchainTxn::from_vec(&[]).unwrap_err(), wire);
    assert_eq!(BlockchainTxn::from_vec(&[0x5a]).unwrap_err(), wire);
    assert_eq!(BlockchainTxn::from_vec(&[0x5a, 0x05, 1]).unwrap_err(), wire);
    assert_eq!(BlockchainTxn::from_vec(&[0x58, 0x01]).unwrap_err(), wire);
    assert_eq!(BlockchainTxn::from_vec(&[0x5a, 0x00, 0x5a, 0x00]).unwrap_err(), wire);
    assert_eq!(BlockchainTxn::from_vec(&[0x5a, 0x02, 0x30, 0x01]).unwrap_err(), wire);
    assert_eq!(BlockchainTxn::from_vec(&[0x5a, 0x02, 0x08, 0x01]).unwrap_err(), wire);
}

#[test]
fn fields_in_another_order_are_read() {
    let bytes = vec![0x5a, 0x06, 0x20, 0x07, 0x0a, 0x02, 1, 2];
    let envelope = BlockchainTxn::from_vec(&bytes).unwrap();
    let expected = BlockchainTxnRedeemHtlcV1 {
        payee: vec![1, 2],
        address: vec![],
        preimage: vec![],
        fee: 7,
        signature: vec![],
    };
    assert_eq!(envelope.txn, Txn::RedeemHtlc(expected));
}

#[test]
fn subnet_size_is_read_as_32_bits() {
    let mut txn = oui(vec![], vec![]);
    txn.requested_subnet_size = u32::MAX;
    let bytes = txn.to_vec();
    assert_eq!(BlockchainTxnOuiV1::from_vec(&bytes).unwrap(), txn);
}

#[test]
fn envelope_gives_its_transaction_by_kind() {
    let wrong = WalletError::Validation(ValidationError::WrongKind);
    let envelope = oui(vec![1], vec![2]).in_envelope();
    assert_eq!(envelope.oui().unwrap(), &oui(vec![1], vec![2]));
    assert_eq!(envelope.payment_v2().unwrap_err(), wrong);
    assert_eq!(envelope.create_htlc().unwrap_err(), wrong);
    assert_eq!(envelope.redeem_htlc().unwrap_err(), wrong);
    let envelope = payment(vec![]).in_envelope();
    assert_eq!(envelope.payment_v2().unwrap(), &payment(vec![]));
    assert_eq!(envelope.oui().unwrap_err(), wrong);
    let envelope = create_htlc(vec![]).in_envelope();
    assert_eq!(envelope.create_htlc().unwrap(), &create_htlc(vec![]));
    assert_eq!(envelope.redeem_htlc().unwrap_err(), wrong);
    let envelope = redeem_htlc(vec![]).in_envelope();
    assert_eq!(envelope.redeem_htlc().unwrap(), &redeem_htlc(vec![]));
    assert_eq!(envelope.create_htlc().unwrap_err(), wrong);
}

#[test]
fn wrapping_a_transaction_keeps_it() {
    let txn = Txn::Oui(oui(vec![], vec![]));
    let envelope = txn.clone().in_envelope();
    assert_eq!(envelope.txn, txn);
    assert_eq!(payment(vec![1]).duplicate(), payment(vec![1]));
    assert_eq!(create_htlc(vec![1]).duplicate(), create_htlc(vec![1]));
    assert_eq!(redeem_htlc(vec![1]).duplicate(), redeem_htlc(vec![1]));
    assert_eq!(oui(vec![1], vec![2]).duplicate(), oui(vec![1], vec![2]));
}
