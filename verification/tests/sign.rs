use helium_wallet::keypair::Keypair;
use helium_wallet::messages::envelope::Txn;
use helium_wallet::messages::htlc::{BlockchainTxnCreateHtlcV1, BlockchainTxnRedeemHtlcV1};
use helium_wallet::messages::oui::BlockchainTxnOuiV1;
use helium_wallet::messages::payment::{BlockchainTxnPaymentV2, Payment};
use helium_wallet::result::{ValidationError, WalletError};
use helium_wallet::traits::sign::Signer;

fn keypair(fill: u8) -> Keypair {
    Keypair::from_seed(&[fill; 32]).unwrap()
}

fn verifies(seed_fill: u8, message: &[u8], signature: &[u8]) -> bool {
    let key = ed25519_dalek::SigningKey::from_bytes(&[seed_fill; 32]).verifying_key();
    let mut bytes = [0u8; 64];
    bytes.copy_from_slice(signature);
    let signature = ed25519_dalek::Signature::from_bytes(&bytes);
    ed25519_dalek::Verifier::verify(&key, message, &signature).is_ok()
}

fn payment() -> BlockchainTxnPaymentV2 {
    BlockchainTxnPaymentV2 {
        payer: keypair(1).pubkey_bin().to_vec(),
        payments: vec![Payment { payee: keypair(2).pubkey_bin().to_vec(), amount: 100_000_000 }],
        fee: 0,
        nonce: 5,
        signature: vec![],
    }
}

fn oui() -> BlockchainTxnOuiV1 {
    BlockchainTxnOuiV1 {
        owner: keypair(1).pubkey_bin().to_vec(),
        addresses: vec![keypair(3).pubkey_bin().to_vec()],
        filter: vec![1, 2, 3],
        requested_subnet_size: 8,
        payer: keypair(2).pubkey_bin().to_vec(),
        staking_fee: 1,
        fee: 0,
        owner_signature: vec![],
        payer_signature: vec![],
        oui: 1,
    }
}

fn redeem() -> BlockchainTxnRedeemHtlcV1 {
    BlockchainTxnRedeemHtlcV1 {
        payee: keypair(1).pubkey_bin().to_vec(),
        address: keypair(4).pubkey_bin().to_vec(),
        preimage: b"secret".to_vec(),
        fee: 0,
        signature: vec![],
    }
}

fn create() -> BlockchainTxnCreateHtlcV1 {
    BlockchainTxnCreateHtlcV1 {
        payer: keypair(1).pubkey_bin().to_vec(),
        payee: keypair(2).pubkey_bin().to_vec(),
        address: keypair(4).pubkey_bin().to_vec(),
        hashlock: vec![0xab; 32],
        timelock: 100,
        amount: 10,
        fee: 0,
        signature: vec![],
        nonce: 1,
    }
}

#[test]
fn canonical_bytes_do_not_depend_on_the_signature_slots() {
    let clean = payment();
    let mut garbage = payment();
    garbage.signature = vec![0xff; 100];
    assert_eq!(garbage.canonical(), clean.canonical());
    assert_ne!(garbage.to_vec(), clean.to_vec());

    let clean = oui();
    let mut garbage = oui();
    garbage.owner_signature = vec![1, 2, 3];
    garbage.payer_signature = vec![0; 64];
    assert_eq!(garbage.canonical(), clean.canonical());

    let clean = create();
    let mut garbage = create();
    garbage.signature = vec![7];
    assert_eq!(garbage.canonical(), clean.canonical());

    let clean = redeem();
    let mut garbage = redeem();
    garbage.signature = vec![7; 64];
    assert_eq!(garbage.canonical(), clean.canonical());
    assert_eq!(Txn::RedeemHtlc(garbage).canonical(), clean.canonical());
}

#[test]
fn canonical_bytes_are_the_bytes_of_the_unsigned_transaction() {
    assert_eq!(payment().canonical(), payment().to_vec());
    assert_eq!(oui().canonical(), oui().to_vec());
    assert_eq!(create().canonical(), create().to_vec());
    assert_eq!(redeem().canonical(), redeem().to_vec());
}

#[test]
fn canonical_bytes_depend_on_every_other_field() {
    let base = payment().canonical();
    let mut t = payment();
    t.nonce = 6;
    assert_ne!(t.canonical(), base);
    let mut t = payment();
    t.fee = 1;
    assert_ne!(t.canonical(), base);
    let mut t = payment();
    t.payments[0].amount = 1;
    assert_ne!(t.canonical(), base);
    let mut t = payment();
    t.payer[5] ^= 1;
    assert_ne!(t.canonical(), base);
}

#[test]
fn owner_signature_covers_the_canonical_bytes() {
    let mut txn = payment();
    txn.signature = vec![3; 10];
    let message = txn.canonical();
    txn.sign(&keypair(1), Signer::Owner).unwrap();
    assert_eq!(txn.signature.len(), 64);
    assert!(verifies(1, &message, &txn.signature));
    assert!(!verifies(2, &message, &txn.signature));
    assert_eq!(txn.canonical(), message);
}

#[test]
fn signing_in_either_order_gives_the_same_allocation() {
    let mut owner_first = oui();
    owner_first.sign(&keypair(1), Signer::Owner).unwrap();
    owner_first.sign(&keypair(2), Signer::Payer).unwrap();
    let mut payer_first = oui();
    payer_first.sign(&keypair(2), Signer::Payer).unwrap();
    payer_first.sign(&keypair(1), Signer::Owner).unwrap();
    assert_eq!(owner_first, payer_first);
    assert_ne!(owner_first.owner_signature, owner_first.payer_signature);
    let message = oui().canonical();
    assert!(verifies(1, &message, &owner_first.owner_signature));
    assert!(verifies(2, &message, &owner_first.payer_signature));
}

#[test]
fn signing_one_role_leaves_the_other_slot_alone() {
    let mut txn = oui();
    txn.payer_signature = vec![1, 2, 3];
    txn.sign(&keypair(1), Signer::Owner).unwrap();
    assert_eq!(txn.payer_signature, vec![1, 2, 3]);
    assert_eq!(txn.owner_signature.len(), 64);
}

#[test]
fn single_signer_kinds_have_no_payer_role() {
    let role = WalletError::Validation(ValidationError::Role);
    let mut txn = payment();
    assert_eq!(txn.sign(&keypair(1), Signer::Payer).unwrap_err(), role);
    assert_eq!(txn, payment());
    let mut txn = create();
    assert_eq!(txn.sign(&keypair(1), Signer::Payer).unwrap_err(), role);
    assert_eq!(txn, create());
    let mut txn = redeem();
    assert_eq!(txn.sign(&keypair(1), Signer::Payer).unwrap_err(), role);
    assert_eq!(txn, redeem());
    let mut txn = Txn::PaymentV2(payment());
    assert_eq!(txn.sign(&keypair(1), Signer::Payer).unwrap_err(), role);
    assert_eq!(txn, Txn::PaymentV2(payment()));
}

#[test]
fn signing_through_the_kind_signs_the_transaction() {
    let mut direct = create();
    direct.sign(&keypair(1), Signer::Owner).unwrap();
    let mut by_kind = Txn::CreateHtlc(create());
    by_kind.sign(&keypair(1), Signer::Owner).unwrap();
    assert_eq!(by_kind, Txn::CreateHtlc(direct));
    let mut by_kind = Txn::Oui(oui());
    by_kind.sign(&keypair(2), Signer::Payer).unwrap();
    let mut direct = oui();
    direct.sign(&keypair(2), Signer::Payer).unwrap();
    assert_eq!(by_kind, Txn::Oui(direct));
}

#[test]
fn redeem_signed_canonical_bytes_match_the_bytes_before_signing() {
    let mut txn = redeem();
    let before = txn.canonical();
    txn.sign(&keypair(1), Signer::Owner).unwrap();
    let envelope = txn.in_envelope();
    let mut cleared = envelope.redeem_htlc().unwrap().clone();
    cleared.signature = vec![];
    assert_eq!(cleared.canonical(), before);
    assert_eq!(cleared.to_vec(), before);
    assert_eq!(envelope.txn.canonical(), before);
    assert_eq!(txn.preimage, b"secret".to_vec());
}
