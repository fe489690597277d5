use helium_wallet::cmd::htlc::{Create as HtlcCreate, Redeem};
use helium_wallet::cmd::oui::{valid_subnet_size, Create as OuiCreate, Submit};
use helium_wallet::cmd::pay::{Cmd as PayCmd, Payee};
use helium_wallet::cmd::{can_submit, get_payer};
use helium_wallet::hnt::Hnt;
use helium_wallet::keypair::{Keypair, PubKeyBin};
use helium_wallet::messages::envelope::BlockchainTxn;
use helium_wallet::result::{EncodingError, ValidationError, WalletError};
use helium_wallet::traits::sign::Signer;

fn keypair(fill: u8) -> Keypair {
    Keypair::from_seed(&[fill; 32]).unwrap()
}

fn address(fill: u8) -> String {
    keypair(fill).pubkey_bin().to_b58()
}

fn verifies(seed_fill: u8, message: &[u8], signature: &[u8]) -> bool {
    let key = ed25519_dalek::SigningKey::from_bytes(&[seed_fill; 32]).verifying_key();
    let mut bytes = [0u8; 64];
    bytes.copy_from_slice(signature);
    let signature = ed25519_dalek::Signature::from_bytes(&bytes);
    ed25519_dalek::Verifier::verify(&key, message, &signature).is_ok()
}

fn oui_create(payer: Option<String>, commit: bool) -> OuiCreate {
    OuiCreate {
        addresses: vec![keypair(3).pubkey_bin(), keypair(4).pubkey_bin()],
        filter: base64::encode([1u8, 2, 3, 4]),
        oui: 2,
        subnet_size: 16,
        payer,
        commit,
    }
}

#[test]
fn subnet_sizes_that_are_accepted_and_refused() {
    for size in [8u32, 16, 65536] {
        assert!(valid_subnet_size(size), "{}", size);
    }
    for size in [0u32, 7, 65537, 100] {
        assert!(!valid_subnet_size(size), "{}", size);
    }
}

#[test]
fn subnet_sizes_are_the_powers_of_two_in_range() {
    let accepted: Vec<u32> = (0..=70000u32).filter(|n| valid_subnet_size(*n)).collect();
    assert_eq!(
        accepted,
        vec![8, 16, 32, 64, 128, 256, 512, 1024, 2048, 4096, 8192, 16384, 32768, 65536]
    );
    for size in [1u32, 2, 4, 131072, 1 << 31, u32::MAX] {
        assert!(!valid_subnet_size(size));
    }
}

#[test]
fn payee_argument_is_address_and_amount() {
    let payee = Payee::from_str("abc=1.5").unwrap();
    assert_eq!(payee.address, "abc");
    assert_eq!(payee.amount, Hnt::from_bones(150_000_000));
    let payee = Payee::from_str("x=0.00000001").unwrap();
    assert_eq!(payee.address, "x");
    assert_eq!(payee.amount.to_bones(), 1);
    let payee = Payee::from_str("=2").unwrap();
    assert_eq!(payee.address, "");
    assert_eq!(payee.amount.to_bones(), 200_000_000);
}

#[test]
fn payee_argument_without_equals_sign_is_refused() {
    for text in ["", "abc", "abc 1.5"] {
        assert_eq!(
            Payee::from_str(text).unwrap_err(),
            WalletError::Validation(ValidationError::PayeeArgument)
        );
    }
}

#[test]
fn payee_argument_with_a_bad_amount_is_refused() {
    for text in ["abc=", "abc=x", "abc=1.000000000", "abc=1=2", "a=b=1"] {
        assert_eq!(
            Payee::from_str(text).unwrap_err(),
            WalletError::Validation(ValidationError::Amount),
            "{}",
            text
        );
    }
}

#[test]
fn payment_round_trips_through_the_text_form() {
    let cmd = PayCmd {
        payees: vec![Payee { address: address(2), amount: Hnt::from_bones(100_000_000) }],
        commit: false,
    };
    let done = cmd.run(&keypair(1), 4).unwrap();
    assert!(!done.submit);
    assert_eq!(done.txn.payer, keypair(1).pubkey_bin().to_vec());
    assert_eq!(done.txn.fee, 0);

    let canonical = done.txn.canonical();
    let mut unsigned = done.txn.clone();
    unsigned.signature = vec![];
    assert_eq!(canonical, unsigned.to_vec());
    assert_ne!(canonical, done.txn.to_vec());
    assert!(verifies(1, &canonical, &done.txn.signature));

    let text = done.envelope.to_b64().unwrap();
    let decoded = BlockchainTxn::from_b64(&text).unwrap();
    assert_eq!(decoded, done.envelope);
    let payment = decoded.payment_v2().unwrap();
    assert_eq!(payment.payments.len(), 1);
    assert_eq!(payment.payments[0].amount, 100_000_000);
    assert_eq!(payment.payments[0].payee, keypair(2).pubkey_bin().to_vec());
    assert_eq!(payment.nonce, 5);
    assert_eq!(payment, &done.txn);
}

#[test]
fn payment_keeps_the_order_of_its_payees() {
    let cmd = PayCmd {
        payees: vec![
            Payee { address: address(2), amount: Hnt::from_bones(1) },
            Payee { address: address(3), amount: Hnt::from_bones(2) },
            Payee { address: address(2), amount: Hnt::from_bones(3) },
        ],
        commit: true,
    };
    let done = cmd.run(&keypair(1), 0).unwrap();
    assert!(done.submit);
    assert_eq!(done.txn.nonce, 1);
    let amounts: Vec<u64> = done.txn.payments.iter().map(|p| p.amount).collect();
    assert_eq!(amounts, vec![1, 2, 3]);
    assert_eq!(done.txn.payments[1].payee, keypair(3).pubkey_bin().to_vec());
}

#[test]
fn payment_to_a_bad_address_is_refused() {
    let cmd = PayCmd {
        payees: vec![
            Payee { address: address(2), amount: Hnt::from_bones(1) },
            Payee { address: "nonsense".to_string(), amount: Hnt::from_bones(2) },
        ],
        commit: true,
    };
    assert_eq!(
        cmd.run(&keypair(1), 0).unwrap_err(),
        WalletError::Encoding(EncodingError::Base58)
    );
}

#[test]
fn payment_with_a_nonce_that_cannot_advance_is_refused() {
    let cmd = PayCmd {
        payees: vec![Payee { address: address(2), amount: Hnt::from_bones(1) }],
        commit: true,
    };
    assert_eq!(
        cmd.run(&keypair(1), u64::MAX).unwrap_err(),
        WalletError::Validation(ValidationError::Nonce)
    );
    assert_eq!(cmd.run(&keypair(1), u64::MAX - 1).unwrap().txn.nonce, u64::MAX);
}

#[test]
fn payer_resolution() {
    let staking = keypair(9).pubkey_bin();
    assert!(get_payer(staking.duplicate(), &None).unwrap().is_none());
    let key = get_payer(staking.duplicate(), &Some("staking".to_string())).unwrap().unwrap();
    assert_eq!(key, staking);
    let key = get_payer(staking.duplicate(), &Some(address(1))).unwrap().unwrap();
    assert_eq!(key, keypair(1).pubkey_bin());
    let key = get_payer(staking.duplicate(), &Some(address(9))).unwrap().unwrap();
    assert_eq!(key, staking);
    assert_eq!(
        get_payer(staking.duplicate(), &Some("Staking".to_string())).unwrap_err(),
        WalletError::Encoding(EncodingError::Base58)
    );
    assert_eq!(
        get_payer(staking.duplicate(), &Some("".to_string())).unwrap_err(),
        WalletError::Encoding(EncodingError::Base58)
    );
}

#[test]
fn wallet_submits_only_what_it_pays_for() {
    let wallet = keypair(1).pubkey_bin();
    assert!(can_submit(&None, &wallet));
    assert!(can_submit(&Some(keypair(1).pubkey_bin()), &wallet));
    assert!(!can_submit(&Some(keypair(9).pubkey_bin()), &wallet));
}

#[test]
fn allocation_paid_by_the_staking_service_carries_the_owner_signature_only() {
    let staking = keypair(9).pubkey_bin();
    for payer in ["staking".to_string(), address(9)] {
        let cmd = oui_create(Some(payer), true);
        let done = cmd.run(&keypair(1), staking.duplicate()).unwrap();
        assert!(!done.submit);
        assert_eq!(done.txn.payer, staking.to_vec());
        assert_eq!(done.txn.owner, keypair(1).pubkey_bin().to_vec());
        assert_eq!(done.txn.owner_signature.len(), 64);
        assert!(done.txn.payer_signature.is_empty());
        assert!(verifies(1, &done.txn.canonical(), &done.txn.owner_signature));
        let envelope = BlockchainTxn::from_b64(&done.envelope.to_b64().unwrap()).unwrap();
        let txn = envelope.oui().unwrap();
        assert_eq!(txn.owner_signature, done.txn.owner_signature);
        assert!(txn.payer_signature.is_empty());
    }
}

#[test]
fn allocation_paid_by_a_third_party_is_not_submitted() {
    let cmd = oui_create(Some(address(5)), true);
    let done = cmd.run(&keypair(1), keypair(9).pubkey_bin()).unwrap();
    assert!(!done.submit);
    assert_eq!(done.txn.payer, keypair(5).pubkey_bin().to_vec());
    assert!(done.txn.payer_signature.is_empty());
}

#[test]
fn allocation_without_a_payer_is_paid_by_the_wallet() {
    let done = oui_create(None, true).run(&keypair(1), keypair(9).pubkey_bin()).unwrap();
    assert!(done.submit);
    assert!(done.txn.payer.is_empty());
    assert_eq!(done.txn.owner_signature.len(), 64);
    assert!(done.txn.payer_signature.is_empty());
    let done = oui_create(None, false).run(&keypair(1), keypair(9).pubkey_bin()).unwrap();
    assert!(!done.submit);
}

#[test]
fn allocation_paid_by_the_wallet_is_signed_in_both_roles() {
    let cmd = oui_create(Some(address(1)), true);
    let done = cmd.run(&keypair(1), keypair(9).pubkey_bin()).unwrap();
    assert!(done.submit);
    assert_eq!(done.txn.payer, keypair(1).pubkey_bin().to_vec());
    assert_eq!(done.txn.owner_signature, done.txn.payer_signature);
    assert!(verifies(1, &done.txn.canonical(), &done.txn.payer_signature));
}

#[test]
fn allocation_holds_what_the_command_names() {
    let done = oui_create(None, false).run(&keypair(1), keypair(9).pubkey_bin()).unwrap();
    assert_eq!(
        done.txn.addresses,
        vec![keypair(3).pubkey_bin().to_vec(), keypair(4).pubkey_bin().to_vec()]
    );
    assert_eq!(done.txn.filter, vec![1, 2, 3, 4]);
    assert_eq!(done.txn.oui, 2);
    assert_eq!(done.txn.requested_subnet_size, 16);
    assert_eq!(done.txn.staking_fee, 1);
    assert_eq!(done.txn.fee, 0);
    assert_eq!(done.envelope.oui().unwrap(), &done.txn);
}

#[test]
fn allocation_with_bad_arguments_is_refused() {
    let staking = keypair(9).pubkey_bin();
    let mut cmd = oui_create(None, false);
    cmd.subnet_size = 100;
    assert_eq!(
        cmd.run(&keypair(1), staking.duplicate()).unwrap_err(),
        WalletError::Validation(ValidationError::SubnetSize)
    );
    let cmd = oui_create(Some("nobody".to_string()), false);
    assert_eq!(
        cmd.run(&keypair(1), staking.duplicate()).unwrap_err(),
        WalletError::Encoding(EncodingError::Base58)
    );
    let mut cmd = oui_create(None, false);
    cmd.filter = "***".to_string();
    assert_eq!(
        cmd.run(&keypair(1), staking.duplicate()).unwrap_err(),
        WalletError::Encoding(EncodingError::Base64)
    );
}

#[test]
fn co_signed_allocation_is_submitted_from_its_text() {
    let staking = keypair(9);
    let done = oui_create(Some("staking".to_string()), false)
        .run(&keypair(1), staking.pubkey_bin())
        .unwrap();
    let mut txn = done.txn.clone();
    txn.sign(&staking, Signer::Payer).unwrap();
    let text = txn.in_envelope().to_b64().unwrap();
    let submit = Submit { transaction: text, commit: true };
    let ready = submit.run().unwrap();
    assert!(ready.submit);
    assert_eq!(ready.txn, txn);
    assert_eq!(ready.envelope, txn.in_envelope());
    assert!(verifies(1, &ready.txn.canonical(), &ready.txn.owner_signature));
    assert!(verifies(9, &ready.txn.canonical(), &ready.txn.payer_signature));
}

#[test]
fn submit_refuses_what_is_no_allocation() {
    let payment = PayCmd {
        payees: vec![Payee { address: address(2), amount: Hnt::from_bones(1) }],
        commit: false,
    }
    .run(&keypair(1), 0)
    .unwrap();
    let submit = Submit { transaction: payment.envelope.to_b64().unwrap(), commit: true };
    assert_eq!(
        submit.run().unwrap_err(),
        WalletError::Validation(ValidationError::WrongKind)
    );
    let submit = Submit { transaction: "%%%".to_string(), commit: true };
    assert_eq!(submit.run().unwrap_err(), WalletError::Encoding(EncodingError::Base64));
    let submit = Submit { transaction: base64::encode([0x0a, 0x00]), commit: true };
    assert_eq!(
        submit.run().unwrap_err(),
        WalletError::Encoding(EncodingError::UnknownKind)
    );
}

#[test]
fn contract_creation_holds_what_the_command_names() {
    let cmd = HtlcCreate {
        payee: address(2),
        hnt: Hnt::from_bones(250_000_000),
        hashlock: "ab".repeat(32),
        timelock: 1234,
        commit: true,
    };
    let contract: PubKeyBin = keypair(7).pubkey_bin();
    let done = cmd.run(&keypair(1), &contract, 10).unwrap();
    assert!(done.submit);
    assert_eq!(done.txn.payer, keypair(1).pubkey_bin().to_vec());
    assert_eq!(done.txn.payee, keypair(2).pubkey_bin().to_vec());
    assert_eq!(done.txn.address, contract.to_vec());
    assert_eq!(done.txn.hashlock, vec![0xab; 32]);
    assert_eq!(done.txn.timelock, 1234);
    assert_eq!(done.txn.amount, 250_000_000);
    assert_eq!(done.txn.fee, 0);
    assert_eq!(done.txn.nonce, 11);
    assert!(verifies(1, &done.txn.canonical(), &done.txn.signature));
    assert_eq!(done.envelope.create_htlc().unwrap(), &done.txn);
}

#[test]
fn contract_creation_with_bad_arguments_is_refused() {
    let good = || HtlcCreate {
        payee: address(2),
        hnt: Hnt::from_bones(1),
        hashlock: "00ff".repeat(16),
        timelock: 1,
        commit: false,
    };
    let contract = keypair(7).pubkey_bin();
    let mut cmd = good();
    cmd.payee = "x".to_string();
    assert_eq!(
        cmd.run(&keypair(1), &contract, 0).unwrap_err(),
        WalletError::Encoding(EncodingError::Base58)
    );
    let mut cmd = good();
    cmd.hashlock = "xyz".to_string();
    assert_eq!(
        cmd.run(&keypair(1), &contract, 0).unwrap_err(),
        WalletError::Encoding(EncodingError::Hex)
    );
    assert_eq!(
        good().run(&keypair(1), &contract, u64::MAX).unwrap_err(),
        WalletError::Validation(ValidationError::Nonce)
    );
    assert_eq!(
        good().run(&keypair(1), &contract, 0).unwrap().txn.hashlock,
        [0x00u8, 0xff].repeat(16)
    );
}

#[test]
fn redeem_canonical_bytes_survive_signing() {
    let cmd = Redeem {
        address: address(7),
        preimage: "secret".to_string(),
        hash: false,
        commit: false,
    };
    let done = cmd.run(&keypair(1)).unwrap();
    assert!(!done.submit);
    assert_eq!(done.txn.payee, keypair(1).pubkey_bin().to_vec());
    assert_eq!(done.txn.address, keypair(7).pubkey_bin().to_vec());
    assert_eq!(done.txn.preimage, b"secret".to_vec());

    let mut before = done.txn.clone();
    before.signature = vec![];
    let pre_signing = before.canonical();
    let signed = done.envelope.redeem_htlc().unwrap();
    assert_eq!(signed.signature.len(), 64);
    let mut cleared = signed.clone();
    cleared.signature = vec![];
    assert_eq!(cleared.canonical(), pre_signing);
    assert_eq!(signed.canonical(), pre_signing);
    assert!(verifies(1, &pre_signing, &signed.signature));
}

#[test]
fn redeem_from_a_bad_address_is_refused() {
    let cmd = Redeem {
        address: "1".to_string(),
        preimage: "secret".to_string(),
        hash: false,
        commit: true,
    };
    assert_eq!(
        cmd.run(&keypair(1)).unwrap_err(),
        WalletError::Encoding(EncodingError::Base58)
    );
}

#[test]
fn contract_creation_with_a_hashlock_of_another_length_is_refused() {
    let contract = keypair(7).pubkey_bin();
    for hashlock in ["".to_string(), "00".to_string(), "ab".repeat(31), "ab".repeat(33)] {
        let cmd = HtlcCreate {
            payee: address(2),
            hnt: Hnt::from_bones(1),
            hashlock,
            timelock: 1,
            commit: true,
        };
        assert_eq!(
            cmd.run(&keypair(1), &contract, 0).unwrap_err(),
            WalletError::Encoding(EncodingError::Length)
        );
    }
    let cmd = HtlcCreate {
        payee: address(2),
        hnt: Hnt::from_bones(1),
        hashlock: "zz".to_string(),
        timelock: 1,
        commit: true,
    };
    assert_eq!(
        cmd.run(&keypair(1), &contract, 0).unwrap_err(),
        WalletError::Encoding(EncodingError::Hex)
    );
}

#[test]
fn commands_sign_with_64_bytes() {
    let pay = PayCmd {
        payees: vec![Payee { address: address(2), amount: Hnt::from_bones(1) }],
        commit: false,
    };
    assert_eq!(pay.run(&keypair(1), 0).unwrap().txn.signature.len(), 64);
    let create = HtlcCreate {
        payee: address(2),
        hnt: Hnt::from_bones(1),
        hashlock: "cd".repeat(32),
        timelock: 1,
        commit: false,
    };
    let done = create.run(&keypair(1), &keypair(7).pubkey_bin(), 0).unwrap();
    assert_eq!(done.txn.signature.len(), 64);
    assert_eq!(done.txn.hashlock.len(), 32);
}
