use helium_wallet::cmd::balance::{json_rows, table_rows, Account, Balance, Lookup, Row};
use helium_wallet::cmd::htlc::{print_create_txn, print_redeem_txn, Create, Redeem};
use helium_wallet::cmd::oui::{print_txn as print_oui_txn, Create as OuiCreate};
use helium_wallet::cmd::pay::{print_txn as print_payment_txn, Cmd, Payee};
use helium_wallet::hnt::Hnt;
use helium_wallet::keypair::Keypair;
use helium_wallet::result::{EncodingError, ValidationError, WalletError};
use helium_wallet::traits::json::{BlockchainVarV1, Json, ToJson, VarValue};

fn keypair(fill: u8) -> Keypair {
    Keypair::from_seed(&[fill; 32]).unwrap()
}

fn address(fill: u8) -> String {
    keypair(fill).pubkey_bin().to_b58()
}

#[test]
fn payment_report_lists_the_payees() {
    let cmd = Cmd {
        payees: vec![
            Payee { address: address(2), amount: Hnt::from_bones(100_000_000) },
            Payee { address: address(3), amount: Hnt::from_bones(5) },
        ],
        commit: false,
    };
    let done = cmd.run(&keypair(1), 4).unwrap();
    let report = print_payment_txn(&done.txn, &done.envelope, &None).unwrap();
    assert_eq!(report.payments.len(), 2);
    assert_eq!(report.payments[0].payee, address(2));
    assert_eq!(report.payments[0].amount.to_text(), "1.00000000");
    assert_eq!(report.payments[1].payee, address(3));
    assert_eq!(report.payments[1].amount.to_bones(), 5);
    assert_eq!(report.nonce, 5);
    assert_eq!(report.hash, None);
    assert_eq!(report.txn, done.envelope.to_b64().unwrap());
    let report =
        print_payment_txn(&done.txn, &done.envelope, &Some("abc".to_string())).unwrap();
    assert_eq!(report.hash, Some("abc".to_string()));
}

#[test]
fn payment_report_refuses_a_payee_that_is_no_identifier() {
    let cmd = Cmd {
        payees: vec![Payee { address: address(2), amount: Hnt::from_bones(1) }],
        commit: false,
    };
    let done = cmd.run(&keypair(1), 4).unwrap();
    let mut txn = done.txn.clone();
    txn.payments[0].payee = vec![1, 2, 3];
    assert_eq!(
        print_payment_txn(&txn, &done.envelope, &None).unwrap_err(),
        WalletError::Encoding(EncodingError::Length)
    );
}

#[test]
fn contract_reports_hold_the_fields_as_text() {
    let cmd = Create {
        payee: address(2),
        hnt: Hnt::from_bones(250_000_000),
        hashlock: "AB".repeat(32),
        timelock: 1234,
        commit: true,
    };
    let done = cmd.run(&keypair(1), &keypair(7).pubkey_bin(), 10).unwrap();
    let report = print_create_txn(&done.txn, &done.envelope, &Some("h".to_string())).unwrap();
    assert_eq!(report.address, address(7));
    assert_eq!(report.payee, address(2));
    assert_eq!(report.amount, 250_000_000);
    assert_eq!(report.hashlock, "ab".repeat(32));
    assert_eq!(report.timelock, 1234);
    assert_eq!(report.nonce, 11);
    assert_eq!(report.hash, Some("h".to_string()));
    assert_eq!(report.txn, done.envelope.to_b64().unwrap());

    let cmd = Redeem {
        address: address(7),
        preimage: "sécret".to_string(),
        hash: true,
        commit: false,
    };
    let done = cmd.run(&keypair(1)).unwrap();
    let report = print_redeem_txn(&done.txn, &done.envelope, &None).unwrap();
    assert_eq!(report.payee, address(1));
    assert_eq!(report.address, address(7));
    assert_eq!(report.preimage, Some("sécret".to_string()));
    assert_eq!(report.hash, None);
    assert_eq!(report.txn, done.envelope.to_b64().unwrap());

    let mut txn = done.txn.clone();
    txn.preimage = vec![0xff];
    let report = print_redeem_txn(&txn, &done.envelope, &None).unwrap();
    assert_eq!(report.preimage, None);
    assert_eq!(report.payee, address(1));
    assert_eq!(report.address, address(7));
    assert_eq!(report.txn, done.envelope.to_b64().unwrap());
    let mut txn = done.txn.clone();
    txn.address = vec![];
    assert_eq!(
        print_redeem_txn(&txn, &done.envelope, &None).unwrap_err(),
        WalletError::Encoding(EncodingError::Length)
    );
}

#[test]
fn allocation_report_names_routers_and_payer() {
    let cmd = OuiCreate {
        addresses: vec![keypair(3).pubkey_bin(), keypair(4).pubkey_bin()],
        filter: "".to_string(),
        oui: 1,
        subnet_size: 8,
        payer: None,
        commit: false,
    };
    let done = cmd.run(&keypair(1), keypair(9).pubkey_bin()).unwrap();
    let report = print_oui_txn(&done.txn, &done.envelope, &None).unwrap();
    assert_eq!(report.requested_subnet_size, 8);
    assert_eq!(report.addresses, vec![address(3), address(4)]);
    assert_eq!(report.payer, None);
    assert_eq!(report.txn, done.envelope.to_b64().unwrap());

    let cmd = OuiCreate { payer: Some("staking".to_string()), ..cmd };
    let done = cmd.run(&keypair(1), keypair(9).pubkey_bin()).unwrap();
    let report = print_oui_txn(&done.txn, &done.envelope, &None).unwrap();
    assert_eq!(report.payer, Some(address(9)));

    let mut txn = done.txn.clone();
    txn.payer = vec![1];
    assert_eq!(
        print_oui_txn(&txn, &done.envelope, &None).unwrap_err(),
        WalletError::Encoding(EncodingError::Length)
    );
}

fn lookups() -> Vec<(String, Lookup)> {
    vec![
        (
            "a".to_string(),
            Lookup::Found(Account { balance: 150_000_000, dc_balance: 2, sec_balance: 3 }),
        ),
        ("b".to_string(), Lookup::Failed("no such account".to_string())),
        ("c".to_string(), Lookup::Found(Account { balance: 0, dc_balance: 0, sec_balance: 0 })),
    ]
}

#[test]
fn balance_table_has_a_line_for_every_address() {
    assert_eq!(
        table_rows(&lookups()),
        vec![
            Row::Account(Balance {
                address: "a".to_string(),
                balance: "1.50000000".to_string(),
                dc_balance: 2,
                sec_balance: 3,
            }),
            Row::Failure { address: "b".to_string(), reason: "no such account".to_string() },
            Row::Account(Balance {
                address: "c".to_string(),
                balance: "0.00000000".to_string(),
                dc_balance: 0,
                sec_balance: 0,
            }),
        ]
    );
    assert_eq!(table_rows(&vec![]), vec![]);
}

#[test]
fn balance_report_for_machines_leaves_failures_out() {
    let rows = json_rows(&lookups());
    assert_eq!(rows.len(), 2);
    assert_eq!(rows[0].address, "a");
    assert_eq!(rows[0].balance, "1.50000000");
    assert_eq!(rows[1].address, "c");
    assert_eq!(json_rows(&vec![]), vec![]);
}

fn var(kind: &str, value: &[u8]) -> BlockchainVarV1 {
    BlockchainVarV1 { name: "n".to_string(), kind: kind.to_string(), value: value.to_vec() }
}

#[test]
fn variables_are_read_as_their_type() {
    assert_eq!(var("int", b"42").to_value().unwrap(), VarValue::Int(42));
    assert_eq!(var("int", b"-7").to_value().unwrap(), VarValue::Int(-7));
    assert_eq!(
        var("float", b"1.5").to_value().unwrap(),
        VarValue::Float("1.5".to_string())
    );
    assert_eq!(
        var("string", b"hello").to_value().unwrap(),
        VarValue::Text("hello".to_string())
    );
    assert_eq!(var("string", b"42").to_value().unwrap(), VarValue::Text("42".to_string()));
}

#[test]
fn variables_that_do_not_read_are_refused() {
    let invalid = WalletError::Validation(ValidationError::Variable);
    assert_eq!(var("int", b"4x").to_value().unwrap_err(), invalid);
    assert_eq!(var("int", b"").to_value().unwrap_err(), invalid);
    assert_eq!(var("int", b"99999999999999999999").to_value().unwrap_err(), invalid);
    assert_eq!(var("atom", b"x").to_value().unwrap_err(), invalid);
    assert_eq!(var("", b"x").to_value().unwrap_err(), invalid);
    assert_eq!(var("atom", &[0xff]).to_value().unwrap_err(), invalid);
    let utf8 = WalletError::Encoding(EncodingError::Utf8);
    assert_eq!(var("int", &[0xff]).to_value().unwrap_err(), utf8);
    assert_eq!(var("float", &[0xff]).to_value().unwrap_err(), utf8);
    assert_eq!(var("string", &[0xc3]).to_value().unwrap_err(), utf8);
}

fn written(json: &Json) -> String {
    match json {
        Json::Int(v) => format!("{}", v),
        Json::Float(t) => format!("{}", t),
        Json::Text(t) => format!("{:?}", t),
        Json::List(items) => {
            let parts: Vec<String> = items.iter().map(written).collect();
            format!("[{}]", parts.join(","))
        }
        Json::Object(entries) => {
            let parts: Vec<String> =
                entries.iter().map(|(k, v)| format!("{:?}:{}", k, written(v))).collect();
            format!("{{{}}}", parts.join(","))
        }
    }
}

#[test]
fn variable_is_rendered_as_name_and_value() {
    let json = var("int", b"42").to_json().unwrap();
    assert_eq!(written(&json), r#"{"name":"n","value":42}"#);
    let json = var("float", b"1.5").to_json().unwrap();
    assert_eq!(written(&json), r#"{"name":"n","value":1.5}"#);
    let json = var("string", b"x y").to_json().unwrap();
    assert_eq!(written(&json), r#"{"name":"n","value":"x y"}"#);
}

#[test]
fn list_is_rendered_entry_by_entry() {
    let list = vec![var("int", b"1"), var("string", b"a"), var("int", b"-3")];
    let json = list.to_json().unwrap();
    assert_eq!(
        written(&json),
        r#"[{"name":"n","value":1},{"name":"n","value":"a"},{"name":"n","value":-3}]"#
    );
    let empty: Vec<BlockchainVarV1> = vec![];
    assert_eq!(written(&empty.to_json().unwrap()), "[]");
    let nested = vec![vec![var("int", b"1")], vec![]];
    assert_eq!(written(&nested.to_json().unwrap()), r#"[[{"name":"n","value":1}],[]]"#);
}

#[test]
fn list_with_an_entry_that_does_not_render_is_refused() {
    let list = vec![var("int", b"1"), var("atom", b"a"), var("int", &[0xff])];
    assert_eq!(
        list.to_json().err(),
        Some(WalletError::Validation(ValidationError::Variable))
    );
    let list = vec![var("int", &[0xff]), var("atom", b"a")];
    assert_eq!(list.to_json().err(), Some(WalletError::Encoding(EncodingError::Utf8)));
    assert_eq!(
        var("bool", b"true").to_json().err(),
        Some(WalletError::Validation(ValidationError::Variable))
    );
}

#[test]
fn reported_envelope_text_reads_back_to_the_envelope() {
    let cmd = Cmd {
        payees: vec![Payee { address: address(2), amount: Hnt::from_bones(7) }],
        commit: false,
    };
    let done = cmd.run(&keypair(1), 4).unwrap();
    let report = print_payment_txn(&done.txn, &done.envelope, &None).unwrap();
    let back = helium_wallet::messages::envelope::BlockchainTxn::from_b64(&report.txn).unwrap();
    assert_eq!(back, done.envelope);
    assert_eq!(back, done.txn.in_envelope());
}

#[test]
fn error_in_a_variable_names_the_variable() {
    let v = BlockchainVarV1 {
        name: "poc_version".to_string(),
        kind: "atom".to_string(),
        value: vec![0x34, 0x32],
    };
    let err = v.to_json().err().unwrap();
    assert_eq!(err, WalletError::Validation(ValidationError::Variable));
    assert!(err.message().starts_with("Invalid variable"));
    assert_eq!(v.error_text(&err), "Invalid variable in `poc_version`");
    assert_eq!(
        WalletError::Encoding(EncodingError::Hex).in_context("zz"),
        "invalid hexadecimal text in `zz`"
    );
}
