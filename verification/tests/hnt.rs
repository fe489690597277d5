use helium_wallet::hnt::Hnt;
use helium_wallet::result::{ValidationError, WalletError};

fn refused(text: &str) {
    assert_eq!(
        Hnt::from_text(text).unwrap_err(),
        WalletError::Validation(ValidationError::Amount),
        "{}",
        text
    );
}

#[test]
fn amounts_convert_without_drift() {
    for bones in [0u64, 1, 99_999_999, 100_000_000, 100_000_001, 123_456_789_012, u64::MAX] {
        let amount = Hnt::from_bones(bones);
        assert_eq!(amount.to_bones(), bones);
        let text = amount.to_text();
        assert_eq!(Hnt::from_text(&text).unwrap(), amount);
    }
}

#[test]
fn amounts_are_written_with_eight_decimals() {
    assert_eq!(Hnt::from_bones(0).to_text(), "0.00000000");
    assert_eq!(Hnt::from_bones(1).to_text(), "0.00000001");
    assert_eq!(Hnt::from_bones(100_000_000).to_text(), "1.00000000");
    assert_eq!(Hnt::from_bones(1_050_000_000).to_text(), "10.50000000");
    assert_eq!(Hnt::from_bones(u64::MAX).to_text(), "184467440737.09551615");
}

#[test]
fn amounts_are_read_with_up_to_eight_decimals() {
    assert_eq!(Hnt::from_text("0").unwrap().to_bones(), 0);
    assert_eq!(Hnt::from_text("1").unwrap().to_bones(), 100_000_000);
    assert_eq!(Hnt::from_text("1.0").unwrap().to_bones(), 100_000_000);
    assert_eq!(Hnt::from_text("1.5").unwrap().to_bones(), 150_000_000);
    assert_eq!(Hnt::from_text("0.00000001").unwrap().to_bones(), 1);
    assert_eq!(Hnt::from_text("007.25").unwrap().to_bones(), 725_000_000);
    assert_eq!(Hnt::from_text("12.34567890").unwrap().to_bones(), 1_234_567_890);
    assert_eq!(Hnt::from_text("184467440737.09551615").unwrap().to_bones(), u64::MAX);
}

#[test]
fn amount_with_nine_decimals_is_refused() {
    refused("1.000000000");
    refused("0.123456789");
    refused("1.000000001");
}

#[test]
fn amount_that_is_not_a_number_is_refused() {
    for text in ["", ".", ".5", "5.", "abc", "1,5", "-1", "+1", "1.2.3", "1e8", " 1", "1 ", "１"] {
        refused(text);
    }
}

#[test]
fn amount_beyond_64_bits_is_refused() {
    refused("184467440737.09551616");
    refused("184467440738");
    refused("99999999999999999999999999");
}
