//! Sending payments to one or more addresses.

use crate::hnt::{amount_bones, Hnt};
use crate::keypair::{Keypair, PUBKEY_BIN_LEN, pubkey_from_b58, PubKeyBin, SIGNATURE_LEN};
use crate::messages::envelope::{BlockchainTxn, envelope_encoding, TxnView};
use crate::messages::payment::{
    BlockchainTxnPaymentV2, Payment, payments_view, PaymentV2View, PaymentView,
};
use crate::result::{EncodingError, ValidationError, WalletError};
use crate::text::{chars_from, chars_of, copy_text, find_char, first_index, string_of, text_view};
use crate::traits::b58::{b58_data, b58_text};
use crate::traits::b64::{base64_text, envelope_text_decoding, MAX_B64_INPUT};
use crate::traits::json::address_text;
use crate::traits::sign::Signer;
use vstd::prelude::*;

verus! {

/// One payee of a payment: an address and the amount sent to it.
#[derive(Debug)]
pub struct Payee {
    pub address: String,
    pub amount: Hnt,
}

/// The address and the bones that an argument of the form
/// `address=amount` names, or why it names none: a validation error where
/// the `=` is missing or the amount does not read.
pub open spec fn payee_parts(text: Seq<char>) -> Result<(Seq<char>, u64), ValidationError> {
    let eq = first_index(text, '=');
    if eq >= text.len() {
        Err(ValidationError::PayeeArgument)
    } else {
        match amount_bones(text.skip(eq + 1)) {
            Some(bones) => Ok((text.take(eq), bones)),
            None => Err(ValidationError::Amount),
        }
    }
}

impl Payee {
    /// Reads an argument of the form `address=amount`. The address is
    /// taken as it stands; whether it is an address shows when the payment
    /// is built.
    pub fn from_str(s: &str) -> (r: Result<Payee, WalletError>)
        ensures
            match r {
                Ok(payee) => payee_parts(s@) == Ok::<(Seq<char>, u64), ValidationError>(
                    (payee.address@, payee.amount.bones),
                ),
                Err(err) => payee_parts(s@) matches Err(why) && err == WalletError::Validation(why),
            },
    {
        let chars = chars_of(s);
        let pos = find_char(chars.as_slice(), '=');
        if pos >= chars.len() {
            return Err(WalletError::Validation(ValidationError::PayeeArgument));
        }
        let rest = chars_from(chars.as_slice(), pos + 1);
        assert(rest@ =~= s@.skip(pos + 1));
        match Hnt::from_chars(rest.as_slice()) {
            Ok(amount) => {
                let address = string_of(chars.as_slice(), 0, pos);
                assert(address@ =~= s@.take(pos as int));
                Ok(Payee { address, amount })
            },
            Err(err) => Err(err),
        }
    }
}

/// The command that sends payments.
#[derive(Debug)]
pub struct Cmd {
    /// The payees, each with its amount.
    pub payees: Vec<Payee>,
    /// Whether to submit the payment to the ledger.
    pub commit: bool,
}

/// What the payment command has prepared.
#[derive(Debug)]
pub struct Prepared {
    /// The signed payment.
    pub txn: BlockchainTxnPaymentV2,
    /// The envelope around it.
    pub envelope: BlockchainTxn,
    /// Whether the caller is to submit the envelope to the ledger now.
    pub submit: bool,
}

/// The payments to a list of payees, in order, or the reason why the
/// first address that is none is none.
pub open spec fn payee_payments(payees: Seq<Payee>) -> Result<Seq<PaymentView>, EncodingError>
    decreases payees.len(),
{
    if payees.len() == 0 {
        Ok(Seq::empty())
    } else {
        match payee_payments(payees.drop_last()) {
            Err(why) => Err(why),
            Ok(payments) => match pubkey_from_b58(payees.last().address@) {
                Err(why) => Err(why),
                Ok(key) => Ok(
                    payments.push(PaymentView { payee: key, amount: payees.last().amount.bones }),
                ),
            },
        }
    }
}

/// The payment that the command describes, before it is signed.
pub open spec fn unsigned_payment(payments: Seq<PaymentView>, payer: Seq<u8>, nonce: u64)
    -> PaymentV2View {
    PaymentV2View { payer, payments, fee: 0, nonce, signature: Seq::empty() }
}

impl Cmd {
    /// The first reason why the command cannot be carried out, if there is
    /// one: an address that is none, or an account whose nonce cannot be
    /// advanced.
    pub open spec fn refusal(&self, speculative_nonce: u64) -> Option<WalletError> {
        match payee_payments(self.payees@) {
            Err(why) => Some(WalletError::Encoding(why)),
            Ok(_) => if speculative_nonce == u64::MAX {
                Some(WalletError::Validation(ValidationError::Nonce))
            } else {
                None
            },
        }
    }

    /// Builds the payment from the wallet to the payees with the nonce
    /// after the account's latest, signs it as owner and wraps it. The
    /// caller is told to submit where the command asks for it.
    pub fn run(&self, keypair: &Keypair, speculative_nonce: u64) -> (r: Result<
        Prepared,
        WalletError,
    >)
        ensures
            match r {
                Ok(done) => {
                    &&& self.refusal(speculative_nonce) is None
                    &&& done.txn@ == unsigned_payment(
                        payee_payments(self.payees@)->Ok_0,
                        keypair.public(),
                        (speculative_nonce + 1) as u64,
                    ).signed_by(keypair.seed())
                    &&& done.txn@.signature.len() == SIGNATURE_LEN
                    &&& done.envelope@ == TxnView::PaymentV2(done.txn@)
                    &&& done.submit == self.commit
                },
                Err(err) => self.refusal(speculative_nonce) == Some(err),
            },
    {
        let mut payments: Vec<Payment> = Vec::new();
        let mut i: usize = 0;
        assert(self.payees@.take(0) =~= Seq::<Payee>::empty());
        assert(payments_view(payments@) =~= Seq::<PaymentView>::empty());
        while i < self.payees.len()
            invariant
                i <= self.payees@.len(),
                payee_payments(self.payees@.take(i as int)) == Ok::<
                    Seq<PaymentView>,
                    EncodingError,
                >(payments_view(payments@)),
            decreases self.payees@.len() - i,
        {
            let ghost before = payments_view(payments@);
            let ghost head = self.payees@.take(i + 1);
            assert(head.drop_last() =~= self.payees@.take(i as int));
            assert(head.last() == self.payees@[i as int]);
            match PubKeyBin::from_b58(self.payees[i].address.as_str()) {
                Ok(key) => {
                    payments.push(
                        Payment { payee: key.to_vec(), amount: self.payees[i].amount.to_bones() },
                    );
                    assert(payments_view(payments@) =~= before.push(
                        PaymentView { payee: key@, amount: self.payees@[i as int].amount.bones },
                    ));
                },
                Err(err) => {
                    proof {
                        lemma_payee_payments_fail(self.payees@, i as int);
                    }
                    return Err(err);
                },
            }
            i += 1;
        }
        assert(self.payees@.take(i as int) =~= self.payees@);
        if speculative_nonce == u64::MAX {
            return Err(WalletError::Validation(ValidationError::Nonce));
        }
        let mut txn = BlockchainTxnPaymentV2 {
            fee: 0,
            payments,
            payer: keypair.pubkey_bin().to_vec(),
            nonce: speculative_nonce + 1,
            signature: Vec::new(),
        };
        let _ = txn.sign(keypair, Signer::Owner);
        let envelope = txn.in_envelope();
        Ok(Prepared { txn, envelope, submit: self.commit })
    }
}

/// Where the payments to the first `i` payees can be built and the
/// address of the next is none, the payments to all cannot, for the reason
/// that this address is none.
proof fn lemma_payee_payments_fail(payees: Seq<Payee>, i: int)
    requires
        0 <= i < payees.len(),
        payee_payments(payees.take(i)) is Ok,
        pubkey_from_b58(payees[i].address@) is Err,
    ensures
        payee_payments(payees) == Err::<Seq<PaymentView>, EncodingError>(
            pubkey_from_b58(payees[i].address@)->Err_0,
        ),
    decreases payees.len(),
{
    if i == payees.len() - 1 {
        assert(payees.drop_last() =~= payees.take(i));
    } else {
        assert(payees.drop_last().take(i) =~= payees.take(i));
        lemma_payee_payments_fail(payees.drop_last(), i);
    }
}

/// One line of the report on a payment: a payee's address text and the
/// amount sent to it.
#[derive(Debug)]
pub struct PaymentRow {
    pub payee: String,
    pub amount: Hnt,
}

/// What is reported of a payment.
#[derive(Debug)]
pub struct Report {
    /// One line for each payee, in order.
    pub payments: Vec<PaymentRow>,
    /// The nonce of the payment.
    pub nonce: u64,
    /// The hash under which the ledger took the payment, if it was
    /// submitted.
    pub hash: Option<String>,
    /// The text form of the envelope.
    pub txn: String,
}

/// Every payee of the payment is an identifier.
pub open spec fn payees_are_keys(txn: PaymentV2View) -> bool {
    forall|i: int| 0 <= i < txn.payments.len() ==> (#[trigger] txn.payments[i]).payee.len()
        == PUBKEY_BIN_LEN
}

/// The first reason why a payment cannot be reported, if there is one: a
/// payee that is no identifier, or an envelope too large for its text
/// form.
pub open spec fn report_refusal(txn: PaymentV2View, envelope: TxnView) -> Option<WalletError> {
    if !payees_are_keys(txn) {
        Some(WalletError::Encoding(EncodingError::Length))
    } else if envelope_encoding(envelope).len() > MAX_B64_INPUT {
        Some(WalletError::Encoding(EncodingError::TooLarge))
    } else {
        None
    }
}

/// The report on a payment and its envelope.
pub fn print_txn(txn: &BlockchainTxnPaymentV2, envelope: &BlockchainTxn, hash: &Option<String>)
    -> (r: Result<Report, WalletError>)
    ensures
        match r {
            Ok(report) => {
                &&& report_refusal(txn@, envelope@) is None
                &&& report.payments@.len() == txn.payments@.len()
                &&& forall|i: int|
                    0 <= i < txn.payments@.len() ==> (#[trigger] report.payments@[i]).payee@
                        == b58_text(txn.payments@[i].payee@) && b58_data(
                        report.payments@[i].payee@,
                    ) == Some(txn.payments@[i].payee@) && report.payments@[i].amount.bones
                        == txn.payments@[i].amount
                &&& report.nonce == txn.nonce
                &&& text_view(report.hash) == text_view(*hash)
                &&& report.txn@ == base64_text(envelope_encoding(envelope@))
                &&& envelope_text_decoding(report.txn@) == Ok::<TxnView, EncodingError>(envelope@)
            },
            Err(err) => report_refusal(txn@, envelope@) == Some(err),
        },
{
    let mut payments: Vec<PaymentRow> = Vec::new();
    let mut i: usize = 0;
    while i < txn.payments.len()
        invariant
            i <= txn.payments@.len(),
            payments@.len() == i,
            forall|j: int|
                0 <= j < i ==> (#[trigger] txn.payments@[j]).payee@.len() == PUBKEY_BIN_LEN,
            forall|j: int|
                0 <= j < i ==> (#[trigger] payments@[j]).payee@ == b58_text(
                    txn.payments@[j].payee@,
                ) && b58_data(payments@[j].payee@) == Some(txn.payments@[j].payee@)
                    && payments@[j].amount.bones == txn.payments@[j].amount,
        decreases txn.payments@.len() - i,
    {
        match address_text(txn.payments[i].payee.as_slice()) {
            Ok(payee) => {
                payments.push(
                    PaymentRow { payee, amount: Hnt::from_bones(txn.payments[i].amount) },
                );
            },
            Err(err) => {
                assert(txn@.payments[i as int].payee.len() != PUBKEY_BIN_LEN);
                return Err(err);
            },
        }
        i += 1;
    }
    assert(payees_are_keys(txn@)) by {
        assert forall|j: int| 0 <= j < txn@.payments.len() implies (#[trigger] txn@.payments[j]).payee.len()
            == PUBKEY_BIN_LEN by {
            assert(txn.payments@[j].payee@.len() == PUBKEY_BIN_LEN);
        }
    }
    match envelope.to_b64() {
        Ok(text) => Ok(Report { payments, nonce: txn.nonce, hash: copy_text(hash), txn: text }),
        Err(err) => Err(err),
    }
}

} // verus!
