//! The envelope: the container that carries exactly one transaction, of any
//! kind, to the ledger or from one signer to the next.

use crate::messages::htlc::{
    BlockchainTxnCreateHtlcV1, BlockchainTxnRedeemHtlcV1, CreateHtlcView,
    lemma_create_htlc_round_trip, lemma_redeem_htlc_round_trip, RedeemHtlcView,
};
use crate::messages::oui::{BlockchainTxnOuiV1, lemma_oui_round_trip, OuiView};
use crate::messages::payment::{BlockchainTxnPaymentV2, lemma_payment_v2_round_trip, PaymentV2View};
use crate::result::{EncodingError, ValidationError, WalletError};
use crate::wire::{
    decoding, encode_fields, encoding, Field, fields_view, lemma_len_fits, lemma_parse_fields,
    one_bytes, parse_fields, put_message, read_fields, valid_field, Value, ValueView,
};
use vstd::prelude::*;

verus! {

/// Field number under which the envelope carries a contract creation.
pub const KIND_CREATE_HTLC: u32 = 4;

/// Field number under which the envelope carries an allocation.
pub const KIND_OUI: u32 = 7;

/// Field number under which the envelope carries a redemption.
pub const KIND_REDEEM_HTLC: u32 = 11;

/// Field number under which the envelope carries a payment.
pub const KIND_PAYMENT_V2: u32 = 24;

/// A transaction of one of the kinds the wallet knows.
#[derive(Clone, Debug, PartialEq, Eq)]
pub enum Txn {
    CreateHtlc(BlockchainTxnCreateHtlcV1),
    Oui(BlockchainTxnOuiV1),
    RedeemHtlc(BlockchainTxnRedeemHtlcV1),
    PaymentV2(BlockchainTxnPaymentV2),
}

/// The mathematical value of a transaction.
pub enum TxnView {
    CreateHtlc(CreateHtlcView),
    Oui(OuiView),
    RedeemHtlc(RedeemHtlcView),
    PaymentV2(PaymentV2View),
}

impl View for Txn {
    type V = TxnView;

    open spec fn view(&self) -> TxnView {
        match self {
            Txn::CreateHtlc(t) => TxnView::CreateHtlc(t@),
            Txn::Oui(t) => TxnView::Oui(t@),
            Txn::RedeemHtlc(t) => TxnView::RedeemHtlc(t@),
            Txn::PaymentV2(t) => TxnView::PaymentV2(t@),
        }
    }
}

impl TxnView {
    /// The field number that names the kind of the transaction.
    pub open spec fn kind(self) -> u32 {
        match self {
            TxnView::CreateHtlc(_) => KIND_CREATE_HTLC,
            TxnView::Oui(_) => KIND_OUI,
            TxnView::RedeemHtlc(_) => KIND_REDEEM_HTLC,
            TxnView::PaymentV2(_) => KIND_PAYMENT_V2,
        }
    }

    /// The bytes of the transaction itself, signatures included.
    pub open spec fn payload(self) -> Seq<u8> {
        match self {
            TxnView::CreateHtlc(t) => encoding(t),
            TxnView::Oui(t) => encoding(t),
            TxnView::RedeemHtlc(t) => encoding(t),
            TxnView::PaymentV2(t) => encoding(t),
        }
    }

    /// The bytes that a signer of the transaction signs: its bytes with
    /// every signature slot emptied.
    pub open spec fn canonical(self) -> Seq<u8> {
        match self {
            TxnView::CreateHtlc(t) => t.canonical(),
            TxnView::Oui(t) => t.canonical(),
            TxnView::RedeemHtlc(t) => t.canonical(),
            TxnView::PaymentV2(t) => t.canonical(),
        }
    }

    /// The byte strings of the transaction, and the transaction as written,
    /// have lengths that can be written.
    pub open spec fn wf(self) -> bool {
        &&& self.payload().len() <= u64::MAX
        &&& match self {
            TxnView::CreateHtlc(t) => t.wf(),
            TxnView::Oui(t) => t.wf(),
            TxnView::RedeemHtlc(t) => t.wf(),
            TxnView::PaymentV2(t) => t.wf(),
        }
    }
}

/// The bytes of an envelope: one field, numbered by the kind of the
/// transaction and holding its bytes.
pub open spec fn envelope_encoding(t: TxnView) -> Seq<u8> {
    encode_fields(one_bytes(t.kind(), t.payload()))
}

/// The transaction of the given kind that the payload holds.
pub open spec fn payload_decoding(kind: u32, payload: Seq<u8>) -> Result<TxnView, EncodingError> {
    if kind == KIND_CREATE_HTLC {
        match decoding::<CreateHtlcView>(payload) {
            Some(t) => Ok(TxnView::CreateHtlc(t)),
            None => Err(EncodingError::Wire),
        }
    } else if kind == KIND_OUI {
        match decoding::<OuiView>(payload) {
            Some(t) => Ok(TxnView::Oui(t)),
            None => Err(EncodingError::Wire),
        }
    } else if kind == KIND_REDEEM_HTLC {
        match decoding::<RedeemHtlcView>(payload) {
            Some(t) => Ok(TxnView::RedeemHtlc(t)),
            None => Err(EncodingError::Wire),
        }
    } else if kind == KIND_PAYMENT_V2 {
        match decoding::<PaymentV2View>(payload) {
            Some(t) => Ok(TxnView::PaymentV2(t)),
            None => Err(EncodingError::Wire),
        }
    } else {
        Err(EncodingError::UnknownKind)
    }
}

/// The transaction that the bytes of an envelope hold. The bytes must be
/// exactly one field. A field number that names no known kind is an
/// unknown kind; anything else that does not read is malformed.
pub open spec fn envelope_decoding(s: Seq<u8>) -> Result<TxnView, EncodingError> {
    match parse_fields(s) {
        None => Err(EncodingError::Wire),
        Some(fs) => if fs.len() != 1 {
            Err(EncodingError::Wire)
        } else {
            match fs[0].value {
                ValueView::Bytes(b) => payload_decoding(fs[0].number, b),
                ValueView::Varint(_) => if fs[0].number == KIND_CREATE_HTLC || fs[0].number
                    == KIND_OUI || fs[0].number == KIND_REDEEM_HTLC || fs[0].number
                    == KIND_PAYMENT_V2 {
                    Err(EncodingError::Wire)
                } else {
                    Err(EncodingError::UnknownKind)
                },
            }
        },
    }
}

/// An envelope is read back from its bytes, whatever its kind and whether
/// or not its signature slots are filled.
pub proof fn lemma_envelope_round_trip(t: TxnView)
    requires
        t.wf(),
    ensures
        envelope_decoding(envelope_encoding(t)) == Ok::<TxnView, EncodingError>(t),
{
    let fs = one_bytes(t.kind(), t.payload());
    assert(valid_field(fs[0]));
    lemma_parse_fields(fs);
    match t {
        TxnView::CreateHtlc(x) => lemma_create_htlc_round_trip(x),
        TxnView::Oui(x) => lemma_oui_round_trip(x),
        TxnView::RedeemHtlc(x) => lemma_redeem_htlc_round_trip(x),
        TxnView::PaymentV2(x) => lemma_payment_v2_round_trip(x),
    }
}

/// The envelope around one transaction.
#[derive(Clone, Debug, PartialEq, Eq)]
pub struct BlockchainTxn {
    pub txn: Txn,
}

impl View for BlockchainTxn {
    type V = TxnView;

    open spec fn view(&self) -> TxnView {
        self.txn@
    }
}

impl Txn {
    /// The bytes that a signer of the transaction signs.
    pub fn canonical(&self) -> (r: Vec<u8>)
        ensures
            r@ == self@.canonical(),
    {
        match self {
            Txn::CreateHtlc(t) => t.canonical(),
            Txn::Oui(t) => t.canonical(),
            Txn::RedeemHtlc(t) => t.canonical(),
            Txn::PaymentV2(t) => t.canonical(),
        }
    }

    /// The envelope around this transaction. Always succeeds: signatures
    /// need not be present.
    pub fn in_envelope(self) -> (r: BlockchainTxn)
        ensures
            r.txn == self,
    {
        BlockchainTxn { txn: self }
    }
}

impl BlockchainTxn {
    /// The binary form of the envelope. Reading it gives the envelope
    /// again.
    pub fn to_vec(&self) -> (r: Vec<u8>)
        ensures
            r@ == envelope_encoding(self@),
            self@.wf(),
            envelope_decoding(r@) == Ok::<TxnView, EncodingError>(self@),
    {
        let mut out: Vec<u8> = Vec::new();
        match &self.txn {
            Txn::CreateHtlc(t) => {
                let payload = t.to_vec();
                proof {
                    lemma_len_fits(&payload);
                }
                put_message(&mut out, KIND_CREATE_HTLC, payload.as_slice());
            },
            Txn::Oui(t) => {
                let payload = t.to_vec();
                proof {
                    lemma_len_fits(&payload);
                }
                put_message(&mut out, KIND_OUI, payload.as_slice());
            },
            Txn::RedeemHtlc(t) => {
                let payload = t.to_vec();
                proof {
                    lemma_len_fits(&payload);
                }
                put_message(&mut out, KIND_REDEEM_HTLC, payload.as_slice());
            },
            Txn::PaymentV2(t) => {
                let payload = t.to_vec();
                proof {
                    lemma_len_fits(&payload);
                }
                put_message(&mut out, KIND_PAYMENT_V2, payload.as_slice());
            },
        }
        assert(out@ =~= envelope_encoding(self@));
        proof {
            lemma_envelope_round_trip(self@);
        }
        out
    }

    /// The envelope that the binary form holds.
    pub fn from_vec(buf: &[u8]) -> (r: Result<BlockchainTxn, WalletError>)
        ensures
            match r {
                Ok(e) => envelope_decoding(buf@) == Ok::<TxnView, EncodingError>(e@),
                Err(err) => envelope_decoding(buf@) matches Err(why) && err == WalletError::Encoding(why),
            },
    {
        let fields = match read_fields(buf) {
            Some(fields) => fields,
            None => {
                return Err(WalletError::Encoding(EncodingError::Wire));
            },
        };
        if fields.len() != 1 {
            return Err(WalletError::Encoding(EncodingError::Wire));
        }
        let field = &fields[0];
        assert(fields_view(fields@)[0] == field@);
        let known = field.number == KIND_CREATE_HTLC || field.number == KIND_OUI || field.number
            == KIND_REDEEM_HTLC || field.number == KIND_PAYMENT_V2;
        if !known {
            return Err(WalletError::Encoding(EncodingError::UnknownKind));
        }
        match &field.value {
            Value::Varint(_) => Err(WalletError::Encoding(EncodingError::Wire)),
            Value::Bytes(b) => {
                let txn = if field.number == KIND_CREATE_HTLC {
                    match BlockchainTxnCreateHtlcV1::from_vec(b.as_slice()) {
                        Some(t) => Some(Txn::CreateHtlc(t)),
                        None => None,
                    }
                } else if field.number == KIND_OUI {
                    match BlockchainTxnOuiV1::from_vec(b.as_slice()) {
                        Some(t) => Some(Txn::Oui(t)),
                        None => None,
                    }
                } else if field.number == KIND_REDEEM_HTLC {
                    match BlockchainTxnRedeemHtlcV1::from_vec(b.as_slice()) {
                        Some(t) => Some(Txn::RedeemHtlc(t)),
                        None => None,
                    }
                } else {
                    match BlockchainTxnPaymentV2::from_vec(b.as_slice()) {
                        Some(t) => Some(Txn::PaymentV2(t)),
                        None => None,
                    }
                };
                match txn {
                    Some(txn) => Ok(BlockchainTxn { txn }),
                    None => Err(WalletError::Encoding(EncodingError::Wire)),
                }
            },
        }
    }

    /// The contract creation in the envelope, or an error where it holds a
    /// transaction of another kind.
    pub fn create_htlc(&self) -> (r: Result<&BlockchainTxnCreateHtlcV1, WalletError>)
        ensures
            match r {
                Ok(t) => self.txn == Txn::CreateHtlc(*t),
                Err(err) => !(self.txn is CreateHtlc) && err == WalletError::Validation(
                    ValidationError::WrongKind,
                ),
            },
    {
        match &self.txn {
            Txn::CreateHtlc(t) => Ok(t),
            _ => Err(WalletError::Validation(ValidationError::WrongKind)),
        }
    }

    /// The allocation in the envelope, or an error where it holds a
    /// transaction of another kind.
    pub fn oui(&self) -> (r: Result<&BlockchainTxnOuiV1, WalletError>)
        ensures
            match r {
                Ok(t) => self.txn == Txn::Oui(*t),
                Err(err) => !(self.txn is Oui) && err == WalletError::Validation(
                    ValidationError::WrongKind,
                ),
            },
    {
        match &self.txn {
            Txn::Oui(t) => Ok(t),
            _ => Err(WalletError::Validation(ValidationError::WrongKind)),
        }
    }

    /// The redemption in the envelope, or an error where it holds a
    /// transaction of another kind.
    pub fn redeem_htlc(&self) -> (r: Result<&BlockchainTxnRedeemHtlcV1, WalletError>)
        ensures
            match r {
                Ok(t) => self.txn == Txn::RedeemHtlc(*t),
                Err(err) => !(self.txn is RedeemHtlc) && err == WalletError::Validation(
                    ValidationError::WrongKind,
                ),
            },
    {
        match &self.txn {
            Txn::RedeemHtlc(t) => Ok(t),
            _ => Err(WalletError::Validation(ValidationError::WrongKind)),
        }
    }

    /// The payment in the envelope, or an error where it holds a
    /// transaction of another kind.
    pub fn payment_v2(&self) -> (r: Result<&BlockchainTxnPaymentV2, WalletError>)
        ensures
            match r {
                Ok(t) => self.txn == Txn::PaymentV2(*t),
                Err(err) => !(self.txn is PaymentV2) && err == WalletError::Validation(
                    ValidationError::WrongKind,
                ),
            },
    {
        match &self.txn {
            Txn::PaymentV2(t) => Ok(t),
            _ => Err(WalletError::Validation(ValidationError::WrongKind)),
        }
    }
}

impl BlockchainTxnCreateHtlcV1 {
    /// The envelope around a copy of this transaction. Always succeeds:
    /// the signature need not be present.
    pub fn in_envelope(&self) -> (r: BlockchainTxn)
        ensures
            r@ == TxnView::CreateHtlc(self@),
    {
        BlockchainTxn { txn: Txn::CreateHtlc(self.duplicate()) }
    }
}

impl BlockchainTxnRedeemHtlcV1 {
    /// The envelope around a copy of this transaction. Always succeeds:
    /// the signature need not be present.
    pub fn in_envelope(&self) -> (r: BlockchainTxn)
        ensures
            r@ == TxnView::RedeemHtlc(self@),
    {
        BlockchainTxn { txn: Txn::RedeemHtlc(self.duplicate()) }
    }
}

impl BlockchainTxnOuiV1 {
    /// The envelope around a copy of this transaction. Always succeeds:
    /// neither signature need be present.
    pub fn in_envelope(&self) -> (r: BlockchainTxn)
        ensures
            r@ == TxnView::Oui(self@),
    {
        BlockchainTxn { txn: Txn::Oui(self.duplicate()) }
    }
}

impl BlockchainTxnPaymentV2 {
    /// The envelope around a copy of this transaction. Always succeeds:
    /// the signature need not be present.
    pub fn in_envelope(&self) -> (r: BlockchainTxn)
        ensures
            r@ == TxnView::PaymentV2(self@),
    {
        BlockchainTxn { txn: Txn::PaymentV2(self.duplicate()) }
    }
}

} // verus!
