//! Value transfers: one payer, any number of payees.

use crate::wire::{
    copy_bytes, decoding, encode_fields, encoding, Field, fields_view, FieldView, fold_fields,
    Layout, lemma_decoding_encoding, lemma_encode_fields_push, lemma_extend_opt_bytes,
    lemma_extend_opt_varint, lemma_extend_run, lemma_extend_start, lemma_len_fits, one_bytes,
    opt_bytes, opt_varint, put_bytes, put_message, put_varint, read_fields, valid_field,
    valid_fields, Value, ValueView,
};
use vstd::prelude::*;

verus! {

/// Field number of a payment's payee.
pub const PAYMENT_PAYEE: u32 = 1;

/// Field number of a payment's amount.
pub const PAYMENT_AMOUNT: u32 = 2;

/// One payee and the amount sent to it, in the smallest unit.
#[derive(Clone, Debug, PartialEq, Eq)]
pub struct Payment {
    pub payee: Vec<u8>,
    pub amount: u64,
}

/// The mathematical value of a `Payment`.
pub struct PaymentView {
    pub payee: Seq<u8>,
    pub amount: u64,
}

impl View for Payment {
    type V = PaymentView;

    open spec fn view(&self) -> PaymentView {
        PaymentView { payee: self.payee@, amount: self.amount }
    }
}

impl Layout for PaymentView {
    open spec fn start() -> Self {
        PaymentView { payee: Seq::empty(), amount: 0 }
    }

    open spec fn step(self, f: FieldView) -> Option<Self> {
        match f.value {
            ValueView::Bytes(b) => if f.number == PAYMENT_PAYEE {
                Some(PaymentView { payee: b, ..self })
            } else {
                None
            },
            ValueView::Varint(v) => if f.number == PAYMENT_AMOUNT {
                Some(PaymentView { amount: v, ..self })
            } else {
                None
            },
        }
    }

    open spec fn fields(self) -> Seq<FieldView> {
        opt_bytes(PAYMENT_PAYEE, self.payee) + opt_varint(PAYMENT_AMOUNT, self.amount)
    }
}

impl PaymentView {
    /// The byte strings of the payment have lengths that can be written.
    pub open spec fn wf(self) -> bool {
        self.payee.len() <= u64::MAX
    }
}

/// A payment is read back from its bytes.
pub proof fn lemma_payment_round_trip(p: PaymentView)
    requires
        p.wf(),
    ensures
        decoding::<PaymentView>(encoding(p)) == Some(p),
{
    let none = Seq::<FieldView>::empty();
    let f1 = opt_bytes(PAYMENT_PAYEE, p.payee);
    let m0 = PaymentView::start();
    let m1 = PaymentView { payee: p.payee, ..m0 };
    assert(p.payee.len() == 0 ==> m1.payee =~= m0.payee);
    lemma_extend_start(m0);
    lemma_extend_opt_bytes(none, PAYMENT_PAYEE, p.payee, m0, m0, m1);
    assert(none + f1 =~= f1);
    lemma_extend_opt_varint(f1, PAYMENT_AMOUNT, p.amount, m0, m1, p);
    lemma_decoding_encoding(p);
}

impl Payment {
    /// Appends the bytes of the payment.
    pub fn write_to(&self, out: &mut Vec<u8>)
        ensures
            final(out)@ == old(out)@ + encoding(self@),
            self@.wf(),
    {
        let ghost f1 = opt_bytes(PAYMENT_PAYEE, self.payee@);
        let ghost f2 = opt_varint(PAYMENT_AMOUNT, self.amount);
        proof {
            lemma_len_fits(&self.payee);
        }
        put_bytes(out, PAYMENT_PAYEE, self.payee.as_slice());
        put_varint(out, PAYMENT_AMOUNT, self.amount);
        proof {
            lemma_encode_fields_push(old(out)@, f1, f2);
        }
    }

    /// The bytes of the payment.
    pub fn to_vec(&self) -> (r: Vec<u8>)
        ensures
            r@ == encoding(self@),
            self@.wf(),
    {
        let mut out: Vec<u8> = Vec::new();
        self.write_to(&mut out);
        assert(out@ =~= encoding(self@));
        out
    }

    /// A copy of the payment.
    pub fn duplicate(&self) -> (r: Payment)
        ensures
            r@ == self@,
    {
        Payment { payee: copy_bytes(self.payee.as_slice()), amount: self.amount }
    }

    /// The payment that a run of fields describes.
    pub fn from_fields(fields: &Vec<Field>) -> (r: Option<Payment>)
        ensures
            match r {
                Some(p) => fold_fields(fields_view(fields@), PaymentView::start()) == Some(p@),
                None => fold_fields(fields_view(fields@), PaymentView::start()) is None,
            },
    {
        let mut acc = Payment { payee: Vec::new(), amount: 0 };
        let ghost all = fields_view(fields@);
        let mut i: usize = 0;
        assert(all.skip(0) =~= all);
        while i < fields.len()
            invariant
                i <= fields@.len(),
                all == fields_view(fields@),
                fold_fields(all, PaymentView::start()) == fold_fields(all.skip(i as int), acc@),
            decreases fields@.len() - i,
        {
            let field = &fields[i];
            assert(all.skip(i as int)[0] == field@);
            assert(all.skip(i as int).skip(1) =~= all.skip(i + 1));
            match &field.value {
                Value::Bytes(b) => {
                    if field.number == PAYMENT_PAYEE {
                        acc.payee = copy_bytes(b.as_slice());
                    } else {
                        return None;
                    }
                },
                Value::Varint(v) => {
                    if field.number == PAYMENT_AMOUNT {
                        acc.amount = *v;
                    } else {
                        return None;
                    }
                },
            }
            i += 1;
        }
        Some(acc)
    }

    /// The payment that the bytes hold, if they hold one.
    pub fn from_vec(buf: &[u8]) -> (r: Option<Payment>)
        ensures
            match r {
                Some(p) => decoding::<PaymentView>(buf@) == Some(p@),
                None => decoding::<PaymentView>(buf@) is None,
            },
    {
        match read_fields(buf) {
            Some(fields) => Payment::from_fields(&fields),
            None => None,
        }
    }
}

/// Field number of the payer of a payment transaction.
pub const PAYMENT_V2_PAYER: u32 = 1;

/// Field number of the payments of a payment transaction.
pub const PAYMENT_V2_PAYMENTS: u32 = 2;

/// Field number of the fee of a payment transaction.
pub const PAYMENT_V2_FEE: u32 = 3;

/// Field number of the nonce of a payment transaction.
pub const PAYMENT_V2_NONCE: u32 = 4;

/// Field number of the signature of a payment transaction.
pub const PAYMENT_V2_SIGNATURE: u32 = 5;

/// A transfer from one payer to an ordered list of payees.
#[derive(Clone, Debug, PartialEq, Eq)]
pub struct BlockchainTxnPaymentV2 {
    pub payer: Vec<u8>,
    pub payments: Vec<Payment>,
    pub fee: u64,
    pub nonce: u64,
    pub signature: Vec<u8>,
}

/// The mathematical value of a payment transaction.
pub struct PaymentV2View {
    pub payer: Seq<u8>,
    pub payments: Seq<PaymentView>,
    pub fee: u64,
    pub nonce: u64,
    pub signature: Seq<u8>,
}

/// The views of a list of payments, in order.
pub open spec fn payments_view(payments: Seq<Payment>) -> Seq<PaymentView> {
    Seq::new(payments.len(), |i: int| payments[i]@)
}

/// The fields that a list of payments is written as: one bytes field each.
pub open spec fn payment_run(payments: Seq<PaymentView>) -> Seq<FieldView> {
    Seq::new(
        payments.len(),
        |i: int|
            FieldView { number: PAYMENT_V2_PAYMENTS, value: ValueView::Bytes(encoding(payments[i])) },
    )
}

impl View for BlockchainTxnPaymentV2 {
    type V = PaymentV2View;

    open spec fn view(&self) -> PaymentV2View {
        PaymentV2View {
            payer: self.payer@,
            payments: payments_view(self.payments@),
            fee: self.fee,
            nonce: self.nonce,
            signature: self.signature@,
        }
    }
}

impl Layout for PaymentV2View {
    open spec fn start() -> Self {
        PaymentV2View {
            payer: Seq::empty(),
            payments: Seq::empty(),
            fee: 0,
            nonce: 0,
            signature: Seq::empty(),
        }
    }

    open spec fn step(self, f: FieldView) -> Option<Self> {
        match f.value {
            ValueView::Bytes(b) => if f.number == PAYMENT_V2_PAYER {
                Some(PaymentV2View { payer: b, ..self })
            } else if f.number == PAYMENT_V2_PAYMENTS {
                match decoding::<PaymentView>(b) {
                    Some(p) => Some(PaymentV2View { payments: self.payments.push(p), ..self }),
                    None => None,
                }
            } else if f.number == PAYMENT_V2_SIGNATURE {
                Some(PaymentV2View { signature: b, ..self })
            } else {
                None
            },
            ValueView::Varint(v) => if f.number == PAYMENT_V2_FEE {
                Some(PaymentV2View { fee: v, ..self })
            } else if f.number == PAYMENT_V2_NONCE {
                Some(PaymentV2View { nonce: v, ..self })
            } else {
                None
            },
        }
    }

    open spec fn fields(self) -> Seq<FieldView> {
        opt_bytes(PAYMENT_V2_PAYER, self.payer) + payment_run(self.payments) + opt_varint(
            PAYMENT_V2_FEE,
            self.fee,
        ) + opt_varint(PAYMENT_V2_NONCE, self.nonce) + opt_bytes(
            PAYMENT_V2_SIGNATURE,
            self.signature,
        )
    }
}

impl PaymentV2View {
    /// The byte strings of the transaction, and each payment as written,
    /// have lengths that can be written.
    pub open spec fn wf(self) -> bool {
        &&& self.payer.len() <= u64::MAX
        &&& self.signature.len() <= u64::MAX
        &&& forall|i: int|
            0 <= i < self.payments.len() ==> (#[trigger] self.payments[i]).wf() && encoding(
                self.payments[i],
            ).len() <= u64::MAX
    }

    /// The transaction with its signature slot emptied.
    pub open spec fn unsigned(self) -> Self {
        PaymentV2View { signature: Seq::empty(), ..self }
    }

    /// The bytes that a signer of this transaction signs.
    pub open spec fn canonical(self) -> Seq<u8> {
        encoding(self.unsigned())
    }
}

/// Reading the fields of a list of payments adds the payments, in order.
proof fn lemma_payment_run_fold(ps: Seq<PaymentView>, acc: PaymentV2View)
    requires
        forall|i: int|
            0 <= i < ps.len() ==> (#[trigger] ps[i]).wf() && encoding(ps[i]).len() <= u64::MAX,
    ensures
        fold_fields(payment_run(ps), acc) == Some(
            PaymentV2View { payments: acc.payments + ps, ..acc },
        ),
        valid_fields(payment_run(ps)),
    decreases ps.len(),
{
    assert forall|i: int| 0 <= i < payment_run(ps).len() implies valid_field(
        #[trigger] payment_run(ps)[i],
    ) by {
        assert(ps[i].wf());
    }
    let run = payment_run(ps);
    if ps.len() == 0 {
        assert(acc.payments + ps =~= acc.payments);
    } else {
        lemma_payment_round_trip(ps[0]);
        let next = PaymentV2View { payments: acc.payments.push(ps[0]), ..acc };
        assert(acc.step(run[0]) == Some(next));
        assert(run.skip(1) =~= payment_run(ps.skip(1)));
        lemma_payment_run_fold(ps.skip(1), next);
        assert(next.payments + ps.skip(1) =~= acc.payments + ps);
    }
}

/// A payment transaction is read back from its bytes.
pub proof fn lemma_payment_v2_round_trip(t: PaymentV2View)
    requires
        t.wf(),
    ensures
        decoding::<PaymentV2View>(encoding(t)) == Some(t),
{
    let none = Seq::<FieldView>::empty();
    let f1 = opt_bytes(PAYMENT_V2_PAYER, t.payer);
    let f2 = payment_run(t.payments);
    let f3 = opt_varint(PAYMENT_V2_FEE, t.fee);
    let f4 = opt_varint(PAYMENT_V2_NONCE, t.nonce);
    let m0 = PaymentV2View::start();
    let m1 = PaymentV2View { payer: t.payer, ..m0 };
    let m2 = PaymentV2View { payments: t.payments, ..m1 };
    let m3 = PaymentV2View { fee: t.fee, ..m2 };
    let m4 = PaymentV2View { nonce: t.nonce, ..m3 };
    assert(t.payer.len() == 0 ==> m1.payer =~= m0.payer);
    assert(t.signature.len() == 0 ==> t.signature =~= m4.signature);
    lemma_extend_start(m0);
    lemma_extend_opt_bytes(none, PAYMENT_V2_PAYER, t.payer, m0, m0, m1);
    assert(none + f1 =~= f1);
    lemma_payment_run_fold(t.payments, m1);
    assert(m1.payments + t.payments =~= t.payments);
    lemma_extend_run(f1, f2, m0, m1, m2);
    lemma_extend_opt_varint(f1 + f2, PAYMENT_V2_FEE, t.fee, m0, m2, m3);
    lemma_extend_opt_varint(f1 + f2 + f3, PAYMENT_V2_NONCE, t.nonce, m0, m3, m4);
    lemma_extend_opt_bytes(f1 + f2 + f3 + f4, PAYMENT_V2_SIGNATURE, t.signature, m0, m4, t);
    lemma_decoding_encoding(t);
}

impl BlockchainTxnPaymentV2 {
    /// Appends the bytes of the transaction: with what its signature slots
    /// hold where `signed`, with the slots emptied where not.
    fn encode_parts(&self, out: &mut Vec<u8>, signed: bool)
        ensures
            final(out)@ == old(out)@ + encoding(
                if signed {
                    self@
                } else {
                    self@.unsigned()
                },
            ),
            self@.wf(),
    {
        let ghost t = if signed {
            self@
        } else {
            self@.unsigned()
        };
        let ghost base = old(out)@;
        let ghost f1 = opt_bytes(PAYMENT_V2_PAYER, t.payer);
        let ghost f2 = payment_run(t.payments);
        let ghost f3 = opt_varint(PAYMENT_V2_FEE, t.fee);
        let ghost f4 = opt_varint(PAYMENT_V2_NONCE, t.nonce);
        let ghost f5 = opt_bytes(PAYMENT_V2_SIGNATURE, t.signature);
        proof {
            lemma_len_fits(&self.payer);
            lemma_len_fits(&self.signature);
        }
        let none: Vec<u8> = Vec::new();
        let signature: &[u8] = if signed {
            self.signature.as_slice()
        } else {
            none.as_slice()
        };
        put_bytes(out, PAYMENT_V2_PAYER, self.payer.as_slice());
        let ghost mid = out@;
        let mut i: usize = 0;
        assert(payment_run(t.payments.take(0)) =~= Seq::<FieldView>::empty());
        assert(mid + encode_fields(Seq::<FieldView>::empty()) =~= mid);
        while i < self.payments.len()
            invariant
                i <= self.payments@.len(),
                t.payments == payments_view(self.payments@),
                out@ == mid + encode_fields(payment_run(t.payments.take(i as int))),
                forall|j: int|
                    0 <= j < i ==> (#[trigger] t.payments[j]).wf() && encoding(t.payments[j]).len()
                        <= u64::MAX,
            decreases self.payments@.len() - i,
        {
            let bytes = self.payments[i].to_vec();
            proof {
                lemma_len_fits(&bytes);
                assert(t.payments[i as int] == self.payments@[i as int]@);
            }
            let ghost before = payment_run(t.payments.take(i as int));
            let ghost one = one_bytes(PAYMENT_V2_PAYMENTS, bytes@);
            put_message(out, PAYMENT_V2_PAYMENTS, bytes.as_slice());
            proof {
                assert(payment_run(t.payments.take(i + 1)) =~= before + one);
                lemma_encode_fields_push(mid, before, one);
            }
            i += 1;
        }
        assert(t.payments.take(i as int) =~= t.payments);
        proof {
            lemma_encode_fields_push(base, f1, f2);
        }
        put_varint(out, PAYMENT_V2_FEE, self.fee);
        proof {
            lemma_encode_fields_push(base, f1 + f2, f3);
        }
        put_varint(out, PAYMENT_V2_NONCE, self.nonce);
        proof {
            lemma_encode_fields_push(base, f1 + f2 + f3, f4);
        }
        put_bytes(out, PAYMENT_V2_SIGNATURE, signature);
        proof {
            lemma_encode_fields_push(base, f1 + f2 + f3 + f4, f5);
        }
    }

    /// The bytes of the transaction, signature included.
    pub fn to_vec(&self) -> (r: Vec<u8>)
        ensures
            r@ == encoding(self@),
            self@.wf(),
    {
        let mut out: Vec<u8> = Vec::new();
        self.encode_parts(&mut out, true);
        assert(out@ =~= encoding(self@));
        out
    }

    /// The bytes that a signer of this transaction signs: its bytes with
    /// the signature slot emptied.
    pub fn canonical(&self) -> (r: Vec<u8>)
        ensures
            r@ == self@.canonical(),
    {
        let mut out: Vec<u8> = Vec::new();
        self.encode_parts(&mut out, false);
        assert(out@ =~= self@.canonical());
        out
    }

    /// A copy of the transaction.
    pub fn duplicate(&self) -> (r: BlockchainTxnPaymentV2)
        ensures
            r@ == self@,
    {
        let mut payments: Vec<Payment> = Vec::new();
        let mut i: usize = 0;
        while i < self.payments.len()
            invariant
                i <= self.payments@.len(),
                payments@.len() == i,
                forall|j: int| 0 <= j < i ==> (#[trigger] payments@[j])@ == self.payments@[j]@,
            decreases self.payments@.len() - i,
        {
            payments.push(self.payments[i].duplicate());
            i += 1;
        }
        assert(payments_view(payments@) =~= payments_view(self.payments@));
        BlockchainTxnPaymentV2 {
            payer: copy_bytes(self.payer.as_slice()),
            payments,
            fee: self.fee,
            nonce: self.nonce,
            signature: copy_bytes(self.signature.as_slice()),
        }
    }

    /// The transaction that a run of fields describes.
    pub fn from_fields(fields: &Vec<Field>) -> (r: Option<BlockchainTxnPaymentV2>)
        ensures
            match r {
                Some(t) => fold_fields(fields_view(fields@), PaymentV2View::start()) == Some(t@),
                None => fold_fields(fields_view(fields@), PaymentV2View::start()) is None,
            },
    {
        let mut acc = BlockchainTxnPaymentV2 {
            payer: Vec::new(),
            payments: Vec::new(),
            fee: 0,
            nonce: 0,
            signature: Vec::new(),
        };
        let ghost all = fields_view(fields@);
        let mut i: usize = 0;
        assert(all.skip(0) =~= all);
        assert(acc@.payments =~= PaymentV2View::start().payments);
        while i < fields.len()
            invariant
                i <= fields@.len(),
                all == fields_view(fields@),
                fold_fields(all, PaymentV2View::start()) == fold_fields(all.skip(i as int), acc@),
            decreases fields@.len() - i,
        {
            let field = &fields[i];
            let ghost before = acc@;
            assert(all.skip(i as int)[0] == field@);
            assert(all.skip(i as int).skip(1) =~= all.skip(i + 1));
            match &field.value {
                Value::Bytes(b) => {
                    if field.number == PAYMENT_V2_PAYER {
                        acc.payer = copy_bytes(b.as_slice());
                    } else if field.number == PAYMENT_V2_PAYMENTS {
                        match Payment::from_vec(b.as_slice()) {
                            Some(p) => {
                                acc.payments.push(p);
                                assert(acc@.payments =~= before.payments.push(p@));
                            },
                            None => {
                                return None;
                            },
                        }
                    } else if field.number == PAYMENT_V2_SIGNATURE {
                        acc.signature = copy_bytes(b.as_slice());
                    } else {
                        return None;
                    }
                },
                Value::Varint(v) => {
                    if field.number == PAYMENT_V2_FEE {
                        acc.fee = *v;
                    } else if field.number == PAYMENT_V2_NONCE {
                        acc.nonce = *v;
                    } else {
                        return None;
                    }
                },
            }
            i += 1;
        }
        Some(acc)
    }

    /// The transaction that the bytes hold, if they hold one.
    pub fn from_vec(buf: &[u8]) -> (r: Option<BlockchainTxnPaymentV2>)
        ensures
            match r {
                Some(t) => decoding::<PaymentV2View>(buf@) == Some(t@),
                None => decoding::<PaymentV2View>(buf@) is None,
            },
    {
        match read_fields(buf) {
            Some(fields) => BlockchainTxnPaymentV2::from_fields(&fields),
            None => None,
        }
    }
}

} // verus!
