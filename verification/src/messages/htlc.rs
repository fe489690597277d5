//! Hashed timelock contracts: creating one and redeeming from one.

use crate::wire::{
    copy_bytes, decoding, encoding, Field, fields_view, FieldView, fold_fields, Layout,
    lemma_decoding_encoding, lemma_encode_fields_push, lemma_extend_opt_bytes,
    lemma_extend_opt_varint, lemma_extend_start, lemma_len_fits, opt_bytes, opt_varint,
    put_bytes, put_varint, read_fields, Value, ValueView,
};
use vstd::prelude::*;

verus! {

/// Field numbers of a contract creation.
pub const CREATE_HTLC_PAYER: u32 = 1;

pub const CREATE_HTLC_PAYEE: u32 = 2;

pub const CREATE_HTLC_ADDRESS: u32 = 3;

pub const CREATE_HTLC_HASHLOCK: u32 = 4;

pub const CREATE_HTLC_TIMELOCK: u32 = 5;

pub const CREATE_HTLC_AMOUNT: u32 = 6;

pub const CREATE_HTLC_FEE: u32 = 7;

pub const CREATE_HTLC_SIGNATURE: u32 = 8;

pub const CREATE_HTLC_NONCE: u32 = 9;

/// Locks an amount at a fresh contract address behind a hash and a block
/// height.
#[derive(Clone, Debug, PartialEq, Eq)]
pub struct BlockchainTxnCreateHtlcV1 {
    pub payer: Vec<u8>,
    pub payee: Vec<u8>,
    pub address: Vec<u8>,
    pub hashlock: Vec<u8>,
    pub timelock: u64,
    pub amount: u64,
    pub fee: u64,
    pub signature: Vec<u8>,
    pub nonce: u64,
}

/// The mathematical value of a contract creation.
pub struct CreateHtlcView {
    pub payer: Seq<u8>,
    pub payee: Seq<u8>,
    pub address: Seq<u8>,
    pub hashlock: Seq<u8>,
    pub timelock: u64,
    pub amount: u64,
    pub fee: u64,
    pub signature: Seq<u8>,
    pub nonce: u64,
}

impl View for BlockchainTxnCreateHtlcV1 {
    type V = CreateHtlcView;

    open spec fn view(&self) -> CreateHtlcView {
        CreateHtlcView {
            payer: self.payer@,
            payee: self.payee@,
            address: self.address@,
            hashlock: self.hashlock@,
            timelock: self.timelock,
            amount: self.amount,
            fee: self.fee,
            signature: self.signature@,
            nonce: self.nonce,
        }
    }
}

impl Layout for CreateHtlcView {
    open spec fn start() -> Self {
        CreateHtlcView {
            payer: Seq::empty(),
            payee: Seq::empty(),
            address: Seq::empty(),
            hashlock: Seq::empty(),
            timelock: 0,
            amount: 0,
            fee: 0,
            signature: Seq::empty(),
            nonce: 0,
        }
    }

    open spec fn step(self, f: FieldView) -> Option<Self> {
        match f.value {
            ValueView::Bytes(b) => if f.number == CREATE_HTLC_PAYER {
                Some(CreateHtlcView { payer: b, ..self })
            } else if f.number == CREATE_HTLC_PAYEE {
                Some(CreateHtlcView { payee: b, ..self })
            } else if f.number == CREATE_HTLC_ADDRESS {
                Some(CreateHtlcView { address: b, ..self })
            } else if f.number == CREATE_HTLC_HASHLOCK {
                Some(CreateHtlcView { hashlock: b, ..self })
            } else if f.number == CREATE_HTLC_SIGNATURE {
                Some(CreateHtlcView { signature: b, ..self })
            } else {
                None
            },
            ValueView::Varint(v) => if f.number == CREATE_HTLC_TIMELOCK {
                Some(CreateHtlcView { timelock: v, ..self })
            } else if f.number == CREATE_HTLC_AMOUNT {
                Some(CreateHtlcView { amount: v, ..self })
            } else if f.number == CREATE_HTLC_FEE {
                Some(CreateHtlcView { fee: v, ..self })
            } else if f.number == CREATE_HTLC_NONCE {
                Some(CreateHtlcView { nonce: v, ..self })
            } else {
                None
            },
        }
    }

    open spec fn fields(self) -> Seq<FieldView> {
        opt_bytes(CREATE_HTLC_PAYER, self.payer) + opt_bytes(CREATE_HTLC_PAYEE, self.payee)
            + opt_bytes(CREATE_HTLC_ADDRESS, self.address) + opt_bytes(
            CREATE_HTLC_HASHLOCK,
            self.hashlock,
        ) + opt_varint(CREATE_HTLC_TIMELOCK, self.timelock) + opt_varint(
            CREATE_HTLC_AMOUNT,
            self.amount,
        ) + opt_varint(CREATE_HTLC_FEE, self.fee) + opt_bytes(
            CREATE_HTLC_SIGNATURE,
            self.signature,
        ) + opt_varint(CREATE_HTLC_NONCE, self.nonce)
    }
}

impl CreateHtlcView {
    /// The byte strings of the transaction have lengths that can be written.
    pub open spec fn wf(self) -> bool {
        &&& self.payer.len() <= u64::MAX
        &&& self.payee.len() <= u64::MAX
        &&& self.address.len() <= u64::MAX
        &&& self.hashlock.len() <= u64::MAX
        &&& self.signature.len() <= u64::MAX
    }

    /// The transaction with its signature slot emptied.
    pub open spec fn unsigned(self) -> Self {
        CreateHtlcView { signature: Seq::empty(), ..self }
    }

    /// The bytes that a signer of this transaction signs.
    pub open spec fn canonical(self) -> Seq<u8> {
        encoding(self.unsigned())
    }
}

/// A contract creation is read back from its bytes.
pub proof fn lemma_create_htlc_round_trip(t: CreateHtlcView)
    requires
        t.wf(),
    ensures
        decoding::<CreateHtlcView>(encoding(t)) == Some(t),
{
    let none = Seq::<FieldView>::empty();
    let f1 = opt_bytes(CREATE_HTLC_PAYER, t.payer);
    let f2 = opt_bytes(CREATE_HTLC_PAYEE, t.payee);
    let f3 = opt_bytes(CREATE_HTLC_ADDRESS, t.address);
    let f4 = opt_bytes(CREATE_HTLC_HASHLOCK, t.hashlock);
    let f5 = opt_varint(CREATE_HTLC_TIMELOCK, t.timelock);
    let f6 = opt_varint(CREATE_HTLC_AMOUNT, t.amount);
    let f7 = opt_varint(CREATE_HTLC_FEE, t.fee);
    let f8 = opt_bytes(CREATE_HTLC_SIGNATURE, t.signature);
    let m0 = CreateHtlcView::start();
    let m1 = CreateHtlcView { payer: t.payer, ..m0 };
    let m2 = CreateHtlcView { payee: t.payee, ..m1 };
    let m3 = CreateHtlcView { address: t.address, ..m2 };
    let m4 = CreateHtlcView { hashlock: t.hashlock, ..m3 };
    let m5 = CreateHtlcView { timelock: t.timelock, ..m4 };
    let m6 = CreateHtlcView { amount: t.amount, ..m5 };
    let m7 = CreateHtlcView { fee: t.fee, ..m6 };
    let m8 = CreateHtlcView { signature: t.signature, ..m7 };
    assert(t.payer.len() == 0 ==> m1.payer =~= m0.payer);
    assert(t.payee.len() == 0 ==> m2.payee =~= m1.payee);
    assert(t.address.len() == 0 ==> m3.address =~= m2.address);
    assert(t.hashlock.len() == 0 ==> m4.hashlock =~= m3.hashlock);
    assert(t.signature.len() == 0 ==> m8.signature =~= m7.signature);
    lemma_extend_start(m0);
    lemma_extend_opt_bytes(none, CREATE_HTLC_PAYER, t.payer, m0, m0, m1);
    assert(none + f1 =~= f1);
    lemma_extend_opt_bytes(f1, CREATE_HTLC_PAYEE, t.payee, m0, m1, m2);
    lemma_extend_opt_bytes(f1 + f2, CREATE_HTLC_ADDRESS, t.address, m0, m2, m3);
    lemma_extend_opt_bytes(f1 + f2 + f3, CREATE_HTLC_HASHLOCK, t.hashlock, m0, m3, m4);
    lemma_extend_opt_varint(f1 + f2 + f3 + f4, CREATE_HTLC_TIMELOCK, t.timelock, m0, m4, m5);
    lemma_extend_opt_varint(f1 + f2 + f3 + f4 + f5, CREATE_HTLC_AMOUNT, t.amount, m0, m5, m6);
    lemma_extend_opt_varint(f1 + f2 + f3 + f4 + f5 + f6, CREATE_HTLC_FEE, t.fee, m0, m6, m7);
    lemma_extend_opt_bytes(
        f1 + f2 + f3 + f4 + f5 + f6 + f7,
        CREATE_HTLC_SIGNATURE,
        t.signature,
        m0,
        m7,
        m8,
    );
    lemma_extend_opt_varint(
        f1 + f2 + f3 + f4 + f5 + f6 + f7 + f8,
        CREATE_HTLC_NONCE,
        t.nonce,
        m0,
        m8,
        t,
    );
    lemma_decoding_encoding(t);
}

impl BlockchainTxnCreateHtlcV1 {
    /// Appends the bytes of the transaction: with what its signature slots
    /// hold where `signed`, with the slots emptied where not.
    fn encode_parts(&self, out: &mut Vec<u8>, signed: bool)
        ensures
            final(out)@ == old(out)@ + encoding(
                if signed {
                    self@
                } else {
                    self@.unsigned()
                },
            ),
            self@.wf(),
    {
        let ghost t = if signed {
            self@
        } else {
            self@.unsigned()
        };
        let ghost base = old(out)@;
        let ghost f1 = opt_bytes(CREATE_HTLC_PAYER, t.payer);
        let ghost f2 = opt_bytes(CREATE_HTLC_PAYEE, t.payee);
        let ghost f3 = opt_bytes(CREATE_HTLC_ADDRESS, t.address);
        let ghost f4 = opt_bytes(CREATE_HTLC_HASHLOCK, t.hashlock);
        let ghost f5 = opt_varint(CREATE_HTLC_TIMELOCK, t.timelock);
        let ghost f6 = opt_varint(CREATE_HTLC_AMOUNT, t.amount);
        let ghost f7 = opt_varint(CREATE_HTLC_FEE, t.fee);
        let ghost f8 = opt_bytes(CREATE_HTLC_SIGNATURE, t.signature);
        let ghost f9 = opt_varint(CREATE_HTLC_NONCE, t.nonce);
        proof {
            lemma_len_fits(&self.payer);
            lemma_len_fits(&self.payee);
            lemma_len_fits(&self.address);
            lemma_len_fits(&self.hashlock);
            lemma_len_fits(&self.signature);
        }
        let none: Vec<u8> = Vec::new();
        let signature: &[u8] = if signed {
            self.signature.as_slice()
        } else {
            none.as_slice()
        };
        put_bytes(out, CREATE_HTLC_PAYER, self.payer.as_slice());
        put_bytes(out, CREATE_HTLC_PAYEE, self.payee.as_slice());
        proof {
            lemma_encode_fields_push(base, f1, f2);
        }
        put_bytes(out, CREATE_HTLC_ADDRESS, self.address.as_slice());
        proof {
            lemma_encode_fields_push(base, f1 + f2, f3);
        }
        put_bytes(out, CREATE_HTLC_HASHLOCK, self.hashlock.as_slice());
        proof {
            lemma_encode_fields_push(base, f1 + f2 + f3, f4);
        }
        put_varint(out, CREATE_HTLC_TIMELOCK, self.timelock);
        proof {
            lemma_encode_fields_push(base, f1 + f2 + f3 + f4, f5);
        }
        put_varint(out, CREATE_HTLC_AMOUNT, self.amount);
        proof {
            lemma_encode_fields_push(base, f1 + f2 + f3 + f4 + f5, f6);
        }
        put_varint(out, CREATE_HTLC_FEE, self.fee);
        proof {
            lemma_encode_fields_push(base, f1 + f2 + f3 + f4 + f5 + f6, f7);
        }
        put_bytes(out, CREATE_HTLC_SIGNATURE, signature);
        proof {
            lemma_encode_fields_push(base, f1 + f2 + f3 + f4 + f5 + f6 + f7, f8);
        }
        put_varint(out, CREATE_HTLC_NONCE, self.nonce);
        proof {
            lemma_encode_fields_push(base, f1 + f2 + f3 + f4 + f5 + f6 + f7 + f8, f9);
        }
    }

    /// The bytes of the transaction, signature included.
    pub fn to_vec(&self) -> (r: Vec<u8>)
        ensures
            r@ == encoding(self@),
            self@.wf(),
    {
        let mut out: Vec<u8> = Vec::new();
        self.encode_parts(&mut out, true);
        assert(out@ =~= encoding(self@));
        out
    }

    /// The bytes that a signer of this transaction signs: its bytes with
    /// the signature slot emptied.
    pub fn canonical(&self) -> (r: Vec<u8>)
        ensures
            r@ == self@.canonical(),
    {
        let mut out: Vec<u8> = Vec::new();
        self.encode_parts(&mut out, false);
        assert(out@ =~= self@.canonical());
        out
    }

    /// A copy of the transaction.
    pub fn duplicate(&self) -> (r: BlockchainTxnCreateHtlcV1)
        ensures
            r@ == self@,
    {
        BlockchainTxnCreateHtlcV1 {
            payer: copy_bytes(self.payer.as_slice()),
            payee: copy_bytes(self.payee.as_slice()),
            address: copy_bytes(self.address.as_slice()),
            hashlock: copy_bytes(self.hashlock.as_slice()),
            timelock: self.timelock,
            amount: self.amount,
            fee: self.fee,
            signature: copy_bytes(self.signature.as_slice()),
            nonce: self.nonce,
        }
    }

    /// The transaction that a run of fields describes.
    pub fn from_fields(fields: &Vec<Field>) -> (r: Option<BlockchainTxnCreateHtlcV1>)
        ensures
            match r {
                Some(t) => fold_fields(fields_view(fields@), CreateHtlcView::start()) == Some(t@),
                None => fold_fields(fields_view(fields@), CreateHtlcView::start()) is None,
            },
    {
        let mut acc = BlockchainTxnCreateHtlcV1 {
            payer: Vec::new(),
            payee: Vec::new(),
            address: Vec::new(),
            hashlock: Vec::new(),
            timelock: 0,
            amount: 0,
            fee: 0,
            signature: Vec::new(),
            nonce: 0,
        };
        let ghost all = fields_view(fields@);
        let mut i: usize = 0;
        assert(all.skip(0) =~= all);
        while i < fields.len()
            invariant
                i <= fields@.len(),
                all == fields_view(fields@),
                fold_fields(all, CreateHtlcView::start()) == fold_fields(all.skip(i as int), acc@),
            decreases fields@.len() - i,
        {
            let field = &fields[i];
            assert(all.skip(i as int)[0] == field@);
            assert(all.skip(i as int).skip(1) =~= all.skip(i + 1));
            match &field.value {
                Value::Bytes(b) => {
                    if field.number == CREATE_HTLC_PAYER {
                        acc.payer = copy_bytes(b.as_slice());
                    } else if field.number == CREATE_HTLC_PAYEE {
                        acc.payee = copy_bytes(b.as_slice());
                    } else if field.number == CREATE_HTLC_ADDRESS {
                        acc.address = copy_bytes(b.as_slice());
                    } else if field.number == CREATE_HTLC_HASHLOCK {
                        acc.hashlock = copy_bytes(b.as_slice());
                    } else if field.number == CREATE_HTLC_SIGNATURE {
                        acc.signature = copy_bytes(b.as_slice());
                    } else {
                        return None;
                    }
                },
                Value::Varint(v) => {
                    if field.number == CREATE_HTLC_TIMELOCK {
                        acc.timelock = *v;
                    } else if field.number == CREATE_HTLC_AMOUNT {
                        acc.amount = *v;
                    } else if field.number == CREATE_HTLC_FEE {
                        acc.fee = *v;
                    } else if field.number == CREATE_HTLC_NONCE {
                        acc.nonce = *v;
                    } else {
                        return None;
                    }
                },
            }
            i += 1;
        }
        Some(acc)
    }

    /// The transaction that the bytes hold, if they hold one.
    pub fn from_vec(buf: &[u8]) -> (r: Option<BlockchainTxnCreateHtlcV1>)
        ensures
            match r {
                Some(t) => decoding::<CreateHtlcView>(buf@) == Some(t@),
                None => decoding::<CreateHtlcView>(buf@) is None,
            },
    {
        match read_fields(buf) {
            Some(fields) => BlockchainTxnCreateHtlcV1::from_fields(&fields),
            None => None,
        }
    }
}

/// Field numbers of a redemption.
pub const REDEEM_HTLC_PAYEE: u32 = 1;

pub const REDEEM_HTLC_ADDRESS: u32 = 2;

pub const REDEEM_HTLC_PREIMAGE: u32 = 3;

pub const REDEEM_HTLC_FEE: u32 = 4;

pub const REDEEM_HTLC_SIGNATURE: u32 = 5;

/// Claims the amount locked at a contract address by showing the preimage
/// of its hash.
#[derive(Clone, Debug, PartialEq, Eq)]
pub struct BlockchainTxnRedeemHtlcV1 {
    pub payee: Vec<u8>,
    pub address: Vec<u8>,
    pub preimage: Vec<u8>,
    pub fee: u64,
    pub signature: Vec<u8>,
}

/// The mathematical value of a redemption.
pub struct RedeemHtlcView {
    pub payee: Seq<u8>,
    pub address: Seq<u8>,
    pub preimage: Seq<u8>,
    pub fee: u64,
    pub signature: Seq<u8>,
}

impl View for BlockchainTxnRedeemHtlcV1 {
    type V = RedeemHtlcView;

    open spec fn view(&self) -> RedeemHtlcView {
        RedeemHtlcView {
            payee: self.payee@,
            address: self.address@,
            preimage: self.preimage@,
            fee: self.fee,
            signature: self.signature@,
        }
    }
}

impl Layout for RedeemHtlcView {
    open spec fn start() -> Self {
        RedeemHtlcView {
            payee: Seq::empty(),
            address: Seq::empty(),
            preimage: Seq::empty(),
            fee: 0,
            signature: Seq::empty(),
        }
    }

    open spec fn step(self, f: FieldView) -> Option<Self> {
        match f.value {
            ValueView::Bytes(b) => if f.number == REDEEM_HTLC_PAYEE {
                Some(RedeemHtlcView { payee: b, ..self })
            } else if f.number == REDEEM_HTLC_ADDRESS {
                Some(RedeemHtlcView { address: b, ..self })
            } else if f.number == REDEEM_HTLC_PREIMAGE {
                Some(RedeemHtlcView { preimage: b, ..self })
            } else if f.number == REDEEM_HTLC_SIGNATURE {
                Some(RedeemHtlcView { signature: b, ..self })
            } else {
                None
            },
            ValueView::Varint(v) => if f.number == REDEEM_HTLC_FEE {
                Some(RedeemHtlcView { fee: v, ..self })
            } else {
                None
            },
        }
    }

    open spec fn fields(self) -> Seq<FieldView> {
        opt_bytes(REDEEM_HTLC_PAYEE, self.payee) + opt_bytes(REDEEM_HTLC_ADDRESS, self.address)
            + opt_bytes(REDEEM_HTLC_PREIMAGE, self.preimage) + opt_varint(
            REDEEM_HTLC_FEE,
            self.fee,
        ) + opt_bytes(REDEEM_HTLC_SIGNATURE, self.signature)
    }
}

impl RedeemHtlcView {
    /// The byte strings of the transaction have lengths that can be written.
    pub open spec fn wf(self) -> bool {
        &&& self.payee.len() <= u64::MAX
        &&& self.address.len() <= u64::MAX
        &&& self.preimage.len() <= u64::MAX
        &&& self.signature.len() <= u64::MAX
    }

    /// The transaction with its signature slot emptied.
    pub open spec fn unsigned(self) -> Self {
        RedeemHtlcView { signature: Seq::empty(), ..self }
    }

    /// The bytes that a signer of this transaction signs.
    pub open spec fn canonical(self) -> Seq<u8> {
        encoding(self.unsigned())
    }
}

/// A redemption is read back from its bytes.
pub proof fn lemma_redeem_htlc_round_trip(t: RedeemHtlcView)
    requires
        t.wf(),
    ensures
        decoding::<RedeemHtlcView>(encoding(t)) == Some(t),
{
    let none = Seq::<FieldView>::empty();
    let f1 = opt_bytes(REDEEM_HTLC_PAYEE, t.payee);
    let f2 = opt_bytes(REDEEM_HTLC_ADDRESS, t.address);
    let f3 = opt_bytes(REDEEM_HTLC_PREIMAGE, t.preimage);
    let f4 = opt_varint(REDEEM_HTLC_FEE, t.fee);
    let m0 = RedeemHtlcView::start();
    let m1 = RedeemHtlcView { payee: t.payee, ..m0 };
    let m2 = RedeemHtlcView { address: t.address, ..m1 };
    let m3 = RedeemHtlcView { preimage: t.preimage, ..m2 };
    let m4 = RedeemHtlcView { fee: t.fee, ..m3 };
    assert(t.payee.len() == 0 ==> m1.payee =~= m0.payee);
    assert(t.address.len() == 0 ==> m2.address =~= m1.address);
    assert(t.preimage.len() == 0 ==> m3.preimage =~= m2.preimage);
    assert(t.signature.len() == 0 ==> t.signature =~= m4.signature);
    lemma_extend_start(m0);
    lemma_extend_opt_bytes(none, REDEEM_HTLC_PAYEE, t.payee, m0, m0, m1);
    assert(none + f1 =~= f1);
    lemma_extend_opt_bytes(f1, REDEEM_HTLC_ADDRESS, t.address, m0, m1, m2);
    lemma_extend_opt_bytes(f1 + f2, REDEEM_HTLC_PREIMAGE, t.preimage, m0, m2, m3);
    lemma_extend_opt_varint(f1 + f2 + f3, REDEEM_HTLC_FEE, t.fee, m0, m3, m4);
    lemma_extend_opt_bytes(f1 + f2 + f3 + f4, REDEEM_HTLC_SIGNATURE, t.signature, m0, m4, t);
    lemma_decoding_encoding(t);
}

impl BlockchainTxnRedeemHtlcV1 {
    /// Appends the bytes of the transaction: with what its signature slots
    /// hold where `signed`, with the slots emptied where not.
    fn encode_parts(&self, out: &mut Vec<u8>, signed: bool)
        ensures
            final(out)@ == old(out)@ + encoding(
                if signed {
                    self@
                } else {
                    self@.unsigned()
                },
            ),
            self@.wf(),
    {
        let ghost t = if signed {
            self@
        } else {
            self@.unsigned()
        };
        let ghost base = old(out)@;
        let ghost f1 = opt_bytes(REDEEM_HTLC_PAYEE, t.payee);
        let ghost f2 = opt_bytes(REDEEM_HTLC_ADDRESS, t.address);
        let ghost f3 = opt_bytes(REDEEM_HTLC_PREIMAGE, t.preimage);
        let ghost f4 = opt_varint(REDEEM_HTLC_FEE, t.fee);
        let ghost f5 = opt_bytes(REDEEM_HTLC_SIGNATURE, t.signature);
        proof {
            lemma_len_fits(&self.payee);
            lemma_len_fits(&self.address);
            lemma_len_fits(&self.preimage);
            lemma_len_fits(&self.signature);
        }
        let none: Vec<u8> = Vec::new();
        let signature: &[u8] = if signed {
            self.signature.as_slice()
        } else {
            none.as_slice()
        };
        put_bytes(out, REDEEM_HTLC_PAYEE, self.payee.as_slice());
        put_bytes(out, REDEEM_HTLC_ADDRESS, self.address.as_slice());
        proof {
            lemma_encode_fields_push(base, f1, f2);
        }
        put_bytes(out, REDEEM_HTLC_PREIMAGE, self.preimage.as_slice());
        proof {
            lemma_encode_fields_push(base, f1 + f2, f3);
        }
        put_varint(out, REDEEM_HTLC_FEE, self.fee);
        proof {
            lemma_encode_fields_push(base, f1 + f2 + f3, f4);
        }
        put_bytes(out, REDEEM_HTLC_SIGNATURE, signature);
        proof {
            lemma_encode_fields_push(base, f1 + f2 + f3 + f4, f5);
        }
    }

    /// The bytes of the transaction, signature included.
    pub fn to_vec(&self) -> (r: Vec<u8>)
        ensures
            r@ == encoding(self@),
            self@.wf(),
    {
        let mut out: Vec<u8> = Vec::new();
        self.encode_parts(&mut out, true);
        assert(out@ =~= encoding(self@));
        out
    }

    /// The bytes that a signer of this transaction signs: its bytes with
    /// the signature slot emptied.
    pub fn canonical(&self) -> (r: Vec<u8>)
        ensures
            r@ == self@.canonical(),
    {
        let mut out: Vec<u8> = Vec::new();
        self.encode_parts(&mut out, false);
        assert(out@ =~= self@.canonical());
        out
    }

    /// A copy of the transaction.
    pub fn duplicate(&self) -> (r: BlockchainTxnRedeemHtlcV1)
        ensures
            r@ == self@,
    {
        BlockchainTxnRedeemHtlcV1 {
            payee: copy_bytes(self.payee.as_slice()),
            address: copy_bytes(self.address.as_slice()),
            preimage: copy_bytes(self.preimage.as_slice()),
            fee: self.fee,
            signature: copy_bytes(self.signature.as_slice()),
        }
    }

    /// The transaction that a run of fields describes.
    pub fn from_fields(fields: &Vec<Field>) -> (r: Option<BlockchainTxnRedeemHtlcV1>)
        ensures
            match r {
                Some(t) => fold_fields(fields_view(fields@), RedeemHtlcView::start()) == Some(t@),
                None => fold_fields(fields_view(fields@), RedeemHtlcView::start()) is None,
            },
    {
        let mut acc = BlockchainTxnRedeemHtlcV1 {
            payee: Vec::new(),
            address: Vec::new(),
            preimage: Vec::new(),
            fee: 0,
            signature: Vec::new(),
        };
        let ghost all = fields_view(fields@);
        let mut i: usize = 0;
        assert(all.skip(0) =~= all);
        while i < fields.len()
            invariant
                i <= fields@.len(),
                all == fields_view(fields@),
                fold_fields(all, RedeemHtlcView::start()) == fold_fields(all.skip(i as int), acc@),
            decreases fields@.len() - i,
        {
            let field = &fields[i];
            assert(all.skip(i as int)[0] == field@);
            assert(all.skip(i as int).skip(1) =~= all.skip(i + 1));
            match &field.value {
                Value::Bytes(b) => {
                    if field.number == REDEEM_HTLC_PAYEE {
                        acc.payee = copy_bytes(b.as_slice());
                    } else if field.number == REDEEM_HTLC_ADDRESS {
                        acc.address = copy_bytes(b.as_slice());
                    } else if field.number == REDEEM_HTLC_PREIMAGE {
                        acc.preimage = copy_bytes(b.as_slice());
                    } else if field.number == REDEEM_HTLC_SIGNATURE {
                        acc.signature = copy_bytes(b.as_slice());
                    } else {
                        return None;
                    }
                },
                Value::Varint(v) => {
                    if field.number == REDEEM_HTLC_FEE {
                        acc.fee = *v;
                    } else {
                        return None;
                    }
                },
            }
            i += 1;
        }
        Some(acc)
    }

    /// The transaction that the bytes hold, if they hold one.
    pub fn from_vec(buf: &[u8]) -> (r: Option<BlockchainTxnRedeemHtlcV1>)
        ensures
            match r {
                Some(t) => decoding::<RedeemHtlcView>(buf@) == Some(t@),
                None => decoding::<RedeemHtlcView>(buf@) is None,
            },
    {
        match read_fields(buf) {
            Some(fields) => BlockchainTxnRedeemHtlcV1::from_fields(&fields),
            None => None,
        }
    }
}

} // verus!
