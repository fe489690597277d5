//! Allocation of an organizational unique identifier and its subnet.

use crate::wire::{
    copy_bytes, decoding, encode_fields, encoding, Field, fields_view, FieldView, fold_fields,
    Layout, lemma_decoding_encoding, lemma_encode_fields_push, lemma_extend_opt_bytes,
    lemma_extend_opt_varint, lemma_extend_run, lemma_extend_start, lemma_len_fits, one_bytes,
    opt_bytes, opt_varint, put_bytes, put_message, put_varint, read_fields, valid_field,
    valid_fields, Value, ValueView,
};
use vstd::prelude::*;

verus! {

/// Field numbers of an allocation.
pub const OUI_OWNER: u32 = 1;

pub const OUI_ADDRESSES: u32 = 2;

pub const OUI_FILTER: u32 = 3;

pub const OUI_REQUESTED_SUBNET_SIZE: u32 = 4;

pub const OUI_PAYER: u32 = 5;

pub const OUI_STAKING_FEE: u32 = 6;

pub const OUI_FEE: u32 = 7;

pub const OUI_OWNER_SIGNATURE: u32 = 8;

pub const OUI_PAYER_SIGNATURE: u32 = 9;

pub const OUI_OUI: u32 = 10;

/// Asks for a numeric identifier and a subnet of device addresses, for an
/// owner and a payer who each sign.
#[derive(Clone, Debug, PartialEq, Eq)]
pub struct BlockchainTxnOuiV1 {
    pub owner: Vec<u8>,
    pub addresses: Vec<Vec<u8>>,
    pub filter: Vec<u8>,
    pub requested_subnet_size: u32,
    pub payer: Vec<u8>,
    pub staking_fee: u64,
    pub fee: u64,
    pub owner_signature: Vec<u8>,
    pub payer_signature: Vec<u8>,
    pub oui: u64,
}

/// The mathematical value of an allocation.
pub struct OuiView {
    pub owner: Seq<u8>,
    pub addresses: Seq<Seq<u8>>,
    pub filter: Seq<u8>,
    pub requested_subnet_size: u32,
    pub payer: Seq<u8>,
    pub staking_fee: u64,
    pub fee: u64,
    pub owner_signature: Seq<u8>,
    pub payer_signature: Seq<u8>,
    pub oui: u64,
}

/// The views of a list of byte strings, in order.
pub open spec fn byte_strings_view(items: Seq<Vec<u8>>) -> Seq<Seq<u8>> {
    Seq::new(items.len(), |i: int| items[i]@)
}

/// The fields that a list of addresses is written as: one bytes field each.
pub open spec fn address_run(addresses: Seq<Seq<u8>>) -> Seq<FieldView> {
    Seq::new(
        addresses.len(),
        |i: int| FieldView { number: OUI_ADDRESSES, value: ValueView::Bytes(addresses[i]) },
    )
}

/// The 32-bit integer that a 64-bit integer read from the wire stands for:
/// its low 32 bits.
pub open spec fn low_u32(v: u64) -> u32 {
    (v % 0x1_0000_0000) as u32
}

impl View for BlockchainTxnOuiV1 {
    type V = OuiView;

    open spec fn view(&self) -> OuiView {
        OuiView {
            owner: self.owner@,
            addresses: byte_strings_view(self.addresses@),
            filter: self.filter@,
            requested_subnet_size: self.requested_subnet_size,
            payer: self.payer@,
            staking_fee: self.staking_fee,
            fee: self.fee,
            owner_signature: self.owner_signature@,
            payer_signature: self.payer_signature@,
            oui: self.oui,
        }
    }
}

impl Layout for OuiView {
    open spec fn start() -> Self {
        OuiView {
            owner: Seq::empty(),
            addresses: Seq::empty(),
            filter: Seq::empty(),
            requested_subnet_size: 0,
            payer: Seq::empty(),
            staking_fee: 0,
            fee: 0,
            owner_signature: Seq::empty(),
            payer_signature: Seq::empty(),
            oui: 0,
        }
    }

    open spec fn step(self, f: FieldView) -> Option<Self> {
        match f.value {
            ValueView::Bytes(b) => if f.number == OUI_OWNER {
                Some(OuiView { owner: b, ..self })
            } else if f.number == OUI_ADDRESSES {
                Some(OuiView { addresses: self.addresses.push(b), ..self })
            } else if f.number == OUI_FILTER {
                Some(OuiView { filter: b, ..self })
            } else if f.number == OUI_PAYER {
                Some(OuiView { payer: b, ..self })
            } else if f.number == OUI_OWNER_SIGNATURE {
                Some(OuiView { owner_signature: b, ..self })
            } else if f.number == OUI_PAYER_SIGNATURE {
                Some(OuiView { payer_signature: b, ..self })
            } else {
                None
            },
            ValueView::Varint(v) => if f.number == OUI_REQUESTED_SUBNET_SIZE {
                Some(OuiView { requested_subnet_size: low_u32(v), ..self })
            } else if f.number == OUI_STAKING_FEE {
                Some(OuiView { staking_fee: v, ..self })
            } else if f.number == OUI_FEE {
                Some(OuiView { fee: v, ..self })
            } else if f.number == OUI_OUI {
                Some(OuiView { oui: v, ..self })
            } else {
                None
            },
        }
    }

    open spec fn fields(self) -> Seq<FieldView> {
        opt_bytes(OUI_OWNER, self.owner) + address_run(self.addresses) + opt_bytes(
            OUI_FILTER,
            self.filter,
        ) + opt_varint(OUI_REQUESTED_SUBNET_SIZE, self.requested_subnet_size as u64) + opt_bytes(
            OUI_PAYER,
            self.payer,
        ) + opt_varint(OUI_STAKING_FEE, self.staking_fee) + opt_varint(OUI_FEE, self.fee)
            + opt_bytes(OUI_OWNER_SIGNATURE, self.owner_signature) + opt_bytes(
            OUI_PAYER_SIGNATURE,
            self.payer_signature,
        ) + opt_varint(OUI_OUI, self.oui)
    }
}

impl OuiView {
    /// The byte strings of the transaction have lengths that can be written.
    pub open spec fn wf(self) -> bool {
        &&& self.owner.len() <= u64::MAX
        &&& self.filter.len() <= u64::MAX
        &&& self.payer.len() <= u64::MAX
        &&& self.owner_signature.len() <= u64::MAX
        &&& self.payer_signature.len() <= u64::MAX
        &&& forall|i: int|
            0 <= i < self.addresses.len() ==> (#[trigger] self.addresses[i]).len() <= u64::MAX
    }

    /// The transaction with both signature slots emptied.
    pub open spec fn unsigned(self) -> Self {
        OuiView { owner_signature: Seq::empty(), payer_signature: Seq::empty(), ..self }
    }

    /// The bytes that each signer of this transaction signs.
    pub open spec fn canonical(self) -> Seq<u8> {
        encoding(self.unsigned())
    }
}

/// Reading the fields of a list of addresses adds the addresses, in order.
proof fn lemma_address_run_fold(addresses: Seq<Seq<u8>>, acc: OuiView)
    requires
        forall|i: int| 0 <= i < addresses.len() ==> (#[trigger] addresses[i]).len() <= u64::MAX,
    ensures
        fold_fields(address_run(addresses), acc) == Some(
            OuiView { addresses: acc.addresses + addresses, ..acc },
        ),
        valid_fields(address_run(addresses)),
    decreases addresses.len(),
{
    let run = address_run(addresses);
    assert forall|i: int| 0 <= i < run.len() implies valid_field(#[trigger] run[i]) by {
        assert(addresses[i].len() <= u64::MAX);
    }
    if addresses.len() == 0 {
        assert(acc.addresses + addresses =~= acc.addresses);
    } else {
        let next = OuiView { addresses: acc.addresses.push(addresses[0]), ..acc };
        assert(acc.step(run[0]) == Some(next));
        assert(run.skip(1) =~= address_run(addresses.skip(1)));
        lemma_address_run_fold(addresses.skip(1), next);
        assert(next.addresses + addresses.skip(1) =~= acc.addresses + addresses);
    }
}

/// An allocation is read back from its bytes.
pub proof fn lemma_oui_round_trip(t: OuiView)
    requires
        t.wf(),
    ensures
        decoding::<OuiView>(encoding(t)) == Some(t),
{
    let none = Seq::<FieldView>::empty();
    let size = t.requested_subnet_size as u64;
    let f1 = opt_bytes(OUI_OWNER, t.owner);
    let f2 = address_run(t.addresses);
    let f3 = opt_bytes(OUI_FILTER, t.filter);
    let f4 = opt_varint(OUI_REQUESTED_SUBNET_SIZE, size);
    let f5 = opt_bytes(OUI_PAYER, t.payer);
    let f6 = opt_varint(OUI_STAKING_FEE, t.staking_fee);
    let f7 = opt_varint(OUI_FEE, t.fee);
    let f8 = opt_bytes(OUI_OWNER_SIGNATURE, t.owner_signature);
    let f9 = opt_bytes(OUI_PAYER_SIGNATURE, t.payer_signature);
    let m0 = OuiView::start();
    let m1 = OuiView { owner: t.owner, ..m0 };
    let m2 = OuiView { addresses: t.addresses, ..m1 };
    let m3 = OuiView { filter: t.filter, ..m2 };
    let m4 = OuiView { requested_subnet_size: t.requested_subnet_size, ..m3 };
    let m5 = OuiView { payer: t.payer, ..m4 };
    let m6 = OuiView { staking_fee: t.staking_fee, ..m5 };
    let m7 = OuiView { fee: t.fee, ..m6 };
    let m8 = OuiView { owner_signature: t.owner_signature, ..m7 };
    let m9 = OuiView { payer_signature: t.payer_signature, ..m8 };
    assert(t.owner.len() == 0 ==> m1.owner =~= m0.owner);
    assert(t.filter.len() == 0 ==> m3.filter =~= m2.filter);
    assert(t.payer.len() == 0 ==> m5.payer =~= m4.payer);
    assert(t.owner_signature.len() == 0 ==> m8.owner_signature =~= m7.owner_signature);
    assert(t.payer_signature.len() == 0 ==> m9.payer_signature =~= m8.payer_signature);
    assert(low_u32(size) == t.requested_subnet_size);
    lemma_extend_start(m0);
    lemma_extend_opt_bytes(none, OUI_OWNER, t.owner, m0, m0, m1);
    assert(none + f1 =~= f1);
    lemma_address_run_fold(t.addresses, m1);
    assert(m1.addresses + t.addresses =~= t.addresses);
    lemma_extend_run(f1, f2, m0, m1, m2);
    lemma_extend_opt_bytes(f1 + f2, OUI_FILTER, t.filter, m0, m2, m3);
    lemma_extend_opt_varint(f1 + f2 + f3, OUI_REQUESTED_SUBNET_SIZE, size, m0, m3, m4);
    lemma_extend_opt_bytes(f1 + f2 + f3 + f4, OUI_PAYER, t.payer, m0, m4, m5);
    lemma_extend_opt_varint(f1 + f2 + f3 + f4 + f5, OUI_STAKING_FEE, t.staking_fee, m0, m5, m6);
    lemma_extend_opt_varint(f1 + f2 + f3 + f4 + f5 + f6, OUI_FEE, t.fee, m0, m6, m7);
    lemma_extend_opt_bytes(
        f1 + f2 + f3 + f4 + f5 + f6 + f7,
        OUI_OWNER_SIGNATURE,
        t.owner_signature,
        m0,
        m7,
        m8,
    );
    lemma_extend_opt_bytes(
        f1 + f2 + f3 + f4 + f5 + f6 + f7 + f8,
        OUI_PAYER_SIGNATURE,
        t.payer_signature,
        m0,
        m8,
        m9,
    );
    lemma_extend_opt_varint(
        f1 + f2 + f3 + f4 + f5 + f6 + f7 + f8 + f9,
        OUI_OUI,
        t.oui,
        m0,
        m9,
        t,
    );
    lemma_decoding_encoding(t);
}

impl BlockchainTxnOuiV1 {
    /// Appends the bytes of the transaction: with what its signature slots
    /// hold where `signed`, with the slots emptied where not.
    fn encode_parts(&self, out: &mut Vec<u8>, signed: bool)
        ensures
            final(out)@ == old(out)@ + encoding(
                if signed {
                    self@
                } else {
                    self@.unsigned()
                },
            ),
            self@.wf(),
    {
        let ghost t = if signed {
            self@
        } else {
            self@.unsigned()
        };
        let ghost base = old(out)@;
        let ghost f1 = opt_bytes(OUI_OWNER, t.owner);
        let ghost f2 = address_run(t.addresses);
        let ghost f3 = opt_bytes(OUI_FILTER, t.filter);
        let ghost f4 = opt_varint(OUI_REQUESTED_SUBNET_SIZE, t.requested_subnet_size as u64);
        let ghost f5 = opt_bytes(OUI_PAYER, t.payer);
        let ghost f6 = opt_varint(OUI_STAKING_FEE, t.staking_fee);
        let ghost f7 = opt_varint(OUI_FEE, t.fee);
        let ghost f8 = opt_bytes(OUI_OWNER_SIGNATURE, t.owner_signature);
        let ghost f9 = opt_bytes(OUI_PAYER_SIGNATURE, t.payer_signature);
        let ghost f10 = opt_varint(OUI_OUI, t.oui);
        proof {
            lemma_len_fits(&self.owner);
            lemma_len_fits(&self.filter);
            lemma_len_fits(&self.payer);
            lemma_len_fits(&self.owner_signature);
            lemma_len_fits(&self.payer_signature);
            assert forall|j: int| 0 <= j < t.addresses.len() implies (#[trigger] t.addresses[j]).len()
                <= u64::MAX by {
                lemma_len_fits(&self.addresses@[j]);
            }
        }
        let none: Vec<u8> = Vec::new();
        let owner_signature: &[u8] = if signed {
            self.owner_signature.as_slice()
        } else {
            none.as_slice()
        };
        let payer_signature: &[u8] = if signed {
            self.payer_signature.as_slice()
        } else {
            none.as_slice()
        };
        put_bytes(out, OUI_OWNER, self.owner.as_slice());
        let ghost mid = out@;
        let mut i: usize = 0;
        assert(address_run(t.addresses.take(0)) =~= Seq::<FieldView>::empty());
        assert(mid + encode_fields(Seq::<FieldView>::empty()) =~= mid);
        while i < self.addresses.len()
            invariant
                i <= self.addresses@.len(),
                t.addresses == byte_strings_view(self.addresses@),
                out@ == mid + encode_fields(address_run(t.addresses.take(i as int))),
            decreases self.addresses@.len() - i,
        {
            let ghost before = address_run(t.addresses.take(i as int));
            let ghost one = one_bytes(OUI_ADDRESSES, self.addresses@[i as int]@);
            put_message(out, OUI_ADDRESSES, self.addresses[i].as_slice());
            proof {
                assert(address_run(t.addresses.take(i + 1)) =~= before + one);
                lemma_encode_fields_push(mid, before, one);
            }
            i += 1;
        }
        assert(t.addresses.take(i as int) =~= t.addresses);
        proof {
            lemma_encode_fields_push(base, f1, f2);
        }
        put_bytes(out, OUI_FILTER, self.filter.as_slice());
        proof {
            lemma_encode_fields_push(base, f1 + f2, f3);
        }
        put_varint(out, OUI_REQUESTED_SUBNET_SIZE, self.requested_subnet_size as u64);
        proof {
            lemma_encode_fields_push(base, f1 + f2 + f3, f4);
        }
        put_bytes(out, OUI_PAYER, self.payer.as_slice());
        proof {
            lemma_encode_fields_push(base, f1 + f2 + f3 + f4, f5);
        }
        put_varint(out, OUI_STAKING_FEE, self.staking_fee);
        proof {
            lemma_encode_fields_push(base, f1 + f2 + f3 + f4 + f5, f6);
        }
        put_varint(out, OUI_FEE, self.fee);
        proof {
            lemma_encode_fields_push(base, f1 + f2 + f3 + f4 + f5 + f6, f7);
        }
        put_bytes(out, OUI_OWNER_SIGNATURE, owner_signature);
        proof {
            lemma_encode_fields_push(base, f1 + f2 + f3 + f4 + f5 + f6 + f7, f8);
        }
        put_bytes(out, OUI_PAYER_SIGNATURE, payer_signature);
        proof {
            lemma_encode_fields_push(base, f1 + f2 + f3 + f4 + f5 + f6 + f7 + f8, f9);
        }
        put_varint(out, OUI_OUI, self.oui);
        proof {
            lemma_encode_fields_push(base, f1 + f2 + f3 + f4 + f5 + f6 + f7 + f8 + f9, f10);
        }
    }

    /// The bytes of the transaction, signatures included.
    pub fn to_vec(&self) -> (r: Vec<u8>)
        ensures
            r@ == encoding(self@),
            self@.wf(),
    {
        let mut out: Vec<u8> = Vec::new();
        self.encode_parts(&mut out, true);
        assert(out@ =~= encoding(self@));
        out
    }

    /// The bytes that each signer of this transaction signs: its bytes with
    /// both signature slots emptied.
    pub fn canonical(&self) -> (r: Vec<u8>)
        ensures
            r@ == self@.canonical(),
    {
        let mut out: Vec<u8> = Vec::new();
        self.encode_parts(&mut out, false);
        assert(out@ =~= self@.canonical());
        out
    }

    /// A copy of the transaction.
    pub fn duplicate(&self) -> (r: BlockchainTxnOuiV1)
        ensures
            r@ == self@,
    {
        let mut addresses: Vec<Vec<u8>> = Vec::new();
        let mut i: usize = 0;
        while i < self.addresses.len()
            invariant
                i <= self.addresses@.len(),
                addresses@.len() == i,
                forall|j: int| 0 <= j < i ==> (#[trigger] addresses@[j])@ == self.addresses@[j]@,
            decreases self.addresses@.len() - i,
        {
            addresses.push(copy_bytes(self.addresses[i].as_slice()));
            i += 1;
        }
        assert(byte_strings_view(addresses@) =~= byte_strings_view(self.addresses@));
        BlockchainTxnOuiV1 {
            owner: copy_bytes(self.owner.as_slice()),
            addresses,
            filter: copy_bytes(self.filter.as_slice()),
            requested_subnet_size: self.requested_subnet_size,
            payer: copy_bytes(self.payer.as_slice()),
            staking_fee: self.staking_fee,
            fee: self.fee,
            owner_signature: copy_bytes(self.owner_signature.as_slice()),
            payer_signature: copy_bytes(self.payer_signature.as_slice()),
            oui: self.oui,
        }
    }

    /// The transaction that a run of fields describes.
    pub fn from_fields(fields: &Vec<Field>) -> (r: Option<BlockchainTxnOuiV1>)
        ensures
            match r {
                Some(t) => fold_fields(fields_view(fields@), OuiView::start()) == Some(t@),
                None => fold_fields(fields_view(fields@), OuiView::start()) is None,
            },
    {
        let mut acc = BlockchainTxnOuiV1 {
            owner: Vec::new(),
            addresses: Vec::new(),
            filter: Vec::new(),
            requested_subnet_size: 0,
            payer: Vec::new(),
            staking_fee: 0,
            fee: 0,
            owner_signature: Vec::new(),
            payer_signature: Vec::new(),
            oui: 0,
        };
        let ghost all = fields_view(fields@);
        let mut i: usize = 0;
        assert(all.skip(0) =~= all);
        assert(acc@.addresses =~= OuiView::start().addresses);
        while i < fields.len()
            invariant
                i <= fields@.len(),
                all == fields_view(fields@),
                fold_fields(all, OuiView::start()) == fold_fields(all.skip(i as int), acc@),
            decreases fields@.len() - i,
        {
            let field = &fields[i];
            let ghost before = acc@;
            assert(all.skip(i as int)[0] == field@);
            assert(all.skip(i as int).skip(1) =~= all.skip(i + 1));
            match &field.value {
                Value::Bytes(b) => {
                    if field.number == OUI_OWNER {
                        acc.owner = copy_bytes(b.as_slice());
                    } else if field.number == OUI_ADDRESSES {
                        let address = copy_bytes(b.as_slice());
                        acc.addresses.push(address);
                        assert(acc@.addresses =~= before.addresses.push(b@));
                    } else if field.number == OUI_FILTER {
                        acc.filter = copy_bytes(b.as_slice());
                    } else if field.number == OUI_PAYER {
                        acc.payer = copy_bytes(b.as_slice());
                    } else if field.number == OUI_OWNER_SIGNATURE {
                        acc.owner_signature = copy_bytes(b.as_slice());
                    } else if field.number == OUI_PAYER_SIGNATURE {
                        acc.payer_signature = copy_bytes(b.as_slice());
                    } else {
                        return None;
                    }
                },
                Value::Varint(v) => {
                    if field.number == OUI_REQUESTED_SUBNET_SIZE {
                        acc.requested_subnet_size = (*v % 0x1_0000_0000) as u32;
                    } else if field.number == OUI_STAKING_FEE {
                        acc.staking_fee = *v;
                    } else if field.number == OUI_FEE {
                        acc.fee = *v;
                    } else if field.number == OUI_OUI {
                        acc.oui = *v;
                    } else {
                        return None;
                    }
                },
            }
            i += 1;
        }
        Some(acc)
    }

    /// The transaction that the bytes hold, if they hold one.
    pub fn from_vec(buf: &[u8]) -> (r: Option<BlockchainTxnOuiV1>)
        ensures
            match r {
                Some(t) => decoding::<OuiView>(buf@) == Some(t@),
                None => decoding::<OuiView>(buf@) is None,
            },
    {
        match read_fields(buf) {
            Some(fields) => BlockchainTxnOuiV1::from_fields(&fields),
            None => None,
        }
    }
}

} // verus!
