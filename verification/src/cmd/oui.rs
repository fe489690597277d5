//! Allocating an organizational unique identifier, and submitting an
//! allocation that someone else has co-signed.

use crate::cmd::{can_submit, get_payer, key_view, resolved_payer, wallet_pays};
use crate::keypair::{Keypair, PUBKEY_BIN_LEN, PubKeyBin, SIGNATURE_LEN};
use crate::messages::envelope::{BlockchainTxn, envelope_encoding, TxnView};
use crate::messages::oui::{BlockchainTxnOuiV1, OuiView};
use crate::result::{EncodingError, ValidationError, WalletError};
use crate::text::{copy_text, text_view};
use crate::traits::b58::{b58_data, b58_text};
use crate::traits::b64::{
    b64_decoding, base64_text, decode_b64, envelope_text_decoding, MAX_B64_INPUT,
};
use crate::traits::json::{address_text, vec_to_b58s};
use crate::traits::sign::Signer;
use vstd::prelude::*;

verus! {

/// Smallest subnet that can be asked for.
pub const MIN_SUBNET_SIZE: u32 = 8;

/// Largest subnet that can be asked for.
pub const MAX_SUBNET_SIZE: u32 = 65536;

/// Staking fee of an allocation.
pub const OUI_STAKING_FEE: u64 = 1;

/// Whether `n` is a power of two.
pub open spec fn is_power_of_two(n: nat) -> bool
    decreases n,
{
    n == 1 || (n >= 2 && n % 2 == 0 && is_power_of_two(n / 2))
}

/// Whether a subnet of this size can be asked for: a power of two between
/// 8 and 65536.
pub open spec fn is_subnet_size(n: u32) -> bool {
    MIN_SUBNET_SIZE <= n <= MAX_SUBNET_SIZE && is_power_of_two(n as nat)
}

/// Whether a subnet of this size can be asked for.
pub fn valid_subnet_size(n: u32) -> (r: bool)
    ensures
        r == is_subnet_size(n),
{
    if n < MIN_SUBNET_SIZE || n > MAX_SUBNET_SIZE {
        return false;
    }
    let mut m: u32 = n;
    while m % 2 == 0
        invariant
            1 <= m <= n,
            is_power_of_two(n as nat) == is_power_of_two(m as nat),
        decreases m,
    {
        m = m / 2;
    }
    m == 1
}

/// The command that allocates an identifier.
#[derive(Debug)]
pub struct Create {
    /// Addresses of the routers that packets are sent to.
    pub addresses: Vec<PubKeyBin>,
    /// Initial device membership filter, as base64 text.
    pub filter: String,
    /// The identifier asked for.
    pub oui: u64,
    /// The subnet size asked for.
    pub subnet_size: u32,
    /// The payer: none for the wallet, `staking` for the staking service,
    /// or an address.
    pub payer: Option<String>,
    /// Whether to submit the transaction once it is ready.
    pub commit: bool,
}

/// The command that submits an allocation given in text form.
#[derive(Debug)]
pub struct Submit {
    /// The envelope of the allocation, as base64 text.
    pub transaction: String,
    /// Whether to submit the transaction.
    pub commit: bool,
}

/// What a command on allocations has prepared.
#[derive(Debug)]
pub struct Prepared {
    /// The allocation, signed as far as this wallet can sign it.
    pub txn: BlockchainTxnOuiV1,
    /// The envelope around it.
    pub envelope: BlockchainTxn,
    /// Whether the caller is to submit the envelope to the ledger now.
    pub submit: bool,
}

/// The identifiers of a list of addresses, as byte strings.
pub open spec fn keys_view(keys: Seq<PubKeyBin>) -> Seq<Seq<u8>> {
    Seq::new(keys.len(), |i: int| keys[i]@)
}

/// The allocation that the command describes, before anyone signs it.
pub open spec fn unsigned_allocation(
    addresses: Seq<Seq<u8>>,
    filter: Seq<u8>,
    oui: u64,
    subnet_size: u32,
    payer: Option<Seq<u8>>,
    owner: Seq<u8>,
) -> OuiView {
    OuiView {
        owner,
        addresses,
        filter,
        requested_subnet_size: subnet_size,
        payer: match payer {
            Some(key) => key,
            None => Seq::empty(),
        },
        staking_fee: OUI_STAKING_FEE,
        fee: 0,
        owner_signature: Seq::empty(),
        payer_signature: Seq::empty(),
        oui,
    }
}

/// The allocation after this wallet has signed it: as owner always, and
/// as payer too where the payer named is the wallet itself.
pub open spec fn signed_allocation(t: OuiView, payer: Option<Seq<u8>>, wallet: Seq<u8>, seed: Seq<
    u8,
>) -> OuiView {
    let by_owner = t.signed_by(seed, Signer::Owner);
    if payer == Some(wallet) {
        by_owner.signed_by(seed, Signer::Payer)
    } else {
        by_owner
    }
}

impl Create {
    /// The first reason why the command cannot be carried out, if there is
    /// one: a subnet size that cannot be asked for, a payer that does not
    /// resolve, or a filter that is not base64.
    pub open spec fn refusal(&self, staking: Seq<u8>) -> Option<WalletError> {
        if !is_subnet_size(self.subnet_size) {
            Some(WalletError::Validation(ValidationError::SubnetSize))
        } else {
            match resolved_payer(staking, text_view(self.payer)) {
                Err(why) => Some(WalletError::Encoding(why)),
                Ok(_) => match b64_decoding(self.filter@) {
                    Err(why) => Some(WalletError::Encoding(why)),
                    Ok(_) => None,
                },
            }
        }
    }

    /// Builds the allocation, signs it as owner, and as payer too where
    /// the payer is this wallet, and wraps it. The caller is told to submit
    /// only where the command asks for it and the wallet pays: where the
    /// staking service or anyone else pays, the result carries the owner's
    /// signature alone and is handed on, not submitted.
    pub fn run(&self, keypair: &Keypair, staking_key: PubKeyBin) -> (r: Result<
        Prepared,
        WalletError,
    >)
        ensures
            match r {
                Ok(done) => {
                    let payer = resolved_payer(staking_key@, text_view(self.payer))->Ok_0;
                    let filter = b64_decoding(self.filter@)->Ok_0;
                    &&& self.refusal(staking_key@) is None
                    &&& done.txn@ == signed_allocation(
                        unsigned_allocation(
                            keys_view(self.addresses@),
                            filter,
                            self.oui,
                            self.subnet_size,
                            payer,
                            keypair.public(),
                        ),
                        payer,
                        keypair.public(),
                        keypair.seed(),
                    )
                    &&& done.txn@.owner_signature.len() == SIGNATURE_LEN
                    &&& done.txn@.payer_signature.len() == if payer == Some(keypair.public()) {
                        SIGNATURE_LEN
                    } else {
                        0
                    }
                    &&& done.envelope@ == TxnView::Oui(done.txn@)
                    &&& done.submit == (self.commit && wallet_pays(payer, keypair.public()))
                },
                Err(err) => self.refusal(staking_key@) == Some(err),
            },
    {
        if !valid_subnet_size(self.subnet_size) {
            return Err(WalletError::Validation(ValidationError::SubnetSize));
        }
        let wallet_key = keypair.pubkey_bin();
        let payer = match get_payer(staking_key, &self.payer) {
            Ok(payer) => payer,
            Err(err) => {
                return Err(err);
            },
        };
        let filter = match decode_b64(self.filter.as_str()) {
            Ok(filter) => filter,
            Err(err) => {
                return Err(err);
            },
        };
        let mut addresses: Vec<Vec<u8>> = Vec::new();
        let mut i: usize = 0;
        while i < self.addresses.len()
            invariant
                i <= self.addresses@.len(),
                addresses@.len() == i,
                forall|j: int| 0 <= j < i ==> (#[trigger] addresses@[j])@ == self.addresses@[j]@,
            decreases self.addresses@.len() - i,
        {
            addresses.push(self.addresses[i].to_vec());
            i += 1;
        }
        let local = can_submit(&payer, &wallet_key);
        let pays_both = match &payer {
            Some(key) => key.same(&wallet_key),
            None => false,
        };
        let payer_bytes = match &payer {
            Some(key) => key.to_vec(),
            None => Vec::new(),
        };
        let mut txn = BlockchainTxnOuiV1 {
            owner: wallet_key.to_vec(),
            addresses,
            filter,
            requested_subnet_size: self.subnet_size,
            payer: payer_bytes,
            staking_fee: OUI_STAKING_FEE,
            fee: 0,
            owner_signature: Vec::new(),
            payer_signature: Vec::new(),
            oui: self.oui,
        };
        assert(txn@.addresses =~= keys_view(self.addresses@));
        assert(txn@ == unsigned_allocation(
            keys_view(self.addresses@),
            filter@,
            self.oui,
            self.subnet_size,
            key_view(payer),
            keypair.public(),
        ));
        let _ = txn.sign(keypair, Signer::Owner);
        if pays_both {
            let _ = txn.sign(keypair, Signer::Payer);
        }
        let envelope = txn.in_envelope();
        Ok(Prepared { txn, envelope, submit: self.commit && local })
    }
}

/// The allocation that the text form of an envelope holds, or why the
/// text does not give one.
pub open spec fn submitted_allocation(text: Seq<char>) -> Result<OuiView, WalletError> {
    match envelope_text_decoding(text) {
        Err(why) => Err(WalletError::Encoding(why)),
        Ok(TxnView::Oui(t)) => Ok(t),
        Ok(_) => Err(WalletError::Validation(ValidationError::WrongKind)),
    }
}

impl Submit {
    /// Reads the envelope and confirms that it holds an allocation. The
    /// caller is told to submit where the command asks for it.
    pub fn run(&self) -> (r: Result<Prepared, WalletError>)
        ensures
            match r {
                Ok(done) => submitted_allocation(self.transaction@) == Ok::<OuiView, WalletError>(
                    done.txn@,
                ) && done.envelope@ == TxnView::Oui(done.txn@) && done.submit == self.commit,
                Err(err) => submitted_allocation(self.transaction@) == Err::<OuiView, WalletError>(
                    err,
                ),
            },
    {
        let envelope = match BlockchainTxn::from_b64(self.transaction.as_str()) {
            Ok(envelope) => envelope,
            Err(err) => {
                return Err(err);
            },
        };
        let txn = match envelope.oui() {
            Ok(t) => t.duplicate(),
            Err(err) => {
                return Err(err);
            },
        };
        Ok(Prepared { txn, envelope, submit: self.commit })
    }
}

/// What is reported of an allocation.
#[derive(Debug)]
pub struct Report {
    /// The subnet size asked for.
    pub requested_subnet_size: u32,
    /// Address texts of the routers, in order.
    pub addresses: Vec<String>,
    /// Address text of the payer; none where the allocation names none.
    pub payer: Option<String>,
    /// The hash under which the ledger took the allocation, if it was
    /// submitted.
    pub hash: Option<String>,
    /// The text form of the envelope.
    pub txn: String,
}

/// Every router address of the allocation is an identifier.
pub open spec fn routers_are_keys(txn: OuiView) -> bool {
    forall|i: int| 0 <= i < txn.addresses.len() ==> (#[trigger] txn.addresses[i]).len()
        == PUBKEY_BIN_LEN
}

/// The first reason why an allocation cannot be reported, if there is
/// one: a router address that is no identifier, a payer that is neither
/// empty nor an identifier, or an envelope too large for its text form.
pub open spec fn report_refusal(txn: OuiView, envelope: TxnView) -> Option<WalletError> {
    if !routers_are_keys(txn) {
        Some(WalletError::Encoding(EncodingError::Length))
    } else if txn.payer.len() != 0 && txn.payer.len() != PUBKEY_BIN_LEN {
        Some(WalletError::Encoding(EncodingError::Length))
    } else if envelope_encoding(envelope).len() > MAX_B64_INPUT {
        Some(WalletError::Encoding(EncodingError::TooLarge))
    } else {
        None
    }
}

/// The report on an allocation and its envelope.
pub fn print_txn(txn: &BlockchainTxnOuiV1, envelope: &BlockchainTxn, hash: &Option<String>) -> (r:
    Result<Report, WalletError>)
    ensures
        match r {
            Ok(report) => {
                &&& report_refusal(txn@, envelope@) is None
                &&& report.requested_subnet_size == txn.requested_subnet_size
                &&& report.addresses@.len() == txn.addresses@.len()
                &&& forall|i: int|
                    0 <= i < txn.addresses@.len() ==> (#[trigger] report.addresses@[i])@
                        == b58_text(txn.addresses@[i]@) && b58_data(report.addresses@[i]@)
                        == Some(txn.addresses@[i]@)
                &&& match report.payer {
                    Some(payer) => txn.payer@.len() != 0 && payer@ == b58_text(txn.payer@)
                        && b58_data(payer@) == Some(txn.payer@),
                    None => txn.payer@.len() == 0,
                }
                &&& text_view(report.hash) == text_view(*hash)
                &&& report.txn@ == base64_text(envelope_encoding(envelope@))
                &&& envelope_text_decoding(report.txn@) == Ok::<TxnView, EncodingError>(envelope@)
            },
            Err(err) => report_refusal(txn@, envelope@) == Some(err),
        },
{
    let addresses = match vec_to_b58s(txn.addresses.as_slice()) {
        Ok(texts) => texts,
        Err(err) => {
            proof {
                let i = choose|i: int|
                    0 <= i < txn.addresses@.len() && (#[trigger] txn.addresses@[i])@.len()
                        != PUBKEY_BIN_LEN;
                assert(txn@.addresses[i].len() != PUBKEY_BIN_LEN);
            }
            return Err(err);
        },
    };
    assert(routers_are_keys(txn@)) by {
        assert forall|j: int| 0 <= j < txn@.addresses.len() implies (#[trigger] txn@.addresses[j]).len()
            == PUBKEY_BIN_LEN by {
            assert(txn.addresses@[j]@.len() == PUBKEY_BIN_LEN);
        }
    }
    let payer = if txn.payer.len() == 0 {
        None
    } else {
        match address_text(txn.payer.as_slice()) {
            Ok(text) => Some(text),
            Err(err) => {
                return Err(err);
            },
        }
    };
    let text = match envelope.to_b64() {
        Ok(text) => text,
        Err(err) => {
            return Err(err);
        },
    };
    Ok(
        Report {
            requested_subnet_size: txn.requested_subnet_size,
            addresses,
            payer,
            hash: copy_text(hash),
            txn: text,
        },
    )
}

} // verus!
