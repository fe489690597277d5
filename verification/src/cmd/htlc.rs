//! Creating a hashed timelock contract and redeeming from one.

use crate::hnt::Hnt;
use crate::keypair::{Keypair, PUBKEY_BIN_LEN, pubkey_from_b58, PubKeyBin, SIGNATURE_LEN};
use crate::messages::envelope::{BlockchainTxn, envelope_encoding, TxnView};
use crate::messages::htlc::{
    BlockchainTxnCreateHtlcV1, BlockchainTxnRedeemHtlcV1, CreateHtlcView, RedeemHtlcView,
};
use crate::result::{EncodingError, ValidationError, WalletError};
use crate::text::{copy_text, text_view};
use crate::traits::b16::{decode_hex, encode_hex, hex_bytes, hex_text};
use crate::traits::b58::{b58_data, b58_text};
use crate::traits::b64::{base64_text, envelope_text_decoding, MAX_B64_INPUT};
use crate::traits::json::{address_text, bytes_to_string};
use crate::traits::sign::Signer;
use crate::wire::copy_bytes;
use vstd::prelude::*;
use vstd::utf8::{decode_utf8, encode_utf8, valid_utf8};

verus! {

/// Length of a hashlock: that of a SHA-256 digest.
pub const HASHLOCK_LEN: usize = 32;

/// The command that creates a contract.
#[derive(Debug)]
pub struct Create {
    /// Address of the payee of the contract.
    pub payee: String,
    /// The amount to lock.
    pub hnt: Hnt,
    /// The digest of the secret that unlocks the contract, as hexadecimal
    /// text of 32 bytes.
    pub hashlock: String,
    /// The block height after which the payer can take the amount back.
    pub timelock: u64,
    /// Whether to submit the transaction to the ledger.
    pub commit: bool,
}

/// The command that redeems from a contract.
#[derive(Debug)]
pub struct Redeem {
    /// Address of the contract.
    pub address: String,
    /// The secret whose digest is the hashlock of the contract. Whether it
    /// is the right one is for the ledger to say.
    pub preimage: String,
    /// Whether to report the hash of the submitted transaction only.
    pub hash: bool,
    /// Whether to submit the transaction to the ledger.
    pub commit: bool,
}

/// What the command that creates a contract has prepared.
#[derive(Debug)]
pub struct PreparedCreate {
    /// The signed contract creation.
    pub txn: BlockchainTxnCreateHtlcV1,
    /// The envelope around it.
    pub envelope: BlockchainTxn,
    /// Whether the caller is to submit the envelope to the ledger now.
    pub submit: bool,
}

/// What the command that redeems from a contract has prepared.
#[derive(Debug)]
pub struct PreparedRedeem {
    /// The signed redemption.
    pub txn: BlockchainTxnRedeemHtlcV1,
    /// The envelope around it.
    pub envelope: BlockchainTxn,
    /// Whether the caller is to submit the envelope to the ledger now.
    pub submit: bool,
}

impl Create {
    /// The first reason why the command cannot be carried out, if there is
    /// one: a payee that is no address, a hashlock that is not hexadecimal
    /// or not the 32 bytes of a digest, or an account whose nonce cannot be
    /// advanced.
    pub open spec fn refusal(&self, speculative_nonce: u64) -> Option<WalletError> {
        match pubkey_from_b58(self.payee@) {
            Err(why) => Some(WalletError::Encoding(why)),
            Ok(_) => if hex_bytes(self.hashlock@) is None {
                Some(WalletError::Encoding(EncodingError::Hex))
            } else if hex_bytes(self.hashlock@)->Some_0.len() != HASHLOCK_LEN {
                Some(WalletError::Encoding(EncodingError::Length))
            } else if speculative_nonce == u64::MAX {
                Some(WalletError::Validation(ValidationError::Nonce))
            } else {
                None
            },
        }
    }

    /// The contract creation that the command describes, before it is
    /// signed.
    pub open spec fn unsigned(&self, payer: Seq<u8>, address: Seq<u8>, speculative_nonce: u64)
        -> CreateHtlcView {
        CreateHtlcView {
            payer,
            payee: pubkey_from_b58(self.payee@)->Ok_0,
            address,
            hashlock: hex_bytes(self.hashlock@)->Some_0,
            timelock: self.timelock,
            amount: self.hnt.bones,
            fee: 0,
            signature: Seq::empty(),
            nonce: (speculative_nonce + 1) as u64,
        }
    }

    /// Builds the contract creation at the given fresh contract address,
    /// with the nonce after the account's latest, signs it as owner and
    /// wraps it. The caller is told to submit where the command asks for
    /// it.
    pub fn run(&self, keypair: &Keypair, address: &PubKeyBin, speculative_nonce: u64) -> (r:
        Result<PreparedCreate, WalletError>)
        ensures
            match r {
                Ok(done) => {
                    &&& self.refusal(speculative_nonce) is None
                    &&& done.txn@ == self.unsigned(
                        keypair.public(),
                        address@,
                        speculative_nonce,
                    ).signed_by(keypair.seed())
                    &&& done.txn@.hashlock.len() == HASHLOCK_LEN
                    &&& done.txn@.signature.len() == SIGNATURE_LEN
                    &&& done.envelope@ == TxnView::CreateHtlc(done.txn@)
                    &&& done.submit == self.commit
                },
                Err(err) => self.refusal(speculative_nonce) == Some(err),
            },
    {
        let payee = match PubKeyBin::from_b58(self.payee.as_str()) {
            Ok(payee) => payee,
            Err(err) => {
                return Err(err);
            },
        };
        let hashlock = match decode_hex(self.hashlock.as_str()) {
            Ok(hashlock) => hashlock,
            Err(err) => {
                return Err(err);
            },
        };
        if hashlock.len() != HASHLOCK_LEN {
            return Err(WalletError::Encoding(EncodingError::Length));
        }
        if speculative_nonce == u64::MAX {
            return Err(WalletError::Validation(ValidationError::Nonce));
        }
        let mut txn = BlockchainTxnCreateHtlcV1 {
            amount: self.hnt.to_bones(),
            fee: 0,
            payee: payee.to_vec(),
            payer: keypair.pubkey_bin().to_vec(),
            address: address.to_vec(),
            hashlock,
            timelock: self.timelock,
            nonce: speculative_nonce + 1,
            signature: Vec::new(),
        };
        let _ = txn.sign(keypair, Signer::Owner);
        let envelope = txn.in_envelope();
        Ok(PreparedCreate { txn, envelope, submit: self.commit })
    }
}

impl Redeem {
    /// The redemption that the command describes, before it is signed.
    pub open spec fn unsigned(&self, payee: Seq<u8>) -> RedeemHtlcView {
        RedeemHtlcView {
            payee,
            address: pubkey_from_b58(self.address@)->Ok_0,
            preimage: encode_utf8(self.preimage@),
            fee: 0,
            signature: Seq::empty(),
        }
    }

    /// Builds the redemption for the wallet with the bytes of the preimage
    /// as they stand, signs it as owner and wraps it. Fails where the
    /// contract address is no address, and only there. The caller is told
    /// to submit where the command asks for it.
    pub fn run(&self, keypair: &Keypair) -> (r: Result<PreparedRedeem, WalletError>)
        ensures
            match r {
                Ok(done) => {
                    &&& pubkey_from_b58(self.address@) is Ok
                    &&& done.txn@ == self.unsigned(keypair.public()).signed_by(keypair.seed())
                    &&& done.txn@.signature.len() == SIGNATURE_LEN
                    &&& done.envelope@ == TxnView::RedeemHtlc(done.txn@)
                    &&& done.submit == self.commit
                },
                Err(err) => pubkey_from_b58(self.address@) matches Err(why) && err
                    == WalletError::Encoding(why),
            },
    {
        let address = match PubKeyBin::from_b58(self.address.as_str()) {
            Ok(address) => address,
            Err(err) => {
                return Err(err);
            },
        };
        let mut txn = BlockchainTxnRedeemHtlcV1 {
            fee: 0,
            payee: keypair.pubkey_bin().to_vec(),
            address: address.to_vec(),
            preimage: copy_bytes(self.preimage.as_str().as_bytes()),
            signature: Vec::new(),
        };
        let _ = txn.sign(keypair, Signer::Owner);
        let envelope = txn.in_envelope();
        Ok(PreparedRedeem { txn, envelope, submit: self.commit })
    }
}

/// What is reported of a contract creation.
#[derive(Debug)]
pub struct CreateReport {
    /// Address text of the contract.
    pub address: String,
    /// Address text of the payee.
    pub payee: String,
    /// The amount locked, in bones.
    pub amount: u64,
    /// The hashlock, as hexadecimal text.
    pub hashlock: String,
    /// The timelock, as a block height.
    pub timelock: u64,
    /// The nonce of the transaction.
    pub nonce: u64,
    /// The hash under which the ledger took the transaction, if it was
    /// submitted.
    pub hash: Option<String>,
    /// The text form of the envelope.
    pub txn: String,
}

/// What is reported of a redemption.
#[derive(Debug)]
pub struct RedeemReport {
    /// Address text of the payee.
    pub payee: String,
    /// Address text of the contract.
    pub address: String,
    /// The preimage as text; none where its bytes are no text.
    pub preimage: Option<String>,
    /// The hash under which the ledger took the transaction, if it was
    /// submitted.
    pub hash: Option<String>,
    /// The text form of the envelope.
    pub txn: String,
}

/// The first reason why a contract creation cannot be reported, if there
/// is one: a contract address or a payee that is no identifier, or an
/// envelope too large for its text form.
pub open spec fn create_report_refusal(txn: CreateHtlcView, envelope: TxnView) -> Option<
    WalletError,
> {
    if txn.address.len() != PUBKEY_BIN_LEN || txn.payee.len() != PUBKEY_BIN_LEN {
        Some(WalletError::Encoding(EncodingError::Length))
    } else if envelope_encoding(envelope).len() > MAX_B64_INPUT {
        Some(WalletError::Encoding(EncodingError::TooLarge))
    } else {
        None
    }
}

/// The report on a contract creation and its envelope.
pub fn print_create_txn(
    txn: &BlockchainTxnCreateHtlcV1,
    envelope: &BlockchainTxn,
    hash: &Option<String>,
) -> (r: Result<CreateReport, WalletError>)
    ensures
        match r {
            Ok(report) => {
                &&& create_report_refusal(txn@, envelope@) is None
                &&& report.address@ == b58_text(txn.address@)
                &&& b58_data(report.address@) == Some(txn.address@)
                &&& report.payee@ == b58_text(txn.payee@)
                &&& b58_data(report.payee@) == Some(txn.payee@)
                &&& report.amount == txn.amount
                &&& report.hashlock@ == hex_text(txn.hashlock@)
                &&& report.timelock == txn.timelock
                &&& report.nonce == txn.nonce
                &&& text_view(report.hash) == text_view(*hash)
                &&& report.txn@ == base64_text(envelope_encoding(envelope@))
                &&& envelope_text_decoding(report.txn@) == Ok::<TxnView, EncodingError>(envelope@)
            },
            Err(err) => create_report_refusal(txn@, envelope@) == Some(err),
        },
{
    let address = match address_text(txn.address.as_slice()) {
        Ok(text) => text,
        Err(err) => {
            return Err(err);
        },
    };
    let payee = match address_text(txn.payee.as_slice()) {
        Ok(text) => text,
        Err(err) => {
            return Err(err);
        },
    };
    let text = match envelope.to_b64() {
        Ok(text) => text,
        Err(err) => {
            return Err(err);
        },
    };
    Ok(
        CreateReport {
            address,
            payee,
            amount: txn.amount,
            hashlock: encode_hex(txn.hashlock.as_slice()),
            timelock: txn.timelock,
            nonce: txn.nonce,
            hash: copy_text(hash),
            txn: text,
        },
    )
}

/// The first reason why a redemption cannot be reported, if there is one:
/// a payee or a contract address that is no identifier, or an envelope too
/// large for its text form. The preimage is raw bytes and never a reason.
pub open spec fn redeem_report_refusal(txn: RedeemHtlcView, envelope: TxnView) -> Option<
    WalletError,
> {
    if txn.payee.len() != PUBKEY_BIN_LEN || txn.address.len() != PUBKEY_BIN_LEN {
        Some(WalletError::Encoding(EncodingError::Length))
    } else if envelope_encoding(envelope).len() > MAX_B64_INPUT {
        Some(WalletError::Encoding(EncodingError::TooLarge))
    } else {
        None
    }
}

/// The report on a redemption and its envelope.
pub fn print_redeem_txn(
    txn: &BlockchainTxnRedeemHtlcV1,
    envelope: &BlockchainTxn,
    hash: &Option<String>,
) -> (r: Result<RedeemReport, WalletError>)
    ensures
        match r {
            Ok(report) => {
                &&& redeem_report_refusal(txn@, envelope@) is None
                &&& report.payee@ == b58_text(txn.payee@)
                &&& b58_data(report.payee@) == Some(txn.payee@)
                &&& report.address@ == b58_text(txn.address@)
                &&& b58_data(report.address@) == Some(txn.address@)
                &&& match report.preimage {
                    Some(text) => valid_utf8(txn.preimage@) && text@ == decode_utf8(
                        txn.preimage@,
                    ),
                    None => !valid_utf8(txn.preimage@),
                }
                &&& text_view(report.hash) == text_view(*hash)
                &&& report.txn@ == base64_text(envelope_encoding(envelope@))
                &&& envelope_text_decoding(report.txn@) == Ok::<TxnView, EncodingError>(envelope@)
            },
            Err(err) => redeem_report_refusal(txn@, envelope@) == Some(err),
        },
{
    let payee = match address_text(txn.payee.as_slice()) {
        Ok(text) => text,
        Err(err) => {
            return Err(err);
        },
    };
    let address = match address_text(txn.address.as_slice()) {
        Ok(text) => text,
        Err(err) => {
            return Err(err);
        },
    };
    let preimage = match bytes_to_string(txn.preimage.as_slice()) {
        Ok(text) => Some(text),
        Err(_) => None,
    };
    let text = match envelope.to_b64() {
        Ok(text) => text,
        Err(err) => {
            return Err(err);
        },
    };
    Ok(RedeemReport { payee, address, preimage, hash: copy_text(hash), txn: text })
}

} // verus!
