//! Signing by role.
//!
//! Every signer of a transaction signs the same bytes: the transaction with
//! all its signature slots emptied. A signature therefore never depends on
//! another, and signers may sign in any order.

use crate::keypair::{ed25519_signature, Keypair, SIGNATURE_LEN};
use crate::messages::envelope::{Txn, TxnView};
use crate::messages::htlc::{
    BlockchainTxnCreateHtlcV1, BlockchainTxnRedeemHtlcV1, CreateHtlcView, RedeemHtlcView,
};
use crate::messages::oui::{BlockchainTxnOuiV1, OuiView};
use crate::messages::payment::{BlockchainTxnPaymentV2, PaymentV2View};
use crate::result::{ValidationError, WalletError};
use vstd::prelude::*;

verus! {

/// The role in which a key signs a transaction.
#[derive(Clone, Copy, Debug, PartialEq, Eq, Structural)]
pub enum Signer {
    /// The account the transaction is made for. Every kind has this role.
    Owner,
    /// The account that pays the fees, where the kind lets another pay.
    Payer,
}

impl PaymentV2View {
    /// The transaction with `signature` in its signature slot.
    pub open spec fn with_signature(self, signature: Seq<u8>) -> Self {
        PaymentV2View { signature, ..self }
    }

    /// The transaction signed by the key of `seed`.
    pub open spec fn signed_by(self, seed: Seq<u8>) -> Self {
        self.with_signature(ed25519_signature(seed, self.canonical()))
    }
}

impl CreateHtlcView {
    /// The transaction with `signature` in its signature slot.
    pub open spec fn with_signature(self, signature: Seq<u8>) -> Self {
        CreateHtlcView { signature, ..self }
    }

    /// The transaction signed by the key of `seed`.
    pub open spec fn signed_by(self, seed: Seq<u8>) -> Self {
        self.with_signature(ed25519_signature(seed, self.canonical()))
    }
}

impl RedeemHtlcView {
    /// The transaction with `signature` in its signature slot.
    pub open spec fn with_signature(self, signature: Seq<u8>) -> Self {
        RedeemHtlcView { signature, ..self }
    }

    /// The transaction signed by the key of `seed`.
    pub open spec fn signed_by(self, seed: Seq<u8>) -> Self {
        self.with_signature(ed25519_signature(seed, self.canonical()))
    }
}

impl OuiView {
    /// The transaction with `signature` in the slot of the role.
    pub open spec fn with_signature(self, role: Signer, signature: Seq<u8>) -> Self {
        match role {
            Signer::Owner => OuiView { owner_signature: signature, ..self },
            Signer::Payer => OuiView { payer_signature: signature, ..self },
        }
    }

    /// The transaction signed in the role by the key of `seed`.
    pub open spec fn signed_by(self, seed: Seq<u8>, role: Signer) -> Self {
        self.with_signature(role, ed25519_signature(seed, self.canonical()))
    }
}

impl TxnView {
    /// Whether transactions of this kind have a signature slot for the
    /// role: every kind for the owner, allocations for the payer too.
    pub open spec fn has_role(self, role: Signer) -> bool {
        role == Signer::Owner || self is Oui
    }

    /// The transaction with every signature slot emptied.
    pub open spec fn unsigned(self) -> Self {
        match self {
            TxnView::CreateHtlc(t) => TxnView::CreateHtlc(t.unsigned()),
            TxnView::Oui(t) => TxnView::Oui(t.unsigned()),
            TxnView::RedeemHtlc(t) => TxnView::RedeemHtlc(t.unsigned()),
            TxnView::PaymentV2(t) => TxnView::PaymentV2(t.unsigned()),
        }
    }

    /// The transaction with `signature` in the slot of the role, where the
    /// kind has that role.
    pub open spec fn with_signature(self, role: Signer, signature: Seq<u8>) -> Self {
        match self {
            TxnView::CreateHtlc(t) => if role == Signer::Owner {
                TxnView::CreateHtlc(t.with_signature(signature))
            } else {
                self
            },
            TxnView::Oui(t) => TxnView::Oui(t.with_signature(role, signature)),
            TxnView::RedeemHtlc(t) => if role == Signer::Owner {
                TxnView::RedeemHtlc(t.with_signature(signature))
            } else {
                self
            },
            TxnView::PaymentV2(t) => if role == Signer::Owner {
                TxnView::PaymentV2(t.with_signature(signature))
            } else {
                self
            },
        }
    }

    /// The transaction signed in the role by the key of `seed`.
    pub open spec fn signed_by(self, seed: Seq<u8>, role: Signer) -> Self {
        self.with_signature(role, ed25519_signature(seed, self.canonical()))
    }
}

/// The bytes that are signed do not depend on what the signature slots
/// hold: two transactions that differ in their signature slots only have
/// the same canonical bytes.
pub proof fn lemma_canonical_excludes_signatures(a: TxnView, b: TxnView)
    requires
        a.unsigned() == b.unsigned(),
    ensures
        a.canonical() == b.canonical(),
{
    match a {
        TxnView::CreateHtlc(t) => {
            assert(t.unsigned() == b->CreateHtlc_0.unsigned());
        },
        TxnView::Oui(t) => {
            assert(t.unsigned() == b->Oui_0.unsigned());
        },
        TxnView::RedeemHtlc(t) => {
            assert(t.unsigned() == b->RedeemHtlc_0.unsigned());
        },
        TxnView::PaymentV2(t) => {
            assert(t.unsigned() == b->PaymentV2_0.unsigned());
        },
    }
}

/// Whatever is put into a signature slot, the bytes that are signed stay
/// the same. In particular the canonical bytes of a signed transaction are
/// those it had before signing.
pub proof fn lemma_canonical_ignores_slot(t: TxnView, role: Signer, garbage: Seq<u8>)
    ensures
        t.with_signature(role, garbage).canonical() == t.canonical(),
        forall|seed: Seq<u8>| #[trigger] t.signed_by(seed, role).canonical() == t.canonical(),
{
    assert(t.with_signature(role, garbage).unsigned() == t.unsigned());
    lemma_canonical_excludes_signatures(t.with_signature(role, garbage), t);
    assert forall|seed: Seq<u8>| #[trigger]
        t.signed_by(seed, role).canonical() == t.canonical() by {
        let signed = t.signed_by(seed, role);
        assert(signed.unsigned() == t.unsigned());
        lemma_canonical_excludes_signatures(signed, t);
    }
}

/// Signing an allocation as owner and then as payer gives the same
/// transaction as signing as payer and then as owner.
pub proof fn lemma_signing_commutes(t: OuiView, owner_seed: Seq<u8>, payer_seed: Seq<u8>)
    ensures
        t.signed_by(owner_seed, Signer::Owner).signed_by(payer_seed, Signer::Payer) == t.signed_by(
            payer_seed,
            Signer::Payer,
        ).signed_by(owner_seed, Signer::Owner),
{
    let first_owner = t.signed_by(owner_seed, Signer::Owner);
    let first_payer = t.signed_by(payer_seed, Signer::Payer);
    assert(first_owner.unsigned() == t.unsigned());
    assert(first_payer.unsigned() == t.unsigned());
}

impl BlockchainTxnPaymentV2 {
    /// Signs the transaction. The signature covers the canonical bytes,
    /// whatever the signature slot held before. A payment has the owner's
    /// role only: for any other the transaction is left as it was and a
    /// validation error is returned.
    pub fn sign(&mut self, keypair: &Keypair, signer: Signer) -> (r: Result<(), WalletError>)
        ensures
            match r {
                Ok(_) => signer == Signer::Owner && final(self)@ == old(self)@.signed_by(
                    keypair.seed(),
                ) && final(self)@.signature.len() == SIGNATURE_LEN,
                Err(err) => signer != Signer::Owner && final(self)@ == old(self)@ && err
                    == WalletError::Validation(ValidationError::Role),
            },
    {
        match signer {
            Signer::Owner => {
                let message = self.canonical();
                self.signature = keypair.sign(message.as_slice());
                Ok(())
            },
            Signer::Payer => Err(WalletError::Validation(ValidationError::Role)),
        }
    }
}

impl BlockchainTxnCreateHtlcV1 {
    /// Signs the transaction. The signature covers the canonical bytes,
    /// whatever the signature slot held before. A contract creation has the
    /// owner's role only: for any other the transaction is left as it was
    /// and a validation error is returned.
    pub fn sign(&mut self, keypair: &Keypair, signer: Signer) -> (r: Result<(), WalletError>)
        ensures
            match r {
                Ok(_) => signer == Signer::Owner && final(self)@ == old(self)@.signed_by(
                    keypair.seed(),
                ) && final(self)@.signature.len() == SIGNATURE_LEN,
                Err(err) => signer != Signer::Owner && final(self)@ == old(self)@ && err
                    == WalletError::Validation(ValidationError::Role),
            },
    {
        match signer {
            Signer::Owner => {
                let message = self.canonical();
                self.signature = keypair.sign(message.as_slice());
                Ok(())
            },
            Signer::Payer => Err(WalletError::Validation(ValidationError::Role)),
        }
    }
}

impl BlockchainTxnRedeemHtlcV1 {
    /// Signs the transaction. The signature covers the canonical bytes,
    /// whatever the signature slot held before. A redemption has the
    /// owner's role only: for any other the transaction is left as it was
    /// and a validation error is returned.
    pub fn sign(&mut self, keypair: &Keypair, signer: Signer) -> (r: Result<(), WalletError>)
        ensures
            match r {
                Ok(_) => signer == Signer::Owner && final(self)@ == old(self)@.signed_by(
                    keypair.seed(),
                ) && final(self)@.signature.len() == SIGNATURE_LEN,
                Err(err) => signer != Signer::Owner && final(self)@ == old(self)@ && err
                    == WalletError::Validation(ValidationError::Role),
            },
    {
        match signer {
            Signer::Owner => {
                let message = self.canonical();
                self.signature = keypair.sign(message.as_slice());
                Ok(())
            },
            Signer::Payer => Err(WalletError::Validation(ValidationError::Role)),
        }
    }
}

impl BlockchainTxnOuiV1 {
    /// Signs the transaction in the given role, which an allocation always
    /// has. The signature covers the canonical bytes, whatever the two
    /// signature slots held before, and fills the slot of the role; the
    /// other slot is left as it was.
    pub fn sign(&mut self, keypair: &Keypair, signer: Signer) -> (r: Result<(), WalletError>)
        ensures
            r is Ok,
            final(self)@ == old(self)@.signed_by(keypair.seed(), signer),
            match signer {
                Signer::Owner => final(self)@.owner_signature.len() == SIGNATURE_LEN,
                Signer::Payer => final(self)@.payer_signature.len() == SIGNATURE_LEN,
            },
    {
        let message = self.canonical();
        let signature = keypair.sign(message.as_slice());
        match signer {
            Signer::Owner => {
                self.owner_signature = signature;
            },
            Signer::Payer => {
                self.payer_signature = signature;
            },
        }
        Ok(())
    }
}

impl Txn {
    /// Signs the transaction in the given role. Where the kind has no slot
    /// for the role, the transaction is left as it was and a validation
    /// error is returned.
    pub fn sign(&mut self, keypair: &Keypair, signer: Signer) -> (r: Result<(), WalletError>)
        ensures
            match r {
                Ok(_) => old(self)@.has_role(signer) && final(self)@ == old(self)@.signed_by(
                    keypair.seed(),
                    signer,
                ),
                Err(err) => !old(self)@.has_role(signer) && final(self)@ == old(self)@ && err
                    == WalletError::Validation(ValidationError::Role),
            },
    {
        match self {
            Txn::CreateHtlc(t) => t.sign(keypair, signer),
            Txn::Oui(t) => t.sign(keypair, signer),
            Txn::RedeemHtlc(t) => t.sign(keypair, signer),
            Txn::PaymentV2(t) => t.sign(keypair, signer),
        }
    }
}

} // verus!
