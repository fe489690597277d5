//! The commands of the wallet, up to the point where the ledger is asked
//! or told anything: what to build, what to sign, and whether this wallet
//! may submit the result itself.

use crate::keypair::{pubkey_from_b58, PubKeyBin};
use crate::result::{EncodingError, WalletError};
use crate::text::text_view;
use vstd::prelude::*;
use vstd::string::StringExecFns;

pub mod balance;
pub mod htlc;
pub mod oui;
pub mod pay;

verus! {

/// The payer that a command is given: none where no payer is named, the
/// staking service where the word `staking` stands for it, else the
/// address that is written out.
pub open spec fn resolved_payer(staking: Seq<u8>, payer: Option<Seq<char>>) -> Result<
    Option<Seq<u8>>,
    EncodingError,
> {
    match payer {
        None => Ok(None),
        Some(text) => if text == "staking"@ {
            Ok(Some(staking))
        } else {
            match pubkey_from_b58(text) {
                Ok(key) => Ok(Some(key)),
                Err(why) => Err(why),
            }
        },
    }
}

/// Whether the wallet may submit a transaction with this payer itself: it
/// may where no payer is named or the payer is the wallet. Where the
/// staking service or anyone else pays, the one who holds the missing
/// signature submits.
pub open spec fn wallet_pays(payer: Option<Seq<u8>>, wallet: Seq<u8>) -> bool {
    match payer {
        None => true,
        Some(key) => key == wallet,
    }
}

/// The view of an optional identifier.
pub open spec fn key_view(key: Option<PubKeyBin>) -> Option<Seq<u8>> {
    match key {
        Some(k) => Some(k@),
        None => None,
    }
}

/// Resolves the payer a command names. The address of the staking service
/// is handed in by the caller, who asked the service for it.
pub fn get_payer(staking_key: PubKeyBin, payer: &Option<String>) -> (r: Result<
    Option<PubKeyBin>,
    WalletError,
>)
    ensures
        match r {
            Ok(key) => resolved_payer(staking_key@, text_view(*payer)) == Ok::<
                Option<Seq<u8>>,
                EncodingError,
            >(key_view(key)),
            Err(err) => resolved_payer(staking_key@, text_view(*payer)) matches Err(why) && err
                == WalletError::Encoding(why),
        },
{
    match payer {
        None => Ok(None),
        Some(text) => {
            let word = String::from_str("staking");
            if *text == word {
                Ok(Some(staking_key))
            } else {
                match PubKeyBin::from_b58(text.as_str()) {
                    Ok(key) => Ok(Some(key)),
                    Err(err) => Err(err),
                }
            }
        },
    }
}

/// Whether the wallet may submit a transaction with this payer itself.
pub fn can_submit(payer: &Option<PubKeyBin>, wallet: &PubKeyBin) -> (r: bool)
    ensures
        r == wallet_pays(key_view(*payer), wallet@),
{
    match payer {
        None => true,
        Some(key) => key.same(wallet),
    }
}

} // verus!
