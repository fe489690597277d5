//! Transaction construction, canonical encoding, role-based signing and
//! envelope transport for a ledger wallet.

pub mod cmd;
pub mod hnt;
pub mod keypair;
pub mod messages;
pub mod result;
pub mod text;
pub mod traits;
pub mod wire;
