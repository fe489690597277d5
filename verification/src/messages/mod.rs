//! The transaction kinds the wallet can build, and the envelope that carries
//! one of them.

pub mod envelope;
pub mod htlc;
pub mod oui;
pub mod payment;
