//! Text codecs, signing and rendering helpers shared by the commands.

pub mod b16;
pub mod b58;
pub mod b64;
pub mod json;
pub mod sign;
