//! Offline custody of Bitcoin key material: entropy mixing, an encrypted
//! keychain container, deterministic derivation, descriptor templates and a
//! PSBT signing state machine.

pub mod bytes;
pub mod cli;
pub mod codec;
pub mod crypto;
pub mod derivation;
pub mod descriptor;
pub mod entropy;
pub mod error;
pub mod export;
pub mod keychain;
pub mod psbt;
pub mod record;
pub mod seed;
pub mod store;
pub mod types;
pub mod ui;
