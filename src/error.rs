//! Errors of every operation.

use vstd::prelude::*;

verus! {

/// The error taxonomy shared by every operation of the library.
#[derive(Debug, Clone, Copy, PartialEq, Eq, Structural)]
pub enum Error {
    NotFound,
    AlreadyExists,
    /// Wrong password, or tampered or corrupt ciphertext: deliberately one error.
    AuthenticationFailed,
    InvalidPassword,
    InvalidMnemonic,
    InvalidEntropy,
    InvalidPassphrase,
    InvalidDerivationPath,
    UnsupportedDerivationPath,
    InvalidIndex,
    ParseError,
    SigningFailed,
    DerivationFailed,
}

} // verus!
