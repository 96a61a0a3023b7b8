//! The ways in which a derivation or a decoding can fail.

use vstd::prelude::*;

verus! {

/// Every failure is final: the same inputs fail in the same way again.
#[derive(Clone, Copy, Debug, PartialEq, Eq, Structural)]
pub enum ConfigError {
    /// The operating system's random source could not be read.
    RandomSourceUnavailable,
    /// The bytes handed over as a secret key are not a secret key.
    InvalidSeedMaterial,
    /// The password hash could not be computed.
    PasswordHashingFailed,
    /// The text is base64, but what it holds is not a key.
    MalformedKeyEncoding,
    /// The text is not base64.
    InvalidEncoding,
}

} // verus!
