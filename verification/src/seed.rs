//! Where the seed comes from: the caller, or the operating system.

use crate::error::ConfigError;
use crate::keys::Seed;
use rand::RngCore;
use vstd::prelude::*;

verus! {

/// The error of `rand`. Nothing is read from it.
#[verifier::external_type_specification]
#[verifier::external_body]
pub struct ExRandomError(rand::Error);

/// Trusted: `rand::rngs::OsRng::try_fill_bytes`, on a buffer of 32 bytes.
///
/// The bytes come from the operating system's random source. Nothing is
/// claimed of them, nor of when the source fails.
#[verifier::external_body]
fn os_random_seed() -> (r: Result<Seed, rand::Error>) {
    let mut seed = [0u8; 32];
    rand::rngs::OsRng.try_fill_bytes(&mut seed)?;
    Ok(seed)
}

/// The seed that a draw from the random source gave, or
/// `RandomSourceUnavailable` where the draw failed.
pub fn seed_from_draw(drawn: Result<Seed, rand::Error>) -> (r: Result<Seed, ConfigError>)
    ensures
        match drawn {
            Ok(seed) => r == Ok::<Seed, ConfigError>(seed),
            Err(_) => r == Err::<Seed, ConfigError>(ConfigError::RandomSourceUnavailable),
        },
{
    match drawn {
        Ok(seed) => Ok(seed),
        Err(_) => Err(ConfigError::RandomSourceUnavailable),
    }
}

/// The seed to derive from: `provided`, unchanged, where there is one, and
/// else 32 bytes from the operating system's random source.
///
/// It fails only where no seed is provided and the random source cannot be
/// read.
pub fn obtain_seed(provided: Option<Seed>) -> (r: Result<Seed, ConfigError>)
    ensures
        provided matches Some(seed) ==> r == Ok::<Seed, ConfigError>(seed),
        r matches Err(e) ==> provided is None && e == ConfigError::RandomSourceUnavailable,
{
    match provided {
        Some(seed) => Ok(seed),
        None => seed_from_draw(os_random_seed()),
    }
}

} // verus!
