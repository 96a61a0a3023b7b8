//! A request for the record of a new installation, as a host sends it: the
//! credentials of the administrator, and two public keys in URL-safe base64
//! that must be keys before anything is derived.

use crate::config::{derivation, Config, ConfigView};
use crate::encoding::{
    base64_url_safe_decoding, public_key_from_url_base64, public_key_of_decoded,
};
use crate::error::ConfigError;
use crate::keys::{password_fits, PublicKey, Seed};
use crate::text::{config_of_text, config_text, ConfigText};
use vstd::prelude::*;

verus! {

/// The revocation public key and the device's public key that the two texts
/// hold. The device's key is read first: where both texts fail, the error is
/// that of the device's key.
pub open spec fn keys_of_request(revocation_pub_key: Seq<char>, device_pub_key: Seq<char>) -> Result<
    (Seq<u8>, Seq<u8>),
    ConfigError,
> {
    match public_key_of_decoded(base64_url_safe_decoding(device_pub_key)) {
        Err(e) => Err(e),
        Ok(device) => match public_key_of_decoded(base64_url_safe_decoding(revocation_pub_key)) {
            Err(e) => Err(e),
            Ok(revocation) => Ok((revocation, device)),
        },
    }
}

/// The revocation public key and the device's public key of a request.
///
/// It fails with `InvalidEncoding` on a text that is not URL-safe base64, and
/// with `MalformedKeyEncoding` on one that is, but holds no public key.
pub fn request_keys(revocation_pub_key: &str, device_pub_key: &str) -> (r: Result<
    (PublicKey, PublicKey),
    ConfigError,
>)
    ensures
        match keys_of_request(revocation_pub_key@, device_pub_key@) {
            Ok((revocation, device)) => r matches Ok((v, d)) && v@ == revocation && d@ == device,
            Err(e) => r == Err::<(PublicKey, PublicKey), ConfigError>(e),
        },
{
    let device = match public_key_from_url_base64(device_pub_key) {
        Ok(key) => key,
        Err(e) => {
            return Err(e);
        },
    };
    let revocation = match public_key_from_url_base64(revocation_pub_key) {
        Ok(key) => key,
        Err(e) => {
            return Err(e);
        },
    };
    Ok((revocation, device))
}

/// The answer to a request: the record of the new installation as text, and
/// its primary public key.
///
/// The two keys of the request are checked first, and their failure is the
/// failure of the request. Then the record is derived as `Config::new`
/// derives it: from the seed where one is given, and else from a seed that
/// is drawn, which may fail with `RandomSourceUnavailable`. The text holds
/// that record.
pub fn record_for_request(
    email: String,
    password: String,
    maybe_seed: Option<Seed>,
    revocation_pub_key: &str,
    device_pub_key: &str,
) -> (r: Result<(ConfigText, PublicKey), ConfigError>)
    ensures
        match keys_of_request(revocation_pub_key@, device_pub_key@) {
            Err(e) => r == Err::<(ConfigText, PublicKey), ConfigError>(e),
            Ok(_) => match r {
                Ok((text, primary)) => {
                    &&& config_of_text(text@) matches Ok(config)
                    &&& text@ == config_text(config)
                    &&& maybe_seed matches Some(seed) ==> config->seed == seed@
                    &&& derivation(email@, password@, config->seed) == Ok::<
                        (ConfigView, Seq<u8>),
                        ConfigError,
                    >((config, primary@))
                },
                Err(e) => {
                    ||| maybe_seed is None && e == ConfigError::RandomSourceUnavailable
                    ||| !password_fits(password@) && e == ConfigError::PasswordHashingFailed
                },
            },
        },
        maybe_seed is Some && password_fits(password@) && keys_of_request(
            revocation_pub_key@,
            device_pub_key@,
        ) is Ok ==> r is Ok,
{
    match request_keys(revocation_pub_key, device_pub_key) {
        Err(e) => Err(e),
        Ok(_) => match Config::new(email, password, maybe_seed) {
            Err(e) => Err(e),
            Ok((config, primary)) => Ok((config.to_text(), primary)),
        },
    }
}

} // verus!
