//! Seeds and public keys as base64 text.
//!
//! Both are written in the standard alphabet without padding. A public key
//! that arrives inside a URL is read in the URL-safe alphabet, also without
//! padding. The base64 alphabet itself is that of the `base64` crate: what it
//! encodes and decodes is named here, not defined.

use crate::error::ConfigError;
use crate::keys::{ed25519_accepts, exactly_32_bytes, PublicKey, Seed};
use vstd::prelude::*;

verus! {

/// The text that stands for `bytes` in standard base64 without padding.
pub uninterp spec fn base64_standard_encoding(bytes: Seq<u8>) -> Seq<char>;

/// The bytes that `text` stands for in standard base64, or `None` where
/// `text` is not base64.
pub uninterp spec fn base64_standard_decoding(text: Seq<char>) -> Option<Seq<u8>>;

/// The bytes that `text` stands for in URL-safe base64, or `None` where
/// `text` is not base64.
pub uninterp spec fn base64_url_safe_decoding(text: Seq<char>) -> Option<Seq<u8>>;

/// The error of `base64`. Nothing is read from it.
#[verifier::external_type_specification]
#[verifier::external_body]
pub struct ExDecodeError(base64::DecodeError);

/// Trusted: `base64::encode_config` with `STANDARD_NO_PAD`.
///
/// The text depends on the bytes alone, and decoding it in the same
/// alphabet gives the bytes back.
#[verifier::external_body]
fn encode_standard_no_pad(bytes: &[u8]) -> (text: String)
    ensures
        text@ == base64_standard_encoding(bytes@),
        base64_standard_decoding(text@) == Some(bytes@),
{
    base64::encode_config(bytes, base64::STANDARD_NO_PAD)
}

/// Trusted: `base64::decode_config` with `STANDARD_NO_PAD`.
///
/// Whether the text is taken, and the bytes that it gives, depend on the
/// text alone.
#[verifier::external_body]
fn decode_standard_no_pad(text: &str) -> (r: Result<Vec<u8>, base64::DecodeError>)
    ensures
        match r {
            Ok(bytes) => base64_standard_decoding(text@) == Some(bytes@),
            Err(_) => base64_standard_decoding(text@) is None,
        },
{
    base64::decode_config(text, base64::STANDARD_NO_PAD)
}

/// Trusted: `base64::decode_config` with `URL_SAFE_NO_PAD`.
///
/// Whether the text is taken, and the bytes that it gives, depend on the
/// text alone.
#[verifier::external_body]
fn decode_url_safe_no_pad(text: &str) -> (r: Result<Vec<u8>, base64::DecodeError>)
    ensures
        match r {
            Ok(bytes) => base64_url_safe_decoding(text@) == Some(bytes@),
            Err(_) => base64_url_safe_decoding(text@) is None,
        },
{
    base64::decode_config(text, base64::URL_SAFE_NO_PAD)
}

/// The seed that decoded bytes hold: `InvalidEncoding` where the text was
/// not base64, `MalformedKeyEncoding` where it held another number of bytes
/// than 32.
pub open spec fn seed_of_decoded(decoded: Option<Seq<u8>>) -> Result<Seq<u8>, ConfigError> {
    match decoded {
        None => Err(ConfigError::InvalidEncoding),
        Some(bytes) => if bytes.len() == 32 {
            Ok(bytes)
        } else {
            Err(ConfigError::MalformedKeyEncoding)
        },
    }
}

/// The public key that decoded bytes hold: `InvalidEncoding` where the text
/// was not base64, `MalformedKeyEncoding` where it held another number of
/// bytes than 32, or 32 bytes that encode no point of the curve.
pub open spec fn public_key_of_decoded(decoded: Option<Seq<u8>>) -> Result<Seq<u8>, ConfigError> {
    match decoded {
        None => Err(ConfigError::InvalidEncoding),
        Some(bytes) => if bytes.len() == 32 && ed25519_accepts(bytes) {
            Ok(bytes)
        } else {
            Err(ConfigError::MalformedKeyEncoding)
        },
    }
}

/// `bytes` in standard base64 without padding. Reading the text back gives
/// `bytes` again.
pub fn to_base64(bytes: &[u8]) -> (text: String)
    ensures
        text@ == base64_standard_encoding(bytes@),
        base64_standard_decoding(text@) == Some(bytes@),
{
    encode_standard_no_pad(bytes)
}

/// The bytes that `text` stands for in standard base64.
pub fn bytes_from_base64(text: &str) -> (r: Result<Vec<u8>, ConfigError>)
    ensures
        match base64_standard_decoding(text@) {
            Some(bytes) => r matches Ok(decoded) && decoded@ == bytes,
            None => r == Err::<Vec<u8>, ConfigError>(ConfigError::InvalidEncoding),
        },
{
    match decode_standard_no_pad(text) {
        Ok(bytes) => Ok(bytes),
        Err(_) => Err(ConfigError::InvalidEncoding),
    }
}

/// The bytes that `text` stands for in URL-safe base64.
pub fn bytes_from_url_base64(text: &str) -> (r: Result<Vec<u8>, ConfigError>)
    ensures
        match base64_url_safe_decoding(text@) {
            Some(bytes) => r matches Ok(decoded) && decoded@ == bytes,
            None => r == Err::<Vec<u8>, ConfigError>(ConfigError::InvalidEncoding),
        },
{
    match decode_url_safe_no_pad(text) {
        Ok(bytes) => Ok(bytes),
        Err(_) => Err(ConfigError::InvalidEncoding),
    }
}

/// `bytes` as a seed. There must be exactly 32 of them.
pub fn seed_from_bytes(bytes: &[u8]) -> (r: Result<Seed, ConfigError>)
    ensures
        r is Ok <==> bytes@.len() == 32,
        r matches Ok(seed) ==> seed@ == bytes@,
        r matches Err(e) ==> e == ConfigError::MalformedKeyEncoding,
{
    match exactly_32_bytes(bytes) {
        Some(seed) => Ok(seed),
        None => Err(ConfigError::MalformedKeyEncoding),
    }
}

/// The seed that `text` holds in standard base64.
pub fn seed_from_base64(text: &str) -> (r: Result<Seed, ConfigError>)
    ensures
        match seed_of_decoded(base64_standard_decoding(text@)) {
            Ok(bytes) => r matches Ok(seed) && seed@ == bytes,
            Err(e) => r == Err::<Seed, ConfigError>(e),
        },
{
    match bytes_from_base64(text) {
        Ok(bytes) => seed_from_bytes(bytes.as_slice()),
        Err(e) => Err(e),
    }
}

/// The public key that `text` holds in standard base64.
pub fn public_key_from_base64(text: &str) -> (r: Result<PublicKey, ConfigError>)
    ensures
        match public_key_of_decoded(base64_standard_decoding(text@)) {
            Ok(bytes) => r matches Ok(key) && key@ == bytes,
            Err(e) => r == Err::<PublicKey, ConfigError>(e),
        },
{
    match bytes_from_base64(text) {
        Ok(bytes) => PublicKey::from_bytes(bytes.as_slice()),
        Err(e) => Err(e),
    }
}

/// The public key that `text` holds in URL-safe base64.
pub fn public_key_from_url_base64(text: &str) -> (r: Result<PublicKey, ConfigError>)
    ensures
        match public_key_of_decoded(base64_url_safe_decoding(text@)) {
            Ok(bytes) => r matches Ok(key) && key@ == bytes,
            Err(e) => r == Err::<PublicKey, ConfigError>(e),
        },
{
    match bytes_from_url_base64(text) {
        Ok(bytes) => PublicKey::from_bytes(bytes.as_slice()),
        Err(e) => Err(e),
    }
}

} // verus!
