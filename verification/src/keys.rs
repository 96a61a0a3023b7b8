//! Ed25519 public keys, and the hashes that an administrator's key is made
//! with.
//!
//! The curve arithmetic and the hash functions are those of `ed25519-dalek`
//! and `rust-argon2`. What they compute is named here, not defined: the
//! contracts of this module say which bytes go into which function, and what
//! is done with the bytes that come back.

use crate::error::ConfigError;
use ed25519_dalek::Digest;
use vstd::prelude::*;
use vstd::utf8::{encode_utf8, is_ascii_chars, is_ascii_chars_encode_utf8};

verus! {

/// The number of bytes in a seed.
pub const SEED_SIZE: usize = 32;

/// The number of bytes in a public key.
pub const PUBLIC_KEY_SIZE: usize = 32;

/// The secret that the primary key pair is made from.
pub type Seed = [u8; SEED_SIZE];

/// The Argon2 variant, by its number: Argon2id.
pub const ADMIN_HASH_VARIANT: u32 = 2;

/// The Argon2 version, by its number: 1.3.
pub const ADMIN_HASH_VERSION: u32 = 0x13;

/// Argon2 memory cost, in KiB: 64 MiB.
pub const ADMIN_HASH_MEMORY_COST: u32 = 65536;

/// Argon2 time cost: the number of passes over the memory.
pub const ADMIN_HASH_TIME_COST: u32 = 2;

/// Argon2 lanes.
pub const ADMIN_HASH_LANES: u32 = 4;

/// The length of the Argon2 output, which is used as an Ed25519 secret key.
pub const ADMIN_HASH_LENGTH: u32 = 32;

/// The associated data of the Argon2 hash. It sets the administrator's key
/// apart from any other use of the same credentials.
pub const ADMIN_HASH_CONTEXT: &'static str = "holo-config admin ed25519 key v1";

/// The most lanes that the hash is asked to fill, each in a thread
/// of its own.
pub const MAX_HASH_LANES: u32 = 16;

/// The largest memory cost, in KiB, that `rust-argon2` takes on every target.
pub const MAX_HASH_MEMORY_COST: u32 = 0x20_0000;

/// The Ed25519 public key that belongs to the 32-byte secret key `secret`.
pub uninterp spec fn ed25519_public_key(secret: Seq<u8>) -> Seq<u8>;

/// Whether `key` is the encoding of a point of the curve, so that
/// `ed25519-dalek` takes it as a public key.
pub uninterp spec fn ed25519_accepts(key: Seq<u8>) -> bool;

/// The SHA-512 digest of `data`.
pub uninterp spec fn sha512(data: Seq<u8>) -> Seq<u8>;

/// The Argon2 hash of `password` with `salt`, keyed by `secret`, with the
/// associated data `ad` and the given costs. The variant and the version are
/// given by their numbers: 0, 1 and 2 are Argon2d, Argon2i and Argon2id, and
/// 0x10 and 0x13 are the versions 1.0 and 1.3.
pub uninterp spec fn argon2_hash(
    variant: u32,
    version: u32,
    password: Seq<u8>,
    salt: Seq<u8>,
    secret: Seq<u8>,
    ad: Seq<u8>,
    mem_cost: u32,
    time_cost: u32,
    lanes: u32,
    hash_length: u32,
) -> Seq<u8>;

/// The limits inside which `rust-argon2` computes a hash. Outside them it
/// returns an error.
pub open spec fn argon2_accepts(
    variant: u32,
    version: u32,
    password_len: nat,
    salt_len: nat,
    secret_len: nat,
    ad_len: nat,
    mem_cost: u32,
    time_cost: u32,
    lanes: u32,
    hash_length: u32,
) -> bool {
    &&& variant <= 2
    &&& (version == 0x10 || version == 0x13)
    &&& 1 <= lanes <= 0x00FF_FFFF
    &&& 8 <= mem_cost
    &&& 8 * lanes <= mem_cost
    &&& 1 <= time_cost
    &&& password_len <= 0xFFFF_FFFF
    &&& 8 <= salt_len <= 0xFFFF_FFFF
    &&& secret_len <= 0xFFFF_FFFF
    &&& ad_len <= 0xFFFF_FFFF
    &&& 4 <= hash_length
}

/// The error of `ed25519-dalek`. Nothing is read from it.
#[verifier::external_type_specification]
#[verifier::external_body]
pub struct ExSignatureError(ed25519_dalek::SignatureError);

/// The error of `rust-argon2`. Nothing is read from it.
#[verifier::external_type_specification]
#[verifier::external_body]
pub struct ExHashError(argon2::Error);

/// Trusted: `ed25519_dalek::PublicKey::from(&SecretKey)`, on the secret key
/// that `SecretKey::from_bytes` makes of `secret`, and `to_bytes` on what
/// comes back.
///
/// `SecretKey::from_bytes` fails on a length other than 32 and on nothing
/// else. The public key is a function of the secret key alone. It is the
/// compressed form of a point of the curve, so `PublicKey::from_bytes` takes
/// those bytes.
#[verifier::external_body]
fn ed25519_public_from_secret(secret: &[u8]) -> (r: Result<
    [u8; 32],
    ed25519_dalek::SignatureError,
>)
    ensures
        r is Ok <==> secret@.len() == 32,
        r matches Ok(key) ==> key@ == ed25519_public_key(secret@) && ed25519_accepts(key@),
{
    let secret_key = ed25519_dalek::SecretKey::from_bytes(secret)?;
    Ok(ed25519_dalek::PublicKey::from(&secret_key).to_bytes())
}

/// Trusted: `ed25519_dalek::PublicKey::from_bytes`, and `to_bytes` on the key
/// that it makes.
///
/// On 32 bytes it fails exactly where they do not decompress to a point of
/// the curve. The key that it makes holds the bytes that it was given.
#[verifier::external_body]
fn ed25519_public_from_bytes(bytes: &[u8; 32]) -> (r: Result<
    [u8; 32],
    ed25519_dalek::SignatureError,
>)
    ensures
        r is Ok <==> ed25519_accepts(bytes@),
        r matches Ok(key) ==> key@ == bytes@,
{
    let key = ed25519_dalek::PublicKey::from_bytes(bytes)?;
    Ok(key.to_bytes())
}

/// Trusted: `Sha512::digest`, the hash as `ed25519-dalek` hands it on from
/// `sha2`. The digest has 64 bytes and depends on `data` alone.
#[verifier::external_body]
fn sha512_digest(data: &[u8]) -> (digest: [u8; 64])
    ensures
        digest@ == sha512(data@),
{
    let mut digest = [0u8; 64];
    digest.copy_from_slice(&ed25519_dalek::Sha512::digest(data));
    digest
}

/// Trusted: `argon2::hash_raw`, with a configuration that holds the
/// arguments as they are given, the variant and the version as
/// `Variant::from_u32` and `Version::from_u32` make them of their numbers.
///
/// The call checks the numbers, the lengths and the costs against its
/// limits, which are those of `argon2_accepts` where the memory cost is no
/// more than `MAX_HASH_MEMORY_COST`, and fails outside them; inside them it
/// returns `hash_length` bytes that depend on the arguments alone. The lanes
/// are filled in one thread each, which changes nothing in the result; the
/// bound on `lanes` keeps the number of threads small.
#[verifier::external_body]
fn argon2_hash_raw(
    variant: u32,
    version: u32,
    password: &[u8],
    salt: &[u8],
    secret: &[u8],
    ad: &[u8],
    mem_cost: u32,
    time_cost: u32,
    lanes: u32,
    hash_length: u32,
) -> (r: Result<Vec<u8>, argon2::Error>)
    requires
        lanes <= MAX_HASH_LANES,
        mem_cost <= MAX_HASH_MEMORY_COST,
    ensures
        r is Ok <==> argon2_accepts(
            variant,
            version,
            password@.len(),
            salt@.len(),
            secret@.len(),
            ad@.len(),
            mem_cost,
            time_cost,
            lanes,
            hash_length,
        ),
        r matches Ok(hash) ==> hash@.len() == hash_length && hash@ == argon2_hash(
            variant,
            version,
            password@,
            salt@,
            secret@,
            ad@,
            mem_cost,
            time_cost,
            lanes,
            hash_length,
        ),
{
    let config = argon2::Config {
        variant: argon2::Variant::from_u32(variant)?,
        version: argon2::Version::from_u32(version)?,
        mem_cost,
        time_cost,
        lanes,
        thread_mode: argon2::ThreadMode::Parallel,
        secret,
        ad,
        hash_length,
    };
    argon2::hash_raw(password, salt, &config)
}

/// The bytes of `bytes` as an array, where there are exactly 32 of them.
pub fn exactly_32_bytes(bytes: &[u8]) -> (r: Option<[u8; 32]>)
    ensures
        r is Some <==> bytes@.len() == 32,
        r matches Some(array) ==> array@ == bytes@,
{
    if bytes.len() != 32 {
        return None;
    }
    let mut array: [u8; 32] = [0u8; 32];
    let mut i: usize = 0;
    while i < 32
        invariant
            i <= 32,
            bytes@.len() == 32,
            forall|j: int| 0 <= j < i ==> array@[j] == bytes@[j],
        decreases 32 - i,
    {
        array[i] = bytes[i];
        i += 1;
    }
    assert(array@ =~= bytes@);
    Some(array)
}

/// An Ed25519 public key: 32 bytes that encode a point of the curve.
#[derive(Clone, Copy, Debug, PartialEq, Eq)]
pub struct PublicKey {
    bytes: [u8; PUBLIC_KEY_SIZE],
}

impl View for PublicKey {
    type V = Seq<u8>;

    closed spec fn view(&self) -> Seq<u8> {
        self.bytes@
    }
}

impl PublicKey {
    #[verifier::type_invariant]
    spec fn is_point(self) -> bool {
        ed25519_accepts(self.bytes@)
    }

    /// The key that `bytes` encode. There must be 32 of them, and they must
    /// encode a point of the curve.
    pub fn from_bytes(bytes: &[u8]) -> (r: Result<PublicKey, ConfigError>)
        ensures
            r is Ok <==> bytes@.len() == 32 && ed25519_accepts(bytes@),
            r matches Ok(key) ==> key@ == bytes@,
            r matches Err(e) ==> e == ConfigError::MalformedKeyEncoding,
    {
        match exactly_32_bytes(bytes) {
            None => Err(ConfigError::MalformedKeyEncoding),
            Some(array) => match ed25519_public_from_bytes(&array) {
                Ok(checked) => Ok(PublicKey { bytes: checked }),
                Err(_) => Err(ConfigError::MalformedKeyEncoding),
            },
        }
    }

    /// The public key of the key pair whose secret key is `secret`, which
    /// must have 32 bytes. The public key has 32 bytes too.
    pub fn from_secret(secret: &[u8]) -> (r: Result<PublicKey, ConfigError>)
        ensures
            r is Ok <==> secret@.len() == 32,
            r matches Ok(key) ==> key@ == ed25519_public_key(secret@) && key@.len() == 32,
            r matches Err(e) ==> e == ConfigError::InvalidSeedMaterial,
    {
        match ed25519_public_from_secret(secret) {
            Ok(bytes) => Ok(PublicKey { bytes }),
            Err(_) => Err(ConfigError::InvalidSeedMaterial),
        }
    }

    /// The 32 bytes of the key. They encode a point of the curve.
    pub fn to_bytes(&self) -> (bytes: [u8; 32])
        ensures
            bytes@ == self@,
            ed25519_accepts(self@),
    {
        proof {
            use_type_invariant(self);
        }
        self.bytes
    }
}

/// Whether Argon2 takes `password`: its UTF-8 form has fewer than 2^32 bytes.
pub open spec fn password_fits(password: Seq<char>) -> bool {
    encode_utf8(password).len() <= 0xFFFF_FFFF
}

/// The associated data of the hash is 32 ASCII characters, so its UTF-8 form
/// has 32 bytes.
pub proof fn lemma_admin_hash_context_length()
    ensures
        encode_utf8(ADMIN_HASH_CONTEXT@).len() == 32,
{
    reveal_strlit("holo-config admin ed25519 key v1");
    assert(is_ascii_chars(ADMIN_HASH_CONTEXT@));
    is_ascii_chars_encode_utf8(ADMIN_HASH_CONTEXT@);
}

/// The secret key of the administrator with the given credentials, on an
/// installation whose primary public key is `primary`: the Argon2id hash,
/// version 1.3, of the password, salted with the SHA-512 digest of the e-mail
/// address and keyed by the primary public key.
pub open spec fn admin_secret_key(primary: Seq<u8>, email: Seq<char>, password: Seq<char>) -> Seq<
    u8,
> {
    argon2_hash(
        ADMIN_HASH_VARIANT,
        ADMIN_HASH_VERSION,
        encode_utf8(password),
        sha512(encode_utf8(email)),
        primary,
        encode_utf8(ADMIN_HASH_CONTEXT@),
        ADMIN_HASH_MEMORY_COST,
        ADMIN_HASH_TIME_COST,
        ADMIN_HASH_LANES,
        ADMIN_HASH_LENGTH,
    )
}

/// The public key of that administrator.
pub open spec fn admin_public_key(primary: Seq<u8>, email: Seq<char>, password: Seq<char>) -> Seq<
    u8,
> {
    ed25519_public_key(admin_secret_key(primary, email, password))
}

/// The secret key that the password hash gave. A hash that failed gives
/// `PasswordHashingFailed`, one of another length than 32 gives
/// `InvalidSeedMaterial`.
pub fn admin_secret_from_hash(hashed: Result<Vec<u8>, argon2::Error>) -> (r: Result<
    [u8; 32],
    ConfigError,
>)
    ensures
        match hashed {
            Err(_) => r == Err::<[u8; 32], ConfigError>(ConfigError::PasswordHashingFailed),
            Ok(hash) => if hash@.len() == 32 {
                r matches Ok(secret) && secret@ == hash@
            } else {
                r == Err::<[u8; 32], ConfigError>(ConfigError::InvalidSeedMaterial)
            },
        },
{
    match hashed {
        Err(_) => Err(ConfigError::PasswordHashingFailed),
        Ok(hash) => match exactly_32_bytes(hash.as_slice()) {
            Some(secret) => Ok(secret),
            None => Err(ConfigError::InvalidSeedMaterial),
        },
    }
}

/// The administrator's public key, from the primary public key of the
/// installation and the administrator's credentials.
///
/// It fails only on a password that Argon2 does not take.
pub fn admin_public_key_from(primary: PublicKey, email: &str, password: &str) -> (r: Result<
    PublicKey,
    ConfigError,
>)
    ensures
        r is Ok <==> password_fits(password@),
        r matches Ok(key) ==> key@ == admin_public_key(primary@, email@, password@),
        r matches Err(e) ==> e == ConfigError::PasswordHashingFailed,
{
    let salt = sha512_digest(email.as_bytes());
    let primary_bytes = primary.to_bytes();
    proof {
        lemma_admin_hash_context_length();
    }
    let hashed = argon2_hash_raw(
        ADMIN_HASH_VARIANT,
        ADMIN_HASH_VERSION,
        password.as_bytes(),
        salt.as_slice(),
        primary_bytes.as_slice(),
        ADMIN_HASH_CONTEXT.as_bytes(),
        ADMIN_HASH_MEMORY_COST,
        ADMIN_HASH_TIME_COST,
        ADMIN_HASH_LANES,
        ADMIN_HASH_LENGTH,
    );
    match admin_secret_from_hash(hashed) {
        Err(e) => Err(e),
        Ok(secret) => PublicKey::from_secret(secret.as_slice()),
    }
}

} // verus!
