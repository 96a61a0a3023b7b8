//! The versioned record of an installation's identities, and its derivation
//! from a seed and the credentials of an administrator.

use crate::error::ConfigError;
use crate::keys::{
    admin_public_key, admin_public_key_from, ed25519_public_key, password_fits, PublicKey, Seed,
};
use crate::seed::obtain_seed;
use vstd::prelude::*;

verus! {

/// An administrator: an e-mail address, and the public key that belongs to
/// the address, the password and the installation. The secret key is not
/// kept: the credentials give it again.
#[derive(Clone, Debug, PartialEq, Eq)]
pub struct Admin {
    email: String,
    public_key: PublicKey,
}

/// What an `Admin` holds.
pub struct AdminView {
    pub email: Seq<char>,
    pub public_key: Seq<u8>,
}

impl View for Admin {
    type V = AdminView;

    closed spec fn view(&self) -> AdminView {
        AdminView { email: self.email@, public_key: self.public_key@ }
    }
}

impl Admin {
    /// The administrator with the given address and key.
    pub fn new(email: String, public_key: PublicKey) -> (admin: Admin)
        ensures
            admin@ == (AdminView { email: email@, public_key: public_key@ }),
    {
        Admin { email, public_key }
    }

    /// The e-mail address.
    pub fn email(&self) -> (email: &str)
        ensures
            email@ == self@.email,
    {
        self.email.as_str()
    }

    /// The public key.
    pub fn public_key(&self) -> (key: PublicKey)
        ensures
            key@ == self@.public_key,
    {
        self.public_key
    }
}

/// What each administrator of a list holds, in the order of the list.
pub open spec fn admin_views(admins: Seq<Admin>) -> Seq<AdminView> {
    admins.map_values(|admin: Admin| admin@)
}

/// The record of an installation. The variant is the version of the layout.
#[derive(Clone, Debug, PartialEq, Eq)]
pub enum Config {
    V1 { seed: Seed, admins: Vec<Admin> },
}

/// What a `Config` holds.
pub enum ConfigView {
    V1 { seed: Seq<u8>, admins: Seq<AdminView> },
}

impl View for Config {
    type V = ConfigView;

    open spec fn view(&self) -> ConfigView {
        match *self {
            Config::V1 { seed, admins } => ConfigView::V1 {
                seed: seed@,
                admins: admin_views(admins@),
            },
        }
    }
}

/// The record and the primary public key that a seed and the credentials of
/// an administrator give.
///
/// The primary key pair is that of the seed. The record holds the seed and
/// one administrator, whose key depends on the primary public key and on both
/// credentials. Nothing else enters: the same arguments give the same record.
pub open spec fn derivation(email: Seq<char>, password: Seq<char>, seed: Seq<u8>) -> Result<
    (ConfigView, Seq<u8>),
    ConfigError,
> {
    if seed.len() != 32 {
        Err(ConfigError::InvalidSeedMaterial)
    } else if !password_fits(password) {
        Err(ConfigError::PasswordHashingFailed)
    } else {
        let primary = ed25519_public_key(seed);
        let admin = AdminView { email, public_key: admin_public_key(primary, email, password) };
        Ok((ConfigView::V1 { seed, admins: seq![admin] }, primary))
    }
}

/// Whether `outcome` is what `derivation` gives for these arguments.
pub open spec fn is_derived_from(
    outcome: Result<(Config, PublicKey), ConfigError>,
    email: Seq<char>,
    password: Seq<char>,
    seed: Seq<u8>,
) -> bool {
    match derivation(email, password, seed) {
        Ok((config, primary)) => outcome matches Ok((c, p)) && c@ == config && p@ == primary,
        Err(e) => outcome == Err::<(Config, PublicKey), ConfigError>(e),
    }
}

/// Two outcomes of a derivation from the same e-mail address, password and
/// seed fail in the same way, or hold the same record and the same primary
/// public key.
pub proof fn lemma_derivation_is_deterministic(
    first: Result<(Config, PublicKey), ConfigError>,
    second: Result<(Config, PublicKey), ConfigError>,
    email: Seq<char>,
    password: Seq<char>,
    seed: Seq<u8>,
)
    requires
        is_derived_from(first, email, password, seed),
        is_derived_from(second, email, password, seed),
    ensures
        match (first, second) {
            (Ok((config, key)), Ok((other_config, other_key))) => config@ == other_config@ && key@
                == other_key@,
            (Err(error), Err(other_error)) => error == other_error,
            _ => false,
        },
{
}

impl Config {
    /// The record that holds `seed` and the one administrator with the given
    /// address and key.
    pub fn assemble(seed: Seed, email: String, admin_key: PublicKey) -> (config: Config)
        ensures
            config@ == (ConfigView::V1 {
                seed: seed@,
                admins: seq![AdminView { email: email@, public_key: admin_key@ }],
            }),
    {
        let admin = Admin::new(email, admin_key);
        let admins = vec![admin];
        let config = Config::V1 { seed, admins };
        assert(config@->admins =~= seq![admin@]);
        config
    }

    /// The record of the installation with the given seed and administrator,
    /// and the installation's primary public key.
    ///
    /// It fails only on a password that the password hash does not take, with
    /// `PasswordHashingFailed`.
    pub fn from_seed(email: String, password: String, seed: Seed) -> (r: Result<
        (Config, PublicKey),
        ConfigError,
    >)
        ensures
            is_derived_from(r, email@, password@, seed@),
    {
        let primary = match PublicKey::from_secret(seed.as_slice()) {
            Ok(key) => key,
            Err(e) => {
                return Err(e);
            },
        };
        let admin_key = match admin_public_key_from(primary, email.as_str(), password.as_str()) {
            Ok(key) => key,
            Err(e) => {
                return Err(e);
            },
        };
        Ok((Config::assemble(seed, email, admin_key), primary))
    }

    /// The record of an installation and its primary public key, from the
    /// credentials of its administrator and, where one is given, a seed.
    ///
    /// With a seed the outcome is that of `from_seed`. Without one the seed
    /// is drawn from the operating system's random source, and the outcome is
    /// that of `from_seed` on the seed that was drawn, which the record
    /// holds; drawing it may fail with `RandomSourceUnavailable`.
    pub fn new(email: String, password: String, maybe_seed: Option<Seed>) -> (r: Result<
        (Config, PublicKey),
        ConfigError,
    >)
        ensures
            maybe_seed matches Some(seed) ==> is_derived_from(r, email@, password@, seed@),
            r matches Ok((config, _)) ==> is_derived_from(r, email@, password@, config@->seed),
            r is Ok ==> password_fits(password@),
            r matches Err(e) ==> {
                ||| maybe_seed is None && e == ConfigError::RandomSourceUnavailable
                ||| !password_fits(password@) && e == ConfigError::PasswordHashingFailed
            },
    {
        match obtain_seed(maybe_seed) {
            Ok(seed) => Config::from_seed(email, password, seed),
            Err(e) => Err(e),
        }
    }
}

} // verus!
