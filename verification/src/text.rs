//! The record as text: the layout in which it is stored and exchanged.
//!
//! Every binary field, the seed and each public key, becomes a string of
//! standard base64 without padding. The e-mail addresses stay as they are,
//! and so does the version.

use crate::config::{admin_views, Admin, AdminView, Config, ConfigView};
use crate::encoding::{
    base64_standard_decoding, base64_standard_encoding, public_key_from_base64,
    public_key_of_decoded, seed_from_base64, seed_of_decoded, to_base64,
};
use crate::error::ConfigError;
use vstd::prelude::*;

verus! {

/// An administrator as text.
#[derive(Clone, Debug, PartialEq, Eq)]
pub struct AdminText {
    pub email: String,
    pub public_key: String,
}

/// What an `AdminText` holds.
pub struct AdminTextView {
    pub email: Seq<char>,
    pub public_key: Seq<char>,
}

impl View for AdminText {
    type V = AdminTextView;

    open spec fn view(&self) -> AdminTextView {
        AdminTextView { email: self.email@, public_key: self.public_key@ }
    }
}

/// What each text of a list holds, in the order of the list.
pub open spec fn admin_text_views(texts: Seq<AdminText>) -> Seq<AdminTextView> {
    texts.map_values(|admin: AdminText| admin@)
}

/// A record as text. The variant is the version of the layout.
#[derive(Clone, Debug, PartialEq, Eq)]
pub enum ConfigText {
    V1 { seed: String, admins: Vec<AdminText> },
}

/// What a `ConfigText` holds.
pub enum ConfigTextView {
    V1 { seed: Seq<char>, admins: Seq<AdminTextView> },
}

impl View for ConfigText {
    type V = ConfigTextView;

    open spec fn view(&self) -> ConfigTextView {
        match *self {
            ConfigText::V1 { seed, admins } => ConfigTextView::V1 {
                seed: seed@,
                admins: admin_text_views(admins@),
            },
        }
    }
}

/// The text of an administrator.
pub open spec fn admin_text(admin: AdminView) -> AdminTextView {
    AdminTextView {
        email: admin.email,
        public_key: base64_standard_encoding(admin.public_key),
    }
}

/// The text of a record.
pub open spec fn config_text(config: ConfigView) -> ConfigTextView {
    ConfigTextView::V1 {
        seed: base64_standard_encoding(config->seed),
        admins: config->admins.map_values(|admin: AdminView| admin_text(admin)),
    }
}

/// The administrator that a text holds, or why it holds none.
pub open spec fn admin_of_text(text: AdminTextView) -> Result<AdminView, ConfigError> {
    match public_key_of_decoded(base64_standard_decoding(text.public_key)) {
        Ok(public_key) => Ok(AdminView { email: text.email, public_key }),
        Err(e) => Err(e),
    }
}

/// The administrators that the texts hold, in their order. Where some text
/// holds none, the error is that of the first such text.
pub open spec fn admins_of_text(texts: Seq<AdminTextView>) -> Result<Seq<AdminView>, ConfigError>
    decreases texts.len(),
{
    if texts.len() == 0 {
        Ok(Seq::empty())
    } else {
        match admins_of_text(texts.drop_last()) {
            Err(e) => Err(e),
            Ok(admins) => match admin_of_text(texts.last()) {
                Err(e) => Err(e),
                Ok(admin) => Ok(admins.push(admin)),
            },
        }
    }
}

/// The record that a text holds, or why it holds none. The seed is read
/// first, then the administrators in their order; the first failure is the
/// one returned.
pub open spec fn config_of_text(text: ConfigTextView) -> Result<ConfigView, ConfigError> {
    match seed_of_decoded(base64_standard_decoding(text->seed)) {
        Err(e) => Err(e),
        Ok(seed) => match admins_of_text(text->admins) {
            Err(e) => Err(e),
            Ok(admins) => Ok(ConfigView::V1 { seed, admins }),
        },
    }
}

/// Whether `text` is the text of `config`, and one that gives `config` when
/// it is read.
pub open spec fn is_text_of(text: ConfigText, config: Config) -> bool {
    &&& text@ == config_text(config@)
    &&& config_of_text(text@) == Ok::<ConfigView, ConfigError>(config@)
}

/// Whether `outcome` is what reading `text` gives.
pub open spec fn is_read_from(outcome: Result<Config, ConfigError>, text: ConfigText) -> bool {
    match config_of_text(text@) {
        Ok(config) => outcome matches Ok(read) && read@ == config,
        Err(e) => outcome == Err::<Config, ConfigError>(e),
    }
}

/// Writing a record as text and reading the text gives a record that holds
/// what the first one holds: the same seed, and the same administrators with
/// the same addresses and keys.
pub proof fn lemma_text_round_trip(
    config: Config,
    text: ConfigText,
    outcome: Result<Config, ConfigError>,
)
    requires
        is_text_of(text, config),
        is_read_from(outcome, text),
    ensures
        outcome matches Ok(read) && read@ == config@,
{
}

/// An error among the first `n` texts is the error of them all.
proof fn lemma_first_error_stays(texts: Seq<AdminTextView>, n: int)
    requires
        0 <= n <= texts.len(),
        admins_of_text(texts.take(n)) is Err,
    ensures
        admins_of_text(texts) == admins_of_text(texts.take(n)),
    decreases texts.len(),
{
    if n == texts.len() {
        assert(texts.take(n) =~= texts);
    } else {
        assert(texts.drop_last().take(n) =~= texts.take(n));
        lemma_first_error_stays(texts.drop_last(), n);
    }
}

impl Admin {
    /// The administrator as text. Reading the text gives the administrator
    /// back.
    pub fn to_text(&self) -> (text: AdminText)
        ensures
            text@ == admin_text(self@),
            admin_of_text(text@) == Ok::<AdminView, ConfigError>(self@),
    {
        let key = self.public_key().to_bytes();
        AdminText { email: self.email().to_owned(), public_key: to_base64(key.as_slice()) }
    }

    /// The administrator that `text` holds.
    ///
    /// It fails with `InvalidEncoding` where the key is not base64, and with
    /// `MalformedKeyEncoding` where it is, but holds no public key.
    pub fn from_text(text: &AdminText) -> (r: Result<Admin, ConfigError>)
        ensures
            match admin_of_text(text@) {
                Ok(admin) => r matches Ok(read) && read@ == admin,
                Err(e) => r == Err::<Admin, ConfigError>(e),
            },
    {
        match public_key_from_base64(text.public_key.as_str()) {
            Ok(key) => Ok(Admin::new(text.email.clone(), key)),
            Err(e) => Err(e),
        }
    }
}

impl Config {
    /// The record as text. Reading the text gives the record back.
    pub fn to_text(&self) -> (text: ConfigText)
        ensures
            is_text_of(text, *self),
    {
        match self {
            Config::V1 { seed, admins } => {
                let seed_text = to_base64(seed.as_slice());
                let mut texts: Vec<AdminText> = Vec::new();
                let mut i: usize = 0;
                proof {
                    assert(admin_text_views(texts@) =~= Seq::empty());
                    assert(admin_views(admins@.take(0)) =~= Seq::empty());
                }
                while i < admins.len()
                    invariant
                        i <= admins.len(),
                        texts@.len() == i,
                        forall|j: int| 0 <= j < i ==> texts@[j]@ == admin_text(admins@[j]@),
                        admins_of_text(admin_text_views(texts@)) == Ok::<
                            Seq<AdminView>,
                            ConfigError,
                        >(admin_views(admins@.take(i as int))),
                    decreases admins.len() - i,
                {
                    let text = admins[i].to_text();
                    proof {
                        let after = admin_text_views(texts@.push(text));
                        assert(after.drop_last() =~= admin_text_views(texts@));
                        assert(after.last() == text@);
                        assert(admin_views(admins@.take(i + 1)) =~= admin_views(
                            admins@.take(i as int),
                        ).push(admins@[i as int]@));
                    }
                    texts.push(text);
                    i += 1;
                }
                let text = ConfigText::V1 { seed: seed_text, admins: texts };
                proof {
                    assert(admins@.take(i as int) =~= admins@);
                    assert(text@->admins =~= config_text(self@)->admins);
                }
                text
            },
        }
    }

    /// The record that `text` holds.
    ///
    /// The seed is read first, then the administrators in their order. It
    /// fails at the first field that is not base64, with `InvalidEncoding`,
    /// or that is base64 and holds no seed or no public key, with
    /// `MalformedKeyEncoding`.
    pub fn from_text(text: &ConfigText) -> (r: Result<Config, ConfigError>)
        ensures
            is_read_from(r, *text),
    {
        match text {
            ConfigText::V1 { seed, admins } => {
                let seed = match seed_from_base64(seed.as_str()) {
                    Ok(seed) => seed,
                    Err(e) => {
                        return Err(e);
                    },
                };
                let ghost texts = admin_text_views(admins@);
                let mut read: Vec<Admin> = Vec::new();
                let mut i: usize = 0;
                proof {
                    assert(texts.take(0) =~= Seq::empty());
                    assert(admin_views(read@) =~= Seq::empty());
                }
                while i < admins.len()
                    invariant
                        i <= admins.len(),
                        texts == admin_text_views(admins@),
                        text@->admins == texts,
                        seed_of_decoded(base64_standard_decoding(text@->seed)) is Ok,
                        admins_of_text(texts.take(i as int)) == Ok::<Seq<AdminView>, ConfigError>(
                            admin_views(read@),
                        ),
                    decreases admins.len() - i,
                {
                    proof {
                        assert(texts.take(i + 1).drop_last() =~= texts.take(i as int));
                        assert(texts.take(i + 1).last() == admins@[i as int]@);
                    }
                    match Admin::from_text(&admins[i]) {
                        Ok(admin) => {
                            proof {
                                assert(admin_views(read@.push(admin)) =~= admin_views(read@).push(
                                    admin@,
                                ));
                            }
                            read.push(admin);
                        },
                        Err(e) => {
                            proof {
                                assert(admins_of_text(texts.take(i + 1)) == Err::<
                                    Seq<AdminView>,
                                    ConfigError,
                                >(e));
                                lemma_first_error_stays(texts, i + 1);
                            }
                            return Err(e);
                        },
                    }
                    i += 1;
                }
                proof {
                    assert(texts.take(i as int) =~= texts);
                }
                Ok(Config::V1 { seed, admins: read })
            },
        }
    }
}

} // verus!
