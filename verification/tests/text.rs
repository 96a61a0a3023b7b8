use hpos_config_core::encoding::to_base64;
use hpos_config_core::text::{AdminText, ConfigText};
use hpos_config_core::{Admin, Config, ConfigError, PublicKey};

const ZEROS: &str = "AAAAAAAAAAAAAAAAAAAAAAAAAAAAAAAAAAAAAAAAAAA";
const ZERO_SEED_KEY: &str = "O2onvM62pC1io6jQKm8Nc2UyFXcd4kOmOsBIoYtZ2ik";

fn key(first: u8) -> PublicKey {
    let mut secret = [0u8; 32];
    secret[0] = first;
    PublicKey::from_secret(&secret).unwrap()
}

fn admin_text(email: &str, public_key: &str) -> AdminText {
    AdminText { email: email.to_string(), public_key: public_key.to_string() }
}

fn config_text(seed: &str, admins: Vec<AdminText>) -> ConfigText {
    ConfigText::V1 { seed: seed.to_string(), admins }
}

#[test]
fn text_of_a_known_record() {
    let config = Config::assemble([0u8; 32], "a@b.co".to_string(), key(0));
    assert_eq!(config.to_text(), config_text(ZEROS, vec![admin_text("a@b.co", ZERO_SEED_KEY)]));
}

#[test]
fn record_of_a_known_text() {
    let text = config_text(ZEROS, vec![admin_text("a@b.co", ZERO_SEED_KEY)]);
    let config = Config::from_text(&text).unwrap();
    assert_eq!(config, Config::assemble([0u8; 32], "a@b.co".to_string(), key(0)));
    match config {
        Config::V1 { seed, admins } => {
            assert_eq!(seed, [0u8; 32]);
            assert_eq!(admins.len(), 1);
            assert_eq!(admins[0].email(), "a@b.co");
            assert_eq!(admins[0].public_key(), key(0));
        }
    }
}

#[test]
fn derived_record_round_trip() {
    let (config, _) =
        Config::new("a@b.co".to_string(), "correct-horse-battery".to_string(), Some([4u8; 32]))
            .unwrap();
    let text = config.to_text();
    assert_eq!(Config::from_text(&text), Ok(config));
}

#[test]
fn record_with_several_admins_round_trip() {
    let admins: Vec<Admin> =
        (0u8..5).map(|i| Admin::new(format!("admin{}@example.org", i), key(i))).collect();
    let seed: [u8; 32] = core::array::from_fn(|i| (255 - i) as u8);
    let config = Config::V1 { seed, admins };
    let text = config.to_text();
    match &text {
        ConfigText::V1 { seed: seed_text, admins } => {
            assert_eq!(seed_text, &to_base64(&seed));
            assert_eq!(admins.len(), 5);
            for (i, admin) in admins.iter().enumerate() {
                assert_eq!(admin.email, format!("admin{}@example.org", i));
                assert_eq!(admin.public_key, to_base64(&key(i as u8).to_bytes()));
            }
        }
    }
    assert_eq!(Config::from_text(&text), Ok(config));
}

#[test]
fn record_without_admins_round_trip() {
    let config = Config::V1 { seed: [1u8; 32], admins: Vec::new() };
    let text = config.to_text();
    assert_eq!(text, config_text(&to_base64(&[1u8; 32]), Vec::new()));
    assert_eq!(Config::from_text(&text), Ok(config));
}

#[test]
fn admin_round_trip() {
    let admin = Admin::new("ünïcode@example.org".to_string(), key(9));
    let text = admin.to_text();
    assert_eq!(text.email, "ünïcode@example.org");
    assert_eq!(text.public_key, to_base64(&key(9).to_bytes()));
    assert_eq!(Admin::from_text(&text), Ok(admin));
}

#[test]
fn a_seed_that_is_not_base64_is_invalid() {
    let text = config_text("not base64!", vec![admin_text("a@b.co", ZERO_SEED_KEY)]);
    assert_eq!(Config::from_text(&text), Err(ConfigError::InvalidEncoding));
}

#[test]
fn a_seed_of_another_length_is_malformed() {
    let text = config_text("AAAA", vec![admin_text("a@b.co", ZERO_SEED_KEY)]);
    assert_eq!(Config::from_text(&text), Err(ConfigError::MalformedKeyEncoding));
}

#[test]
fn an_admin_key_that_is_not_base64_is_invalid() {
    let text = config_text(ZEROS, vec![admin_text("a@b.co", "?")]);
    assert_eq!(Config::from_text(&text), Err(ConfigError::InvalidEncoding));
    assert_eq!(Admin::from_text(&admin_text("a@b.co", "?")), Err(ConfigError::InvalidEncoding));
}

#[test]
fn an_admin_key_of_another_length_is_malformed() {
    let text = config_text(ZEROS, vec![admin_text("a@b.co", "AAAA")]);
    assert_eq!(Config::from_text(&text), Err(ConfigError::MalformedKeyEncoding));
    assert_eq!(
        Admin::from_text(&admin_text("a@b.co", "AAAA")),
        Err(ConfigError::MalformedKeyEncoding)
    );
}

#[test]
fn the_first_failure_is_returned() {
    let good = admin_text("a@b.co", ZERO_SEED_KEY);
    let invalid = admin_text("b@b.co", "?");
    let malformed = admin_text("c@b.co", "AAAA");
    assert_eq!(
        Config::from_text(&config_text(ZEROS, vec![good.clone(), invalid.clone(), malformed.clone()])),
        Err(ConfigError::InvalidEncoding)
    );
    assert_eq!(
        Config::from_text(&config_text(ZEROS, vec![good.clone(), malformed.clone(), invalid.clone()])),
        Err(ConfigError::MalformedKeyEncoding)
    );
    assert_eq!(
        Config::from_text(&config_text("AAAA", vec![invalid.clone()])),
        Err(ConfigError::MalformedKeyEncoding)
    );
    assert_eq!(
        Config::from_text(&config_text("?", vec![malformed])),
        Err(ConfigError::InvalidEncoding)
    );
}
