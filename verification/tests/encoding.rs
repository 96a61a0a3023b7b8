use hpos_config_core::encoding::{
    bytes_from_base64, bytes_from_url_base64, public_key_from_base64, public_key_from_url_base64,
    seed_from_base64, seed_from_bytes, to_base64,
};
use hpos_config_core::{ConfigError, PublicKey};

const ZEROS: &str = "AAAAAAAAAAAAAAAAAAAAAAAAAAAAAAAAAAAAAAAAAAA";

/// A seed whose public key has both `+` and `/` in its standard base64 text.
fn key_with_both_special_characters() -> PublicKey {
    for first in 0u8..=255 {
        for second in 0u8..=255 {
            let mut secret = [0u8; 32];
            secret[0] = first;
            secret[1] = second;
            let key = PublicKey::from_secret(&secret).unwrap();
            let text = to_base64(&key.to_bytes());
            if text.contains('+') && text.contains('/') {
                return key;
            }
        }
    }
    panic!("no such key among the first 65536 seeds");
}

#[test]
fn base64_of_known_bytes() {
    assert_eq!(to_base64(&[0u8; 32]), ZEROS);
    assert_eq!(to_base64(b"hello world"), "aGVsbG8gd29ybGQ");
    assert_eq!(to_base64(&[0xfb, 0xff]), "+/8");
    assert_eq!(to_base64(&[]), "");
}

#[test]
fn bytes_of_known_base64() {
    assert_eq!(bytes_from_base64("aGVsbG8gd29ybGQ"), Ok(b"hello world".to_vec()));
    assert_eq!(bytes_from_base64("+/8"), Ok(vec![0xfb, 0xff]));
    assert_eq!(bytes_from_url_base64("-_8"), Ok(vec![0xfb, 0xff]));
    assert_eq!(bytes_from_base64(""), Ok(Vec::new()));
}

#[test]
fn each_alphabet_refuses_the_other() {
    assert_eq!(bytes_from_base64("-_8"), Err(ConfigError::InvalidEncoding));
    assert_eq!(bytes_from_url_base64("+/8"), Err(ConfigError::InvalidEncoding));
}

#[test]
fn text_that_is_not_base64_is_invalid() {
    assert_eq!(bytes_from_base64("not base64!"), Err(ConfigError::InvalidEncoding));
    assert_eq!(bytes_from_url_base64("a b"), Err(ConfigError::InvalidEncoding));
    assert_eq!(seed_from_base64("****"), Err(ConfigError::InvalidEncoding));
    assert_eq!(public_key_from_base64("~~~~"), Err(ConfigError::InvalidEncoding));
    assert_eq!(public_key_from_url_base64("~~~~"), Err(ConfigError::InvalidEncoding));
    assert_eq!(seed_from_base64("A"), Err(ConfigError::InvalidEncoding));
}

#[test]
fn base64_round_trip() {
    let bytes: Vec<u8> = (0u8..=255).collect();
    for end in 0..bytes.len() {
        assert_eq!(bytes_from_base64(&to_base64(&bytes[..end])), Ok(bytes[..end].to_vec()));
    }
}

#[test]
fn seed_of_known_text() {
    assert_eq!(seed_from_base64(ZEROS), Ok([0u8; 32]));
    let seed: [u8; 32] = core::array::from_fn(|i| i as u8);
    assert_eq!(to_base64(&seed), "AAECAwQFBgcICQoLDA0ODxAREhMUFRYXGBkaGxwdHh8");
    assert_eq!(seed_from_base64("AAECAwQFBgcICQoLDA0ODxAREhMUFRYXGBkaGxwdHh8"), Ok(seed));
}

#[test]
fn seed_of_another_length_is_malformed() {
    assert_eq!(seed_from_base64(""), Err(ConfigError::MalformedKeyEncoding));
    assert_eq!(seed_from_base64("AAAA"), Err(ConfigError::MalformedKeyEncoding));
    assert_eq!(seed_from_base64(&to_base64(&[0u8; 31])), Err(ConfigError::MalformedKeyEncoding));
    assert_eq!(seed_from_base64(&to_base64(&[0u8; 33])), Err(ConfigError::MalformedKeyEncoding));
    assert_eq!(seed_from_bytes(&[1u8; 31]), Err(ConfigError::MalformedKeyEncoding));
    assert_eq!(seed_from_bytes(&[1u8; 33]), Err(ConfigError::MalformedKeyEncoding));
    assert_eq!(seed_from_bytes(&[1u8; 32]), Ok([1u8; 32]));
}

#[test]
fn public_key_text_round_trip() {
    let key = PublicKey::from_secret(&[0u8; 32]).unwrap();
    let text = to_base64(&key.to_bytes());
    assert_eq!(text, "O2onvM62pC1io6jQKm8Nc2UyFXcd4kOmOsBIoYtZ2ik");
    assert_eq!(public_key_from_base64(&text), Ok(key));
}

#[test]
fn public_key_of_another_length_is_malformed() {
    let key = PublicKey::from_secret(&[0u8; 32]).unwrap().to_bytes();
    assert_eq!(
        public_key_from_base64(&to_base64(&key[..31])),
        Err(ConfigError::MalformedKeyEncoding)
    );
    let mut longer = key.to_vec();
    longer.push(0);
    assert_eq!(public_key_from_base64(&to_base64(&longer)), Err(ConfigError::MalformedKeyEncoding));
    assert_eq!(public_key_from_base64(""), Err(ConfigError::MalformedKeyEncoding));
    assert_eq!(public_key_from_url_base64("AAAA"), Err(ConfigError::MalformedKeyEncoding));
}

#[test]
fn public_key_off_the_curve_is_malformed() {
    let mut rejected = 0;
    for first in 0u8..=255 {
        let mut bytes = [0u8; 32];
        bytes[0] = first;
        if ed25519_dalek::PublicKey::from_bytes(&bytes).is_err() {
            assert_eq!(
                public_key_from_base64(&to_base64(&bytes)),
                Err(ConfigError::MalformedKeyEncoding)
            );
            rejected += 1;
        }
    }
    assert!(rejected > 0);
}

#[test]
fn public_key_from_a_url() {
    let key = key_with_both_special_characters();
    let standard = to_base64(&key.to_bytes());
    let url_safe = standard.replace('+', "-").replace('/', "_");
    assert_ne!(standard, url_safe);
    assert_eq!(public_key_from_url_base64(&url_safe), Ok(key));
    assert_eq!(public_key_from_base64(&standard), Ok(key));
    assert_eq!(public_key_from_url_base64(&standard), Err(ConfigError::InvalidEncoding));
    assert_eq!(public_key_from_base64(&url_safe), Err(ConfigError::InvalidEncoding));
}
