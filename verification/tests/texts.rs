use specteros::keys::KeyId;
use specteros::policy::{map_crypto_error, PolicyError};
use specteros::shard::manager::{ShardError, ShardState};
use specteros::shell::theme::Theme;
use specteros::signing::CryptoFailure;
use specteros::text::{contains_text, decimal, hex16};

#[test]
fn shard_errors_render_as_debug_does() {
    let error = ShardError::InvalidTransition { from: Some(ShardState::Created), attempted: "destroy" };
    assert_eq!(error.debug_text(), format!("{:?}", error));
    let failure = ShardError::PlatformFailure("quote \" and\ttab".to_string());
    assert_eq!(failure.debug_text(), format!("{:?}", failure));
    assert_eq!(error.message(), "invalid transition from Some(Created) via destroy");
}

#[test]
fn theme_names_are_read_case_insensitively() {
    assert!(matches!("FSOCIETY".parse::<Theme>(), Ok(Theme::Fsociety)));
    assert!(matches!(Theme::from_name("DarkArmy"), Ok(Theme::DarkArmy)));
    assert!(Theme::from_name("solarized").is_err());
    assert!(matches!(Theme::parse("allsafe"), Some(Theme::Allsafe)));
    assert!(Theme::parse("Allsafe").is_none());
}

#[test]
fn numbers_render_in_hex_and_decimal() {
    assert_eq!(hex16(255), "00000000000000ff");
    assert_eq!(hex16(u64::MAX), "ffffffffffffffff");
    assert_eq!(decimal(0), "0");
    assert_eq!(decimal(1234567890), "1234567890");
}

#[test]
fn text_search_finds_substrings() {
    assert!(contains_text("quiet root_b splash", "root_b"));
    assert!(!contains_text("root", "root_b"));
    assert!(contains_text("anything", ""));
}

#[test]
fn crypto_refusals_map_to_policy_errors() {
    assert!(matches!(map_crypto_error(CryptoFailure::KeyRevoked("k".to_string())), PolicyError::SigningKeyRevoked));
    assert!(matches!(map_crypto_error(CryptoFailure::KeyNotFound("k".to_string())), PolicyError::InvalidSignature));
    assert!(matches!(map_crypto_error(CryptoFailure::InvalidSignatureEncoding), PolicyError::InvalidSignature));
    let other = map_crypto_error(CryptoFailure::Other("hsm offline".to_string()));
    assert_eq!(other.message(), "crypto failure: hsm offline");
    assert_eq!(PolicyError::UnknownToken.message(), "token was not issued by this service");
    assert_eq!(PolicyError::PersistenceFailure("disk".to_string()).message(), "persistence failure: disk");
}

#[test]
fn fresh_key_ids_differ() {
    let ids: Vec<String> = (0..8).map(|_| KeyId::new().0).collect();
    for (i, a) in ids.iter().enumerate() {
        assert_eq!(a.len(), 36);
        for b in &ids[i + 1..] {
            assert_ne!(a, b);
        }
    }
}
