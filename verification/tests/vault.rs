use tero_core::game::GameType;
use tero_core::key_vault::{format_game_key, parse_game_key, KeyVault, KeyVaultError};

fn words(list: &[&str]) -> Vec<String> {
    list.iter().map(|w| w.to_string()).collect()
}

fn small_vault() -> KeyVault {
    KeyVault::load_words(words(&["red", "blue"]), words(&["fox", "owl"])).unwrap()
}

#[test]
fn load_words_rejects_unequal_lengths() {
    let r = KeyVault::load_words(words(&["a", "b"]), words(&["c"]));
    assert!(matches!(r, Err(KeyVaultError::IncompatibleLength)));
}

#[test]
fn load_words_rejects_empty_lists() {
    let r = KeyVault::load_words(words(&[]), words(&[]));
    assert!(matches!(r, Err(KeyVaultError::InvalidWordList)));
}

#[test]
fn load_words_rejects_repeated_words() {
    let r = KeyVault::load_words(words(&["a", "a"]), words(&["b", "c"]));
    assert!(matches!(r, Err(KeyVaultError::InvalidWordList)));
}

#[test]
fn load_words_rejects_words_with_spaces() {
    let r = KeyVault::load_words(words(&["a b"]), words(&["c"]));
    assert!(matches!(r, Err(KeyVaultError::InvalidWordList)));
}

#[test]
fn created_keys_are_distinct_until_capacity() {
    let mut vault = small_vault();
    let mut keys: Vec<String> = Vec::new();
    for _ in 0..4 {
        let key = vault.create_key(GameType::Quiz, 100).unwrap();
        assert!(!keys.contains(&key), "duplicate key issued");
        keys.push(key);
    }
    assert_eq!(vault.active_key_count(), 4);
    let r = vault.create_key(GameType::Quiz, 100);
    assert!(matches!(r, Err(KeyVaultError::FullCapacity)));
    assert_eq!(vault.active_key_count(), 4, "a failed issue must not change the vault");
}

#[test]
fn issued_key_parses_back_into_known_words() {
    let mut vault = small_vault();
    let key = vault.create_key(GameType::Duel, 5).unwrap();
    let (prefix, suffix) = parse_game_key(&key).unwrap();
    assert!(prefix == "red" || prefix == "blue");
    assert!(suffix == "fox" || suffix == "owl");
    assert_eq!(vault.key_active(&(prefix, suffix)), Some(GameType::Duel));
}

#[test]
fn key_active_reports_kind_and_remove_is_idempotent() {
    let mut vault = small_vault();
    let key = vault.create_key(GameType::Imposter, 7).unwrap();
    let pair = parse_game_key(&key).unwrap();
    assert_eq!(vault.key_active(&pair), Some(GameType::Imposter));
    vault.remove_key(pair.clone());
    assert_eq!(vault.key_active(&pair), None);
    vault.remove_key(pair.clone());
    assert_eq!(vault.key_active(&pair), None);
    assert_eq!(vault.active_key_count(), 0);
}

#[test]
fn unknown_words_are_never_active() {
    let vault = small_vault();
    assert_eq!(vault.key_active(&("green".to_string(), "fox".to_string())), None);
}

#[test]
fn sweep_reclaims_old_keys_and_they_can_return() {
    let mut vault = KeyVault::load_words(words(&["alpha"]), words(&["bravo"])).unwrap();
    let key = vault.create_key(GameType::Quiz, 1_000).unwrap();
    assert_eq!(key, "alpha bravo");
    // One hour has not yet passed.
    let removed = vault.sweep_expired(4_599);
    assert_eq!(removed, 0);
    assert_eq!(vault.active_key_count(), 1);
    // Now the key is an hour old.
    let removed = vault.sweep_expired(4_600);
    assert_eq!(removed, 1);
    assert_eq!(vault.active_key_count(), 0);
    let again = vault.create_key(GameType::Quiz, 5_000).unwrap();
    assert_eq!(again, "alpha bravo");
}

#[test]
fn max_limit_keys() {
    let prefixes: Vec<String> = (0..10).map(|i| format!("p{}", i)).collect();
    let suffixes: Vec<String> = (0..10).map(|i| format!("s{}", i)).collect();
    let mut vault = KeyVault::load_words(prefixes, suffixes).unwrap();
    for _ in 0..100 {
        vault.create_key(GameType::Quiz, 50).unwrap();
    }
    let result = vault.create_key(GameType::Quiz, 50);
    assert!(result.is_err());
    assert!(matches!(result, Err(KeyVaultError::FullCapacity)));
}

#[test]
fn format_and_parse_round_trip() {
    let key = format_game_key("red", "fox");
    assert_eq!(key, "red fox");
    assert_eq!(parse_game_key(&key), Some(("red".to_string(), "fox".to_string())));
}

#[test]
fn parse_takes_the_first_two_tokens() {
    assert_eq!(parse_game_key("a b c"), Some(("a".to_string(), "b".to_string())));
    assert_eq!(parse_game_key("a  b"), Some(("a".to_string(), "".to_string())));
    assert_eq!(parse_game_key("nospace"), None);
    assert_eq!(parse_game_key(""), None);
}
