use golem_tts::cache::{CacheEntry, VoiceCache};
use golem_tts::config::{config_or_default, config_value, optional_config, parse_config_u32};
use golem_tts::error::DomainError;

#[test]
fn test_cache_entry_expiration() {
    // A 100 ms entry is live at its creation instant and expired once
    // more than 100 ms of simulated clock have passed.
    let entry = CacheEntry::new("test".to_string(), 100, 1000);
    assert!(!entry.is_expired(1000));
    assert!(!entry.is_expired(1100));
    assert!(entry.is_expired(1150));
    // A clock that moved backwards counts as expired.
    assert!(entry.is_expired(999));
}

#[test]
fn test_voice_cache() {
    let mut cache: VoiceCache<Vec<String>> = VoiceCache::new(1);

    assert!(cache.get(0).is_none());

    cache.set(vec!["voice1".to_string(), "voice2".to_string()], 0);
    assert!(cache.is_valid(0));

    let cached = cache.get(500);
    assert!(cached.is_some());
    assert_eq!(cached.unwrap().len(), 2);

    // Two simulated seconds later the 1-second entry has expired.
    assert!(!cache.is_valid(2000));
    assert!(cache.get(2000).is_none());
}

#[test]
fn cache_refresh_restarts_the_clock() {
    let mut entry = CacheEntry::new(1u32, 100, 0);
    assert!(entry.is_expired(200));
    entry.refresh(2, 200);
    assert!(!entry.is_expired(250));
    assert_eq!(entry.data, 2);
}

#[test]
fn cache_clear_empties_the_slot() {
    let mut cache: VoiceCache<u32> = VoiceCache::default();
    cache.set(7, 0);
    assert!(cache.is_valid(0));
    cache.clear();
    assert!(!cache.is_valid(0));
    assert!(cache.get(0).is_none());
}

#[test]
fn required_configuration_must_be_present_and_non_empty() {
    assert_eq!(
        config_value("DEEPGRAM_API_KEY", Some("k".to_string())),
        Ok("k".to_string())
    );
    match config_value("DEEPGRAM_API_KEY", Some(String::new())) {
        Err(DomainError::InvalidConfiguration(m)) => {
            assert_eq!(
                m,
                "Required environment variable DEEPGRAM_API_KEY not set or empty"
            );
        }
        other => panic!("unexpected: {:?}", other),
    }
    assert!(config_value("X", None).is_err());
}

#[test]
fn optional_and_defaulted_configuration() {
    assert_eq!(optional_config(Some("v".to_string())), Some("v".to_string()));
    assert_eq!(optional_config(Some(String::new())), None);
    assert_eq!(optional_config(None), None);

    assert_eq!(config_or_default(None, "fallback"), "fallback");
    assert_eq!(config_or_default(Some("set".to_string()), "fallback"), "set");
}

#[test]
fn integer_configuration_parses_or_falls_back() {
    assert_eq!(parse_config_u32(Some("5".to_string()), 3), 5);
    assert_eq!(parse_config_u32(Some("not a number".to_string()), 3), 3);
    assert_eq!(parse_config_u32(None, 3), 3);
    assert_eq!(parse_config_u32(Some("4294967296".to_string()), 3), 3);
}
