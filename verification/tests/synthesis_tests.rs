use golem_tts::error::DomainError;
use golem_tts::polly::PollyClient;
use golem_tts::synthesis::{collect_batch, estimate_audio_duration_ms, synthesize_precheck};
use golem_tts::types::{SynthesisMetadata, SynthesisResult, TextInput, TextType};

fn input(text: &str) -> TextInput {
    TextInput {
        content: text.to_string(),
        language: None,
        text_type: TextType::Plain,
    }
}

fn polly() -> PollyClient {
    PollyClient::new(
        "AKIDEXAMPLE".to_string(),
        "SECRET-REDACTED".to_string(),
        "us-east-1".to_string(),
        None,
    )
}

#[test]
fn empty_text_is_rejected_before_any_network_work() {
    // The empty-input check is pure: no transport is ever constructed,
    // let alone invoked.
    match synthesize_precheck(&input("")) {
        Err(DomainError::InvalidText(m)) => assert_eq!(m, "Text cannot be empty"),
        other => panic!("unexpected: {:?}", other),
    }
    assert!(synthesize_precheck(&input("hello")).is_ok());
}

#[test]
fn validate_input_checks_the_polly_limit() {
    let client = polly();

    let r = client.validate_input(&input(""));
    assert!(!r.is_valid);
    assert_eq!(r.character_count, 0);
    assert_eq!(r.errors.len(), 1);
    assert_eq!(r.errors[0], "Text must be 1-3000 characters");

    let exactly_3000 = "a".repeat(3000);
    let r = client.validate_input(&input(&exactly_3000));
    assert!(r.is_valid);
    assert_eq!(r.character_count, 3000);
    assert!(r.errors.is_empty());
    assert_eq!(r.warnings.len(), 1);

    let over_3001 = "a".repeat(3001);
    let r = client.validate_input(&input(&over_3001));
    assert!(!r.is_valid);
    assert_eq!(r.errors.len(), 1);
}

#[test]
fn validation_estimates_fifty_ms_per_character() {
    let client = polly();
    let r = client.validate_input(&input("hello world"));
    assert!(r.is_valid);
    assert_eq!(r.character_count, 11);
    assert_eq!(r.estimated_duration_ms, Some(550));
    assert!(r.warnings.is_empty());
}

#[test]
fn duration_is_estimated_from_byte_length() {
    // 48000 bytes of linear16 at 24000 Hz is one second.
    assert_eq!(estimate_audio_duration_ms(48000, 24000), 1000);
    assert_eq!(estimate_audio_duration_ms(16000, 8000), 1000);
    assert_eq!(estimate_audio_duration_ms(0, 24000), 0);
    // Unknown sample rates assume 48000 bytes per second.
    assert_eq!(estimate_audio_duration_ms(96000, 12345), 2000);
}

fn ok_result(tag: u8) -> Result<SynthesisResult, DomainError> {
    Ok(SynthesisResult {
        audio_data: vec![tag, tag],
        metadata: None,
    })
}

#[test]
fn batch_collects_all_successes_in_order() {
    let outcomes = vec![ok_result(1), ok_result(2), ok_result(3)];
    let rs = collect_batch(outcomes).unwrap();
    assert_eq!(rs.len(), 3);
    assert_eq!(rs[0].audio_data, vec![1, 1]);
    assert_eq!(rs[2].audio_data, vec![3, 3]);
}

#[test]
fn batch_aborts_on_first_failure() {
    let outcomes = vec![
        ok_result(1),
        Err(DomainError::RateLimited(60)),
        ok_result(3),
    ];
    assert_eq!(collect_batch(outcomes), Err(DomainError::RateLimited(60)));
}

#[test]
fn polly_synthesis_result_carries_estimated_metadata() {
    let client = polly();
    let audio = vec![0u8; 4800];
    let r = client.synthesis_result(audio, &"two words".to_string(), "req-1".to_string());
    let m: SynthesisMetadata = r.metadata.unwrap();
    assert_eq!(m.character_count, 9);
    assert_eq!(m.word_count, 2);
    assert_eq!(m.audio_size_bytes, 4800);
    assert_eq!(m.duration_ms, 9 * 50);
    assert_eq!(m.request_id, "req-1");
    assert_eq!(m.provider_info.as_deref(), Some("AWS Polly"));
    assert_eq!(r.audio_data.len(), 4800);
}
