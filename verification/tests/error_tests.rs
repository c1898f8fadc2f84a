use golem_tts::error::{DomainError, TransportFailure};
use golem_tts::translate::{error_from_status_body, tts_error_from_status};
use golem_tts::elevenlabs::parse_elevenlabs_error;
use golem_tts::polly::parse_polly_error;

#[test]
fn status_401_is_unauthorized_regardless_of_body() {
    let body = "{\"message\":\"voice too long SSML\"}".to_string();
    match error_from_status_body(401, &body, 3000) {
        DomainError::Unauthorized(_) => {}
        other => panic!("unexpected: {:?}", other),
    }
}

#[test]
fn status_429_with_no_body_is_rate_limited_60() {
    let body = String::new();
    assert_eq!(
        error_from_status_body(429, &body, 3000),
        DomainError::RateLimited(60)
    );
    assert_eq!(tts_error_from_status(429), DomainError::RateLimited(60));
}

#[test]
fn status_404_with_voice_message_is_voice_not_found() {
    let body = "{\"message\":\"voice xyz not found\"}".to_string();
    match error_from_status_body(404, &body, 3000) {
        DomainError::VoiceNotFound(m) => assert_eq!(m, "voice xyz not found"),
        other => panic!("unexpected: {:?}", other),
    }
}

#[test]
fn status_404_without_voice_message_is_service_unavailable() {
    let body = "{\"message\":\"no such lexicon\"}".to_string();
    match error_from_status_body(404, &body, 3000) {
        DomainError::ServiceUnavailable(m) => assert_eq!(m, "no such lexicon"),
        other => panic!("unexpected: {:?}", other),
    }
}

#[test]
fn status_400_markers_pick_the_variant() {
    let too_long = "{\"message\":\"Text is too long for this voice\"}".to_string();
    assert_eq!(
        error_from_status_body(400, &too_long, 3000),
        DomainError::TextTooLong(3000)
    );

    let bad_ssml = "{\"message\":\"invalid SSML document\"}".to_string();
    match error_from_status_body(400, &bad_ssml, 3000) {
        DomainError::InvalidSsml(m) => assert_eq!(m, "invalid SSML document"),
        other => panic!("unexpected: {:?}", other),
    }

    let plain = "{\"message\":\"unsupported character\"}".to_string();
    match error_from_status_body(400, &plain, 3000) {
        DomainError::InvalidText(m) => assert_eq!(m, "unsupported character"),
        other => panic!("unexpected: {:?}", other),
    }
}

#[test]
fn status_403_and_503_map_directly() {
    let body = "forbidden".to_string();
    match error_from_status_body(403, &body, 0) {
        DomainError::AccessDenied(m) => assert_eq!(m, "forbidden"),
        other => panic!("unexpected: {:?}", other),
    }
    match error_from_status_body(503, &String::new(), 0) {
        DomainError::ServiceUnavailable(_) => {}
        other => panic!("unexpected: {:?}", other),
    }
}

#[test]
fn other_statuses_are_synthesis_failed_with_status_and_body() {
    let body = "boom".to_string();
    match error_from_status_body(500, &body, 0) {
        DomainError::SynthesisFailed(m) => assert_eq!(m, "HTTP 500: boom"),
        other => panic!("unexpected: {:?}", other),
    }
}

#[test]
fn non_json_bodies_classify_by_their_raw_text() {
    let body = "this voice does not exist".to_string();
    match error_from_status_body(404, &body, 0) {
        DomainError::VoiceNotFound(m) => assert_eq!(m, "this voice does not exist"),
        other => panic!("unexpected: {:?}", other),
    }
}

#[test]
fn transport_failures_translate_to_the_taxonomy() {
    assert_eq!(
        TransportFailure::Network("timed out".to_string()).to_domain(),
        DomainError::NetworkError("timed out".to_string())
    );
    assert_eq!(
        TransportFailure::Json("bad json".to_string()).to_domain(),
        DomainError::InternalError("bad json".to_string())
    );
    assert_eq!(
        TransportFailure::InvalidUrl("bad url".to_string()).to_domain(),
        DomainError::InvalidConfiguration("bad url".to_string())
    );
    assert_eq!(
        TransportFailure::Utf8("bad utf8".to_string()).to_domain(),
        DomainError::InternalError("bad utf8".to_string())
    );
    assert_eq!(
        TransportFailure::Io("io".to_string()).to_domain(),
        DomainError::InternalError("io".to_string())
    );
}

#[test]
fn error_messages_name_the_variant() {
    let e = DomainError::RateLimited(60);
    assert_eq!(e.message(), "rate limited; retry after s: 60");
    let e = DomainError::VoiceNotFound("abc".to_string());
    assert_eq!(e.message(), "voice not found: abc");
    let e = DomainError::TextTooLong(3000);
    assert_eq!(e.message(), "text too long; limit: 3000");
}

#[test]
fn elevenlabs_error_mapping() {
    let body = "{\"detail\":\"Invalid API key\"}".to_string();
    match parse_elevenlabs_error(401, &body) {
        DomainError::Unauthorized(m) => assert_eq!(m, "Invalid API key"),
        other => panic!("unexpected: {:?}", other),
    }
    match parse_elevenlabs_error(422, &"bad config".to_string()) {
        DomainError::InvalidConfiguration(m) => assert_eq!(m, "bad config"),
        other => panic!("unexpected: {:?}", other),
    }
    assert_eq!(
        parse_elevenlabs_error(429, &String::new()),
        DomainError::RateLimited(60)
    );
}

#[test]
fn polly_error_mapping_uses_polly_limit() {
    let body = "{\"message\":\"Text is too long\"}".to_string();
    assert_eq!(parse_polly_error(400, &body), DomainError::TextTooLong(3000));
}
