use golem_tts::polly::{
    is_valid_ssml, marks_from_lines, recommended_engine_for_voice, speech_marks_from_body,
    split_lines, validate_sample_rate, validate_text_length,
};
use golem_tts::text::{
    contains_ci_str, count_words, join_with, parse_u64, str_eq, u64_to_string,
};
use golem_tts::deepgram::TextToSpeechParams;
use golem_tts::error::DomainError;
use golem_tts::polly::audio_format_to_polly;
use golem_tts::types::AudioFormat;

#[test]
fn decimal_formatting_and_parsing_round_trip() {
    assert_eq!(u64_to_string(0), "0");
    assert_eq!(u64_to_string(42), "42");
    assert_eq!(u64_to_string(18446744073709551615), "18446744073709551615");

    assert_eq!(parse_u64("0"), Some(0));
    assert_eq!(parse_u64("12345"), Some(12345));
    assert_eq!(parse_u64(""), None);
    assert_eq!(parse_u64("12x"), None);
    assert_eq!(parse_u64("99999999999999999999"), None);
    assert_eq!(parse_u64(&u64_to_string(987654321)), Some(987654321));
}

#[test]
fn containment_is_ascii_case_insensitive() {
    assert!(contains_ci_str("British English female", "BRITISH"));
    assert!(contains_ci_str("hello world", "o w"));
    assert!(!contains_ci_str("hello", "world"));
    assert!(contains_ci_str("anything", ""));
}

#[test]
fn word_counting_matches_whitespace_splitting() {
    assert_eq!(count_words(""), 0);
    assert_eq!(count_words("one"), 1);
    assert_eq!(count_words("  two  words  "), 2);
    assert_eq!(count_words("a\tb\nc"), 3);
}

#[test]
fn joining_inserts_separators_between_parts() {
    let parts = vec!["a".to_string(), "b".to_string(), "c".to_string()];
    assert_eq!(join_with(&parts, ", "), "a, b, c");
    let one = vec!["only".to_string()];
    assert_eq!(join_with(&one, "&"), "only");
    let none: Vec<String> = vec![];
    assert_eq!(join_with(&none, "&"), "");
}

#[test]
fn string_equality_compares_characters() {
    assert!(str_eq("abc", "abc"));
    assert!(!str_eq("abc", "abd"));
    assert!(!str_eq("abc", "ab"));
}

#[test]
fn ssml_framing_check() {
    assert!(is_valid_ssml("<speak>hello</speak>"));
    assert!(is_valid_ssml("  <speak>hello</speak>\n"));
    assert!(!is_valid_ssml("hello"));
    assert!(!is_valid_ssml("<speak>unclosed"));
}

#[test]
fn polly_conversion_helpers() {
    assert_eq!(audio_format_to_polly(AudioFormat::Mp3), "mp3");
    assert_eq!(audio_format_to_polly(AudioFormat::Wav), "pcm");
    assert_eq!(audio_format_to_polly(AudioFormat::Ogg), "ogg_vorbis");
    assert_eq!(audio_format_to_polly(AudioFormat::Flac), "mp3");

    assert_eq!(recommended_engine_for_voice("Ivy"), "standard");
    assert_eq!(recommended_engine_for_voice("Joanna"), "neural");

    assert_eq!(validate_sample_rate(Some(8000), "pcm"), 8000);
    assert_eq!(validate_sample_rate(None, "pcm"), 16000);
    assert_eq!(validate_sample_rate(Some(8000), "mp3"), 24000);
}

#[test]
fn text_length_validation_for_polly() {
    assert!(validate_text_length("hello").is_ok());
    assert!(matches!(
        validate_text_length(""),
        Err(DomainError::InvalidText(_))
    ));
    let long = "a".repeat(3001);
    assert_eq!(
        validate_text_length(&long),
        Err(DomainError::TextTooLong(3000))
    );
}

#[test]
fn line_splitting_joins_back_to_the_body() {
    let lines = split_lines("a\nb\n\nc");
    assert_eq!(lines, vec!["a", "b", "", "c"]);
    let empty = split_lines("");
    assert_eq!(empty, vec![""]);
}

#[test]
fn speech_marks_parse_line_delimited_json() {
    let body = "{\"time\":5,\"type\":\"word\",\"start\":0,\"end\":5,\"value\":\"Hello\"}\n\
                {\"time\":120,\"type\":\"word\",\"start\":6,\"end\":11,\"value\":\"world\"}\n";
    let marks = speech_marks_from_body(body).unwrap();
    assert_eq!(marks.len(), 2);
    assert_eq!(marks[0].time_ms, 5);
    assert_eq!(marks[0].mark_type, "word");
    assert_eq!(marks[0].text, "Hello");
    assert_eq!(marks[0].start_offset, Some(0));
    assert_eq!(marks[1].time_ms, 120);
    assert_eq!(marks[1].text, "world");
}

#[test]
fn malformed_speech_mark_lines_fail_the_parse() {
    let lines = vec!["not json at all".to_string()];
    assert!(matches!(
        marks_from_lines(&lines),
        Err(DomainError::InternalError(_))
    ));
    let blank_only = vec!["   ".to_string(), "".to_string()];
    assert_eq!(marks_from_lines(&blank_only).unwrap().len(), 0);
}

#[test]
fn deepgram_query_strings() {
    let params = TextToSpeechParams {
        model: Some("aura-luna-en".to_string()),
        encoding: Some("linear16".to_string()),
        container: Some("wav".to_string()),
        sample_rate: Some(24000),
        bit_rate: None,
    };
    assert_eq!(
        params.to_query_string(),
        "model=aura-luna-en&encoding=linear16&container=wav&sample_rate=24000"
    );
    let default = TextToSpeechParams::default();
    assert_eq!(default.to_query_string(), "encoding=linear16&sample_rate=24000");
}
