use golem_tts::deepgram;
use golem_tts::error::DomainError;
use golem_tts::google;
use golem_tts::polly::PollyClient;
use golem_tts::types::{VoiceFilter, VoiceGender};
use golem_tts::voices::filter_voices;

fn polly() -> PollyClient {
    PollyClient::new(
        "AKIDEXAMPLE".to_string(),
        "SECRET-REDACTED".to_string(),
        "eu-west-1".to_string(),
        None,
    )
}

fn no_filter() -> Option<VoiceFilter> {
    None
}

#[test]
fn polly_catalog_lists_ten_voices() {
    let voices = polly().list_voices().unwrap();
    assert_eq!(voices.len(), 10);
    assert_eq!(voices[0].id, "Joanna");
    assert_eq!(voices[0].language, "en-US");
    assert_eq!(voices[0].gender, VoiceGender::Female);
    assert_eq!(voices[7].id, "Amy");
    assert_eq!(voices[7].language, "en-GB");
    assert!(voices.iter().all(|v| v.provider == "AWS Polly"));
    assert!(voices.iter().all(|v| v.sample_rate == 24000));
}

#[test]
fn polly_get_voice_finds_and_rejects() {
    let client = polly();
    let v = client.get_voice("Brian".to_string()).unwrap();
    assert_eq!(v.id, "Brian");
    assert_eq!(v.language, "en-GB");
    match client.get_voice("Nonexistent".to_string()) {
        Err(DomainError::VoiceNotFound(id)) => assert_eq!(id, "Nonexistent"),
        other => panic!("unexpected: {:?}", other),
    }
}

#[test]
fn polly_search_matches_name_and_description_case_insensitively() {
    let client = polly();
    let found = client
        .search_voices("british".to_string(), no_filter())
        .unwrap();
    let ids: Vec<&str> = found.iter().map(|v| v.id.as_str()).collect();
    assert_eq!(ids, vec!["Amy", "Brian", "Emma"]);

    let by_name = client
        .search_voices("JOANNA".to_string(), no_filter())
        .unwrap();
    assert_eq!(by_name.len(), 1);
    assert_eq!(by_name[0].id, "Joanna");
}

#[test]
fn polly_search_applies_language_and_gender_filters() {
    let client = polly();
    let filter = Some(VoiceFilter {
        language: Some("en-GB".to_string()),
        gender: Some(VoiceGender::Female),
        quality: None,
        supports_ssml: None,
        provider: None,
        search_query: None,
    });
    let found = client
        .search_voices("voice".to_string(), filter)
        .unwrap();
    let ids: Vec<&str> = found.iter().map(|v| v.id.as_str()).collect();
    assert_eq!(ids, vec!["Amy", "Emma"]);
}

#[test]
fn polly_languages_report_their_voice_counts() {
    let langs = polly().list_languages().unwrap();
    assert_eq!(langs.len(), 2);
    assert_eq!(langs[0].code, "en-US");
    assert_eq!(langs[0].voice_count, 7);
    assert_eq!(langs[1].code, "en-GB");
    assert_eq!(langs[1].voice_count, 3);
}

#[test]
fn deepgram_catalog_lists_nine_models() {
    let models = deepgram::get_available_models();
    assert_eq!(models.len(), 9);
    assert_eq!(models[0].voice_id, "aura-asteria-en");
    assert_eq!(models[8].voice_id, "aura-angus-en");
    assert!(models.iter().all(|m| m.language == "en"));
}

#[test]
fn deepgram_models_map_into_the_uniform_shape() {
    let models = deepgram::get_available_models();
    let info = deepgram::deepgram_model_to_voice_info(models[0].clone());
    assert_eq!(info.id, "aura-asteria-en");
    assert_eq!(info.name, "Aura Asteria");
    assert_eq!(info.language, "en");
    assert_eq!(info.gender, VoiceGender::Female);
    assert_eq!(info.provider, "Deepgram");
    let d = info.description.unwrap();
    assert_eq!(
        d,
        "Female voice with American accent, Adult. Characteristics: warm, professional. \
         Suitable for: general, narration"
    );
}

#[test]
fn deepgram_gender_and_quality_parsing() {
    assert_eq!(deepgram::parse_gender("Female"), VoiceGender::Female);
    assert_eq!(deepgram::parse_gender("masculine"), VoiceGender::Male);
    assert_eq!(deepgram::parse_gender("robot"), VoiceGender::Neutral);
    assert_eq!(
        deepgram::infer_quality_from_model("aura-2-thalia-en"),
        golem_tts::types::VoiceQuality::Premium
    );
    assert_eq!(
        deepgram::infer_quality_from_model("aura-asteria-en"),
        golem_tts::types::VoiceQuality::Standard
    );
}

#[test]
fn language_codes_normalize() {
    assert_eq!(deepgram::normalize_language_code("en-US"), "en");
    assert_eq!(deepgram::normalize_language_code("es-419"), "es");
    assert_eq!(deepgram::normalize_language_code("FR-fr"), "fr");
    assert_eq!(deepgram::normalize_language_code("de"), "de");
}

#[test]
fn google_catalog_lists_four_voices() {
    let voices = google::GoogleTtsClient::list_voices();
    assert_eq!(voices.len(), 4);
    let info = google::voice_to_info(&voices[0]);
    assert_eq!(info.id, "en-US-Neural2-A");
    assert_eq!(info.name, "Neural2 A");
    assert_eq!(info.gender, VoiceGender::Female);
    assert_eq!(info.provider, "Google Cloud TTS");
}

#[test]
fn generic_filtering_keeps_matches_in_order() {
    let voices = polly().list_voices().unwrap();
    let all = filter_voices(voices, &"voice".to_string(), &None);
    assert_eq!(all.len(), 10);

    let voices = polly().list_voices().unwrap();
    let none = filter_voices(voices, &"zebra".to_string(), &None);
    assert!(none.is_empty());
}
