use golem_tts::deepgram::{
    synthesis_options_to_tts_request, DeepgramTtsApi, TextToSpeechParams, TtsResponseMetadata,
};
use golem_tts::elevenlabs::{
    audio_format_to_elevenlabs, validate_audio_samples, voice_to_info, ElevenLabsClient, Voice,
    VoiceCloner,
};
use golem_tts::error::DomainError;
use golem_tts::google::GoogleTtsClient;
use golem_tts::http::{Method, RateLimitConfig, Response};
use golem_tts::polly::PollyClient;
use golem_tts::types::{
    AudioConfig, AudioFormat, AudioSample, SynthesisOptions, TextInput, TextType, VoiceGender,
};
use golem_tts::deepgram::audio_data_to_synthesis_result;

fn options(voice: &str, format: Option<AudioFormat>, sample_rate: Option<u32>) -> SynthesisOptions {
    SynthesisOptions {
        voice_id: voice.to_string(),
        audio_config: format.map(|f| AudioConfig {
            format: f,
            sample_rate,
            bit_rate: None,
            channels: None,
        }),
        voice_settings: None,
        model_version: None,
        enable_timing: None,
        enable_word_timing: None,
        seed: None,
    }
}

#[test]
fn deepgram_requests_carry_token_and_query() {
    let api = DeepgramTtsApi::new("secret".to_string(), "v1".to_string());
    assert_eq!(api.base_url, "https://api.deepgram.com");

    let (request, params) = synthesis_options_to_tts_request(
        "hello".to_string(),
        Some(options("aura-luna-en", Some(AudioFormat::Wav), Some(16000))),
    )
    .unwrap();
    assert_eq!(request.text, "hello");
    let params = params.unwrap();
    assert_eq!(params.model.as_deref(), Some("aura-luna-en"));
    assert_eq!(params.encoding.as_deref(), Some("linear16"));
    assert_eq!(params.sample_rate, Some(16000));

    let url = api.speak_url(&Some(params));
    assert_eq!(
        url,
        "https://api.deepgram.com/v1/speak?model=aura-luna-en&encoding=linear16&\
         container=wav&sample_rate=16000"
    );

    let builder = api.build_speak_request(&None, b"{\"text\":\"hello\"}".to_vec());
    assert_eq!(builder.method, Method::Post);
    assert_eq!(builder.url, "https://api.deepgram.com/v1/speak");
    assert_eq!(builder.headers[0].0, "Authorization");
    assert_eq!(builder.headers[0].1, "Token secret");
}

#[test]
fn deepgram_compressed_formats_drop_the_sample_rate() {
    let (_, params) = synthesis_options_to_tts_request(
        "x".to_string(),
        Some(options("", Some(AudioFormat::Mp3), Some(44100))),
    )
    .unwrap();
    let params = params.unwrap();
    assert_eq!(params.encoding.as_deref(), Some("mp3"));
    assert_eq!(params.sample_rate, None);
    assert_eq!(params.bit_rate, Some(48000));
    // An empty voice leaves the model unset.
    assert_eq!(params.model, None);
}

#[test]
fn deepgram_unsupported_rates_fall_back() {
    let (_, params) = synthesis_options_to_tts_request(
        "x".to_string(),
        Some(options("", Some(AudioFormat::Pcm), Some(11025))),
    )
    .unwrap();
    assert_eq!(params.unwrap().sample_rate, Some(24000));
}

#[test]
fn deepgram_metadata_reads_response_headers() {
    let response = Response {
        status: 200,
        headers: vec![
            ("content-type".to_string(), "audio/wav".to_string()),
            ("dg-request-id".to_string(), "req-9".to_string()),
            ("dg-model-name".to_string(), "aura-luna-en".to_string()),
            ("dg-model-uuid".to_string(), "uuid-1".to_string()),
            ("dg-char-count".to_string(), "11".to_string()),
            ("content-length".to_string(), "2048".to_string()),
            ("date".to_string(), "today".to_string()),
        ],
        body: vec![],
    };
    let m = TtsResponseMetadata::from_response_headers(&response).unwrap();
    assert_eq!(m.content_type, "audio/wav");
    assert_eq!(m.dg_request_id, "req-9");
    assert_eq!(m.dg_char_count, 11);
    assert_eq!(m.content_length, Some(2048));
    assert_eq!(m.date, "today");

    let bare = Response {
        status: 200,
        headers: vec![],
        body: vec![],
    };
    assert!(TtsResponseMetadata::from_response_headers(&bare).is_none());
    let fallback = TtsResponseMetadata::default();
    assert_eq!(fallback.dg_model_name, "aura-asteria-en");
    assert_eq!(fallback.dg_char_count, 0);
}

#[test]
fn deepgram_result_metadata_is_estimated() {
    let r = audio_data_to_synthesis_result(vec![0u8; 48000], "two words", "linear16", 24000, 1700);
    let m = r.metadata.unwrap();
    assert_eq!(m.duration_ms, 1000);
    assert_eq!(m.character_count, 9);
    assert_eq!(m.word_count, 2);
    assert_eq!(m.request_id, "deepgram-1700");
    assert_eq!(
        m.provider_info.as_deref(),
        Some("Deepgram TTS - Encoding: linear16, Sample Rate: 24000Hz")
    );
}

#[test]
fn elevenlabs_requests_and_conversions() {
    let client = ElevenLabsClient::new("key".to_string());
    assert_eq!(
        client.tts_url("voice-1"),
        "https://api.elevenlabs.io/v1/text-to-speech/voice-1"
    );
    assert_eq!(client.voices_url(), "https://api.elevenlabs.io/v1/voices");

    let voice = Voice {
        voice_id: "v1".to_string(),
        name: "Rachel".to_string(),
        description: Some("female".to_string()),
        preview_url: None,
    };
    let info = voice_to_info(&voice);
    assert_eq!(info.id, "v1");
    assert_eq!(info.gender, VoiceGender::Female);
    assert_eq!(info.sample_rate, 44100);

    assert_eq!(audio_format_to_elevenlabs(AudioFormat::Mp3), "mp3_44100_128");
    assert_eq!(audio_format_to_elevenlabs(AudioFormat::Wav), "pcm_44100");
    assert_eq!(audio_format_to_elevenlabs(AudioFormat::Flac), "mp3_44100_128");
}

#[test]
fn elevenlabs_synthesis_response_metadata() {
    let client = ElevenLabsClient::new("key".to_string());
    let r = client.synthesis_response(vec![0u8; 32000], "hi there", 42);
    assert_eq!(r.metadata.duration_ms, 2000);
    assert_eq!(r.metadata.character_count, 8);
    assert_eq!(r.metadata.word_count, 2);
    assert_eq!(r.metadata.request_id, "elevenlabs-42");
}

#[test]
fn voice_cloning_is_reported_unsupported_and_samples_validated() {
    let cloner = VoiceCloner::new("k".to_string(), "https://api.elevenlabs.io".to_string());
    assert!(matches!(
        cloner.create_voice_clone("name".to_string(), vec![], None),
        Err(DomainError::UnsupportedOperation(_))
    ));
    assert_eq!(
        cloner.voice_url("v9"),
        "https://api.elevenlabs.io/v1/voices/v9"
    );

    assert!(validate_audio_samples(&vec![]).is_err());
    let small = vec![AudioSample {
        audio_data: vec![0u8; 100],
    }];
    assert!(validate_audio_samples(&small).is_err());
    let fine = vec![AudioSample {
        audio_data: vec![0u8; 2048],
    }];
    assert!(validate_audio_samples(&fine).is_ok());
    let too_many: Vec<AudioSample> = (0..26)
        .map(|_| AudioSample {
            audio_data: vec![0u8; 2048],
        })
        .collect();
    assert!(validate_audio_samples(&too_many).is_err());
}

#[test]
fn google_requests_and_decoding() {
    let client = GoogleTtsClient::new("token".to_string(), "proj".to_string());
    let builder = client.build_synthesize_request(b"{}".to_vec());
    assert_eq!(builder.method, Method::Post);
    assert_eq!(
        builder.url,
        "https://texttospeech.googleapis.com/v1/text:synthesize"
    );
    assert_eq!(builder.headers[0].1, "Bearer token");

    // "aGVsbG8=" is the standard base64 of "hello".
    assert_eq!(
        client.decode_audio_content("aGVsbG8=").unwrap(),
        b"hello".to_vec()
    );
    assert!(matches!(
        client.decode_audio_content("!!! not base64 !!!"),
        Err(DomainError::InternalError(_))
    ));
}

#[test]
fn polly_signing_produces_the_expected_header_shape() {
    let client = PollyClient::new(
        "AKIDEXAMPLE".to_string(),
        "SECRET-REDACTED".to_string(),
        "us-east-1".to_string(),
        Some("session-token".to_string()),
    );
    assert_eq!(client.base_url, "https://polly.us-east-1.amazonaws.com");

    let headers = vec![
        ("content-type".to_string(), "application/json".to_string()),
        ("host".to_string(), "polly.us-east-1.amazonaws.com".to_string()),
    ];
    let signed = client
        .sign_request("POST", "/v1/speech", "", &headers, "{}", 1_700_000_000)
        .unwrap();
    assert_eq!(signed.len(), 3);
    assert_eq!(signed[0].0, "Authorization");
    assert!(signed[0]
        .1
        .starts_with("AWS4-HMAC-SHA256 Credential=AKIDEXAMPLE/"));
    assert!(signed[0].1.contains(", SignedHeaders=content-type;host, Signature="));
    assert_eq!(signed[1].0, "X-Amz-Date");
    assert_eq!(signed[1].1, "1700000000000");
    assert_eq!(signed[2].0, "X-Amz-Security-Token");
    assert_eq!(signed[2].1, "session-token");

    let builder = client
        .build_speech_request("{\"Text\":\"hi\"}", 1_700_000_000)
        .unwrap();
    assert_eq!(builder.method, Method::Post);
    assert_eq!(builder.url, "https://polly.us-east-1.amazonaws.com/v1/speech");
    assert_eq!(builder.body, Some(b"{\"Text\":\"hi\"}".to_vec()));
}

#[test]
fn signatures_depend_on_the_payload() {
    let client = PollyClient::new(
        "AKIDEXAMPLE".to_string(),
        "SECRET-REDACTED".to_string(),
        "us-east-1".to_string(),
        None,
    );
    let headers = vec![("host".to_string(), "h".to_string())];
    let a = client
        .sign_request("POST", "/v1/speech", "", &headers, "{\"a\":1}", 1_700_000_000)
        .unwrap();
    let b = client
        .sign_request("POST", "/v1/speech", "", &headers, "{\"a\":2}", 1_700_000_000)
        .unwrap();
    // Same shape, different signatures: the payload hash feeds the chain.
    assert_eq!(a.len(), 2);
    assert_ne!(a[0].1, b[0].1);
}

#[test]
fn rate_limit_config_defaults() {
    let cfg = RateLimitConfig::default();
    assert_eq!(cfg.max_retries, 3);
    assert_eq!(cfg.initial_delay_ms, 1000);
    assert_eq!(cfg.max_delay_ms, 30000);
    assert_eq!(cfg.backoff_multiplier, 2);

    let api = DeepgramTtsApi::new("k".to_string(), "v1".to_string())
        .with_rate_limit_config(RateLimitConfig::new(5));
    assert_eq!(api.rate_limit_config.max_retries, 5);

    let p = TextToSpeechParams::default();
    assert_eq!(p.encoding.as_deref(), Some("linear16"));
    assert_eq!(p.sample_rate, Some(24000));
}
