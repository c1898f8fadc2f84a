//! The Google Cloud TTS adapter: bearer-token request shaping, the curated
//! voice catalog, and decoding of the base64 audio the API returns.

use vstd::prelude::*;

verus! {

use vstd::string::StringExecFns;
use crate::error::DomainError;
use crate::http::{RequestBuilder, WstdHttpClient, Method, RateLimitConfig, headers_view};
use crate::synthesis::validate_input_core;
use crate::text::{str_eq, ascii_lowercase, lower_seq};
use crate::types::{TextInput, ValidationResult, VoiceInfo, VoiceGender, VoiceQuality, AudioFormat};
// The engine trait the base64 wrapper calls through.
use base64::Engine;

/// The base64 decoding of a text, if it is valid standard base64, as the
/// `base64` crate computes it.
pub uninterp spec fn base64_decode_of(s: Seq<char>) -> Option<Seq<u8>>;

/// Relies on `base64`'s standard-alphabet engine: decodes the audio
/// content field; `None` exactly on input the engine rejects.
#[verifier::external_body]
fn base64_decode(s: &str) -> (r: Option<Vec<u8>>)
    ensures
        match r {
            Some(b) => base64_decode_of(s@) == Some(b@),
            None => base64_decode_of(s@) is None,
        },
{
    base64::engine::general_purpose::STANDARD.decode(s).ok()
}

/// The client model for Google Cloud TTS.
pub struct GoogleTtsClient {
    pub access_token: String,
    pub project_id: String,
    pub rate_limit_config: RateLimitConfig,
}

/// A catalog voice.
#[derive(Debug, Clone, PartialEq, Eq)]
pub struct GoogleVoice {
    pub name: String,
    pub display_name: String,
    pub language_code: String,
    pub gender: String,
}

/// The catalog voice names, in order.
pub open spec fn google_voice_names() -> Seq<Seq<char>> {
    seq!["en-US-Neural2-A"@, "en-US-Neural2-C"@, "en-US-Neural2-D"@, "en-US-Wavenet-A"@]
}

/// The reported gender of each catalog voice, in order.
pub open spec fn google_voice_genders() -> Seq<Seq<char>> {
    seq!["Female"@, "Female"@, "Male"@, "Male"@]
}

impl GoogleTtsClient {
    /// Builds a client from a pre-generated OAuth2 access token and a
    /// project identifier.
    pub fn new(access_token: String, project_id: String) -> (r: GoogleTtsClient)
        ensures
            r.access_token == access_token,
            r.project_id == project_id,
            r.rate_limit_config.max_retries == 3,
            r.rate_limit_config.wf(),
    {
        GoogleTtsClient { access_token, project_id, rate_limit_config: RateLimitConfig::new(3) }
    }

    /// Assembles the synthesis request: POST to the public synthesize
    /// endpoint, bearer authorization, with the serialized JSON payload.
    pub fn build_synthesize_request(&self, body_json: Vec<u8>) -> (r: RequestBuilder)
        ensures
            r.method == Method::Post,
            r.url@ == "https://texttospeech.googleapis.com/v1/text:synthesize"@,
            headers_view(r.headers@).len() == 2,
            headers_view(r.headers@)[0] == ("Authorization"@, "Bearer "@ + self.access_token@),
            headers_view(r.headers@)[1] == ("Content-Type"@, "application/json"@),
            r.body matches Some(b) && b == body_json,
    {
        proof {
            reveal_strlit("https://texttospeech.googleapis.com/v1/text:synthesize");
            reveal_strlit("Authorization");
            reveal_strlit("Bearer ");
            reveal_strlit("Content-Type");
            reveal_strlit("application/json");
        }
        let http = WstdHttpClient::new();
        let mut auth = String::from_str("Bearer ");
        auth.append(self.access_token.as_str());
        http.post("https://texttospeech.googleapis.com/v1/text:synthesize").header(
            "Authorization",
            auth.as_str(),
        ).header("Content-Type", "application/json").body(body_json)
    }

    /// Decodes the `audioContent` field of a successful response; a body
    /// the base64 engine rejects is an `InternalError`.
    pub fn decode_audio_content(&self, audio_content: &str) -> (r: Result<Vec<u8>, DomainError>)
        ensures
            match r {
                Ok(b) => base64_decode_of(audio_content@) == Some(b@),
                Err(e) => base64_decode_of(audio_content@) is None && e is InternalError,
            },
    {
        proof {
            reveal_strlit("invalid base64 audio content");
        }
        match base64_decode(audio_content) {
            Some(b) => Ok(b),
            None => Err(
                DomainError::InternalError(String::from_str("invalid base64 audio content")),
            ),
        }
    }

    /// The curated catalog: four popular US English voices.
    pub fn list_voices() -> (r: Vec<GoogleVoice>)
        ensures
            r@.len() == 4,
            forall|k: int|
                0 <= k < 4 ==> (#[trigger] r@[k]).name@ == google_voice_names()[k] && r@[k].gender@
                    == google_voice_genders()[k] && r@[k].language_code@ == "en-US"@,
    {
        proof {
            reveal_strlit("en-US-Neural2-A");
            reveal_strlit("en-US-Neural2-C");
            reveal_strlit("en-US-Neural2-D");
            reveal_strlit("en-US-Wavenet-A");
            reveal_strlit("Neural2 A");
            reveal_strlit("Neural2 C");
            reveal_strlit("Neural2 D");
            reveal_strlit("Wavenet A");
            reveal_strlit("en-US");
            reveal_strlit("Female");
            reveal_strlit("Male");
        }
        let mut voices: Vec<GoogleVoice> = Vec::new();
        voices.push(
            GoogleVoice {
                name: String::from_str("en-US-Neural2-A"),
                display_name: String::from_str("Neural2 A"),
                language_code: String::from_str("en-US"),
                gender: String::from_str("Female"),
            },
        );
        voices.push(
            GoogleVoice {
                name: String::from_str("en-US-Neural2-C"),
                display_name: String::from_str("Neural2 C"),
                language_code: String::from_str("en-US"),
                gender: String::from_str("Female"),
            },
        );
        voices.push(
            GoogleVoice {
                name: String::from_str("en-US-Neural2-D"),
                display_name: String::from_str("Neural2 D"),
                language_code: String::from_str("en-US"),
                gender: String::from_str("Male"),
            },
        );
        voices.push(
            GoogleVoice {
                name: String::from_str("en-US-Wavenet-A"),
                display_name: String::from_str("Wavenet A"),
                language_code: String::from_str("en-US"),
                gender: String::from_str("Male"),
            },
        );
        voices
    }

    /// Checks input against the 5000-character limit without touching the
    /// network.
    pub fn validate_input(&self, input: &TextInput) -> (r: ValidationResult)
        ensures
            r.is_valid == crate::synthesis::spec_valid_length(input.content@.len(), 5000),
            input.content@.len() <= u32::MAX ==> r.character_count == input.content@.len(),
            !r.is_valid ==> r.errors@.len() == 1,
            r.is_valid ==> r.errors@.len() == 0,
    {
        proof {
            reveal_strlit("Text approaching limit");
            reveal_strlit("Text must be 1-5000 characters");
        }
        validate_input_core(
            input,
            5000,
            4000,
            "Text approaching limit",
            "Text must be 1-5000 characters",
        )
    }
}

/// Maps a catalog voice into the uniform description.
pub fn voice_to_info(voice: &GoogleVoice) -> (r: VoiceInfo)
    ensures
        r.id@ == voice.name@,
        r.name@ == voice.display_name@,
        r.language@ == voice.language_code@,
        r.gender == spec_parse_gender_google(voice.gender@),
        r.quality == VoiceQuality::Neural,
        r.provider@ == "Google Cloud TTS"@,
        r.sample_rate == 24000,
        !r.is_custom,
        !r.is_cloned,
{
    proof {
        reveal_strlit("Google Cloud TTS");
        reveal_strlit("general");
        reveal_strlit(" voice");
    }
    let mut description = voice.gender.clone();
    description.append(" voice");
    let mut use_cases: Vec<String> = Vec::new();
    use_cases.push(String::from_str("general"));
    VoiceInfo {
        id: voice.name.clone(),
        name: voice.display_name.clone(),
        language: voice.language_code.clone(),
        additional_languages: Vec::new(),
        gender: parse_gender(voice.gender.as_str()),
        quality: VoiceQuality::Neural,
        description: Some(description),
        provider: String::from_str("Google Cloud TTS"),
        sample_rate: 24000,
        is_custom: false,
        is_cloned: false,
        preview_url: None,
        use_cases,
    }
}

/// Parses a reported gender: male or female (ASCII case-insensitive),
/// anything else neutral.
pub fn parse_gender(gender: &str) -> (r: VoiceGender)
    ensures
        r == spec_parse_gender_google(gender@),
{
    proof {
        reveal_strlit("male");
        reveal_strlit("female");
    }
    let lower = ascii_lowercase(gender);
    if str_eq(lower.as_str(), "male") {
        VoiceGender::Male
    } else if str_eq(lower.as_str(), "female") {
        VoiceGender::Female
    } else {
        VoiceGender::Neutral
    }
}

/// The gender classification of a reported string.
pub open spec fn spec_parse_gender_google(s: Seq<char>) -> VoiceGender {
    let l = lower_seq(s);
    if l == "male"@ {
        VoiceGender::Male
    } else if l == "female"@ {
        VoiceGender::Female
    } else {
        VoiceGender::Neutral
    }
}

/// Maps the uniform audio format to Google's encoding name; everything
/// else falls back to MP3.
pub fn audio_format_to_google(format: AudioFormat) -> (r: &'static str)
    ensures
        format == AudioFormat::Mp3 ==> r@ == "MP3"@,
        format == AudioFormat::Wav ==> r@ == "LINEAR16"@,
        format == AudioFormat::OggOpus ==> r@ == "OGG_OPUS"@,
        format != AudioFormat::Wav && format != AudioFormat::OggOpus ==> r@ == "MP3"@,
{
    proof {
        reveal_strlit("MP3");
        reveal_strlit("LINEAR16");
        reveal_strlit("OGG_OPUS");
    }
    match format {
        AudioFormat::Mp3 => "MP3",
        AudioFormat::Wav => "LINEAR16",
        AudioFormat::OggOpus => "OGG_OPUS",
        _ => "MP3",
    }
}

} // verus!
