//! The ElevenLabs adapter: request shaping for text-to-speech and voice
//! listing, the provider's error mapping, and voice cloning, which the
//! transport cannot carry and therefore always reports as unsupported.

use vstd::prelude::*;

verus! {

use vstd::string::StringExecFns;
use crate::error::{DomainError, err_view};
use crate::http::{RequestBuilder, WstdHttpClient, Method, RateLimitConfig, headers_view};
use crate::synthesis::validate_input_core;
use crate::text::{spec_dec_u64, push_dec_u64, spec_word_count, count_words};
use crate::translate::effective_message;
use crate::types::{TextInput, ValidationResult, SynthesisMetadata, VoiceInfo, VoiceGender,
    VoiceQuality, AudioFormat, AudioSample};
use crate::deepgram::{parse_gender, spec_parse_gender};
use crate::polly::spec_saturated_u32;

/// The client model for the ElevenLabs REST interface.
pub struct ElevenLabsClient {
    pub api_key: String,
    pub base_url: String,
    pub rate_limit_config: RateLimitConfig,
}

/// A voice as the ElevenLabs listing reports it.
#[derive(Debug, Clone, PartialEq, Eq)]
pub struct Voice {
    pub voice_id: String,
    pub name: String,
    pub description: Option<String>,
    pub preview_url: Option<String>,
}

/// Audio plus the estimated metadata of one synthesis call.
#[derive(Debug, Clone, PartialEq, Eq)]
pub struct SynthesisResponse {
    pub audio_data: Vec<u8>,
    pub metadata: SynthesisMetadata,
}

impl ElevenLabsClient {
    /// Builds a client against the public endpoint with the standard
    /// backoff schedule.
    pub fn new(api_key: String) -> (r: ElevenLabsClient)
        ensures
            r.api_key == api_key,
            r.base_url@ == "https://api.elevenlabs.io"@,
            r.rate_limit_config.max_retries == 3,
            r.rate_limit_config.wf(),
    {
        proof {
            reveal_strlit("https://api.elevenlabs.io");
        }
        ElevenLabsClient {
            api_key,
            base_url: String::from_str("https://api.elevenlabs.io"),
            rate_limit_config: RateLimitConfig::new(3),
        }
    }

    /// Starts an authenticated request: the API key as `xi-api-key` plus
    /// the JSON content type.
    pub fn create_request(&self, method: Method, url: &str) -> (r: RequestBuilder)
        ensures
            r.method == method,
            r.url@ == url@,
            headers_view(r.headers@).len() == 2,
            headers_view(r.headers@)[0] == ("xi-api-key"@, self.api_key@),
            headers_view(r.headers@)[1] == ("Content-Type"@, "application/json"@),
            r.body is None,
    {
        proof {
            reveal_strlit("xi-api-key");
            reveal_strlit("Content-Type");
            reveal_strlit("application/json");
        }
        let http = WstdHttpClient::new();
        let builder = match method {
            Method::Get => http.get(url),
            Method::Post => http.post(url),
            Method::Put => http.put(url),
            Method::Delete => http.delete(url),
        };
        builder.header("xi-api-key", self.api_key.as_str()).header(
            "Content-Type",
            "application/json",
        )
    }

    /// The synthesis URL for a voice.
    pub fn tts_url(&self, voice_id: &str) -> (r: String)
        ensures
            r@ == self.base_url@ + "/v1/text-to-speech/"@ + voice_id@,
    {
        proof {
            reveal_strlit("/v1/text-to-speech/");
        }
        let mut url = self.base_url.clone();
        url.append("/v1/text-to-speech/");
        url.append(voice_id);
        url
    }

    /// The voice listing URL.
    pub fn voices_url(&self) -> (r: String)
        ensures
            r@ == self.base_url@ + "/v1/voices"@,
    {
        proof {
            reveal_strlit("/v1/voices");
        }
        let mut url = self.base_url.clone();
        url.append("/v1/voices");
        url
    }

    /// Builds the uniform synthesis response from returned audio: counts
    /// from the input text, a duration estimated at 16000 bytes per
    /// second of MP3, and a request identifier stamped by the runtime
    /// clock.
    pub fn synthesis_response(&self, audio_data: Vec<u8>, text: &str, now_unix_secs: u64) -> (r:
        SynthesisResponse)
        ensures
            r.audio_data == audio_data,
            r.metadata.character_count == spec_saturated_u32(text@.len()),
            r.metadata.word_count == spec_saturated_u32(spec_word_count(text@)),
            r.metadata.audio_size_bytes == spec_saturated_u32(audio_data@.len()),
            r.metadata.duration_ms == audio_data@.len() as int * 1000 / 16000 || audio_data@.len()
                * 1000 / 16000 > u64::MAX,
            r.metadata.request_id@ == "elevenlabs-"@ + spec_dec_u64(now_unix_secs as nat),
            r.metadata.provider_info matches Some(p) && p@ == "ElevenLabs TTS - MP3 44.1kHz"@,
    {
        proof {
            reveal_strlit("elevenlabs-");
            reveal_strlit("ElevenLabs TTS - MP3 44.1kHz");
        }
        let audio_len = audio_data.len();
        let duration_ms = mp3_duration_ms(audio_len);
        let mut request_id = String::from_str("elevenlabs-");
        push_dec_u64(&mut request_id, now_unix_secs);
        SynthesisResponse {
            audio_data,
            metadata: SynthesisMetadata {
                duration_ms,
                character_count: saturate_u32(text.unicode_len()),
                word_count: saturate_u32(count_words(text)),
                audio_size_bytes: saturate_u32(audio_len),
                request_id,
                provider_info: Some(String::from_str("ElevenLabs TTS - MP3 44.1kHz")),
            },
        }
    }

    /// Checks input against the 5000-character limit without touching the
    /// network.
    pub fn validate_input(&self, input: &TextInput) -> (r: ValidationResult)
        ensures
            r.is_valid == crate::synthesis::spec_valid_length(input.content@.len(), 5000),
            input.content@.len() <= u32::MAX ==> r.character_count == input.content@.len(),
            input.content@.len() > 4000 ==> r.warnings@.len() == 1,
            !r.is_valid ==> r.errors@.len() == 1 && r.errors@[0]@
                == "Text must be 1-5000 characters"@,
            r.is_valid ==> r.errors@.len() == 0,
    {
        proof {
            reveal_strlit("Text approaching limit");
            reveal_strlit("Text must be 1-5000 characters");
        }
        validate_input_core(
            input,
            5000,
            4000,
            "Text approaching limit",
            "Text must be 1-5000 characters",
        )
    }
}

/// MP3 at roughly 128 kbps is 16000 bytes per second; milliseconds are
/// bytes divided by sixteen, saturating.
fn mp3_duration_ms(audio_len: usize) -> (r: u64)
    ensures
        audio_len * 1000 / 16000 <= u64::MAX ==> r == audio_len as int * 1000 / 16000,
{
    let product: u128 = audio_len as u128 * 1000;
    let ms = product / 16000;
    if ms > u64::MAX as u128 {
        u64::MAX
    } else {
        ms as u64
    }
}

fn saturate_u32(n: usize) -> (r: u32)
    ensures
        r == spec_saturated_u32(n as nat),
{
    if n > u32::MAX as usize {
        u32::MAX
    } else {
        n as u32
    }
}

/// Maps a listed voice into the uniform description: English, neural,
/// 44100 Hz, with the gender read from the description text.
pub fn voice_to_info(voice: &Voice) -> (r: VoiceInfo)
    ensures
        r.id@ == voice.voice_id@,
        r.name@ == voice.name@,
        r.language@ == "en"@,
        r.gender == (match voice.description {
            Some(d) => spec_parse_gender(d@),
            None => VoiceGender::Neutral,
        }),
        r.quality == VoiceQuality::Neural,
        (match (r.description, voice.description) {
            (Some(a), Some(b)) => a@ == b@,
            (None, None) => true,
            _ => false,
        }),
        r.provider@ == "ElevenLabs"@,
        r.sample_rate == 44100,
        !r.is_custom,
        !r.is_cloned,
{
    proof {
        reveal_strlit("ElevenLabs");
        reveal_strlit("general");
    }
    let gender = match &voice.description {
        Some(d) => parse_gender(d.as_str()),
        None => VoiceGender::Neutral,
    };
    let mut use_cases: Vec<String> = Vec::new();
    use_cases.push(String::from_str("general"));
    VoiceInfo {
        id: voice.voice_id.clone(),
        name: voice.name.clone(),
        language: String::from_str("en"),
        additional_languages: Vec::new(),
        gender,
        quality: VoiceQuality::Neural,
        description: match &voice.description {
            Some(d) => Some(d.clone()),
            None => None,
        },
        provider: String::from_str("ElevenLabs"),
        sample_rate: 44100,
        is_custom: false,
        is_cloned: false,
        preview_url: match &voice.preview_url {
            Some(p) => Some(p.clone()),
            None => None,
        },
        use_cases,
    }
}

/// Maps the uniform audio format to the ElevenLabs output format name;
/// formats the provider lacks fall back to MP3.
pub fn audio_format_to_elevenlabs(format: AudioFormat) -> (r: &'static str)
    ensures
        r@ == spec_audio_format_to_elevenlabs(format),
{
    proof {
        reveal_strlit("mp3_44100_128");
        reveal_strlit("pcm_44100");
    }
    match format {
        AudioFormat::Mp3 => "mp3_44100_128",
        AudioFormat::Pcm => "pcm_44100",
        AudioFormat::Flac => "mp3_44100_128",
        AudioFormat::Aac => "mp3_44100_128",
        AudioFormat::Wav => "pcm_44100",
        _ => "mp3_44100_128",
    }
}

/// The provider's name for each format.
pub open spec fn spec_audio_format_to_elevenlabs(format: AudioFormat) -> Seq<char> {
    match format {
        AudioFormat::Pcm => "pcm_44100"@,
        AudioFormat::Wav => "pcm_44100"@,
        _ => "mp3_44100_128"@,
    }
}

/// The ElevenLabs error classification for a status and effective
/// message, as an error view (see `err_view`).
pub open spec fn spec_elevenlabs_error(status: u16, msg: Seq<char>) -> (int, Seq<char>, int) {
    if status == 400 {
        (5int, msg, 0int)
    } else if status == 401 {
        (1int, msg, 0int)
    } else if status == 403 {
        (2int, msg, 0int)
    } else if status == 422 {
        (6int, msg, 0int)
    } else if status == 429 {
        (3int, Seq::<char>::empty(), 60int)
    } else if status == 503 {
        (4int, msg, 0int)
    } else {
        (10int, "HTTP "@ + spec_dec_u64(status as nat) + ": "@ + msg, 0int)
    }
}

/// Translates an ElevenLabs error response: the JSON `detail` field where
/// the body carries one, the raw body otherwise; 400 is `InvalidText`,
/// 401 `Unauthorized`, 403 `AccessDenied`, 422 `InvalidConfiguration`,
/// 429 `RateLimited(60)`, 503 `ServiceUnavailable`, anything else
/// `SynthesisFailed` with a "status: body" message.
pub fn parse_elevenlabs_error(status: u16, body: &String) -> (r: DomainError)
    ensures
        err_view(r) == spec_elevenlabs_error(status, effective_message(body@)),
{
    let msg = crate::translate::extract_message(body);
    classify_elevenlabs(status, &msg)
}

fn classify_elevenlabs(status: u16, msg: &String) -> (r: DomainError)
    ensures
        err_view(r) == spec_elevenlabs_error(status, msg@),
{
    proof {
        reveal_strlit("HTTP ");
        reveal_strlit(": ");
    }
    if status == 400 {
        DomainError::InvalidText(msg.clone())
    } else if status == 401 {
        DomainError::Unauthorized(msg.clone())
    } else if status == 403 {
        DomainError::AccessDenied(msg.clone())
    } else if status == 422 {
        DomainError::InvalidConfiguration(msg.clone())
    } else if status == 429 {
        DomainError::RateLimited(60)
    } else if status == 503 {
        DomainError::ServiceUnavailable(msg.clone())
    } else {
        let mut s = String::from_str("HTTP ");
        push_dec_u64(&mut s, status as u64);
        s.append(": ");
        s.append(msg.as_str());
        proof {
            assert("HTTP "@ + spec_dec_u64(status as nat) + ": "@ + msg@ =~= (("HTTP "@
                + spec_dec_u64(status as nat)) + ": "@) + msg@);
        }
        DomainError::SynthesisFailed(s)
    }
}

/// Voice cloning over the `/v1/voices` endpoints.
pub struct VoiceCloner {
    pub api_key: String,
    pub base_url: String,
}

impl VoiceCloner {
    /// Builds a cloner for an endpoint.
    pub fn new(api_key: String, base_url: String) -> (r: VoiceCloner)
        ensures
            r.api_key == api_key,
            r.base_url == base_url,
    {
        VoiceCloner { api_key, base_url }
    }

    /// Voice cloning needs a multipart upload, which the transport cannot
    /// carry: always `UnsupportedOperation`.
    pub fn create_voice_clone(
        &self,
        name: String,
        audio_samples: Vec<AudioSample>,
        description: Option<String>,
    ) -> (r: Result<String, DomainError>)
        ensures
            r is Err && r->Err_0 is UnsupportedOperation,
    {
        proof {
            reveal_strlit(
                "Voice cloning with multipart upload is not supported by this transport",
            );
        }
        Err(
            DomainError::UnsupportedOperation(
                String::from_str(
                    "Voice cloning with multipart upload is not supported by this transport",
                ),
            ),
        )
    }

    /// The management URL of one cloned voice.
    pub fn voice_url(&self, voice_id: &str) -> (r: String)
        ensures
            r@ == self.base_url@ + "/v1/voices/"@ + voice_id@,
    {
        proof {
            reveal_strlit("/v1/voices/");
        }
        let mut url = self.base_url.clone();
        url.append("/v1/voices/");
        url.append(voice_id);
        url
    }
}

/// Checks a clone's audio samples: at least one, at most twenty-five,
/// each at least a kilobyte.
pub fn validate_audio_samples(samples: &Vec<AudioSample>) -> (r: Result<(), DomainError>)
    ensures
        samples@.len() == 0 ==> r is Err && r->Err_0 is InvalidInput,
        samples@.len() > 25 ==> r is Err && r->Err_0 is InvalidInput,
        r is Ok <==> 1 <= samples@.len() <= 25 && (forall|k: int|
            0 <= k < samples@.len() ==> (#[trigger] samples@[k]).audio_data@.len() >= 1024),
{
    proof {
        reveal_strlit("At least one audio sample required for voice cloning");
        reveal_strlit("Maximum 25 audio samples allowed");
        reveal_strlit("audio sample too small (minimum 1KB)");
    }
    if samples.len() == 0 {
        return Err(
            DomainError::InvalidInput(
                String::from_str("At least one audio sample required for voice cloning"),
            ),
        );
    }
    if samples.len() > 25 {
        return Err(
            DomainError::InvalidInput(String::from_str("Maximum 25 audio samples allowed")),
        );
    }
    let mut i: usize = 0;
    while i < samples.len()
        invariant
            i <= samples@.len(),
            forall|k: int| 0 <= k < i ==> (#[trigger] samples@[k]).audio_data@.len() >= 1024,
        decreases samples@.len() - i,
    {
        if samples[i].audio_data.len() < 1024 {
            return Err(
                DomainError::InvalidInput(
                    String::from_str("audio sample too small (minimum 1KB)"),
                ),
            );
        }
        i = i + 1;
    }
    Ok(())
}

} // verus!
