//! The uniform data model shared by every provider adapter: text inputs,
//! audio configuration, synthesis results and metadata, voice descriptions,
//! and streaming session shapes.
//!
//! Durations are carried as integer milliseconds and voice-tuning settings
//! as integer per-mille values, so that every field is a plain value.

use vstd::prelude::*;

verus! {

/// Whether the input text is plain text or SSML markup.
#[derive(Debug, Clone, Copy, PartialEq, Eq, Structural)]
pub enum TextType {
    Plain,
    Ssml,
}

/// A piece of text to synthesize.
#[derive(Debug, Clone, PartialEq, Eq)]
pub struct TextInput {
    pub content: String,
    pub language: Option<String>,
    pub text_type: TextType,
}

/// The audio container/encoding requested of a provider.
#[derive(Debug, Clone, Copy, PartialEq, Eq, Structural)]
pub enum AudioFormat {
    Mp3,
    Wav,
    Pcm,
    OggOpus,
    Ogg,
    Aac,
    Flac,
    Mulaw,
    Alaw,
}

/// Requested audio parameters.
#[derive(Debug, Clone, Copy, PartialEq, Eq, Structural)]
pub struct AudioConfig {
    pub format: AudioFormat,
    pub sample_rate: Option<u32>,
    pub bit_rate: Option<u32>,
    pub channels: Option<u32>,
}

/// A voice's reported gender.
#[derive(Debug, Clone, Copy, PartialEq, Eq, Structural)]
pub enum VoiceGender {
    Male,
    Female,
    Neutral,
}

/// A voice's quality tier.
#[derive(Debug, Clone, Copy, PartialEq, Eq, Structural)]
pub enum VoiceQuality {
    Standard,
    Neural,
    Premium,
}

/// Voice tuning, in integer per-mille: 1000 stands for the neutral 1.0.
#[derive(Debug, Clone, Copy, PartialEq, Eq, Structural)]
pub struct VoiceSettings {
    pub speed: Option<u32>,
    pub pitch: Option<u32>,
    pub volume: Option<u32>,
    pub stability: Option<u32>,
    pub similarity: Option<u32>,
    pub style: Option<u32>,
}

/// The provider-agnostic synthesis request options.
#[derive(Debug, Clone, PartialEq, Eq)]
pub struct SynthesisOptions {
    pub voice_id: String,
    pub audio_config: Option<AudioConfig>,
    pub voice_settings: Option<VoiceSettings>,
    pub model_version: Option<String>,
    pub enable_timing: Option<bool>,
    pub enable_word_timing: Option<bool>,
    pub seed: Option<u32>,
}

/// Metadata attached to a synthesis result. The duration is an estimate
/// from byte length and nominal bitrate, in milliseconds, not decoded audio
/// time.
#[derive(Debug, Clone, PartialEq, Eq)]
pub struct SynthesisMetadata {
    pub duration_ms: u64,
    pub character_count: u32,
    pub word_count: u32,
    pub audio_size_bytes: u32,
    pub request_id: String,
    pub provider_info: Option<String>,
}

/// Audio bytes plus optional metadata, the uniform success shape.
#[derive(Debug, Clone, PartialEq, Eq)]
pub struct SynthesisResult {
    pub audio_data: Vec<u8>,
    pub metadata: Option<SynthesisMetadata>,
}

/// A word or sentence timing mark.
#[derive(Debug, Clone, PartialEq, Eq)]
pub struct TimingInfo {
    pub time_ms: u32,
    pub mark_type: String,
    pub text: String,
    pub start_offset: Option<u32>,
    pub end_offset: Option<u32>,
}

/// A provider voice as exposed to callers.
#[derive(Debug, Clone, PartialEq, Eq)]
pub struct VoiceInfo {
    pub id: String,
    pub name: String,
    pub language: String,
    pub additional_languages: Vec<String>,
    pub gender: VoiceGender,
    pub quality: VoiceQuality,
    pub description: Option<String>,
    pub provider: String,
    pub sample_rate: u32,
    pub is_custom: bool,
    pub is_cloned: bool,
    pub preview_url: Option<String>,
    pub use_cases: Vec<String>,
}

/// An optional filter applied after voice retrieval: language prefix match
/// and gender equality.
#[derive(Debug, Clone, PartialEq, Eq)]
pub struct VoiceFilter {
    pub language: Option<String>,
    pub gender: Option<VoiceGender>,
    pub quality: Option<VoiceQuality>,
    pub supports_ssml: Option<bool>,
    pub provider: Option<String>,
    pub search_query: Option<String>,
}

/// A language a provider offers voices for.
#[derive(Debug, Clone, PartialEq, Eq)]
pub struct LanguageInfo {
    pub code: String,
    pub name: String,
    pub native_name: String,
    pub voice_count: u32,
}

/// The outcome of a pure input check: never touches the network.
#[derive(Debug, Clone, PartialEq, Eq)]
pub struct ValidationResult {
    pub is_valid: bool,
    pub character_count: u32,
    pub estimated_duration_ms: Option<u64>,
    pub warnings: Vec<String>,
    pub errors: Vec<String>,
}

/// The handle returned when a streaming session is created.
#[derive(Debug, Clone, PartialEq, Eq)]
pub struct StreamSession {
    pub session_id: String,
    pub model: String,
    pub encoding: String,
    pub sample_rate: u32,
}

/// A snapshot of a streaming session's state.
#[derive(Debug, Clone, PartialEq, Eq)]
pub struct StreamStatus {
    pub status: String,
    pub is_active: bool,
    pub has_pending_chunks: bool,
    pub error: Option<String>,
}

/// One recorded audio sample handed to voice cloning.
#[derive(Debug, Clone, PartialEq, Eq)]
pub struct AudioSample {
    pub audio_data: Vec<u8>,
}

/// The view of a text input: its strings as character sequences.
pub open spec fn text_input_view(t: TextInput) -> (Seq<char>, Option<Seq<char>>, TextType) {
    (
        t.content@,
        match t.language {
            Some(l) => Some(l@),
            None => None,
        },
        t.text_type,
    )
}

/// The view of synthesis options.
pub open spec fn options_view(o: SynthesisOptions) -> (
    Seq<char>,
    Option<AudioConfig>,
    Option<VoiceSettings>,
    Option<Seq<char>>,
    (Option<bool>, Option<bool>, Option<u32>),
) {
    (
        o.voice_id@,
        o.audio_config,
        o.voice_settings,
        match o.model_version {
            Some(m) => Some(m@),
            None => None,
        },
        (o.enable_timing, o.enable_word_timing, o.seed),
    )
}

/// The view of a synthesis metadata record.
pub open spec fn metadata_view(m: SynthesisMetadata) -> (
    u64,
    u32,
    u32,
    u32,
    Seq<char>,
    Option<Seq<char>>,
) {
    (
        m.duration_ms,
        m.character_count,
        m.word_count,
        m.audio_size_bytes,
        m.request_id@,
        match m.provider_info {
            Some(p) => Some(p@),
            None => None,
        },
    )
}

/// The view of a synthesis result.
pub open spec fn result_view(r: SynthesisResult) -> (
    Seq<u8>,
    Option<(u64, u32, u32, u32, Seq<char>, Option<Seq<char>>)>,
) {
    (
        r.audio_data@,
        match r.metadata {
            Some(m) => Some(metadata_view(m)),
            None => None,
        },
    )
}

/// Equality of two optional strings, up to their views.
fn option_string_eq(a: &Option<String>, b: &Option<String>) -> (r: bool)
    ensures
        r == (match (a, b) {
            (Some(x), Some(y)) => x@ == y@,
            (None, None) => true,
            _ => false,
        }),
{
    match (a, b) {
        (Some(x), Some(y)) => x.eq(y),
        (None, None) => true,
        _ => false,
    }
}

impl TextInput {
    /// Structural equality up to string views.
    pub fn matches(&self, other: &TextInput) -> (r: bool)
        ensures
            r == (text_input_view(*self) == text_input_view(*other)),
    {
        self.content.eq(&other.content) && option_string_eq(&self.language, &other.language)
            && self.text_type == other.text_type
    }

    /// A copy whose view equals this input's view.
    pub fn duplicate(&self) -> (r: TextInput)
        ensures
            text_input_view(r) == text_input_view(*self),
    {
        TextInput {
            content: self.content.clone(),
            language: match &self.language {
                Some(l) => Some(l.clone()),
                None => None,
            },
            text_type: self.text_type,
        }
    }
}

impl SynthesisOptions {
    /// Structural equality up to string views.
    pub fn matches(&self, other: &SynthesisOptions) -> (r: bool)
        ensures
            r == (options_view(*self) == options_view(*other)),
    {
        self.voice_id.eq(&other.voice_id) && self.audio_config == other.audio_config
            && self.voice_settings == other.voice_settings && option_string_eq(
            &self.model_version,
            &other.model_version,
        ) && self.enable_timing == other.enable_timing && self.enable_word_timing
            == other.enable_word_timing && self.seed == other.seed
    }

    /// A copy whose view equals this value's view.
    pub fn duplicate(&self) -> (r: SynthesisOptions)
        ensures
            options_view(r) == options_view(*self),
    {
        SynthesisOptions {
            voice_id: self.voice_id.clone(),
            audio_config: self.audio_config,
            voice_settings: self.voice_settings,
            model_version: match &self.model_version {
                Some(m) => Some(m.clone()),
                None => None,
            },
            enable_timing: self.enable_timing,
            enable_word_timing: self.enable_word_timing,
            seed: self.seed,
        }
    }
}

impl SynthesisMetadata {
    /// A copy whose view equals this value's view.
    pub fn duplicate(&self) -> (r: SynthesisMetadata)
        ensures
            metadata_view(r) == metadata_view(*self),
    {
        SynthesisMetadata {
            duration_ms: self.duration_ms,
            character_count: self.character_count,
            word_count: self.word_count,
            audio_size_bytes: self.audio_size_bytes,
            request_id: self.request_id.clone(),
            provider_info: match &self.provider_info {
                Some(p) => Some(p.clone()),
                None => None,
            },
        }
    }
}

impl SynthesisResult {
    /// A copy whose view equals this value's view.
    pub fn duplicate(&self) -> (r: SynthesisResult)
        ensures
            result_view(r) == result_view(*self),
    {
        SynthesisResult {
            audio_data: clone_bytes(&self.audio_data),
            metadata: match &self.metadata {
                Some(m) => Some(m.duplicate()),
                None => None,
            },
        }
    }
}

/// A byte-for-byte copy of a buffer.
pub fn clone_bytes(b: &Vec<u8>) -> (r: Vec<u8>)
    ensures
        r@ == b@,
{
    let mut r: Vec<u8> = Vec::new();
    let mut i: usize = 0;
    while i < b.len()
        invariant
            i <= b@.len(),
            r@ == b@.subrange(0, i as int),
        decreases b@.len() - i,
    {
        r.push(b[i]);
        proof {
            assert(b@.subrange(0, i + 1) =~= b@.subrange(0, i as int).push(b@[i as int]));
        }
        i = i + 1;
    }
    proof {
        assert(b@.subrange(0, b@.len() as int) =~= b@);
    }
    r
}

} // verus!
