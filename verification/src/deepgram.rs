//! The Deepgram Aura adapter: the Aura model catalog, request shaping for
//! the `/speak` endpoint, response-header metadata, and the conversions
//! into the uniform model.

use vstd::prelude::*;

verus! {

use vstd::string::StringExecFns;
use crate::error::DomainError;
use crate::http::{RequestBuilder, WstdHttpClient, Method, RateLimitConfig, Response,
    spec_header_value, headers_view};
use crate::synthesis::{validate_input_core, estimate_audio_duration_ms};
use crate::text::{spec_dec_u64, push_dec_u64, spec_join, join_with, str_eq, ascii_lowercase,
    lower_seq, starts_with_str, has_prefix, spec_word_count, count_words, parse_u64};
use crate::types::{TextInput, ValidationResult, SynthesisResult, SynthesisMetadata, AudioFormat,
    SynthesisOptions, VoiceInfo, VoiceGender, VoiceQuality};
use crate::polly::spec_saturated_u32;

/// The client model for Deepgram's REST interface.
pub struct DeepgramTtsApi {
    pub api_key: String,
    pub base_url: String,
    pub api_version: String,
    pub rate_limit_config: RateLimitConfig,
}

impl DeepgramTtsApi {
    /// Builds a client against the public endpoint with the standard
    /// backoff schedule.
    pub fn new(api_key: String, api_version: String) -> (r: DeepgramTtsApi)
        ensures
            r.api_key == api_key,
            r.api_version == api_version,
            r.base_url@ == "https://api.deepgram.com"@,
            r.rate_limit_config.max_retries == 3,
            r.rate_limit_config.wf(),
    {
        proof {
            reveal_strlit("https://api.deepgram.com");
        }
        DeepgramTtsApi {
            api_key,
            base_url: String::from_str("https://api.deepgram.com"),
            api_version,
            rate_limit_config: RateLimitConfig::new(3),
        }
    }

    /// Replaces the backoff schedule.
    pub fn with_rate_limit_config(self, config: RateLimitConfig) -> (r: DeepgramTtsApi)
        ensures
            r.api_key == self.api_key,
            r.base_url == self.base_url,
            r.api_version == self.api_version,
            r.rate_limit_config == config,
    {
        DeepgramTtsApi { rate_limit_config: config, ..self }
    }

    /// Starts an authenticated request: the API key as a `Token`
    /// authorization header plus the JSON content type.
    pub fn create_request(&self, method: Method, url: &str) -> (r: RequestBuilder)
        ensures
            r.method == method,
            r.url@ == url@,
            headers_view(r.headers@).len() == 2,
            headers_view(r.headers@)[0].0 == "Authorization"@,
            headers_view(r.headers@)[0].1 == "Token "@ + self.api_key@,
            headers_view(r.headers@)[1] == ("Content-Type"@, "application/json"@),
            r.body is None,
    {
        proof {
            reveal_strlit("Authorization");
            reveal_strlit("Token ");
            reveal_strlit("Content-Type");
            reveal_strlit("application/json");
        }
        let http = WstdHttpClient::new();
        let builder = match method {
            Method::Get => http.get(url),
            Method::Post => http.post(url),
            Method::Put => http.put(url),
            Method::Delete => http.delete(url),
        };
        let mut auth = String::from_str("Token ");
        auth.append(self.api_key.as_str());
        builder.header("Authorization", auth.as_str()).header("Content-Type", "application/json")
    }

    /// The `/speak` URL, with the query string when parameters are given.
    pub fn speak_url(&self, params: &Option<TextToSpeechParams>) -> (r: String)
        ensures
            match params {
                Some(p) => r@ == self.base_url@ + "/"@ + self.api_version@ + "/speak?"@
                    + spec_query_string(*p),
                None => r@ == self.base_url@ + "/"@ + self.api_version@ + "/speak"@,
            },
    {
        proof {
            reveal_strlit("/");
            reveal_strlit("/speak");
            reveal_strlit("/speak?");
        }
        let mut url = self.base_url.clone();
        url.append("/");
        url.append(self.api_version.as_str());
        match params {
            Some(p) => {
                url.append("/speak?");
                let q = p.to_query_string();
                url.append(q.as_str());
            },
            None => {
                url.append("/speak");
            },
        }
        url
    }

    /// Assembles the synthesis request: POST to the `/speak` URL with the
    /// serialized `{"text": ...}` payload and the authentication headers.
    /// The runtime sends it and hands the response to the retry loop.
    pub fn build_speak_request(
        &self,
        params: &Option<TextToSpeechParams>,
        body_json: Vec<u8>,
    ) -> (r: RequestBuilder)
        ensures
            r.method == Method::Post,
            r.body matches Some(b) && b == body_json,
    {
        let url = self.speak_url(params);
        let builder = self.create_request(Method::Post, url.as_str());
        builder.body(body_json)
    }
}

/// The request body for text synthesis: the text alone.
#[derive(Debug, Clone, PartialEq, Eq)]
pub struct TextToSpeechRequest {
    pub text: String,
}

/// The query parameters of a `/speak` call.
#[derive(Debug, Clone, PartialEq, Eq)]
pub struct TextToSpeechParams {
    pub model: Option<String>,
    pub encoding: Option<String>,
    pub container: Option<String>,
    pub sample_rate: Option<u32>,
    pub bit_rate: Option<u32>,
}

impl Default for TextToSpeechParams {
    /// Linear16 at 24000 Hz, no model, container or bit rate.
    fn default() -> (r: TextToSpeechParams)
        ensures
            r.model is None,
            r.encoding matches Some(e) && e@ == "linear16"@,
            r.container is None,
            r.sample_rate == Some(24000u32),
            r.bit_rate is None,
    {
        proof {
            reveal_strlit("linear16");
        }
        TextToSpeechParams {
            model: None,
            encoding: Some(String::from_str("linear16")),
            container: None,
            sample_rate: Some(24000),
            bit_rate: None,
        }
    }
}

/// The `key=value` parts of the query string, in fixed order, one per
/// present parameter.
pub open spec fn spec_query_parts(p: TextToSpeechParams) -> Seq<Seq<char>> {
    let parts = Seq::<Seq<char>>::empty();
    let parts = match p.model {
        Some(m) => parts.push("model="@ + m@),
        None => parts,
    };
    let parts = match p.encoding {
        Some(e) => parts.push("encoding="@ + e@),
        None => parts,
    };
    let parts = match p.container {
        Some(c) => parts.push("container="@ + c@),
        None => parts,
    };
    let parts = match p.sample_rate {
        Some(sr) => parts.push("sample_rate="@ + spec_dec_u64(sr as nat)),
        None => parts,
    };
    match p.bit_rate {
        Some(br) => parts.push("bit_rate="@ + spec_dec_u64(br as nat)),
        None => parts,
    }
}

/// The query string: the present parameters joined with `&`.
pub open spec fn spec_query_string(p: TextToSpeechParams) -> Seq<char> {
    spec_join(spec_query_parts(p), "&"@)
}

impl TextToSpeechParams {
    /// Renders the present parameters as an HTTP query string.
    pub fn to_query_string(&self) -> (r: String)
        ensures
            r@ == spec_query_string(*self),
    {
        proof {
            reveal_strlit("model=");
            reveal_strlit("encoding=");
            reveal_strlit("container=");
            reveal_strlit("sample_rate=");
            reveal_strlit("bit_rate=");
            reveal_strlit("&");
        }
        let mut parts: Vec<String> = Vec::new();
        match &self.model {
            Some(m) => {
                let mut s = String::from_str("model=");
                s.append(m.as_str());
                parts.push(s);
            },
            None => {},
        }
        match &self.encoding {
            Some(e) => {
                let mut s = String::from_str("encoding=");
                s.append(e.as_str());
                parts.push(s);
            },
            None => {},
        }
        match &self.container {
            Some(c) => {
                let mut s = String::from_str("container=");
                s.append(c.as_str());
                parts.push(s);
            },
            None => {},
        }
        match self.sample_rate {
            Some(sr) => {
                let mut s = String::from_str("sample_rate=");
                push_dec_u64(&mut s, sr as u64);
                parts.push(s);
            },
            None => {},
        }
        match self.bit_rate {
            Some(br) => {
                let mut s = String::from_str("bit_rate=");
                push_dec_u64(&mut s, br as u64);
                parts.push(s);
            },
            None => {},
        }
        proof {
            assert(parts@.map_values(|p: String| p@) =~= spec_query_parts(*self));
        }
        join_with(&parts, "&")
    }
}

/// The metadata Deepgram reports in its response headers.
#[derive(Debug, Clone, PartialEq, Eq)]
pub struct TtsResponseMetadata {
    pub content_type: String,
    pub dg_request_id: String,
    pub dg_model_name: String,
    pub dg_model_uuid: String,
    pub dg_char_count: u32,
    pub content_length: Option<u64>,
    pub date: String,
}

impl Default for TtsResponseMetadata {
    /// The fallback when the response carries no metadata headers.
    fn default() -> (r: TtsResponseMetadata)
        ensures
            r.content_type@ == "audio/wav"@,
            r.dg_request_id@ == "unknown"@,
            r.dg_model_name@ == "aura-asteria-en"@,
            r.dg_model_uuid@ == "unknown"@,
            r.dg_char_count == 0,
            r.content_length is None,
            r.date@ == "unknown"@,
    {
        proof {
            reveal_strlit("audio/wav");
            reveal_strlit("unknown");
            reveal_strlit("aura-asteria-en");
        }
        TtsResponseMetadata {
            content_type: String::from_str("audio/wav"),
            dg_request_id: String::from_str("unknown"),
            dg_model_name: String::from_str("aura-asteria-en"),
            dg_model_uuid: String::from_str("unknown"),
            dg_char_count: 0,
            content_length: None,
            date: String::from_str("unknown"),
        }
    }
}

impl TtsResponseMetadata {
    /// Reads the metadata out of the response headers: `None` as soon as
    /// one of the required headers is missing or its count fails to
    /// parse; the optional length and date fall back silently.
    pub fn from_response_headers(response: &Response) -> (r: Option<TtsResponseMetadata>)
        ensures
            match r {
                Some(m) => {
                    let h = headers_view(response.headers@);
                    &&& spec_header_value(h, "content-type"@) == Some(m.content_type@)
                    &&& spec_header_value(h, "dg-request-id"@) == Some(m.dg_request_id@)
                    &&& spec_header_value(h, "dg-model-name"@) == Some(m.dg_model_name@)
                    &&& spec_header_value(h, "dg-model-uuid"@) == Some(m.dg_model_uuid@)
                },
                None => true,
            },
    {
        proof {
            reveal_strlit("content-type");
            reveal_strlit("dg-request-id");
            reveal_strlit("dg-model-name");
            reveal_strlit("dg-model-uuid");
            reveal_strlit("dg-char-count");
            reveal_strlit("content-length");
            reveal_strlit("date");
            reveal_strlit("Unknown");
        }
        let content_type = match response.header_value("content-type") {
            Some(v) => v,
            None => {
                return None;
            },
        };
        let dg_request_id = match response.header_value("dg-request-id") {
            Some(v) => v,
            None => {
                return None;
            },
        };
        let dg_model_name = match response.header_value("dg-model-name") {
            Some(v) => v,
            None => {
                return None;
            },
        };
        let dg_model_uuid = match response.header_value("dg-model-uuid") {
            Some(v) => v,
            None => {
                return None;
            },
        };
        let dg_char_count: u32 = match response.header_value("dg-char-count") {
            Some(v) => match parse_u64(v.as_str()) {
                Some(n) => {
                    if n <= u32::MAX as u64 {
                        n as u32
                    } else {
                        return None;
                    }
                },
                None => {
                    return None;
                },
            },
            None => {
                return None;
            },
        };
        let content_length: Option<u64> = match response.header_value("content-length") {
            Some(v) => parse_u64(v.as_str()),
            None => None,
        };
        let date = match response.header_value("date") {
            Some(v) => v,
            None => String::from_str("Unknown"),
        };
        Some(
            TtsResponseMetadata {
                content_type,
                dg_request_id,
                dg_model_name,
                dg_model_uuid,
                dg_char_count,
                content_length,
                date,
            },
        )
    }
}

/// Audio plus the header metadata.
#[derive(Debug, Clone, PartialEq, Eq)]
pub struct TtsResponse {
    pub audio_data: Vec<u8>,
    pub metadata: TtsResponseMetadata,
}

/// One Aura voice model.
#[derive(Debug, Clone, PartialEq, Eq)]
pub struct Model {
    pub name: String,
    pub voice_id: String,
    pub language: String,
    pub accent: String,
    pub gender: String,
    pub age: String,
    pub characteristics: Vec<String>,
    pub use_cases: Vec<String>,
}

/// The Aura voice identifiers, in catalog order.
pub open spec fn aura_voice_ids() -> Seq<Seq<char>> {
    seq![
        "aura-asteria-en"@,
        "aura-luna-en"@,
        "aura-stella-en"@,
        "aura-athena-en"@,
        "aura-hera-en"@,
        "aura-orion-en"@,
        "aura-arcas-en"@,
        "aura-perseus-en"@,
        "aura-angus-en"@,
    ]
}

/// The reported gender of each Aura voice, in catalog order.
pub open spec fn aura_voice_genders() -> Seq<Seq<char>> {
    seq![
        "Female"@,
        "Female"@,
        "Female"@,
        "Female"@,
        "Female"@,
        "Male"@,
        "Male"@,
        "Male"@,
        "Male"@,
    ]
}

/// The display name of each Aura voice, in catalog order.
pub open spec fn aura_voice_names() -> Seq<Seq<char>> {
    seq![
        "Aura Asteria"@,
        "Aura Luna"@,
        "Aura Stella"@,
        "Aura Athena"@,
        "Aura Hera"@,
        "Aura Orion"@,
        "Aura Arcas"@,
        "Aura Perseus"@,
        "Aura Angus"@,
    ]
}

/// The accent of each Aura voice, in catalog order.
pub open spec fn aura_voice_accents() -> Seq<Seq<char>> {
    seq![
        "American"@,
        "American"@,
        "American"@,
        "British"@,
        "American"@,
        "American"@,
        "American"@,
        "American"@,
        "Irish"@,
    ]
}

/// The age bracket of each Aura voice, in catalog order.
pub open spec fn aura_voice_ages() -> Seq<Seq<char>> {
    seq![
        "Adult"@,
        "Young Adult"@,
        "Adult"@,
        "Adult"@,
        "Adult"@,
        "Adult"@,
        "Middle Aged"@,
        "Adult"@,
        "Young Adult"@,
    ]
}

/// The two characteristics of each Aura voice, in catalog order.
pub open spec fn aura_voice_characteristics() -> Seq<(Seq<char>, Seq<char>)> {
    seq![
        ("warm"@, "professional"@),
        ("friendly"@, "conversational"@),
        ("clear"@, "articulate"@),
        ("elegant"@, "sophisticated"@),
        ("warm"@, "empathetic"@),
        ("confident"@, "professional"@),
        ("authoritative"@, "clear"@),
        ("dynamic"@, "engaging"@),
        ("friendly"@, "warm"@),
    ]
}

/// The two use cases of each Aura voice, in catalog order.
pub open spec fn aura_voice_use_cases() -> Seq<(Seq<char>, Seq<char>)> {
    seq![
        ("general"@, "narration"@),
        ("general"@, "chat"@),
        ("presentation"@, "professional"@),
        ("narration"@, "presentation"@),
        ("customer service"@, "assistant"@),
        ("presentation"@, "narration"@),
        ("news"@, "announcements"@),
        ("podcast"@, "entertainment"@),
        ("conversational"@, "casual"@),
    ]
}

/// What holds of the Aura catalog entry at index `k`.
pub open spec fn aura_model_ok(m: Model, k: int) -> bool {
    &&& m.voice_id@ == aura_voice_ids()[k]
    &&& m.name@ == aura_voice_names()[k]
    &&& m.gender@ == aura_voice_genders()[k]
    &&& m.language@ == "en"@
    &&& m.accent@ == aura_voice_accents()[k]
    &&& m.age@ == aura_voice_ages()[k]
    &&& m.characteristics@.len() == 2
    &&& m.characteristics@[0]@ == aura_voice_characteristics()[k].0
    &&& m.characteristics@[1]@ == aura_voice_characteristics()[k].1
    &&& m.use_cases@.len() == 2
    &&& m.use_cases@[0]@ == aura_voice_use_cases()[k].0
    &&& m.use_cases@[1]@ == aura_voice_use_cases()[k].1
}

/// The curated Aura model catalog: nine English voices.
pub fn get_available_models() -> (r: Vec<Model>)
    ensures
        r@.len() == 9,
        forall|k: int| 0 <= k < 9 ==> aura_model_ok(#[trigger] r@[k], k),
{
    proof {
        reveal_strlit("aura-asteria-en");
        reveal_strlit("aura-luna-en");
        reveal_strlit("aura-stella-en");
        reveal_strlit("aura-athena-en");
        reveal_strlit("aura-hera-en");
        reveal_strlit("aura-orion-en");
        reveal_strlit("aura-arcas-en");
        reveal_strlit("aura-perseus-en");
        reveal_strlit("aura-angus-en");
        reveal_strlit("Female");
        reveal_strlit("Male");
        reveal_strlit("en");
    }
    let mut models: Vec<Model> = Vec::new();
    models.push(
        aura_model(
            "Aura Asteria",
            "aura-asteria-en",
            "American",
            "Female",
            "Adult",
            "warm",
            "professional",
            "general",
            "narration",
        ),
    );
    models.push(
        aura_model(
            "Aura Luna",
            "aura-luna-en",
            "American",
            "Female",
            "Young Adult",
            "friendly",
            "conversational",
            "general",
            "chat",
        ),
    );
    models.push(
        aura_model(
            "Aura Stella",
            "aura-stella-en",
            "American",
            "Female",
            "Adult",
            "clear",
            "articulate",
            "presentation",
            "professional",
        ),
    );
    models.push(
        aura_model(
            "Aura Athena",
            "aura-athena-en",
            "British",
            "Female",
            "Adult",
            "elegant",
            "sophisticated",
            "narration",
            "presentation",
        ),
    );
    models.push(
        aura_model(
            "Aura Hera",
            "aura-hera-en",
            "American",
            "Female",
            "Adult",
            "warm",
            "empathetic",
            "customer service",
            "assistant",
        ),
    );
    models.push(
        aura_model(
            "Aura Orion",
            "aura-orion-en",
            "American",
            "Male",
            "Adult",
            "confident",
            "professional",
            "presentation",
            "narration",
        ),
    );
    models.push(
        aura_model(
            "Aura Arcas",
            "aura-arcas-en",
            "American",
            "Male",
            "Middle Aged",
            "authoritative",
            "clear",
            "news",
            "announcements",
        ),
    );
    models.push(
        aura_model(
            "Aura Perseus",
            "aura-perseus-en",
            "American",
            "Male",
            "Adult",
            "dynamic",
            "engaging",
            "podcast",
            "entertainment",
        ),
    );
    models.push(
        aura_model(
            "Aura Angus",
            "aura-angus-en",
            "Irish",
            "Male",
            "Young Adult",
            "friendly",
            "warm",
            "conversational",
            "casual",
        ),
    );
    models
}

/// One curated Aura model.
fn aura_model(
    name: &str,
    voice_id: &str,
    accent: &str,
    gender: &str,
    age: &str,
    char1: &str,
    char2: &str,
    use1: &str,
    use2: &str,
) -> (r: Model)
    ensures
        r.name@ == name@,
        r.voice_id@ == voice_id@,
        r.language@ == "en"@,
        r.accent@ == accent@,
        r.gender@ == gender@,
        r.age@ == age@,
        r.characteristics@.len() == 2,
        r.characteristics@[0]@ == char1@,
        r.characteristics@[1]@ == char2@,
        r.use_cases@.len() == 2,
        r.use_cases@[0]@ == use1@,
        r.use_cases@[1]@ == use2@,
{
    proof {
        reveal_strlit("en");
    }
    let mut characteristics: Vec<String> = Vec::new();
    characteristics.push(char1.to_owned());
    characteristics.push(char2.to_owned());
    let mut use_cases: Vec<String> = Vec::new();
    use_cases.push(use1.to_owned());
    use_cases.push(use2.to_owned());
    Model {
        name: name.to_owned(),
        voice_id: voice_id.to_owned(),
        language: String::from_str("en"),
        accent: accent.to_owned(),
        gender: gender.to_owned(),
        age: age.to_owned(),
        characteristics,
        use_cases,
    }
}

/// Parses a reported gender string, ASCII case-insensitively: feminine
/// and female are `Female`, masculine and male are `Male`, anything else
/// is `Neutral`.
pub fn parse_gender(gender_str: &str) -> (r: VoiceGender)
    ensures
        r == spec_parse_gender(gender_str@),
{
    proof {
        reveal_strlit("feminine");
        reveal_strlit("female");
        reveal_strlit("masculine");
        reveal_strlit("male");
    }
    let lower = ascii_lowercase(gender_str);
    if str_eq(lower.as_str(), "feminine") || str_eq(lower.as_str(), "female") {
        VoiceGender::Female
    } else if str_eq(lower.as_str(), "masculine") || str_eq(lower.as_str(), "male") {
        VoiceGender::Male
    } else {
        VoiceGender::Neutral
    }
}

/// The gender classification of a reported string.
pub open spec fn spec_parse_gender(s: Seq<char>) -> VoiceGender {
    let l = lower_seq(s);
    if l == "feminine"@ || l == "female"@ {
        VoiceGender::Female
    } else if l == "masculine"@ || l == "male"@ {
        VoiceGender::Male
    } else {
        VoiceGender::Neutral
    }
}

/// Second-generation Aura models are premium; everything else standard.
pub fn infer_quality_from_model(voice_id: &str) -> (r: VoiceQuality)
    ensures
        has_prefix(voice_id@, "aura-2-"@) ==> r == VoiceQuality::Premium,
        !has_prefix(voice_id@, "aura-2-"@) ==> r == VoiceQuality::Standard,
{
    proof {
        reveal_strlit("aura-2-");
    }
    if starts_with_str(voice_id, "aura-2-") {
        VoiceQuality::Premium
    } else {
        VoiceQuality::Standard
    }
}

/// The normalized form of a language code: regional English and Spanish
/// codes collapse to their base language; anything else is lower-cased
/// and cut to its first two characters.
pub open spec fn spec_normalize_language(code: Seq<char>) -> Seq<char> {
    let l = lower_seq(code);
    if l == "en-us"@ || l == "en-gb"@ || l == "en-au"@ || l == "en-ph"@ || l == "en-ie"@ {
        "en"@
    } else if l == "es-es"@ || l == "es-mx"@ || l == "es-co"@ || l == "es-419"@ {
        "es"@
    } else if l.len() <= 2 {
        l
    } else {
        l.subrange(0, 2)
    }
}

/// Normalizes a language code: regional English and Spanish codes
/// collapse to their base language; anything else is lower-cased and cut
/// to its first two characters.
pub fn normalize_language_code(code: &str) -> (r: String)
    ensures
        r@ == spec_normalize_language(code@),
{
    proof {
        reveal_strlit("en-us");
        reveal_strlit("en-gb");
        reveal_strlit("en-au");
        reveal_strlit("en-ph");
        reveal_strlit("en-ie");
        reveal_strlit("es-es");
        reveal_strlit("es-mx");
        reveal_strlit("es-co");
        reveal_strlit("es-419");
        reveal_strlit("en");
        reveal_strlit("es");
    }
    let lower = ascii_lowercase(code);
    let l = lower.as_str();
    if str_eq(l, "en-us") || str_eq(l, "en-gb") || str_eq(l, "en-au") || str_eq(l, "en-ph")
        || str_eq(l, "en-ie") {
        String::from_str("en")
    } else if str_eq(l, "es-es") || str_eq(l, "es-mx") || str_eq(l, "es-co") || str_eq(
        l,
        "es-419",
    ) {
        String::from_str("es")
    } else {
        let n = l.unicode_len();
        if n <= 2 {
            lower
        } else {
            l.substring_char(0, 2).to_owned()
        }
    }
}

/// The per-format request parameters: encoding name, optional container,
/// default sample rate, optional default bit rate.
pub open spec fn spec_format_params(format: AudioFormat) -> (
    Seq<char>,
    Option<Seq<char>>,
    u32,
    Option<u32>,
) {
    match format {
        AudioFormat::Mp3 => ("mp3"@, None, 22050u32, Some(48000u32)),
        AudioFormat::Wav => ("linear16"@, Some("wav"@), 24000u32, None),
        AudioFormat::Pcm => ("linear16"@, None, 24000u32, None),
        AudioFormat::OggOpus => ("opus"@, Some("ogg"@), 48000u32, Some(12000u32)),
        AudioFormat::Aac => ("aac"@, None, 22050u32, Some(48000u32)),
        AudioFormat::Flac => ("flac"@, None, 48000u32, None),
        AudioFormat::Mulaw => ("mulaw"@, Some("wav"@), 8000u32, None),
        AudioFormat::Alaw => ("alaw"@, Some("wav"@), 8000u32, None),
        AudioFormat::Ogg => ("mp3"@, None, 22050u32, Some(48000u32)),
    }
}

/// Maps the uniform audio format to Deepgram's encoding, container and
/// defaults.
pub fn audio_format_to_deepgram_params(format: AudioFormat) -> (r: (
    String,
    Option<String>,
    u32,
    Option<u32>,
))
    ensures
        r.0@ == spec_format_params(format).0,
        (match (r.1, spec_format_params(format).1) {
            (Some(a), Some(b)) => a@ == b,
            (None, None) => true,
            _ => false,
        }),
        r.2 == spec_format_params(format).2,
        r.3 == spec_format_params(format).3,
{
    proof {
        reveal_strlit("mp3");
        reveal_strlit("linear16");
        reveal_strlit("wav");
        reveal_strlit("opus");
        reveal_strlit("ogg");
        reveal_strlit("aac");
        reveal_strlit("flac");
        reveal_strlit("mulaw");
        reveal_strlit("alaw");
    }
    match format {
        AudioFormat::Mp3 => (String::from_str("mp3"), None, 22050, Some(48000)),
        AudioFormat::Wav => (String::from_str("linear16"), Some(String::from_str("wav")), 24000, None),
        AudioFormat::Pcm => (String::from_str("linear16"), None, 24000, None),
        AudioFormat::OggOpus => (String::from_str("opus"), Some(String::from_str("ogg")), 48000, Some(12000)),
        AudioFormat::Aac => (String::from_str("aac"), None, 22050, Some(48000)),
        AudioFormat::Flac => (String::from_str("flac"), None, 48000, None),
        AudioFormat::Mulaw => (String::from_str("mulaw"), Some(String::from_str("wav")), 8000, None),
        AudioFormat::Alaw => (String::from_str("alaw"), Some(String::from_str("wav")), 8000, None),
        AudioFormat::Ogg => (String::from_str("mp3"), None, 22050, Some(48000)),
    }
}

/// The sample rates Deepgram accepts for uncompressed formats.
pub open spec fn spec_supported_rate(r: u32) -> bool {
    r == 8000 || r == 16000 || r == 24000 || r == 32000 || r == 48000
}

/// The view of request parameters: model, encoding, container, sample
/// rate, bit rate.
pub open spec fn params_view(p: TextToSpeechParams) -> (
    Option<Seq<char>>,
    Option<Seq<char>>,
    Option<Seq<char>>,
    Option<u32>,
    Option<u32>,
) {
    (
        match p.model {
            Some(m) => Some(m@),
            None => None,
        },
        match p.encoding {
            Some(e) => Some(e@),
            None => None,
        },
        match p.container {
            Some(c) => Some(c@),
            None => None,
        },
        p.sample_rate,
        p.bit_rate,
    )
}

/// The parameters the request shaper produces for given options.
pub open spec fn spec_tts_params(options: Option<SynthesisOptions>) -> (
    Option<Seq<char>>,
    Option<Seq<char>>,
    Option<Seq<char>>,
    Option<u32>,
    Option<u32>,
) {
    match options {
        None => (None, Some("linear16"@), Some("wav"@), Some(24000u32), None),
        Some(opts) => {
            let model: Option<Seq<char>> = if opts.voice_id@.len() > 0 {
                Some(opts.voice_id@)
            } else {
                None
            };
            match opts.audio_config {
                None => (model, Some("linear16"@), Some("wav"@), Some(24000u32), None),
                Some(c) => {
                    let fp = spec_format_params(c.format);
                    if c.format is Mp3 || c.format is Aac || c.format is OggOpus {
                        (model, Some(fp.0), fp.1, None, fp.3)
                    } else {
                        let rate: u32 = match c.sample_rate {
                            Some(user_rate) => if spec_supported_rate(user_rate) {
                                user_rate
                            } else {
                                24000u32
                            },
                            None => fp.2,
                        };
                        (model, Some(fp.0), fp.1, Some(rate), None)
                    }
                },
            }
        },
    }
}

/// Shapes a synthesis request from the uniform options: the text becomes
/// the body; the format chooses encoding, container, sample rate (dropped
/// for compressed formats, validated against the supported list
/// otherwise) and bit rate; a non-empty voice is the model.
pub fn synthesis_options_to_tts_request(text: String, options: Option<SynthesisOptions>) -> (r:
    Result<(TextToSpeechRequest, Option<TextToSpeechParams>), DomainError>)
    ensures
        r is Ok,
        r->Ok_0.0.text == text,
        (match r->Ok_0.1 {
            Some(p) => params_view(p) == spec_tts_params(options),
            None => false,
        }),
{
    proof {
        reveal_strlit("linear16");
        reveal_strlit("wav");
    }
    let request = TextToSpeechRequest { text };
    let mut params = TextToSpeechParams {
        model: None,
        encoding: Some(String::from_str("linear16")),
        container: Some(String::from_str("wav")),
        sample_rate: Some(24000),
        bit_rate: None,
    };
    match options {
        Some(opts) => {
            match opts.audio_config {
                Some(audio_config) => {
                    let (encoding, container, default_sample_rate, default_bit_rate) =
                        audio_format_to_deepgram_params(audio_config.format);
                    params.encoding = Some(encoding);
                    params.container = container;
                    let compressed = match audio_config.format {
                        AudioFormat::Mp3 | AudioFormat::Aac | AudioFormat::OggOpus => true,
                        _ => false,
                    };
                    if compressed {
                        params.sample_rate = None;
                        params.bit_rate = default_bit_rate;
                    } else {
                        params.sample_rate = match audio_config.sample_rate {
                            Some(user_rate) => {
                                if user_rate == 8000 || user_rate == 16000 || user_rate == 24000
                                    || user_rate == 32000 || user_rate == 48000 {
                                    Some(user_rate)
                                } else {
                                    Some(24000)
                                }
                            },
                            None => Some(default_sample_rate),
                        };
                        params.bit_rate = None;
                    }
                },
                None => {},
            }
            if opts.voice_id.as_str().unicode_len() > 0 {
                params.model = Some(opts.voice_id);
            }
            Ok((request, Some(params)))
        },
        None => Ok((request, Some(params))),
    }
}

/// Builds the uniform synthesis result from returned audio: counts from
/// the input text, the duration estimated from byte length and sample
/// rate, and a request identifier stamped by the runtime clock.
pub fn audio_data_to_synthesis_result(
    audio_data: Vec<u8>,
    text: &str,
    encoding: &str,
    sample_rate: u32,
    now_unix_secs: u64,
) -> (r: SynthesisResult)
    ensures
        r.audio_data == audio_data,
        r.metadata matches Some(m) && m.character_count == spec_saturated_u32(text@.len())
            && m.word_count == spec_saturated_u32(spec_word_count(text@)) && m.audio_size_bytes
            == spec_saturated_u32(audio_data@.len()) && m.request_id@ == "deepgram-"@
            + spec_dec_u64(now_unix_secs as nat) && (m.provider_info matches Some(p) && p@
            == "Deepgram TTS - Encoding: "@ + encoding@ + ", Sample Rate: "@ + spec_dec_u64(
            sample_rate as nat,
        ) + "Hz"@),
{
    proof {
        reveal_strlit("deepgram-");
        reveal_strlit("Deepgram TTS - Encoding: ");
        reveal_strlit(", Sample Rate: ");
        reveal_strlit("Hz");
    }
    let audio_len = audio_data.len();
    let character_count = saturate_u32(text.unicode_len());
    let word_count = saturate_u32(count_words(text));
    let duration_ms = estimate_audio_duration_ms(audio_len, sample_rate);
    let mut request_id = String::from_str("deepgram-");
    push_dec_u64(&mut request_id, now_unix_secs);
    let mut provider_info = String::from_str("Deepgram TTS - Encoding: ");
    provider_info.append(encoding);
    provider_info.append(", Sample Rate: ");
    push_dec_u64(&mut provider_info, sample_rate as u64);
    provider_info.append("Hz");
    SynthesisResult {
        audio_data,
        metadata: Some(
            SynthesisMetadata {
                duration_ms,
                character_count,
                word_count,
                audio_size_bytes: saturate_u32(audio_len),
                request_id,
                provider_info: Some(provider_info),
            },
        ),
    }
}

fn saturate_u32(n: usize) -> (r: u32)
    ensures
        r == spec_saturated_u32(n as nat),
{
    if n > u32::MAX as usize {
        u32::MAX
    } else {
        n as u32
    }
}

/// The description text built for a model: gender, accent and age, then
/// the characteristics and use cases joined with commas.
pub open spec fn spec_model_description(
    gender: Seq<char>,
    accent: Seq<char>,
    age: Seq<char>,
    characteristics: Seq<Seq<char>>,
    use_cases: Seq<Seq<char>>,
) -> Seq<char> {
    gender + " voice with "@ + accent + " accent, "@ + age + ". Characteristics: "@ + spec_join(
        characteristics,
        ", "@,
    ) + ". Suitable for: "@ + spec_join(use_cases, ", "@)
}

/// Maps an Aura model into the uniform voice description.
pub fn deepgram_model_to_voice_info(model: Model) -> (r: VoiceInfo)
    ensures
        r.id == model.voice_id,
        r.name == model.name,
        r.language@ == spec_normalize_language(model.language@),
        r.gender == spec_parse_gender(model.gender@),
        r.quality == (if has_prefix(model.voice_id@, "aura-2-"@) {
            VoiceQuality::Premium
        } else {
            VoiceQuality::Standard
        }),
        (r.description matches Some(d) && d@ == spec_model_description(
            model.gender@,
            model.accent@,
            model.age@,
            model.characteristics@.map_values(|s: String| s@),
            model.use_cases@.map_values(|s: String| s@),
        )),
        r.use_cases == model.use_cases,
        r.provider@ == "Deepgram"@,
        r.sample_rate == 24000,
        !r.is_custom,
        !r.is_cloned,
        r.preview_url is None,
{
    proof {
        reveal_strlit("Deepgram");
        reveal_strlit(" voice with ");
        reveal_strlit(" accent, ");
        reveal_strlit(". Characteristics: ");
        reveal_strlit(". Suitable for: ");
        reveal_strlit(", ");
    }
    let gender = parse_gender(model.gender.as_str());
    let quality = infer_quality_from_model(model.voice_id.as_str());
    let language = normalize_language_code(model.language.as_str());
    let mut description = model.gender.clone();
    description.append(" voice with ");
    description.append(model.accent.as_str());
    description.append(" accent, ");
    description.append(model.age.as_str());
    description.append(". Characteristics: ");
    let chars_joined = join_with(&model.characteristics, ", ");
    description.append(chars_joined.as_str());
    description.append(". Suitable for: ");
    let uses_joined = join_with(&model.use_cases, ", ");
    description.append(uses_joined.as_str());
    proof {
        assert(description@ =~= spec_model_description(
            model.gender@,
            model.accent@,
            model.age@,
            model.characteristics@.map_values(|s: String| s@),
            model.use_cases@.map_values(|s: String| s@),
        ));
    }
    VoiceInfo {
        id: model.voice_id,
        name: model.name,
        language,
        additional_languages: Vec::new(),
        gender,
        quality,
        description: Some(description),
        provider: String::from_str("Deepgram"),
        sample_rate: 24000,
        is_custom: false,
        is_cloned: false,
        preview_url: None,
        use_cases: model.use_cases,
    }
}

/// What holds of the mapped catalog voice at index `k`: every field is
/// determined by the catalog data and the conversion rules.
pub open spec fn deepgram_catalog_voice(v: VoiceInfo, k: int) -> bool {
    &&& v.id@ == aura_voice_ids()[k]
    &&& v.name@ == aura_voice_names()[k]
    &&& v.language@ == spec_normalize_language("en"@)
    &&& v.gender == spec_parse_gender(aura_voice_genders()[k])
    &&& v.quality == (if has_prefix(aura_voice_ids()[k], "aura-2-"@) {
        VoiceQuality::Premium
    } else {
        VoiceQuality::Standard
    })
    &&& (v.description matches Some(d) && d@ == spec_model_description(
        aura_voice_genders()[k],
        aura_voice_accents()[k],
        aura_voice_ages()[k],
        seq![aura_voice_characteristics()[k].0, aura_voice_characteristics()[k].1],
        seq![aura_voice_use_cases()[k].0, aura_voice_use_cases()[k].1],
    ))
    &&& v.provider@ == "Deepgram"@
    &&& v.sample_rate == 24000
    &&& !v.is_custom
    &&& !v.is_cloned
    &&& v.preview_url is None
}

/// The whole mapped catalog, up to views.
pub open spec fn deepgram_catalog(vs: Seq<VoiceInfo>) -> bool {
    vs.len() == 9 && forall|k: int| 0 <= k < 9 ==> deepgram_catalog_voice(#[trigger] vs[k], k)
}

/// The whole Aura catalog, mapped into the uniform shape in order.
pub fn list_voices() -> (r: Vec<VoiceInfo>)
    ensures
        deepgram_catalog(r@),
        r@.len() == 9,
        forall|k: int|
            0 <= k < 9 ==> (#[trigger] r@[k]).id@ == aura_voice_ids()[k] && r@[k].provider@
                == "Deepgram"@,
{
    proof {
        reveal_strlit("Deepgram");
    }
    let models = get_available_models();
    let ghost model_views = models@;
    let total = models.len();
    let mut rest = models;
    let mut r: Vec<VoiceInfo> = Vec::new();
    let mut i: usize = 0;
    while i < total
        invariant
            model_views.len() == 9,
            total == 9,
            i <= total,
            rest@ == model_views.subrange(i as int, model_views.len() as int),
            forall|k: int| 0 <= k < 9 ==> aura_model_ok(#[trigger] model_views[k], k),
            r@.len() == i,
            forall|k: int| 0 <= k < i ==> deepgram_catalog_voice(#[trigger] r@[k], k),
        decreases total - i,
    {
        let m = rest.remove(0);
        proof {
            assert(m == model_views[i as int]);
            assert(m.characteristics@.map_values(|s: String| s@) =~= seq![
                aura_voice_characteristics()[i as int].0,
                aura_voice_characteristics()[i as int].1,
            ]);
            assert(m.use_cases@.map_values(|s: String| s@) =~= seq![
                aura_voice_use_cases()[i as int].0,
                aura_voice_use_cases()[i as int].1,
            ]);
        }
        r.push(deepgram_model_to_voice_info(m));
        i = i + 1;
        proof {
            assert(rest@ =~= model_views.subrange(i as int, model_views.len() as int));
        }
    }
    r
}

/// Looks an Aura voice up by identifier: `VoiceNotFound` carries the
/// unknown identifier back.
pub fn get_voice(voice_id: String) -> (r: Result<VoiceInfo, DomainError>)
    ensures
        (exists|k: int| 0 <= k < 9 && aura_voice_ids()[k] == voice_id@) <==> r is Ok,
        r is Ok ==> r->Ok_0.id@ == voice_id@,
        r is Err ==> r->Err_0 == DomainError::VoiceNotFound(voice_id),
{
    let voices = list_voices();
    let total = voices.len();
    let ghost all = voices@;
    let mut rest = voices;
    let mut i: usize = 0;
    while i < total
        invariant
            all.len() == 9,
            total == 9,
            i <= total,
            rest@ == all.subrange(i as int, all.len() as int),
            forall|k: int|
                0 <= k < 9 ==> (#[trigger] all[k]).id@ == aura_voice_ids()[k],
            forall|k: int| 0 <= k < i ==> aura_voice_ids()[k] != voice_id@,
        decreases total - i,
    {
        let v = rest.remove(0);
        proof {
            assert(v == all[i as int]);
        }
        if str_eq(v.id.as_str(), voice_id.as_str()) {
            return Ok(v);
        }
        i = i + 1;
        proof {
            assert(rest@ =~= all.subrange(i as int, all.len() as int));
        }
    }
    Err(DomainError::VoiceNotFound(voice_id))
}

/// Searches the catalog: keeps, in order, the voices whose name or
/// description contains the query (ASCII case-insensitive) and that pass
/// the optional language/gender filter. The mapped descriptions carry the
/// models' accents, characteristics and use cases, so those fields are
/// searched through the description text.
pub fn search_voices(query: String, filter: Option<crate::types::VoiceFilter>) -> (r: Result<
    Vec<VoiceInfo>,
    DomainError,
>)
    ensures
        r is Ok,
        r->Ok_0@.len() <= 9,
        forall|j: int|
            0 <= j < r->Ok_0@.len() ==> crate::voices::spec_search_keeps(
                #[trigger] r->Ok_0@[j],
                query@,
                filter,
            ),
        exists|vs: Seq<VoiceInfo>|
            #[trigger] deepgram_catalog(vs) && r->Ok_0@ == crate::voices::spec_search(
                vs,
                query@,
                filter,
            ),
{
    let voices = list_voices();
    let ghost all = voices@;
    let found = crate::voices::filter_voices(voices, &query, &filter);
    proof {
        lemma_deepgram_search_sound(all, query@, filter);
        assert(deepgram_catalog(all) && found@ == crate::voices::spec_search(
            all,
            query@,
            filter,
        ));
    }
    Ok(found)
}

/// Every element the catalog search returns satisfies the search
/// predicate.
proof fn lemma_deepgram_search_sound(
    s: Seq<VoiceInfo>,
    q: Seq<char>,
    f: Option<crate::types::VoiceFilter>,
)
    ensures
        forall|j: int|
            0 <= j < crate::voices::spec_search(s, q, f).len() ==> crate::voices::spec_search_keeps(
                #[trigger] crate::voices::spec_search(s, q, f)[j],
                q,
                f,
            ),
        crate::voices::spec_search(s, q, f).len() <= s.len(),
    decreases s.len(),
{
    if s.len() > 0 {
        lemma_deepgram_search_sound(s.drop_last(), q, f);
    }
}

/// The one language the Aura catalog offers.
pub fn list_languages() -> (r: Vec<crate::types::LanguageInfo>)
    ensures
        r@.len() == 1,
        r@[0].code@ == "en"@,
        r@[0].voice_count == 12,
{
    proof {
        reveal_strlit("en");
        reveal_strlit("English");
    }
    let mut langs: Vec<crate::types::LanguageInfo> = Vec::new();
    langs.push(
        crate::types::LanguageInfo {
            code: String::from_str("en"),
            name: String::from_str("English"),
            native_name: String::from_str("English"),
            voice_count: 12,
        },
    );
    langs
}

/// Checks input against Deepgram's 2000-character limit without touching
/// the network.
pub fn validate_input(input: &TextInput) -> (r: ValidationResult)
    ensures
        r.is_valid == crate::synthesis::spec_valid_length(input.content@.len(), 2000),
        input.content@.len() <= u32::MAX ==> r.character_count == input.content@.len(),
        input.content@.len() > 1500 ==> r.warnings@.len() == 1,
        !r.is_valid ==> r.errors@.len() == 1 && r.errors@[0]@
            == "Text must be between 1 and 2000 characters"@,
        r.is_valid ==> r.errors@.len() == 0,
{
    proof {
        reveal_strlit("Text is approaching Deepgram's limit");
        reveal_strlit("Text must be between 1 and 2000 characters");
    }
    validate_input_core(
        input,
        2000,
        1500,
        "Text is approaching Deepgram's limit",
        "Text must be between 1 and 2000 characters",
    )
}

} // verus!
