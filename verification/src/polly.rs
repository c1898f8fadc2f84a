//! The AWS Polly adapter: the curated voice catalog, request signing, and
//! the conversions between Polly's shapes and the uniform model.
//!
//! The signature algorithm itself is an external collaborator: the HMAC,
//! SHA-256 and hex primitives are called through trusted wrappers, and the
//! contract of `sign_request` pins the shape of the signed headers rather
//! than the signature bytes.

use vstd::prelude::*;

verus! {

use vstd::string::StringExecFns;
use vstd::string::StrSliceExecFns;
use vstd::string::StringSliceAdditionalSpecFns;
use crate::error::DomainError;
use crate::http::{RequestBuilder, WstdHttpClient};
use crate::synthesis::validate_input_core;
use crate::text::{spec_dec_u64, push_dec_u64, has_prefix, str_eq, spec_is_space, is_space, spec_word_count, count_words, spec_join};
use crate::translate::{spec_classify_status, effective_message, error_from_status_body};
use crate::types::{TextInput, ValidationResult, SynthesisResult, SynthesisMetadata, VoiceInfo,
    VoiceFilter, VoiceGender, VoiceQuality, LanguageInfo, AudioFormat};
use crate::voices::{spec_search, filter_voices};

/// The HMAC-SHA256 of a key and a message, as the `hmac` crate computes it.
pub uninterp spec fn hmac_sha256_of(key: Seq<u8>, data: Seq<char>) -> Seq<u8>;

/// The SHA-256 digest of a text, as the `sha2` crate computes it over the
/// text's UTF-8 bytes.
pub uninterp spec fn sha256_of(data: Seq<char>) -> Seq<u8>;

/// The lowercase hex digit for a value below sixteen.
pub open spec fn hex_digit(d: int) -> char {
    if d < 10 {
        (48 + d) as u8 as char
    } else {
        (87 + d) as u8 as char
    }
}

/// The lowercase hex encoding of a byte sequence: two digits per byte.
pub open spec fn hex_of(b: Seq<u8>) -> Seq<char>
    decreases b.len(),
{
    if b.len() == 0 {
        Seq::empty()
    } else {
        hex_of(b.drop_last()) + seq![
            hex_digit(b.last() as int / 16),
            hex_digit(b.last() as int % 16),
        ]
    }
}

/// Relies on `hex::encode`: each byte becomes two lowercase hex digits
/// from the table 0-9 then a-f, most significant first.
#[verifier::external_body]
fn hex_encode(b: &Vec<u8>) -> (r: String)
    ensures
        r@ == hex_of(b@),
{
    hex::encode(b)
}

// The digest and MAC traits the wrappers call through.
use sha2::Digest;
use hmac::Mac;
use hmac::KeyInit;

/// Relies on `sha2::Sha256::digest`: a 32-byte digest that depends on the
/// input text alone.
#[verifier::external_body]
fn sha256_digest(data: &str) -> (r: Vec<u8>)
    ensures
        r@ == sha256_of(data@),
        r@.len() == 32,
{
    sha2::Sha256::digest(data.as_bytes()).to_vec()
}

/// The client for Polly's REST interface: credentials, region, and the
/// regional endpoint.
pub struct PollyClient {
    pub access_key_id: String,
    pub secret_access_key: String,
    pub session_token: Option<String>,
    pub region: String,
    pub base_url: String,
}

/// The identifiers of the curated Polly voices, in catalog order.
pub open spec fn polly_voice_ids() -> Seq<Seq<char>> {
    seq![
        "Joanna"@,
        "Matthew"@,
        "Ivy"@,
        "Kendra"@,
        "Kevin"@,
        "Salli"@,
        "Joey"@,
        "Amy"@,
        "Brian"@,
        "Emma"@,
    ]
}

/// The language of each curated voice, in catalog order.
pub open spec fn polly_voice_langs() -> Seq<Seq<char>> {
    seq![
        "en-US"@,
        "en-US"@,
        "en-US"@,
        "en-US"@,
        "en-US"@,
        "en-US"@,
        "en-US"@,
        "en-GB"@,
        "en-GB"@,
        "en-GB"@,
    ]
}

/// The description of each curated voice, in catalog order.
pub open spec fn polly_voice_descs() -> Seq<Seq<char>> {
    seq![
        "US English female voice"@,
        "US English male voice"@,
        "US English child's voice"@,
        "US English female voice"@,
        "US English child's voice"@,
        "US English female voice"@,
        "US English male voice"@,
        "British English female voice"@,
        "British English male voice"@,
        "British English female voice"@,
    ]
}

/// The gender of each curated voice, in catalog order.
pub open spec fn polly_voice_genders() -> Seq<VoiceGender> {
    seq![
        VoiceGender::Female,
        VoiceGender::Male,
        VoiceGender::Female,
        VoiceGender::Female,
        VoiceGender::Male,
        VoiceGender::Female,
        VoiceGender::Male,
        VoiceGender::Female,
        VoiceGender::Male,
        VoiceGender::Female,
    ]
}

/// The whole curated catalog, up to views.
pub open spec fn polly_catalog(vs: Seq<VoiceInfo>) -> bool {
    vs.len() == 10 && forall|k: int| 0 <= k < 10 ==> polly_voice_ok(#[trigger] vs[k], k)
}

/// What holds of the catalog entry at index `k`.
pub open spec fn polly_voice_ok(v: VoiceInfo, k: int) -> bool {
    &&& v.id@ == polly_voice_ids()[k]
    &&& v.name@ == polly_voice_ids()[k]
    &&& v.language@ == polly_voice_langs()[k]
    &&& v.gender == polly_voice_genders()[k]
    &&& v.quality == VoiceQuality::Neural
    &&& (v.description matches Some(d) && d@ == polly_voice_descs()[k])
    &&& v.provider@ == "AWS Polly"@
    &&& v.sample_rate == 24000
    &&& !v.is_custom
    &&& !v.is_cloned
    &&& v.preview_url is None
}

impl PollyClient {
    /// Builds a client for a region; the endpoint is
    /// `https://polly.<region>.amazonaws.com`.
    pub fn new(
        access_key_id: String,
        secret_access_key: String,
        region: String,
        session_token: Option<String>,
    ) -> (r: PollyClient)
        ensures
            r.access_key_id == access_key_id,
            r.secret_access_key == secret_access_key,
            r.session_token == session_token,
            r.region == region,
            r.base_url@ == "https://polly."@ + region@ + ".amazonaws.com"@,
    {
        proof {
            reveal_strlit("https://polly.");
            reveal_strlit(".amazonaws.com");
        }
        let mut base_url = String::from_str("https://polly.");
        base_url.append(region.as_str());
        base_url.append(".amazonaws.com");
        PollyClient { access_key_id, secret_access_key, session_token, region, base_url }
    }

    /// Relies on `hmac::Hmac<sha2::Sha256>`: the HMAC tag of the message
    /// under the key, 32 bytes, depending on key and message alone.
    #[verifier::external_body]
    pub fn hmac_sha256(&self, key: &[u8], data: &str) -> (r: Vec<u8>)
        ensures
            r@ == hmac_sha256_of(key@, data@),
            r@.len() == 32,
    {
        let mut mac = <hmac::Hmac<sha2::Sha256> as hmac::KeyInit>::new_from_slice(key)
            .expect("HMAC can take key of any size");
        mac.update(data.as_bytes());
        mac.finalize().into_bytes().to_vec()
    }

    /// Signs a request with AWS Signature Version 4. The signing chain is
    /// an external collaborator; what is pinned here is the shape of the
    /// result: an `Authorization` header opening with the algorithm and
    /// the caller's credential, an `X-Amz-Date` of the timestamp, and the
    /// session token when one is configured. Headers are expected in
    /// canonical (lowercase, sorted) order.
    pub fn sign_request(
        &self,
        method: &str,
        uri: &str,
        query_string: &str,
        headers: &Vec<(String, String)>,
        payload: &str,
        now_unix_secs: u64,
    ) -> (r: Result<Vec<(String, String)>, DomainError>)
        requires
            now_unix_secs >= 100000,
        ensures
            r is Ok,
            ({
                let hs = r->Ok_0@;
                let n = if self.session_token is Some {
                    3int
                } else {
                    2int
                };
                &&& hs.len() == n
                &&& hs[0].0@ == "Authorization"@
                &&& has_prefix(
                    hs[0].1@,
                    "AWS4-HMAC-SHA256 Credential="@ + self.access_key_id@ + "/"@,
                )
                &&& hs[1].0@ == "X-Amz-Date"@
                &&& hs[1].1@ == spec_dec_u64(now_unix_secs as nat) + "000"@
                &&& (self.session_token matches Some(t) ==> hs[2].0@ == "X-Amz-Security-Token"@
                    && hs[2].1@ == t@)
            }),
    {
        proof {
            reveal_strlit("000");
            reveal_strlit("Authorization");
            reveal_strlit("X-Amz-Date");
            reveal_strlit("X-Amz-Security-Token");
            reveal_strlit("AWS4-HMAC-SHA256 Credential=");
            reveal_strlit("/");
            reveal_strlit(":");
            reveal_strlit("\n");
            reveal_strlit(";");
            reveal_strlit("/polly/aws4_request");
            reveal_strlit("AWS4-HMAC-SHA256\n");
            reveal_strlit("AWS4");
            reveal_strlit("aws4_request");
            reveal_strlit("polly");
            reveal_strlit(", SignedHeaders=");
            reveal_strlit(", Signature=");
        }
        let mut amz_date = String::new();
        push_dec_u64(&mut amz_date, now_unix_secs);
        amz_date.append("000");
        // The timestamp has at least six digits, so the first eight
        // characters of the date string exist.
        let date8 = if amz_date.as_str().unicode_len() >= 8 {
            amz_date.as_str().substring_char(0, 8).to_owned()
        } else {
            amz_date.clone()
        };

        let mut canonical_headers = String::new();
        let mut signed_headers = String::new();
        let mut i: usize = 0;
        while i < headers.len()
            decreases headers@.len() - i,
        {
            canonical_headers.append(headers[i].0.as_str());
            canonical_headers.append(":");
            canonical_headers.append(headers[i].1.as_str());
            canonical_headers.append("\n");
            if i > 0 {
                signed_headers.append(";");
            }
            signed_headers.append(headers[i].0.as_str());
            i = i + 1;
        }

        let payload_hash = hex_encode(&sha256_digest(payload));

        let mut canonical_request = String::new();
        canonical_request.append(method);
        canonical_request.append("\n");
        canonical_request.append(uri);
        canonical_request.append("\n");
        canonical_request.append(query_string);
        canonical_request.append("\n");
        canonical_request.append(canonical_headers.as_str());
        canonical_request.append("\n");
        canonical_request.append(signed_headers.as_str());
        canonical_request.append("\n");
        canonical_request.append(payload_hash.as_str());

        let canonical_request_hash = hex_encode(&sha256_digest(canonical_request.as_str()));

        let mut credential_scope = String::new();
        credential_scope.append(date8.as_str());
        credential_scope.append("/");
        credential_scope.append(self.region.as_str());
        credential_scope.append("/polly/aws4_request");

        let mut string_to_sign = String::from_str("AWS4-HMAC-SHA256\n");
        string_to_sign.append(amz_date.as_str());
        string_to_sign.append("\n");
        string_to_sign.append(credential_scope.as_str());
        string_to_sign.append("\n");
        string_to_sign.append(canonical_request_hash.as_str());

        let mut secret_key = String::from_str("AWS4");
        secret_key.append(self.secret_access_key.as_str());
        let secret_key_bytes = str_bytes_vec(secret_key.as_str());
        let date_key = self.hmac_sha256(secret_key_bytes.as_slice(), date8.as_str());
        let date_region_key = self.hmac_sha256(date_key.as_slice(), self.region.as_str());
        let date_region_service_key = self.hmac_sha256(date_region_key.as_slice(), "polly");
        let signing_key = self.hmac_sha256(date_region_service_key.as_slice(), "aws4_request");
        let signature = hex_encode(&self.hmac_sha256(
            signing_key.as_slice(),
            string_to_sign.as_str(),
        ));

        let mut authorization = String::from_str("AWS4-HMAC-SHA256 Credential=");
        authorization.append(self.access_key_id.as_str());
        authorization.append("/");
        let ghost auth_prefix = authorization@;
        authorization.append(credential_scope.as_str());
        authorization.append(", SignedHeaders=");
        authorization.append(signed_headers.as_str());
        authorization.append(", Signature=");
        authorization.append(signature.as_str());
        proof {
            assert(has_prefix(
                authorization@,
                "AWS4-HMAC-SHA256 Credential="@ + self.access_key_id@ + "/"@,
            )) by {
                assert(authorization@.subrange(0, auth_prefix.len() as int) =~= auth_prefix);
            }
        }

        let mut result: Vec<(String, String)> = Vec::new();
        result.push((String::from_str("Authorization"), authorization));
        result.push((String::from_str("X-Amz-Date"), amz_date));
        match &self.session_token {
            Some(t) => {
                result.push((String::from_str("X-Amz-Security-Token"), t.clone()));
            },
            None => {},
        }
        Ok(result)
    }

    /// The curated voice catalog: ten neural English voices.
    pub fn list_voices(&self) -> (r: Result<Vec<VoiceInfo>, DomainError>)
        ensures
            r is Ok,
            polly_catalog(r->Ok_0@),
            r->Ok_0@.len() == 10,
            forall|k: int| 0 <= k < 10 ==> polly_voice_ok(#[trigger] r->Ok_0@[k], k),
    {
        proof {
            reveal_strlit("Joanna");
            reveal_strlit("Matthew");
            reveal_strlit("Ivy");
            reveal_strlit("Kendra");
            reveal_strlit("Kevin");
            reveal_strlit("Salli");
            reveal_strlit("Joey");
            reveal_strlit("Amy");
            reveal_strlit("Brian");
            reveal_strlit("Emma");
            reveal_strlit("en-US");
            reveal_strlit("en-GB");
        }
        let mut voices: Vec<VoiceInfo> = Vec::new();
        voices.push(catalog_voice("Joanna", "en-US", VoiceGender::Female, "US English female voice"));
        voices.push(catalog_voice("Matthew", "en-US", VoiceGender::Male, "US English male voice"));
        voices.push(catalog_voice("Ivy", "en-US", VoiceGender::Female, "US English child's voice"));
        voices.push(catalog_voice("Kendra", "en-US", VoiceGender::Female, "US English female voice"));
        voices.push(catalog_voice("Kevin", "en-US", VoiceGender::Male, "US English child's voice"));
        voices.push(catalog_voice("Salli", "en-US", VoiceGender::Female, "US English female voice"));
        voices.push(catalog_voice("Joey", "en-US", VoiceGender::Male, "US English male voice"));
        voices.push(catalog_voice("Amy", "en-GB", VoiceGender::Female, "British English female voice"));
        voices.push(catalog_voice("Brian", "en-GB", VoiceGender::Male, "British English male voice"));
        voices.push(catalog_voice("Emma", "en-GB", VoiceGender::Female, "British English female voice"));
        Ok(voices)
    }

    /// Looks a voice up by identifier: the catalog entry when the
    /// identifier names one, `VoiceNotFound` carrying the identifier
    /// otherwise.
    pub fn get_voice(&self, voice_id: String) -> (r: Result<VoiceInfo, DomainError>)
        ensures
            (exists|k: int| 0 <= k < 10 && polly_voice_ids()[k] == voice_id@) <==> r is Ok,
            r is Ok ==> r->Ok_0.id@ == voice_id@ && (exists|k: int|
                0 <= k < 10 && polly_voice_ok(#[trigger] r->Ok_0, k)),
            r is Err ==> r->Err_0 == DomainError::VoiceNotFound(voice_id),
    {
        let voices = match self.list_voices() {
            Ok(v) => v,
            Err(e) => {
                return Err(e);
            },
        };
        let total = voices.len();
        let ghost all = voices@;
        let mut rest = voices;
        let mut i: usize = 0;
        while i < total
            invariant
                all.len() == 10,
                total == 10,
                i <= total,
                rest@ == all.subrange(i as int, all.len() as int),
                forall|k: int| 0 <= k < 10 ==> polly_voice_ok(#[trigger] all[k], k),
                forall|k: int| 0 <= k < i ==> polly_voice_ids()[k] != voice_id@,
            decreases total - i,
        {
            let v = rest.remove(0);
            proof {
                assert(v == all[i as int]);
            }
            if str_eq(v.id.as_str(), voice_id.as_str()) {
                return Ok(v);
            }
            i = i + 1;
            proof {
                assert(rest@ =~= all.subrange(i as int, all.len() as int));
            }
        }
        Err(DomainError::VoiceNotFound(voice_id))
    }

    /// Searches the catalog: keeps, in order, the voices whose name or
    /// description contains the query (ASCII case-insensitive) and that
    /// pass the optional language/gender filter.
    pub fn search_voices(&self, query: String, filter: Option<VoiceFilter>) -> (r: Result<
        Vec<VoiceInfo>,
        DomainError,
    >)
        ensures
            r is Ok,
            r->Ok_0@.len() <= 10,
            forall|j: int|
                0 <= j < r->Ok_0@.len() ==> crate::voices::spec_search_keeps(
                    #[trigger] r->Ok_0@[j],
                    query@,
                    filter,
                ),
            exists|vs: Seq<VoiceInfo>|
                #[trigger] polly_catalog(vs) && r->Ok_0@ == spec_search(vs, query@, filter),
    {
        let voices = match self.list_voices() {
            Ok(v) => v,
            Err(e) => {
                return Err(e);
            },
        };
        let ghost all = voices@;
        let found = filter_voices(voices, &query, &filter);
        proof {
            lemma_search_sound(all, query@, filter);
            assert(polly_catalog(all) && found@ == spec_search(all, query@, filter));
        }
        Ok(found)
    }

    /// The two languages of the curated catalog, with their voice counts.
    pub fn list_languages(&self) -> (r: Result<Vec<LanguageInfo>, DomainError>)
        ensures
            r is Ok,
            r->Ok_0@.len() == 2,
            r->Ok_0@[0].code@ == "en-US"@ && r->Ok_0@[0].voice_count == 7,
            r->Ok_0@[1].code@ == "en-GB"@ && r->Ok_0@[1].voice_count == 3,
    {
        proof {
            reveal_strlit("en-US");
            reveal_strlit("en-GB");
            reveal_strlit("English (US)");
            reveal_strlit("English (UK)");
        }
        let mut langs: Vec<LanguageInfo> = Vec::new();
        langs.push(
            LanguageInfo {
                code: String::from_str("en-US"),
                name: String::from_str("English (US)"),
                native_name: String::from_str("English (US)"),
                voice_count: 7,
            },
        );
        langs.push(
            LanguageInfo {
                code: String::from_str("en-GB"),
                name: String::from_str("English (UK)"),
                native_name: String::from_str("English (UK)"),
                voice_count: 3,
            },
        );
        Ok(langs)
    }

    /// Assembles the signed synthesis request: POST to `/v1/speech` at the
    /// regional endpoint with the serialized payload and signed headers.
    /// The payload is handed in already serialized; the runtime sends the
    /// request and brings the response back.
    pub fn build_speech_request(&self, json_payload: &str, now_unix_secs: u64) -> (r: Result<
        RequestBuilder,
        DomainError,
    >)
        requires
            now_unix_secs >= 100000,
        ensures
            r is Ok,
            r->Ok_0.method == crate::http::Method::Post,
            r->Ok_0.url@ == self.base_url@ + "/v1/speech"@,
            r->Ok_0.body matches Some(b) && b@ == json_payload.spec_bytes(),
    {
        proof {
            reveal_strlit("/v1/speech");
            reveal_strlit("host");
            reveal_strlit("content-type");
            reveal_strlit("application/json");
            reveal_strlit("Content-Type");
        }
        let host = host_of(&self.base_url);
        let mut headers: Vec<(String, String)> = Vec::new();
        headers.push((String::from_str("content-type"), String::from_str("application/json")));
        headers.push((String::from_str("host"), host));
        let signed = match self.sign_request(
            "POST",
            "/v1/speech",
            "",
            &headers,
            json_payload,
            now_unix_secs,
        ) {
            Ok(s) => s,
            Err(e) => {
                return Err(e);
            },
        };
        let mut url = self.base_url.clone();
        url.append("/v1/speech");
        let http = WstdHttpClient::new();
        let mut builder = http.post(url.as_str()).header("Content-Type", "application/json");
        let mut rest = signed;
        while rest.len() > 0
            invariant
                builder.method == crate::http::Method::Post,
                builder.url@ == self.base_url@ + "/v1/speech"@,
                builder.body is None,
            decreases rest@.len(),
        {
            let (k, v) = rest.remove(0);
            builder = builder.header(k.as_str(), v.as_str());
        }
        Ok(builder.body(str_bytes_vec(json_payload)))
    }

    /// Builds the uniform synthesis result from the audio Polly returned:
    /// metadata estimated from the input text and audio size, with the
    /// runtime-chosen request identifier.
    pub fn synthesis_result(&self, audio: Vec<u8>, content: &String, request_id: String) -> (r:
        SynthesisResult)
        ensures
            r.audio_data@ == audio@,
            r.metadata matches Some(m) && m.character_count == spec_saturated_u32(content@.len())
                && m.word_count == spec_saturated_u32(spec_word_count(content@)) && m.duration_ms
                == spec_saturated_u32(content@.len()) * 50 && m.audio_size_bytes
                == spec_saturated_u32(audio@.len()) && m.request_id == request_id && (
            m.provider_info matches Some(p) && p@ == "AWS Polly"@),
    {
        proof {
            reveal_strlit("AWS Polly");
        }
        let character_count = saturated_u32(content.as_str().unicode_len());
        let word_count = saturated_u32(count_words(content.as_str()));
        let audio_size_bytes = saturated_u32(audio.len());
        SynthesisResult {
            audio_data: audio,
            metadata: Some(
                SynthesisMetadata {
                    duration_ms: character_count as u64 * 50,
                    character_count,
                    word_count,
                    audio_size_bytes,
                    request_id,
                    provider_info: Some(String::from_str("AWS Polly")),
                },
            ),
        }
    }

    /// Checks input against Polly's 3000-character limit without touching
    /// the network.
    pub fn validate_input(&self, input: &TextInput) -> (r: ValidationResult)
        ensures
            r.is_valid == crate::synthesis::spec_valid_length(input.content@.len(), 3000),
            input.content@.len() <= u32::MAX ==> r.character_count == input.content@.len(),
            input.content@.len() > 2500 ==> r.warnings@.len() == 1,
            !r.is_valid ==> r.errors@.len() == 1 && r.errors@[0]@
                == "Text must be 1-3000 characters"@,
            r.is_valid ==> r.errors@.len() == 0,
    {
        proof {
            reveal_strlit("Text approaching limit");
            reveal_strlit("Text must be 1-3000 characters");
        }
        validate_input_core(
            input,
            3000,
            2500,
            "Text approaching limit",
            "Text must be 1-3000 characters",
        )
    }
}

/// Every element the catalog search returns satisfies the search
/// predicate.
proof fn lemma_search_sound(s: Seq<VoiceInfo>, q: Seq<char>, f: Option<VoiceFilter>)
    ensures
        forall|j: int|
            0 <= j < spec_search(s, q, f).len() ==> crate::voices::spec_search_keeps(
                #[trigger] spec_search(s, q, f)[j],
                q,
                f,
            ),
        spec_search(s, q, f).len() <= s.len(),
    decreases s.len(),
{
    if s.len() > 0 {
        lemma_search_sound(s.drop_last(), q, f);
    }
}

/// One curated catalog entry.
fn catalog_voice(id: &str, language: &str, gender: VoiceGender, description: &str) -> (r: VoiceInfo)
    ensures
        r.id@ == id@,
        r.name@ == id@,
        r.language@ == language@,
        r.gender == gender,
        r.quality == VoiceQuality::Neural,
        r.description matches Some(d) && d@ == description@,
        r.provider@ == "AWS Polly"@,
        r.sample_rate == 24000,
        !r.is_custom,
        !r.is_cloned,
        r.preview_url is None,
        r.use_cases@.len() == 1,
{
    proof {
        reveal_strlit("AWS Polly");
        reveal_strlit("general");
    }
    let mut use_cases: Vec<String> = Vec::new();
    use_cases.push(String::from_str("general"));
    VoiceInfo {
        id: id.to_owned(),
        name: id.to_owned(),
        language: language.to_owned(),
        additional_languages: Vec::new(),
        gender,
        quality: VoiceQuality::Neural,
        description: Some(description.to_owned()),
        provider: String::from_str("AWS Polly"),
        sample_rate: 24000,
        is_custom: false,
        is_cloned: false,
        preview_url: None,
        use_cases,
    }
}

/// The host part of the endpoint: the URL without its `https://` prefix.
fn host_of(base_url: &String) -> (r: String) {
    proof {
        reveal_strlit("https://");
    }
    let n = base_url.as_str().unicode_len();
    if n >= 8 {
        base_url.as_str().substring_char(8, n).to_owned()
    } else {
        base_url.clone()
    }
}

/// Relies on `str::as_bytes` (through the vstd slice-to-vec helper): the
/// UTF-8 bytes of the payload.
fn str_bytes_vec(s: &str) -> (r: Vec<u8>)
    ensures
        r@ == s.spec_bytes(),
{
    s.as_bytes_vec()
}


/// A count clipped to `u32`.
pub open spec fn spec_saturated_u32(n: nat) -> u32 {
    if n > u32::MAX {
        u32::MAX
    } else {
        n as u32
    }
}

fn saturated_u32(n: usize) -> (r: u32)
    ensures
        r == spec_saturated_u32(n as nat),
{
    if n > u32::MAX as usize {
        u32::MAX
    } else {
        n as u32
    }
}

/// Maps the uniform audio format to Polly's output format name.
pub fn audio_format_to_polly(format: AudioFormat) -> (r: &'static str)
    ensures
        r@ == spec_audio_format_to_polly(format),
{
    proof {
        reveal_strlit("mp3");
        reveal_strlit("pcm");
        reveal_strlit("ogg_vorbis");
    }
    match format {
        AudioFormat::Mp3 => "mp3",
        AudioFormat::Pcm => "pcm",
        AudioFormat::Ogg => "ogg_vorbis",
        AudioFormat::Wav => "pcm",
        _ => "mp3",
    }
}

/// Polly's name for each uniform format: PCM stands in for WAV, and
/// everything unsupported falls back to MP3.
pub open spec fn spec_audio_format_to_polly(format: AudioFormat) -> Seq<char> {
    match format {
        AudioFormat::Mp3 => "mp3"@,
        AudioFormat::Pcm => "pcm"@,
        AudioFormat::Ogg => "ogg_vorbis"@,
        AudioFormat::Wav => "pcm"@,
        _ => "mp3"@,
    }
}

/// The engine to request for a voice: legacy voices use `standard`,
/// everything else `neural`.
pub fn recommended_engine_for_voice(voice_id: &str) -> (r: &'static str)
    ensures
        spec_is_legacy_voice(voice_id@) ==> r@ == "standard"@,
        !spec_is_legacy_voice(voice_id@) ==> r@ == "neural"@,
{
    proof {
        reveal_strlit("standard");
        reveal_strlit("neural");
        reveal_strlit("Ivy");
        reveal_strlit("Joey");
        reveal_strlit("Justin");
        reveal_strlit("Kevin");
        reveal_strlit("Kimberly");
        reveal_strlit("Salli");
    }
    if str_eq(voice_id, "Ivy") || str_eq(voice_id, "Joey") || str_eq(voice_id, "Justin") || str_eq(
        voice_id,
        "Kevin",
    ) || str_eq(voice_id, "Kimberly") || str_eq(voice_id, "Salli") {
        "standard"
    } else {
        "neural"
    }
}

/// The voices that require the standard engine.
pub open spec fn spec_is_legacy_voice(v: Seq<char>) -> bool {
    v == "Ivy"@ || v == "Joey"@ || v == "Justin"@ || v == "Kevin"@ || v == "Kimberly"@ || v
        == "Salli"@
}

/// The sample rate actually sent for an output format: fixed 24000 for
/// compressed formats, the requested rate (default 16000) for PCM.
pub fn validate_sample_rate(rate: Option<u32>, format: &str) -> (r: u32)
    ensures
        format@ == "pcm"@ ==> r == (match rate {
            Some(x) => x,
            None => 16000u32,
        }),
        format@ != "pcm"@ ==> r == 24000,
{
    proof {
        reveal_strlit("pcm");
    }
    if str_eq(format, "pcm") {
        match rate {
            Some(x) => x,
            None => 16000,
        }
    } else {
        24000
    }
}

/// Validates text length for Polly: empty text is `InvalidText`, more
/// than 3000 characters is `TextTooLong(3000)`.
pub fn validate_text_length(text: &str) -> (r: Result<(), DomainError>)
    ensures
        text@.len() == 0 ==> r is Err && r->Err_0 is InvalidText,
        text@.len() > 3000 ==> r is Err && r->Err_0 == DomainError::TextTooLong(3000u32),
        1 <= text@.len() <= 3000 <==> r is Ok,
{
    proof {
        reveal_strlit("Text cannot be empty");
    }
    let len = text.unicode_len();
    if len == 0 {
        return Err(DomainError::InvalidText(String::from_str("Text cannot be empty")));
    }
    if len > 3000 {
        return Err(DomainError::TextTooLong(3000));
    }
    Ok(())
}

/// Translates a Polly error response with Polly's 3000-character limit.
pub fn parse_polly_error(status: u16, body: &String) -> (r: DomainError)
    ensures
        crate::error::err_view(r) == spec_classify_status(status, effective_message(body@), 3000),
{
    error_from_status_body(status, body, 3000)
}

/// Whether the text is framed as an SSML document: after trimming ASCII
/// whitespace it starts with `<speak>` and ends with `</speak>`.
pub fn is_valid_ssml(text: &str) -> (r: bool)
    ensures
        r == spec_is_valid_ssml(text@),
{
    proof {
        reveal_strlit("<speak>");
        reveal_strlit("</speak>");
    }
    let n = text.unicode_len();
    let mut a: usize = 0;
    while a < n && is_space(text.get_char(a))
        invariant
            n == text@.len(),
            a <= n,
            spec_trim_start(text@, 0) == spec_trim_start(text@, a as int),
        decreases n - a,
    {
        a = a + 1;
    }
    let mut b: usize = n;
    while b > 0 && is_space(text.get_char(b - 1))
        invariant
            n == text@.len(),
            b <= n,
            spec_trim_end(text@, n as int) == spec_trim_end(text@, b as int),
        decreases b,
    {
        b = b - 1;
    }
    let starts = starts_with_at(text, "<speak>", a);
    let ends = ends_with_at(text, "</speak>", b);
    starts && ends
}

/// The SSML framing check, over the character sequence.
pub open spec fn spec_is_valid_ssml(s: Seq<char>) -> bool {
    let a = spec_trim_start(s, 0);
    let b = spec_trim_end(s, s.len() as int);
    has_prefix(s.subrange(a, s.len() as int), "<speak>"@) && has_suffix(
        s.subrange(0, b),
        "</speak>"@,
    )
}

/// `p` is a suffix of `s`.
pub open spec fn has_suffix(s: Seq<char>, p: Seq<char>) -> bool {
    p.len() <= s.len() && s.subrange(s.len() - p.len(), s.len() as int) == p
}

/// The index of the first non-space character at or after `i`.
pub open spec fn spec_trim_start(s: Seq<char>, i: int) -> int
    decreases s.len() - i,
{
    if i < 0 || i >= s.len() {
        s.len() as int
    } else if spec_is_space(s[i]) {
        spec_trim_start(s, i + 1)
    } else {
        i
    }
}

/// The index one past the last non-space character at or before `j`.
pub open spec fn spec_trim_end(s: Seq<char>, j: int) -> int
    decreases j,
{
    if j <= 0 || j > s.len() {
        0
    } else if spec_is_space(s[j - 1]) {
        spec_trim_end(s, j - 1)
    } else {
        j
    }
}

/// Whether `p` occurs in `s` starting at position `a`.
fn starts_with_at(s: &str, p: &str, a: usize) -> (r: bool)
    requires
        a <= s@.len(),
    ensures
        r == has_prefix(s@.subrange(a as int, s@.len() as int), p@),
{
    let n = s.unicode_len();
    let pn = p.unicode_len();
    if pn > n - a {
        return false;
    }
    let mut j: usize = 0;
    while j < pn
        invariant
            n == s@.len(),
            pn == p@.len(),
            a + pn <= n,
            j <= pn,
            forall|k: int| 0 <= k < j ==> s@[a + k] == p@[k],
        decreases pn - j,
    {
        if s.get_char(a + j) != p.get_char(j) {
            proof {
                assert(s@.subrange(a as int, s@.len() as int).subrange(0, p@.len() as int)[j as int]
                    == s@[a + j]);
            }
            return false;
        }
        j = j + 1;
    }
    proof {
        assert(s@.subrange(a as int, s@.len() as int).subrange(0, p@.len() as int) =~= p@);
    }
    true
}

/// Whether `p` ends exactly at position `b` of `s`.
fn ends_with_at(s: &str, p: &str, b: usize) -> (r: bool)
    requires
        b <= s@.len(),
    ensures
        r == has_suffix(s@.subrange(0, b as int), p@),
{
    let pn = p.unicode_len();
    if pn > b {
        return false;
    }
    let start = b - pn;
    let mut j: usize = 0;
    while j < pn
        invariant
            pn == p@.len(),
            pn <= b,
            b <= s@.len(),
            start == b - pn,
            j <= pn,
            forall|k: int| 0 <= k < j ==> s@[start + k] == p@[k],
        decreases pn - j,
    {
        if s.get_char(start + j) != p.get_char(j) {
            proof {
                let t = s@.subrange(0, b as int);
                assert(t.subrange(t.len() - p@.len(), t.len() as int)[j as int] == s@[start + j]);
            }
            return false;
        }
        j = j + 1;
    }
    proof {
        let t = s@.subrange(0, b as int);
        assert(t.subrange(t.len() - p@.len(), t.len() as int) =~= p@);
    }
    true
}

/// One line of Polly's speech-marks response.
#[derive(Debug, Clone, PartialEq, Eq)]
pub struct SpeechMark {
    pub time: u32,
    pub mark_type: String,
    pub start: Option<u32>,
    pub end: Option<u32>,
    pub value: String,
}

/// The view of a parsed speech mark.
pub type MarkView = (u32, Seq<char>, Option<u32>, Option<u32>, Seq<char>);

/// The speech mark encoded by one JSON line of the response, if the line
/// parses: time, type, optional offsets, value.
pub uninterp spec fn speech_mark_of(line: Seq<char>) -> Option<MarkView>;

/// Relies on `serde_json::from_str`: parses one line of the
/// line-delimited speech-marks response. The result depends on the line
/// text alone.
#[verifier::external_body]
fn parse_speech_mark_line(line: &str) -> (r: Option<SpeechMark>)
    ensures
        match r {
            Some(m) => speech_mark_of(line@) == Some(
                (m.time, m.mark_type@, m.start, m.end, m.value@),
            ),
            None => speech_mark_of(line@) is None,
        },
{
    let v: serde_json::Value = serde_json::from_str(line).ok()?;
    let time = u32::try_from(v.get("time")?.as_u64()?).ok()?;
    let mark_type = v.get("type")?.as_str()?.to_string();
    let start = v.get("start").and_then(|x| x.as_u64()).and_then(|x| u32::try_from(x).ok());
    let end = v.get("end").and_then(|x| x.as_u64()).and_then(|x| u32::try_from(x).ok());
    let value = v.get("value")?.as_str()?.to_string();
    Some(SpeechMark { time, mark_type, start, end, value })
}

/// A line with its trailing carriage return removed.
pub open spec fn spec_strip_cr(l: Seq<char>) -> Seq<char> {
    if l.len() > 0 && l.last() == '\r' {
        l.drop_last()
    } else {
        l
    }
}

/// A line of nothing but ASCII whitespace.
pub open spec fn spec_is_blank(l: Seq<char>) -> bool {
    forall|i: int| 0 <= i < l.len() ==> spec_is_space(#[trigger] l[i])
}

/// The view of a produced timing mark.
pub open spec fn timing_view(t: crate::types::TimingInfo) -> MarkView {
    (t.time_ms, t.mark_type@, t.start_offset, t.end_offset, t.text@)
}

/// The timing marks encoded by a list of lines: blank lines are skipped,
/// every other line must parse; `None` when one does not.
pub open spec fn spec_marks(lines: Seq<Seq<char>>) -> Option<Seq<MarkView>>
    decreases lines.len(),
{
    if lines.len() == 0 {
        Some(Seq::empty())
    } else {
        match spec_marks(lines.drop_last()) {
            None => None,
            Some(pre) => {
                let l = spec_strip_cr(lines.last());
                if spec_is_blank(l) {
                    Some(pre)
                } else {
                    match speech_mark_of(l) {
                        Some(m) => Some(pre.push(m)),
                        None => None,
                    }
                }
            },
        }
    }
}

/// Splits a response body into lines: the returned lines contain no
/// newline and joining them with one yields the body back.
pub fn split_lines(s: &str) -> (r: Vec<String>)
    ensures
        spec_join(r@.map_values(|l: String| l@), "\n"@) == s@,
        forall|k: int|
            0 <= k < r@.len() ==> forall|i: int|
                0 <= i < (#[trigger] r@[k])@.len() ==> r@[k]@[i] != '\n',
{
    proof {
        reveal_strlit("\n");
    }
    let n = s.unicode_len();
    let mut r: Vec<String> = Vec::new();
    let mut start: usize = 0;
    let mut i: usize = 0;
    while i < n
        invariant
            n == s@.len(),
            start <= i <= n,
            start == 0 ==> r@.len() == 0,
            start > 0 ==> r@.len() > 0 && s@[start - 1] == '\n' && spec_join(
                r@.map_values(|l: String| l@),
                "\n"@,
            ) == s@.subrange(0, start - 1),
            forall|j: int| start <= j < i ==> s@[j] != '\n',
            forall|k: int|
                0 <= k < r@.len() ==> forall|q: int|
                    0 <= q < (#[trigger] r@[k])@.len() ==> r@[k]@[q] != '\n',
        decreases n - i,
    {
        if s.get_char(i) == '\n' {
            let line = s.substring_char(start, i).to_owned();
            let ghost pre_views = r@.map_values(|l: String| l@);
            proof {
                reveal_strlit("\n");
                lemma_join_step(pre_views, line@, s@, start as int, i as int);
            }
            r.push(line);
            proof {
                assert(r@.map_values(|l: String| l@) =~= pre_views.push(
                    s@.subrange(start as int, i as int),
                ));
            }
            start = i + 1;
        }
        i = i + 1;
    }
    let line = s.substring_char(start, n).to_owned();
    let ghost pre_views = r@.map_values(|l: String| l@);
    proof {
        reveal_strlit("\n");
        lemma_join_step(pre_views, line@, s@, start as int, n as int);
    }
    r.push(line);
    proof {
        assert(r@.map_values(|l: String| l@) =~= pre_views.push(
            s@.subrange(start as int, n as int),
        ));
        assert(s@.subrange(0, n as int) =~= s@);
    }
    r
}

/// Joining one more line extends the joined prefix across its separator.
proof fn lemma_join_step(pre: Seq<Seq<char>>, line: Seq<char>, s: Seq<char>, start: int, i: int)
    requires
        0 <= start <= i <= s.len(),
        line == s.subrange(start, i),
        start == 0 ==> pre.len() == 0,
        start > 0 ==> pre.len() > 0 && s[start - 1] == '\n' && spec_join(pre, "\n"@) == s.subrange(
            0,
            start - 1,
        ),
    ensures
        spec_join(pre.push(line), "\n"@) == s.subrange(0, i),
{
    reveal_strlit("\n");
    if pre.len() == 0 {
        assert(pre.push(line).len() == 1);
        assert(spec_join(pre.push(line), "\n"@) == pre.push(line)[0]);
        assert(pre.push(line)[0] =~= s.subrange(0, i));
    } else {
        assert(pre.push(line).drop_last() =~= pre);
        assert(pre.push(line).last() == line);
        assert(spec_join(pre.push(line), "\n"@) == spec_join(pre, "\n"@) + "\n"@ + line);
        assert(s.subrange(0, start - 1) + "\n"@ + s.subrange(start, i) =~= s.subrange(0, i));
    }
}

/// Strips one trailing carriage return.
fn strip_cr(line: &String) -> (r: String)
    ensures
        r@ == spec_strip_cr(line@),
{
    let n = line.as_str().unicode_len();
    if n > 0 && line.as_str().get_char(n - 1) == '\r' {
        proof {
            assert(line@.subrange(0, n - 1) =~= line@.drop_last());
        }
        line.as_str().substring_char(0, n - 1).to_owned()
    } else {
        line.clone()
    }
}

/// Whether a line is nothing but whitespace.
fn is_blank(line: &String) -> (r: bool)
    ensures
        r == spec_is_blank(line@),
{
    let n = line.as_str().unicode_len();
    let mut i: usize = 0;
    while i < n
        invariant
            n == line@.len(),
            i <= n,
            forall|k: int| 0 <= k < i ==> spec_is_space(#[trigger] line@[k]),
        decreases n - i,
    {
        if !is_space(line.as_str().get_char(i)) {
            return false;
        }
        i = i + 1;
    }
    true
}

/// Parses a list of response lines into timing marks: blank lines are
/// skipped; one malformed line fails the whole parse with
/// `InternalError`.
pub fn marks_from_lines(lines: &Vec<String>) -> (r: Result<
    Vec<crate::types::TimingInfo>,
    DomainError,
>)
    ensures
        match spec_marks(lines@.map_values(|l: String| l@)) {
            Some(ms) => match r {
                Ok(ts) => ts@.map_values(|t: crate::types::TimingInfo| timing_view(t)) == ms,
                Err(_) => false,
            },
            None => r is Err && r->Err_0 is InternalError,
        },
{
    proof {
        reveal_strlit("malformed speech mark line");
    }
    let ghost line_views = lines@.map_values(|l: String| l@);
    let total = lines.len();
    let mut marks: Vec<crate::types::TimingInfo> = Vec::new();
    let mut i: usize = 0;
    while i < total
        invariant
            line_views == lines@.map_values(|l: String| l@),
            total == lines@.len(),
            i <= total,
            spec_marks(line_views.subrange(0, i as int)) == Some(
                marks@.map_values(|t: crate::types::TimingInfo| timing_view(t)),
            ),
        decreases total - i,
    {
        let stripped = strip_cr(&lines[i]);
        proof {
            assert(line_views.subrange(0, i + 1).drop_last() =~= line_views.subrange(0, i as int));
            assert(line_views.subrange(0, i + 1).last() == line_views[i as int]);
        }
        if !is_blank(&stripped) {
            match parse_speech_mark_line(stripped.as_str()) {
                Some(m) => {
                    marks.push(
                        crate::types::TimingInfo {
                            time_ms: m.time,
                            mark_type: m.mark_type,
                            text: m.value,
                            start_offset: m.start,
                            end_offset: m.end,
                        },
                    );
                    proof {
                        assert(marks@.map_values(|t: crate::types::TimingInfo| timing_view(t))
                            =~= marks@.map_values(
                            |t: crate::types::TimingInfo| timing_view(t),
                        ).subrange(0, marks@.len() - 1).push(timing_view(marks@.last())));
                    }
                },
                None => {
                    proof {
                        assert(spec_marks(line_views.subrange(0, i + 1)) is None);
                        lemma_marks_none_prefix(line_views, i + 1);
                    }
                    return Err(
                        DomainError::InternalError(
                            String::from_str("malformed speech mark line"),
                        ),
                    );
                },
            }
        }
        i = i + 1;
    }
    proof {
        assert(line_views.subrange(0, total as int) =~= line_views);
    }
    Ok(marks)
}

/// A failed prefix fails the whole parse.
proof fn lemma_marks_none_prefix(lines: Seq<Seq<char>>, i: int)
    requires
        0 <= i <= lines.len(),
        spec_marks(lines.subrange(0, i)) is None,
    ensures
        spec_marks(lines) is None,
    decreases lines.len() - i,
{
    if i < lines.len() {
        assert(lines.subrange(0, i + 1).drop_last() =~= lines.subrange(0, i));
        lemma_marks_none_prefix(lines, i + 1);
    } else {
        assert(lines.subrange(0, i) =~= lines);
    }
}

/// Parses Polly's line-delimited speech-marks response: the body splits
/// uniquely into newline-free lines; blank lines are skipped and every
/// other line must parse into one mark.
pub fn speech_marks_from_body(body: &str) -> (r: Result<
    Vec<crate::types::TimingInfo>,
    DomainError,
>)
    ensures
        exists|lines: Seq<Seq<char>>|
            {
                &&& #[trigger] spec_join(lines, "\n"@) == body@
                &&& (forall|k: int|
                    0 <= k < lines.len() ==> forall|q: int|
                        0 <= q < (#[trigger] lines[k]).len() ==> lines[k][q] != '\n')
                &&& (match spec_marks(lines) {
                    Some(ms) => r matches Ok(ts) && ts@.map_values(
                        |t: crate::types::TimingInfo| timing_view(t),
                    ) == ms,
                    None => r is Err && r->Err_0 is InternalError,
                })
            },
{
    let lines = split_lines(body);
    let r = marks_from_lines(&lines);
    proof {
        let ghost witness = lines@.map_values(|l: String| l@);
        assert(spec_join(witness, "\n"@) == body@);
    }
    r
}

} // verus!
