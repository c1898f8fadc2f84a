//! Translation of provider HTTP failures into the domain error taxonomy.
//!
//! Given a non-success status and the provider's error body, exactly one
//! `DomainError` is produced: 401 is `Unauthorized`, 403 `AccessDenied`,
//! 429 `RateLimited(60)`, 503 `ServiceUnavailable`; a 400 body mentioning
//! "too long" is `TextTooLong`, one mentioning "SSML" is `InvalidSsml`,
//! any other 400 `InvalidText`; a 404 body mentioning "voice" is
//! `VoiceNotFound`, any other 404 `ServiceUnavailable`; everything else is
//! `SynthesisFailed` with a "status: body" message.

use vstd::prelude::*;

verus! {

use vstd::string::StringExecFns;
use crate::error::{DomainError, err_view};
use crate::text::{contains_seq, contains_chars, push_dec_u64, spec_dec_u64};

/// The `message` (or `detail`) string field of a JSON error body, if the
/// body is a JSON object carrying one.
pub uninterp spec fn json_message_of(body: Seq<char>) -> Option<Seq<char>>;

/// Relies on `serde_json::from_str` and `serde_json::Value::get`/`as_str`:
/// extracts the `message` or `detail` string field of a JSON object body.
/// The result depends on the body text alone.
#[verifier::external_body]
fn json_message_field(body: &str) -> (r: Option<String>)
    ensures
        match r {
            Some(m) => json_message_of(body@) == Some(m@),
            None => json_message_of(body@) is None,
        },
{
    match serde_json::from_str::<serde_json::Value>(body) {
        Ok(v) => v
            .get("message")
            .or_else(|| v.get("detail"))
            .and_then(|m| m.as_str())
            .map(|s| s.to_string()),
        Err(_) => None,
    }
}

/// The message used for classification: the extracted JSON field where the
/// body carries one, otherwise the raw body.
pub open spec fn effective_message(body: Seq<char>) -> Seq<char> {
    match json_message_of(body) {
        Some(m) => m,
        None => body,
    }
}

/// The classification of a non-success status with effective message `msg`,
/// given as an error view: variant index, message view, numeric payload
/// (see `err_view`). `provider_max` is the provider's character limit,
/// reported inside `TextTooLong`.
pub open spec fn spec_classify_status(status: u16, msg: Seq<char>, provider_max: u32) -> (
    int,
    Seq<char>,
    int,
) {
    if status == 401 {
        (1int, msg, 0int)
    } else if status == 403 {
        (2int, msg, 0int)
    } else if status == 429 {
        (3int, Seq::<char>::empty(), 60int)
    } else if status == 503 {
        (4int, msg, 0int)
    } else if status == 400 {
        if contains_seq(msg, "too long"@) {
            (8int, Seq::<char>::empty(), provider_max as int)
        } else if contains_seq(msg, "SSML"@) {
            (9int, msg, 0int)
        } else {
            (5int, msg, 0int)
        }
    } else if status == 404 {
        if contains_seq(msg, "voice"@) {
            (7int, msg, 0int)
        } else {
            (4int, msg, 0int)
        }
    } else {
        (10int, "HTTP "@ + spec_dec_u64(status as nat) + ": "@ + msg, 0int)
    }
}

/// Classifies a non-success HTTP status with its effective message.
pub fn classify_status(status: u16, msg: &String, provider_max: u32) -> (r: DomainError)
    ensures
        err_view(r) == spec_classify_status(status, msg@, provider_max),
{
    proof {
        reveal_strlit("too long");
        reveal_strlit("SSML");
        reveal_strlit("voice");
        reveal_strlit("HTTP ");
        reveal_strlit(": ");
    }
    if status == 401 {
        DomainError::Unauthorized(msg.clone())
    } else if status == 403 {
        DomainError::AccessDenied(msg.clone())
    } else if status == 429 {
        DomainError::RateLimited(60)
    } else if status == 503 {
        DomainError::ServiceUnavailable(msg.clone())
    } else if status == 400 {
        if contains_plain(msg, "too long") {
            DomainError::TextTooLong(provider_max)
        } else if contains_plain(msg, "SSML") {
            DomainError::InvalidSsml(msg.clone())
        } else {
            DomainError::InvalidText(msg.clone())
        }
    } else if status == 404 {
        if contains_plain(msg, "voice") {
            DomainError::VoiceNotFound(msg.clone())
        } else {
            DomainError::ServiceUnavailable(msg.clone())
        }
    } else {
        let mut s = String::from_str("HTTP ");
        push_dec_u64(&mut s, status as u64);
        s.append(": ");
        s.append(msg.as_str());
        proof {
            assert("HTTP "@ + spec_dec_u64(status as nat) + ": "@ + msg@ =~= (("HTTP "@
                + spec_dec_u64(status as nat)) + ": "@) + msg@);
        }
        DomainError::SynthesisFailed(s)
    }
}

/// Case-sensitive containment of `needle` in `hay`.
fn contains_plain(hay: &String, needle: &str) -> (r: bool)
    ensures
        r == contains_seq(hay@, needle@),
{
    let h = chars_of(hay.as_str());
    let n = chars_of(needle);
    contains_chars(&h, &n)
}

/// The characters of `s`, unchanged.
fn chars_of(s: &str) -> (r: Vec<char>)
    ensures
        r@ == s@,
{
    let n = s.unicode_len();
    let mut r: Vec<char> = Vec::new();
    let mut i: usize = 0;
    while i < n
        invariant
            n == s@.len(),
            i <= n,
            r@ == s@.subrange(0, i as int),
        decreases n - i,
    {
        r.push(s.get_char(i));
        proof {
            assert(s@.subrange(0, i + 1) =~= s@.subrange(0, i as int).push(s@[i as int]));
        }
        i = i + 1;
    }
    proof {
        assert(s@.subrange(0, n as int) =~= s@);
    }
    r
}

/// Translates a non-success provider response into a domain error: the JSON
/// `message`/`detail` field is extracted where the body carries one, the raw
/// body stands in otherwise, and the status rules above decide the variant.
pub fn error_from_status_body(status: u16, body: &String, provider_max: u32) -> (r: DomainError)
    ensures
        err_view(r) == spec_classify_status(status, effective_message(body@), provider_max),
{
    let msg = extract_message(body);
    classify_status(status, &msg, provider_max)
}

/// The effective message of an error body: the extracted JSON field when
/// the body carries one, otherwise the raw body.
pub fn extract_message(body: &String) -> (r: String)
    ensures
        r@ == effective_message(body@),
{
    match json_message_field(body.as_str()) {
        Some(m) => m,
        None => body.clone(),
    }
}

/// The classification of a bare status with no body, as the retry loop maps
/// plain HTTP failures.
pub open spec fn spec_error_from_status(status: u16) -> (int, Seq<char>, int) {
    spec_classify_status(status, Seq::<char>::empty(), 0)
}

/// Maps an HTTP status alone (no error body) to a domain error.
pub fn tts_error_from_status(status: u16) -> (r: DomainError)
    ensures
        err_view(r) == spec_error_from_status(status),
{
    let empty = String::new();
    let r = classify_status(status, &empty, 0);
    proof {
        assert(empty@ =~= Seq::<char>::empty());
    }
    r
}

} // verus!
