//! Provider-independent synthesis logic: the empty-text check that guards
//! every synthesis call, pure input validation against a provider's
//! character limit, duration estimation from byte length, and the
//! all-or-nothing collection of batch outcomes.

use vstd::prelude::*;

verus! {

use vstd::string::StringExecFns;
use crate::error::{DomainError, err_view};
use crate::types::{TextInput, ValidationResult, SynthesisResult};

/// Rejects empty input before anything else happens: a synthesis call with
/// empty text yields `InvalidText` without any network work.
pub fn synthesize_precheck(input: &TextInput) -> (r: Result<(), DomainError>)
    ensures
        r is Ok <==> input.content@.len() > 0,
        r is Err ==> err_view(r->Err_0) == (5int, "Text cannot be empty"@, 0int),
{
    proof {
        reveal_strlit("Text cannot be empty");
    }
    if input.content.as_str().unicode_len() == 0 {
        Err(DomainError::InvalidText(String::from_str("Text cannot be empty")))
    } else {
        Ok(())
    }
}

/// What `validate_input_core` reports for a character count `n` against a
/// limit: valid exactly when `1 <= n <= max_chars`.
pub open spec fn spec_valid_length(n: nat, max_chars: u32) -> bool {
    1 <= n <= max_chars
}

/// Pure validation of an input against a provider's character limit:
/// never touches the network. The count saturates at `u32::MAX`; the
/// estimated duration is fifty milliseconds per character; one warning
/// appears above `warn_threshold` characters, one error when the length
/// is out of range.
pub fn validate_input_core(
    input: &TextInput,
    max_chars: u32,
    warn_threshold: u32,
    warn_msg: &str,
    error_msg: &str,
) -> (r: ValidationResult)
    ensures
        r.is_valid == spec_valid_length(input.content@.len(), max_chars),
        input.content@.len() <= u32::MAX ==> r.character_count == input.content@.len(),
        input.content@.len() > u32::MAX ==> r.character_count == u32::MAX,
        r.estimated_duration_ms matches Some(d) && d == r.character_count * 50,
        input.content@.len() > warn_threshold ==> r.warnings@.len() == 1 && r.warnings@[0]@
            == warn_msg@,
        input.content@.len() <= warn_threshold ==> r.warnings@.len() == 0,
        !r.is_valid ==> r.errors@.len() == 1 && r.errors@[0]@ == error_msg@,
        r.is_valid ==> r.errors@.len() == 0,
{
    let n = input.content.as_str().unicode_len();
    let character_count: u32 = if n > u32::MAX as usize {
        u32::MAX
    } else {
        n as u32
    };
    let is_valid = n > 0 && n <= max_chars as usize;
    let mut warnings: Vec<String> = Vec::new();
    if n > warn_threshold as usize {
        warnings.push(warn_msg.to_owned());
    }
    let mut errors: Vec<String> = Vec::new();
    if !is_valid {
        errors.push(error_msg.to_owned());
    }
    ValidationResult {
        is_valid,
        character_count,
        estimated_duration_ms: Some(character_count as u64 * 50),
        warnings,
        errors,
    }
}

/// The nominal bytes-per-second of linear16 audio at a sample rate, as the
/// duration estimator assumes it.
pub open spec fn spec_bytes_per_second(sample_rate: u32) -> int {
    if sample_rate == 8000 {
        16000
    } else if sample_rate == 16000 {
        32000
    } else if sample_rate == 22050 {
        44100
    } else if sample_rate == 24000 {
        48000
    } else if sample_rate == 48000 {
        96000
    } else {
        48000
    }
}

/// Estimates audio duration in milliseconds from byte length and nominal
/// bitrate; not decoded audio time. Saturates at `u64::MAX` milliseconds.
pub fn estimate_audio_duration_ms(audio_len: usize, sample_rate: u32) -> (r: u64)
    ensures
        audio_len * 1000 / spec_bytes_per_second(sample_rate) <= u64::MAX ==> r == audio_len * 1000
            / spec_bytes_per_second(sample_rate),
{
    let bps: u64 = if sample_rate == 8000 {
        16000
    } else if sample_rate == 16000 {
        32000
    } else if sample_rate == 22050 {
        44100
    } else if sample_rate == 24000 {
        48000
    } else if sample_rate == 48000 {
        96000
    } else {
        48000
    };
    let product: u128 = audio_len as u128 * 1000;
    let ms: u128 = product / bps as u128;
    if ms > u64::MAX as u128 {
        u64::MAX
    } else {
        ms as u64
    }
}

/// The index of the first failed outcome, if any, scanning from `i`.
pub open spec fn first_err_from(s: Seq<Result<SynthesisResult, DomainError>>, i: int) -> Option<
    int,
>
    decreases s.len() - i,
{
    if i < 0 || i >= s.len() {
        None
    } else if s[i] is Err {
        Some(i)
    } else {
        first_err_from(s, i + 1)
    }
}

/// The index of the first failed outcome, if any.
pub open spec fn first_err(s: Seq<Result<SynthesisResult, DomainError>>) -> Option<int> {
    first_err_from(s, 0)
}

/// Collects batch outcomes with all-or-nothing semantics: if every
/// per-input synthesis succeeded, all results come back in order; the
/// first failure aborts the whole batch and is returned alone.
pub fn collect_batch(outcomes: Vec<Result<SynthesisResult, DomainError>>) -> (r: Result<
    Vec<SynthesisResult>,
    DomainError,
>)
    ensures
        match first_err(outcomes@) {
            None => match r {
                Ok(rs) => rs@.len() == outcomes@.len() && (forall|k: int|
                    0 <= k < rs@.len() ==> rs@[k] == outcomes@[k]->Ok_0),
                Err(_) => false,
            },
            Some(i) => r == Err::<Vec<SynthesisResult>, DomainError>(outcomes@[i]->Err_0),
        },
{
    let ghost orig = outcomes@;
    let total = outcomes.len();
    let mut rest = outcomes;
    let mut rs: Vec<SynthesisResult> = Vec::new();
    let mut i: usize = 0;
    while i < total
        invariant
            orig == outcomes@,
            total == orig.len(),
            rest@ == orig.subrange(i as int, orig.len() as int),
            i <= orig.len(),
            rs@.len() == i,
            forall|k: int| 0 <= k < i ==> (#[trigger] orig[k]) is Ok,
            forall|k: int| 0 <= k < i ==> #[trigger] rs@[k] == orig[k]->Ok_0,
            first_err(orig) == first_err_from(orig, i as int),
        decreases orig.len() - i,
    {
        let outcome = rest.remove(0);
        proof {
            assert(outcome == orig[i as int]);
        }
        match outcome {
            Ok(s) => {
                rs.push(s);
                proof {
                    assert(rs@[i as int] == orig[i as int]->Ok_0);
                }
            },
            Err(e) => {
                proof {
                    assert(first_err_from(orig, i as int) == Some(i as int));
                }
                return Err(e);
            },
        }
        i = i + 1;
        proof {
            assert(rest@ =~= orig.subrange(i as int, orig.len() as int));
        }
    }
    Ok(rs)
}

} // verus!
