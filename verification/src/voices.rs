//! Client-side voice search and filtering, shared by every provider: a
//! case-insensitive substring match on name and description, then an
//! optional filter by language prefix and gender equality.

use vstd::prelude::*;

verus! {

use crate::text::{contains_ci, contains_ci_str, has_prefix, starts_with_str};
use crate::types::{VoiceInfo, VoiceFilter};

/// The query matches a voice: a case-insensitive substring of its name or
/// of its description.
pub open spec fn spec_query_matches(v: VoiceInfo, q: Seq<char>) -> bool {
    contains_ci(v.name@, q) || match v.description {
        Some(d) => contains_ci(d@, q),
        None => false,
    }
}

/// The optional filter accepts a voice: the language filter is a prefix of
/// the voice's language, and the gender filter equals the voice's gender.
pub open spec fn spec_filter_accepts(v: VoiceInfo, f: Option<VoiceFilter>) -> bool {
    match f {
        None => true,
        Some(f) => (match f.language {
            Some(l) => has_prefix(v.language@, l@),
            None => true,
        }) && (match f.gender {
            Some(g) => v.gender == g,
            None => true,
        }),
    }
}

/// A voice survives the search: it matches the query and the filter.
pub open spec fn spec_search_keeps(v: VoiceInfo, q: Seq<char>, f: Option<VoiceFilter>) -> bool {
    spec_query_matches(v, q) && spec_filter_accepts(v, f)
}

/// The subsequence of voices that survive the search, in order.
pub open spec fn spec_search(s: Seq<VoiceInfo>, q: Seq<char>, f: Option<VoiceFilter>) -> Seq<
    VoiceInfo,
>
    decreases s.len(),
{
    if s.len() == 0 {
        Seq::empty()
    } else if spec_search_keeps(s.last(), q, f) {
        spec_search(s.drop_last(), q, f).push(s.last())
    } else {
        spec_search(s.drop_last(), q, f)
    }
}

/// Whether this voice matches the query (name or description, ASCII
/// case-insensitive).
pub fn query_matches(v: &VoiceInfo, query: &String) -> (r: bool)
    ensures
        r == spec_query_matches(*v, query@),
{
    if contains_ci_str(v.name.as_str(), query.as_str()) {
        return true;
    }
    match &v.description {
        Some(d) => contains_ci_str(d.as_str(), query.as_str()),
        None => false,
    }
}

/// Whether the optional filter accepts this voice.
pub fn filter_accepts(v: &VoiceInfo, filter: &Option<VoiceFilter>) -> (r: bool)
    ensures
        r == spec_filter_accepts(*v, *filter),
{
    match filter {
        None => true,
        Some(f) => {
            let lang_ok = match &f.language {
                Some(l) => starts_with_str(v.language.as_str(), l.as_str()),
                None => true,
            };
            let gender_ok = match f.gender {
                Some(g) => v.gender == g,
                None => true,
            };
            lang_ok && gender_ok
        },
    }
}

/// Searches a voice list: keeps, in order, exactly the voices that match
/// the query and pass the filter.
pub fn filter_voices(voices: Vec<VoiceInfo>, query: &String, filter: &Option<VoiceFilter>) -> (r:
    Vec<VoiceInfo>)
    ensures
        r@ == spec_search(voices@, query@, *filter),
{
    let ghost orig = voices@;
    let total = voices.len();
    let mut rest = voices;
    let mut r: Vec<VoiceInfo> = Vec::new();
    let mut i: usize = 0;
    while i < total
        invariant
            orig == voices@,
            total == orig.len(),
            i <= total,
            rest@ == orig.subrange(i as int, orig.len() as int),
            r@ == spec_search(orig.subrange(0, i as int), query@, *filter),
        decreases total - i,
    {
        let v = rest.remove(0);
        proof {
            assert(v == orig[i as int]);
        }
        let keep = query_matches(&v, query) && filter_accepts(&v, filter);
        if keep {
            r.push(v);
        }
        i = i + 1;
        proof {
            assert(rest@ =~= orig.subrange(i as int, orig.len() as int));
            assert(orig.subrange(0, i as int).drop_last() =~= orig.subrange(0, i - 1));
            assert(orig.subrange(0, i as int).last() == orig[i - 1]);
        }
    }
    proof {
        assert(orig.subrange(0, total as int) =~= orig);
    }
    r
}

} // verus!
