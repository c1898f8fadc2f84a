//! Configuration validation. The surrounding runtime reads the named
//! environment variables and hands the raw values in; the rules here
//! decide what counts as present, what falls back, and how integers are
//! read, so that a missing required value is always `InvalidConfiguration`
//! and never a crash.

use vstd::prelude::*;

verus! {

use vstd::string::StringExecFns;
use crate::error::{DomainError, err_view};
use crate::text::{parse_u64, is_digits, dec_val};

/// Requires a configuration value to be present and non-empty; a missing
/// or empty value is `InvalidConfiguration` naming the variable.
pub fn config_value(key: &str, value: Option<String>) -> (r: Result<String, DomainError>)
    ensures
        match value {
            Some(v) => if v@.len() > 0 {
                r == Ok::<String, DomainError>(v)
            } else {
                r is Err
            },
            None => r is Err,
        },
        r is Err ==> err_view(r->Err_0) == (
            6int,
            "Required environment variable "@ + key@ + " not set or empty"@,
            0int,
        ),
{
    proof {
        reveal_strlit("Required environment variable ");
        reveal_strlit(" not set or empty");
    }
    match value {
        Some(v) => {
            if v.as_str().unicode_len() > 0 {
                return Ok(v);
            }
        },
        None => {},
    }
    let mut msg = String::from_str("Required environment variable ");
    msg.append(key);
    msg.append(" not set or empty");
    proof {
        assert("Required environment variable "@ + key@ + " not set or empty"@ =~= ((
        "Required environment variable "@ + key@) + " not set or empty"@));
    }
    Err(DomainError::InvalidConfiguration(msg))
}

/// An optional configuration value: present only when non-empty.
pub fn optional_config(value: Option<String>) -> (r: Option<String>)
    ensures
        match value {
            Some(v) => if v@.len() > 0 {
                r == Some(v)
            } else {
                r is None
            },
            None => r is None,
        },
{
    match value {
        Some(v) => {
            if v.as_str().unicode_len() > 0 {
                Some(v)
            } else {
                None
            }
        },
        None => None,
    }
}

/// A configuration value with a fallback: the value when present and
/// non-empty, the default otherwise.
pub fn config_or_default(value: Option<String>, default: &str) -> (r: String)
    ensures
        match value {
            Some(v) => if v@.len() > 0 {
                r == v
            } else {
                r@ == default@
            },
            None => r@ == default@,
        },
{
    match optional_config(value) {
        Some(v) => v,
        None => default.to_owned(),
    }
}

/// An integer configuration value: the decimal value when the string is
/// all digits and fits, the default otherwise.
pub fn parse_config_u32(value: Option<String>, default: u32) -> (r: u32)
    ensures
        match value {
            Some(v) => if is_digits(v@) && dec_val(v@) <= u32::MAX {
                r == dec_val(v@)
            } else {
                r == default
            },
            None => r == default,
        },
{
    match value {
        Some(v) => match parse_u64(v.as_str()) {
            Some(n) => {
                if n <= u32::MAX as u64 {
                    n as u32
                } else {
                    default
                }
            },
            None => default,
        },
        None => default,
    }
}

} // verus!
