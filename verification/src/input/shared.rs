//! Coercion helpers shared by the input adapters: text to bool, text to
//! int, 0/1 to bool, whole float to int, and byte-string decoding.
use vstd::prelude::*;

use crate::input::input_json::FloatRepr;
use crate::strutil::{ci_eq, spec_str_to_i64, str_ci_eq};

verus! {

/// Case-insensitive membership in the fixed truthy / falsy string sets:
/// `{"1","on","t","true","y","yes"}` yields true, `{"0","off","f","false",
/// "n","no"}` yields false, anything else does not parse.
pub open spec fn spec_str_as_bool(s: Seq<char>) -> Option<bool> {
    if ci_eq(s, "1"@) || ci_eq(s, "on"@) || ci_eq(s, "t"@) || ci_eq(s, "true"@) || ci_eq(s, "y"@)
        || ci_eq(s, "yes"@) {
        Some(true)
    } else if ci_eq(s, "0"@) || ci_eq(s, "off"@) || ci_eq(s, "f"@) || ci_eq(s, "false"@) || ci_eq(
        s,
        "n"@,
    ) || ci_eq(s, "no"@) {
        Some(false)
    } else {
        None
    }
}

pub fn str_as_bool(s: &str) -> (r: Option<bool>)
    ensures
        r == spec_str_as_bool(s@),
{
    if str_ci_eq(s, "1") || str_ci_eq(s, "on") || str_ci_eq(s, "t") || str_ci_eq(s, "true")
        || str_ci_eq(s, "y") || str_ci_eq(s, "yes") {
        Some(true)
    } else if str_ci_eq(s, "0") || str_ci_eq(s, "off") || str_ci_eq(s, "f") || str_ci_eq(s, "false")
        || str_ci_eq(s, "n") || str_ci_eq(s, "no") {
        Some(false)
    } else {
        None
    }
}

/// 0 and 1 are the only integers that coerce to a bool.
pub open spec fn spec_int_as_bool(i: i64) -> Option<bool> {
    if i == 0 {
        Some(false)
    } else if i == 1 {
        Some(true)
    } else {
        None
    }
}

pub fn int_as_bool(i: i64) -> (r: Option<bool>)
    ensures
        r == spec_int_as_bool(i),
{
    if i == 0 {
        Some(false)
    } else if i == 1 {
        Some(true)
    } else {
        None
    }
}

/// A string parses as an integer exactly when it is an optionally signed
/// run of decimal digits whose value fits in `i64`.
pub open spec fn spec_str_as_int(s: Seq<char>) -> Option<i64> {
    spec_str_to_i64(s)
}

pub fn str_as_int(s: &str) -> (r: Option<i64>)
    ensures
        r == spec_str_as_int(s@),
{
    crate::strutil::parse_i64(s)
}

/// A float coerces to an integer only when it is exactly whole.
pub open spec fn spec_float_as_int(f: crate::input::input_json::FloatReprView) -> Option<i64> {
    f.whole
}

pub fn float_as_int(f: &FloatRepr) -> (r: Option<i64>)
    ensures
        r == spec_float_as_int(f@),
{
    f.whole
}

/// The characters a byte string decodes to, when it is well-formed UTF-8.
pub uninterp spec fn utf8_chars(b: Seq<u8>) -> Option<Seq<char>>;

/// Relies on std's `str::from_utf8`: decoding a byte slice succeeds exactly
/// on well-formed UTF-8, and the result depends on the bytes alone.
#[verifier::external_body]
pub fn bytes_as_string(b: &Vec<u8>) -> (r: Option<String>)
    ensures
        match r {
            Some(s) => utf8_chars(b@) == Some(s@),
            None => utf8_chars(b@) is None,
        },
{
    match std::str::from_utf8(b.as_slice()) {
        Ok(s) => Some(s.to_string()),
        Err(_) => None,
    }
}

} // verus!
