//! The request normalizer: extraction of canonical fields from a loosely
//! structured request envelope.
//!
//! Every extraction follows a documented fallback precedence: a scoped
//! sub-object of the envelope (`body`, `path_params` or `query_params`) is
//! preferred, the envelope's own top level is the fallback. A required field
//! that every fallback misses yields a `Handler` error naming the field,
//! before any remote call is made.

use vstd::prelude::*;
use crate::json::JVal;
use crate::text::is_true_ci;

verus! {

/// The boolean read by [`parse_bool_param`]: from the `query_params`
/// sub-object if present, else the envelope itself; `true` only for the
/// boolean `true` or a string equal to `"true"` ignoring ASCII case.
pub open spec fn spec_bool_param(input: JVal, key: Seq<char>) -> bool {
    let params = match input.spec_get("query_params"@) {
        Some(p) => p,
        None => input,
    };
    match params.spec_get(key) {
        Some(JVal::Bool(b)) => b,
        Some(JVal::Str(s)) => is_true_ci(s@),
        _ => false,
    }
}

/// Parses a boolean flag, coercing the strings `"true"`/`"false"` in any
/// ASCII case; any other shape (absent key, number, array, other string)
/// reads as `false`.
pub fn parse_bool_param(input: &JVal, key: &str) -> (r: bool)
    ensures
        r == spec_bool_param(*input, key@),
{
    let params = match input.get("query_params") {
        Some(p) => p,
        None => input,
    };
    match params.get(key) {
        Some(JVal::Bool(b)) => *b,
        Some(JVal::Str(s)) => crate::text::eq_true_ignore_case(s.as_str()),
        _ => false,
    }
}

/// The string field read by [`get_scoped_str`]: `input.scope.key` if it is a
/// string, else `input.key` if it is a string.
pub open spec fn spec_scoped_str(input: JVal, scope: Seq<char>, key: Seq<char>) -> Option<
    Seq<char>,
> {
    let from_scope = match input.spec_get(scope) {
        Some(sub) => sub.spec_get_str(key),
        None => None,
    };
    match from_scope {
        Some(s) => Some(s),
        None => input.spec_get_str(key),
    }
}

/// Extracts a string field with scoped-then-top-level precedence.
pub fn get_scoped_str(input: &JVal, scope: &str, key: &str) -> (r: Option<String>)
    ensures
        match r {
            Some(s) => spec_scoped_str(*input, scope@, key@) == Some(s@),
            None => spec_scoped_str(*input, scope@, key@) is None,
        },
{
    let from_scope = match input.get(scope) {
        Some(sub) => sub.get_str(key),
        None => None,
    };
    match from_scope {
        Some(s) => Some(s),
        None => input.get_str(key),
    }
}

/// The value read by [`take_scoped`]: `input.scope.key` if present, else
/// `input.key`.
pub open spec fn spec_scoped(input: JVal, scope: Seq<char>, key: Seq<char>) -> Option<JVal> {
    let from_scope = match input.spec_get(scope) {
        Some(sub) => sub.spec_get(key),
        None => None,
    };
    match from_scope {
        Some(v) => Some(v),
        None => input.spec_get(key),
    }
}

/// Extracts a field by move, with scoped-then-top-level precedence.
pub fn take_scoped(input: JVal, scope: &str, key: &str) -> (r: Option<JVal>)
    requires
        scope@ != key@,
    ensures
        match r {
            Some(v) => spec_scoped(input, scope@, key@) == Some(v),
            None => spec_scoped(input, scope@, key@) is None,
        },
{
    let (sub, rest) = input.take(scope);
    match sub {
        Some(sub) => {
            let (v, _) = sub.take(key);
            match v {
                Some(v) => Some(v),
                None => {
                    let (top, _) = rest.take(key);
                    proof {
                        assert(rest.spec_get(key@) == input.spec_get(key@));
                    }
                    top
                },
            }
        },
        None => {
            let (top, _) = rest.take(key);
            top
        },
    }
}

/// The effective payload of a pass-through endpoint: the envelope's `body` if
/// present, else the envelope itself.
pub open spec fn spec_effective_input(input: JVal) -> JVal {
    match input.spec_get("body"@) {
        Some(b) => b,
        None => input,
    }
}

/// Unwraps the `body` sub-object, falling back to the whole envelope.
pub fn effective_input(input: JVal) -> (r: JVal)
    ensures
        r == spec_effective_input(input),
{
    let (body, rest) = input.take("body");
    match body {
        Some(b) => b,
        None => rest,
    }
}

} // verus!
