//! The cron re-invocation resolver: from a trigger id to the function to
//! invoke and the synthesized cron payload.
//!
//! A caller-supplied `function_id` short-circuits the lookup. Otherwise the
//! full trigger list is fetched and the entry whose `id` matches decides:
//! absence, a non-cron type, and a missing or empty `function_id` each yield
//! their own `Handler` error naming the trigger.

use vstd::prelude::*;
use vstd::string::*;
use crate::json::JVal;
use crate::error::{Error, is_error_envelope, is_success_envelope, envelope_body,
    success_response, error_response};
use crate::normalize::spec_scoped_str;
use crate::rpc::{RpcRequest, field_is, obj1, obj3, obj6, TIMEOUT_READ, TIMEOUT_INVOKE};
use crate::text::str_eq;

verus! {

/// Parses the cron endpoint's request: the non-empty `trigger_id` is
/// required, a caller-supplied `function_id` is optional, both read from the
/// body with top-level fallback.
pub fn cron_trigger_parse(input: &JVal) -> (r: Result<(String, Option<String>), Error>)
    ensures
        match r {
            Ok((tid, fid)) => {
                &&& spec_scoped_str(*input, "body"@, "trigger_id"@) == Some(tid@)
                &&& tid@.len() > 0
                &&& match fid {
                    Some(f) => spec_scoped_str(*input, "body"@, "function_id"@) == Some(f@),
                    None => spec_scoped_str(*input, "body"@, "function_id"@) is None,
                }
            },
            Err(e) => {
                &&& match spec_scoped_str(*input, "body"@, "trigger_id"@) {
                    Some(t) => t.len() == 0,
                    None => true,
                }
                &&& e matches Error::Handler(m) && m@ == "Missing trigger_id in request"@
            },
        },
{
    let trigger_id = match crate::normalize::get_scoped_str(input, "body", "trigger_id") {
        Some(t) => t,
        None => {
            return Err(Error::Handler(String::from_str("Missing trigger_id in request")));
        },
    };
    if trigger_id.as_str().unicode_len() == 0 {
        return Err(Error::Handler(String::from_str("Missing trigger_id in request")));
    }
    let function_id = crate::normalize::get_scoped_str(input, "body", "function_id");
    Ok((trigger_id, function_id))
}

/// The resolver's trigger-list call: the full list, internal included.
pub fn cron_triggers_list_request() -> (r: RpcRequest)
    ensures
        r.procedure@ == "engine::triggers::list"@,
        r.payload matches JVal::Obj(f) && f@.len() == 1 && field_is(
            f@,
            0,
            "include_internal"@,
            JVal::Bool(true),
        ),
        r.timeout_secs == TIMEOUT_READ,
{
    RpcRequest {
        procedure: String::from_str("engine::triggers::list"),
        payload: obj1("include_internal", JVal::Bool(true)),
        timeout_secs: TIMEOUT_READ,
    }
}

/// First entry whose `id` string equals `tid`.
pub open spec fn spec_find_trigger(items: Seq<JVal>, tid: Seq<char>) -> Option<JVal>
    decreases items.len(),
{
    if items.len() == 0 {
        None
    } else if items[0].spec_get_str("id"@) == Some(tid) {
        Some(items[0])
    } else {
        spec_find_trigger(items.drop_first(), tid)
    }
}

/// The entry the resolver works from: the first match in the listing's
/// `triggers` array, or nothing when the array is absent or no id matches.
pub open spec fn spec_matched_trigger(triggers_data: JVal, tid: Seq<char>) -> Option<JVal> {
    match triggers_data.spec_get("triggers"@) {
        Some(JVal::Arr(items)) => spec_find_trigger(items@, tid),
        _ => None,
    }
}

/// An entry's trigger type, an absent or non-string field reading as empty.
pub open spec fn spec_trigger_type_of(t: JVal) -> Seq<char> {
    match t.spec_get_str("trigger_type"@) {
        Some(s) => s,
        None => Seq::empty(),
    }
}

proof fn lemma_find_trigger_hit(items: Seq<JVal>, tid: Seq<char>, k: int)
    requires
        0 <= k < items.len(),
        items[k].spec_get_str("id"@) == Some(tid),
        forall|j: int| 0 <= j < k ==> (#[trigger] items[j].spec_get_str("id"@)) != Some(tid),
    ensures
        spec_find_trigger(items, tid) == Some(items[k]),
    decreases k,
{
    if k > 0 {
        lemma_find_trigger_hit(items.drop_first(), tid, k - 1);
    }
}

proof fn lemma_find_trigger_miss(items: Seq<JVal>, tid: Seq<char>)
    requires
        forall|j: int|
            0 <= j < items.len() ==> (#[trigger] items[j].spec_get_str("id"@)) != Some(tid),
    ensures
        spec_find_trigger(items, tid) is None,
    decreases items.len(),
{
    if items.len() > 0 {
        lemma_find_trigger_miss(items.drop_first(), tid);
    }
}

/// Finds the first trigger entry whose `id` equals `tid`.
fn find_trigger<'a>(items: &'a Vec<JVal>, tid: &str) -> (r: Option<&'a JVal>)
    ensures
        match r {
            Some(t) => spec_find_trigger(items@, tid@) == Some(*t),
            None => spec_find_trigger(items@, tid@) is None,
        },
{
    let n = items.len();
    let mut i: usize = 0;
    while i < n
        invariant
            n == items@.len(),
            i <= n,
            forall|j: int| 0 <= j < i ==> (#[trigger] items@[j].spec_get_str("id"@)) != Some(tid@),
        decreases n - i,
    {
        let matches_id = match items[i].get_str("id") {
            Some(s) => str_eq(s.as_str(), tid),
            None => false,
        };
        if matches_id {
            proof {
                lemma_find_trigger_hit(items@, tid@, i as int);
            }
            return Some(&items[i]);
        }
        i = i + 1;
    }
    proof {
        lemma_find_trigger_miss(items@, tid@);
    }
    None
}

/// Resolves the function a cron trigger re-invokes, from the trigger
/// listing. The matched entry must exist, be of type `cron`, and carry a
/// non-empty `function_id`; each failure is its own `Handler` error naming
/// the trigger.
pub fn resolve_cron_function(trigger_id: &str, triggers_data: &JVal) -> (r: Result<String, Error>)
    ensures
        match r {
            Ok(fid) => {
                &&& spec_matched_trigger(*triggers_data, trigger_id@) matches Some(t)
                &&& spec_trigger_type_of(spec_matched_trigger(*triggers_data, trigger_id@)->Some_0)
                    == "cron"@
                &&& spec_matched_trigger(*triggers_data, trigger_id@)->Some_0.spec_get_str(
                    "function_id"@,
                ) == Some(fid@)
                &&& fid@.len() > 0
            },
            Err(e) => e matches Error::Handler(m) && (match spec_matched_trigger(
                *triggers_data,
                trigger_id@,
            ) {
                None => m@ == "Cron trigger '"@ + trigger_id@ + "' not found"@,
                Some(t) => {
                    if spec_trigger_type_of(t) != "cron"@ {
                        m@ == "Trigger '"@ + trigger_id@ + "' is not a cron trigger"@
                    } else {
                        (match t.spec_get_str("function_id"@) {
                            Some(f) => f.len() == 0,
                            None => true,
                        }) && m@ == "Cron trigger '"@ + trigger_id@ + "' has no function_id"@
                    }
                },
            }),
        },
{
    let trigger = {
        let found = match triggers_data.get("triggers") {
            Some(t) => match t.as_arr() {
                Some(items) => find_trigger(items, trigger_id),
                None => None,
            },
            None => None,
        };
        match found {
            Some(t) => t,
            None => {
                return Err(
                    Error::Handler(
                        String::from_str("Cron trigger '").concat(trigger_id).concat("' not found"),
                    ),
                );
            },
        }
    };
    let is_cron = match trigger.get_str("trigger_type") {
        Some(t) => str_eq(t.as_str(), "cron"),
        None => {
            proof {
                reveal_strlit("cron");
                assert(spec_trigger_type_of(*trigger) =~= Seq::<char>::empty());
                assert("cron"@.len() == 4);
            }
            false
        },
    };
    if !is_cron {
        return Err(
            Error::Handler(
                String::from_str("Trigger '").concat(trigger_id).concat("' is not a cron trigger"),
            ),
        );
    }
    match trigger.get_str("function_id") {
        Some(fid) => {
            if fid.as_str().unicode_len() == 0 {
                Err(
                    Error::Handler(
                        String::from_str("Cron trigger '").concat(trigger_id).concat(
                            "' has no function_id",
                        ),
                    ),
                )
            } else {
                Ok(fid)
            }
        },
        None => Err(
            Error::Handler(
                String::from_str("Cron trigger '").concat(trigger_id).concat(
                    "' has no function_id",
                ),
            ),
        ),
    }
}

/// The synthesized cron payload: the fixed `cron` marker, the trigger id as
/// the job, the one timestamp in both time fields, the manual flag and the
/// console source.
pub open spec fn is_cron_payload(p: JVal, tid: Seq<char>, now: Seq<char>) -> bool {
    &&& p matches JVal::Obj(f)
    &&& f@.len() == 6
    &&& f@[0].0@ == "trigger"@ && (f@[0].1 matches JVal::Str(s) && s@ == "cron"@)
    &&& f@[1].0@ == "job_id"@ && (f@[1].1 matches JVal::Str(s) && s@ == tid)
    &&& f@[2].0@ == "scheduled_time"@ && (f@[2].1 matches JVal::Str(s) && s@ == now)
    &&& f@[3].0@ == "actual_time"@ && (f@[3].1 matches JVal::Str(s) && s@ == now)
    &&& field_is(f@, 4, "manual"@, JVal::Bool(true))
    &&& f@[5].0@ == "source"@ && (f@[5].1 matches JVal::Str(s) && s@ == "console"@)
}

/// Synthesizes the cron payload; the one `now` string stands in both time
/// fields, so they always agree.
pub fn cron_payload(trigger_id: &str, now: &str) -> (r: JVal)
    ensures
        is_cron_payload(r, trigger_id@, now@),
{
    obj6(
        "trigger",
        JVal::Str(String::from_str("cron")),
        "job_id",
        JVal::Str(String::from_str(trigger_id)),
        "scheduled_time",
        JVal::Str(String::from_str(now)),
        "actual_time",
        JVal::Str(String::from_str(now)),
        "manual",
        JVal::Bool(true),
        "source",
        JVal::Str(String::from_str("console")),
    )
}

/// The re-invocation call: the resolved function, the synthesized payload,
/// the invocation deadline.
pub fn cron_invoke_request(function_id: String, payload: JVal) -> (r: RpcRequest)
    ensures
        r.procedure == function_id,
        r.payload == payload,
        r.timeout_secs == TIMEOUT_INVOKE,
{
    RpcRequest { procedure: function_id, payload, timeout_secs: TIMEOUT_INVOKE }
}

/// The cron endpoint's result body: the trigger, the resolved function, and
/// the invocation's result.
pub open spec fn is_cron_result_body(b: JVal, tid: Seq<char>, fid: Seq<char>, result: JVal) -> bool {
    &&& b matches JVal::Obj(f)
    &&& f@.len() == 3
    &&& f@[0].0@ == "trigger_id"@ && (f@[0].1 matches JVal::Str(s) && s@ == tid)
    &&& f@[1].0@ == "function_id"@ && (f@[1].1 matches JVal::Str(s) && s@ == fid)
    &&& field_is(f@, 2, "result"@, result)
}

/// Composes the cron endpoint's response: the invocation's result wrapped
/// with the trigger and function; a failed invocation's error propagates.
pub fn cron_response(trigger_id: String, function_id: String, result: Result<JVal, Error>) -> (r:
    JVal)
    ensures
        match result {
            Ok(v) => is_success_envelope(r) && is_cron_result_body(
                envelope_body(r),
                trigger_id@,
                function_id@,
                v,
            ),
            Err(e) => is_error_envelope(r, e),
        },
{
    match result {
        Ok(v) => success_response(
            obj3(
                "trigger_id",
                JVal::Str(trigger_id),
                "function_id",
                JVal::Str(function_id),
                "result",
                v,
            ),
        ),
        Err(e) => error_response(e),
    }
}

} // verus!
