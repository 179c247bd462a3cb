//! Request builders for the plain console endpoints: single remote call,
//! result wrapped unchanged.
//!
//! The driver performs the returned [`RpcRequest`] and wraps the outcome with
//! [`crate::error::complete`]. Endpoints with a composed or degraded response
//! live in [`crate::aggregate`], [`crate::state`], [`crate::flow`] and
//! [`crate::cron`].

use vstd::prelude::*;
use vstd::string::*;
use crate::json::JVal;
use crate::error::Error;
use crate::normalize::{parse_bool_param, spec_bool_param, effective_input, spec_effective_input,
    get_scoped_str, spec_scoped_str, take_scoped, spec_scoped};
use crate::rpc::{RpcRequest, field_is, obj1, empty_request, TIMEOUT_READ, TIMEOUT_LIST_ALL,
    TIMEOUT_INVOKE};

verus! {

/// The health endpoint's remote call.
pub fn health_request() -> (r: RpcRequest)
    ensures
        r.procedure@ == "engine::health::check"@,
        r.payload matches JVal::Obj(f) && f@.len() == 0,
        r.timeout_secs == TIMEOUT_READ,
{
    empty_request("engine::health::check", TIMEOUT_READ)
}

/// The workers endpoint's remote call.
pub fn workers_request() -> (r: RpcRequest)
    ensures
        r.procedure@ == "engine::workers::list"@,
        r.payload matches JVal::Obj(f) && f@.len() == 0,
        r.timeout_secs == TIMEOUT_READ,
{
    empty_request("engine::workers::list", TIMEOUT_READ)
}

/// The alerts endpoint's remote call.
pub fn alerts_list_request() -> (r: RpcRequest)
    ensures
        r.procedure@ == "engine::alerts::list"@,
        r.payload matches JVal::Obj(f) && f@.len() == 0,
        r.timeout_secs == TIMEOUT_READ,
{
    empty_request("engine::alerts::list", TIMEOUT_READ)
}

/// The sampling-rules endpoint's remote call.
pub fn sampling_rules_request() -> (r: RpcRequest)
    ensures
        r.procedure@ == "engine::sampling::rules"@,
        r.payload matches JVal::Obj(f) && f@.len() == 0,
        r.timeout_secs == TIMEOUT_READ,
{
    empty_request("engine::sampling::rules", TIMEOUT_READ)
}

/// The log-clearing endpoint's remote call.
pub fn otel_logs_clear_request() -> (r: RpcRequest)
    ensures
        r.procedure@ == "engine::logs::clear"@,
        r.payload matches JVal::Obj(f) && f@.len() == 0,
        r.timeout_secs == TIMEOUT_READ,
{
    empty_request("engine::logs::clear", TIMEOUT_READ)
}

/// The trace-clearing endpoint's remote call.
pub fn otel_traces_clear_request() -> (r: RpcRequest)
    ensures
        r.procedure@ == "engine::traces::clear"@,
        r.payload matches JVal::Obj(f) && f@.len() == 0,
        r.timeout_secs == TIMEOUT_READ,
{
    empty_request("engine::traces::clear", TIMEOUT_READ)
}

/// A trigger- or function-listing call: the one payload field is the parsed
/// `include_internal` flag.
fn listing_request(procedure: &str, input: &JVal) -> (r: RpcRequest)
    ensures
        r.procedure@ == procedure@,
        r.payload matches JVal::Obj(f) && f@.len() == 1 && field_is(
            f@,
            0,
            "include_internal"@,
            JVal::Bool(spec_bool_param(*input, "include_internal"@)),
        ),
        r.timeout_secs == TIMEOUT_READ,
{
    let flag = parse_bool_param(input, "include_internal");
    RpcRequest {
        procedure: String::from_str(procedure),
        payload: obj1("include_internal", JVal::Bool(flag)),
        timeout_secs: TIMEOUT_READ,
    }
}

/// The trigger-listing endpoint's remote call.
pub fn triggers_list_request(input: &JVal) -> (r: RpcRequest)
    ensures
        r.procedure@ == "engine::triggers::list"@,
        r.payload matches JVal::Obj(f) && f@.len() == 1 && field_is(
            f@,
            0,
            "include_internal"@,
            JVal::Bool(spec_bool_param(*input, "include_internal"@)),
        ),
        r.timeout_secs == TIMEOUT_READ,
{
    listing_request("engine::triggers::list", input)
}

/// The function-listing endpoint's remote call.
pub fn functions_list_request(input: &JVal) -> (r: RpcRequest)
    ensures
        r.procedure@ == "engine::functions::list"@,
        r.payload matches JVal::Obj(f) && f@.len() == 1 && field_is(
            f@,
            0,
            "include_internal"@,
            JVal::Bool(spec_bool_param(*input, "include_internal"@)),
        ),
        r.timeout_secs == TIMEOUT_READ,
{
    listing_request("engine::functions::list", input)
}

/// A pass-through call: the payload is the envelope's `body` if present, else
/// the envelope itself.
fn passthrough_request(procedure: &str, input: JVal, timeout_secs: u64) -> (r: RpcRequest)
    ensures
        r.procedure@ == procedure@,
        r.payload == spec_effective_input(input),
        r.timeout_secs == timeout_secs,
{
    RpcRequest {
        procedure: String::from_str(procedure),
        payload: effective_input(input),
        timeout_secs,
    }
}

/// The log-listing endpoint's remote call.
pub fn otel_logs_list_request(input: JVal) -> (r: RpcRequest)
    ensures
        r.procedure@ == "engine::logs::list"@,
        r.payload == spec_effective_input(input),
        r.timeout_secs == TIMEOUT_READ,
{
    passthrough_request("engine::logs::list", input, TIMEOUT_READ)
}

/// The trace-listing endpoint's remote call.
pub fn otel_traces_list_request(input: JVal) -> (r: RpcRequest)
    ensures
        r.procedure@ == "engine::traces::list"@,
        r.payload == spec_effective_input(input),
        r.timeout_secs == TIMEOUT_READ,
{
    passthrough_request("engine::traces::list", input, TIMEOUT_READ)
}

/// The detailed-metrics endpoint's remote call.
pub fn metrics_detailed_request(input: JVal) -> (r: RpcRequest)
    ensures
        r.procedure@ == "engine::metrics::list"@,
        r.payload == spec_effective_input(input),
        r.timeout_secs == TIMEOUT_READ,
{
    passthrough_request("engine::metrics::list", input, TIMEOUT_READ)
}

/// The rollup-listing endpoint's remote call.
pub fn rollups_list_request(input: JVal) -> (r: RpcRequest)
    ensures
        r.procedure@ == "engine::rollups::list"@,
        r.payload == spec_effective_input(input),
        r.timeout_secs == TIMEOUT_READ,
{
    passthrough_request("engine::rollups::list", input, TIMEOUT_READ)
}

/// The trace-tree endpoint's remote call: requires a `trace_id` string in the
/// body or at the top level, else a `Handler` error naming the field.
pub fn traces_tree_request(input: &JVal) -> (r: Result<RpcRequest, Error>)
    ensures
        match r {
            Ok(req) => {
                &&& spec_scoped_str(*input, "body"@, "trace_id"@) matches Some(tid)
                &&& req.procedure@ == "engine::traces::tree"@
                &&& req.timeout_secs == TIMEOUT_LIST_ALL
                &&& req.payload matches JVal::Obj(f) && f@.len() == 1 && f@[0].0@ == "trace_id"@
                    && (f@[0].1 matches JVal::Str(s) && Some(s@) == spec_scoped_str(
                    *input,
                    "body"@,
                    "trace_id"@,
                ))
            },
            Err(e) => {
                &&& spec_scoped_str(*input, "body"@, "trace_id"@) is None
                &&& e matches Error::Handler(m) && m@ == "Missing trace_id in request"@
            },
        },
{
    match get_scoped_str(input, "body", "trace_id") {
        Some(trace_id) => Ok(
            RpcRequest {
                procedure: String::from_str("engine::traces::tree"),
                payload: obj1("trace_id", JVal::Str(trace_id)),
                timeout_secs: TIMEOUT_LIST_ALL,
            },
        ),
        None => Err(Error::Handler(String::from_str("Missing trace_id in request"))),
    }
}

/// The direct-invocation endpoint's remote call: the procedure is the
/// `function_id` named by the request, the payload its `input` field (an
/// empty object when absent), under the invocation deadline. A missing
/// `function_id` is a `Handler` error naming the field.
pub fn invoke_request(input: JVal) -> (r: Result<RpcRequest, Error>)
    ensures
        match r {
            Ok(req) => {
                &&& spec_scoped_str(input, "body"@, "function_id"@) == Some(req.procedure@)
                &&& req.timeout_secs == TIMEOUT_INVOKE
                &&& match spec_scoped(input, "body"@, "input"@) {
                    Some(v) => req.payload == v,
                    None => req.payload matches JVal::Obj(f) && f@.len() == 0,
                }
            },
            Err(e) => {
                &&& spec_scoped_str(input, "body"@, "function_id"@) is None
                &&& e matches Error::Handler(m) && m@ == "Missing function_id in request"@
            },
        },
{
    let function_id = match get_scoped_str(&input, "body", "function_id") {
        Some(id) => id,
        None => {
            return Err(Error::Handler(String::from_str("Missing function_id in request")));
        },
    };
    proof {
        reveal_strlit("body");
        reveal_strlit("input");
        assert("body"@.len() == 4);
        assert("input"@.len() == 5);
    }
    let payload = match take_scoped(input, "body", "input") {
        Some(v) => v,
        None => JVal::empty_obj(),
    };
    Ok(RpcRequest { procedure: function_id, payload, timeout_secs: TIMEOUT_INVOKE })
}

} // verus!
