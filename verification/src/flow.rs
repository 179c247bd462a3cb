//! Flow configurations: identifier validation, fetch with graceful default,
//! and persistence under a fixed state-store namespace.
//!
//! A fetch never surfaces a store failure: a failed call or a null record
//! degrades to `{id, config: {}}`. A save propagates failure, so data loss
//! stays visible.

use vstd::prelude::*;
use vstd::string::*;
use crate::json::JVal;
use crate::error::{Error, is_envelope, is_error_envelope, is_success_envelope, envelope_body,
    success_response, error_response};
use crate::normalize::{spec_scoped_str, spec_effective_input};
use crate::rpc::{RpcRequest, obj1, obj2, obj3, TIMEOUT_READ};
use crate::text::{check_flow_id, is_valid_flow_id};

verus! {

/// The state group all flow configurations are persisted under.
pub open spec fn spec_flow_config_group() -> Seq<char> {
    "__console.flowConfigs"@
}

/// Validates a flow identifier: non-empty and over the allowed character set,
/// else a `Handler` error naming the offending id.
pub fn validate_flow_id(id: &str) -> (r: Result<String, Error>)
    ensures
        match r {
            Ok(s) => is_valid_flow_id(id@) && s@ == id@,
            Err(e) => !is_valid_flow_id(id@) && (e matches Error::Handler(m) && m@
                == "Invalid flow_id: "@ + id@),
        },
{
    if check_flow_id(id) {
        Ok(String::from_str(id))
    } else {
        Err(Error::Handler(String::from_str("Invalid flow_id: ").concat(id)))
    }
}

/// The flow id named by a fetch: from the path parameters, else the query
/// parameters, else the envelope's top level.
pub open spec fn spec_get_flow_id_param(input: JVal) -> Option<Seq<char>> {
    let from_path = match input.spec_get("path_params"@) {
        Some(p) => p.spec_get_str("flow_id"@),
        None => None,
    };
    match from_path {
        Some(s) => Some(s),
        None => spec_scoped_str(input, "query_params"@, "flow_id"@),
    }
}

/// Extracts the fetch's flow id with path-then-query-then-top precedence.
fn get_flow_id_param(input: &JVal) -> (r: Option<String>)
    ensures
        match r {
            Some(s) => spec_get_flow_id_param(*input) == Some(s@),
            None => spec_get_flow_id_param(*input) is None,
        },
{
    let from_path = match input.get("path_params") {
        Some(p) => p.get_str("flow_id"),
        None => None,
    };
    match from_path {
        Some(s) => Some(s),
        None => crate::normalize::get_scoped_str(input, "query_params", "flow_id"),
    }
}

/// The store fetch for a flow configuration: `state::get` under the fixed
/// namespace, keyed by the validated id.
pub open spec fn is_flow_get_request(req: RpcRequest, flow_id: Seq<char>) -> bool {
    &&& req.procedure@ == "state::get"@
    &&& req.timeout_secs == TIMEOUT_READ
    &&& req.payload matches JVal::Obj(f) && f@.len() == 2 && f@[0].0@ == "scope"@ && (
    f@[0].1 matches JVal::Str(g) && g@ == spec_flow_config_group()) && f@[1].0@ == "key"@ && (
    f@[1].1 matches JVal::Str(k) && k@ == flow_id)
}

/// Builds the fetch: the id is required and validated before any remote call,
/// a missing or invalid id each yielding its own `Handler` error.
pub fn flow_config_get_request(input: &JVal) -> (r: Result<(String, RpcRequest), Error>)
    ensures
        match r {
            Ok((id, req)) => {
                &&& spec_get_flow_id_param(*input) == Some(id@)
                &&& is_valid_flow_id(id@)
                &&& is_flow_get_request(req, id@)
            },
            Err(e) => e matches Error::Handler(m) && (match spec_get_flow_id_param(*input) {
                None => m@ == "Missing flow_id parameter"@,
                Some(id) => !is_valid_flow_id(id) && m@ == "Invalid flow_id: "@ + id,
            }),
        },
{
    let flow_id = match get_flow_id_param(input) {
        Some(id) => id,
        None => {
            return Err(Error::Handler(String::from_str("Missing flow_id parameter")));
        },
    };
    let flow_id = match validate_flow_id(flow_id.as_str()) {
        Ok(id) => id,
        Err(e) => {
            return Err(e);
        },
    };
    let payload = obj2(
        "scope",
        JVal::Str(String::from_str("__console.flowConfigs")),
        "key",
        JVal::Str(flow_id.clone()),
    );
    Ok(
        (
            flow_id,
            RpcRequest {
                procedure: String::from_str("state::get"),
                payload,
                timeout_secs: TIMEOUT_READ,
            },
        ),
    )
}

/// The default record a fetch degrades to: `{id, config: {}}`.
pub open spec fn is_default_flow_body(b: JVal, flow_id: Seq<char>) -> bool {
    &&& b matches JVal::Obj(f)
    &&& f@.len() == 2
    &&& f@[0].0@ == "id"@ && (f@[0].1 matches JVal::Str(s) && s@ == flow_id)
    &&& f@[1].0@ == "config"@ && (f@[1].1 matches JVal::Obj(c) && c@.len() == 0)
}

/// The whole outcome of composing a fetch's response from the store call's
/// result: a non-null record passes through; a null record or a failed call
/// degrades to the default; the endpoint always succeeds.
pub open spec fn flow_get_post(flow_id: Seq<char>, result: Result<JVal, Error>, r: JVal) -> bool {
    match result {
        Ok(data) => {
            if data is Null {
                is_success_envelope(r) && is_default_flow_body(envelope_body(r), flow_id)
            } else {
                is_envelope(r, 200, data)
            }
        },
        Err(_) => is_success_envelope(r) && is_default_flow_body(envelope_body(r), flow_id),
    }
}

/// Composes the fetch's response; see [`flow_get_post`].
pub fn flow_config_get_response(flow_id: String, result: Result<JVal, Error>) -> (r: JVal)
    ensures
        flow_get_post(flow_id@, result, r),
        is_success_envelope(r),
{
    match result {
        Ok(data) => {
            if data.is_null() {
                success_response(default_flow_body(flow_id))
            } else {
                success_response(data)
            }
        },
        Err(_) => success_response(default_flow_body(flow_id)),
    }
}

/// Builds the default record `{id, config: {}}`.
fn default_flow_body(flow_id: String) -> (r: JVal)
    ensures
        is_default_flow_body(r, flow_id@),
{
    obj2("id", JVal::Str(flow_id), "config", JVal::empty_obj())
}

/// A persisted flow record: `{id, config}`.
pub open spec fn is_flow_record(v: JVal, flow_id: Seq<char>, config: JVal) -> bool {
    &&& v matches JVal::Obj(f)
    &&& f@.len() == 2
    &&& f@[0].0@ == "id"@ && (f@[0].1 matches JVal::Str(s) && s@ == flow_id)
    &&& f@[1].0@ == "config"@ && f@[1].1 == config
}

/// The flow id named by a save: from the path parameters, else the `id` of
/// the effective body.
pub open spec fn spec_save_flow_id(input: JVal) -> Option<Seq<char>> {
    let from_path = match input.spec_get("path_params"@) {
        Some(p) => p.spec_get_str("flow_id"@),
        None => None,
    };
    match from_path {
        Some(s) => Some(s),
        None => spec_effective_input(input).spec_get_str("id"@),
    }
}

/// The configuration a save persists: the effective body's `config`, an empty
/// object when absent.
pub open spec fn spec_save_config(input: JVal) -> Option<JVal> {
    spec_effective_input(input).spec_get("config"@)
}

/// Builds the save: `state::set` under the fixed namespace, keyed by the
/// validated id, storing `{id, config}`. A missing or invalid id each yields
/// its own `Handler` error before any remote call.
pub fn flow_config_save_request(input: JVal) -> (r: Result<RpcRequest, Error>)
    ensures
        match r {
            Ok(req) => {
                &&& spec_save_flow_id(input) matches Some(id)
                &&& is_valid_flow_id(spec_save_flow_id(input)->Some_0)
                &&& req.procedure@ == "state::set"@
                &&& req.timeout_secs == TIMEOUT_READ
                &&& req.payload matches JVal::Obj(f) && f@.len() == 3 && f@[0].0@ == "scope"@ && (
                f@[0].1 matches JVal::Str(g) && g@ == spec_flow_config_group()) && f@[1].0@
                    == "key"@ && (f@[1].1 matches JVal::Str(k) && Some(k@) == spec_save_flow_id(
                    input,
                )) && f@[2].0@ == "value"@ && (match spec_save_config(input) {
                    Some(c) => is_flow_record(f@[2].1, spec_save_flow_id(input)->Some_0, c),
                    None => f@[2].1 matches JVal::Obj(rec) && rec@.len() == 2 && rec@[0].0@
                        == "id"@ && (rec@[0].1 matches JVal::Str(s) && Some(s@)
                        == spec_save_flow_id(input)) && rec@[1].0@ == "config"@ && (
                    rec@[1].1 matches JVal::Obj(c) && c@.len() == 0),
                })
            },
            Err(e) => e matches Error::Handler(m) && (match spec_save_flow_id(input) {
                None => m@ == "Missing flow_id parameter"@,
                Some(id) => !is_valid_flow_id(id) && m@ == "Invalid flow_id: "@ + id,
            }),
        },
{
    let flow_id = {
        let from_path = match input.get("path_params") {
            Some(p) => p.get_str("flow_id"),
            None => None,
        };
        match from_path {
            Some(s) => Some(s),
            None => match input.get("body") {
                Some(b) => b.get_str("id"),
                None => input.get_str("id"),
            },
        }
    };
    let flow_id = match flow_id {
        Some(id) => id,
        None => {
            return Err(Error::Handler(String::from_str("Missing flow_id parameter")));
        },
    };
    let flow_id = match validate_flow_id(flow_id.as_str()) {
        Ok(id) => id,
        Err(e) => {
            return Err(e);
        },
    };
    let body = crate::normalize::effective_input(input);
    let (config, _) = body.take("config");
    let config = match config {
        Some(c) => c,
        None => JVal::empty_obj(),
    };
    let record = obj2("id", JVal::Str(flow_id.clone()), "config", config);
    let payload = obj3(
        "scope",
        JVal::Str(String::from_str("__console.flowConfigs")),
        "key",
        JVal::Str(flow_id),
        "value",
        record,
    );
    Ok(
        RpcRequest {
            procedure: String::from_str("state::set"),
            payload,
            timeout_secs: TIMEOUT_READ,
        },
    )
}

/// The save's acknowledgement body.
pub open spec fn is_save_ack_body(b: JVal) -> bool {
    &&& b matches JVal::Obj(f)
    &&& f@.len() == 1
    &&& f@[0].0@ == "message"@ && (f@[0].1 matches JVal::Str(m) && m@
        == "Flow config saved successfully"@)
}

/// Composes the save's response: an acknowledgement on success; a failed
/// store call's error propagates.
pub fn flow_config_save_response(result: Result<JVal, Error>) -> (r: JVal)
    ensures
        match result {
            Ok(_) => is_success_envelope(r) && is_save_ack_body(envelope_body(r)),
            Err(e) => is_error_envelope(r, e),
        },
{
    match result {
        Ok(_) => success_response(
            obj1("message", JVal::Str(String::from_str("Flow config saved successfully"))),
        ),
        Err(e) => error_response(e),
    }
}

/// Law: a fetch whose store call returns the record a save persisted hands
/// that record back intact — the body's `id` and `config` are the saved ones.
pub proof fn lemma_flow_config_round_trip(
    flow_id: Seq<char>,
    config: JVal,
    saved: JVal,
    r: JVal,
)
    requires
        is_flow_record(saved, flow_id, config),
        flow_get_post(flow_id, Ok(saved), r),
    ensures
        is_envelope(r, 200, saved),
        envelope_body(r).spec_get("id"@) matches Some(idv) && idv.spec_str() == Some(flow_id),
        envelope_body(r).spec_get("config"@) == Some(config),
{
    assert(!(saved is Null));
    assert(envelope_body(r) == saved);
    let fields = saved->Obj_0@;
    proof_strlit_id_config();
    crate::json::lemma_obj_get_hit(fields, "id"@, 0);
    crate::json::lemma_obj_get_hit(fields, "config"@, 1);
}

/// `"id"` and `"config"` are different keys.
proof fn proof_strlit_id_config()
    ensures
        "id"@ != "config"@,
{
    reveal_strlit("id");
    reveal_strlit("config");
    assert("id"@.len() == 2);
    assert("config"@.len() == 6);
}

} // verus!
