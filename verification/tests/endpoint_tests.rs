use console_bridge::endpoints::{functions_list_request, health_request, invoke_request,
    otel_logs_clear_request, otel_logs_list_request, rollups_list_request, traces_tree_request,
    triggers_list_request, workers_request};
use console_bridge::error::{complete, Error};
use console_bridge::json::JVal;

fn obj(fields: Vec<(&str, JVal)>) -> JVal {
    JVal::Obj(fields.into_iter().map(|(k, v)| (k.to_string(), v)).collect())
}

fn s(x: &str) -> JVal {
    JVal::Str(x.to_string())
}

fn field<'a>(v: &'a JVal, key: &str) -> &'a JVal {
    v.get(key).expect("field present")
}

fn as_str(v: &JVal) -> &str {
    match v {
        JVal::Str(t) => t.as_str(),
        _ => panic!("expected a string"),
    }
}

#[test]
fn simple_requests_name_their_procedures() {
    assert_eq!(health_request().procedure, "engine::health::check");
    assert_eq!(workers_request().procedure, "engine::workers::list");
    assert_eq!(otel_logs_clear_request().procedure, "engine::logs::clear");
    assert_eq!(health_request().timeout_secs, 5);
}

#[test]
fn listing_requests_carry_parsed_flag() {
    let input = obj(vec![("query_params", obj(vec![("include_internal", s("TRUE"))]))]);
    let r = triggers_list_request(&input);
    assert_eq!(r.procedure, "engine::triggers::list");
    match field(&r.payload, "include_internal") {
        JVal::Bool(true) => {},
        _ => panic!("flag must parse to true"),
    }
    let r2 = functions_list_request(&obj(vec![]));
    match field(&r2.payload, "include_internal") {
        JVal::Bool(false) => {},
        _ => panic!("absent flag must parse to false"),
    }
}

#[test]
fn passthrough_unwraps_body() {
    let input = obj(vec![("body", obj(vec![("limit", JVal::UInt(10))]))]);
    let r = otel_logs_list_request(input);
    assert_eq!(r.procedure, "engine::logs::list");
    match field(&r.payload, "limit") {
        JVal::UInt(10) => {},
        _ => panic!("body must pass through"),
    }
}

#[test]
fn passthrough_without_body_sends_envelope() {
    let input = obj(vec![("limit", JVal::UInt(3))]);
    let r = rollups_list_request(input);
    assert_eq!(r.procedure, "engine::rollups::list");
    match field(&r.payload, "limit") {
        JVal::UInt(3) => {},
        _ => panic!("envelope must pass through"),
    }
}

#[test]
fn traces_tree_requires_trace_id() {
    match traces_tree_request(&obj(vec![])) {
        Err(Error::Handler(m)) => assert_eq!(m, "Missing trace_id in request"),
        _ => panic!("missing trace_id must be rejected"),
    }
}

#[test]
fn traces_tree_reads_body_then_top_level() {
    let input = obj(vec![("body", obj(vec![("trace_id", s("t-1"))]))]);
    let req = traces_tree_request(&input).expect("request built");
    assert_eq!(req.procedure, "engine::traces::tree");
    assert_eq!(req.timeout_secs, 10);
    assert_eq!(as_str(field(&req.payload, "trace_id")), "t-1");

    let top = obj(vec![("trace_id", s("t-2"))]);
    let req2 = traces_tree_request(&top).expect("request built");
    assert_eq!(as_str(field(&req2.payload, "trace_id")), "t-2");
}

#[test]
fn invoke_requires_function_id() {
    match invoke_request(obj(vec![])) {
        Err(Error::Handler(m)) => assert_eq!(m, "Missing function_id in request"),
        _ => panic!("missing function_id must be rejected"),
    }
}

#[test]
fn invoke_builds_call_with_default_input() {
    let input = obj(vec![("body", obj(vec![("function_id", s("jobs::run"))]))]);
    let req = invoke_request(input).expect("request built");
    assert_eq!(req.procedure, "jobs::run");
    assert_eq!(req.timeout_secs, 30);
    match &req.payload {
        JVal::Obj(f) => assert_eq!(f.len(), 0),
        _ => panic!("absent input must default to an empty object"),
    }
}

#[test]
fn invoke_passes_input_through() {
    let input = obj(vec![(
        "body",
        obj(vec![("function_id", s("jobs::run")), ("input", obj(vec![("n", JVal::UInt(1))]))]),
    )]);
    let req = invoke_request(input).expect("request built");
    match field(&req.payload, "n") {
        JVal::UInt(1) => {},
        _ => panic!("input must pass through"),
    }
}

#[test]
fn complete_wraps_both_outcomes() {
    let ok = complete(Ok(s("fine")));
    match field(&ok, "status_code") {
        JVal::UInt(200) => {},
        _ => panic!("success must be 200"),
    }
    let err = complete(Err(Error::Timeout));
    match field(&err, "status_code") {
        JVal::UInt(504) => {},
        _ => panic!("timeout must be 504"),
    }
}
