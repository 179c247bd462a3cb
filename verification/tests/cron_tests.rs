use console_bridge::cron::{cron_invoke_request, cron_payload, cron_response,
    cron_trigger_parse, cron_triggers_list_request, resolve_cron_function};
use console_bridge::error::Error;
use console_bridge::json::JVal;
use console_bridge::text::u64_to_dec;

fn obj(fields: Vec<(&str, JVal)>) -> JVal {
    JVal::Obj(fields.into_iter().map(|(k, v)| (k.to_string(), v)).collect())
}

fn s(x: &str) -> JVal {
    JVal::Str(x.to_string())
}

fn field<'a>(v: &'a JVal, key: &str) -> &'a JVal {
    v.get(key).expect("field present")
}

fn as_str(v: &JVal) -> &str {
    match v {
        JVal::Str(t) => t.as_str(),
        _ => panic!("expected a string"),
    }
}

#[test]
fn parse_requires_trigger_id() {
    let input = obj(vec![("body", obj(vec![]))]);
    match cron_trigger_parse(&input) {
        Err(Error::Handler(m)) => assert_eq!(m, "Missing trigger_id in request"),
        _ => panic!("missing trigger_id must be rejected"),
    }
}

#[test]
fn parse_rejects_empty_trigger_id() {
    let input = obj(vec![("body", obj(vec![("trigger_id", s(""))]))]);
    match cron_trigger_parse(&input) {
        Err(Error::Handler(m)) => assert_eq!(m, "Missing trigger_id in request"),
        _ => panic!("empty trigger_id must be rejected"),
    }
}

#[test]
fn parse_takes_optional_function_id() {
    let input = obj(vec![(
        "body",
        obj(vec![("trigger_id", s("nightly")), ("function_id", s("jobs::run"))]),
    )]);
    let (tid, fid) = cron_trigger_parse(&input).expect("parsed");
    assert_eq!(tid, "nightly");
    assert_eq!(fid.unwrap(), "jobs::run");
}

#[test]
fn triggers_list_request_includes_internal() {
    let r = cron_triggers_list_request();
    assert_eq!(r.procedure, "engine::triggers::list");
    match field(&r.payload, "include_internal") {
        JVal::Bool(true) => {},
        _ => panic!("listing must include internal triggers"),
    }
}

fn listing(entries: Vec<JVal>) -> JVal {
    obj(vec![("triggers", JVal::Arr(entries))])
}

#[test]
fn resolve_absent_trigger_not_found() {
    let data = listing(vec![obj(vec![("id", s("other"))])]);
    match resolve_cron_function("nightly", &data) {
        Err(Error::Handler(m)) => {
            assert_eq!(m, "Cron trigger 'nightly' not found");
            assert!(m.contains("nightly") && m.contains("not found"));
        },
        _ => panic!("absent trigger must be an error"),
    }
}

#[test]
fn resolve_non_cron_trigger_is_distinct_error() {
    let data = listing(vec![obj(vec![
        ("id", s("nightly")),
        ("trigger_type", s("api")),
        ("function_id", s("jobs::run")),
    ])]);
    match resolve_cron_function("nightly", &data) {
        Err(Error::Handler(m)) => assert_eq!(m, "Trigger 'nightly' is not a cron trigger"),
        _ => panic!("non-cron trigger must be an error"),
    }
}

#[test]
fn resolve_missing_trigger_type_counts_as_non_cron() {
    let data = listing(vec![obj(vec![("id", s("nightly")), ("function_id", s("jobs::run"))])]);
    match resolve_cron_function("nightly", &data) {
        Err(Error::Handler(m)) => assert_eq!(m, "Trigger 'nightly' is not a cron trigger"),
        _ => panic!("typeless trigger must be an error"),
    }
}

#[test]
fn resolve_empty_function_id_is_distinct_error() {
    let data = listing(vec![obj(vec![
        ("id", s("nightly")),
        ("trigger_type", s("cron")),
        ("function_id", s("")),
    ])]);
    match resolve_cron_function("nightly", &data) {
        Err(Error::Handler(m)) => assert_eq!(m, "Cron trigger 'nightly' has no function_id"),
        _ => panic!("empty function_id must be an error"),
    }
}

#[test]
fn resolve_missing_function_id_is_distinct_error() {
    let data = listing(vec![obj(vec![("id", s("nightly")), ("trigger_type", s("cron"))])]);
    match resolve_cron_function("nightly", &data) {
        Err(Error::Handler(m)) => assert_eq!(m, "Cron trigger 'nightly' has no function_id"),
        _ => panic!("missing function_id must be an error"),
    }
}

#[test]
fn resolve_takes_first_matching_entry() {
    let data = listing(vec![
        obj(vec![("id", s("other")), ("trigger_type", s("cron")), ("function_id", s("x"))]),
        obj(vec![
            ("id", s("nightly")),
            ("trigger_type", s("cron")),
            ("function_id", s("jobs::run")),
        ]),
    ]);
    let fid = resolve_cron_function("nightly", &data).expect("resolved");
    assert_eq!(fid, "jobs::run");
}

#[test]
fn payload_holds_one_timestamp_in_both_fields() {
    let p = cron_payload("nightly", "1700000000");
    assert_eq!(as_str(field(&p, "trigger")), "cron");
    assert_eq!(as_str(field(&p, "job_id")), "nightly");
    assert_eq!(as_str(field(&p, "scheduled_time")), "1700000000");
    assert_eq!(as_str(field(&p, "actual_time")), "1700000000");
    match field(&p, "manual") {
        JVal::Bool(true) => {},
        _ => panic!("manual flag lost"),
    }
    assert_eq!(as_str(field(&p, "source")), "console");
}

#[test]
fn unix_seconds_render_in_decimal() {
    assert_eq!(u64_to_dec(0), "0");
    assert_eq!(u64_to_dec(7), "7");
    assert_eq!(u64_to_dec(1700000000), "1700000000");
    assert_eq!(u64_to_dec(18446744073709551615), "18446744073709551615");
}

#[test]
fn invoke_request_uses_invocation_deadline() {
    let req = cron_invoke_request("jobs::run".to_string(), cron_payload("nightly", "0"));
    assert_eq!(req.procedure, "jobs::run");
    assert_eq!(req.timeout_secs, 30);
}

#[test]
fn response_wraps_result() {
    let r = cron_response(
        "nightly".to_string(),
        "jobs::run".to_string(),
        Ok(obj(vec![("done", JVal::Bool(true))])),
    );
    let body = field(&r, "body");
    assert_eq!(as_str(field(body, "trigger_id")), "nightly");
    assert_eq!(as_str(field(body, "function_id")), "jobs::run");
    match field(field(body, "result"), "done") {
        JVal::Bool(true) => {},
        _ => panic!("result lost"),
    }
}

#[test]
fn response_propagates_invocation_error() {
    let r = cron_response(
        "nightly".to_string(),
        "jobs::run".to_string(),
        Err(Error::Remote { code: "X".to_string(), message: "no".to_string() }),
    );
    match field(&r, "status_code") {
        JVal::UInt(502) => {},
        _ => panic!("remote failure must map to 502"),
    }
}
