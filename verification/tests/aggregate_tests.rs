use console_bridge::aggregate::{status_requests, status_response, streams_list_request,
    streams_response, trigger_types_request, trigger_types_response};
use console_bridge::error::Error;
use console_bridge::json::JVal;

fn obj(fields: Vec<(&str, JVal)>) -> JVal {
    JVal::Obj(fields.into_iter().map(|(k, v)| (k.to_string(), v)).collect())
}

fn s(x: &str) -> JVal {
    JVal::Str(x.to_string())
}

fn field<'a>(v: &'a JVal, key: &str) -> &'a JVal {
    v.get(key).expect("field present")
}

fn as_str(v: &JVal) -> &str {
    match v {
        JVal::Str(t) => t.as_str(),
        _ => panic!("expected a string"),
    }
}

fn as_u64(v: &JVal) -> u64 {
    match v {
        JVal::UInt(n) => *n,
        _ => panic!("expected an unsigned number"),
    }
}

#[test]
fn status_requests_cover_three_calls() {
    let (w, f, m) = status_requests();
    assert_eq!(w.procedure, "engine::workers::list");
    assert_eq!(f.procedure, "engine::functions::list");
    match field(&f.payload, "include_internal") {
        JVal::Bool(true) => {},
        _ => panic!("function listing must include internal functions"),
    }
    assert_eq!(m.procedure, "engine::metrics::list");
    assert_eq!(w.timeout_secs, 5);
    assert_eq!(f.timeout_secs, 5);
    assert_eq!(m.timeout_secs, 5);
}

#[test]
fn status_aggregates_with_partial_failure() {
    let workers = Ok(obj(vec![("workers", JVal::Arr(vec![s("a"), s("b")]))]));
    let functions: Result<JVal, Error> = Err(Error::Timeout);
    let r = status_response(&workers, &functions, true);
    assert_eq!(as_u64(field(&r, "status_code")), 200);
    let body = field(&r, "body");
    assert_eq!(as_u64(field(body, "workers")), 2);
    assert_eq!(as_u64(field(body, "functions")), 0);
    assert_eq!(as_str(field(body, "status")), "running");
    match field(body, "metrics_available") {
        JVal::Bool(true) => {},
        _ => panic!("metrics flag lost"),
    }
}

#[test]
fn status_counts_zero_for_malformed_payload() {
    let workers = Ok(obj(vec![("workers", s("not-an-array"))]));
    let functions = Ok(obj(vec![]));
    let r = status_response(&workers, &functions, false);
    let body = field(&r, "body");
    assert_eq!(as_u64(field(body, "workers")), 0);
    assert_eq!(as_u64(field(body, "functions")), 0);
    match field(body, "metrics_available") {
        JVal::Bool(false) => {},
        _ => panic!("metrics flag lost"),
    }
}

#[test]
fn streams_request_uses_long_deadline() {
    let r = streams_list_request();
    assert_eq!(r.procedure, "stream::list_all");
    assert_eq!(r.timeout_secs, 10);
}

#[test]
fn streams_transform_system_and_user() {
    let data = obj(vec![(
        "stream",
        JVal::Arr(vec![
            obj(vec![("id", s("iii.internal"))]),
            obj(vec![
                ("id", s("orders")),
                ("groups", JVal::Arr(vec![s("g1"), JVal::UInt(2), s("g2")])),
            ]),
        ]),
    )]);
    let r = streams_response(Ok(data));
    assert_eq!(as_u64(field(&r, "status_code")), 200);
    let body = field(&r, "body");
    assert_eq!(as_u64(field(body, "count")), 2);
    assert_eq!(as_u64(field(body, "websocket_port")), 3112);
    let streams = match field(body, "streams") {
        JVal::Arr(items) => items,
        _ => panic!("expected streams array"),
    };
    let first = &streams[0];
    assert_eq!(as_str(field(first, "id")), "iii.internal");
    assert_eq!(as_str(field(first, "type")), "system");
    match field(first, "internal") {
        JVal::Bool(true) => {},
        _ => panic!("iii.-prefixed stream must be internal"),
    }
    let second = &streams[1];
    assert_eq!(as_str(field(second, "id")), "orders");
    assert_eq!(as_str(field(second, "type")), "user");
    assert_eq!(as_str(field(second, "description")), "orders stream");
    assert_eq!(as_str(field(second, "status")), "active");
    match field(second, "internal") {
        JVal::Bool(false) => {},
        _ => panic!("orders must not be internal"),
    }
    match field(second, "groups") {
        JVal::Arr(groups) => {
            assert_eq!(groups.len(), 2);
            assert_eq!(as_str(&groups[0]), "g1");
            assert_eq!(as_str(&groups[1]), "g2");
        },
        _ => panic!("expected groups array"),
    }
}

#[test]
fn streams_colon_prefix_is_internal() {
    let data = obj(vec![("stream", JVal::Arr(vec![obj(vec![("id", s("iii:meta"))])]))]);
    let r = streams_response(Ok(data));
    let streams = match field(field(&r, "body"), "streams") {
        JVal::Arr(items) => items,
        _ => panic!("expected streams array"),
    };
    assert_eq!(as_str(field(&streams[0], "type")), "system");
}

#[test]
fn streams_malformed_payload_is_empty_list() {
    let r = streams_response(Ok(obj(vec![("stream", s("nope"))])));
    let body = field(&r, "body");
    assert_eq!(as_u64(field(body, "count")), 0);
    match field(body, "streams") {
        JVal::Arr(items) => assert_eq!(items.len(), 0),
        _ => panic!("expected empty streams array"),
    }
}

#[test]
fn streams_error_propagates() {
    let r = streams_response(Err(Error::NotConnected));
    assert_eq!(as_u64(field(&r, "status_code")), 503);
}

#[test]
fn trigger_types_request_includes_internal() {
    let r = trigger_types_request();
    assert_eq!(r.procedure, "engine::triggers::list");
    match field(&r.payload, "include_internal") {
        JVal::Bool(true) => {},
        _ => panic!("trigger listing must include internal triggers"),
    }
}

fn type_names(r: &JVal) -> Vec<String> {
    match field(field(r, "body"), "trigger_types") {
        JVal::Arr(items) => items
            .iter()
            .map(|v| match v {
                JVal::Str(t) => t.clone(),
                _ => panic!("expected a string"),
            })
            .collect(),
        _ => panic!("expected trigger_types array"),
    }
}

#[test]
fn trigger_types_failure_falls_back_to_static_sorted() {
    let r = trigger_types_response(Err(Error::Timeout));
    let names = type_names(&r);
    let expected = vec![
        "api",
        "cron",
        "engine::functions-available",
        "event",
        "log",
        "state",
        "stream::join",
        "stream::leave",
        "subscribe",
    ];
    assert_eq!(names, expected);
}

#[test]
fn trigger_types_unions_discovered_sorted_dedup() {
    let data = obj(vec![(
        "triggers",
        JVal::Arr(vec![
            obj(vec![("trigger_type", s("webhook"))]),
            obj(vec![("trigger_type", s("cron"))]),
            obj(vec![("trigger_type", s("webhook"))]),
            obj(vec![("id", s("no-type-here"))]),
        ]),
    )]);
    let r = trigger_types_response(Ok(data));
    let names = type_names(&r);
    let expected = vec![
        "api",
        "cron",
        "engine::functions-available",
        "event",
        "log",
        "state",
        "stream::join",
        "stream::leave",
        "subscribe",
        "webhook",
    ];
    assert_eq!(names, expected);
}
