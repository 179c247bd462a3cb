use console_bridge::error::Error;
use console_bridge::flow::{flow_config_get_request, flow_config_get_response,
    flow_config_save_request, flow_config_save_response, validate_flow_id};
use console_bridge::json::JVal;

fn obj(fields: Vec<(&str, JVal)>) -> JVal {
    JVal::Obj(fields.into_iter().map(|(k, v)| (k.to_string(), v)).collect())
}

fn s(x: &str) -> JVal {
    JVal::Str(x.to_string())
}

fn field<'a>(v: &'a JVal, key: &str) -> &'a JVal {
    v.get(key).expect("field present")
}

fn as_str(v: &JVal) -> &str {
    match v {
        JVal::Str(t) => t.as_str(),
        _ => panic!("expected a string"),
    }
}

#[test]
fn flow_id_accepts_allowed_charset() {
    for id in ["f1", "a-b_c.d", "X", "0", "...", "A-Z_a-z.0-9"] {
        let r = validate_flow_id(id).expect("valid id");
        assert_eq!(r, id);
    }
}

#[test]
fn flow_id_rejects_empty_naming_it() {
    match validate_flow_id("") {
        Err(Error::Handler(m)) => assert_eq!(m, "Invalid flow_id: "),
        _ => panic!("empty id must be rejected"),
    }
}

#[test]
fn flow_id_rejects_bad_characters_naming_the_id() {
    for id in ["a b", "a/b", "a!b", "ü", "a\tb"] {
        match validate_flow_id(id) {
            Err(Error::Handler(m)) => assert_eq!(m, format!("Invalid flow_id: {}", id)),
            _ => panic!("{} must be rejected", id),
        }
    }
}

#[test]
fn get_request_reads_path_then_query() {
    let input = obj(vec![("path_params", obj(vec![("flow_id", s("f1"))]))]);
    let (id, req) = flow_config_get_request(&input).expect("request built");
    assert_eq!(id, "f1");
    assert_eq!(req.procedure, "state::get");
    assert_eq!(req.timeout_secs, 5);
    assert_eq!(as_str(field(&req.payload, "scope")), "__console.flowConfigs");
    assert_eq!(as_str(field(&req.payload, "key")), "f1");
}

#[test]
fn get_request_missing_id() {
    let input = obj(vec![]);
    match flow_config_get_request(&input) {
        Err(Error::Handler(m)) => assert_eq!(m, "Missing flow_id parameter"),
        _ => panic!("missing id must be rejected"),
    }
}

#[test]
fn get_request_invalid_id() {
    let input = obj(vec![("flow_id", s("a b"))]);
    match flow_config_get_request(&input) {
        Err(Error::Handler(m)) => assert_eq!(m, "Invalid flow_id: a b"),
        _ => panic!("invalid id must be rejected"),
    }
}

#[test]
fn flow_config_round_trip() {
    // Save f1 with config {a: 1} ...
    let input = obj(vec![
        ("path_params", obj(vec![("flow_id", s("f1"))])),
        ("body", obj(vec![("config", obj(vec![("a", JVal::UInt(1))]))])),
    ]);
    let req = flow_config_save_request(input).expect("save request built");
    assert_eq!(req.procedure, "state::set");
    let stored = field(&req.payload, "value");
    assert_eq!(as_str(field(stored, "id")), "f1");

    // ... then a fetch whose store call returns the stored record.
    let fetched = flow_config_get_response("f1".to_string(), Ok(clone_record(stored)));
    let body = field(&fetched, "body");
    assert_eq!(as_str(field(body, "id")), "f1");
    match field(field(body, "config"), "a") {
        JVal::UInt(1) => {},
        _ => panic!("config not preserved"),
    }
}

fn clone_record(v: &JVal) -> JVal {
    match v {
        JVal::Null => JVal::Null,
        JVal::Bool(b) => JVal::Bool(*b),
        JVal::UInt(n) => JVal::UInt(*n),
        JVal::Int(n) => JVal::Int(*n),
        JVal::Num(s) => JVal::Num(s.clone()),
        JVal::Str(s) => JVal::Str(s.clone()),
        JVal::Arr(items) => JVal::Arr(items.iter().map(clone_record).collect()),
        JVal::Obj(fields) => JVal::Obj(
            fields.iter().map(|(k, v)| (k.clone(), clone_record(v))).collect(),
        ),
    }
}

#[test]
fn get_of_never_saved_id_degrades_to_default() {
    let r = flow_config_get_response("never-saved".to_string(), Ok(JVal::Null));
    let body = field(&r, "body");
    assert_eq!(as_str(field(body, "id")), "never-saved");
    match field(body, "config") {
        JVal::Obj(f) => assert_eq!(f.len(), 0),
        _ => panic!("expected empty config object"),
    }
}

#[test]
fn get_degrades_even_when_store_fails() {
    let r = flow_config_get_response("never-saved".to_string(), Err(Error::NotConnected));
    match field(&r, "status_code") {
        JVal::UInt(200) => {},
        _ => panic!("fetch must not surface store failure"),
    }
    let body = field(&r, "body");
    assert_eq!(as_str(field(body, "id")), "never-saved");
}

#[test]
fn save_failure_is_visible() {
    let r = flow_config_save_response(Err(Error::Timeout));
    match field(&r, "status_code") {
        JVal::UInt(504) => {},
        _ => panic!("save must surface store failure"),
    }
}

#[test]
fn save_success_acknowledges() {
    let r = flow_config_save_response(Ok(JVal::Null));
    let body = field(&r, "body");
    assert_eq!(as_str(field(body, "message")), "Flow config saved successfully");
}

#[test]
fn save_request_takes_id_from_body_when_no_path() {
    let input = obj(vec![("body", obj(vec![("id", s("f2"))]))]);
    let req = flow_config_save_request(input).expect("save request built");
    assert_eq!(as_str(field(&req.payload, "key")), "f2");
    let stored = field(&req.payload, "value");
    match field(stored, "config") {
        JVal::Obj(f) => assert_eq!(f.len(), 0),
        _ => panic!("absent config must default to an empty object"),
    }
}

#[test]
fn save_request_invalid_id_rejected() {
    let input = obj(vec![("path_params", obj(vec![("flow_id", s("bad id"))]))]);
    match flow_config_save_request(input) {
        Err(Error::Handler(m)) => assert_eq!(m, "Invalid flow_id: bad id"),
        _ => panic!("invalid id must be rejected"),
    }
}
