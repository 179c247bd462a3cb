use console_bridge::error::{error_response, success_response, Error};
use console_bridge::json::JVal;

fn field<'a>(v: &'a JVal, key: &str) -> &'a JVal {
    v.get(key).expect("field present")
}

fn as_str(v: &JVal) -> &str {
    match v {
        JVal::Str(s) => s.as_str(),
        _ => panic!("expected a string"),
    }
}

fn as_u64(v: &JVal) -> u64 {
    match v {
        JVal::UInt(n) => *n,
        _ => panic!("expected an unsigned number"),
    }
}

fn check_error(e: Error, status: u64, message: &str) {
    let r = error_response(e);
    assert_eq!(as_u64(field(&r, "status_code")), status);
    match field(&r, "headers") {
        JVal::Arr(h) => assert_eq!(h.len(), 0),
        _ => panic!("expected headers array"),
    }
    assert_eq!(as_str(field(field(&r, "body"), "error")), message);
}

#[test]
fn error_table_not_connected() {
    check_error(Error::NotConnected, 503, "Bridge is not connected");
}

#[test]
fn error_table_timeout() {
    check_error(Error::Timeout, 504, "Invocation timed out");
}

#[test]
fn error_table_remote() {
    check_error(
        Error::Remote { code: "E42".to_string(), message: "boom".to_string() },
        502,
        "Remote error (E42): boom",
    );
}

#[test]
fn error_table_handler() {
    check_error(Error::Handler("bad input".to_string()), 500, "Handler error: bad input");
}

#[test]
fn error_table_serde() {
    check_error(Error::Serde("bad json".to_string()), 500, "Serialization error: bad json");
}

#[test]
fn error_table_transport() {
    check_error(Error::Transport("closed".to_string()), 503, "WebSocket error: closed");
}

#[test]
fn success_wraps_body_under_200() {
    let body = JVal::Obj(vec![("ok".to_string(), JVal::Bool(true))]);
    let r = success_response(body);
    assert_eq!(as_u64(field(&r, "status_code")), 200);
    match field(&r, "headers") {
        JVal::Arr(h) => assert_eq!(h.len(), 0),
        _ => panic!("expected headers array"),
    }
    match field(field(&r, "body"), "ok") {
        JVal::Bool(true) => {},
        _ => panic!("body not preserved"),
    }
}
