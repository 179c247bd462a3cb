use console_bridge::json::JVal;
use console_bridge::normalize::{effective_input, get_scoped_str, parse_bool_param, take_scoped};

fn obj(fields: Vec<(&str, JVal)>) -> JVal {
    JVal::Obj(fields.into_iter().map(|(k, v)| (k.to_string(), v)).collect())
}

fn s(x: &str) -> JVal {
    JVal::Str(x.to_string())
}

#[test]
fn bool_param_true_boolean() {
    let input = obj(vec![("query_params", obj(vec![("flag", JVal::Bool(true))]))]);
    assert!(parse_bool_param(&input, "flag"));
}

#[test]
fn bool_param_true_string_any_case() {
    for lit in ["true", "TRUE", "True", "tRuE"] {
        let input = obj(vec![("query_params", obj(vec![("flag", s(lit))]))]);
        assert!(parse_bool_param(&input, "flag"), "{} should parse as true", lit);
    }
}

#[test]
fn bool_param_false_shapes() {
    let cases = vec![
        obj(vec![("query_params", obj(vec![("flag", s("false"))]))]),
        obj(vec![("query_params", obj(vec![("flag", JVal::UInt(1))]))]),
        obj(vec![("query_params", obj(vec![("flag", JVal::Arr(vec![]))]))]),
        obj(vec![("query_params", obj(vec![]))]),
        obj(vec![("query_params", obj(vec![("flag", JVal::Bool(false))]))]),
    ];
    for input in cases {
        assert!(!parse_bool_param(&input, "flag"));
    }
}

#[test]
fn bool_param_falls_back_to_top_level() {
    let input = obj(vec![("flag", s("True"))]);
    assert!(parse_bool_param(&input, "flag"));
}

#[test]
fn bool_param_query_params_shadow_top_level() {
    // query_params is present, so its (absent) flag wins over the top level.
    let input = obj(vec![("query_params", obj(vec![])), ("flag", JVal::Bool(true))]);
    assert!(!parse_bool_param(&input, "flag"));
}

#[test]
fn scoped_str_prefers_scope() {
    let input = obj(vec![("body", obj(vec![("k", s("inner"))])), ("k", s("outer"))]);
    assert_eq!(get_scoped_str(&input, "body", "k").unwrap(), "inner");
}

#[test]
fn scoped_str_falls_back_on_non_string() {
    let input = obj(vec![("body", obj(vec![("k", JVal::UInt(3))])), ("k", s("outer"))]);
    assert_eq!(get_scoped_str(&input, "body", "k").unwrap(), "outer");
}

#[test]
fn scoped_str_absent_everywhere() {
    let input = obj(vec![("body", obj(vec![]))]);
    assert!(get_scoped_str(&input, "body", "k").is_none());
}

#[test]
fn effective_input_unwraps_body() {
    let input = obj(vec![("body", obj(vec![("x", JVal::UInt(1))])), ("y", JVal::UInt(2))]);
    let e = effective_input(input);
    assert!(e.get("x").is_some());
    assert!(e.get("y").is_none());
}

#[test]
fn effective_input_without_body_is_identity() {
    let input = obj(vec![("y", JVal::UInt(2))]);
    let e = effective_input(input);
    assert!(e.get("y").is_some());
}

#[test]
fn take_scoped_moves_scoped_value() {
    let input = obj(vec![("body", obj(vec![("v", JVal::UInt(7))])), ("v", JVal::UInt(9))]);
    match take_scoped(input, "body", "v") {
        Some(JVal::UInt(7)) => {},
        _ => panic!("expected the body's value"),
    }
}

#[test]
fn take_scoped_falls_back_to_top_level() {
    let input = obj(vec![("body", obj(vec![])), ("v", JVal::UInt(9))]);
    match take_scoped(input, "body", "v") {
        Some(JVal::UInt(9)) => {},
        _ => panic!("expected the top-level value"),
    }
}
