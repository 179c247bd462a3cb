use console_bridge::error::Error;
use console_bridge::json::JVal;
use console_bridge::state::{state_group_items_request, state_group_items_response,
    state_groups_list_request, state_groups_list_response, state_item_delete_request,
    state_item_set_request};

fn obj(fields: Vec<(&str, JVal)>) -> JVal {
    JVal::Obj(fields.into_iter().map(|(k, v)| (k.to_string(), v)).collect())
}

fn s(x: &str) -> JVal {
    JVal::Str(x.to_string())
}

fn field<'a>(v: &'a JVal, key: &str) -> &'a JVal {
    v.get(key).expect("field present")
}

fn as_str(v: &JVal) -> &str {
    match v {
        JVal::Str(t) => t.as_str(),
        _ => panic!("expected a string"),
    }
}

fn as_u64(v: &JVal) -> u64 {
    match v {
        JVal::UInt(n) => *n,
        _ => panic!("expected an unsigned number"),
    }
}

#[test]
fn groups_list_request_shape() {
    let r = state_groups_list_request();
    assert_eq!(r.procedure, "state::list_groups");
    assert_eq!(r.timeout_secs, 5);
}

#[test]
fn groups_list_transforms_names() {
    let data = obj(vec![("groups", JVal::Arr(vec![s("g1"), JVal::UInt(7), s("g2")]))]);
    let r = state_groups_list_response(Ok(data));
    let body = field(&r, "body");
    assert_eq!(as_u64(field(body, "count")), 2);
    match field(body, "groups") {
        JVal::Arr(groups) => {
            assert_eq!(groups.len(), 2);
            assert_eq!(as_str(field(&groups[0], "id")), "g1");
            assert_eq!(as_u64(field(&groups[0], "count")), 0);
            assert_eq!(as_str(field(&groups[1], "id")), "g2");
        },
        _ => panic!("expected groups array"),
    }
}

#[test]
fn groups_list_malformed_is_empty() {
    let r = state_groups_list_response(Ok(obj(vec![])));
    let body = field(&r, "body");
    assert_eq!(as_u64(field(body, "count")), 0);
}

#[test]
fn groups_list_error_propagates() {
    let r = state_groups_list_response(Err(Error::NotConnected));
    assert_eq!(as_u64(field(&r, "status_code")), 503);
}

#[test]
fn group_items_requires_scope() {
    let input = obj(vec![("body", obj(vec![]))]);
    match state_group_items_request(&input) {
        Err(Error::Handler(m)) => assert_eq!(m, "Missing scope in request"),
        _ => panic!("missing scope must be rejected"),
    }
}

#[test]
fn group_items_request_shape() {
    let input = obj(vec![("body", obj(vec![("scope", s("orders"))]))]);
    let req = state_group_items_request(&input).expect("request built");
    assert_eq!(req.procedure, "state::list");
    assert_eq!(as_str(field(&req.payload, "scope")), "orders");
}

#[test]
fn group_items_array_passes_through() {
    let data = JVal::Arr(vec![s("a"), s("b"), s("c")]);
    let r = state_group_items_response(Ok(data));
    let body = field(&r, "body");
    assert_eq!(as_u64(field(body, "count")), 3);
    match field(body, "items") {
        JVal::Arr(items) => assert_eq!(items.len(), 3),
        _ => panic!("expected items array"),
    }
}

#[test]
fn group_items_non_array_is_empty() {
    let r = state_group_items_response(Ok(obj(vec![])));
    let body = field(&r, "body");
    assert_eq!(as_u64(field(body, "count")), 0);
}

#[test]
fn item_set_requires_group() {
    let input = obj(vec![("body", obj(vec![("key", s("k")), ("value", JVal::UInt(1))]))]);
    match state_item_set_request(input) {
        Err(Error::Handler(m)) => assert_eq!(m, "Missing group in path parameters"),
        _ => panic!("missing group must be rejected"),
    }
}

#[test]
fn item_set_requires_key() {
    let input = obj(vec![
        ("path_params", obj(vec![("group", s("g"))])),
        ("body", obj(vec![("value", JVal::UInt(1))])),
    ]);
    match state_item_set_request(input) {
        Err(Error::Handler(m)) => assert_eq!(m, "Missing key in request body"),
        _ => panic!("missing key must be rejected"),
    }
}

#[test]
fn item_set_requires_value() {
    let input = obj(vec![
        ("path_params", obj(vec![("group", s("g"))])),
        ("body", obj(vec![("key", s("k"))])),
    ]);
    match state_item_set_request(input) {
        Err(Error::Handler(m)) => assert_eq!(m, "Missing value in request body"),
        _ => panic!("missing value must be rejected"),
    }
}

#[test]
fn item_set_request_shape() {
    let input = obj(vec![
        ("path_params", obj(vec![("group", s("g"))])),
        ("body", obj(vec![("key", s("k")), ("value", obj(vec![("n", JVal::UInt(5))]))])),
    ]);
    let req = state_item_set_request(input).expect("request built");
    assert_eq!(req.procedure, "state::set");
    assert_eq!(as_str(field(&req.payload, "scope")), "g");
    assert_eq!(as_str(field(&req.payload, "key")), "k");
    assert_eq!(as_u64(field(field(&req.payload, "value"), "n")), 5);
}

#[test]
fn item_delete_requires_group_then_key() {
    let no_group = obj(vec![("path_params", obj(vec![("key", s("k"))]))]);
    match state_item_delete_request(&no_group) {
        Err(Error::Handler(m)) => assert_eq!(m, "Missing group in path parameters"),
        _ => panic!("missing group must be rejected"),
    }
    let no_key = obj(vec![("path_params", obj(vec![("group", s("g"))]))]);
    match state_item_delete_request(&no_key) {
        Err(Error::Handler(m)) => assert_eq!(m, "Missing key in path parameters"),
        _ => panic!("missing key must be rejected"),
    }
}

#[test]
fn item_delete_request_shape() {
    let input = obj(vec![("path_params", obj(vec![("group", s("g")), ("key", s("k"))]))]);
    let req = state_item_delete_request(&input).expect("request built");
    assert_eq!(req.procedure, "state::delete");
    assert_eq!(as_str(field(&req.payload, "scope")), "g");
    assert_eq!(as_str(field(&req.payload, "key")), "k");
}
