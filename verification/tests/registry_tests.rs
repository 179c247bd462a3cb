use console_bridge::error::Error;
use console_bridge::json::JVal;
use console_bridge::registry::{console_registry, HandlerId, Registry};
use console_bridge::trigger_table::{trigger_config, trigger_kind, trigger_table, HttpMethod};

#[test]
fn console_registry_holds_all_endpoints() {
    let reg = console_registry();
    assert_eq!(reg.entries.len(), 24);
    assert!(matches!(
        reg.dispatch("engine::console::status"),
        Some(HandlerId::Status)
    ));
    assert!(matches!(
        reg.dispatch("engine::console::cron_trigger"),
        Some(HandlerId::CronTrigger)
    ));
    assert!(matches!(
        reg.dispatch("engine::console::state_item_delete"),
        Some(HandlerId::StateItemDelete)
    ));
    assert!(reg.dispatch("engine::console::unknown").is_none());
}

#[test]
fn registry_rejects_duplicate_name() {
    let mut reg = Registry::new();
    reg.register("engine::console::health".to_string(), HandlerId::Health)
        .expect("first registration");
    match reg.register("engine::console::health".to_string(), HandlerId::Workers) {
        Err(Error::Handler(m)) => {
            assert_eq!(m, "Duplicate function name: engine::console::health");
        },
        _ => panic!("duplicate registration must be rejected"),
    }
    assert_eq!(reg.entries.len(), 1);
    assert!(matches!(
        reg.dispatch("engine::console::health"),
        Some(HandlerId::Health)
    ));
}

#[test]
fn trigger_table_covers_every_endpoint() {
    let table = trigger_table();
    assert_eq!(table.len(), 24);
    let reg = console_registry();
    for entry in &table {
        assert!(
            reg.dispatch(entry.function_name.as_str()).is_some(),
            "{} has no registered handler",
            entry.function_name
        );
    }
}

#[test]
fn trigger_table_known_entries() {
    let table = trigger_table();
    assert_eq!(table[0].function_name, "engine::console::status");
    assert_eq!(table[0].api_path, "_console/status");
    assert!(matches!(table[0].method, HttpMethod::Get));
    assert_eq!(table[18].function_name, "engine::console::state_item_delete");
    assert_eq!(table[18].api_path, "_console/states/:group/item/:key");
    assert!(matches!(table[18].method, HttpMethod::Delete));
    assert_eq!(table[23].function_name, "engine::console::cron_trigger");
    assert_eq!(table[23].api_path, "_console/cron-trigger");
    assert!(matches!(table[23].method, HttpMethod::Post));
}

#[test]
fn trigger_kind_is_http() {
    assert_eq!(trigger_kind(), "http");
}

#[test]
fn trigger_config_names_path_and_method() {
    let table = trigger_table();
    let c = trigger_config(&table[0]);
    match c.get("api_path") {
        Some(JVal::Str(p)) => assert_eq!(p, "_console/status"),
        _ => panic!("api_path lost"),
    }
    match c.get("http_method") {
        Some(JVal::Str(m)) => assert_eq!(m, "GET"),
        _ => panic!("http_method lost"),
    }
}
