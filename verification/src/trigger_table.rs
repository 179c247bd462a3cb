//! The static trigger table: for each console function, the HTTP path
//! template and method registered with the transport at startup, under the
//! `http` trigger kind.

use vstd::prelude::*;
use vstd::string::*;
use crate::json::JVal;
use crate::rpc::obj2;

verus! {

/// An HTTP method a console trigger answers to.
#[derive(Clone, Copy, Debug, PartialEq, Eq, Structural)]
pub enum HttpMethod {
    Get,
    Post,
    Delete,
}

impl HttpMethod {
    /// The method's wire name.
    pub open spec fn spec_name(self) -> Seq<char> {
        match self {
            HttpMethod::Get => "GET"@,
            HttpMethod::Post => "POST"@,
            HttpMethod::Delete => "DELETE"@,
        }
    }

    /// Renders the method's wire name.
    pub fn name(&self) -> (r: &'static str)
        ensures
            r@ == self.spec_name(),
    {
        match self {
            HttpMethod::Get => "GET",
            HttpMethod::Post => "POST",
            HttpMethod::Delete => "DELETE",
        }
    }
}

/// One trigger registration: a function name, its HTTP path template, and
/// the method.
pub struct TriggerEntry {
    pub function_name: String,
    pub api_path: String,
    pub method: HttpMethod,
}

/// Entry `i` of the table binds the given function, path and method.
pub open spec fn entry_is(
    t: Seq<TriggerEntry>,
    i: int,
    name: Seq<char>,
    path: Seq<char>,
    method: HttpMethod,
) -> bool {
    &&& 0 <= i < t.len()
    &&& t[i].function_name@ == name
    &&& t[i].api_path@ == path
    &&& t[i].method == method
}

/// The trigger kind every console trigger registers under.
pub fn trigger_kind() -> (r: &'static str)
    ensures
        r@ == "http"@,
{
    "http"
}

/// The transport-side configuration of one entry: its path template and
/// method name.
pub fn trigger_config(entry: &TriggerEntry) -> (r: JVal)
    ensures
        r matches JVal::Obj(f) && f@.len() == 2 && f@[0].0@ == "api_path"@ && (
        f@[0].1 matches JVal::Str(p) && p@ == entry.api_path@) && f@[1].0@ == "http_method"@ && (
        f@[1].1 matches JVal::Str(m) && m@ == entry.method.spec_name()),
{
    obj2(
        "api_path",
        JVal::Str(entry.api_path.clone()),
        "http_method",
        JVal::Str(String::from_str(entry.method.name())),
    )
}

/// The console's trigger table: every endpoint function with its HTTP path
/// template and method, in registration order.
pub fn trigger_table() -> (r: Vec<TriggerEntry>)
    ensures
        r@.len() == 24,
        entry_is(r@, 0, "engine::console::status"@, "_console/status"@, HttpMethod::Get),
        entry_is(r@, 1, "engine::console::health"@, "_console/health"@, HttpMethod::Get),
        entry_is(r@, 2, "engine::console::functions"@, "_console/functions"@, HttpMethod::Get),
        entry_is(r@, 3, "engine::console::triggers"@, "_console/triggers"@, HttpMethod::Get),
        entry_is(r@, 4, "engine::console::trigger_types"@, "_console/trigger-types"@, HttpMethod::Get),
        entry_is(r@, 5, "engine::console::workers"@, "_console/workers"@, HttpMethod::Get),
        entry_is(r@, 6, "engine::console::alerts_list"@, "_console/alerts"@, HttpMethod::Get),
        entry_is(r@, 7, "engine::console::sampling_rules"@, "_console/sampling/rules"@, HttpMethod::Get),
        entry_is(r@, 8, "engine::console::otel_logs_list"@, "_console/otel/logs"@, HttpMethod::Post),
        entry_is(r@, 9, "engine::console::otel_logs_clear"@, "_console/otel/logs/clear"@, HttpMethod::Post),
        entry_is(r@, 10, "engine::console::otel_traces_list"@, "_console/otel/traces"@, HttpMethod::Post),
        entry_is(r@, 11, "engine::console::otel_traces_clear"@, "_console/otel/traces/clear"@, HttpMethod::Post),
        entry_is(r@, 12, "engine::console::otel_traces_tree"@, "_console/otel/traces/tree"@, HttpMethod::Post),
        entry_is(r@, 13, "engine::console::metrics_detailed"@, "_console/metrics/detailed"@, HttpMethod::Post),
        entry_is(r@, 14, "engine::console::rollups_list"@, "_console/rollups"@, HttpMethod::Post),
        entry_is(r@, 15, "engine::console::state_groups_list"@, "_console/states/groups"@, HttpMethod::Get),
        entry_is(r@, 16, "engine::console::state_group_items"@, "_console/states/group"@, HttpMethod::Post),
        entry_is(r@, 17, "engine::console::state_item_set"@, "_console/states/:group/item"@, HttpMethod::Post),
        entry_is(r@, 18, "engine::console::state_item_delete"@, "_console/states/:group/item/:key"@, HttpMethod::Delete),
        entry_is(r@, 19, "engine::console::streams_list"@, "_console/streams/list"@, HttpMethod::Get),
        entry_is(r@, 20, "engine::console::flow_config_get"@, "_console/flows/config/:flow_id"@, HttpMethod::Get),
        entry_is(r@, 21, "engine::console::flow_config_save"@, "_console/flows/config/:flow_id"@, HttpMethod::Post),
        entry_is(r@, 22, "engine::console::invoke"@, "_console/invoke"@, HttpMethod::Post),
        entry_is(r@, 23, "engine::console::cron_trigger"@, "_console/cron-trigger"@, HttpMethod::Post),
{
    let mut t: Vec<TriggerEntry> = Vec::new();
    t.push(
        TriggerEntry {
            function_name: String::from_str("engine::console::status"),
            api_path: String::from_str("_console/status"),
            method: HttpMethod::Get,
        },
    );
    t.push(
        TriggerEntry {
            function_name: String::from_str("engine::console::health"),
            api_path: String::from_str("_console/health"),
            method: HttpMethod::Get,
        },
    );
    t.push(
        TriggerEntry {
            function_name: String::from_str("engine::console::functions"),
            api_path: String::from_str("_console/functions"),
            method: HttpMethod::Get,
        },
    );
    t.push(
        TriggerEntry {
            function_name: String::from_str("engine::console::triggers"),
            api_path: String::from_str("_console/triggers"),
            method: HttpMethod::Get,
        },
    );
    t.push(
        TriggerEntry {
            function_name: String::from_str("engine::console::trigger_types"),
            api_path: String::from_str("_console/trigger-types"),
            method: HttpMethod::Get,
        },
    );
    t.push(
        TriggerEntry {
            function_name: String::from_str("engine::console::workers"),
            api_path: String::from_str("_console/workers"),
            method: HttpMethod::Get,
        },
    );
    t.push(
        TriggerEntry {
            function_name: String::from_str("engine::console::alerts_list"),
            api_path: String::from_str("_console/alerts"),
            method: HttpMethod::Get,
        },
    );
    t.push(
        TriggerEntry {
            function_name: String::from_str("engine::console::sampling_rules"),
            api_path: String::from_str("_console/sampling/rules"),
            method: HttpMethod::Get,
        },
    );
    t.push(
        TriggerEntry {
            function_name: String::from_str("engine::console::otel_logs_list"),
            api_path: String::from_str("_console/otel/logs"),
            method: HttpMethod::Post,
        },
    );
    t.push(
        TriggerEntry {
            function_name: String::from_str("engine::console::otel_logs_clear"),
            api_path: String::from_str("_console/otel/logs/clear"),
            method: HttpMethod::Post,
        },
    );
    t.push(
        TriggerEntry {
            function_name: String::from_str("engine::console::otel_traces_list"),
            api_path: String::from_str("_console/otel/traces"),
            method: HttpMethod::Post,
        },
    );
    t.push(
        TriggerEntry {
            function_name: String::from_str("engine::console::otel_traces_clear"),
            api_path: String::from_str("_console/otel/traces/clear"),
            method: HttpMethod::Post,
        },
    );
    t.push(
        TriggerEntry {
            function_name: String::from_str("engine::console::otel_traces_tree"),
            api_path: String::from_str("_console/otel/traces/tree"),
            method: HttpMethod::Post,
        },
    );
    t.push(
        TriggerEntry {
            function_name: String::from_str("engine::console::metrics_detailed"),
            api_path: String::from_str("_console/metrics/detailed"),
            method: HttpMethod::Post,
        },
    );
    t.push(
        TriggerEntry {
            function_name: String::from_str("engine::console::rollups_list"),
            api_path: String::from_str("_console/rollups"),
            method: HttpMethod::Post,
        },
    );
    t.push(
        TriggerEntry {
            function_name: String::from_str("engine::console::state_groups_list"),
            api_path: String::from_str("_console/states/groups"),
            method: HttpMethod::Get,
        },
    );
    t.push(
        TriggerEntry {
            function_name: String::from_str("engine::console::state_group_items"),
            api_path: String::from_str("_console/states/group"),
            method: HttpMethod::Post,
        },
    );
    t.push(
        TriggerEntry {
            function_name: String::from_str("engine::console::state_item_set"),
            api_path: String::from_str("_console/states/:group/item"),
            method: HttpMethod::Post,
        },
    );
    t.push(
        TriggerEntry {
            function_name: String::from_str("engine::console::state_item_delete"),
            api_path: String::from_str("_console/states/:group/item/:key"),
            method: HttpMethod::Delete,
        },
    );
    t.push(
        TriggerEntry {
            function_name: String::from_str("engine::console::streams_list"),
            api_path: String::from_str("_console/streams/list"),
            method: HttpMethod::Get,
        },
    );
    t.push(
        TriggerEntry {
            function_name: String::from_str("engine::console::flow_config_get"),
            api_path: String::from_str("_console/flows/config/:flow_id"),
            method: HttpMethod::Get,
        },
    );
    t.push(
        TriggerEntry {
            function_name: String::from_str("engine::console::flow_config_save"),
            api_path: String::from_str("_console/flows/config/:flow_id"),
            method: HttpMethod::Post,
        },
    );
    t.push(
        TriggerEntry {
            function_name: String::from_str("engine::console::invoke"),
            api_path: String::from_str("_console/invoke"),
            method: HttpMethod::Post,
        },
    );
    t.push(
        TriggerEntry {
            function_name: String::from_str("engine::console::cron_trigger"),
            api_path: String::from_str("_console/cron-trigger"),
            method: HttpMethod::Post,
        },
    );
    t
}

} // verus!
