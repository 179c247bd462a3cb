//! The function registry: external-facing names mapped to handlers, built
//! once at startup, before the transport connects.
//!
//! Names are unique: registering a name twice is rejected, never silently
//! overwritten. [`console_registry`] builds the console's full table; the
//! duplicate-freedom of its names is proved, so building it cannot fail.

use vstd::prelude::*;
use vstd::string::*;
use crate::error::Error;
use crate::text::str_eq;

verus! {

/// One console endpoint's handler.
#[derive(Clone, Copy, Debug, PartialEq, Eq, Structural)]
pub enum HandlerId {
    Health,
    Workers,
    Functions,
    Triggers,
    Status,
    TriggerTypes,
    AlertsList,
    SamplingRules,
    OtelLogsList,
    OtelLogsClear,
    OtelTracesList,
    OtelTracesClear,
    OtelTracesTree,
    MetricsDetailed,
    RollupsList,
    StateGroupsList,
    StateGroupItems,
    StateItemSet,
    StateItemDelete,
    StreamsList,
    FlowConfigGet,
    FlowConfigSave,
    Invoke,
    CronTrigger,
}

/// The name at position `i`, as characters.
pub open spec fn name_at(entries: Seq<(String, HandlerId)>, i: int) -> Seq<char> {
    (entries[i].0)@
}

/// First handler bound to `name`, if any.
pub open spec fn lookup_seq(entries: Seq<(String, HandlerId)>, name: Seq<char>) -> Option<
    HandlerId,
>
    decreases entries.len(),
{
    if entries.len() == 0 {
        None
    } else if entries[0].0@ == name {
        Some(entries[0].1)
    } else {
        lookup_seq(entries.drop_first(), name)
    }
}

proof fn lemma_lookup_hit(entries: Seq<(String, HandlerId)>, name: Seq<char>, k: int)
    requires
        0 <= k < entries.len(),
        entries[k].0@ == name,
        forall|j: int| 0 <= j < k ==> (#[trigger] entries[j].0)@ != name,
    ensures
        lookup_seq(entries, name) == Some(entries[k].1),
    decreases k,
{
    if k > 0 {
        lemma_lookup_hit(entries.drop_first(), name, k - 1);
    }
}

proof fn lemma_lookup_miss(entries: Seq<(String, HandlerId)>, name: Seq<char>)
    requires
        forall|j: int| 0 <= j < entries.len() ==> (#[trigger] entries[j].0)@ != name,
    ensures
        lookup_seq(entries, name) is None,
    decreases entries.len(),
{
    if entries.len() > 0 {
        lemma_lookup_miss(entries.drop_first(), name);
    }
}

/// Law: in a well-formed registry, each registered name resolves to its own
/// handler -- a later registration can never shadow an earlier one, because a
/// duplicate name is rejected at registration.
pub proof fn lemma_wf_lookup(r: Registry, k: int)
    requires
        r.wf(),
        0 <= k < r.entries@.len(),
    ensures
        r.spec_lookup(name_at(r.entries@, k)) == Some(r.entries@[k].1),
{
    assert forall|j: int| 0 <= j < k implies (#[trigger] r.entries@[j].0)@ != name_at(
        r.entries@,
        k,
    ) by {
        assert(name_at(r.entries@, j) != name_at(r.entries@, k));
    }
    lemma_lookup_hit(r.entries@, name_at(r.entries@, k), k);
}

/// The registry of named handlers.
pub struct Registry {
    pub entries: Vec<(String, HandlerId)>,
}

impl Registry {
    /// Registration names are unique.
    pub open spec fn wf(self) -> bool {
        forall|i: int, j: int|
            0 <= i < j < self.entries@.len() ==> #[trigger] name_at(self.entries@, i)
                != #[trigger] name_at(self.entries@, j)
    }

    /// The handler bound to a name.
    pub open spec fn spec_lookup(self, name: Seq<char>) -> Option<HandlerId> {
        lookup_seq(self.entries@, name)
    }

    /// An empty registry.
    pub fn new() -> (r: Registry)
        ensures
            r.wf(),
            r.entries@.len() == 0,
    {
        Registry { entries: Vec::new() }
    }

    /// Binds `name` to `handler`. Fails exactly on a duplicate name, with a
    /// `Handler` error naming it; the registry is then unchanged.
    pub fn register(&mut self, name: String, handler: HandlerId) -> (r: Result<(), Error>)
        requires
            old(self).wf(),
        ensures
            final(self).wf(),
            match r {
                Ok(_) => {
                    &&& old(self).spec_lookup(name@) is None
                    &&& final(self).entries@ == old(self).entries@.push((name, handler))
                },
                Err(e) => {
                    &&& old(self).spec_lookup(name@) is Some
                    &&& final(self).entries@ == old(self).entries@
                    &&& e matches Error::Handler(m) && m@ == "Duplicate function name: "@ + name@
                },
            },
    {
        let n = self.entries.len();
        let mut i: usize = 0;
        while i < n
            invariant
                old(self).wf(),
                self.entries@ == old(self).entries@,
                n == self.entries@.len(),
                i <= n,
                forall|j: int| 0 <= j < i ==> (#[trigger] self.entries@[j].0)@ != name@,
            decreases n - i,
        {
            if str_eq(self.entries[i].0.as_str(), name.as_str()) {
                proof {
                    lemma_lookup_hit(self.entries@, name@, i as int);
                }
                return Err(
                    Error::Handler(
                        String::from_str("Duplicate function name: ").concat(name.as_str()),
                    ),
                );
            }
            i = i + 1;
        }
        proof {
            lemma_lookup_miss(self.entries@, name@);
        }
        self.entries.push((name, handler));
        proof {
            let e = self.entries@;
            assert forall|a: int, b: int| 0 <= a < b < e.len() implies #[trigger] name_at(e, a)
                != #[trigger] name_at(e, b) by {
                if b == e.len() - 1 {
                    assert(e[a] == old(self).entries@[a]);
                    assert(name_at(old(self).entries@, a) != name@);
                } else {
                    assert(name_at(old(self).entries@, a) != name_at(old(self).entries@, b));
                }
            }
        }
        Ok(())
    }

    /// The handler registered under `name`, used by the transport to route
    /// an inbound call.
    pub fn dispatch(&self, name: &str) -> (r: Option<HandlerId>)
        ensures
            r == self.spec_lookup(name@),
    {
        let n = self.entries.len();
        let mut i: usize = 0;
        while i < n
            invariant
                n == self.entries@.len(),
                i <= n,
                forall|j: int| 0 <= j < i ==> (#[trigger] self.entries@[j].0)@ != name@,
            decreases n - i,
        {
            if str_eq(self.entries[i].0.as_str(), name) {
                proof {
                    lemma_lookup_hit(self.entries@, name@, i as int);
                }
                return Some(self.entries[i].1);
            }
            i = i + 1;
        }
        proof {
            lemma_lookup_miss(self.entries@, name@);
        }
        None
    }
}

/// Registers one more console function; the name must be fresh.
fn add_entry(reg: &mut Registry, name: &str, handler: HandlerId)
    requires
        old(reg).wf(),
        lookup_seq(old(reg).entries@, name@) is None,
    ensures
        final(reg).wf(),
        final(reg).entries@.len() == old(reg).entries@.len() + 1,
        final(reg).entries@ == old(reg).entries@.push(
            (final(reg).entries@.last().0, handler),
        ),
        final(reg).entries@.last().0@ == name@,
        final(reg).entries@.last().1 == handler,
{
    let owned = String::from_str(name);
    let r = reg.register(owned, handler);
    proof {
        assert(r is Ok);
    }
}

/// Builds the console's registry: all twenty-four endpoint functions under
/// their namespace-qualified names. The names are pairwise distinct, so no
/// registration can fail, and the result's layout is pinned entry by entry.
pub fn console_registry() -> (r: Registry)
    ensures
        r.wf(),
        r.entries@.len() == 24,
        name_at(r.entries@, 0) == "engine::console::health"@ && r.entries@[0].1 == HandlerId::Health,
        name_at(r.entries@, 1) == "engine::console::workers"@ && r.entries@[1].1 == HandlerId::Workers,
        name_at(r.entries@, 2) == "engine::console::functions"@ && r.entries@[2].1 == HandlerId::Functions,
        name_at(r.entries@, 3) == "engine::console::triggers"@ && r.entries@[3].1 == HandlerId::Triggers,
        name_at(r.entries@, 4) == "engine::console::status"@ && r.entries@[4].1 == HandlerId::Status,
        name_at(r.entries@, 5) == "engine::console::trigger_types"@ && r.entries@[5].1 == HandlerId::TriggerTypes,
        name_at(r.entries@, 6) == "engine::console::alerts_list"@ && r.entries@[6].1 == HandlerId::AlertsList,
        name_at(r.entries@, 7) == "engine::console::sampling_rules"@ && r.entries@[7].1 == HandlerId::SamplingRules,
        name_at(r.entries@, 8) == "engine::console::otel_logs_list"@ && r.entries@[8].1 == HandlerId::OtelLogsList,
        name_at(r.entries@, 9) == "engine::console::otel_logs_clear"@ && r.entries@[9].1 == HandlerId::OtelLogsClear,
        name_at(r.entries@, 10) == "engine::console::otel_traces_list"@ && r.entries@[10].1 == HandlerId::OtelTracesList,
        name_at(r.entries@, 11) == "engine::console::otel_traces_clear"@ && r.entries@[11].1 == HandlerId::OtelTracesClear,
        name_at(r.entries@, 12) == "engine::console::otel_traces_tree"@ && r.entries@[12].1 == HandlerId::OtelTracesTree,
        name_at(r.entries@, 13) == "engine::console::metrics_detailed"@ && r.entries@[13].1 == HandlerId::MetricsDetailed,
        name_at(r.entries@, 14) == "engine::console::rollups_list"@ && r.entries@[14].1 == HandlerId::RollupsList,
        name_at(r.entries@, 15) == "engine::console::state_groups_list"@ && r.entries@[15].1 == HandlerId::StateGroupsList,
        name_at(r.entries@, 16) == "engine::console::state_group_items"@ && r.entries@[16].1 == HandlerId::StateGroupItems,
        name_at(r.entries@, 17) == "engine::console::state_item_set"@ && r.entries@[17].1 == HandlerId::StateItemSet,
        name_at(r.entries@, 18) == "engine::console::state_item_delete"@ && r.entries@[18].1 == HandlerId::StateItemDelete,
        name_at(r.entries@, 19) == "engine::console::streams_list"@ && r.entries@[19].1 == HandlerId::StreamsList,
        name_at(r.entries@, 20) == "engine::console::flow_config_get"@ && r.entries@[20].1 == HandlerId::FlowConfigGet,
        name_at(r.entries@, 21) == "engine::console::flow_config_save"@ && r.entries@[21].1 == HandlerId::FlowConfigSave,
        name_at(r.entries@, 22) == "engine::console::invoke"@ && r.entries@[22].1 == HandlerId::Invoke,
        name_at(r.entries@, 23) == "engine::console::cron_trigger"@ && r.entries@[23].1 == HandlerId::CronTrigger,
{
    proof {
        reveal_strlit("engine::console::health");
        reveal_strlit("engine::console::workers");
        reveal_strlit("engine::console::functions");
        reveal_strlit("engine::console::triggers");
        reveal_strlit("engine::console::status");
        reveal_strlit("engine::console::trigger_types");
        reveal_strlit("engine::console::alerts_list");
        reveal_strlit("engine::console::sampling_rules");
        reveal_strlit("engine::console::otel_logs_list");
        reveal_strlit("engine::console::otel_logs_clear");
        reveal_strlit("engine::console::otel_traces_list");
        reveal_strlit("engine::console::otel_traces_clear");
        reveal_strlit("engine::console::otel_traces_tree");
        reveal_strlit("engine::console::metrics_detailed");
        reveal_strlit("engine::console::rollups_list");
        reveal_strlit("engine::console::state_groups_list");
        reveal_strlit("engine::console::state_group_items");
        reveal_strlit("engine::console::state_item_set");
        reveal_strlit("engine::console::state_item_delete");
        reveal_strlit("engine::console::streams_list");
        reveal_strlit("engine::console::flow_config_get");
        reveal_strlit("engine::console::flow_config_save");
        reveal_strlit("engine::console::invoke");
        reveal_strlit("engine::console::cron_trigger");
        assert("engine::console::health"@.len() == 23);
        assert("engine::console::workers"@.len() == 24);
        assert("engine::console::functions"@.len() == 26);
        assert("engine::console::triggers"@.len() == 25);
        assert("engine::console::status"@.len() == 23);
        assert("engine::console::trigger_types"@.len() == 30);
        assert("engine::console::alerts_list"@.len() == 28);
        assert("engine::console::sampling_rules"@.len() == 31);
        assert("engine::console::otel_logs_list"@.len() == 31);
        assert("engine::console::otel_logs_clear"@.len() == 32);
        assert("engine::console::otel_traces_list"@.len() == 33);
        assert("engine::console::otel_traces_clear"@.len() == 34);
        assert("engine::console::otel_traces_tree"@.len() == 33);
        assert("engine::console::metrics_detailed"@.len() == 33);
        assert("engine::console::rollups_list"@.len() == 29);
        assert("engine::console::state_groups_list"@.len() == 34);
        assert("engine::console::state_group_items"@.len() == 34);
        assert("engine::console::state_item_set"@.len() == 31);
        assert("engine::console::state_item_delete"@.len() == 34);
        assert("engine::console::streams_list"@.len() == 29);
        assert("engine::console::flow_config_get"@.len() == 32);
        assert("engine::console::flow_config_save"@.len() == 33);
        assert("engine::console::invoke"@.len() == 23);
        assert("engine::console::cron_trigger"@.len() == 29);
        assert("engine::console::health"@ != "engine::console::workers"@);
        assert("engine::console::health"@ != "engine::console::functions"@);
        assert("engine::console::health"@ != "engine::console::triggers"@);
        assert("engine::console::health"@[17] != "engine::console::status"@[17]);
        assert("engine::console::health"@ != "engine::console::status"@);
        assert("engine::console::health"@ != "engine::console::trigger_types"@);
        assert("engine::console::health"@ != "engine::console::alerts_list"@);
        assert("engine::console::health"@ != "engine::console::sampling_rules"@);
        assert("engine::console::health"@ != "engine::console::otel_logs_list"@);
        assert("engine::console::health"@ != "engine::console::otel_logs_clear"@);
        assert("engine::console::health"@ != "engine::console::otel_traces_list"@);
        assert("engine::console::health"@ != "engine::console::otel_traces_clear"@);
        assert("engine::console::health"@ != "engine::console::otel_traces_tree"@);
        assert("engine::console::health"@ != "engine::console::metrics_detailed"@);
        assert("engine::console::health"@ != "engine::console::rollups_list"@);
        assert("engine::console::health"@ != "engine::console::state_groups_list"@);
        assert("engine::console::health"@ != "engine::console::state_group_items"@);
        assert("engine::console::health"@ != "engine::console::state_item_set"@);
        assert("engine::console::health"@ != "engine::console::state_item_delete"@);
        assert("engine::console::health"@ != "engine::console::streams_list"@);
        assert("engine::console::health"@ != "engine::console::flow_config_get"@);
        assert("engine::console::health"@ != "engine::console::flow_config_save"@);
        assert("engine::console::health"@[17] != "engine::console::invoke"@[17]);
        assert("engine::console::health"@ != "engine::console::invoke"@);
        assert("engine::console::health"@ != "engine::console::cron_trigger"@);
        assert("engine::console::workers"@ != "engine::console::functions"@);
        assert("engine::console::workers"@ != "engine::console::triggers"@);
        assert("engine::console::workers"@ != "engine::console::status"@);
        assert("engine::console::workers"@ != "engine::console::trigger_types"@);
        assert("engine::console::workers"@ != "engine::console::alerts_list"@);
        assert("engine::console::workers"@ != "engine::console::sampling_rules"@);
        assert("engine::console::workers"@ != "engine::console::otel_logs_list"@);
        assert("engine::console::workers"@ != "engine::console::otel_logs_clear"@);
        assert("engine::console::workers"@ != "engine::console::otel_traces_list"@);
        assert("engine::console::workers"@ != "engine::console::otel_traces_clear"@);
        assert("engine::console::workers"@ != "engine::console::otel_traces_tree"@);
        assert("engine::console::workers"@ != "engine::console::metrics_detailed"@);
        assert("engine::console::workers"@ != "engine::console::rollups_list"@);
        assert("engine::console::workers"@ != "engine::console::state_groups_list"@);
        assert("engine::console::workers"@ != "engine::console::state_group_items"@);
        assert("engine::console::workers"@ != "engine::console::state_item_set"@);
        assert("engine::console::workers"@ != "engine::console::state_item_delete"@);
        assert("engine::console::workers"@ != "engine::console::streams_list"@);
        assert("engine::console::workers"@ != "engine::console::flow_config_get"@);
        assert("engine::console::workers"@ != "engine::console::flow_config_save"@);
        assert("engine::console::workers"@ != "engine::console::invoke"@);
        assert("engine::console::workers"@ != "engine::console::cron_trigger"@);
        assert("engine::console::functions"@ != "engine::console::triggers"@);
        assert("engine::console::functions"@ != "engine::console::status"@);
        assert("engine::console::functions"@ != "engine::console::trigger_types"@);
        assert("engine::console::functions"@ != "engine::console::alerts_list"@);
        assert("engine::console::functions"@ != "engine::console::sampling_rules"@);
        assert("engine::console::functions"@ != "engine::console::otel_logs_list"@);
        assert("engine::console::functions"@ != "engine::console::otel_logs_clear"@);
        assert("engine::console::functions"@ != "engine::console::otel_traces_list"@);
        assert("engine::console::functions"@ != "engine::console::otel_traces_clear"@);
        assert("engine::console::functions"@ != "engine::console::otel_traces_tree"@);
        assert("engine::console::functions"@ != "engine::console::metrics_detailed"@);
        assert("engine::console::functions"@ != "engine::console::rollups_list"@);
        assert("engine::console::functions"@ != "engine::console::state_groups_list"@);
        assert("engine::console::functions"@ != "engine::console::state_group_items"@);
        assert("engine::console::functions"@ != "engine::console::state_item_set"@);
        assert("engine::console::functions"@ != "engine::console::state_item_delete"@);
        assert("engine::console::functions"@ != "engine::console::streams_list"@);
        assert("engine::console::functions"@ != "engine::console::flow_config_get"@);
        assert("engine::console::functions"@ != "engine::console::flow_config_save"@);
        assert("engine::console::functions"@ != "engine::console::invoke"@);
        assert("engine::console::functions"@ != "engine::console::cron_trigger"@);
        assert("engine::console::triggers"@ != "engine::console::status"@);
        assert("engine::console::triggers"@ != "engine::console::trigger_types"@);
        assert("engine::console::triggers"@ != "engine::console::alerts_list"@);
        assert("engine::console::triggers"@ != "engine::console::sampling_rules"@);
        assert("engine::console::triggers"@ != "engine::console::otel_logs_list"@);
        assert("engine::console::triggers"@ != "engine::console::otel_logs_clear"@);
        assert("engine::console::triggers"@ != "engine::console::otel_traces_list"@);
        assert("engine::console::triggers"@ != "engine::console::otel_traces_clear"@);
        assert("engine::console::triggers"@ != "engine::console::otel_traces_tree"@);
        assert("engine::console::triggers"@ != "engine::console::metrics_detailed"@);
        assert("engine::console::triggers"@ != "engine::console::rollups_list"@);
        assert("engine::console::triggers"@ != "engine::console::state_groups_list"@);
        assert("engine::console::triggers"@ != "engine::console::state_group_items"@);
        assert("engine::console::triggers"@ != "engine::console::state_item_set"@);
        assert("engine::console::triggers"@ != "engine::console::state_item_delete"@);
        assert("engine::console::triggers"@ != "engine::console::streams_list"@);
        assert("engine::console::triggers"@ != "engine::console::flow_config_get"@);
        assert("engine::console::triggers"@ != "engine::console::flow_config_save"@);
        assert("engine::console::triggers"@ != "engine::console::invoke"@);
        assert("engine::console::triggers"@ != "engine::console::cron_trigger"@);
        assert("engine::console::status"@ != "engine::console::trigger_types"@);
        assert("engine::console::status"@ != "engine::console::alerts_list"@);
        assert("engine::console::status"@ != "engine::console::sampling_rules"@);
        assert("engine::console::status"@ != "engine::console::otel_logs_list"@);
        assert("engine::console::status"@ != "engine::console::otel_logs_clear"@);
        assert("engine::console::status"@ != "engine::console::otel_traces_list"@);
        assert("engine::console::status"@ != "engine::console::otel_traces_clear"@);
        assert("engine::console::status"@ != "engine::console::otel_traces_tree"@);
        assert("engine::console::status"@ != "engine::console::metrics_detailed"@);
        assert("engine::console::status"@ != "engine::console::rollups_list"@);
        assert("engine::console::status"@ != "engine::console::state_groups_list"@);
        assert("engine::console::status"@ != "engine::console::state_group_items"@);
        assert("engine::console::status"@ != "engine::console::state_item_set"@);
        assert("engine::console::status"@ != "engine::console::state_item_delete"@);
        assert("engine::console::status"@ != "engine::console::streams_list"@);
        assert("engine::console::status"@ != "engine::console::flow_config_get"@);
        assert("engine::console::status"@ != "engine::console::flow_config_save"@);
        assert("engine::console::status"@[17] != "engine::console::invoke"@[17]);
        assert("engine::console::status"@ != "engine::console::invoke"@);
        assert("engine::console::status"@ != "engine::console::cron_trigger"@);
        assert("engine::console::trigger_types"@ != "engine::console::alerts_list"@);
        assert("engine::console::trigger_types"@ != "engine::console::sampling_rules"@);
        assert("engine::console::trigger_types"@ != "engine::console::otel_logs_list"@);
        assert("engine::console::trigger_types"@ != "engine::console::otel_logs_clear"@);
        assert("engine::console::trigger_types"@ != "engine::console::otel_traces_list"@);
        assert("engine::console::trigger_types"@ != "engine::console::otel_traces_clear"@);
        assert("engine::console::trigger_types"@ != "engine::console::otel_traces_tree"@);
        assert("engine::console::trigger_types"@ != "engine::console::metrics_detailed"@);
        assert("engine::console::trigger_types"@ != "engine::console::rollups_list"@);
        assert("engine::console::trigger_types"@ != "engine::console::state_groups_list"@);
        assert("engine::console::trigger_types"@ != "engine::console::state_group_items"@);
        assert("engine::console::trigger_types"@ != "engine::console::state_item_set"@);
        assert("engine::console::trigger_types"@ != "engine::console::state_item_delete"@);
        assert("engine::console::trigger_types"@ != "engine::console::streams_list"@);
        assert("engine::console::trigger_types"@ != "engine::console::flow_config_get"@);
        assert("engine::console::trigger_types"@ != "engine::console::flow_config_save"@);
        assert("engine::console::trigger_types"@ != "engine::console::invoke"@);
        assert("engine::console::trigger_types"@ != "engine::console::cron_trigger"@);
        assert("engine::console::alerts_list"@ != "engine::console::sampling_rules"@);
        assert("engine::console::alerts_list"@ != "engine::console::otel_logs_list"@);
        assert("engine::console::alerts_list"@ != "engine::console::otel_logs_clear"@);
        assert("engine::console::alerts_list"@ != "engine::console::otel_traces_list"@);
        assert("engine::console::alerts_list"@ != "engine::console::otel_traces_clear"@);
        assert("engine::console::alerts_list"@ != "engine::console::otel_traces_tree"@);
        assert("engine::console::alerts_list"@ != "engine::console::metrics_detailed"@);
        assert("engine::console::alerts_list"@ != "engine::console::rollups_list"@);
        assert("engine::console::alerts_list"@ != "engine::console::state_groups_list"@);
        assert("engine::console::alerts_list"@ != "engine::console::state_group_items"@);
        assert("engine::console::alerts_list"@ != "engine::console::state_item_set"@);
        assert("engine::console::alerts_list"@ != "engine::console::state_item_delete"@);
        assert("engine::console::alerts_list"@ != "engine::console::streams_list"@);
        assert("engine::console::alerts_list"@ != "engine::console::flow_config_get"@);
        assert("engine::console::alerts_list"@ != "engine::console::flow_config_save"@);
        assert("engine::console::alerts_list"@ != "engine::console::invoke"@);
        assert("engine::console::alerts_list"@ != "engine::console::cron_trigger"@);
        assert("engine::console::sampling_rules"@[17] != "engine::console::otel_logs_list"@[17]);
        assert("engine::console::sampling_rules"@ != "engine::console::otel_logs_list"@);
        assert("engine::console::sampling_rules"@ != "engine::console::otel_logs_clear"@);
        assert("engine::console::sampling_rules"@ != "engine::console::otel_traces_list"@);
        assert("engine::console::sampling_rules"@ != "engine::console::otel_traces_clear"@);
        assert("engine::console::sampling_rules"@ != "engine::console::otel_traces_tree"@);
        assert("engine::console::sampling_rules"@ != "engine::console::metrics_detailed"@);
        assert("engine::console::sampling_rules"@ != "engine::console::rollups_list"@);
        assert("engine::console::sampling_rules"@ != "engine::console::state_groups_list"@);
        assert("engine::console::sampling_rules"@ != "engine::console::state_group_items"@);
        assert("engine::console::sampling_rules"@[18] != "engine::console::state_item_set"@[18]);
        assert("engine::console::sampling_rules"@ != "engine::console::state_item_set"@);
        assert("engine::console::sampling_rules"@ != "engine::console::state_item_delete"@);
        assert("engine::console::sampling_rules"@ != "engine::console::streams_list"@);
        assert("engine::console::sampling_rules"@ != "engine::console::flow_config_get"@);
        assert("engine::console::sampling_rules"@ != "engine::console::flow_config_save"@);
        assert("engine::console::sampling_rules"@ != "engine::console::invoke"@);
        assert("engine::console::sampling_rules"@ != "engine::console::cron_trigger"@);
        assert("engine::console::otel_logs_list"@ != "engine::console::otel_logs_clear"@);
        assert("engine::console::otel_logs_list"@ != "engine::console::otel_traces_list"@);
        assert("engine::console::otel_logs_list"@ != "engine::console::otel_traces_clear"@);
        assert("engine::console::otel_logs_list"@ != "engine::console::otel_traces_tree"@);
        assert("engine::console::otel_logs_list"@ != "engine::console::metrics_detailed"@);
        assert("engine::console::otel_logs_list"@ != "engine::console::rollups_list"@);
        assert("engine::console::otel_logs_list"@ != "engine::console::state_groups_list"@);
        assert("engine::console::otel_logs_list"@ != "engine::console::state_group_items"@);
        assert("engine::console::otel_logs_list"@[17] != "engine::console::state_item_set"@[17]);
        assert("engine::console::otel_logs_list"@ != "engine::console::state_item_set"@);
        assert("engine::console::otel_logs_list"@ != "engine::console::state_item_delete"@);
        assert("engine::console::otel_logs_list"@ != "engine::console::streams_list"@);
        assert("engine::console::otel_logs_list"@ != "engine::console::flow_config_get"@);
        assert("engine::console::otel_logs_list"@ != "engine::console::flow_config_save"@);
        assert("engine::console::otel_logs_list"@ != "engine::console::invoke"@);
        assert("engine::console::otel_logs_list"@ != "engine::console::cron_trigger"@);
        assert("engine::console::otel_logs_clear"@ != "engine::console::otel_traces_list"@);
        assert("engine::console::otel_logs_clear"@ != "engine::console::otel_traces_clear"@);
        assert("engine::console::otel_logs_clear"@ != "engine::console::otel_traces_tree"@);
        assert("engine::console::otel_logs_clear"@ != "engine::console::metrics_detailed"@);
        assert("engine::console::otel_logs_clear"@ != "engine::console::rollups_list"@);
        assert("engine::console::otel_logs_clear"@ != "engine::console::state_groups_list"@);
        assert("engine::console::otel_logs_clear"@ != "engine::console::state_group_items"@);
        assert("engine::console::otel_logs_clear"@ != "engine::console::state_item_set"@);
        assert("engine::console::otel_logs_clear"@ != "engine::console::state_item_delete"@);
        assert("engine::console::otel_logs_clear"@ != "engine::console::streams_list"@);
        assert("engine::console::otel_logs_clear"@[17] != "engine::console::flow_config_get"@[17]);
        assert("engine::console::otel_logs_clear"@ != "engine::console::flow_config_get"@);
        assert("engine::console::otel_logs_clear"@ != "engine::console::flow_config_save"@);
        assert("engine::console::otel_logs_clear"@ != "engine::console::invoke"@);
        assert("engine::console::otel_logs_clear"@ != "engine::console::cron_trigger"@);
        assert("engine::console::otel_traces_list"@ != "engine::console::otel_traces_clear"@);
        assert("engine::console::otel_traces_list"@[29] != "engine::console::otel_traces_tree"@[29]);
        assert("engine::console::otel_traces_list"@ != "engine::console::otel_traces_tree"@);
        assert("engine::console::otel_traces_list"@[17] != "engine::console::metrics_detailed"@[17]);
        assert("engine::console::otel_traces_list"@ != "engine::console::metrics_detailed"@);
        assert("engine::console::otel_traces_list"@ != "engine::console::rollups_list"@);
        assert("engine::console::otel_traces_list"@ != "engine::console::state_groups_list"@);
        assert("engine::console::otel_traces_list"@ != "engine::console::state_group_items"@);
        assert("engine::console::otel_traces_list"@ != "engine::console::state_item_set"@);
        assert("engine::console::otel_traces_list"@ != "engine::console::state_item_delete"@);
        assert("engine::console::otel_traces_list"@ != "engine::console::streams_list"@);
        assert("engine::console::otel_traces_list"@ != "engine::console::flow_config_get"@);
        assert("engine::console::otel_traces_list"@[17] != "engine::console::flow_config_save"@[17]);
        assert("engine::console::otel_traces_list"@ != "engine::console::flow_config_save"@);
        assert("engine::console::otel_traces_list"@ != "engine::console::invoke"@);
        assert("engine::console::otel_traces_list"@ != "engine::console::cron_trigger"@);
        assert("engine::console::otel_traces_clear"@ != "engine::console::otel_traces_tree"@);
        assert("engine::console::otel_traces_clear"@ != "engine::console::metrics_detailed"@);
        assert("engine::console::otel_traces_clear"@ != "engine::console::rollups_list"@);
        assert("engine::console::otel_traces_clear"@[17] != "engine::console::state_groups_list"@[17]);
        assert("engine::console::otel_traces_clear"@ != "engine::console::state_groups_list"@);
        assert("engine::console::otel_traces_clear"@[17] != "engine::console::state_group_items"@[17]);
        assert("engine::console::otel_traces_clear"@ != "engine::console::state_group_items"@);
        assert("engine::console::otel_traces_clear"@ != "engine::console::state_item_set"@);
        assert("engine::console::otel_traces_clear"@[17] != "engine::console::state_item_delete"@[17]);
        assert("engine::console::otel_traces_clear"@ != "engine::console::state_item_delete"@);
        assert("engine::console::otel_traces_clear"@ != "engine::console::streams_list"@);
        assert("engine::console::otel_traces_clear"@ != "engine::console::flow_config_get"@);
        assert("engine::console::otel_traces_clear"@ != "engine::console::flow_config_save"@);
        assert("engine::console::otel_traces_clear"@ != "engine::console::invoke"@);
        assert("engine::console::otel_traces_clear"@ != "engine::console::cron_trigger"@);
        assert("engine::console::otel_traces_tree"@[17] != "engine::console::metrics_detailed"@[17]);
        assert("engine::console::otel_traces_tree"@ != "engine::console::metrics_detailed"@);
        assert("engine::console::otel_traces_tree"@ != "engine::console::rollups_list"@);
        assert("engine::console::otel_traces_tree"@ != "engine::console::state_groups_list"@);
        assert("engine::console::otel_traces_tree"@ != "engine::console::state_group_items"@);
        assert("engine::console::otel_traces_tree"@ != "engine::console::state_item_set"@);
        assert("engine::console::otel_traces_tree"@ != "engine::console::state_item_delete"@);
        assert("engine::console::otel_traces_tree"@ != "engine::console::streams_list"@);
        assert("engine::console::otel_traces_tree"@ != "engine::console::flow_config_get"@);
        assert("engine::console::otel_traces_tree"@[17] != "engine::console::flow_config_save"@[17]);
        assert("engine::console::otel_traces_tree"@ != "engine::console::flow_config_save"@);
        assert("engine::console::otel_traces_tree"@ != "engine::console::invoke"@);
        assert("engine::console::otel_traces_tree"@ != "engine::console::cron_trigger"@);
        assert("engine::console::metrics_detailed"@ != "engine::console::rollups_list"@);
        assert("engine::console::metrics_detailed"@ != "engine::console::state_groups_list"@);
        assert("engine::console::metrics_detailed"@ != "engine::console::state_group_items"@);
        assert("engine::console::metrics_detailed"@ != "engine::console::state_item_set"@);
        assert("engine::console::metrics_detailed"@ != "engine::console::state_item_delete"@);
        assert("engine::console::metrics_detailed"@ != "engine::console::streams_list"@);
        assert("engine::console::metrics_detailed"@ != "engine::console::flow_config_get"@);
        assert("engine::console::metrics_detailed"@[17] != "engine::console::flow_config_save"@[17]);
        assert("engine::console::metrics_detailed"@ != "engine::console::flow_config_save"@);
        assert("engine::console::metrics_detailed"@ != "engine::console::invoke"@);
        assert("engine::console::metrics_detailed"@ != "engine::console::cron_trigger"@);
        assert("engine::console::rollups_list"@ != "engine::console::state_groups_list"@);
        assert("engine::console::rollups_list"@ != "engine::console::state_group_items"@);
        assert("engine::console::rollups_list"@ != "engine::console::state_item_set"@);
        assert("engine::console::rollups_list"@ != "engine::console::state_item_delete"@);
        assert("engine::console::rollups_list"@[17] != "engine::console::streams_list"@[17]);
        assert("engine::console::rollups_list"@ != "engine::console::streams_list"@);
        assert("engine::console::rollups_list"@ != "engine::console::flow_config_get"@);
        assert("engine::console::rollups_list"@ != "engine::console::flow_config_save"@);
        assert("engine::console::rollups_list"@ != "engine::console::invoke"@);
        assert("engine::console::rollups_list"@[17] != "engine::console::cron_trigger"@[17]);
        assert("engine::console::rollups_list"@ != "engine::console::cron_trigger"@);
        assert("engine::console::state_groups_list"@[28] != "engine::console::state_group_items"@[28]);
        assert("engine::console::state_groups_list"@ != "engine::console::state_group_items"@);
        assert("engine::console::state_groups_list"@ != "engine::console::state_item_set"@);
        assert("engine::console::state_groups_list"@[23] != "engine::console::state_item_delete"@[23]);
        assert("engine::console::state_groups_list"@ != "engine::console::state_item_delete"@);
        assert("engine::console::state_groups_list"@ != "engine::console::streams_list"@);
        assert("engine::console::state_groups_list"@ != "engine::console::flow_config_get"@);
        assert("engine::console::state_groups_list"@ != "engine::console::flow_config_save"@);
        assert("engine::console::state_groups_list"@ != "engine::console::invoke"@);
        assert("engine::console::state_groups_list"@ != "engine::console::cron_trigger"@);
        assert("engine::console::state_group_items"@ != "engine::console::state_item_set"@);
        assert("engine::console::state_group_items"@[23] != "engine::console::state_item_delete"@[23]);
        assert("engine::console::state_group_items"@ != "engine::console::state_item_delete"@);
        assert("engine::console::state_group_items"@ != "engine::console::streams_list"@);
        assert("engine::console::state_group_items"@ != "engine::console::flow_config_get"@);
        assert("engine::console::state_group_items"@ != "engine::console::flow_config_save"@);
        assert("engine::console::state_group_items"@ != "engine::console::invoke"@);
        assert("engine::console::state_group_items"@ != "engine::console::cron_trigger"@);
        assert("engine::console::state_item_set"@ != "engine::console::state_item_delete"@);
        assert("engine::console::state_item_set"@ != "engine::console::streams_list"@);
        assert("engine::console::state_item_set"@ != "engine::console::flow_config_get"@);
        assert("engine::console::state_item_set"@ != "engine::console::flow_config_save"@);
        assert("engine::console::state_item_set"@ != "engine::console::invoke"@);
        assert("engine::console::state_item_set"@ != "engine::console::cron_trigger"@);
        assert("engine::console::state_item_delete"@ != "engine::console::streams_list"@);
        assert("engine::console::state_item_delete"@ != "engine::console::flow_config_get"@);
        assert("engine::console::state_item_delete"@ != "engine::console::flow_config_save"@);
        assert("engine::console::state_item_delete"@ != "engine::console::invoke"@);
        assert("engine::console::state_item_delete"@ != "engine::console::cron_trigger"@);
        assert("engine::console::streams_list"@ != "engine::console::flow_config_get"@);
        assert("engine::console::streams_list"@ != "engine::console::flow_config_save"@);
        assert("engine::console::streams_list"@ != "engine::console::invoke"@);
        assert("engine::console::streams_list"@[17] != "engine::console::cron_trigger"@[17]);
        assert("engine::console::streams_list"@ != "engine::console::cron_trigger"@);
        assert("engine::console::flow_config_get"@ != "engine::console::flow_config_save"@);
        assert("engine::console::flow_config_get"@ != "engine::console::invoke"@);
        assert("engine::console::flow_config_get"@ != "engine::console::cron_trigger"@);
        assert("engine::console::flow_config_save"@ != "engine::console::invoke"@);
        assert("engine::console::flow_config_save"@ != "engine::console::cron_trigger"@);
        assert("engine::console::invoke"@ != "engine::console::cron_trigger"@);
    }
    let mut reg = Registry::new();
    proof {
        lemma_lookup_miss(reg.entries@, "engine::console::health"@);
    }
    add_entry(&mut reg, "engine::console::health", HandlerId::Health);
    proof {
        assert forall|j: int| 0 <= j < reg.entries@.len() implies (#[trigger] reg.entries@[j].0)@
            != "engine::console::workers"@ by {
            if j == 0 {
                assert((reg.entries@[0].0)@ == "engine::console::health"@);
            }
        }
        lemma_lookup_miss(reg.entries@, "engine::console::workers"@);
    }
    add_entry(&mut reg, "engine::console::workers", HandlerId::Workers);
    proof {
        assert forall|j: int| 0 <= j < reg.entries@.len() implies (#[trigger] reg.entries@[j].0)@
            != "engine::console::functions"@ by {
            if j == 0 {
                assert((reg.entries@[0].0)@ == "engine::console::health"@);
            } else if j == 1 {
                assert((reg.entries@[1].0)@ == "engine::console::workers"@);
            }
        }
        lemma_lookup_miss(reg.entries@, "engine::console::functions"@);
    }
    add_entry(&mut reg, "engine::console::functions", HandlerId::Functions);
    proof {
        assert forall|j: int| 0 <= j < reg.entries@.len() implies (#[trigger] reg.entries@[j].0)@
            != "engine::console::triggers"@ by {
            if j == 0 {
                assert((reg.entries@[0].0)@ == "engine::console::health"@);
            } else if j == 1 {
                assert((reg.entries@[1].0)@ == "engine::console::workers"@);
            } else if j == 2 {
                assert((reg.entries@[2].0)@ == "engine::console::functions"@);
            }
        }
        lemma_lookup_miss(reg.entries@, "engine::console::triggers"@);
    }
    add_entry(&mut reg, "engine::console::triggers", HandlerId::Triggers);
    proof {
        assert forall|j: int| 0 <= j < reg.entries@.len() implies (#[trigger] reg.entries@[j].0)@
            != "engine::console::status"@ by {
            if j == 0 {
                assert((reg.entries@[0].0)@ == "engine::console::health"@);
            } else if j == 1 {
                assert((reg.entries@[1].0)@ == "engine::console::workers"@);
            } else if j == 2 {
                assert((reg.entries@[2].0)@ == "engine::console::functions"@);
            } else if j == 3 {
                assert((reg.entries@[3].0)@ == "engine::console::triggers"@);
            }
        }
        lemma_lookup_miss(reg.entries@, "engine::console::status"@);
    }
    add_entry(&mut reg, "engine::console::status", HandlerId::Status);
    proof {
        assert forall|j: int| 0 <= j < reg.entries@.len() implies (#[trigger] reg.entries@[j].0)@
            != "engine::console::trigger_types"@ by {
            if j == 0 {
                assert((reg.entries@[0].0)@ == "engine::console::health"@);
            } else if j == 1 {
                assert((reg.entries@[1].0)@ == "engine::console::workers"@);
            } else if j == 2 {
                assert((reg.entries@[2].0)@ == "engine::console::functions"@);
            } else if j == 3 {
                assert((reg.entries@[3].0)@ == "engine::console::triggers"@);
            } else if j == 4 {
                assert((reg.entries@[4].0)@ == "engine::console::status"@);
            }
        }
        lemma_lookup_miss(reg.entries@, "engine::console::trigger_types"@);
    }
    add_entry(&mut reg, "engine::console::trigger_types", HandlerId::TriggerTypes);
    proof {
        assert forall|j: int| 0 <= j < reg.entries@.len() implies (#[trigger] reg.entries@[j].0)@
            != "engine::console::alerts_list"@ by {
            if j == 0 {
                assert((reg.entries@[0].0)@ == "engine::console::health"@);
            } else if j == 1 {
                assert((reg.entries@[1].0)@ == "engine::console::workers"@);
            } else if j == 2 {
                assert((reg.entries@[2].0)@ == "engine::console::functions"@);
            } else if j == 3 {
                assert((reg.entries@[3].0)@ == "engine::console::triggers"@);
            } else if j == 4 {
                assert((reg.entries@[4].0)@ == "engine::console::status"@);
            } else if j == 5 {
                assert((reg.entries@[5].0)@ == "engine::console::trigger_types"@);
            }
        }
        lemma_lookup_miss(reg.entries@, "engine::console::alerts_list"@);
    }
    add_entry(&mut reg, "engine::console::alerts_list", HandlerId::AlertsList);
    proof {
        assert forall|j: int| 0 <= j < reg.entries@.len() implies (#[trigger] reg.entries@[j].0)@
            != "engine::console::sampling_rules"@ by {
            if j == 0 {
                assert((reg.entries@[0].0)@ == "engine::console::health"@);
            } else if j == 1 {
                assert((reg.entries@[1].0)@ == "engine::console::workers"@);
            } else if j == 2 {
                assert((reg.entries@[2].0)@ == "engine::console::functions"@);
            } else if j == 3 {
                assert((reg.entries@[3].0)@ == "engine::console::triggers"@);
            } else if j == 4 {
                assert((reg.entries@[4].0)@ == "engine::console::status"@);
            } else if j == 5 {
                assert((reg.entries@[5].0)@ == "engine::console::trigger_types"@);
            } else if j == 6 {
                assert((reg.entries@[6].0)@ == "engine::console::alerts_list"@);
            }
        }
        lemma_lookup_miss(reg.entries@, "engine::console::sampling_rules"@);
    }
    add_entry(&mut reg, "engine::console::sampling_rules", HandlerId::SamplingRules);
    proof {
        assert forall|j: int| 0 <= j < reg.entries@.len() implies (#[trigger] reg.entries@[j].0)@
            != "engine::console::otel_logs_list"@ by {
            if j == 0 {
                assert((reg.entries@[0].0)@ == "engine::console::health"@);
            } else if j == 1 {
                assert((reg.entries@[1].0)@ == "engine::console::workers"@);
            } else if j == 2 {
                assert((reg.entries@[2].0)@ == "engine::console::functions"@);
            } else if j == 3 {
                assert((reg.entries@[3].0)@ == "engine::console::triggers"@);
            } else if j == 4 {
                assert((reg.entries@[4].0)@ == "engine::console::status"@);
            } else if j == 5 {
                assert((reg.entries@[5].0)@ == "engine::console::trigger_types"@);
            } else if j == 6 {
                assert((reg.entries@[6].0)@ == "engine::console::alerts_list"@);
            } else if j == 7 {
                assert((reg.entries@[7].0)@ == "engine::console::sampling_rules"@);
            }
        }
        lemma_lookup_miss(reg.entries@, "engine::console::otel_logs_list"@);
    }
    add_entry(&mut reg, "engine::console::otel_logs_list", HandlerId::OtelLogsList);
    proof {
        assert forall|j: int| 0 <= j < reg.entries@.len() implies (#[trigger] reg.entries@[j].0)@
            != "engine::console::otel_logs_clear"@ by {
            if j == 0 {
                assert((reg.entries@[0].0)@ == "engine::console::health"@);
            } else if j == 1 {
                assert((reg.entries@[1].0)@ == "engine::console::workers"@);
            } else if j == 2 {
                assert((reg.entries@[2].0)@ == "engine::console::functions"@);
            } else if j == 3 {
                assert((reg.entries@[3].0)@ == "engine::console::triggers"@);
            } else if j == 4 {
                assert((reg.entries@[4].0)@ == "engine::console::status"@);
            } else if j == 5 {
                assert((reg.entries@[5].0)@ == "engine::console::trigger_types"@);
            } else if j == 6 {
                assert((reg.entries@[6].0)@ == "engine::console::alerts_list"@);
            } else if j == 7 {
                assert((reg.entries@[7].0)@ == "engine::console::sampling_rules"@);
            } else if j == 8 {
                assert((reg.entries@[8].0)@ == "engine::console::otel_logs_list"@);
            }
        }
        lemma_lookup_miss(reg.entries@, "engine::console::otel_logs_clear"@);
    }
    add_entry(&mut reg, "engine::console::otel_logs_clear", HandlerId::OtelLogsClear);
    proof {
        assert forall|j: int| 0 <= j < reg.entries@.len() implies (#[trigger] reg.entries@[j].0)@
            != "engine::console::otel_traces_list"@ by {
            if j == 0 {
                assert((reg.entries@[0].0)@ == "engine::console::health"@);
            } else if j == 1 {
                assert((reg.entries@[1].0)@ == "engine::console::workers"@);
            } else if j == 2 {
                assert((reg.entries@[2].0)@ == "engine::console::functions"@);
            } else if j == 3 {
                assert((reg.entries@[3].0)@ == "engine::console::triggers"@);
            } else if j == 4 {
                assert((reg.entries@[4].0)@ == "engine::console::status"@);
            } else if j == 5 {
                assert((reg.entries@[5].0)@ == "engine::console::trigger_types"@);
            } else if j == 6 {
                assert((reg.entries@[6].0)@ == "engine::console::alerts_list"@);
            } else if j == 7 {
                assert((reg.entries@[7].0)@ == "engine::console::sampling_rules"@);
            } else if j == 8 {
                assert((reg.entries@[8].0)@ == "engine::console::otel_logs_list"@);
            } else if j == 9 {
                assert((reg.entries@[9].0)@ == "engine::console::otel_logs_clear"@);
            }
        }
        lemma_lookup_miss(reg.entries@, "engine::console::otel_traces_list"@);
    }
    add_entry(&mut reg, "engine::console::otel_traces_list", HandlerId::OtelTracesList);
    proof {
        assert forall|j: int| 0 <= j < reg.entries@.len() implies (#[trigger] reg.entries@[j].0)@
            != "engine::console::otel_traces_clear"@ by {
            if j == 0 {
                assert((reg.entries@[0].0)@ == "engine::console::health"@);
            } else if j == 1 {
                assert((reg.entries@[1].0)@ == "engine::console::workers"@);
            } else if j == 2 {
                assert((reg.entries@[2].0)@ == "engine::console::functions"@);
            } else if j == 3 {
                assert((reg.entries@[3].0)@ == "engine::console::triggers"@);
            } else if j == 4 {
                assert((reg.entries@[4].0)@ == "engine::console::status"@);
            } else if j == 5 {
                assert((reg.entries@[5].0)@ == "engine::console::trigger_types"@);
            } else if j == 6 {
                assert((reg.entries@[6].0)@ == "engine::console::alerts_list"@);
            } else if j == 7 {
                assert((reg.entries@[7].0)@ == "engine::console::sampling_rules"@);
            } else if j == 8 {
                assert((reg.entries@[8].0)@ == "engine::console::otel_logs_list"@);
            } else if j == 9 {
                assert((reg.entries@[9].0)@ == "engine::console::otel_logs_clear"@);
            } else if j == 10 {
                assert((reg.entries@[10].0)@ == "engine::console::otel_traces_list"@);
            }
        }
        lemma_lookup_miss(reg.entries@, "engine::console::otel_traces_clear"@);
    }
    add_entry(&mut reg, "engine::console::otel_traces_clear", HandlerId::OtelTracesClear);
    proof {
        assert forall|j: int| 0 <= j < reg.entries@.len() implies (#[trigger] reg.entries@[j].0)@
            != "engine::console::otel_traces_tree"@ by {
            if j == 0 {
                assert((reg.entries@[0].0)@ == "engine::console::health"@);
            } else if j == 1 {
                assert((reg.entries@[1].0)@ == "engine::console::workers"@);
            } else if j == 2 {
                assert((reg.entries@[2].0)@ == "engine::console::functions"@);
            } else if j == 3 {
                assert((reg.entries@[3].0)@ == "engine::console::triggers"@);
            } else if j == 4 {
                assert((reg.entries@[4].0)@ == "engine::console::status"@);
            } else if j == 5 {
                assert((reg.entries@[5].0)@ == "engine::console::trigger_types"@);
            } else if j == 6 {
                assert((reg.entries@[6].0)@ == "engine::console::alerts_list"@);
            } else if j == 7 {
                assert((reg.entries@[7].0)@ == "engine::console::sampling_rules"@);
            } else if j == 8 {
                assert((reg.entries@[8].0)@ == "engine::console::otel_logs_list"@);
            } else if j == 9 {
                assert((reg.entries@[9].0)@ == "engine::console::otel_logs_clear"@);
            } else if j == 10 {
                assert((reg.entries@[10].0)@ == "engine::console::otel_traces_list"@);
            } else if j == 11 {
                assert((reg.entries@[11].0)@ == "engine::console::otel_traces_clear"@);
            }
        }
        lemma_lookup_miss(reg.entries@, "engine::console::otel_traces_tree"@);
    }
    add_entry(&mut reg, "engine::console::otel_traces_tree", HandlerId::OtelTracesTree);
    proof {
        assert forall|j: int| 0 <= j < reg.entries@.len() implies (#[trigger] reg.entries@[j].0)@
            != "engine::console::metrics_detailed"@ by {
            if j == 0 {
                assert((reg.entries@[0].0)@ == "engine::console::health"@);
            } else if j == 1 {
                assert((reg.entries@[1].0)@ == "engine::console::workers"@);
            } else if j == 2 {
                assert((reg.entries@[2].0)@ == "engine::console::functions"@);
            } else if j == 3 {
                assert((reg.entries@[3].0)@ == "engine::console::triggers"@);
            } else if j == 4 {
                assert((reg.entries@[4].0)@ == "engine::console::status"@);
            } else if j == 5 {
                assert((reg.entries@[5].0)@ == "engine::console::trigger_types"@);
            } else if j == 6 {
                assert((reg.entries@[6].0)@ == "engine::console::alerts_list"@);
            } else if j == 7 {
                assert((reg.entries@[7].0)@ == "engine::console::sampling_rules"@);
            } else if j == 8 {
                assert((reg.entries@[8].0)@ == "engine::console::otel_logs_list"@);
            } else if j == 9 {
                assert((reg.entries@[9].0)@ == "engine::console::otel_logs_clear"@);
            } else if j == 10 {
                assert((reg.entries@[10].0)@ == "engine::console::otel_traces_list"@);
            } else if j == 11 {
                assert((reg.entries@[11].0)@ == "engine::console::otel_traces_clear"@);
            } else if j == 12 {
                assert((reg.entries@[12].0)@ == "engine::console::otel_traces_tree"@);
            }
        }
        lemma_lookup_miss(reg.entries@, "engine::console::metrics_detailed"@);
    }
    add_entry(&mut reg, "engine::console::metrics_detailed", HandlerId::MetricsDetailed);
    proof {
        assert forall|j: int| 0 <= j < reg.entries@.len() implies (#[trigger] reg.entries@[j].0)@
            != "engine::console::rollups_list"@ by {
            if j == 0 {
                assert((reg.entries@[0].0)@ == "engine::console::health"@);
            } else if j == 1 {
                assert((reg.entries@[1].0)@ == "engine::console::workers"@);
            } else if j == 2 {
                assert((reg.entries@[2].0)@ == "engine::console::functions"@);
            } else if j == 3 {
                assert((reg.entries@[3].0)@ == "engine::console::triggers"@);
            } else if j == 4 {
                assert((reg.entries@[4].0)@ == "engine::console::status"@);
            } else if j == 5 {
                assert((reg.entries@[5].0)@ == "engine::console::trigger_types"@);
            } else if j == 6 {
                assert((reg.entries@[6].0)@ == "engine::console::alerts_list"@);
            } else if j == 7 {
                assert((reg.entries@[7].0)@ == "engine::console::sampling_rules"@);
            } else if j == 8 {
                assert((reg.entries@[8].0)@ == "engine::console::otel_logs_list"@);
            } else if j == 9 {
                assert((reg.entries@[9].0)@ == "engine::console::otel_logs_clear"@);
            } else if j == 10 {
                assert((reg.entries@[10].0)@ == "engine::console::otel_traces_list"@);
            } else if j == 11 {
                assert((reg.entries@[11].0)@ == "engine::console::otel_traces_clear"@);
            } else if j == 12 {
                assert((reg.entries@[12].0)@ == "engine::console::otel_traces_tree"@);
            } else if j == 13 {
                assert((reg.entries@[13].0)@ == "engine::console::metrics_detailed"@);
            }
        }
        lemma_lookup_miss(reg.entries@, "engine::console::rollups_list"@);
    }
    add_entry(&mut reg, "engine::console::rollups_list", HandlerId::RollupsList);
    proof {
        assert forall|j: int| 0 <= j < reg.entries@.len() implies (#[trigger] reg.entries@[j].0)@
            != "engine::console::state_groups_list"@ by {
            if j == 0 {
                assert((reg.entries@[0].0)@ == "engine::console::health"@);
            } else if j == 1 {
                assert((reg.entries@[1].0)@ == "engine::console::workers"@);
            } else if j == 2 {
                assert((reg.entries@[2].0)@ == "engine::console::functions"@);
            } else if j == 3 {
                assert((reg.entries@[3].0)@ == "engine::console::triggers"@);
            } else if j == 4 {
                assert((reg.entries@[4].0)@ == "engine::console::status"@);
            } else if j == 5 {
                assert((reg.entries@[5].0)@ == "engine::console::trigger_types"@);
            } else if j == 6 {
                assert((reg.entries@[6].0)@ == "engine::console::alerts_list"@);
            } else if j == 7 {
                assert((reg.entries@[7].0)@ == "engine::console::sampling_rules"@);
            } else if j == 8 {
                assert((reg.entries@[8].0)@ == "engine::console::otel_logs_list"@);
            } else if j == 9 {
                assert((reg.entries@[9].0)@ == "engine::console::otel_logs_clear"@);
            } else if j == 10 {
                assert((reg.entries@[10].0)@ == "engine::console::otel_traces_list"@);
            } else if j == 11 {
                assert((reg.entries@[11].0)@ == "engine::console::otel_traces_clear"@);
            } else if j == 12 {
                assert((reg.entries@[12].0)@ == "engine::console::otel_traces_tree"@);
            } else if j == 13 {
                assert((reg.entries@[13].0)@ == "engine::console::metrics_detailed"@);
            } else if j == 14 {
                assert((reg.entries@[14].0)@ == "engine::console::rollups_list"@);
            }
        }
        lemma_lookup_miss(reg.entries@, "engine::console::state_groups_list"@);
    }
    add_entry(&mut reg, "engine::console::state_groups_list", HandlerId::StateGroupsList);
    proof {
        assert forall|j: int| 0 <= j < reg.entries@.len() implies (#[trigger] reg.entries@[j].0)@
            != "engine::console::state_group_items"@ by {
            if j == 0 {
                assert((reg.entries@[0].0)@ == "engine::console::health"@);
            } else if j == 1 {
                assert((reg.entries@[1].0)@ == "engine::console::workers"@);
            } else if j == 2 {
                assert((reg.entries@[2].0)@ == "engine::console::functions"@);
            } else if j == 3 {
                assert((reg.entries@[3].0)@ == "engine::console::triggers"@);
            } else if j == 4 {
                assert((reg.entries@[4].0)@ == "engine::console::status"@);
            } else if j == 5 {
                assert((reg.entries@[5].0)@ == "engine::console::trigger_types"@);
            } else if j == 6 {
                assert((reg.entries@[6].0)@ == "engine::console::alerts_list"@);
            } else if j == 7 {
                assert((reg.entries@[7].0)@ == "engine::console::sampling_rules"@);
            } else if j == 8 {
                assert((reg.entries@[8].0)@ == "engine::console::otel_logs_list"@);
            } else if j == 9 {
                assert((reg.entries@[9].0)@ == "engine::console::otel_logs_clear"@);
            } else if j == 10 {
                assert((reg.entries@[10].0)@ == "engine::console::otel_traces_list"@);
            } else if j == 11 {
                assert((reg.entries@[11].0)@ == "engine::console::otel_traces_clear"@);
            } else if j == 12 {
                assert((reg.entries@[12].0)@ == "engine::console::otel_traces_tree"@);
            } else if j == 13 {
                assert((reg.entries@[13].0)@ == "engine::console::metrics_detailed"@);
            } else if j == 14 {
                assert((reg.entries@[14].0)@ == "engine::console::rollups_list"@);
            } else if j == 15 {
                assert((reg.entries@[15].0)@ == "engine::console::state_groups_list"@);
            }
        }
        lemma_lookup_miss(reg.entries@, "engine::console::state_group_items"@);
    }
    add_entry(&mut reg, "engine::console::state_group_items", HandlerId::StateGroupItems);
    proof {
        assert forall|j: int| 0 <= j < reg.entries@.len() implies (#[trigger] reg.entries@[j].0)@
            != "engine::console::state_item_set"@ by {
            if j == 0 {
                assert((reg.entries@[0].0)@ == "engine::console::health"@);
            } else if j == 1 {
                assert((reg.entries@[1].0)@ == "engine::console::workers"@);
            } else if j == 2 {
                assert((reg.entries@[2].0)@ == "engine::console::functions"@);
            } else if j == 3 {
                assert((reg.entries@[3].0)@ == "engine::console::triggers"@);
            } else if j == 4 {
                assert((reg.entries@[4].0)@ == "engine::console::status"@);
            } else if j == 5 {
                assert((reg.entries@[5].0)@ == "engine::console::trigger_types"@);
            } else if j == 6 {
                assert((reg.entries@[6].0)@ == "engine::console::alerts_list"@);
            } else if j == 7 {
                assert((reg.entries@[7].0)@ == "engine::console::sampling_rules"@);
            } else if j == 8 {
                assert((reg.entries@[8].0)@ == "engine::console::otel_logs_list"@);
            } else if j == 9 {
                assert((reg.entries@[9].0)@ == "engine::console::otel_logs_clear"@);
            } else if j == 10 {
                assert((reg.entries@[10].0)@ == "engine::console::otel_traces_list"@);
            } else if j == 11 {
                assert((reg.entries@[11].0)@ == "engine::console::otel_traces_clear"@);
            } else if j == 12 {
                assert((reg.entries@[12].0)@ == "engine::console::otel_traces_tree"@);
            } else if j == 13 {
                assert((reg.entries@[13].0)@ == "engine::console::metrics_detailed"@);
            } else if j == 14 {
                assert((reg.entries@[14].0)@ == "engine::console::rollups_list"@);
            } else if j == 15 {
                assert((reg.entries@[15].0)@ == "engine::console::state_groups_list"@);
            } else if j == 16 {
                assert((reg.entries@[16].0)@ == "engine::console::state_group_items"@);
            }
        }
        lemma_lookup_miss(reg.entries@, "engine::console::state_item_set"@);
    }
    add_entry(&mut reg, "engine::console::state_item_set", HandlerId::StateItemSet);
    proof {
        assert forall|j: int| 0 <= j < reg.entries@.len() implies (#[trigger] reg.entries@[j].0)@
            != "engine::console::state_item_delete"@ by {
            if j == 0 {
                assert((reg.entries@[0].0)@ == "engine::console::health"@);
            } else if j == 1 {
                assert((reg.entries@[1].0)@ == "engine::console::workers"@);
            } else if j == 2 {
                assert((reg.entries@[2].0)@ == "engine::console::functions"@);
            } else if j == 3 {
                assert((reg.entries@[3].0)@ == "engine::console::triggers"@);
            } else if j == 4 {
                assert((reg.entries@[4].0)@ == "engine::console::status"@);
            } else if j == 5 {
                assert((reg.entries@[5].0)@ == "engine::console::trigger_types"@);
            } else if j == 6 {
                assert((reg.entries@[6].0)@ == "engine::console::alerts_list"@);
            } else if j == 7 {
                assert((reg.entries@[7].0)@ == "engine::console::sampling_rules"@);
            } else if j == 8 {
                assert((reg.entries@[8].0)@ == "engine::console::otel_logs_list"@);
            } else if j == 9 {
                assert((reg.entries@[9].0)@ == "engine::console::otel_logs_clear"@);
            } else if j == 10 {
                assert((reg.entries@[10].0)@ == "engine::console::otel_traces_list"@);
            } else if j == 11 {
                assert((reg.entries@[11].0)@ == "engine::console::otel_traces_clear"@);
            } else if j == 12 {
                assert((reg.entries@[12].0)@ == "engine::console::otel_traces_tree"@);
            } else if j == 13 {
                assert((reg.entries@[13].0)@ == "engine::console::metrics_detailed"@);
            } else if j == 14 {
                assert((reg.entries@[14].0)@ == "engine::console::rollups_list"@);
            } else if j == 15 {
                assert((reg.entries@[15].0)@ == "engine::console::state_groups_list"@);
            } else if j == 16 {
                assert((reg.entries@[16].0)@ == "engine::console::state_group_items"@);
            } else if j == 17 {
                assert((reg.entries@[17].0)@ == "engine::console::state_item_set"@);
            }
        }
        lemma_lookup_miss(reg.entries@, "engine::console::state_item_delete"@);
    }
    add_entry(&mut reg, "engine::console::state_item_delete", HandlerId::StateItemDelete);
    proof {
        assert forall|j: int| 0 <= j < reg.entries@.len() implies (#[trigger] reg.entries@[j].0)@
            != "engine::console::streams_list"@ by {
            if j == 0 {
                assert((reg.entries@[0].0)@ == "engine::console::health"@);
            } else if j == 1 {
                assert((reg.entries@[1].0)@ == "engine::console::workers"@);
            } else if j == 2 {
                assert((reg.entries@[2].0)@ == "engine::console::functions"@);
            } else if j == 3 {
                assert((reg.entries@[3].0)@ == "engine::console::triggers"@);
            } else if j == 4 {
                assert((reg.entries@[4].0)@ == "engine::console::status"@);
            } else if j == 5 {
                assert((reg.entries@[5].0)@ == "engine::console::trigger_types"@);
            } else if j == 6 {
                assert((reg.entries@[6].0)@ == "engine::console::alerts_list"@);
            } else if j == 7 {
                assert((reg.entries@[7].0)@ == "engine::console::sampling_rules"@);
            } else if j == 8 {
                assert((reg.entries@[8].0)@ == "engine::console::otel_logs_list"@);
            } else if j == 9 {
                assert((reg.entries@[9].0)@ == "engine::console::otel_logs_clear"@);
            } else if j == 10 {
                assert((reg.entries@[10].0)@ == "engine::console::otel_traces_list"@);
            } else if j == 11 {
                assert((reg.entries@[11].0)@ == "engine::console::otel_traces_clear"@);
            } else if j == 12 {
                assert((reg.entries@[12].0)@ == "engine::console::otel_traces_tree"@);
            } else if j == 13 {
                assert((reg.entries@[13].0)@ == "engine::console::metrics_detailed"@);
            } else if j == 14 {
                assert((reg.entries@[14].0)@ == "engine::console::rollups_list"@);
            } else if j == 15 {
                assert((reg.entries@[15].0)@ == "engine::console::state_groups_list"@);
            } else if j == 16 {
                assert((reg.entries@[16].0)@ == "engine::console::state_group_items"@);
            } else if j == 17 {
                assert((reg.entries@[17].0)@ == "engine::console::state_item_set"@);
            } else if j == 18 {
                assert((reg.entries@[18].0)@ == "engine::console::state_item_delete"@);
            }
        }
        lemma_lookup_miss(reg.entries@, "engine::console::streams_list"@);
    }
    add_entry(&mut reg, "engine::console::streams_list", HandlerId::StreamsList);
    proof {
        assert forall|j: int| 0 <= j < reg.entries@.len() implies (#[trigger] reg.entries@[j].0)@
            != "engine::console::flow_config_get"@ by {
            if j == 0 {
                assert((reg.entries@[0].0)@ == "engine::console::health"@);
            } else if j == 1 {
                assert((reg.entries@[1].0)@ == "engine::console::workers"@);
            } else if j == 2 {
                assert((reg.entries@[2].0)@ == "engine::console::functions"@);
            } else if j == 3 {
                assert((reg.entries@[3].0)@ == "engine::console::triggers"@);
            } else if j == 4 {
                assert((reg.entries@[4].0)@ == "engine::console::status"@);
            } else if j == 5 {
                assert((reg.entries@[5].0)@ == "engine::console::trigger_types"@);
            } else if j == 6 {
                assert((reg.entries@[6].0)@ == "engine::console::alerts_list"@);
            } else if j == 7 {
                assert((reg.entries@[7].0)@ == "engine::console::sampling_rules"@);
            } else if j == 8 {
                assert((reg.entries@[8].0)@ == "engine::console::otel_logs_list"@);
            } else if j == 9 {
                assert((reg.entries@[9].0)@ == "engine::console::otel_logs_clear"@);
            } else if j == 10 {
                assert((reg.entries@[10].0)@ == "engine::console::otel_traces_list"@);
            } else if j == 11 {
                assert((reg.entries@[11].0)@ == "engine::console::otel_traces_clear"@);
            } else if j == 12 {
                assert((reg.entries@[12].0)@ == "engine::console::otel_traces_tree"@);
            } else if j == 13 {
                assert((reg.entries@[13].0)@ == "engine::console::metrics_detailed"@);
            } else if j == 14 {
                assert((reg.entries@[14].0)@ == "engine::console::rollups_list"@);
            } else if j == 15 {
                assert((reg.entries@[15].0)@ == "engine::console::state_groups_list"@);
            } else if j == 16 {
                assert((reg.entries@[16].0)@ == "engine::console::state_group_items"@);
            } else if j == 17 {
                assert((reg.entries@[17].0)@ == "engine::console::state_item_set"@);
            } else if j == 18 {
                assert((reg.entries@[18].0)@ == "engine::console::state_item_delete"@);
            } else if j == 19 {
                assert((reg.entries@[19].0)@ == "engine::console::streams_list"@);
            }
        }
        lemma_lookup_miss(reg.entries@, "engine::console::flow_config_get"@);
    }
    add_entry(&mut reg, "engine::console::flow_config_get", HandlerId::FlowConfigGet);
    proof {
        assert forall|j: int| 0 <= j < reg.entries@.len() implies (#[trigger] reg.entries@[j].0)@
            != "engine::console::flow_config_save"@ by {
            if j == 0 {
                assert((reg.entries@[0].0)@ == "engine::console::health"@);
            } else if j == 1 {
                assert((reg.entries@[1].0)@ == "engine::console::workers"@);
            } else if j == 2 {
                assert((reg.entries@[2].0)@ == "engine::console::functions"@);
            } else if j == 3 {
                assert((reg.entries@[3].0)@ == "engine::console::triggers"@);
            } else if j == 4 {
                assert((reg.entries@[4].0)@ == "engine::console::status"@);
            } else if j == 5 {
                assert((reg.entries@[5].0)@ == "engine::console::trigger_types"@);
            } else if j == 6 {
                assert((reg.entries@[6].0)@ == "engine::console::alerts_list"@);
            } else if j == 7 {
                assert((reg.entries@[7].0)@ == "engine::console::sampling_rules"@);
            } else if j == 8 {
                assert((reg.entries@[8].0)@ == "engine::console::otel_logs_list"@);
            } else if j == 9 {
                assert((reg.entries@[9].0)@ == "engine::console::otel_logs_clear"@);
            } else if j == 10 {
                assert((reg.entries@[10].0)@ == "engine::console::otel_traces_list"@);
            } else if j == 11 {
                assert((reg.entries@[11].0)@ == "engine::console::otel_traces_clear"@);
            } else if j == 12 {
                assert((reg.entries@[12].0)@ == "engine::console::otel_traces_tree"@);
            } else if j == 13 {
                assert((reg.entries@[13].0)@ == "engine::console::metrics_detailed"@);
            } else if j == 14 {
                assert((reg.entries@[14].0)@ == "engine::console::rollups_list"@);
            } else if j == 15 {
                assert((reg.entries@[15].0)@ == "engine::console::state_groups_list"@);
            } else if j == 16 {
                assert((reg.entries@[16].0)@ == "engine::console::state_group_items"@);
            } else if j == 17 {
                assert((reg.entries@[17].0)@ == "engine::console::state_item_set"@);
            } else if j == 18 {
                assert((reg.entries@[18].0)@ == "engine::console::state_item_delete"@);
            } else if j == 19 {
                assert((reg.entries@[19].0)@ == "engine::console::streams_list"@);
            } else if j == 20 {
                assert((reg.entries@[20].0)@ == "engine::console::flow_config_get"@);
            }
        }
        lemma_lookup_miss(reg.entries@, "engine::console::flow_config_save"@);
    }
    add_entry(&mut reg, "engine::console::flow_config_save", HandlerId::FlowConfigSave);
    proof {
        assert forall|j: int| 0 <= j < reg.entries@.len() implies (#[trigger] reg.entries@[j].0)@
            != "engine::console::invoke"@ by {
            if j == 0 {
                assert((reg.entries@[0].0)@ == "engine::console::health"@);
            } else if j == 1 {
                assert((reg.entries@[1].0)@ == "engine::console::workers"@);
            } else if j == 2 {
                assert((reg.entries@[2].0)@ == "engine::console::functions"@);
            } else if j == 3 {
                assert((reg.entries@[3].0)@ == "engine::console::triggers"@);
            } else if j == 4 {
                assert((reg.entries@[4].0)@ == "engine::console::status"@);
            } else if j == 5 {
                assert((reg.entries@[5].0)@ == "engine::console::trigger_types"@);
            } else if j == 6 {
                assert((reg.entries@[6].0)@ == "engine::console::alerts_list"@);
            } else if j == 7 {
                assert((reg.entries@[7].0)@ == "engine::console::sampling_rules"@);
            } else if j == 8 {
                assert((reg.entries@[8].0)@ == "engine::console::otel_logs_list"@);
            } else if j == 9 {
                assert((reg.entries@[9].0)@ == "engine::console::otel_logs_clear"@);
            } else if j == 10 {
                assert((reg.entries@[10].0)@ == "engine::console::otel_traces_list"@);
            } else if j == 11 {
                assert((reg.entries@[11].0)@ == "engine::console::otel_traces_clear"@);
            } else if j == 12 {
                assert((reg.entries@[12].0)@ == "engine::console::otel_traces_tree"@);
            } else if j == 13 {
                assert((reg.entries@[13].0)@ == "engine::console::metrics_detailed"@);
            } else if j == 14 {
                assert((reg.entries@[14].0)@ == "engine::console::rollups_list"@);
            } else if j == 15 {
                assert((reg.entries@[15].0)@ == "engine::console::state_groups_list"@);
            } else if j == 16 {
                assert((reg.entries@[16].0)@ == "engine::console::state_group_items"@);
            } else if j == 17 {
                assert((reg.entries@[17].0)@ == "engine::console::state_item_set"@);
            } else if j == 18 {
                assert((reg.entries@[18].0)@ == "engine::console::state_item_delete"@);
            } else if j == 19 {
                assert((reg.entries@[19].0)@ == "engine::console::streams_list"@);
            } else if j == 20 {
                assert((reg.entries@[20].0)@ == "engine::console::flow_config_get"@);
            } else if j == 21 {
                assert((reg.entries@[21].0)@ == "engine::console::flow_config_save"@);
            }
        }
        lemma_lookup_miss(reg.entries@, "engine::console::invoke"@);
    }
    add_entry(&mut reg, "engine::console::invoke", HandlerId::Invoke);
    proof {
        assert forall|j: int| 0 <= j < reg.entries@.len() implies (#[trigger] reg.entries@[j].0)@
            != "engine::console::cron_trigger"@ by {
            if j == 0 {
                assert((reg.entries@[0].0)@ == "engine::console::health"@);
            } else if j == 1 {
                assert((reg.entries@[1].0)@ == "engine::console::workers"@);
            } else if j == 2 {
                assert((reg.entries@[2].0)@ == "engine::console::functions"@);
            } else if j == 3 {
                assert((reg.entries@[3].0)@ == "engine::console::triggers"@);
            } else if j == 4 {
                assert((reg.entries@[4].0)@ == "engine::console::status"@);
            } else if j == 5 {
                assert((reg.entries@[5].0)@ == "engine::console::trigger_types"@);
            } else if j == 6 {
                assert((reg.entries@[6].0)@ == "engine::console::alerts_list"@);
            } else if j == 7 {
                assert((reg.entries@[7].0)@ == "engine::console::sampling_rules"@);
            } else if j == 8 {
                assert((reg.entries@[8].0)@ == "engine::console::otel_logs_list"@);
            } else if j == 9 {
                assert((reg.entries@[9].0)@ == "engine::console::otel_logs_clear"@);
            } else if j == 10 {
                assert((reg.entries@[10].0)@ == "engine::console::otel_traces_list"@);
            } else if j == 11 {
                assert((reg.entries@[11].0)@ == "engine::console::otel_traces_clear"@);
            } else if j == 12 {
                assert((reg.entries@[12].0)@ == "engine::console::otel_traces_tree"@);
            } else if j == 13 {
                assert((reg.entries@[13].0)@ == "engine::console::metrics_detailed"@);
            } else if j == 14 {
                assert((reg.entries@[14].0)@ == "engine::console::rollups_list"@);
            } else if j == 15 {
                assert((reg.entries@[15].0)@ == "engine::console::state_groups_list"@);
            } else if j == 16 {
                assert((reg.entries@[16].0)@ == "engine::console::state_group_items"@);
            } else if j == 17 {
                assert((reg.entries@[17].0)@ == "engine::console::state_item_set"@);
            } else if j == 18 {
                assert((reg.entries@[18].0)@ == "engine::console::state_item_delete"@);
            } else if j == 19 {
                assert((reg.entries@[19].0)@ == "engine::console::streams_list"@);
            } else if j == 20 {
                assert((reg.entries@[20].0)@ == "engine::console::flow_config_get"@);
            } else if j == 21 {
                assert((reg.entries@[21].0)@ == "engine::console::flow_config_save"@);
            } else if j == 22 {
                assert((reg.entries@[22].0)@ == "engine::console::invoke"@);
            }
        }
        lemma_lookup_miss(reg.entries@, "engine::console::cron_trigger"@);
    }
    add_entry(&mut reg, "engine::console::cron_trigger", HandlerId::CronTrigger);
    reg
}

} // verus!
