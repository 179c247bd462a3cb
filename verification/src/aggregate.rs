//! Composite endpoints that degrade gracefully on partial failure.
//!
//! The status endpoint joins three independent remote calls and always
//! succeeds, substituting zero counts for failed or malformed sub-results.
//! The streams endpoint transforms each remote stream descriptor into the
//! console's shape, returning an empty list for a malformed payload while
//! genuine call failures still propagate.

use vstd::prelude::*;
use vstd::string::*;
use crate::json::JVal;
use crate::error::{Error, is_error_envelope, is_success_envelope, envelope_body,
    success_response, error_response};
use crate::rpc::{RpcRequest, field_is, obj1, obj4, obj6, empty_request, TIMEOUT_READ,
    TIMEOUT_LIST_ALL};
use crate::text::has_prefix;

verus! {

/// The three independent calls joined by the status endpoint, in order:
/// worker list, function list (internal included), metrics list.
pub fn status_requests() -> (r: (RpcRequest, RpcRequest, RpcRequest))
    ensures
        r.0.procedure@ == "engine::workers::list"@ && (r.0.payload matches JVal::Obj(f) && f@.len()
            == 0) && r.0.timeout_secs == TIMEOUT_READ,
        r.1.procedure@ == "engine::functions::list"@ && (r.1.payload matches JVal::Obj(f)
            && f@.len() == 1 && field_is(f@, 0, "include_internal"@, JVal::Bool(true)))
            && r.1.timeout_secs == TIMEOUT_READ,
        r.2.procedure@ == "engine::metrics::list"@ && (r.2.payload matches JVal::Obj(f) && f@.len()
            == 0) && r.2.timeout_secs == TIMEOUT_READ,
{
    let workers = empty_request("engine::workers::list", TIMEOUT_READ);
    let functions = RpcRequest {
        procedure: String::from_str("engine::functions::list"),
        payload: obj1("include_internal", JVal::Bool(true)),
        timeout_secs: TIMEOUT_READ,
    };
    let metrics = empty_request("engine::metrics::list", TIMEOUT_READ);
    (workers, functions, metrics)
}

/// Length of the array under `field`, or zero when the call failed or the
/// field is absent or not an array.
pub open spec fn spec_array_count(res: Result<JVal, Error>, field: Seq<char>) -> int {
    match res {
        Ok(v) => match v.spec_get(field) {
            Some(JVal::Arr(items)) => items@.len() as int,
            _ => 0,
        },
        Err(_) => 0,
    }
}

/// Counts the elements of the array under `field` of a call's result.
fn array_count(res: &Result<JVal, Error>, field: &str) -> (r: usize)
    ensures
        r == spec_array_count(*res, field@),
{
    match res {
        Ok(v) => match v.get(field) {
            Some(w) => match w.as_arr() {
                Some(items) => items.len(),
                None => 0,
            },
            None => 0,
        },
        Err(_) => 0,
    }
}

/// The status endpoint's body: worker count, function count, a fixed
/// `running` marker, and whether the metrics call succeeded.
pub open spec fn is_status_body(b: JVal, wc: int, fc: int, metrics_available: bool) -> bool {
    &&& b matches JVal::Obj(f)
    &&& f@.len() == 4
    &&& field_is(f@, 0, "workers"@, JVal::UInt(wc as u64))
    &&& field_is(f@, 1, "functions"@, JVal::UInt(fc as u64))
    &&& f@[2].0@ == "status"@ && (f@[2].1 matches JVal::Str(s) && s@ == "running"@)
    &&& field_is(f@, 3, "metrics_available"@, JVal::Bool(metrics_available))
}

/// Composes the status endpoint's response. The endpoint always succeeds:
/// a failed or malformed sub-result degrades to a zero count, and only the
/// metrics call's success flag is reported.
pub fn status_response(
    workers: &Result<JVal, Error>,
    functions: &Result<JVal, Error>,
    metrics_ok: bool,
) -> (r: JVal)
    ensures
        is_success_envelope(r),
        is_status_body(
            envelope_body(r),
            spec_array_count(*workers, "workers"@),
            spec_array_count(*functions, "functions"@),
            metrics_ok,
        ),
{
    let wc = array_count(workers, "workers");
    let fc = array_count(functions, "functions");
    let body = obj4(
        "workers",
        JVal::UInt(wc as u64),
        "functions",
        JVal::UInt(fc as u64),
        "status",
        JVal::Str(String::from_str("running")),
        "metrics_available",
        JVal::Bool(metrics_ok),
    );
    success_response(body)
}

/// The stream-listing endpoint's remote call.
pub fn streams_list_request() -> (r: RpcRequest)
    ensures
        r.procedure@ == "stream::list_all"@,
        r.payload matches JVal::Obj(f) && f@.len() == 0,
        r.timeout_secs == TIMEOUT_LIST_ALL,
{
    empty_request("stream::list_all", TIMEOUT_LIST_ALL)
}

/// A stream descriptor's identifier: its `id` string, or empty when absent
/// or not a string.
pub open spec fn spec_stream_id(elem: JVal) -> Seq<char> {
    match elem.spec_get_str("id"@) {
        Some(s) => s,
        None => Seq::empty(),
    }
}

/// The strings among a sequence of JSON values, in order.
pub open spec fn spec_str_items(items: Seq<JVal>) -> Seq<Seq<char>>
    decreases items.len(),
{
    if items.len() == 0 {
        Seq::empty()
    } else {
        spec_str_items(items.drop_last()) + (if items.last() is Str {
            seq![items.last()->Str_0@]
        } else {
            Seq::empty()
        })
    }
}

/// A stream descriptor's group names: the strings of its `groups` array, or
/// none when absent or not an array.
pub open spec fn spec_stream_groups(elem: JVal) -> Seq<Seq<char>> {
    match elem.spec_get("groups"@) {
        Some(JVal::Arr(items)) => spec_str_items(items@),
        _ => Seq::empty(),
    }
}

/// An array of exactly the given strings.
pub open spec fn is_str_arr(v: JVal, ss: Seq<Seq<char>>) -> bool {
    &&& v matches JVal::Arr(items)
    &&& items@.len() == ss.len()
    &&& forall|i: int|
        0 <= i < ss.len() ==> (#[trigger] items@[i] matches JVal::Str(s) && s@ == ss[i])
}

/// A stream descriptor is internal when its id carries the engine's prefix.
pub open spec fn spec_stream_internal(id: Seq<char>) -> bool {
    has_prefix(id, "iii."@) || has_prefix(id, "iii:"@)
}

/// The console shape of one stream descriptor: id, system/user type, a
/// `<id> stream` description, group names, a fixed `active` status, and the
/// internal flag.
pub open spec fn is_stream_obj(out: JVal, elem: JVal) -> bool {
    let id = spec_stream_id(elem);
    let internal = spec_stream_internal(id);
    &&& out matches JVal::Obj(f)
    &&& f@.len() == 6
    &&& f@[0].0@ == "id"@ && (f@[0].1 matches JVal::Str(s) && s@ == id)
    &&& f@[1].0@ == "type"@ && (f@[1].1 matches JVal::Str(t) && t@ == (if internal {
        "system"@
    } else {
        "user"@
    }))
    &&& f@[2].0@ == "description"@ && (f@[2].1 matches JVal::Str(d) && d@ == id + " stream"@)
    &&& f@[3].0@ == "groups"@ && is_str_arr(f@[3].1, spec_stream_groups(elem))
    &&& f@[4].0@ == "status"@ && (f@[4].1 matches JVal::Str(st) && st@ == "active"@)
    &&& field_is(f@, 5, "internal"@, JVal::Bool(internal))
}

/// The streams endpoint's body: the transformed descriptors, their count, and
/// the fixed console WebSocket port.
pub open spec fn is_streams_body(b: JVal, streams: Seq<JVal>) -> bool {
    &&& b matches JVal::Obj(f)
    &&& f@.len() == 3
    &&& f@[0].0@ == "streams"@ && (f@[0].1 matches JVal::Arr(out) && out@.len() == streams.len()
        && forall|i: int| 0 <= i < streams.len() ==> is_stream_obj(#[trigger] out@[i], streams[i]))
    &&& field_is(f@, 1, "count"@, JVal::UInt(streams.len() as u64))
    &&& field_is(f@, 2, "websocket_port"@, JVal::UInt(3112))
}

/// Collects the strings of a descriptor's `groups` array.
fn stream_groups(elem: &JVal) -> (r: Vec<JVal>)
    ensures
        is_str_arr(JVal::Arr(r), spec_stream_groups(*elem)),
{
    let mut out: Vec<JVal> = Vec::new();
    match elem.get("groups") {
        Some(g) => match g.as_arr() {
            Some(items) => {
                let n = items.len();
                let mut i: usize = 0;
                while i < n
                    invariant
                        n == items@.len(),
                        i <= n,
                        is_str_arr(JVal::Arr(out), spec_str_items(items@.subrange(0, i as int))),
                    decreases n - i,
                {
                    let ghost prefix = items@.subrange(0, i as int);
                    match items[i].as_str() {
                        Some(s) => {
                            out.push(JVal::Str(s.clone()));
                        },
                        None => {},
                    }
                    proof {
                        assert(items@.subrange(0, i + 1 as int).drop_last() =~= prefix);
                        assert(items@.subrange(0, i + 1 as int).last() == items@[i as int]);
                    }
                    i = i + 1;
                }
                proof {
                    assert(items@.subrange(0, n as int) =~= items@);
                }
                out
            },
            None => out,
        },
        None => out,
    }
}

/// Transforms one remote stream descriptor into the console's shape.
fn stream_obj(elem: &JVal) -> (r: JVal)
    ensures
        is_stream_obj(r, *elem),
{
    let id = match elem.get_str("id") {
        Some(s) => s,
        None => String::from_str(""),
    };
    proof {
        reveal_strlit("");
        assert(id@ == spec_stream_id(*elem));
    }
    let internal = crate::text::starts_with(id.as_str(), "iii.") || crate::text::starts_with(
        id.as_str(),
        "iii:",
    );
    let kind = if internal {
        String::from_str("system")
    } else {
        String::from_str("user")
    };
    let description = id.clone().concat(" stream");
    let groups = stream_groups(elem);
    obj6(
        "id",
        JVal::Str(id),
        "type",
        JVal::Str(kind),
        "description",
        JVal::Str(description),
        "groups",
        JVal::Arr(groups),
        "status",
        JVal::Str(String::from_str("active")),
        "internal",
        JVal::Bool(internal),
    )
}

/// Composes the streams endpoint's response: each descriptor of the result's
/// `stream` array transformed; an absent or non-array payload becomes an
/// empty list; a failed call's error propagates.
pub fn streams_response(result: Result<JVal, Error>) -> (r: JVal)
    ensures
        match result {
            Ok(data) => {
                &&& is_success_envelope(r)
                &&& match data.spec_get("stream"@) {
                    Some(JVal::Arr(streams)) => is_streams_body(envelope_body(r), streams@),
                    _ => is_streams_body(envelope_body(r), Seq::empty()),
                }
            },
            Err(e) => is_error_envelope(r, e),
        },
{
    match result {
        Ok(data) => {
            let streams: &Vec<JVal> = match data.get("stream") {
                Some(s) => match s.as_arr() {
                    Some(items) => items,
                    None => {
                        return success_response(empty_streams_body());
                    },
                },
                None => {
                    return success_response(empty_streams_body());
                },
            };
            let n = streams.len();
            let mut out: Vec<JVal> = Vec::new();
            let mut i: usize = 0;
            while i < n
                invariant
                    n == streams@.len(),
                    i <= n,
                    out@.len() == i,
                    forall|j: int| 0 <= j < i ==> is_stream_obj(#[trigger] out@[j], streams@[j]),
                decreases n - i,
            {
                let o = stream_obj(&streams[i]);
                out.push(o);
                i = i + 1;
            }
            let count = out.len();
            let body = crate::rpc::obj3(
                "streams",
                JVal::Arr(out),
                "count",
                JVal::UInt(count as u64),
                "websocket_port",
                JVal::UInt(3112),
            );
            success_response(body)
        },
        Err(e) => error_response(e),
    }
}

/// The trigger-types endpoint's remote call: the full trigger list, internal
/// triggers included.
pub fn trigger_types_request() -> (r: RpcRequest)
    ensures
        r.procedure@ == "engine::triggers::list"@,
        r.payload matches JVal::Obj(f) && f@.len() == 1 && field_is(
            f@,
            0,
            "include_internal"@,
            JVal::Bool(true),
        ),
        r.timeout_secs == TIMEOUT_READ,
{
    RpcRequest {
        procedure: String::from_str("engine::triggers::list"),
        payload: obj1("include_internal", JVal::Bool(true)),
        timeout_secs: TIMEOUT_READ,
    }
}

/// The fixed trigger-type names every listing includes.
pub open spec fn static_trigger_types() -> Set<Seq<char>> {
    set![
        "api"@,
        "event"@,
        "subscribe"@,
        "cron"@,
        "log"@,
        "stream::join"@,
        "stream::leave"@,
        "state"@,
        "engine::functions-available"@,
    ]
}

/// The `trigger_type` strings of the result's `triggers` array; empty when
/// the field is absent or not an array.
pub open spec fn spec_discovered_types(data: JVal) -> Set<Seq<char>> {
    match data.spec_get("triggers"@) {
        Some(JVal::Arr(items)) => discovered_prefix(items@, items@.len() as int),
        _ => Set::empty(),
    }
}

/// The `trigger_type` strings of the first `k` entries.
pub open spec fn discovered_prefix(items: Seq<JVal>, k: int) -> Set<Seq<char>> {
    Set::new(
        |t: Seq<char>|
            exists|i: int|
                0 <= i < k && i < items.len() && (#[trigger] items[i].spec_get_str(
                    "trigger_type"@,
                )) == Some(t),
    )
}

/// Every element is a string, strictly ascending.
pub open spec fn sorted_unique_jstrs(items: Seq<JVal>) -> bool {
    &&& forall|i: int| 0 <= i < items.len() ==> (#[trigger] items[i]) is Str
    &&& forall|i: int, j: int|
        0 <= i < j < items.len() ==> crate::text::lex_lt(
            (#[trigger] items[i])->Str_0@,
            (#[trigger] items[j])->Str_0@,
        )
}

/// The set of strings an array of string values holds.
pub open spec fn jstr_elems(items: Seq<JVal>) -> Set<Seq<char>> {
    Set::new(
        |t: Seq<char>|
            exists|i: int|
                0 <= i < items.len() && ((#[trigger] items[i]) matches JVal::Str(s) && s@ == t),
    )
}

/// The trigger-types body: one sorted, duplicate-free array holding exactly
/// the given names.
pub open spec fn is_types_body(b: JVal, types: Set<Seq<char>>) -> bool {
    &&& b matches JVal::Obj(f)
    &&& f@.len() == 1
    &&& f@[0].0@ == "trigger_types"@
    &&& f@[0].1 matches JVal::Arr(items) && sorted_unique_jstrs(items@) && jstr_elems(items@)
        == types
}

/// Converts a sorted string vector into an array value of the same strings.
fn strings_to_types_arr(v: &Vec<String>) -> (r: Vec<JVal>)
    requires
        crate::sorted::sorted_unique(v@),
    ensures
        sorted_unique_jstrs(r@),
        jstr_elems(r@) == crate::sorted::elems(v@),
{
    let n = v.len();
    let mut out: Vec<JVal> = Vec::new();
    let mut i: usize = 0;
    while i < n
        invariant
            n == v@.len(),
            i <= n,
            out@.len() == i,
            forall|j: int|
                0 <= j < i ==> ((#[trigger] out@[j]) matches JVal::Str(s) && s@ == v@[j]@),
        decreases n - i,
    {
        out.push(JVal::Str(v[i].clone()));
        i = i + 1;
    }
    proof {
        assert forall|a: int, b: int| 0 <= a < b < out@.len() implies crate::text::lex_lt(
            (#[trigger] out@[a])->Str_0@,
            (#[trigger] out@[b])->Str_0@,
        ) by {
            assert(out@[a]->Str_0@ == v@[a]@ && out@[b]->Str_0@ == v@[b]@);
            assert(crate::text::lex_lt(v@[a]@, v@[b]@));
        }
        assert forall|t: Seq<char>| #[trigger] jstr_elems(out@).contains(t) implies crate::sorted::elems(
            v@,
        ).contains(t) by {
            let i = choose|i: int|
                0 <= i < out@.len() && ((#[trigger] out@[i]) matches JVal::Str(s) && s@ == t);
            assert(v@[i]@ == t);
        }
        assert forall|t: Seq<char>| crate::sorted::elems(v@).contains(t) implies #[trigger] jstr_elems(
            out@,
        ).contains(t) by {
            let i = choose|i: int| 0 <= i < v@.len() && (#[trigger] v@[i])@ == t;
            assert(out@[i] matches JVal::Str(s) && s@ == t);
        }
        assert(jstr_elems(out@) =~= crate::sorted::elems(v@));
    }
    out
}

/// The static names, sorted into a fresh vector.
fn static_types_vec() -> (r: Vec<String>)
    ensures
        crate::sorted::sorted_unique(r@),
        crate::sorted::elems(r@) == static_trigger_types(),
{
    let mut acc: Vec<String> = Vec::new();
    proof {
        assert(crate::sorted::elems(acc@) =~= Set::<Seq<char>>::empty());
    }
    crate::sorted::insert_sorted_unique(&mut acc, String::from_str("api"));
    crate::sorted::insert_sorted_unique(&mut acc, String::from_str("event"));
    crate::sorted::insert_sorted_unique(&mut acc, String::from_str("subscribe"));
    crate::sorted::insert_sorted_unique(&mut acc, String::from_str("cron"));
    crate::sorted::insert_sorted_unique(&mut acc, String::from_str("log"));
    crate::sorted::insert_sorted_unique(&mut acc, String::from_str("stream::join"));
    crate::sorted::insert_sorted_unique(&mut acc, String::from_str("stream::leave"));
    crate::sorted::insert_sorted_unique(&mut acc, String::from_str("state"));
    crate::sorted::insert_sorted_unique(&mut acc, String::from_str("engine::functions-available"));
    proof {
        assert(crate::sorted::elems(acc@) =~= static_trigger_types());
    }
    acc
}

/// Composes the trigger-types response: the static names unioned with every
/// `trigger_type` discovered in the listing, sorted and deduplicated. A
/// failed call degrades to the static names alone; the endpoint always
/// succeeds.
pub fn trigger_types_response(result: Result<JVal, Error>) -> (r: JVal)
    ensures
        is_success_envelope(r),
        match result {
            Ok(data) => is_types_body(
                envelope_body(r),
                static_trigger_types().union(spec_discovered_types(data)),
            ),
            Err(_) => is_types_body(envelope_body(r), static_trigger_types()),
        },
{
    let mut acc = static_types_vec();
    match result {
        Ok(data) => {
            match data.get("triggers") {
                Some(triggers) => match triggers.as_arr() {
                    Some(items) => {
                        let n = items.len();
                        let mut k: usize = 0;
                        while k < n
                            invariant
                                n == items@.len(),
                                k <= n,
                                crate::sorted::sorted_unique(acc@),
                                crate::sorted::elems(acc@) == static_trigger_types().union(
                                    discovered_prefix(items@, k as int),
                                ),
                            decreases n - k,
                        {
                            let ghost before = crate::sorted::elems(acc@);
                            match items[k].get_str("trigger_type") {
                                Some(t) => {
                                    let ghost tv = t@;
                                    crate::sorted::insert_sorted_unique(&mut acc, t);
                                    proof {
                                        assert(discovered_prefix(items@, k + 1 as int)
                                            =~= discovered_prefix(items@, k as int).insert(tv));
                                        assert(crate::sorted::elems(acc@)
                                            =~= static_trigger_types().union(
                                            discovered_prefix(items@, k + 1 as int),
                                        ));
                                    }
                                },
                                None => {
                                    proof {
                                        assert(discovered_prefix(items@, k + 1 as int)
                                            =~= discovered_prefix(items@, k as int));
                                    }
                                },
                            }
                            k = k + 1;
                        }
                        proof {
                            assert(spec_discovered_types(data) == discovered_prefix(
                                items@,
                                items@.len() as int,
                            ));
                        }
                    },
                    None => {
                        proof {
                            assert(static_trigger_types().union(Set::empty())
                                =~= static_trigger_types());
                        }
                    },
                },
                None => {
                    proof {
                        assert(static_trigger_types().union(Set::empty())
                            =~= static_trigger_types());
                    }
                },
            }
        },
        Err(_) => {},
    }
    let arr = strings_to_types_arr(&acc);
    let body = obj1("trigger_types", JVal::Arr(arr));
    success_response(body)
}

/// The streams body for an absent or malformed payload: no streams.
fn empty_streams_body() -> (r: JVal)
    ensures
        is_streams_body(r, Seq::empty()),
{
    crate::rpc::obj3(
        "streams",
        JVal::Arr(Vec::new()),
        "count",
        JVal::UInt(0),
        "websocket_port",
        JVal::UInt(3112),
    )
}

} // verus!
