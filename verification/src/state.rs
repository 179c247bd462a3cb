//! The generic state-browsing endpoints: group listing, item listing, item
//! set and item delete over the engine's key-value state surface.
//!
//! Mutating calls propagate failure; listings degrade a malformed payload to
//! an empty list. Every required field is validated before any remote call,
//! each missing field with its own `Handler` error naming the field.

use vstd::prelude::*;
use vstd::string::*;
use crate::json::JVal;
use crate::error::{Error, is_error_envelope, is_success_envelope, envelope_body, success_response,
    error_response};
use crate::normalize::{get_scoped_str, spec_scoped_str, take_scoped, spec_scoped};
use crate::rpc::{RpcRequest, field_is, obj1, obj2, obj3, empty_request, TIMEOUT_READ};
use crate::aggregate::spec_str_items;

verus! {

/// The group-listing endpoint's remote call.
pub fn state_groups_list_request() -> (r: RpcRequest)
    ensures
        r.procedure@ == "state::list_groups"@,
        r.payload matches JVal::Obj(f) && f@.len() == 0,
        r.timeout_secs == TIMEOUT_READ,
{
    empty_request("state::list_groups", TIMEOUT_READ)
}

/// One listed group: its id and a placeholder count of zero.
pub open spec fn is_group_obj(out: JVal, id: Seq<char>) -> bool {
    &&& out matches JVal::Obj(f)
    &&& f@.len() == 2
    &&& f@[0].0@ == "id"@ && (f@[0].1 matches JVal::Str(s) && s@ == id)
    &&& field_is(f@, 1, "count"@, JVal::UInt(0))
}

/// The group-listing body: one object per group name, and their count.
pub open spec fn is_groups_body(b: JVal, ids: Seq<Seq<char>>) -> bool {
    &&& b matches JVal::Obj(f)
    &&& f@.len() == 2
    &&& f@[0].0@ == "groups"@ && (f@[0].1 matches JVal::Arr(out) && out@.len() == ids.len()
        && forall|i: int| 0 <= i < ids.len() ==> is_group_obj(#[trigger] out@[i], ids[i]))
    &&& field_is(f@, 1, "count"@, JVal::UInt(ids.len() as u64))
}

/// Composes the group-listing response: the string entries of the result's
/// `groups` array, each as `{id, count: 0}`; an absent or non-array field
/// becomes an empty list; a failed call's error propagates.
pub fn state_groups_list_response(result: Result<JVal, Error>) -> (r: JVal)
    ensures
        match result {
            Ok(data) => {
                &&& is_success_envelope(r)
                &&& match data.spec_get("groups"@) {
                    Some(JVal::Arr(items)) => is_groups_body(
                        envelope_body(r),
                        spec_str_items(items@),
                    ),
                    _ => is_groups_body(envelope_body(r), Seq::empty()),
                }
            },
            Err(e) => is_error_envelope(r, e),
        },
{
    match result {
        Ok(data) => {
            let items: &Vec<JVal> = match data.get("groups") {
                Some(g) => match g.as_arr() {
                    Some(items) => items,
                    None => {
                        return success_response(empty_groups_body());
                    },
                },
                None => {
                    return success_response(empty_groups_body());
                },
            };
            let n = items.len();
            let mut out: Vec<JVal> = Vec::new();
            let mut i: usize = 0;
            while i < n
                invariant
                    n == items@.len(),
                    i <= n,
                    out@.len() == spec_str_items(items@.subrange(0, i as int)).len(),
                    forall|j: int|
                        0 <= j < out@.len() ==> is_group_obj(
                            #[trigger] out@[j],
                            spec_str_items(items@.subrange(0, i as int))[j],
                        ),
                decreases n - i,
            {
                let ghost prefix = items@.subrange(0, i as int);
                match items[i].as_str() {
                    Some(s) => {
                        let o = obj2("id", JVal::Str(s.clone()), "count", JVal::UInt(0));
                        out.push(o);
                    },
                    None => {},
                }
                proof {
                    assert(items@.subrange(0, i + 1 as int).drop_last() =~= prefix);
                    assert(items@.subrange(0, i + 1 as int).last() == items@[i as int]);
                }
                i = i + 1;
            }
            proof {
                assert(items@.subrange(0, n as int) =~= items@);
            }
            let count = out.len();
            let body = obj2("groups", JVal::Arr(out), "count", JVal::UInt(count as u64));
            success_response(body)
        },
        Err(e) => error_response(e),
    }
}

/// The group-listing body with no groups.
fn empty_groups_body() -> (r: JVal)
    ensures
        is_groups_body(r, Seq::empty()),
{
    obj2("groups", JVal::Arr(Vec::new()), "count", JVal::UInt(0))
}

/// The item-listing endpoint's remote call: requires a `scope` string in the
/// body or at the top level, else a `Handler` error naming the field.
pub fn state_group_items_request(input: &JVal) -> (r: Result<RpcRequest, Error>)
    ensures
        match r {
            Ok(req) => {
                &&& spec_scoped_str(*input, "body"@, "scope"@) matches Some(scope)
                &&& req.procedure@ == "state::list"@
                &&& req.timeout_secs == TIMEOUT_READ
                &&& req.payload matches JVal::Obj(f) && f@.len() == 1 && f@[0].0@ == "scope"@ && (
                f@[0].1 matches JVal::Str(s) && Some(s@) == spec_scoped_str(
                    *input,
                    "body"@,
                    "scope"@,
                ))
            },
            Err(e) => {
                &&& spec_scoped_str(*input, "body"@, "scope"@) is None
                &&& e matches Error::Handler(m) && m@ == "Missing scope in request"@
            },
        },
{
    match get_scoped_str(input, "body", "scope") {
        Some(scope) => Ok(
            RpcRequest {
                procedure: String::from_str("state::list"),
                payload: obj1("scope", JVal::Str(scope)),
                timeout_secs: TIMEOUT_READ,
            },
        ),
        None => Err(Error::Handler(String::from_str("Missing scope in request"))),
    }
}

/// The item-listing body: the items as returned, and their count.
pub open spec fn is_items_body(b: JVal, items: JVal, count: int) -> bool {
    &&& b matches JVal::Obj(f)
    &&& f@.len() == 2
    &&& field_is(f@, 0, "items"@, items)
    &&& field_is(f@, 1, "count"@, JVal::UInt(count as u64))
}

/// The item-listing body with no items.
pub open spec fn is_empty_items_body(b: JVal) -> bool {
    &&& b matches JVal::Obj(f)
    &&& f@.len() == 2
    &&& f@[0].0@ == "items"@ && (f@[0].1 matches JVal::Arr(a) && a@.len() == 0)
    &&& field_is(f@, 1, "count"@, JVal::UInt(0))
}

/// Composes the item-listing response: an array result is passed through with
/// its count, any other shape becomes an empty list; a failed call's error
/// propagates.
pub fn state_group_items_response(result: Result<JVal, Error>) -> (r: JVal)
    ensures
        match result {
            Ok(data) => {
                &&& is_success_envelope(r)
                &&& match data {
                    JVal::Arr(items) => is_items_body(
                        envelope_body(r),
                        data,
                        items@.len() as int,
                    ),
                    _ => is_empty_items_body(envelope_body(r)),
                }
            },
            Err(e) => is_error_envelope(r, e),
        },
{
    match result {
        Ok(data) => match data {
            JVal::Arr(items) => {
                let count = items.len();
                let body = obj2(
                    "items",
                    JVal::Arr(items),
                    "count",
                    JVal::UInt(count as u64),
                );
                success_response(body)
            },
            _ => {
                let body = obj2("items", JVal::Arr(Vec::new()), "count", JVal::UInt(0));
                success_response(body)
            },
        },
        Err(e) => error_response(e),
    }
}

/// The item-setting endpoint's remote call: requires the group from the path
/// parameters, and the key and value from the body, each falling back to the
/// top level, each missing field its own `Handler` error.
pub fn state_item_set_request(input: JVal) -> (r: Result<RpcRequest, Error>)
    ensures
        match r {
            Ok(req) => {
                &&& spec_scoped_str(input, "path_params"@, "group"@) matches Some(group)
                &&& spec_scoped_str(input, "body"@, "key"@) matches Some(key)
                &&& spec_scoped(input, "body"@, "value"@) matches Some(value)
                &&& req.procedure@ == "state::set"@
                &&& req.timeout_secs == TIMEOUT_READ
                &&& req.payload matches JVal::Obj(f) && f@.len() == 3 && f@[0].0@ == "scope"@ && (
                f@[0].1 matches JVal::Str(g) && Some(g@) == spec_scoped_str(
                    input,
                    "path_params"@,
                    "group"@,
                )) && f@[1].0@ == "key"@ && (f@[1].1 matches JVal::Str(k) && Some(k@)
                    == spec_scoped_str(input, "body"@, "key"@)) && f@[2].0@ == "value"@ && Some(
                    f@[2].1,
                ) == spec_scoped(input, "body"@, "value"@)
            },
            Err(e) => e matches Error::Handler(m) && (if spec_scoped_str(
                input,
                "path_params"@,
                "group"@,
            ) is None {
                m@ == "Missing group in path parameters"@
            } else if spec_scoped_str(input, "body"@, "key"@) is None {
                m@ == "Missing key in request body"@
            } else {
                spec_scoped(input, "body"@, "value"@) is None && m@
                    == "Missing value in request body"@
            }),
        },
{
    let group = match get_scoped_str(&input, "path_params", "group") {
        Some(g) => g,
        None => {
            return Err(Error::Handler(String::from_str("Missing group in path parameters")));
        },
    };
    let key = match get_scoped_str(&input, "body", "key") {
        Some(k) => k,
        None => {
            return Err(Error::Handler(String::from_str("Missing key in request body")));
        },
    };
    proof {
        reveal_strlit("body");
        reveal_strlit("value");
        assert("body"@.len() == 4);
        assert("value"@.len() == 5);
    }
    let value = match take_scoped(input, "body", "value") {
        Some(v) => v,
        None => {
            return Err(Error::Handler(String::from_str("Missing value in request body")));
        },
    };
    Ok(
        RpcRequest {
            procedure: String::from_str("state::set"),
            payload: obj3("scope", JVal::Str(group), "key", JVal::Str(key), "value", value),
            timeout_secs: TIMEOUT_READ,
        },
    )
}

/// The item-deletion endpoint's remote call: requires the group and the key
/// from the path parameters, each falling back to the top level, each missing
/// field its own `Handler` error.
pub fn state_item_delete_request(input: &JVal) -> (r: Result<RpcRequest, Error>)
    ensures
        match r {
            Ok(req) => {
                &&& spec_scoped_str(*input, "path_params"@, "group"@) matches Some(group)
                &&& spec_scoped_str(*input, "path_params"@, "key"@) matches Some(key)
                &&& req.procedure@ == "state::delete"@
                &&& req.timeout_secs == TIMEOUT_READ
                &&& req.payload matches JVal::Obj(f) && f@.len() == 2 && f@[0].0@ == "scope"@ && (
                f@[0].1 matches JVal::Str(g) && Some(g@) == spec_scoped_str(
                    *input,
                    "path_params"@,
                    "group"@,
                )) && f@[1].0@ == "key"@ && (f@[1].1 matches JVal::Str(k) && Some(k@)
                    == spec_scoped_str(*input, "path_params"@, "key"@))
            },
            Err(e) => e matches Error::Handler(m) && (if spec_scoped_str(
                *input,
                "path_params"@,
                "group"@,
            ) is None {
                m@ == "Missing group in path parameters"@
            } else {
                spec_scoped_str(*input, "path_params"@, "key"@) is None && m@
                    == "Missing key in path parameters"@
            }),
        },
{
    let group = match get_scoped_str(input, "path_params", "group") {
        Some(g) => g,
        None => {
            return Err(Error::Handler(String::from_str("Missing group in path parameters")));
        },
    };
    let key = match get_scoped_str(input, "path_params", "key") {
        Some(k) => k,
        None => {
            return Err(Error::Handler(String::from_str("Missing key in path parameters")));
        },
    };
    Ok(
        RpcRequest {
            procedure: String::from_str("state::delete"),
            payload: obj2("scope", JVal::Str(group), "key", JVal::Str(key)),
            timeout_secs: TIMEOUT_READ,
        },
    )
}

} // verus!
