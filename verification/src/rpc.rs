//! The shape of an outbound remote call: a named procedure, a JSON payload
//! and an explicit deadline. The unverified driver performs the call; the
//! builders here fix exactly what is sent.

use vstd::prelude::*;
use vstd::string::*;
use crate::json::JVal;

verus! {

/// Deadline for simple read operations, in seconds.
pub const TIMEOUT_READ: u64 = 5;

/// Deadline for tree- and list-all-style operations, in seconds.
pub const TIMEOUT_LIST_ALL: u64 = 10;

/// Deadline for arbitrary function invocation, in seconds.
pub const TIMEOUT_INVOKE: u64 = 30;

/// One outbound remote call: procedure name, payload, deadline in seconds.
pub struct RpcRequest {
    pub procedure: String,
    pub payload: JVal,
    pub timeout_secs: u64,
}

/// Field `i` of the list binds `k` to `v`.
pub open spec fn field_is(fields: Seq<(String, JVal)>, i: int, k: Seq<char>, v: JVal) -> bool {
    &&& 0 <= i < fields.len()
    &&& fields[i].0@ == k
    &&& fields[i].1 == v
}

/// Builds a one-field object.
pub fn obj1(k0: &str, v0: JVal) -> (r: JVal)
    ensures
        r matches JVal::Obj(f) && f@.len() == 1 && field_is(f@, 0, k0@, v0),
{
    let mut fields: Vec<(String, JVal)> = Vec::new();
    fields.push((String::from_str(k0), v0));
    JVal::Obj(fields)
}

/// Builds a two-field object.
pub fn obj2(k0: &str, v0: JVal, k1: &str, v1: JVal) -> (r: JVal)
    ensures
        r matches JVal::Obj(f) && f@.len() == 2 && field_is(f@, 0, k0@, v0) && field_is(
            f@,
            1,
            k1@,
            v1,
        ),
{
    let mut fields: Vec<(String, JVal)> = Vec::new();
    fields.push((String::from_str(k0), v0));
    fields.push((String::from_str(k1), v1));
    JVal::Obj(fields)
}

/// Builds a three-field object.
pub fn obj3(k0: &str, v0: JVal, k1: &str, v1: JVal, k2: &str, v2: JVal) -> (r: JVal)
    ensures
        r matches JVal::Obj(f) && f@.len() == 3 && field_is(f@, 0, k0@, v0) && field_is(
            f@,
            1,
            k1@,
            v1,
        ) && field_is(f@, 2, k2@, v2),
{
    let mut fields: Vec<(String, JVal)> = Vec::new();
    fields.push((String::from_str(k0), v0));
    fields.push((String::from_str(k1), v1));
    fields.push((String::from_str(k2), v2));
    JVal::Obj(fields)
}

/// Builds a four-field object.
pub fn obj4(k0: &str, v0: JVal, k1: &str, v1: JVal, k2: &str, v2: JVal, k3: &str, v3: JVal) -> (r:
    JVal)
    ensures
        r matches JVal::Obj(f) && f@.len() == 4 && field_is(f@, 0, k0@, v0) && field_is(
            f@,
            1,
            k1@,
            v1,
        ) && field_is(f@, 2, k2@, v2) && field_is(f@, 3, k3@, v3),
{
    let mut fields: Vec<(String, JVal)> = Vec::new();
    fields.push((String::from_str(k0), v0));
    fields.push((String::from_str(k1), v1));
    fields.push((String::from_str(k2), v2));
    fields.push((String::from_str(k3), v3));
    JVal::Obj(fields)
}

/// Builds a six-field object.
pub fn obj6(
    k0: &str,
    v0: JVal,
    k1: &str,
    v1: JVal,
    k2: &str,
    v2: JVal,
    k3: &str,
    v3: JVal,
    k4: &str,
    v4: JVal,
    k5: &str,
    v5: JVal,
) -> (r: JVal)
    ensures
        r matches JVal::Obj(f) && f@.len() == 6 && field_is(f@, 0, k0@, v0) && field_is(
            f@,
            1,
            k1@,
            v1,
        ) && field_is(f@, 2, k2@, v2) && field_is(f@, 3, k3@, v3) && field_is(f@, 4, k4@, v4)
            && field_is(f@, 5, k5@, v5),
{
    let mut fields: Vec<(String, JVal)> = Vec::new();
    fields.push((String::from_str(k0), v0));
    fields.push((String::from_str(k1), v1));
    fields.push((String::from_str(k2), v2));
    fields.push((String::from_str(k3), v3));
    fields.push((String::from_str(k4), v4));
    fields.push((String::from_str(k5), v5));
    JVal::Obj(fields)
}

/// A request with an empty-object payload.
pub fn empty_request(procedure: &str, timeout_secs: u64) -> (r: RpcRequest)
    ensures
        r.procedure@ == procedure@,
        r.payload matches JVal::Obj(f) && f@.len() == 0,
        r.timeout_secs == timeout_secs,
{
    RpcRequest {
        procedure: String::from_str(procedure),
        payload: JVal::empty_obj(),
        timeout_secs,
    }
}

} // verus!
