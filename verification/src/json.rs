//! The JSON data model the adapter layer works on.
//!
//! Request and response envelopes, remote-call payloads and remote-call
//! results are all values of [`JVal`]. An object is an ordered list of
//! key/value pairs; lookup takes the first pair whose key matches, and the
//! builders in this crate never produce duplicate keys. JSON numbers that are
//! not unsigned or signed 64-bit integers are carried as their decimal text in
//! [`JVal::Num`]; the adapter logic never reads them, only passes them
//! through.

use vstd::prelude::*;
use crate::text::str_eq;

verus! {

/// A JSON value.
#[derive(Debug)]
pub enum JVal {
    Null,
    Bool(bool),
    /// A JSON number that fits in an unsigned 64-bit integer.
    UInt(u64),
    /// A negative JSON number that fits in a signed 64-bit integer.
    Int(i64),
    /// Any other JSON number, kept as its decimal text.
    Num(String),
    Str(String),
    Arr(Vec<JVal>),
    Obj(Vec<(String, JVal)>),
}

/// First value bound to `key` in a field list, if any.
pub open spec fn obj_get_seq(fields: Seq<(String, JVal)>, key: Seq<char>) -> Option<JVal>
    decreases fields.len(),
{
    if fields.len() == 0 {
        None
    } else if fields[0].0@ == key {
        Some(fields[0].1)
    } else {
        obj_get_seq(fields.drop_first(), key)
    }
}

impl JVal {
    /// Value bound to `key`, for an object; `None` for any other shape.
    pub open spec fn spec_get(self, key: Seq<char>) -> Option<JVal> {
        match self {
            JVal::Obj(fields) => obj_get_seq(fields@, key),
            _ => None,
        }
    }

    /// The characters of a string value; `None` for any other shape.
    pub open spec fn spec_str(self) -> Option<Seq<char>> {
        match self {
            JVal::Str(s) => Some(s@),
            _ => None,
        }
    }

    /// The elements of an array value; `None` for any other shape.
    pub open spec fn spec_arr(self) -> Option<Seq<JVal>> {
        match self {
            JVal::Arr(items) => Some(items@),
            _ => None,
        }
    }

    /// String bound to `key`: the lookup succeeded and the value is a string.
    pub open spec fn spec_get_str(self, key: Seq<char>) -> Option<Seq<char>> {
        match self.spec_get(key) {
            Some(v) => v.spec_str(),
            None => None,
        }
    }
}

/// If the first `k` keys differ from `key` and the `k`-th matches, the lookup
/// returns the `k`-th value.
pub proof fn lemma_obj_get_hit(fields: Seq<(String, JVal)>, key: Seq<char>, k: int)
    requires
        0 <= k < fields.len(),
        fields[k].0@ == key,
        forall|j: int| 0 <= j < k ==> fields[j].0@ != key,
    ensures
        obj_get_seq(fields, key) == Some(fields[k].1),
    decreases k,
{
    if k > 0 {
        lemma_obj_get_hit(fields.drop_first(), key, k - 1);
    }
}

/// If no key matches, the lookup fails.
pub proof fn lemma_obj_get_miss(fields: Seq<(String, JVal)>, key: Seq<char>)
    requires
        forall|j: int| 0 <= j < fields.len() ==> fields[j].0@ != key,
    ensures
        obj_get_seq(fields, key) is None,
    decreases fields.len(),
{
    if fields.len() > 0 {
        lemma_obj_get_miss(fields.drop_first(), key);
    }
}

/// Removing a pair whose key is not `key` does not change the lookup of `key`.
pub proof fn lemma_obj_get_remove_other(fields: Seq<(String, JVal)>, key: Seq<char>, i: int)
    requires
        0 <= i < fields.len(),
        fields[i].0@ != key,
    ensures
        obj_get_seq(fields.remove(i), key) == obj_get_seq(fields, key),
    decreases fields.len(),
{
    if i == 0 {
        assert(fields.remove(0) =~= fields.drop_first());
    } else {
        assert(fields.remove(i).drop_first() =~= fields.drop_first().remove(i - 1));
        lemma_obj_get_remove_other(fields.drop_first(), key, i - 1);
    }
}

impl JVal {
    /// Index of the first pair bound to `key` in an object's field list.
    pub fn find_key(fields: &Vec<(String, JVal)>, key: &str) -> (r: Option<usize>)
        ensures
            match r {
                Some(i) => {
                    &&& i < fields@.len()
                    &&& fields@[i as int].0@ == key@
                    &&& forall|j: int| 0 <= j < i ==> fields@[j].0@ != key@
                    &&& obj_get_seq(fields@, key@) == Some(fields@[i as int].1)
                },
                None => obj_get_seq(fields@, key@) is None,
            },
    {
        let n = fields.len();
        let mut i: usize = 0;
        while i < n
            invariant
                n == fields@.len(),
                i <= n,
                forall|j: int| 0 <= j < i ==> fields@[j].0@ != key@,
            decreases n - i,
        {
            if str_eq(fields[i].0.as_str(), key) {
                proof {
                    lemma_obj_get_hit(fields@, key@, i as int);
                }
                return Some(i);
            }
            i = i + 1;
        }
        proof {
            lemma_obj_get_miss(fields@, key@);
        }
        None
    }

    /// Value bound to `key`, by reference.
    pub fn get<'a>(&'a self, key: &str) -> (r: Option<&'a JVal>)
        ensures
            match r {
                Some(v) => self.spec_get(key@) == Some(*v),
                None => self.spec_get(key@) is None,
            },
    {
        match self {
            JVal::Obj(fields) => {
                match Self::find_key(fields, key) {
                    Some(i) => Some(&fields[i].1),
                    None => None,
                }
            },
            _ => None,
        }
    }

    /// Value bound to `key`, by move; hands back the rest of the object
    /// unchanged, so later lookups of other keys still see it.
    pub fn take(self, key: &str) -> (r: (Option<JVal>, JVal))
        ensures
            match r.0 {
                Some(v) => self.spec_get(key@) == Some(v),
                None => self.spec_get(key@) is None,
            },
            forall|other: Seq<char>|
                other != key@ ==> #[trigger] r.1.spec_get(other) == self.spec_get(other),
            r.0 is None ==> r.1 == self,
    {
        match self {
            JVal::Obj(mut fields) => {
                let ghost fields0 = fields@;
                match Self::find_key(&fields, key) {
                    Some(i) => {
                        let pair = fields.remove(i);
                        proof {
                            assert forall|other: Seq<char>| other != key@ implies obj_get_seq(
                                fields@,
                                other,
                            ) == obj_get_seq(fields0, other) by {
                                lemma_obj_get_remove_other(fields0, other, i as int);
                            }
                        }
                        (Some(pair.1), JVal::Obj(fields))
                    },
                    None => (None, JVal::Obj(fields)),
                }
            },
            other => (None, other),
        }
    }

    /// The string characters, for a string value.
    pub fn as_str<'a>(&'a self) -> (r: Option<&'a String>)
        ensures
            match r {
                Some(s) => self.spec_str() == Some(s@),
                None => self.spec_str() is None,
            },
    {
        match self {
            JVal::Str(s) => Some(s),
            _ => None,
        }
    }

    /// The elements, for an array value.
    pub fn as_arr<'a>(&'a self) -> (r: Option<&'a Vec<JVal>>)
        ensures
            match r {
                Some(items) => self.spec_arr() == Some(items@),
                None => self.spec_arr() is None,
            },
    {
        match self {
            JVal::Arr(items) => Some(items),
            _ => None,
        }
    }

    /// Whether the value is JSON `null`.
    pub fn is_null(&self) -> (r: bool)
        ensures
            r == (self is Null),
    {
        match self {
            JVal::Null => true,
            _ => false,
        }
    }

    /// String bound to `key`, cloned.
    pub fn get_str(&self, key: &str) -> (r: Option<String>)
        ensures
            match r {
                Some(s) => self.spec_get_str(key@) == Some(s@),
                None => self.spec_get_str(key@) is None,
            },
    {
        match self.get(key) {
            Some(v) => match v.as_str() {
                Some(s) => Some(s.clone()),
                None => None,
            },
            None => None,
        }
    }

    /// The empty JSON object.
    pub fn empty_obj() -> (r: JVal)
        ensures
            r matches JVal::Obj(fields) && fields@.len() == 0,
    {
        JVal::Obj(Vec::new())
    }
}

} // verus!
