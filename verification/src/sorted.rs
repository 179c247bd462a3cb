//! A strictly sorted, duplicate-free vector of strings, grown by ordered
//! insertion. The trigger-type listing builds its union of static and
//! discovered names with it, so sortedness and dedup hold by construction.

use vstd::prelude::*;
use crate::text::{lex_lt, StrOrder, str_compare, lemma_lex_lt_trans};

verus! {

/// Strictly ascending, hence duplicate-free.
pub open spec fn sorted_unique(v: Seq<String>) -> bool {
    forall|i: int, j: int| 0 <= i < j < v.len() ==> lex_lt(#[trigger] v[i]@, #[trigger] v[j]@)
}

/// The set of character sequences held.
pub open spec fn elems(v: Seq<String>) -> Set<Seq<char>> {
    Set::new(|t: Seq<char>| exists|i: int| 0 <= i < v.len() && (#[trigger] v[i])@ == t)
}

/// Position of `s` in the sorted vector, or where it would be inserted.
fn find_insert_pos(v: &Vec<String>, s: &str) -> (r: (usize, bool))
    requires
        sorted_unique(v@),
    ensures
        r.0 <= v@.len(),
        forall|j: int| 0 <= j < r.0 ==> lex_lt(#[trigger] v@[j]@, s@),
        r.1 ==> r.0 < v@.len() && v@[r.0 as int]@ == s@,
        !r.1 ==> forall|j: int| r.0 <= j < v@.len() ==> lex_lt(s@, #[trigger] v@[j]@),
{
    let n = v.len();
    let mut i: usize = 0;
    while i < n
        invariant
            n == v@.len(),
            i <= n,
            sorted_unique(v@),
            forall|j: int| 0 <= j < i ==> lex_lt(#[trigger] v@[j]@, s@),
        decreases n - i,
    {
        match str_compare(v[i].as_str(), s) {
            StrOrder::Less => {
                i = i + 1;
            },
            StrOrder::Equal => {
                return (i, true);
            },
            StrOrder::Greater => {
                proof {
                    assert forall|j: int| i <= j < v@.len() implies lex_lt(s@, #[trigger] v@[j]@) by {
                        if j > i {
                            lemma_lex_lt_trans(s@, v@[i as int]@, v@[j]@);
                        }
                    }
                }
                return (i, false);
            },
        }
    }
    (n, false)
}

/// Inserts `s` in order; a string already present is not repeated. The held
/// set grows by exactly `s`, and strict sortedness is kept.
pub fn insert_sorted_unique(v: &mut Vec<String>, s: String)
    requires
        sorted_unique(old(v)@),
    ensures
        sorted_unique(final(v)@),
        elems(final(v)@) == elems(old(v)@).insert(s@),
{
    let ghost v0 = v@;
    let (pos, found) = find_insert_pos(v, s.as_str());
    if found {
        proof {
            assert(elems(v0).contains(s@));
            assert(elems(v0) =~= elems(v0).insert(s@));
        }
    } else {
        v.insert(pos, s);
        proof {
            let vn = v@;
            assert(vn == v0.insert(pos as int, s));
            assert forall|i: int, j: int| 0 <= i < j < vn.len() implies lex_lt(
                #[trigger] vn[i]@,
                #[trigger] vn[j]@,
            ) by {
                let pi = pos as int;
                if i < pi && j < pi {
                    assert(vn[i] == v0[i] && vn[j] == v0[j]);
                } else if i < pi && j == pi {
                    assert(vn[i] == v0[i] && vn[j] == s);
                } else if i < pi && j > pi {
                    assert(vn[i] == v0[i] && vn[j] == v0[j - 1]);
                    if j - 1 == i {
                        assert(lex_lt(vn[i]@, s@) && lex_lt(s@, vn[j]@));
                        lemma_lex_lt_trans(vn[i]@, s@, vn[j]@);
                    }
                } else if i == pi {
                    assert(vn[i] == s && vn[j] == v0[j - 1]);
                } else {
                    assert(vn[i] == v0[i - 1] && vn[j] == v0[j - 1]);
                }
            }
            assert forall|t: Seq<char>| #[trigger] elems(vn).contains(t) implies elems(v0).insert(
                s@,
            ).contains(t) by {
                let i = choose|i: int| 0 <= i < vn.len() && (#[trigger] vn[i])@ == t;
                if i < pos as int {
                    assert(v0[i]@ == t);
                } else if i > pos as int {
                    assert(v0[i - 1]@ == t);
                }
            }
            assert forall|t: Seq<char>| elems(v0).insert(s@).contains(t) implies #[trigger] elems(
                vn,
            ).contains(t) by {
                if t == s@ {
                    assert(vn[pos as int]@ == t);
                } else {
                    let i = choose|i: int| 0 <= i < v0.len() && (#[trigger] v0[i])@ == t;
                    if i < pos as int {
                        assert(vn[i]@ == t);
                    } else {
                        assert(vn[i + 1]@ == t);
                    }
                }
            }
            assert(elems(vn) =~= elems(v0).insert(s@));
        }
    }
}

} // verus!
