//! Ordering of the process table: descending by CPU usage or by resident
//! memory, ties left in whatever relative order the insertion produced
//! (callers must not rely on the order among equal keys).

use vstd::prelude::*;
use vstd::seq_lib::{to_multiset_build, to_multiset_insert};

use crate::types::{ProcessInfo, ProcessInfoV, SortOrder};

verus! {

/// `a` sorts at or before `b` under the given order (descending keys).
pub open spec fn key_ge(a: ProcessInfoV, b: ProcessInfoV, order: SortOrder) -> bool {
    match order {
        SortOrder::Cpu => a.cpu_tenths >= b.cpu_tenths,
        SortOrder::Mem => a.mem_bytes >= b.mem_bytes,
    }
}

/// Descending order under the given key.
pub open spec fn sorted_desc(s: Seq<ProcessInfoV>, order: SortOrder) -> bool {
    forall|i: int, j: int| 0 <= i < j < s.len() ==> key_ge(s[i], s[j], order)
}

/// Descending CPU order, the order the collector caches the table in.
pub open spec fn sorted_by_cpu_desc(s: Seq<ProcessInfoV>) -> bool {
    sorted_desc(s, SortOrder::Cpu)
}

fn key_ge_exec(a: &ProcessInfo, b: &ProcessInfo, order: SortOrder) -> (r: bool)
    ensures
        r == key_ge(a@, b@, order),
{
    match order {
        SortOrder::Cpu => a.cpu_tenths >= b.cpu_tenths,
        SortOrder::Mem => a.mem_bytes >= b.mem_bytes,
    }
}

/// A copy of the process table, sorted descending under the given order;
/// the result holds exactly the rows of the input (as a multiset), and rows
/// with equal keys may appear in any order.
pub fn sorted_processes(ps: &Vec<ProcessInfo>, order: SortOrder) -> (r: Vec<ProcessInfo>)
    ensures
        r.deep_view().to_multiset() == ps.deep_view().to_multiset(),
        r.deep_view().len() == ps.deep_view().len(),
        sorted_desc(r.deep_view(), order),
{
    let mut r: Vec<ProcessInfo> = Vec::new();
    let mut i: usize = 0;
    proof {
        assert(r.deep_view() =~= ps.deep_view().take(0));
    }
    while i < ps.len()
        invariant
            i <= ps.len(),
            r.len() == i,
            sorted_desc(r.deep_view(), order),
            r.deep_view().to_multiset() == ps.deep_view().take(i as int).to_multiset(),
        decreases ps.len() - i,
    {
        let c = ps[i].clone();
        proof {
            assert(c@ == ps.deep_view()[i as int]);
        }
        let mut pos: usize = 0;
        while pos < r.len() && key_ge_exec(&r[pos], &c, order)
            invariant
                pos <= r.len(),
                c@ == ps.deep_view()[i as int],
                sorted_desc(r.deep_view(), order),
                forall|k: int| 0 <= k < pos ==> key_ge(r.deep_view()[k], c@, order),
            decreases r.len() - pos,
        {
            proof {
                assert(r.deep_view()[pos as int] == r@[pos as int]@);
            }
            pos = pos + 1;
        }
        let ghost rdv0 = r.deep_view();
        proof {
            assert(pos < r.len() ==> !key_ge(rdv0[pos as int], c@, order));
        }
        r.insert(pos, c);
        proof {
            assert(r.deep_view() =~= rdv0.insert(pos as int, c@));
            rdv0.insert_ensures(pos as int, c@);
            to_multiset_insert(rdv0, pos as int, c@);
            to_multiset_build(ps.deep_view().take(i as int), c@);
            assert(ps.deep_view().take(i as int).push(c@) =~= ps.deep_view().take(i + 1));
            let s = r.deep_view();
            assert forall|a: int, b: int| 0 <= a < b < s.len() implies key_ge(
                s[a],
                s[b],
                order,
            ) by {
                if b < pos {
                    assert(s[a] == rdv0[a] && s[b] == rdv0[b]);
                } else if a > pos {
                    assert(s[a] == rdv0[a - 1] && s[b] == rdv0[b - 1]);
                } else if a < pos && b == pos {
                    assert(s[a] == rdv0[a] && s[b] == c@);
                } else if a == pos {
                    assert(s[a] == c@ && s[b] == rdv0[b - 1]);
                    if pos < rdv0.len() {
                        assert(!key_ge(rdv0[pos as int], c@, order));
                        if b - 1 > pos {
                            assert(key_ge(rdv0[pos as int], rdv0[b - 1], order));
                        }
                    }
                } else {
                    assert(s[a] == rdv0[a] && s[b] == rdv0[b - 1]);
                    assert(key_ge(rdv0[a], c@, order));
                    if b - 1 >= pos {
                        if pos < rdv0.len() {
                            assert(!key_ge(rdv0[pos as int], c@, order));
                            if b - 1 > pos {
                                assert(key_ge(rdv0[pos as int], rdv0[b - 1], order));
                            }
                        }
                    }
                }
            }
        }
        i = i + 1;
    }
    proof {
        assert(ps.deep_view().take(i as int) =~= ps.deep_view());
        vstd::seq_lib::to_multiset_len(r.deep_view());
        vstd::seq_lib::to_multiset_len(ps.deep_view());
    }
    r
}

} // verus!
