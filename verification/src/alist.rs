//! Address-keyed association lists.
//!
//! The ledger model stores each record family as a vector of
//! `(address, record)` pairs with pairwise-distinct keys, abstracted in
//! contracts as a `Map` from address bytes to record views.

use vstd::prelude::*;
use crate::addr::{Addr, addr_eq};

verus! {

/// The map a key-distinct association sequence denotes: later entries win.
pub open spec fn alist_map<T: View>(s: Seq<(Addr, T)>) -> Map<Seq<u8>, T::V>
    decreases s.len(),
{
    if s.len() == 0 {
        Map::empty()
    } else {
        alist_map(s.drop_last()).insert(s.last().0@, s.last().1@)
    }
}

/// No two entries share an address.
pub open spec fn distinct_keys<T>(s: Seq<(Addr, T)>) -> bool {
    forall|i: int, j: int| 0 <= i < j < s.len() ==> s[i].0@ != s[j].0@
}

pub proof fn lemma_alist_map_contains<T: View>(s: Seq<(Addr, T)>, k: Seq<u8>)
    ensures
        alist_map(s).contains_key(k) <==> exists|i: int| 0 <= i < s.len() && s[i].0@ == k,
    decreases s.len(),
{
    if s.len() > 0 {
        lemma_alist_map_contains(s.drop_last(), k);
        if s.last().0@ == k {
            assert(s[s.len() - 1].0@ == k);
        } else {
            if exists|i: int| 0 <= i < s.len() && s[i].0@ == k {
                let i = choose|i: int| 0 <= i < s.len() && s[i].0@ == k;
                assert(s.drop_last()[i].0@ == k);
            }
        }
    }
}

pub proof fn lemma_alist_map_push<T: View>(s: Seq<(Addr, T)>, p: (Addr, T))
    ensures
        alist_map(s.push(p)) == alist_map(s).insert(p.0@, p.1@),
{
    assert(s.push(p).drop_last() =~= s);
    assert(s.push(p).last() == p);
}

pub proof fn lemma_alist_map_index<T: View>(s: Seq<(Addr, T)>, i: int)
    requires
        distinct_keys(s),
        0 <= i < s.len(),
    ensures
        alist_map(s).contains_key(s[i].0@),
        alist_map(s)[s[i].0@] == s[i].1@,
    decreases s.len(),
{
    if i < s.len() - 1 {
        assert(s[i].0@ != s.last().0@);
        assert(s.drop_last()[i] == s[i]);
        lemma_alist_map_index(s.drop_last(), i);
    }
}

pub proof fn lemma_alist_map_update<T: View>(s: Seq<(Addr, T)>, i: int, p: (Addr, T))
    requires
        distinct_keys(s),
        0 <= i < s.len(),
        p.0@ == s[i].0@,
    ensures
        alist_map(s.update(i, p)) == alist_map(s).insert(p.0@, p.1@),
        distinct_keys(s.update(i, p)),
    decreases s.len(),
{
    let s2 = s.update(i, p);
    assert(forall|j: int, l: int| 0 <= j < l < s2.len() ==> s2[j].0@ != s2[l].0@);
    if i == s.len() - 1 {
        assert(s2.drop_last() =~= s.drop_last());
        assert(s2.last() == p);
        assert(alist_map(s2) =~= alist_map(s).insert(p.0@, p.1@));
    } else {
        assert(s.drop_last()[i] == s[i]);
        lemma_alist_map_update(s.drop_last(), i, p);
        assert(s2.drop_last() =~= s.drop_last().update(i, p));
        assert(s2.last() == s.last());
        assert(s[i].0@ != s.last().0@);
        assert(alist_map(s2) =~= alist_map(s).insert(p.0@, p.1@));
    }
}

/// Distinctness is kept when a fresh key is appended.
pub proof fn lemma_distinct_push<T>(s: Seq<(Addr, T)>, p: (Addr, T))
    requires
        distinct_keys(s),
        forall|i: int| 0 <= i < s.len() ==> s[i].0@ != p.0@,
    ensures
        distinct_keys(s.push(p)),
{
}

/// Finds the position of an address in the association vector.
pub fn alist_find<T>(v: &Vec<(Addr, T)>, k: &Addr) -> (r: Option<usize>)
    ensures
        match r {
            Some(i) => 0 <= i < v@.len() && v@[i as int].0@ == k@,
            None => forall|i: int| 0 <= i < v@.len() ==> v@[i].0@ != k@,
        },
{
    let mut i: usize = 0;
    while i < v.len()
        invariant
            0 <= i <= v@.len(),
            forall|j: int| 0 <= j < i ==> v@[j].0@ != k@,
        decreases v@.len() - i,
    {
        if addr_eq(&v[i].0, k) {
            return Some(i);
        }
        i += 1;
    }
    None
}

/// Whether an address is a key of the association vector, as the map view
/// sees it.
pub fn alist_contains<T: View>(v: &Vec<(Addr, T)>, k: &Addr) -> (r: bool)
    ensures
        r == alist_map(v@).contains_key(k@),
{
    let r = alist_find(v, k);
    proof {
        lemma_alist_map_contains(v@, k@);
    }
    r.is_some()
}

} // verus!
