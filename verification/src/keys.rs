//! Listing the keys of a hash map.

use std::collections::HashMap;
use vstd::prelude::*;
use vstd::std_specs::hash::spec_keys_iter;
use vstd::std_specs::iter::IteratorSpec;

verus! {

broadcast use vstd::std_specs::hash::group_hash_axioms;

/// The keys of `m`, each once, in the map's own order.
pub fn map_keys<V>(m: &HashMap<u32, V>) -> (ks: Vec<u32>)
    ensures
        ks@.no_duplicates(),
        ks@.to_set() == m@.dom(),
        ks@.len() == m@.dom().len(),
{
    let ghost all: Seq<u32> = spec_keys_iter(m).remaining().unref();
    let mut ks: Vec<u32> = Vec::new();
    for k in it: m.keys()
        invariant
            it.seq().unref() == all,
            ks@.len() == it.index(),
            ks@ == all.take(ks@.len() as int),
    {
        ks.push(*k);
    }
    assert(all.take(all.len() as int) == all);
    ks
}

/// The keys of a prefix one longer are those of the prefix and the next key.
pub proof fn lemma_take_one_more_to_set(s: Seq<u32>, i: int)
    requires
        0 <= i < s.len(),
    ensures
        s.take(i + 1).to_set() == s.take(i).to_set().insert(s[i]),
{
    let t = s.take(i + 1);
    let u = s.take(i);
    assert forall|x: u32| t.to_set().contains(x) <==> u.to_set().insert(s[i]).contains(x) by {
        if t.contains(x) {
            let j = choose|j: int| 0 <= j < t.len() && t[j] == x;
            if j < i {
                assert(u[j] == x);
            }
        }
        if u.contains(x) {
            let j = choose|j: int| 0 <= j < u.len() && u[j] == x;
            assert(t[j] == x);
        }
        if x == s[i] {
            assert(t[i] == x);
        }
    }
    assert(t.to_set() =~= u.to_set().insert(s[i]));
}

} // verus!
