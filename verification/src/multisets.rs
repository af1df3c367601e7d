//! Comparing two lists of strings as multisets.

use vstd::multiset::Multiset;
use vstd::prelude::*;
use vstd::seq_lib::{group_to_multiset_ensures, lemma_multiset_commutative};

use crate::state::string_views;

verus! {

broadcast use group_to_multiset_ensures, vstd::multiset::group_multiset_axioms;

/// A prefix never holds an element more often than the whole sequence.
proof fn lemma_prefix_count<A>(s: Seq<A>, k: int, x: A)
    requires
        0 <= k <= s.len(),
    ensures
        s.take(k).to_multiset().count(x) <= s.to_multiset().count(x),
{
    assert(s =~= s.take(k) + s.skip(k));
    lemma_multiset_commutative(s.take(k), s.skip(k));
}

/// Whether `a` and `b` hold the same strings, each as often: whether sorting
/// both would give the same list.
pub fn same_strings(a: &Vec<String>, b: &Vec<String>) -> (r: bool)
    ensures
        r == (string_views(a@).to_multiset() == string_views(b@).to_multiset()),
{
    let ghost sa = string_views(a@);
    let ghost sb = string_views(b@);
    let mut pool: Vec<String> = b.clone();
    assert(string_views(pool@) =~= sb) by {
        assert forall|i: int| 0 <= i < b.len() implies pool@[i] == b@[i] by {
            assert(cloned::<String>(b[i], pool[i]));
        }
    }
    let mut i: usize = 0;
    while i < a.len()
        invariant
            sa == string_views(a@),
            sb == string_views(b@),
            0 <= i <= a.len(),
            sa.take(i as int).to_multiset().add(string_views(pool@).to_multiset())
                =~= sb.to_multiset(),
        decreases a.len() - i,
    {
        let ghost x = sa[i as int];
        let mut j: usize = 0;
        while j < pool.len() && pool[j] != a[i]
            invariant
                0 <= j <= pool.len(),
                i < a.len(),
                x == a@[i as int]@,
                forall|m: int| 0 <= m < j ==> pool@[m]@ != x,
            decreases pool.len() - j,
        {
            j = j + 1;
        }
        assert(sa.take(i + 1) =~= sa.take(i as int).push(x));
        if j == pool.len() {
            proof {
                let pv = string_views(pool@);
                assert(!pv.contains(x)) by {
                    if pv.contains(x) {
                        let m = choose|m: int| 0 <= m < pv.len() && pv[m] == x;
                        assert(pool@[m]@ == x);
                    }
                }
                lemma_prefix_count(sa, i + 1, x);
                assert(sa.to_multiset().count(x) > sb.to_multiset().count(x));
            }
            return false;
        }
        let ghost pv_before = string_views(pool@);
        pool.remove(j);
        proof {
            assert(string_views(pool@) =~= pv_before.remove(j as int));
            assert(pv_before[j as int] == x);
        }
        i = i + 1;
    }
    assert(sa.take(a.len() as int) =~= sa);
    if pool.len() == 0 {
        assert(string_views(pool@) =~= Seq::<Seq<char>>::empty());
        assert(string_views(pool@).to_multiset() =~= Multiset::<Seq<char>>::empty());
        assert(sa.to_multiset() =~= sb.to_multiset());
        true
    } else {
        assert(string_views(pool@).to_multiset().len() == pool.len());
        assert(sb.to_multiset().len() == sa.to_multiset().len() + pool.len());
        assert(sb.to_multiset().len() > sa.to_multiset().len());
        false
    }
}

} // verus!
