//! Unread-notification counts, one per service id.

use vstd::prelude::*;

use crate::text::str_eq;

verus! {

/// A map from service id to its latest unread count.
pub struct BadgeCounts {
    entries: Vec<(String, u32)>,
}

/// The map that a list of (key, count) entries denotes: later entries win.
pub open spec fn entries_map(s: Seq<(String, u32)>) -> Map<Seq<char>, u32>
    decreases s.len(),
{
    if s.len() == 0 {
        Map::empty()
    } else {
        entries_map(s.drop_last()).insert(s.last().0@, s.last().1)
    }
}

pub open spec fn keys_distinct(s: Seq<(String, u32)>) -> bool {
    forall|i: int, j: int| 0 <= i < s.len() && 0 <= j < s.len() && i != j ==> s[i].0@ != s[j].0@
}

proof fn lemma_entries_map_keys(s: Seq<(String, u32)>)
    requires
        keys_distinct(s),
    ensures
        forall|k: Seq<char>|
            entries_map(s).contains_key(k) <==> (exists|i: int| 0 <= i < s.len() && s[i].0@ == k),
        forall|i: int| 0 <= i < s.len() ==> #[trigger] entries_map(s)[s[i].0@] == s[i].1,
    decreases s.len(),
{
    if s.len() > 0 {
        let p = s.drop_last();
        let last = s.last();
        assert(keys_distinct(p));
        lemma_entries_map_keys(p);
        assert(entries_map(s) == entries_map(p).insert(last.0@, last.1));
        assert forall|k: Seq<char>|
            entries_map(s).contains_key(k) <==> (exists|i: int| 0 <= i < s.len() && s[i].0@ == k) by {
            if entries_map(s).contains_key(k) {
                if k == last.0@ {
                    assert(s[s.len() - 1].0@ == k);
                } else {
                    assert(entries_map(p).contains_key(k));
                    let i = choose|i: int| 0 <= i < p.len() && p[i].0@ == k;
                    assert(p[i] == s[i]);
                    assert(s[i].0@ == k);
                }
            }
            if exists|i: int| 0 <= i < s.len() && s[i].0@ == k {
                let i = choose|i: int| 0 <= i < s.len() && s[i].0@ == k;
                if i < p.len() {
                    assert(p[i] == s[i]);
                    assert(p[i].0@ == k);
                    assert(entries_map(p).contains_key(k));
                }
            }
        }
        assert forall|i: int| 0 <= i < s.len() implies #[trigger] entries_map(s)[s[i].0@] == s[i].1 by {
            if i < p.len() {
                assert(p[i] == s[i]);
                assert(s[i].0@ != last.0@);
                assert(entries_map(p)[p[i].0@] == p[i].1);
            }
        }
    }
}

proof fn lemma_entries_map_update(s: Seq<(String, u32)>, i: int, e: (String, u32))
    requires
        keys_distinct(s),
        0 <= i < s.len(),
        s[i].0@ == e.0@,
    ensures
        entries_map(s.update(i, e)) == entries_map(s).insert(e.0@, e.1),
    decreases s.len(),
{
    let t = s.update(i, e);
    if i == s.len() - 1 {
        assert(t.drop_last() =~= s.drop_last());
        assert(entries_map(t) =~= entries_map(s).insert(e.0@, e.1));
    } else {
        let p = s.drop_last();
        assert(keys_distinct(p));
        assert(t.drop_last() =~= p.update(i, e));
        lemma_entries_map_update(p, i, e);
        assert(s.last().0@ != e.0@);
        assert(entries_map(t) =~= entries_map(s).insert(e.0@, e.1));
    }
}

/// The count a map of counts holds for `key`, if any.
pub open spec fn badge_lookup(m: Map<Seq<char>, u32>, key: Seq<char>) -> Option<u32> {
    if m.contains_key(key) {
        Some(m[key])
    } else {
        None
    }
}

/// A read after a write gives back the count written, and a write leaves the
/// counts of the other services alone.
pub proof fn lemma_read_after_write(m: Map<Seq<char>, u32>, key: Seq<char>, count: u32, other: Seq<char>)
    ensures
        badge_lookup(m.insert(key, count), key) == Some(count),
        other != key ==> badge_lookup(m.insert(key, count), other) == badge_lookup(m, other),
{
}

impl View for BadgeCounts {
    type V = Map<Seq<char>, u32>;

    closed spec fn view(&self) -> Map<Seq<char>, u32> {
        entries_map(self.entries@)
    }
}

impl BadgeCounts {
    #[verifier::type_invariant]
    spec fn wf(self) -> bool {
        keys_distinct(self.entries@)
    }

    /// No service has a count yet.
    pub fn new() -> (r: Self)
        ensures
            r@ == Map::<Seq<char>, u32>::empty(),
    {
        BadgeCounts { entries: Vec::new() }
    }

    /// The count last recorded for `key`, if any.
    pub fn get(&self, key: &str) -> (r: Option<u32>)
        ensures
            r == badge_lookup(self@, key@),
    {
        proof {
            use_type_invariant(self);
            lemma_entries_map_keys(self.entries@);
        }
        let mut i: usize = 0;
        while i < self.entries.len()
            invariant
                0 <= i <= self.entries.len(),
                keys_distinct(self.entries@),
                forall|j: int| 0 <= j < i ==> self.entries@[j].0@ != key@,
            decreases self.entries.len() - i,
        {
            if str_eq(self.entries[i].0.as_str(), key) {
                proof {
                    lemma_entries_map_keys(self.entries@);
                    assert(self.entries@[i as int].0@ == key@);
                    assert(entries_map(self.entries@)[self.entries@[i as int].0@]
                        == self.entries@[i as int].1);
                }
                return Some(self.entries[i].1);
            }
            i = i + 1;
        }
        proof {
            lemma_entries_map_keys(self.entries@);
            assert(!entries_map(self.entries@).contains_key(key@));
        }
        None
    }

    /// Records `count` as the count of `key`, replacing an earlier one.
    pub fn insert(&mut self, key: String, count: u32)
        ensures
            final(self)@ == old(self)@.insert(key@, count),
    {
        proof {
            use_type_invariant(&*self);
        }
        let mut entries: Vec<(String, u32)> = Vec::new();
        std::mem::swap(&mut entries, &mut self.entries);
        let ghost before = entries@;
        let mut i: usize = 0;
        while i < entries.len()
            invariant
                entries@ == before,
                before == old(self).entries@,
                keys_distinct(before),
                0 <= i <= entries.len(),
                forall|j: int| 0 <= j < i ==> entries@[j].0@ != key@,
            decreases entries.len() - i,
        {
            if entries[i].0 == key {
                proof {
                    lemma_entries_map_update(entries@, i as int, (key, count));
                }
                entries.set(i, (key, count));
                assert(entries@ == before.update(i as int, (key, count)));
                self.entries = entries;
                assert(self@ == entries_map(before).insert(key@, count));
                return;
            }
            i = i + 1;
        }
        entries.push((key, count));
        assert(entries@.drop_last() =~= before);
        self.entries = entries;
        assert(self@ == entries_map(before).insert(key@, count));
    }
}

} // verus!
