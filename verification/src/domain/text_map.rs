//! A small map from texts to texts, as recommendations carry their provider's extra
//! details.
use vstd::prelude::*;
use crate::text::str_eq;

verus! {

/// The map that the entries `s` hold: each key of an entry maps to that entry's value.
pub open spec fn entries_map(s: Seq<(String, String)>) -> Map<Seq<char>, Seq<char>> {
    Map::new(
        |k: Seq<char>| exists|i: int| 0 <= i < s.len() && #[trigger] s[i].0@ == k,
        |k: Seq<char>| s[choose|i: int| 0 <= i < s.len() && #[trigger] s[i].0@ == k].1@,
    )
}

/// No two entries of `s` have the same key.
pub open spec fn distinct_keys(s: Seq<(String, String)>) -> bool {
    forall|i: int, j: int| 0 <= i < s.len() && 0 <= j < s.len() && i != j ==> #[trigger] s[i].0@ != #[trigger] s[j].0@
}

/// A map from texts to texts, each key at most once.
#[derive(Debug)]
pub struct TextMap {
    entries: Vec<(String, String)>,
}

impl View for TextMap {
    type V = Map<Seq<char>, Seq<char>>;

    closed spec fn view(&self) -> Map<Seq<char>, Seq<char>> {
        entries_map(self.entries@)
    }
}

/// In entries with distinct keys, the entry at `i` gives the value of its key.
proof fn lemma_entry_value(s: Seq<(String, String)>, i: int)
    requires
        distinct_keys(s),
        0 <= i < s.len(),
    ensures
        entries_map(s).contains_key(s[i].0@),
        entries_map(s)[s[i].0@] == s[i].1@,
{
    let k = s[i].0@;
    assert(s[i].0@ == k);
    let j = choose|j: int| 0 <= j < s.len() && #[trigger] s[j].0@ == k;
    assert(j == i);
}

/// Entries that agree with `old` except at `pos`, where they hold `key` with `value`
/// (and where `old`, if it reaches `pos`, already held `key`), describe `old`'s map with
/// `key` set to `value`.
proof fn lemma_set_entry(
    old: Seq<(String, String)>,
    new: Seq<(String, String)>,
    pos: int,
    key: Seq<char>,
    value: Seq<char>,
)
    requires
        distinct_keys(old),
        distinct_keys(new),
        0 <= pos < new.len(),
        new.len() == old.len() || (new.len() == old.len() + 1 && pos == old.len()),
        new[pos].0@ == key,
        new[pos].1@ == value,
        pos < old.len() ==> old[pos].0@ == key,
        forall|j: int| 0 <= j < old.len() && j != pos ==> new[j] == old[j],
    ensures
        entries_map(new) == entries_map(old).insert(key, value),
{
    let target = entries_map(old).insert(key, value);
    assert forall|k: Seq<char>| entries_map(new).dom().contains(k) <==> #[trigger] target.dom().contains(k) by {
        if k != key {
            if entries_map(old).contains_key(k) {
                let j = choose|j: int| 0 <= j < old.len() && #[trigger] old[j].0@ == k;
                assert(j != pos);
                assert(new[j] == old[j]);
                assert(new[j].0@ == k);
            }
            if entries_map(new).contains_key(k) {
                let j = choose|j: int| 0 <= j < new.len() && #[trigger] new[j].0@ == k;
                assert(j != pos);
                assert(new[j] == old[j]);
                assert(old[j].0@ == k);
            }
        } else {
            assert(new[pos].0@ == key);
        }
    }
    assert(entries_map(new).dom() =~= target.dom());
    assert forall|k: Seq<char>| #[trigger] entries_map(new).contains_key(k) implies entries_map(new)[k] == target[k] by {
        if k == key {
            lemma_entry_value(new, pos);
        } else {
            let j = choose|j: int| 0 <= j < new.len() && #[trigger] new[j].0@ == k;
            assert(j != pos);
            assert(new[j] == old[j]);
            lemma_entry_value(new, j);
            lemma_entry_value(old, j);
        }
    }
    assert(entries_map(new) =~= target);
}

impl TextMap {
    #[verifier::type_invariant]
    spec fn keys_distinct(self) -> bool {
        distinct_keys(self.entries@)
    }

    /// The empty map.
    pub fn new() -> (m: Self)
        ensures
            m@ == Map::<Seq<char>, Seq<char>>::empty(),
    {
        let m = TextMap { entries: Vec::new() };
        assert(m@ =~= Map::<Seq<char>, Seq<char>>::empty());
        m
    }

    /// Sets `key` to `value`, in place of any value it had.
    pub fn insert(&mut self, key: String, value: String)
        ensures
            final(self)@ == old(self)@.insert(key@, value@),
    {
        proof {
            use_type_invariant(&*self);
        }
        let ghost old_entries = self.entries@;
        let mut i: usize = 0;
        let n = self.entries.len();
        while i < n
            invariant
                n == old_entries.len(),
                self.entries@ == old_entries,
                old(self)@ == entries_map(old_entries),
                distinct_keys(old_entries),
                i <= n,
                forall|j: int| 0 <= j < i ==> #[trigger] old_entries[j].0@ != key@,
            decreases n - i,
        {
            if str_eq(self.entries[i].0.as_str(), key.as_str()) {
                let mut entries: Vec<(String, String)> = Vec::new();
                std::mem::swap(&mut entries, &mut self.entries);
                entries.set(i, (key, value));
                let ghost new_entries = entries@;
                proof {
                    assert(distinct_keys(new_entries)) by {
                        assert forall|a: int, b: int|
                            0 <= a < new_entries.len() && 0 <= b < new_entries.len() && a != b implies
                            #[trigger] new_entries[a].0@ != #[trigger] new_entries[b].0@ by {
                            if a != i && b != i {
                                assert(old_entries[a].0@ != old_entries[b].0@);
                            } else if a == i {
                                assert(old_entries[i as int].0@ != old_entries[b].0@);
                            } else {
                                assert(old_entries[a].0@ != old_entries[i as int].0@);
                            }
                        }
                    }
                    lemma_set_entry(old_entries, new_entries, i as int, key@, value@);
                }
                self.entries = entries;
                return;
            }
            i = i + 1;
        }
        let mut entries: Vec<(String, String)> = Vec::new();
        std::mem::swap(&mut entries, &mut self.entries);
        entries.push((key, value));
        proof {
            let new_entries = entries@;
            assert(new_entries[n as int].0@ == key@);
            assert(distinct_keys(new_entries)) by {
                assert forall|a: int, b: int|
                    0 <= a < new_entries.len() && 0 <= b < new_entries.len() && a != b implies
                    #[trigger] new_entries[a].0@ != #[trigger] new_entries[b].0@ by {
                    if a < n && b < n {
                        assert(old_entries[a].0@ != old_entries[b].0@);
                    } else if a == n {
                        assert(old_entries[b].0@ != key@);
                    } else {
                        assert(old_entries[a].0@ != key@);
                    }
                }
            }
            lemma_set_entry(old_entries, new_entries, n as int, key@, value@);
        }
        self.entries = entries;
    }

    /// The entries, each key once, in the order their keys were first set.
    pub fn entries(&self) -> (e: &Vec<(String, String)>)
        ensures
            entries_map(e@) == self@,
            distinct_keys(e@),
    {
        proof {
            use_type_invariant(self);
        }
        &self.entries
    }
}

impl Clone for TextMap {
    fn clone(&self) -> (r: Self)
        ensures
            r@ == self@,
    {
        proof {
            use_type_invariant(self);
        }
        let mut entries: Vec<(String, String)> = Vec::new();
        let mut i: usize = 0;
        while i < self.entries.len()
            invariant
                i <= self.entries@.len(),
                entries@ == self.entries@.take(i as int),
            decreases self.entries.len() - i,
        {
            let k = self.entries[i].0.clone();
            let v = self.entries[i].1.clone();
            entries.push((k, v));
            proof {
                assert(entries@ =~= self.entries@.take(i + 1));
            }
            i = i + 1;
        }
        proof {
            assert(entries@ =~= self.entries@);
        }
        TextMap { entries }
    }
}

} // verus!
