//! A map from component names to the most verbose level observed for each.

use vstd::prelude::*;

use crate::level::{more_verbose, verbosity, TracingOrLogLevel};
use crate::text::same_text;

verus! {

/// Whether no two entries share a component name.
pub open spec fn keys_unique(s: Seq<(String, TracingOrLogLevel)>) -> bool {
    forall|i: int, j: int|
        0 <= i < s.len() && 0 <= j < s.len() && i != j ==> #[trigger] s[i].0@ != #[trigger] s[j].0@
}

/// The map that a sequence of entries with unique names stands for.
pub open spec fn entries_map(s: Seq<(String, TracingOrLogLevel)>) -> Map<
    Seq<char>,
    TracingOrLogLevel,
> {
    Map::new(
        |k: Seq<char>| exists|i: int| 0 <= i < s.len() && #[trigger] s[i].0@ == k,
        |k: Seq<char>| s[choose|i: int| 0 <= i < s.len() && #[trigger] s[i].0@ == k].1,
    )
}

/// `m` with `level` recorded for `key`, keeping the more verbose level when
/// `key` is already present.
pub open spec fn merge_one(
    m: Map<Seq<char>, TracingOrLogLevel>,
    key: Seq<char>,
    level: TracingOrLogLevel,
) -> Map<Seq<char>, TracingOrLogLevel> {
    if m.contains_key(key) {
        m.insert(key, more_verbose(m[key], level))
    } else {
        m.insert(key, level)
    }
}

/// The union of two maps, taking the more verbose level where both have a key.
pub open spec fn merge_levels(
    m: Map<Seq<char>, TracingOrLogLevel>,
    c: Map<Seq<char>, TracingOrLogLevel>,
) -> Map<Seq<char>, TracingOrLogLevel> {
    Map::new(
        |k: Seq<char>| m.contains_key(k) || c.contains_key(k),
        |k: Seq<char>|
            if m.contains_key(k) && c.contains_key(k) {
                more_verbose(m[k], c[k])
            } else if m.contains_key(k) {
                m[k]
            } else {
                c[k]
            },
    )
}

proof fn lemma_entry_in_map(s: Seq<(String, TracingOrLogLevel)>, i: int)
    requires
        keys_unique(s),
        0 <= i < s.len(),
    ensures
        entries_map(s).contains_key(s[i].0@),
        entries_map(s)[s[i].0@] == s[i].1,
{
    let k = s[i].0@;
    assert(exists|j: int| 0 <= j < s.len() && #[trigger] s[j].0@ == k);
    let j = choose|j: int| 0 <= j < s.len() && #[trigger] s[j].0@ == k;
    assert(i == j);
}

fn copy_entries(s: &Vec<(String, TracingOrLogLevel)>) -> (r: Vec<(String, TracingOrLogLevel)>)
    ensures
        r@ == s@,
{
    let mut r: Vec<(String, TracingOrLogLevel)> = Vec::new();
    let mut i: usize = 0;
    while i < s.len()
        invariant
            i <= s@.len(),
            r@ == s@.subrange(0, i as int),
        decreases s@.len() - i,
    {
        r.push((s[i].0.clone(), s[i].1));
        assert(r@ =~= s@.subrange(0, i + 1));
        i = i + 1;
    }
    assert(s@.subrange(0, s@.len() as int) =~= s@);
    r
}

/// Component names mapped to levels; each name occurs once.
#[derive(Debug)]
pub struct LevelMap {
    entries: Vec<(String, TracingOrLogLevel)>,
}

impl View for LevelMap {
    type V = Map<Seq<char>, TracingOrLogLevel>;

    closed spec fn view(&self) -> Map<Seq<char>, TracingOrLogLevel> {
        entries_map(self.entries@)
    }
}

impl LevelMap {
    #[verifier::type_invariant]
    spec fn names_unique(&self) -> bool {
        keys_unique(self.entries@)
    }

    /// An empty map.
    pub fn new() -> (r: LevelMap)
        ensures
            r@ == Map::<Seq<char>, TracingOrLogLevel>::empty(),
    {
        let r = LevelMap { entries: Vec::new() };
        assert(r@ =~= Map::<Seq<char>, TracingOrLogLevel>::empty());
        r
    }

    /// Number of entries.
    pub fn len(&self) -> (r: usize)
        ensures
            r == self@.dom().len(),
    {
        proof {
            use_type_invariant(self);
            self.lemma_dom_len();
        }
        self.entries.len()
    }

    proof fn lemma_dom_len(&self)
        requires
            keys_unique(self.entries@),
        ensures
            self@.dom().len() == self.entries@.len(),
            self@.dom().finite(),
        decreases self.entries@.len(),
    {
        let s = self.entries@;
        let keys = s.map_values(|e: (String, TracingOrLogLevel)| e.0@);
        assert forall|i: int, j: int| 0 <= i < keys.len() && 0 <= j < keys.len() && i != j implies keys[i] != keys[j] by {
            assert(s[i].0@ != s[j].0@);
        }
        keys.unique_seq_to_set();
        assert(self@.dom() =~= keys.to_set()) by {
            assert forall|k: Seq<char>| self@.dom().contains(k) implies keys.to_set().contains(k) by {
                let i = choose|i: int| 0 <= i < s.len() && #[trigger] s[i].0@ == k;
                assert(keys[i] == k);
            }
            assert forall|k: Seq<char>| keys.to_set().contains(k) implies self@.dom().contains(k) by {
                let i = choose|i: int| 0 <= i < keys.len() && keys[i] == k;
                assert(s[i].0@ == k);
            }
        }
    }

    /// Index of the entry named `key`, if any.
    fn find(&self, key: &str) -> (r: Option<usize>)
        ensures
            match r {
                Some(i) => i < self.entries@.len() && self.entries@[i as int].0@ == key@,
                None => forall|i: int|
                    0 <= i < self.entries@.len() ==> #[trigger] self.entries@[i].0@ != key@,
            },
    {
        let mut i: usize = 0;
        while i < self.entries.len()
            invariant
                i <= self.entries@.len(),
                forall|j: int| 0 <= j < i ==> #[trigger] self.entries@[j].0@ != key@,
            decreases self.entries@.len() - i,
        {
            if same_text(self.entries[i].0.as_str(), key) {
                return Some(i);
            }
            i = i + 1;
        }
        None
    }

    /// The level recorded for `key`.
    pub fn get(&self, key: &str) -> (r: Option<TracingOrLogLevel>)
        ensures
            r == if self@.contains_key(key@) {
                Some(self@[key@])
            } else {
                None::<TracingOrLogLevel>
            },
    {
        proof {
            use_type_invariant(self);
        }
        match self.find(key) {
            Some(i) => {
                proof {
                    lemma_entry_in_map(self.entries@, i as int);
                }
                Some(self.entries[i].1)
            },
            None => None,
        }
    }

    /// Whether an event at `level` for component `target` passes this map: the
    /// component must be present and the level no more verbose than its entry.
    pub fn enables(&self, target: &str, level: TracingOrLogLevel) -> (r: bool)
        ensures
            r == (self@.contains_key(target@) && verbosity(level) <= verbosity(self@[target@])),
    {
        match self.get(target) {
            Some(max) => level.is_enabled_by(&max),
            None => false,
        }
    }

    /// Records `level` for `key`, replacing any earlier level.
    pub fn insert(&mut self, key: String, level: TracingOrLogLevel)
        ensures
            final(self)@ == old(self)@.insert(key@, level),
    {
        proof {
            use_type_invariant(&*self);
        }
        let ghost old_entries = self.entries@;
        let ghost new_key = key@;
        let ghost mut idx: int = 0;
        let mut entries = copy_entries(&self.entries);
        match self.find(key.as_str()) {
            Some(i) => {
                entries.set(i, (key, level));
                proof {
                    idx = i as int;
                }
            },
            None => {
                proof {
                    idx = entries@.len() as int;
                }
                entries.push((key, level));
            },
        }
        self.entries = entries;
        proof {
            let s = self.entries@;
            assert(keys_unique(s));
            assert forall|k: Seq<char>| #[trigger]
                entries_map(s).contains_key(k) == old(self)@.insert(key@, level).contains_key(k) by {
                assert(s[idx].0@ == new_key);
                if entries_map(s).contains_key(k) {
                    let j = choose|j: int| 0 <= j < s.len() && #[trigger] s[j].0@ == k;
                    if k != key@ {
                        assert(old_entries[j].0@ == k);
                    }
                }
                if old(self)@.contains_key(k) && k != key@ {
                    let j = choose|j: int| 0 <= j < old_entries.len() && #[trigger] old_entries[j].0@ == k;
                    assert(s[j].0@ == k);
                }
            }
            assert forall|k: Seq<char>| #[trigger] entries_map(s).contains_key(k) implies entries_map(s)[k]
                == old(self)@.insert(key@, level)[k] by {
                let j = choose|j: int| 0 <= j < s.len() && #[trigger] s[j].0@ == k;
                lemma_entry_in_map(s, j);
                if k != key@ {
                    assert(old_entries[j].0@ == k);
                    lemma_entry_in_map(old_entries, j);
                }
            }
            assert(entries_map(s) =~= old(self)@.insert(key@, level));
        }
    }

    /// Records `level` for `key`, keeping the more verbose level when `key` is
    /// already present.
    pub fn merge_level(&mut self, key: &String, level: TracingOrLogLevel)
        ensures
            final(self)@ == merge_one(old(self)@, key@, level),
    {
        match self.get(key.as_str()) {
            Some(current) => self.insert(key.clone(), current.max_verbosity(level)),
            None => self.insert(key.clone(), level),
        }
    }

    /// Merges every entry of `other` into this map.
    pub fn merge_from(&mut self, other: &LevelMap)
        ensures
            final(self)@ == merge_levels(old(self)@, other@),
    {
        proof {
            use_type_invariant(other);
        }
        let s = &other.entries;
        let mut i: usize = 0;
        while i < s.len()
            invariant
                i <= s@.len(),
                keys_unique(s@),
                self@ == merge_levels(old(self)@, entries_map(s@.subrange(0, i as int))),
            decreases s@.len() - i,
        {
            let ghost before = self@;
            self.merge_level(&s[i].0, s[i].1);
            proof {
                let p = s@.subrange(0, i as int);
                let q = s@.subrange(0, i + 1);
                let k = s@[i as int].0@;
                assert(keys_unique(q));
                lemma_entry_in_map(q, i as int);
                assert(q[i as int] == s@[i as int]);
                assert forall|x: Seq<char>| x != k implies (#[trigger] entries_map(q).contains_key(x)
                    == entries_map(p).contains_key(x)) && (entries_map(q).contains_key(x)
                    ==> entries_map(q)[x] == entries_map(p)[x]) by {
                    if entries_map(q).contains_key(x) {
                        let j = choose|j: int| 0 <= j < q.len() && #[trigger] q[j].0@ == x;
                        assert(p[j].0@ == x);
                        lemma_entry_in_map(q, j);
                        lemma_entry_in_map(p, j);
                    }
                    if entries_map(p).contains_key(x) {
                        let j = choose|j: int| 0 <= j < p.len() && #[trigger] p[j].0@ == x;
                        assert(q[j].0@ == x);
                    }
                }
                assert(!entries_map(p).contains_key(k)) by {
                    if entries_map(p).contains_key(k) {
                        let j = choose|j: int| 0 <= j < p.len() && #[trigger] p[j].0@ == k;
                        assert(s@[j].0@ == k);
                    }
                }
                assert(self@ =~= merge_levels(old(self)@, entries_map(q)));
            }
            i = i + 1;
        }
        proof {
            assert(s@.subrange(0, s@.len() as int) =~= s@);
        }
    }

    /// Removes every entry.
    pub fn clear(&mut self)
        ensures
            final(self)@ == Map::<Seq<char>, TracingOrLogLevel>::empty(),
    {
        self.entries = Vec::new();
        assert(self@ =~= Map::<Seq<char>, TracingOrLogLevel>::empty());
    }
}

} // verus!
