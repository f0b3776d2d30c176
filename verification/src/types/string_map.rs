//! A map from text keys to text values in which each key occurs once; it
//! holds a message's custom headers and custom variables.

use vstd::prelude::*;

verus! {

/// One stored entry, key and value, as character sequences.
pub open spec fn entry_view(e: (String, String)) -> (Seq<char>, Seq<char>) {
    (e.0@, e.1@)
}

/// No key occurs twice in `s`.
pub open spec fn keys_distinct(s: Seq<(Seq<char>, Seq<char>)>) -> bool {
    forall|i: int, j: int|
        0 <= i < s.len() && 0 <= j < s.len() && i != j ==> #[trigger] s[i].0 != #[trigger] s[j].0
}

/// The map that a sequence of entries stands for.
pub open spec fn entries_to_map(s: Seq<(Seq<char>, Seq<char>)>) -> Map<Seq<char>, Seq<char>>
    decreases s.len(),
{
    if s.len() == 0 {
        Map::empty()
    } else {
        entries_to_map(s.drop_last()).insert(s.last().0, s.last().1)
    }
}

/// With distinct keys, the map holds exactly the keys of the entries, each
/// with its entry's value, and has as many keys as there are entries.
proof fn lemma_entries_to_map(s: Seq<(Seq<char>, Seq<char>)>)
    requires
        keys_distinct(s),
    ensures
        forall|i: int|
            0 <= i < s.len() ==> entries_to_map(s).contains_key(#[trigger] s[i].0)
                && entries_to_map(s)[s[i].0] == s[i].1,
        forall|k: Seq<char>| #[trigger]
            entries_to_map(s).contains_key(k) ==> exists|i: int| 0 <= i < s.len() && s[i].0 == k,
        entries_to_map(s).dom().finite(),
        entries_to_map(s).len() == s.len(),
    decreases s.len(),
{
    if s.len() > 0 {
        let t = s.drop_last();
        assert(keys_distinct(t)) by {
            assert forall|i: int, j: int|
                0 <= i < t.len() && 0 <= j < t.len() && i != j implies #[trigger] t[i].0
                != #[trigger] t[j].0 by {
                assert(t[i] == s[i] && t[j] == s[j]);
            }
        }
        lemma_entries_to_map(t);
        let last = s.last();
        assert(!entries_to_map(t).contains_key(last.0)) by {
            if entries_to_map(t).contains_key(last.0) {
                let i = choose|i: int| 0 <= i < t.len() && t[i].0 == last.0;
                assert(s[i].0 == s[s.len() - 1].0);
            }
        }
        assert forall|i: int| 0 <= i < s.len() implies entries_to_map(s).contains_key(
            #[trigger] s[i].0,
        ) && entries_to_map(s)[s[i].0] == s[i].1 by {
            if i < s.len() - 1 {
                assert(t[i] == s[i]);
                assert(s[i].0 != s[s.len() - 1].0);
            }
        }
        assert forall|k: Seq<char>| #[trigger]
            entries_to_map(s).contains_key(k) implies exists|i: int|
            0 <= i < s.len() && s[i].0 == k by {
            if k != last.0 {
                let i = choose|i: int| 0 <= i < t.len() && t[i].0 == k;
                assert(s[i] == t[i]);
            } else {
                assert(s[s.len() - 1].0 == k);
            }
        }
    }
}

/// Replacing the value of the entry at `i` keeps the keys distinct and
/// updates the map at that entry's key.
proof fn lemma_update_entry(s: Seq<(Seq<char>, Seq<char>)>, i: int, v: Seq<char>)
    requires
        keys_distinct(s),
        0 <= i < s.len(),
    ensures
        keys_distinct(s.update(i, (s[i].0, v))),
        entries_to_map(s.update(i, (s[i].0, v))) == entries_to_map(s).insert(s[i].0, v),
{
    let t = s.update(i, (s[i].0, v));
    assert forall|a: int| 0 <= a < t.len() implies #[trigger] t[a].0 == s[a].0 by {}
    assert(keys_distinct(t)) by {
        assert forall|a: int, b: int|
            0 <= a < t.len() && 0 <= b < t.len() && a != b implies #[trigger] t[a].0
            != #[trigger] t[b].0 by {
            assert(t[a].0 == s[a].0 && t[b].0 == s[b].0);
        }
    }
    lemma_entries_to_map(s);
    lemma_entries_to_map(t);
    let m1 = entries_to_map(t);
    let m2 = entries_to_map(s).insert(s[i].0, v);
    assert forall|k: Seq<char>| m1.contains_key(k) <==> m2.contains_key(k) by {
        if m1.contains_key(k) {
            let j = choose|j: int| 0 <= j < t.len() && t[j].0 == k;
            assert(t[j].0 == s[j].0);
        }
        if m2.contains_key(k) && k != s[i].0 {
            let j = choose|j: int| 0 <= j < s.len() && s[j].0 == k;
            assert(t[j].0 == s[j].0);
        }
        if k == s[i].0 {
            assert(t[i].0 == k);
        }
    }
    assert forall|k: Seq<char>| m1.contains_key(k) implies m1[k] == m2[k] by {
        let j = choose|j: int| 0 <= j < t.len() && t[j].0 == k;
        assert(t[j].0 == s[j].0);
        if j != i {
            assert(s[j].0 != s[i].0);
            assert(t[j] == s[j]);
        }
    }
    assert(m1 =~= m2);
}

/// Adding an entry whose key is new keeps the keys distinct and inserts it
/// into the map.
proof fn lemma_push_entry(s: Seq<(Seq<char>, Seq<char>)>, k: Seq<char>, v: Seq<char>)
    requires
        keys_distinct(s),
        forall|i: int| 0 <= i < s.len() ==> #[trigger] s[i].0 != k,
    ensures
        keys_distinct(s.push((k, v))),
        entries_to_map(s.push((k, v))) == entries_to_map(s).insert(k, v),
{
    let t = s.push((k, v));
    assert(keys_distinct(t)) by {
        assert forall|a: int, b: int|
            0 <= a < t.len() && 0 <= b < t.len() && a != b implies #[trigger] t[a].0
            != #[trigger] t[b].0 by {
            if a < s.len() {
                assert(t[a] == s[a]);
            }
            if b < s.len() {
                assert(t[b] == s[b]);
            }
        }
    }
    assert(t.drop_last() =~= s);
}

/// The position in `entries` of the entry whose key is `key`, if any.
fn position_of(entries: &Vec<(String, String)>, key: &String) -> (r: Option<usize>)
    ensures
        match r {
            Some(i) => i < entries@.len() && entries@[i as int].0@ == key@,
            None => forall|i: int| 0 <= i < entries@.len() ==> #[trigger] entries@[i].0@ != key@,
        },
{
    let n = entries.len();
    let mut i: usize = 0;
    while i < n
        invariant
            n == entries@.len(),
            i <= n,
            forall|j: int| 0 <= j < i ==> #[trigger] entries@[j].0@ != key@,
        decreases n - i,
    {
        if entries[i].0 == *key {
            return Some(i);
        }
        i = i + 1;
    }
    None
}

/// A map from text keys to text values in which no key occurs twice.
/// Setting a key that is already present replaces its value.
#[derive(Debug)]
pub struct StringMap {
    entries: Vec<(String, String)>,
}

impl StringMap {
    /// The stored entries, as character sequences, in the order they were added.
    pub closed spec fn entries_view(&self) -> Seq<(Seq<char>, Seq<char>)> {
        self.entries@.map_values(|e: (String, String)| entry_view(e))
    }

    #[verifier::type_invariant]
    spec fn keys_are_distinct(&self) -> bool {
        keys_distinct(self.entries_view())
    }
}

impl View for StringMap {
    type V = Map<Seq<char>, Seq<char>>;

    closed spec fn view(&self) -> Map<Seq<char>, Seq<char>> {
        entries_to_map(self.entries_view())
    }
}

impl StringMap {
    /// An empty map.
    pub fn new() -> (r: StringMap)
        ensures
            r@ == Map::<Seq<char>, Seq<char>>::empty(),
    {
        let r = StringMap { entries: Vec::new() };
        assert(r.entries_view() =~= Seq::<(Seq<char>, Seq<char>)>::empty());
        r
    }

    /// The number of keys.
    pub fn len(&self) -> (r: usize)
        ensures
            r == self@.len(),
            self@.dom().finite(),
    {
        proof {
            use_type_invariant(self);
            lemma_entries_to_map(self.entries_view());
        }
        self.entries.len()
    }

    /// Whether the map holds no key.
    pub fn is_empty(&self) -> (r: bool)
        ensures
            r == (self@.len() == 0),
            r == (self@ == Map::<Seq<char>, Seq<char>>::empty()),
    {
        proof {
            use_type_invariant(self);
            lemma_entries_to_map(self.entries_view());
        }
        let r = self.entries.len() == 0;
        proof {
            if r {
                assert(self.entries_view() =~= Seq::<(Seq<char>, Seq<char>)>::empty());
            } else {
                assert(self@.contains_key(self.entries_view()[0].0));
            }
        }
        r
    }

    /// The value stored under `key`, if any.
    pub fn get(&self, key: &str) -> (r: Option<&String>)
        ensures
            match r {
                Some(v) => self@.contains_key(key@) && v@ == self@[key@],
                None => !self@.contains_key(key@),
            },
    {
        proof {
            use_type_invariant(self);
            lemma_entries_to_map(self.entries_view());
        }
        let k = key.to_owned();
        match position_of(&self.entries, &k) {
            Some(i) => {
                assert(self.entries_view()[i as int] == entry_view(self.entries@[i as int]));
                assert(self.entries_view()[i as int].0 == key@);
                Some(&self.entries[i].1)
            },
            None => {
                assert forall|i: int| 0 <= i < self.entries_view().len() implies #[trigger] self.entries_view()[i].0 != key@ by {
                    assert(self.entries_view()[i] == entry_view(self.entries@[i]));
                }
                None
            },
        }
    }

    /// Whether `key` is present.
    pub fn contains_key(&self, key: &str) -> (r: bool)
        ensures
            r == self@.contains_key(key@),
    {
        proof {
            use_type_invariant(self);
            lemma_entries_to_map(self.entries_view());
        }
        let k = key.to_owned();
        let found = position_of(&self.entries, &k);
        proof {
            if found is None {
                assert forall|i: int| 0 <= i < self.entries_view().len() implies #[trigger] self.entries_view()[i].0 != key@ by {
                    assert(self.entries_view()[i] == entry_view(self.entries@[i]));
                }
            } else {
                let i = found->0 as int;
                assert(self.entries_view()[i] == entry_view(self.entries@[i]));
                assert(self.entries_view()[i].0 == key@);
            }
        }
        found.is_some()
    }

    /// Stores `value` under `key`, replacing the value that was there; returns
    /// the replaced value, if any. Afterwards `key` reads as `value`, every
    /// other key reads as before, and the number of keys grows by one exactly
    /// when `key` was absent.
    pub fn insert(&mut self, key: String, value: String) -> (r: Option<String>)
        ensures
            final(self)@ == old(self)@.insert(key@, value@),
            final(self)@.contains_key(key@) && final(self)@[key@] == value@,
            forall|k: Seq<char>|
                k != key@ ==> (#[trigger] final(self)@.contains_key(k) == old(self)@.contains_key(k)
                    && final(self)@[k] == old(self)@[k]),
            final(self)@.len() == if old(self)@.contains_key(key@) {
                old(self)@.len()
            } else {
                old(self)@.len() + 1
            },
            match r {
                Some(v) => old(self)@.contains_key(key@) && v@ == old(self)@[key@],
                None => !old(self)@.contains_key(key@),
            },
    {
        proof {
            use_type_invariant(&*self);
            lemma_entries_to_map(self.entries_view());
        }
        let ghost s = self.entries_view();
        let mut entries: Vec<(String, String)> = Vec::new();
        std::mem::swap(&mut entries, &mut self.entries);
        assert(entries@.map_values(|e: (String, String)| entry_view(e)) == s);
        let found = position_of(&entries, &key);
        match found {
            Some(i) => {
                let previous = entries[i].1.clone();
                let ghost kv = key@;
                let ghost vv = value@;
                entries.set(i, (key, value));
                proof {
                    lemma_update_entry(s, i as int, vv);
                    assert(entries_to_map(s).contains_key(s[i as int].0));
                    assert(entries_to_map(s).insert(kv, vv).dom() =~= entries_to_map(s).dom());
                    assert(entries@.map_values(|e: (String, String)| entry_view(e)) =~= s.update(
                        i as int,
                        (s[i as int].0, vv),
                    ));
                }
                self.entries = entries;
                Some(previous)
            },
            None => {
                let ghost kv = key@;
                let ghost vv = value@;
                entries.push((key, value));
                proof {
                    lemma_push_entry(s, kv, vv);
                    assert(entries@.map_values(|e: (String, String)| entry_view(e)) =~= s.push(
                        (kv, vv),
                    ));
                }
                self.entries = entries;
                None
            },
        }
    }

    /// The stored entries, with a proof that they stand for this map and hold
    /// each key once.
    pub fn entries(&self) -> (r: &Vec<(String, String)>)
        ensures
            keys_distinct(r@.map_values(|e: (String, String)| entry_view(e))),
            entries_to_map(r@.map_values(|e: (String, String)| entry_view(e))) == self@,
    {
        proof {
            use_type_invariant(self);
        }
        &self.entries
    }
}

impl Clone for StringMap {
    /// A copy holding the same entries.
    fn clone(&self) -> (r: StringMap)
        ensures
            r@ == self@,
    {
        proof {
            use_type_invariant(self);
        }
        let n = self.entries.len();
        let mut entries: Vec<(String, String)> = Vec::new();
        for i in 0..n
            invariant
                n == self.entries@.len(),
                entries@.len() == i,
                forall|j: int|
                    0 <= j < i ==> entry_view(#[trigger] entries@[j]) == entry_view(
                        self.entries@[j],
                    ),
        {
            let k = self.entries[i].0.clone();
            let v = self.entries[i].1.clone();
            entries.push((k, v));
        }
        assert(entries@.map_values(|e: (String, String)| entry_view(e)) =~= self.entries_view());
        StringMap { entries }
    }
}

impl PartialEq for StringMap {
    /// Whether the two maps hold the same keys with the same values, in
    /// whatever order they were added.
    fn eq(&self, other: &StringMap) -> (r: bool) {
        proof {
            use_type_invariant(self);
            use_type_invariant(other);
            lemma_entries_to_map(self.entries_view());
            lemma_entries_to_map(other.entries_view());
        }
        let ghost sv = self.entries_view();
        if self.entries.len() != other.entries.len() {
            return false;
        }
        let n = self.entries.len();
        for i in 0..n
            invariant
                n == self.entries@.len(),
                sv == self.entries_view(),
                keys_distinct(sv),
                forall|j: int|
                    0 <= j < i ==> other@.contains_key(#[trigger] sv[j].0) && other@[sv[j].0]
                        == sv[j].1,
        {
            assert(sv[i as int] == entry_view(self.entries@[i as int]));
            match other.get(self.entries[i].0.as_str()) {
                Some(v) => {
                    if !(*v == self.entries[i].1) {
                        proof {
                            lemma_entries_to_map(sv);
                        }
                        assert(self@[sv[i as int].0] == sv[i as int].1);
                        return false;
                    }
                },
                None => {
                    proof {
                        lemma_entries_to_map(sv);
                    }
                    assert(self@.contains_key(sv[i as int].0));
                    return false;
                },
            }
        }
        proof {
            assert forall|k: Seq<char>| self@.contains_key(k) implies other@.contains_key(k)
                && other@[k] == self@[k] by {
                let j = choose|j: int| 0 <= j < sv.len() && sv[j].0 == k;
                assert(other@.contains_key(sv[j].0));
            }
            vstd::set_lib::lemma_subset_equality(self@.dom(), other@.dom());
            assert(self@ =~= other@);
        }
        true
    }
}

impl vstd::std_specs::cmp::PartialEqSpecImpl for StringMap {
    open spec fn obeys_eq_spec() -> bool {
        true
    }

    open spec fn eq_spec(&self, other: &StringMap) -> bool {
        self@ == other@
    }
}

impl Eq for StringMap {

}

/// Storing two values under one key, one after the other, leaves the map as
/// storing only the second would: `after` is what `insert(k, v2)` makes of
/// `middle`, which is what `insert(k, v1)` made of `before`.
pub proof fn law_last_insert_wins(
    before: StringMap,
    middle: StringMap,
    after: StringMap,
    k: Seq<char>,
    v1: Seq<char>,
    v2: Seq<char>,
)
    requires
        middle@ == before@.insert(k, v1),
        after@ == middle@.insert(k, v2),
    ensures
        after@ == before@.insert(k, v2),
{
    assert(after@ =~= before@.insert(k, v2));
}

} // verus!
