//! A map keyed by text whose entries come out in the order of their keys.

use crate::text::same;
use vstd::prelude::*;

verus! {

/// The order of texts: character by character, a prefix before what it begins.
pub open spec fn precedes(a: Seq<char>, b: Seq<char>) -> bool
    decreases a.len(),
{
    if b.len() == 0 {
        false
    } else if a.len() == 0 {
        true
    } else if a[0] == b[0] {
        precedes(a.skip(1), b.skip(1))
    } else {
        a[0] < b[0]
    }
}

/// No text precedes itself.
pub proof fn precedes_irreflexive(a: Seq<char>)
    ensures
        !precedes(a, a),
    decreases a.len(),
{
    if a.len() > 0 {
        precedes_irreflexive(a.skip(1));
    }
}

/// Of two different texts one precedes the other, and only one.
pub proof fn precedes_total(a: Seq<char>, b: Seq<char>)
    ensures
        a == b || precedes(a, b) || precedes(b, a),
        !(precedes(a, b) && precedes(b, a)),
    decreases a.len(),
{
    if a.len() > 0 && b.len() > 0 {
        if a[0] == b[0] {
            precedes_total(a.skip(1), b.skip(1));
            if a.skip(1) == b.skip(1) {
                assert(a =~= seq![a[0]] + a.skip(1));
                assert(b =~= seq![b[0]] + b.skip(1));
            }
        }
    } else if a.len() == 0 && b.len() == 0 {
        assert(a =~= b);
    }
}

/// The order of texts is transitive.
pub proof fn precedes_transitive(a: Seq<char>, b: Seq<char>, c: Seq<char>)
    requires
        precedes(a, b),
        precedes(b, c),
    ensures
        precedes(a, c),
    decreases a.len(),
{
    if a.len() > 0 && a[0] == b[0] && b[0] == c[0] {
        precedes_transitive(a.skip(1), b.skip(1), c.skip(1));
    }
}

/// Whether the first text precedes the second.
pub fn text_precedes(a: &str, b: &str) -> (r: bool)
    ensures
        r == precedes(a@, b@),
{
    let x = crate::text::chars_of(a);
    let y = crate::text::chars_of(b);
    let mut i: usize = 0;
    assert(x@.skip(0) =~= x@);
    assert(y@.skip(0) =~= y@);
    loop
        invariant
            i <= x.len(),
            i <= y.len(),
            x@ == a@,
            y@ == b@,
            precedes(a@, b@) == precedes(x@.skip(i as int), y@.skip(i as int)),
        decreases x.len() - i,
    {
        if i == y.len() {
            return false;
        }
        if i == x.len() {
            return true;
        }
        assert(x@.skip(i as int).skip(1) =~= x@.skip(i + 1));
        assert(y@.skip(i as int).skip(1) =~= y@.skip(i + 1));
        if x[i] != y[i] {
            return x[i] < y[i];
        }
        i += 1;
    }
}

/// Entries whose keys stand in strictly ascending order.
pub open spec fn ascending<V>(entries: Seq<(String, V)>) -> bool {
    forall|i: int, j: int|
        0 <= i < j < entries.len() ==> precedes(#[trigger] entries[i].0@, #[trigger] entries[j].0@)
}

/// Whether the key occurs among the entries.
pub open spec fn has_key<V>(entries: Seq<(String, V)>, key: Seq<char>) -> bool {
    exists|i: int| 0 <= i < entries.len() && (#[trigger] entries[i]).0@ == key
}

/// A position that holds the key, where there is one.
pub open spec fn position_of<V>(entries: Seq<(String, V)>, key: Seq<char>) -> int {
    choose|i: int| 0 <= i < entries.len() && (#[trigger] entries[i]).0@ == key
}

/// The map that a list of entries stands for.
pub open spec fn as_map<V: View>(entries: Seq<(String, V)>) -> Map<Seq<char>, V::V> {
    Map::new(
        |key: Seq<char>| has_key(entries, key),
        |key: Seq<char>| entries[position_of(entries, key)].1@,
    )
}

proof fn ascending_unique<V>(entries: Seq<(String, V)>, i: int, j: int)
    requires
        ascending(entries),
        0 <= i < entries.len(),
        0 <= j < entries.len(),
        entries[i].0@ == entries[j].0@,
    ensures
        i == j,
{
    precedes_irreflexive(entries[i].0@);
}

proof fn as_map_at<V: View>(entries: Seq<(String, V)>, i: int)
    requires
        ascending(entries),
        0 <= i < entries.len(),
    ensures
        as_map(entries).contains_key(entries[i].0@),
        as_map(entries)[entries[i].0@] == entries[i].1@,
{
    let key = entries[i].0@;
    ascending_unique(entries, i, position_of(entries, key));
}

/// Pairs whose keys stand in strictly ascending order.
pub open spec fn ascending_pairs<V>(s: Seq<(Seq<char>, V)>) -> bool {
    forall|i: int, j: int| 0 <= i < j < s.len() ==> precedes(#[trigger] s[i].0, #[trigger] s[j].0)
}

pub open spec fn has_pair<V>(s: Seq<(Seq<char>, V)>, key: Seq<char>, value: V) -> bool {
    exists|i: int| 0 <= i < s.len() && #[trigger] s[i] == (key, value)
}

/// Whether the pairs of a list are the entries of a map.
pub open spec fn lists<V>(s: Seq<(Seq<char>, V)>, m: Map<Seq<char>, V>) -> bool {
    &&& ascending_pairs(s)
    &&& forall|i: int|
        0 <= i < s.len() ==> m.contains_key((#[trigger] s[i]).0) && m[s[i].0] == s[i].1
    &&& forall|key: Seq<char>| #[trigger] m.contains_key(key) ==> has_pair(s, key, m[key])
}

/// The entries of a map in the order of their keys.
pub open spec fn listing<V>(m: Map<Seq<char>, V>) -> Seq<(Seq<char>, V)> {
    choose|s: Seq<(Seq<char>, V)>| lists(s, m)
}

/// A map has one list of entries in the order of their keys.
pub proof fn listing_is_unique<V>(a: Seq<(Seq<char>, V)>, b: Seq<(Seq<char>, V)>, m: Map<Seq<char>, V>)
    requires
        lists(a, m),
        lists(b, m),
    ensures
        a == b,
    decreases a.len(),
{
    if a.len() == 0 {
        if b.len() > 0 {
            assert(m.contains_key(b[0].0));
            assert(has_pair(a, b[0].0, m[b[0].0]));
        }
        assert(a =~= b);
    } else {
        assert(has_pair(b, a[0].0, m[a[0].0]));
        let k = choose|k: int| 0 <= k < b.len() && #[trigger] b[k] == (a[0].0, m[a[0].0]);
        assert(has_pair(a, b[0].0, m[b[0].0]));
        let l = choose|l: int| 0 <= l < a.len() && #[trigger] a[l] == (b[0].0, m[b[0].0]);
        if k > 0 && l > 0 {
            precedes_total(a[0].0, b[0].0);
            assert(precedes(b[0].0, b[k].0));
            assert(precedes(a[0].0, a[l].0));
        }
        assert(a[0] == b[0]);
        let rest = m.remove(a[0].0);
        let (x, y) = (a.skip(1), b.skip(1));
        lists_tail(a, m);
        lists_tail(b, m);
        listing_is_unique(x, y, rest);
        assert(a =~= seq![a[0]] + x);
        assert(b =~= seq![b[0]] + y);
    }
}

/// Every finite map can be listed.
pub proof fn finite_maps_are_listed<V>(m: Map<Seq<char>, V>)
    requires
        m.dom().finite(),
    ensures
        lists(listing(m), m),
    decreases m.dom().len(),
{
    if m.dom().len() == 0 {
        let s = Seq::<(Seq<char>, V)>::empty();
        assert forall|key: Seq<char>| #[trigger] m.contains_key(key) implies has_pair(
            s,
            key,
            m[key],
        ) by {
            assert(m.dom().contains(key));
        }
        assert(lists(s, m));
    } else {
        let k = m.dom().choose();
        let rest = m.remove(k);
        assert(rest.dom() =~= m.dom().remove(k));
        finite_maps_are_listed(rest);
        let before = listing(rest);
        let i = place_of(before, k, 0);
        place_of_bounds(before, k, 0);
        listed_with_one_more(before, rest, i, k, m[k]);
        assert(rest.insert(k, m[k]) =~= m);
        assert(lists(before.insert(i, (k, m[k])), m));
    }
}

/// The first position at or after `from` whose key does not come before `key`.
spec fn place_of<V>(s: Seq<(Seq<char>, V)>, key: Seq<char>, from: int) -> int
    decreases s.len() - from,
{
    if from >= s.len() || !precedes(s[from].0, key) {
        from
    } else {
        place_of(s, key, from + 1)
    }
}

proof fn place_of_bounds<V>(s: Seq<(Seq<char>, V)>, key: Seq<char>, from: int)
    requires
        0 <= from <= s.len(),
        forall|j: int| 0 <= j < from ==> precedes((#[trigger] s[j]).0, key),
    ensures
        from <= place_of(s, key, from) <= s.len(),
        forall|j: int| 0 <= j < place_of(s, key, from) ==> precedes((#[trigger] s[j]).0, key),
        place_of(s, key, from) < s.len() ==> !precedes(s[place_of(s, key, from)].0, key),
    decreases s.len() - from,
{
    if from < s.len() && precedes(s[from].0, key) {
        place_of_bounds(s, key, from + 1);
    }
}

proof fn listed_with_one_more<V>(
    before: Seq<(Seq<char>, V)>,
    m: Map<Seq<char>, V>,
    i: int,
    key: Seq<char>,
    value: V,
)
    requires
        lists(before, m),
        !m.contains_key(key),
        0 <= i <= before.len(),
        forall|j: int| 0 <= j < i ==> precedes((#[trigger] before[j]).0, key),
        i < before.len() ==> !precedes(before[i].0, key),
    ensures
        lists(before.insert(i, (key, value)), m.insert(key, value)),
{
    let after = before.insert(i, (key, value));
    let n = m.insert(key, value);
    assert forall|a: int, b: int| 0 <= a < b < after.len() implies precedes(
        #[trigger] after[a].0,
        #[trigger] after[b].0,
    ) by {
        if b == i {
            assert(after[a] == before[a]);
        } else if a == i {
            assert(after[b] == before[b - 1]);
            assert(m.contains_key(before[i].0));
            precedes_total(before[i].0, key);
            if b - 1 > i {
                precedes_transitive(key, before[i].0, before[b - 1].0);
            }
        } else {
            let x = if a < i { a } else { a - 1 };
            let y = if b < i { b } else { b - 1 };
            assert(after[a] == before[x]);
            assert(after[b] == before[y]);
        }
    }
    assert forall|j: int| 0 <= j < after.len() implies n.contains_key((#[trigger] after[j]).0)
        && n[after[j].0] == after[j].1 by {
        if j != i {
            let x = if j < i { j } else { j - 1 };
            assert(after[j] == before[x]);
            assert(m.contains_key(before[x].0));
        }
    }
    assert forall|k: Seq<char>| #[trigger] n.contains_key(k) implies has_pair(after, k, n[k]) by {
        if k == key {
            assert(after[i] == (k, n[k]));
        } else {
            assert(m.contains_key(k));
            let x = choose|x: int| 0 <= x < before.len() && #[trigger] before[x] == (k, m[k]);
            let j = if x < i { x } else { x + 1 };
            assert(after[j] == before[x]);
        }
    }
}

proof fn lists_tail<V>(a: Seq<(Seq<char>, V)>, m: Map<Seq<char>, V>)
    requires
        lists(a, m),
        a.len() > 0,
    ensures
        lists(a.skip(1), m.remove(a[0].0)),
{
    let x = a.skip(1);
    let rest = m.remove(a[0].0);
    assert forall|i: int, j: int| 0 <= i < j < x.len() implies precedes(
        #[trigger] x[i].0,
        #[trigger] x[j].0,
    ) by {
        assert(x[i] == a[i + 1]);
        assert(x[j] == a[j + 1]);
    }
    assert forall|i: int| 0 <= i < x.len() implies rest.contains_key((#[trigger] x[i]).0)
        && rest[x[i].0] == x[i].1 by {
        assert(x[i] == a[i + 1]);
        precedes_irreflexive(a[0].0);
        assert(precedes(a[0].0, a[i + 1].0));
    }
    assert forall|key: Seq<char>| #[trigger] rest.contains_key(key) implies has_pair(
        x,
        key,
        rest[key],
    ) by {
        assert(has_pair(a, key, m[key]));
        let k = choose|k: int| 0 <= k < a.len() && #[trigger] a[k] == (key, m[key]);
        assert(x[k - 1] == a[k]);
    }
}

/// A map from texts to values.
#[derive(Debug, PartialEq, Eq)]
pub struct TextMap<V> {
    entries: Vec<(String, V)>,
}

impl<V: View> View for TextMap<V> {
    type V = Map<Seq<char>, V::V>;

    closed spec fn view(&self) -> Map<Seq<char>, V::V> {
        as_map(self.entries@)
    }
}

impl<V> TextMap<V> {
    #[verifier::type_invariant]
    spec fn ordered(&self) -> bool {
        ascending(self.entries@)
    }
}

/// The pairs of a list of entries.
spec fn pairs<V: View>(entries: Seq<(String, V)>) -> Seq<(Seq<char>, V::V)> {
    Seq::new(entries.len(), |i: int| (entries[i].0@, entries[i].1@))
}

proof fn entries_listed<V: View>(entries: Seq<(String, V)>)
    requires
        ascending(entries),
    ensures
        listing(as_map(entries)) == pairs(entries),
        lists(pairs(entries), as_map(entries)),
{
    let m = as_map(entries);
    let s = pairs(entries);
    assert forall|i: int, j: int| 0 <= i < j < s.len() implies precedes(
        #[trigger] s[i].0,
        #[trigger] s[j].0,
    ) by {
        assert(precedes(entries[i].0@, entries[j].0@));
    }
    assert forall|i: int| 0 <= i < s.len() implies m.contains_key((#[trigger] s[i]).0)
        && m[s[i].0] == s[i].1 by {
        as_map_at(entries, i);
    }
    assert forall|key: Seq<char>| #[trigger] m.contains_key(key) implies has_pair(
        s,
        key,
        m[key],
    ) by {
        let i = choose|i: int| 0 <= i < entries.len() && (#[trigger] entries[i]).0@ == key;
        as_map_at(entries, i);
        assert(s[i] == (key, m[key]));
    }
    assert(lists(s, m));
    assert(lists(listing(m), m));
    listing_is_unique(listing(m), s, m);
}

impl<V: View> TextMap<V> {
    /// The empty map.
    pub fn new() -> (r: TextMap<V>)
        ensures
            r@ == Map::<Seq<char>, V::V>::empty(),
    {
        let r = TextMap { entries: Vec::new() };
        assert(r@ =~= Map::<Seq<char>, V::V>::empty());
        r
    }

    /// The number of entries.
    pub fn len(&self) -> (n: usize)
        ensures
            n == listing(self@).len(),
            lists(listing(self@), self@),
    {
        proof {
            use_type_invariant(self);
            entries_listed(self.entries@);
        }
        self.entries.len()
    }

    pub fn is_empty(&self) -> (r: bool)
        ensures
            r == (listing(self@).len() == 0),
            r == (self@ == Map::<Seq<char>, V::V>::empty()),
    {
        proof {
            use_type_invariant(self);
            entries_listed(self.entries@);
            if self.entries@.len() == 0 {
                assert(self@ =~= Map::<Seq<char>, V::V>::empty());
            } else {
                as_map_at(self.entries@, 0);
            }
        }
        self.entries.len() == 0
    }

    /// The entry at a position in the order of the keys.
    pub fn entry(&self, i: usize) -> (r: (&String, &V))
        requires
            i < listing(self@).len(),
        ensures
            r.0@ == listing(self@)[i as int].0,
            r.1@ == listing(self@)[i as int].1,
            self@.contains_key(r.0@),
            self@[r.0@] == r.1@,
    {
        proof {
            use_type_invariant(self);
            entries_listed(self.entries@);
            as_map_at(self.entries@, i as int);
        }
        let e = &self.entries[i];
        (&e.0, &e.1)
    }

    /// The value stored under a key.
    pub fn get(&self, key: &str) -> (r: Option<&V>)
        ensures
            match r {
                Some(value) => self@.contains_key(key@) && value@ == self@[key@],
                None => !self@.contains_key(key@),
            },
    {
        proof {
            use_type_invariant(self);
        }
        let mut i: usize = 0;
        while i < self.entries.len()
            invariant
                i <= self.entries.len(),
                ascending(self.entries@),
                forall|j: int| 0 <= j < i ==> (#[trigger] self.entries@[j]).0@ != key@,
            decreases self.entries.len() - i,
        {
            if same(self.entries[i].0.as_str(), key) {
                proof {
                    as_map_at(self.entries@, i as int);
                }
                return Some(&self.entries[i].1);
            }
            i += 1;
        }
        None
    }

    pub fn contains_key(&self, key: &str) -> (r: bool)
        ensures
            r == self@.contains_key(key@),
    {
        self.get(key).is_some()
    }

    /// Takes the value under a key out of the map.
    pub fn remove(&mut self, key: &str) -> (r: Option<V>)
        ensures
            final(self)@ == old(self)@.remove(key@),
            match r {
                Some(value) => old(self)@.contains_key(key@) && value@ == old(self)@[key@],
                None => !old(self)@.contains_key(key@),
            },
    {
        proof {
            use_type_invariant(&*self);
        }
        let ghost before = self.entries@;
        let mut entries: Vec<(String, V)> = Vec::new();
        std::mem::swap(&mut entries, &mut self.entries);
        let mut i: usize = 0;
        while i < entries.len()
            invariant
                i <= entries.len(),
                entries@ == before,
                ascending(before),
                old(self)@ == as_map(before),
                self.entries@.len() == 0,
                forall|j: int| 0 <= j < i ==> (#[trigger] before[j]).0@ != key@,
            decreases entries.len() - i,
        {
            if same(entries[i].0.as_str(), key) {
                proof {
                    as_map_at(before, i as int);
                }
                let (_, value) = entries.remove(i);
                proof {
                    removed_entry(before, i as int);
                    assert(entries@ =~= before.remove(i as int));
                }
                self.entries = entries;
                return Some(value);
            }
            i += 1;
        }
        assert(as_map(before) =~= as_map(before).remove(key@));
        self.entries = entries;
        None
    }

    /// Takes the first entry in the order of the keys out of the map.
    pub fn pop_first(&mut self) -> (r: Option<(String, V)>)
        ensures
            lists(listing(old(self)@), old(self)@),
            match r {
                Some((key, value)) => {
                    &&& listing(old(self)@).len() > 0
                    &&& (key@, value@) == listing(old(self)@)[0]
                    &&& final(self)@ == old(self)@.remove(key@)
                    &&& listing(final(self)@) == listing(old(self)@).skip(1)
                },
                None => listing(old(self)@).len() == 0 && final(self)@ == old(self)@,
            },
    {
        proof {
            use_type_invariant(&*self);
            entries_listed(self.entries@);
        }
        let ghost before = self.entries@;
        if self.entries.len() == 0 {
            return None;
        }
        let mut entries: Vec<(String, V)> = Vec::new();
        std::mem::swap(&mut entries, &mut self.entries);
        let first = entries.remove(0);
        proof {
            removed_entry(before, 0);
            assert(entries@ =~= before.remove(0));
            entries_listed(entries@);
            assert(pairs(entries@) =~= pairs(before).skip(1));
        }
        self.entries = entries;
        Some(first)
    }

    /// Stores a value under a key, and returns what was there before.
    pub fn insert(&mut self, key: String, value: V) -> (r: Option<V>)
        ensures
            final(self)@ == old(self)@.insert(key@, value@),
            match r {
                Some(previous) => old(self)@.contains_key(key@) && previous@ == old(self)@[key@],
                None => !old(self)@.contains_key(key@),
            },
    {
        proof {
            use_type_invariant(&*self);
        }
        let ghost before = self.entries@;
        let mut entries: Vec<(String, V)> = Vec::new();
        std::mem::swap(&mut entries, &mut self.entries);
        let mut i: usize = 0;
        while i < entries.len() && text_precedes(entries[i].0.as_str(), key.as_str())
            invariant
                i <= entries.len(),
                entries@ == before,
                forall|j: int| 0 <= j < i ==> precedes((#[trigger] before[j]).0@, key@),
            decreases entries.len() - i,
        {
            i += 1;
        }
        let replaced = i < entries.len() && same(entries[i].0.as_str(), key.as_str());
        let ghost k = key@;
        let ghost v = value@;
        let mut previous: Option<V> = None;
        if replaced {
            previous = Some(entries.remove(i).1);
        }
        entries.insert(i, (key, value));
        proof {
            let after = entries@;
            if replaced {
                assert(after =~= before.update(i as int, after[i as int]));
                as_map_at(before, i as int);
                assert(ascending(after));
                assert forall|q: Seq<char>| has_key(after, q) == has_key(before, q) by {
                    if has_key(after, q) {
                        let j = choose|j: int| 0 <= j < after.len() && (#[trigger] after[j]).0@ == q;
                        assert(before[j].0@ == q);
                    }
                    if has_key(before, q) {
                        let j = choose|j: int|
                            0 <= j < before.len() && (#[trigger] before[j]).0@ == q;
                        assert(after[j].0@ == q);
                    }
                }
            } else {
                assert(after =~= before.insert(i as int, after[i as int]));
                insert_ascending(before, i as int, after[i as int]);
                if has_key(before, k) {
                    let j = choose|j: int| 0 <= j < before.len() && (#[trigger] before[j]).0@ == k;
                    precedes_irreflexive(k);
                    if j > i {
                        precedes_total(before[i as int].0@, k);
                        precedes_transitive(k, before[i as int].0@, before[j].0@);
                    }
                    assert(false);
                }
                assert forall|q: Seq<char>|
                    has_key(after, q) == (q == k || has_key(before, q)) by {
                    if has_key(after, q) {
                        let j = choose|j: int| 0 <= j < after.len() && (#[trigger] after[j]).0@ == q;
                        if j < i {
                            assert(before[j].0@ == q);
                        } else if j > i {
                            assert(before[j - 1].0@ == q);
                        }
                    }
                    if has_key(before, q) {
                        let j = choose|j: int|
                            0 <= j < before.len() && (#[trigger] before[j]).0@ == q;
                        if j < i {
                            assert(after[j].0@ == q);
                        } else {
                            assert(after[j + 1].0@ == q);
                        }
                    }
                    if q == k {
                        assert(after[i as int].0@ == q);
                    }
                }
            }
            assert forall|q: Seq<char>| #[trigger] as_map(after).contains_key(q) implies as_map(
                after,
            )[q] == as_map(before).insert(k, v)[q] by {
                let j = choose|j: int| 0 <= j < after.len() && (#[trigger] after[j]).0@ == q;
                as_map_at(after, j);
                if j == i {
                } else {
                    if q == k {
                        as_map_at(after, i as int);
                        ascending_unique(after, i as int, j);
                    }
                    let b = if replaced || j < i {
                        j
                    } else {
                        j - 1
                    };
                    assert(before[b] == after[j]);
                    as_map_at(before, b);
                }
            }
            assert(as_map(after) =~= as_map(before).insert(k, v));
        }
        self.entries = entries;
        previous
    }
}

/// The map that a list of pairs builds up from the front.
pub open spec fn pairs_to_map<V>(s: Seq<(Seq<char>, V)>) -> Map<Seq<char>, V>
    decreases s.len(),
{
    if s.len() == 0 {
        Map::empty()
    } else {
        pairs_to_map(s.drop_last()).insert(s.last().0, s.last().1)
    }
}

/// A map with pairs put into it under keys that begin with `prefix`.
pub open spec fn with_prefixed(
    m: Map<Seq<char>, Seq<char>>,
    prefix: Seq<char>,
    pairs: Seq<(Seq<char>, Seq<char>)>,
) -> Map<Seq<char>, Seq<char>>
    decreases pairs.len(),
{
    if pairs.len() == 0 {
        m
    } else {
        with_prefixed(m, prefix, pairs.drop_last()).insert(prefix + pairs.last().0, pairs.last().1)
    }
}

proof fn pairs_to_map_keys<V>(s: Seq<(Seq<char>, V)>)
    requires
        ascending_pairs(s),
    ensures
        forall|i: int|
            0 <= i < s.len() ==> pairs_to_map(s).contains_key((#[trigger] s[i]).0)
                && pairs_to_map(s)[s[i].0] == s[i].1,
        forall|key: Seq<char>| #[trigger]
            pairs_to_map(s).contains_key(key) ==> has_pair(s, key, pairs_to_map(s)[key]),
    decreases s.len(),
{
    if s.len() > 0 {
        let t = s.drop_last();
        pairs_to_map_keys(t);
        assert forall|i: int| 0 <= i < s.len() implies pairs_to_map(s).contains_key(
            (#[trigger] s[i]).0,
        ) && pairs_to_map(s)[s[i].0] == s[i].1 by {
            if i < t.len() {
                assert(t[i] == s[i]);
                assert(precedes(s[i].0, s.last().0));
                precedes_irreflexive(s[i].0);
            }
        }
        assert forall|key: Seq<char>| #[trigger] pairs_to_map(s).contains_key(key) implies has_pair(
            s,
            key,
            pairs_to_map(s)[key],
        ) by {
            if key == s.last().0 {
                assert(s[s.len() - 1] == (key, pairs_to_map(s)[key]));
            } else {
                assert(has_pair(t, key, pairs_to_map(t)[key]));
                let i = choose|i: int|
                    0 <= i < t.len() && #[trigger] t[i] == (key, pairs_to_map(t)[key]);
                assert(s[i] == t[i]);
            }
        }
    }
}

proof fn pairs_to_map_listed<V>(s: Seq<(Seq<char>, V)>, m: Map<Seq<char>, V>)
    requires
        lists(s, m),
    ensures
        pairs_to_map(s) == m,
{
    pairs_to_map_keys(s);
    assert forall|key: Seq<char>| #[trigger] m.contains_key(key) == pairs_to_map(s).contains_key(
        key,
    ) by {
        if m.contains_key(key) {
            let i = choose|i: int| 0 <= i < s.len() && #[trigger] s[i] == (key, m[key]);
        }
        if pairs_to_map(s).contains_key(key) {
            let i = choose|i: int|
                0 <= i < s.len() && #[trigger] s[i] == (key, pairs_to_map(s)[key]);
        }
    }
    assert forall|key: Seq<char>| #[trigger] m.contains_key(key) implies m[key] == pairs_to_map(
        s,
    )[key] by {
        let i = choose|i: int| 0 <= i < s.len() && #[trigger] s[i] == (key, m[key]);
    }
    assert(pairs_to_map(s) =~= m);
}

impl<V> TextMap<V> {
    /// The keys in their order.
    pub closed spec fn keys(self) -> Seq<Seq<char>> {
        self.entries@.map_values(|e: (String, V)| e.0@)
    }

    /// The values in the order of their keys.
    pub closed spec fn values(self) -> Seq<V> {
        self.entries@.map_values(|e: (String, V)| e.1)
    }
}

impl<V: Clone> Clone for TextMap<V> {
    fn clone(&self) -> (r: TextMap<V>)
        ensures
            r.keys() == self.keys(),
            r.values().len() == self.values().len(),
            forall|i: int|
                0 <= i < self.values().len() ==> cloned::<V>(
                    self.values()[i],
                    #[trigger] r.values()[i],
                ),
    {
        proof {
            use_type_invariant(self);
        }
        let mut entries: Vec<(String, V)> = Vec::new();
        let mut i: usize = 0;
        while i < self.entries.len()
            invariant
                i <= self.entries.len(),
                ascending(self.entries@),
                entries@.len() == i,
                forall|j: int| 0 <= j < i ==> (#[trigger] entries@[j]).0 == self.entries@[j].0,
                forall|j: int|
                    0 <= j < i ==> cloned::<V>(self.entries@[j].1, (#[trigger] entries@[j]).1),
            decreases self.entries.len() - i,
        {
            entries.push((self.entries[i].0.clone(), self.entries[i].1.clone()));
            i += 1;
        }
        TextMap { entries }
    }
}

impl TextMap<String> {
    /// Takes over the entries of another map; they win over entries of this one.
    pub fn extend(&mut self, other: &TextMap<String>)
        ensures
            final(self)@ == old(self)@.union_prefer_right(other@),
    {
        let ghost before = self@;
        let ghost all = listing(other@);
        let n: usize = other.len();
        let mut i: usize = 0;
        assert(self@ =~= before.union_prefer_right(pairs_to_map(all.take(0))));
        while i < n
            invariant
                i <= n == all.len(),
                all == listing(other@),
                self@ == before.union_prefer_right(pairs_to_map(all.take(i as int))),
            decreases n - i,
        {
            let (key, value) = other.entry(i);
            self.insert(key.clone(), value.clone());
            proof {
                assert(all.take(i + 1).drop_last() =~= all.take(i as int));
                assert(self@ =~= before.union_prefer_right(pairs_to_map(all.take(i + 1))));
            }
            i += 1;
        }
        proof {
            assert(all.take(i as int) =~= all);
            pairs_to_map_listed(all, other@);
        }
    }

    /// Takes over the entries of another map under keys that begin with `prefix`.
    pub fn extend_prefixed(&mut self, prefix: &str, other: &TextMap<String>)
        ensures
            final(self)@ == with_prefixed(old(self)@, prefix@, listing(other@)),
    {
        let ghost before = self@;
        let ghost all = listing(other@);
        let n: usize = other.len();
        let mut i: usize = 0;
        assert(all.take(0) =~= Seq::empty());
        while i < n
            invariant
                i <= n == all.len(),
                all == listing(other@),
                self@ == with_prefixed(before, prefix@, all.take(i as int)),
            decreases n - i,
        {
            let (key, value) = other.entry(i);
            self.insert(crate::text::cat2(prefix, key.as_str()), value.clone());
            assert(all.take(i + 1).drop_last() =~= all.take(i as int));
            i += 1;
        }
        assert(all.take(i as int) =~= all);
    }

    /// A copy that holds the same texts under the same keys.
    pub fn duplicate(&self) -> (r: TextMap<String>)
        ensures
            r@ == self@,
    {
        proof {
            use_type_invariant(self);
        }
        let mut entries: Vec<(String, String)> = Vec::new();
        let mut i: usize = 0;
        while i < self.entries.len()
            invariant
                i <= self.entries.len(),
                ascending(self.entries@),
                entries@ == self.entries@.take(i as int),
            decreases self.entries.len() - i,
        {
            entries.push((self.entries[i].0.clone(), self.entries[i].1.clone()));
            i += 1;
        }
        assert(entries@ =~= self.entries@);
        TextMap { entries }
    }
}

/// Whether two maps hold the same entries.
pub fn same_entries(a: &TextMap<String>, b: &TextMap<String>) -> (r: bool)
    ensures
        r == (a@ == b@),
{
    let n: usize = a.len();
    let m: usize = b.len();
    let ghost (la, lb) = (listing(a@), listing(b@));
    if n != m {
        return false;
    }
    let mut i: usize = 0;
    while i < n
        invariant
            i <= n == la.len(),
            n == lb.len(),
            la == listing(a@),
            lb == listing(b@),
            forall|j: int| 0 <= j < i ==> la[j] == lb[j],
        decreases n - i,
    {
        let (key, value) = a.entry(i);
        let (other_key, other_value) = b.entry(i);
        if !same(key.as_str(), other_key.as_str()) || !same(value.as_str(), other_value.as_str()) {
            return false;
        }
        i += 1;
    }
    proof {
        assert(la =~= lb);
        pairs_to_map_listed(la, a@);
        pairs_to_map_listed(lb, b@);
    }
    true
}

proof fn removed_entry<V: View>(before: Seq<(String, V)>, i: int)
    requires
        ascending(before),
        0 <= i < before.len(),
    ensures
        ascending(before.remove(i)),
        as_map(before.remove(i)) == as_map(before).remove(before[i].0@),
{
    let after = before.remove(i);
    let key = before[i].0@;
    assert forall|a: int, b: int| 0 <= a < b < after.len() implies precedes(
        #[trigger] after[a].0@,
        #[trigger] after[b].0@,
    ) by {
        let x = if a < i { a } else { a + 1 };
        let y = if b < i { b } else { b + 1 };
        assert(after[a] == before[x]);
        assert(after[b] == before[y]);
    }
    assert forall|q: Seq<char>| has_key(after, q) == (q != key && has_key(before, q)) by {
        if has_key(after, q) {
            let j = choose|j: int| 0 <= j < after.len() && (#[trigger] after[j]).0@ == q;
            let x = if j < i { j } else { j + 1 };
            assert(before[x] == after[j]);
            if q == key {
                ascending_unique(before, i, x);
            }
        }
        if q != key && has_key(before, q) {
            let j = choose|j: int| 0 <= j < before.len() && (#[trigger] before[j]).0@ == q;
            let x = if j < i { j } else { j - 1 };
            assert(after[x] == before[j]);
        }
    }
    assert forall|q: Seq<char>| #[trigger] as_map(after).contains_key(q) implies as_map(after)[q]
        == as_map(before)[q] by {
        let j = choose|j: int| 0 <= j < after.len() && (#[trigger] after[j]).0@ == q;
        let x = if j < i { j } else { j + 1 };
        assert(before[x] == after[j]);
        as_map_at(after, j);
        as_map_at(before, x);
    }
    assert(as_map(after) =~= as_map(before).remove(key));
}

proof fn insert_ascending<V>(before: Seq<(String, V)>, i: int, e: (String, V))
    requires
        ascending(before),
        0 <= i <= before.len(),
        forall|j: int| 0 <= j < i ==> precedes((#[trigger] before[j]).0@, e.0@),
        i < before.len() ==> !precedes(before[i].0@, e.0@) && before[i].0@ != e.0@,
    ensures
        ascending(before.insert(i, e)),
{
    let after = before.insert(i, e);
    assert forall|a: int, b: int| 0 <= a < b < after.len() implies precedes(
        #[trigger] after[a].0@,
        #[trigger] after[b].0@,
    ) by {
        if b == i {
            assert(after[a] == before[a]);
        } else if a == i {
            assert(after[b] == before[b - 1]);
            precedes_total(before[i].0@, e.0@);
            if b - 1 > i {
                precedes_transitive(e.0@, before[i].0@, before[b - 1].0@);
            }
        } else {
            let x = if a < i { a } else { a - 1 };
            let y = if b < i { b } else { b - 1 };
            assert(after[a] == before[x]);
            assert(after[b] == before[y]);
        }
    }
}

} // verus!
