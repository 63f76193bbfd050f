//! A map from text keys to values that keeps its entries in the order in
//! which their keys first came in.

use vstd::prelude::*;
use vstd::string::StringSliceAdditionalSpecFns;

verus! {

/// Some entry of `s` has the key `k`.
pub open spec fn has_key<T>(s: Seq<(Seq<char>, T)>, k: Seq<char>) -> bool {
    exists|i: int| 0 <= i < s.len() && (#[trigger] s[i]).0 == k
}

/// The place of an entry of `s` with the key `k`, where there is one.
pub open spec fn key_position<T>(s: Seq<(Seq<char>, T)>, k: Seq<char>) -> int {
    choose|i: int| 0 <= i < s.len() && (#[trigger] s[i]).0 == k
}

/// No two entries of `s` have the same key.
pub open spec fn distinct_keys<T>(s: Seq<(Seq<char>, T)>) -> bool {
    forall|i: int, j: int|
        0 <= i < s.len() && 0 <= j < s.len() && i != j ==> (#[trigger] s[i]).0 != (#[trigger] s[j]).0
}

/// The map that a list of entries with distinct keys stands for.
pub open spec fn entries_map<T>(s: Seq<(Seq<char>, T)>) -> Map<Seq<char>, T> {
    Map::new(|k: Seq<char>| has_key(s, k), |k: Seq<char>| s[key_position(s, k)].1)
}

/// The entries after `k` is given the value `v`: an entry with that key keeps
/// its place and takes the value, a new key goes to the end.
pub open spec fn entries_insert<T>(s: Seq<(Seq<char>, T)>, k: Seq<char>, v: T) -> Seq<
    (Seq<char>, T),
> {
    if has_key(s, k) {
        s.update(key_position(s, k), (k, v))
    } else {
        s.push((k, v))
    }
}

/// The entries after the key `k` is taken out: the others keep their order.
pub open spec fn entries_remove<T>(s: Seq<(Seq<char>, T)>, k: Seq<char>) -> Seq<(Seq<char>, T)> {
    if has_key(s, k) {
        s.remove(key_position(s, k))
    } else {
        s
    }
}

/// With distinct keys, the map holds each entry's value under its key.
pub proof fn lemma_entries_map_at<T>(s: Seq<(Seq<char>, T)>, i: int)
    requires
        distinct_keys(s),
        0 <= i < s.len(),
    ensures
        has_key(s, s[i].0),
        key_position(s, s[i].0) == i,
        entries_map(s).contains_key(s[i].0),
        entries_map(s)[s[i].0] == s[i].1,
{
    assert(has_key(s, s[i].0));
}

/// Giving a key a value in the entries gives it that value in the map, and
/// keeps the keys distinct.
pub proof fn lemma_entries_insert<T>(s: Seq<(Seq<char>, T)>, k: Seq<char>, v: T)
    requires
        distinct_keys(s),
    ensures
        distinct_keys(entries_insert(s, k, v)),
        entries_map(entries_insert(s, k, v)) == entries_map(s).insert(k, v),
{
    let t = entries_insert(s, k, v);
    let p = if has_key(s, k) {
        key_position(s, k)
    } else {
        s.len() as int
    };
    assert(t[p] == (k, v));
    assert(forall|i: int| 0 <= i < s.len() && i != p ==> t[i] == s[i]);
    assert(distinct_keys(t)) by {
        assert forall|i: int, j: int| 0 <= i < t.len() && 0 <= j < t.len() && i != j implies (
        #[trigger] t[i]).0 != (#[trigger] t[j]).0 by {
            if i != p && j != p {
                assert(s[i].0 != s[j].0);
            } else if i == p {
                assert(s[j].0 != k);
            } else {
                assert(s[i].0 != k);
            }
        }
    }
    assert forall|q: Seq<char>| has_key(t, q) <==> (q == k || has_key(s, q)) by {
        if has_key(t, q) {
            let i = key_position(t, q);
            if i != p {
                assert(s[i].0 == q);
            }
        }
        if q == k {
            assert(t[p].0 == q);
        } else if has_key(s, q) {
            let i = key_position(s, q);
            assert(t[i].0 == q);
        }
    }
    assert forall|q: Seq<char>| has_key(t, q) implies #[trigger] entries_map(t)[q] == entries_map(
        s,
    ).insert(k, v)[q] by {
        let i = key_position(t, q);
        lemma_entries_map_at(t, i);
        if q != k {
            assert(i != p);
            lemma_entries_map_at(s, i);
        } else {
            assert(i == p);
        }
    }
    assert(entries_map(t) =~= entries_map(s).insert(k, v));
}

/// Taking a key out of the entries takes it out of the map, and keeps the
/// keys distinct.
pub proof fn lemma_entries_remove<T>(s: Seq<(Seq<char>, T)>, k: Seq<char>)
    requires
        distinct_keys(s),
    ensures
        distinct_keys(entries_remove(s, k)),
        entries_map(entries_remove(s, k)) == entries_map(s).remove(k),
{
    let t = entries_remove(s, k);
    if has_key(s, k) {
        let p = key_position(s, k);
        assert(forall|i: int| 0 <= i < p ==> t[i] == s[i]);
        assert(forall|i: int| p <= i < t.len() ==> t[i] == s[i + 1]);
        assert(distinct_keys(t)) by {
            assert forall|i: int, j: int|
                0 <= i < t.len() && 0 <= j < t.len() && i != j implies (#[trigger] t[i]).0 != (
            #[trigger] t[j]).0 by {
                let si = if i < p {
                    i
                } else {
                    i + 1
                };
                let sj = if j < p {
                    j
                } else {
                    j + 1
                };
                assert(t[i] == s[si] && t[j] == s[sj]);
                assert(s[si].0 != s[sj].0);
            }
        }
        assert forall|q: Seq<char>| has_key(t, q) <==> (q != k && has_key(s, q)) by {
            if has_key(t, q) {
                let i = key_position(t, q);
                let si = if i < p {
                    i
                } else {
                    i + 1
                };
                assert(s[si].0 == q);
                assert(s[si].0 != s[p].0);
            }
            if q != k && has_key(s, q) {
                let si = key_position(s, q);
                let i = if si < p {
                    si
                } else {
                    si - 1
                };
                assert(t[i].0 == q);
            }
        }
        assert forall|q: Seq<char>| has_key(t, q) implies #[trigger] entries_map(t)[q]
            == entries_map(s)[q] by {
            let i = key_position(t, q);
            let si = if i < p {
                i
            } else {
                i + 1
            };
            lemma_entries_map_at(t, i);
            lemma_entries_map_at(s, si);
        }
        assert(entries_map(t) =~= entries_map(s).remove(k));
    } else {
        assert(entries_map(t) =~= entries_map(s).remove(k));
    }
}

/// The map of no entries is empty.
pub proof fn lemma_entries_map_empty<T>()
    ensures
        entries_map(Seq::<(Seq<char>, T)>::empty()) == Map::<Seq<char>, T>::empty(),
        distinct_keys(Seq::<(Seq<char>, T)>::empty()),
{
    assert(entries_map(Seq::<(Seq<char>, T)>::empty()) =~= Map::<Seq<char>, T>::empty());
}

/// The map of the first `i + 1` entries is the map of the first `i` with the
/// next entry put in.
pub proof fn lemma_entries_map_take_step<T>(s: Seq<(Seq<char>, T)>, i: int)
    requires
        distinct_keys(s),
        0 <= i < s.len(),
    ensures
        distinct_keys(s.take(i)),
        entries_map(s.take(i + 1)) == entries_map(s.take(i)).insert(s[i].0, s[i].1),
{
    let t = s.take(i);
    assert(distinct_keys(t)) by {
        assert forall|a: int, b: int| 0 <= a < t.len() && 0 <= b < t.len() && a != b implies (
        #[trigger] t[a]).0 != (#[trigger] t[b]).0 by {
            assert(s[a].0 != s[b].0);
        }
    }
    if has_key(t, s[i].0) {
        let j = key_position(t, s[i].0);
        assert(s[j].0 != s[i].0);
    }
    assert(entries_insert(t, s[i].0, s[i].1) =~= s.take(i + 1));
    lemma_entries_insert(t, s[i].0, s[i].1);
}

/// The entries `s` after the keys and values of `list` are put in, one after
/// the other.
pub open spec fn entries_extend<T>(s: Seq<(Seq<char>, T)>, list: Seq<(Seq<char>, T)>) -> Seq<
    (Seq<char>, T),
>
    decreases list.len(),
{
    if list.len() == 0 {
        s
    } else {
        entries_insert(entries_extend(s, list.drop_last()), list.last().0, list.last().1)
    }
}

/// The entries that a list of keys and values makes when they are put in one
/// after the other: each key once, at the place where it first stood, with the
/// value that came last.
pub open spec fn collected<T>(list: Seq<(Seq<char>, T)>) -> Seq<(Seq<char>, T)> {
    entries_extend(Seq::empty(), list)
}

/// Putting a list into entries with distinct keys keeps the keys distinct,
/// and gives the map in which the list's values stand over the earlier ones.
/// Where the list itself has distinct keys, that map is the union that
/// prefers the list's map.
pub proof fn lemma_entries_extend<T>(s: Seq<(Seq<char>, T)>, list: Seq<(Seq<char>, T)>)
    requires
        distinct_keys(s),
    ensures
        distinct_keys(entries_extend(s, list)),
        distinct_keys(list) ==> entries_map(entries_extend(s, list)) == entries_map(
            s,
        ).union_prefer_right(entries_map(list)),
    decreases list.len(),
{
    if list.len() == 0 {
        assert(entries_map(list) =~= Map::<Seq<char>, T>::empty());
        assert(entries_map(s).union_prefer_right(Map::<Seq<char>, T>::empty()) =~= entries_map(s));
    } else {
        let front = list.drop_last();
        lemma_entries_extend(s, front);
        lemma_entries_insert(entries_extend(s, front), list.last().0, list.last().1);
        if distinct_keys(list) {
            let i = list.len() - 1;
            assert(front =~= list.take(i));
            assert(list.take(i + 1) =~= list);
            lemma_entries_map_take_step(list, i);
            assert(entries_map(s).union_prefer_right(entries_map(front)).insert(
                list.last().0,
                list.last().1,
            ) =~= entries_map(s).union_prefer_right(
                entries_map(front).insert(list.last().0, list.last().1),
            ));
        }
    }
}

/// A list of keys and values, as contracts see it.
pub open spec fn pairs_view<V: View>(list: Seq<(String, V)>) -> Seq<(Seq<char>, V::V)> {
    Seq::new(list.len(), |i: int| (list[i].0@, list[i].1@))
}

/// Whether two texts are the same, character by character.
pub fn str_eq(a: &str, b: &str) -> (r: bool)
    ensures
        r == (a@ == b@),
{
    let x = a.as_bytes();
    let y = b.as_bytes();
    proof {
        vstd::utf8::encode_utf8_decode_utf8(a@);
        vstd::utf8::encode_utf8_decode_utf8(b@);
    }
    if x.len() != y.len() {
        return false;
    }
    let mut i: usize = 0;
    while i < x.len()
        invariant
            i <= x@.len(),
            x@.len() == y@.len(),
            x@ == a.spec_bytes(),
            y@ == b.spec_bytes(),
            forall|j: int| 0 <= j < i ==> x@[j] == y@[j],
        decreases x@.len() - i,
    {
        if x[i] != y[i] {
            return false;
        }
        i = i + 1;
    }
    assert(x@ =~= y@);
    true
}

/// A map from text keys to values. Its entries stay in the order in which
/// their keys first came in, so that walking it gives the same order each
/// time.
#[derive(Debug)]
pub struct TextMap<V: View> {
    entries: Vec<(String, V)>,
}

impl<V: View> View for TextMap<V> {
    type V = Map<Seq<char>, V::V>;

    open spec fn view(&self) -> Map<Seq<char>, V::V> {
        entries_map(self.entries())
    }
}

impl<V: View> TextMap<V> {
    /// The keys and values, each by its view, in order.
    pub closed spec fn entries(&self) -> Seq<(Seq<char>, V::V)> {
        Seq::new(self.entries@.len(), |i: int| (self.entries@[i].0@, self.entries@[i].1@))
    }

    /// No key occurs twice.
    #[verifier::type_invariant]
    pub open spec fn wf(&self) -> bool {
        distinct_keys(self.entries())
    }

    /// A map without entries.
    pub fn new() -> (m: Self)
        ensures
            m.entries() == Seq::<(Seq<char>, V::V)>::empty(),
            m@ == Map::<Seq<char>, V::V>::empty(),
    {
        let m = TextMap { entries: Vec::new() };
        proof {
            assert(m.entries() =~= Seq::<(Seq<char>, V::V)>::empty());
            lemma_entries_map_empty::<V::V>();
        }
        m
    }

    /// The map that a list of keys and values makes when they are put in one
    /// after the other.
    pub fn from_pairs(list: Vec<(String, V)>) -> (m: Self)
        ensures
            m.entries() == collected(pairs_view(list@)),
    {
        let mut m: TextMap<V> = TextMap::new();
        let ghost whole = pairs_view(list@);
        let ghost items = list@;
        proof {
            assert(whole.take(0) =~= Seq::<(Seq<char>, V::V)>::empty());
            assert(collected(whole.take(0)) =~= Seq::<(Seq<char>, V::V)>::empty());
        }
        for entry in it: list
            invariant
                it.seq() == items,
                whole == pairs_view(items),
                m.entries() == collected(whole.take(it.index() as int)),
        {
            proof {
                let i = it.index() as int;
                assert(whole.take(i + 1).drop_last() =~= whole.take(i));
                assert(whole.take(i + 1).last() == (entry.0@, entry.1@));
            }
            m.insert(entry.0, entry.1);
        }
        proof {
            assert(whole.take(whole.len() as int) =~= whole);
        }
        m
    }

    /// The number of entries.
    pub fn len(&self) -> (n: usize)
        ensures
            n == self.entries().len(),
    {
        self.entries.len()
    }

    /// Whether the map has no entry.
    pub fn is_empty(&self) -> (r: bool)
        ensures
            r == (self.entries().len() == 0),
            r == (self@ == Map::<Seq<char>, V::V>::empty()),
    {
        proof {
            if self.entries().len() == 0 {
                assert(self.entries() =~= Seq::<(Seq<char>, V::V)>::empty());
                lemma_entries_map_empty::<V::V>();
            } else {
                assert(has_key(self.entries(), self.entries()[0].0));
                assert(self@.contains_key(self.entries()[0].0));
            }
        }
        self.entries.len() == 0
    }

    /// The place of the entry with the given key.
    pub fn position(&self, key: &str) -> (r: Option<usize>)
        ensures
            match r {
                Some(i) => i < self.entries().len() && self.entries()[i as int].0 == key@
                    && has_key(self.entries(), key@) && key_position(self.entries(), key@) == i,
                None => !has_key(self.entries(), key@),
            },
    {
        proof {
            use_type_invariant(self);
        }
        let mut i: usize = 0;
        while i < self.entries.len()
            invariant
                i <= self.entries@.len(),
                self.wf(),
                forall|j: int| 0 <= j < i ==> (#[trigger] self.entries()[j]).0 != key@,
            decreases self.entries@.len() - i,
        {
            if str_eq(self.entries[i].0.as_str(), key) {
                proof {
                    lemma_entries_map_at(self.entries(), i as int);
                }
                return Some(i);
            }
            i = i + 1;
        }
        None
    }

    /// Whether the map has the key.
    pub fn contains_key(&self, key: &str) -> (r: bool)
        ensures
            r == self@.contains_key(key@),
    {
        self.position(key).is_some()
    }

    /// The value under the key.
    pub fn get(&self, key: &str) -> (r: Option<&V>)
        ensures
            match r {
                Some(v) => self@.contains_key(key@) && self@[key@] == v@,
                None => !self@.contains_key(key@),
            },
    {
        match self.position(key) {
            Some(i) => Some(&self.entries[i].1),
            None => None,
        }
    }

    /// The key and the value at a place in the order, where there is one.
    pub fn entry_at(&self, i: usize) -> (r: Option<(&String, &V)>)
        ensures
            match r {
                Some((k, v)) => i < self.entries().len() && self.entries()[i as int] == (k@, v@),
                None => i >= self.entries().len(),
            },
    {
        if i < self.entries.len() {
            Some((&self.entries[i].0, &self.entries[i].1))
        } else {
            None
        }
    }

    /// Gives the key the value. A key that the map has keeps its place, and
    /// its earlier value is returned; a new key goes to the end.
    pub fn insert(&mut self, key: String, value: V) -> (previous: Option<V>)
        ensures
            final(self).entries() == entries_insert(old(self).entries(), key@, value@),
            final(self)@ == old(self)@.insert(key@, value@),
            match previous {
                Some(v) => old(self)@.contains_key(key@) && old(self)@[key@] == v@,
                None => !old(self)@.contains_key(key@),
            },
    {
        proof {
            use_type_invariant(&*self);
            lemma_entries_insert(self.entries(), key@, value@);
        }
        let found = self.position(key.as_str());
        let ghost before = self.entries();
        let mut entries: Vec<(String, V)> = Vec::new();
        std::mem::swap(&mut entries, &mut self.entries);
        let previous = match found {
            Some(i) => {
                let mut entry = (key, value);
                let ghost goal = before.update(i as int, (entry.0@, entry.1@));
                entries.push(entry);
                let last = entries.swap_remove(i);
                assert(Seq::new(
                    entries@.len(),
                    |j: int| (entries@[j].0@, entries@[j].1@),
                ) =~= goal);
                Some(last.1)
            },
            None => {
                let ghost goal = before.push((key@, value@));
                entries.push((key, value));
                assert(Seq::new(
                    entries@.len(),
                    |j: int| (entries@[j].0@, entries@[j].1@),
                ) =~= goal);
                None
            },
        };
        self.entries = entries;
        previous
    }

    /// Takes the key out and returns its value, if the map has it. The other
    /// entries keep their order.
    pub fn remove(&mut self, key: &str) -> (previous: Option<V>)
        ensures
            final(self).entries() == entries_remove(old(self).entries(), key@),
            final(self)@ == old(self)@.remove(key@),
            match previous {
                Some(v) => old(self)@.contains_key(key@) && old(self)@[key@] == v@,
                None => !old(self)@.contains_key(key@),
            },
    {
        proof {
            use_type_invariant(&*self);
            lemma_entries_remove(self.entries(), key@);
        }
        let ghost before = self.entries();
        match self.position(key) {
            Some(i) => {
                let mut entries: Vec<(String, V)> = Vec::new();
                std::mem::swap(&mut entries, &mut self.entries);
                let entry = entries.remove(i);
                assert(Seq::new(
                    entries@.len(),
                    |j: int| (entries@[j].0@, entries@[j].1@),
                ) =~= before.remove(i as int));
                self.entries = entries;
                Some(entry.1)
            },
            None => None,
        }
    }
}

impl TextMap<String> {
    /// Puts every entry of `other` into this map, in the order of `other`.
    /// Where both have a key, the value of `other` stays.
    pub fn extend_from(&mut self, other: &TextMap<String>)
        ensures
            final(self).entries() == entries_extend(old(self).entries(), other.entries()),
            final(self)@ == old(self)@.union_prefer_right(other@),
    {
        proof {
            use_type_invariant(&*self);
            use_type_invariant(other);
            lemma_entries_extend(self.entries(), other.entries());
        }
        let ghost start = self.entries();
        let ghost theirs = other.entries();
        let mut i: usize = 0;
        proof {
            assert(theirs.take(0) =~= Seq::<(Seq<char>, Seq<char>)>::empty());
        }
        while i < other.entries.len()
            invariant
                i <= other.entries@.len(),
                theirs == other.entries(),
                self.entries() == entries_extend(start, theirs.take(i as int)),
            decreases other.entries@.len() - i,
        {
            let key = other.entries[i].0.clone();
            let value = other.entries[i].1.clone();
            proof {
                assert(theirs.take(i + 1).drop_last() =~= theirs.take(i as int));
                assert(theirs.take(i + 1).last() == (key@, value@));
            }
            self.insert(key, value);
            i = i + 1;
        }
        proof {
            assert(theirs.take(i as int) =~= theirs);
        }
    }
}

impl Clone for TextMap<String> {
    /// A map with the same keys and values in the same order.
    fn clone(&self) -> (m: Self)
        ensures
            m.entries() == self.entries(),
            m@ == self@,
    {
        proof {
            use_type_invariant(self);
        }
        let mut entries: Vec<(String, String)> = Vec::new();
        let mut i: usize = 0;
        while i < self.entries.len()
            invariant
                i <= self.entries@.len(),
                entries@.len() == i,
                forall|j: int|
                    0 <= j < i ==> (#[trigger] entries@[j]).0@ == self.entries@[j].0@
                        && entries@[j].1@ == self.entries@[j].1@,
            decreases self.entries@.len() - i,
        {
            entries.push((self.entries[i].0.clone(), self.entries[i].1.clone()));
            i = i + 1;
        }
        assert(Seq::new(entries@.len(), |j: int| (entries@[j].0@, entries@[j].1@))
            =~= self.entries());
        TextMap { entries }
    }
}

} // verus!
