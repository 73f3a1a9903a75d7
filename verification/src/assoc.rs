//! Association lists: finite maps with texts as keys, and sets of IDs, that keep
//! the order in which their keys were first inserted.
//!
//! Walking one is deterministic, which a replayed orchestration relies on.
use vstd::prelude::*;

verus! {

/// A value that can key an [`AssocMap`]: keys are told apart by their views.
pub trait Key: View + Sized {
    /// Whether both keys have the same view.
    fn same_key(&self, other: &Self) -> (r: bool)
        ensures
            r == (self@ == other@),
    ;
}

impl Key for String {
    fn same_key(&self, other: &Self) -> (r: bool) {
        *self == *other
    }
}

impl Key for (String, String) {
    fn same_key(&self, other: &Self) -> (r: bool) {
        self.0 == other.0 && self.1 == other.1
    }
}

/// No two entries have the same key.
pub open spec fn distinct_keys<K: View, V>(entries: Seq<(K, V)>) -> bool {
    forall|i: int, j: int|
        0 <= i < j < entries.len() ==> (#[trigger] entries[i]).0@ != (#[trigger] entries[j]).0@
}

/// Some entry has key `k`.
pub open spec fn has_key<K: View, V>(entries: Seq<(K, V)>, k: K::V) -> bool {
    exists|i: int| 0 <= i < entries.len() && (#[trigger] entries[i]).0@ == k
}

/// The position of the entry with key `k`, where there is one.
pub open spec fn position<K: View, V>(entries: Seq<(K, V)>, k: K::V) -> int {
    choose|i: int| 0 <= i < entries.len() && (#[trigger] entries[i]).0@ == k
}

/// The finite map that a list of entries stands for.
pub open spec fn to_map<K: View, V>(entries: Seq<(K, V)>) -> Map<K::V, V> {
    Map::new(|k: K::V| has_key(entries, k), |k: K::V| entries[position(entries, k)].1)
}

/// With distinct keys, the entry at `i` is what the map holds under its key.
pub proof fn lemma_entry<K: View, V>(entries: Seq<(K, V)>, i: int)
    requires
        distinct_keys(entries),
        0 <= i < entries.len(),
    ensures
        has_key(entries, entries[i].0@),
        position(entries, entries[i].0@) == i,
        to_map(entries)[entries[i].0@] == entries[i].1,
{
    let k = entries[i].0@;
    assert(entries[i].0@ == k);
    let p = position(entries, k);
    assert(entries[p].0@ == k);
}

/// A map kept as a list of entries in insertion order.
pub struct AssocMap<K: Key, V> {
    entries: Vec<(K, V)>,
}

impl<K: Key, V> View for AssocMap<K, V> {
    type V = Map<K::V, V>;

    closed spec fn view(&self) -> Map<K::V, V> {
        to_map(self.entries@)
    }
}

impl<K: Key, V> AssocMap<K, V> {
    /// The entries, oldest key first.
    pub closed spec fn entries(&self) -> Seq<(K, V)> {
        self.entries@
    }

    /// Keys are distinct.
    pub open spec fn wf(&self) -> bool {
        &&& distinct_keys(self.entries())
        &&& self@ == to_map(self.entries())
    }

    /// The empty map.
    pub fn new() -> (r: Self)
        ensures
            r.wf(),
            r@ == Map::<K::V, V>::empty(),
            r.entries() == Seq::<(K, V)>::empty(),
    {
        let r = AssocMap { entries: Vec::new() };
        assert(r@ =~= Map::<K::V, V>::empty());
        r
    }

    /// The entries, oldest key first.
    pub fn as_vec(&self) -> (r: &Vec<(K, V)>)
        ensures
            r@ == self.entries(),
    {
        &self.entries
    }

    /// The number of entries.
    pub fn len(&self) -> (r: usize)
        ensures
            r == self.entries().len(),
    {
        self.entries.len()
    }

    /// The position of the entry with key `k`.
    fn find(&self, k: &K) -> (r: Option<usize>)
        requires
            self.wf(),
        ensures
            match r {
                Some(i) => i < self.entries@.len() && self.entries@[i as int].0@ == k@
                    && self@.contains_key(k@) && self@[k@] == self.entries@[i as int].1
                    && position(self.entries@, k@) == i,
                None => !self@.contains_key(k@) && !has_key(self.entries@, k@),
            },
    {
        let mut i: usize = 0;
        while i < self.entries.len()
            invariant
                self.wf(),
                i <= self.entries@.len(),
                forall|j: int| 0 <= j < i ==> (#[trigger] self.entries@[j]).0@ != k@,
            decreases self.entries@.len() - i,
        {
            if self.entries[i].0.same_key(k) {
                proof {
                    lemma_entry(self.entries@, i as int);
                }
                return Some(i);
            }
            i += 1;
        }
        None
    }

    /// Whether key `k` has a value.
    pub fn contains_key(&self, k: &K) -> (r: bool)
        requires
            self.wf(),
        ensures
            r == self@.contains_key(k@),
    {
        self.find(k).is_some()
    }

    /// The value under key `k`.
    pub fn get(&self, k: &K) -> (r: Option<&V>)
        requires
            self.wf(),
        ensures
            match r {
                Some(v) => self@.contains_key(k@) && *v == self@[k@],
                None => !self@.contains_key(k@),
            },
    {
        match self.find(k) {
            Some(i) => Some(&self.entries[i].1),
            None => None,
        }
    }

    /// Puts `v` under key `k`. A key that is present keeps its place.
    pub fn insert(&mut self, k: K, v: V)
        requires
            old(self).wf(),
        ensures
            final(self).wf(),
            final(self)@ == old(self)@.insert(k@, v),
            final(self).entries() == upsert(old(self).entries(), k, v),
    {
        let ghost before = self.entries@;
        match self.find(&k) {
            Some(i) => {
                self.entries.set(i, (k, v));
                proof {
                    let after = self.entries@;
                    assert(after == before.update(i as int, (k, v)));
                    assert(distinct_keys(after)) by {
                        assert forall|a: int, b: int| 0 <= a < b < after.len() implies
                            (#[trigger] after[a]).0@ != (#[trigger] after[b]).0@ by {
                            assert(before[a].0@ != before[b].0@);
                        }
                    }
                    lemma_upsert_map(before, after, i as int, k, v);
                }
            },
            None => {
                self.entries.push((k, v));
                proof {
                    let after = self.entries@;
                    assert(after == before.push((k, v)));
                    assert(distinct_keys(after)) by {
                        assert forall|a: int, b: int| 0 <= a < b < after.len() implies
                            (#[trigger] after[a]).0@ != (#[trigger] after[b]).0@ by {
                            assert(before[a].0@ == after[a].0@);
                            if b < before.len() {
                                assert(before[a].0@ != before[b].0@);
                            }
                        }
                    }
                    lemma_upsert_map(before, after, before.len() as int, k, v);
                }
            },
        }
    }

    /// Takes key `k` out, if it is present. The order of the others stays.
    pub fn remove(&mut self, k: &K)
        requires
            old(self).wf(),
        ensures
            final(self).wf(),
            final(self)@ == old(self)@.remove(k@),
            final(self).entries() == without(old(self).entries(), k@),
    {
        let ghost before = self.entries@;
        match self.find(k) {
            Some(i) => {
                let _ = self.entries.remove(i);
                proof {
                    let after = self.entries@;
                    assert(after == before.remove(i as int));
                    assert(distinct_keys(after)) by {
                        assert forall|a: int, b: int| 0 <= a < b < after.len() implies
                            (#[trigger] after[a]).0@ != (#[trigger] after[b]).0@ by {
                            let a0 = if a < i { a } else { a + 1 };
                            let b0 = if b < i { b } else { b + 1 };
                            assert(before[a0].0@ != before[b0].0@);
                        }
                    }
                    lemma_remove_map(before, after, i as int);
                }
            },
            None => {
                assert(self@ =~= old(self)@.remove(k@));
            },
        }
    }

    /// Takes every entry out.
    pub fn clear(&mut self)
        ensures
            final(self).wf(),
            final(self)@ == Map::<K::V, V>::empty(),
            final(self).entries() == Seq::<(K, V)>::empty(),
    {
        self.entries.clear();
        assert(self@ =~= Map::<K::V, V>::empty());
    }
}

/// The entries with `v` put under `k`: in the place of the entry with that key,
/// or at the end where there is none.
pub open spec fn upsert<K: View, V>(entries: Seq<(K, V)>, k: K, v: V) -> Seq<(K, V)> {
    if has_key(entries, k@) {
        entries.update(position(entries, k@), (k, v))
    } else {
        entries.push((k, v))
    }
}

/// The entries without the one that has key `k`.
pub open spec fn without<K: View, V>(entries: Seq<(K, V)>, k: K::V) -> Seq<(K, V)> {
    if has_key(entries, k) {
        entries.remove(position(entries, k))
    } else {
        entries
    }
}

proof fn lemma_upsert_map<K: View, V>(
    before: Seq<(K, V)>,
    after: Seq<(K, V)>,
    i: int,
    k: K,
    v: V,
)
    requires
        distinct_keys(before),
        distinct_keys(after),
        0 <= i <= before.len(),
        i < before.len() ==> before[i].0@ == k@ && after == before.update(i, (k, v)),
        i == before.len() ==> !has_key(before, k@) && after == before.push((k, v)),
    ensures
        to_map(after) == to_map(before).insert(k@, v),
{
    let m = to_map(after);
    let n = to_map(before).insert(k@, v);
    lemma_entry(after, i);
    assert forall|q: K::V| m.contains_key(q) == n.contains_key(q) by {
        if has_key(before, q) {
            let p = position(before, q);
            assert(before[p].0@ == q);
            assert(after[p].0@ == q);
        }
        if has_key(after, q) {
            let p = position(after, q);
            assert(after[p].0@ == q);
            if p < before.len() {
                assert(before[p].0@ == q);
            }
        }
    }
    assert forall|q: K::V| m.contains_key(q) implies m[q] == n[q] by {
        let p = position(after, q);
        assert(after[p].0@ == q);
        if q != k@ {
            assert(p < before.len());
            assert(before[p].0@ == q);
            lemma_entry(before, p);
        }
    }
    assert(m =~= n);
}

proof fn lemma_remove_map<K: View, V>(before: Seq<(K, V)>, after: Seq<(K, V)>, i: int)
    requires
        distinct_keys(before),
        distinct_keys(after),
        0 <= i < before.len(),
        after == before.remove(i),
    ensures
        to_map(after) == to_map(before).remove(before[i].0@),
{
    let k = before[i].0@;
    let m = to_map(after);
    let n = to_map(before).remove(k);
    assert forall|q: K::V| m.contains_key(q) == n.contains_key(q) by {
        if has_key(before, q) && q != k {
            let p = position(before, q);
            assert(before[p].0@ == q);
            let p1 = if p < i { p } else { p - 1 };
            assert(after[p1].0@ == q);
        }
        if has_key(after, q) {
            let p = position(after, q);
            assert(after[p].0@ == q);
            let p0 = if p < i { p } else { p + 1 };
            assert(before[p0].0@ == q);
            assert(before[p0].0@ != before[i].0@);
        }
    }
    assert forall|q: K::V| m.contains_key(q) implies m[q] == n[q] by {
        let p = position(after, q);
        assert(after[p].0@ == q);
        let p0 = if p < i { p } else { p + 1 };
        assert(before[p0].0@ == q);
        lemma_entry(before, p0);
    }
    assert(m =~= n);
}

/// A set of identifiers kept in insertion order.
pub struct IdSet {
    ids: Vec<u64>,
}

impl View for IdSet {
    type V = Seq<u64>;

    closed spec fn view(&self) -> Seq<u64> {
        self.ids@
    }
}

impl IdSet {
    /// No identifier stands twice.
    pub open spec fn wf(&self) -> bool {
        self@.no_duplicates()
    }

    /// The empty set.
    pub fn new() -> (r: Self)
        ensures
            r.wf(),
            r@ == Seq::<u64>::empty(),
    {
        IdSet { ids: Vec::new() }
    }

    /// The identifiers, oldest first.
    pub fn as_vec(&self) -> (r: &Vec<u64>)
        ensures
            r@ == self@,
    {
        &self.ids
    }

    /// Whether `id` is in the set.
    pub fn contains(&self, id: u64) -> (r: bool)
        ensures
            r == self@.contains(id),
    {
        let mut i: usize = 0;
        while i < self.ids.len()
            invariant
                i <= self.ids@.len(),
                forall|j: int| 0 <= j < i ==> self.ids@[j] != id,
            decreases self.ids@.len() - i,
        {
            if self.ids[i] == id {
                assert(self.ids@[i as int] == id);
                return true;
            }
            i += 1;
        }
        false
    }

    /// Puts `id` in the set, at the end if it is new.
    pub fn insert(&mut self, id: u64)
        requires
            old(self).wf(),
        ensures
            final(self).wf(),
            final(self)@ == with_id(old(self)@, id),
    {
        if !self.contains(id) {
            self.ids.push(id);
        }
    }

    /// Takes every identifier out.
    pub fn clear(&mut self)
        ensures
            final(self).wf(),
            final(self)@ == Seq::<u64>::empty(),
    {
        self.ids.clear();
    }
}

/// The identifiers `ids` with `id` among them.
pub open spec fn with_id(ids: Seq<u64>, id: u64) -> Seq<u64> {
    if ids.contains(id) {
        ids
    } else {
        ids.push(id)
    }
}

/// A value that was put under a key is read back, what was there before is gone,
/// and the values under other keys stay.
pub proof fn law_an_inserted_value_is_read_back<K: Key, V>(
    map: &mut AssocMap<K, V>,
    k: K,
    v: V,
    read: Option<&V>,
    held: bool,
    other: &K,
    had: Option<&V>,
    got: Option<&V>,
)
    requires
        call_ensures(AssocMap::<K, V>::insert, (map, k, v), ()),
        call_ensures(AssocMap::<K, V>::get, (&*final(map), &k), read),
        call_ensures(AssocMap::<K, V>::contains_key, (&*final(map), &k), held),
        call_ensures(AssocMap::<K, V>::get, (&*old(map), other), had),
        call_ensures(AssocMap::<K, V>::get, (&*final(map), other), got),
    ensures
        read == Some(&v),
        held,
        other@ != k@ ==> got == had,
{
}

/// A key that was taken out held no value, and the values under other keys stay;
/// a cleared map held no value under any key.
pub proof fn law_a_removed_key_has_no_value<K: Key, V>(
    map: &mut AssocMap<K, V>,
    k: &K,
    read: Option<&V>,
    held: bool,
    other: &K,
    had: Option<&V>,
    got: Option<&V>,
    cleared: &mut AssocMap<K, V>,
    none: Option<&V>,
    len: usize,
)
    requires
        call_ensures(AssocMap::<K, V>::remove, (map, k), ()),
        call_ensures(AssocMap::<K, V>::get, (&*final(map), k), read),
        call_ensures(AssocMap::<K, V>::contains_key, (&*final(map), k), held),
        call_ensures(AssocMap::<K, V>::get, (&*old(map), other), had),
        call_ensures(AssocMap::<K, V>::get, (&*final(map), other), got),
        call_ensures(AssocMap::<K, V>::clear, (cleared,), ()),
        call_ensures(AssocMap::<K, V>::get, (&*final(cleared), k), none),
        call_ensures(AssocMap::<K, V>::len, (&*final(cleared),), len),
    ensures
        read is None,
        !held,
        other@ != k@ ==> got == had,
        none is None,
        len == 0,
{
}

/// The entries keep the order in which their keys first came: a new key comes
/// last, and a key that is there keeps its place.
pub proof fn law_keys_keep_their_order<K: Key, V>(
    map: &mut AssocMap<K, V>,
    k: K,
    v: V,
    held: bool,
    before: &Vec<(K, V)>,
    after: &Vec<(K, V)>,
    i: int,
)
    requires
        old(map).wf(),
        call_ensures(AssocMap::<K, V>::contains_key, (&*old(map), &k), held),
        call_ensures(AssocMap::<K, V>::as_vec, (&*old(map),), before),
        call_ensures(AssocMap::<K, V>::insert, (map, k, v), ()),
        call_ensures(AssocMap::<K, V>::as_vec, (&*final(map),), after),
        0 <= i < before@.len(),
    ensures
        held ==> after@.len() == before@.len(),
        !held ==> after@.len() == before@.len() + 1 && after@.last() == (k, v),
        after@[i].0@ == before@[i].0@,
        before@[i].0@ != k@ ==> after@[i] == before@[i],
        before@[i].0@ == k@ ==> after@[i] == (k, v),
{
    let entries = old(map).entries();
    if has_key(entries, k@) {
        let p = position(entries, k@);
        assert(entries[p].0@ == k@);
        if entries[i].0@ == k@ {
            lemma_entry(entries, i);
        }
    } else {
        assert(entries[i].0@ != k@);
    }
}

/// A set holds what was put in and what it held before, each once and in the order
/// in which it came; a cleared set holds nothing.
pub proof fn law_identifiers_are_held_once(
    ids: &mut IdSet,
    id: u64,
    other: u64,
    had: bool,
    held: bool,
    new: bool,
    before: &Vec<u64>,
    after: &Vec<u64>,
    cleared: &mut IdSet,
    none: bool,
)
    requires
        old(ids).wf(),
        call_ensures(IdSet::contains, (&*old(ids), other), had),
        call_ensures(IdSet::as_vec, (&*old(ids),), before),
        call_ensures(IdSet::insert, (ids, id), ()),
        call_ensures(IdSet::contains, (&*final(ids), id), new),
        call_ensures(IdSet::contains, (&*final(ids), other), held),
        call_ensures(IdSet::as_vec, (&*final(ids),), after),
        call_ensures(IdSet::clear, (cleared,), ()),
        call_ensures(IdSet::contains, (&*final(cleared), id), none),
    ensures
        new,
        other != id ==> held == had,
        after@.no_duplicates(),
        after@.take(before@.len() as int) == before@,
        after@.len() <= before@.len() + 1,
        !none,
{
    let a = old(ids)@;
    if !a.contains(id) {
        let b = a.push(id);
        assert(b[a.len() as int] == id);
        if a.contains(other) {
            let i = choose|i: int| 0 <= i < a.len() && a[i] == other;
            assert(b[i] == other);
        }
    }
    assert(after@.take(before@.len() as int) =~= before@);
}

} // verus!
