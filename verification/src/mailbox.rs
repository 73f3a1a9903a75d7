//! How subscriptions are matched with arrivals.
//!
//! Arrivals are kept in one log, in the order in which they came. A positional
//! subscription takes the arrival at its own index among the subscriptions of
//! its key, with cancelled ones left out. The queue subscriptions that still
//! wait take, in their order, the messages that nobody has taken yet.
use crate::assoc::Key;
use std::collections::{HashMap, HashSet};
use vstd::prelude::*;

verus! {

broadcast use vstd::std_specs::hash::group_hash_axioms;

/// The payloads that arrived under `key`, oldest first.
pub open spec fn arrivals_of<K: View>(log: Seq<(K, String)>, key: K::V) -> Seq<String>
    decreases log.len(),
{
    if log.len() == 0 {
        Seq::empty()
    } else {
        let rest = arrivals_of(log.drop_last(), key);
        if log.last().0@ == key {
            rest.push(log.last().1)
        } else {
            rest
        }
    }
}

/// What arrived first keeps its place when more arrives.
pub proof fn lemma_arrivals_prefix<K: View>(log: Seq<(K, String)>, n: int, key: K::V)
    requires
        0 <= n <= log.len(),
    ensures
        arrivals_of(log.take(n), key).len() <= arrivals_of(log, key).len(),
        forall|k: int|
            0 <= k < arrivals_of(log.take(n), key).len() ==> arrivals_of(log, key)[k]
                == arrivals_of(log.take(n), key)[k],
    decreases log.len(),
{
    if n == log.len() {
        assert(log.take(n) =~= log);
    } else {
        lemma_arrivals_prefix(log.drop_last(), n, key);
        assert(log.drop_last().take(n) =~= log.take(n));
    }
}

proof fn lemma_arrivals_step<K: View>(log: Seq<(K, String)>, i: int, key: K::V)
    requires
        0 <= i < log.len(),
    ensures
        arrivals_of(log.take(i + 1), key) == (if log[i].0@ == key {
            arrivals_of(log.take(i), key).push(log[i].1)
        } else {
            arrivals_of(log.take(i), key)
        }),
{
    assert(log.take(i + 1).drop_last() =~= log.take(i));
    assert(log.take(i + 1).last() == log[i]);
}

/// The `k`-th payload that arrived under `key`, counted from 0.
pub fn nth_arrival<K: Key>(log: &Vec<(K, String)>, key: &K, k: usize) -> (r: Option<String>)
    ensures
        r == (if k < arrivals_of(log@, key@).len() {
            Some(arrivals_of(log@, key@)[k as int])
        } else {
            None::<String>
        }),
{
    let mut i: usize = 0;
    let mut seen: usize = 0;
    assert(log@.take(0) =~= Seq::empty());
    while i < log.len()
        invariant
            i <= log@.len(),
            seen <= i,
            seen <= k,
            seen == arrivals_of(log@.take(i as int), key@).len(),
        decreases log@.len() - i,
    {
        proof {
            lemma_arrivals_step(log@, i as int, key@);
            lemma_arrivals_prefix(log@, i + 1, key@);
        }
        if log[i].0.same_key(key) {
            if seen == k {
                assert(arrivals_of(log@.take(i + 1), key@)[k as int] == log@[i as int].1);
                return Some(log[i].1.clone());
            }
            seen += 1;
        }
        i += 1;
    }
    assert(log@.take(i as int) =~= log@);
    None
}

/// How many payloads arrived under `key`.
pub fn count_arrivals<K: Key>(log: &Vec<(K, String)>, key: &K) -> (r: usize)
    ensures
        r == arrivals_of(log@, key@).len(),
{
    let mut i: usize = 0;
    let mut seen: usize = 0;
    assert(log@.take(0) =~= Seq::empty());
    while i < log.len()
        invariant
            i <= log@.len(),
            seen <= i,
            seen == arrivals_of(log@.take(i as int), key@).len(),
        decreases log@.len() - i,
    {
        proof {
            lemma_arrivals_step(log@, i as int, key@);
        }
        if log[i].0.same_key(key) {
            seen += 1;
        }
        i += 1;
    }
    assert(log@.take(i as int) =~= log@);
    seen
}

/// A positional subscription: its key, which is a name or a name with a topic,
/// and its index among the subscriptions of that key.
pub type Subscription<K> = (K, usize);

/// Subscriptions of one key have different indices.
pub open spec fn distinct_indices<K: View>(subs: Map<u64, Subscription<K>>) -> bool {
    forall|a: u64, b: u64|
        #![trigger subs[a], subs[b]]
        subs.contains_key(a) && subs.contains_key(b) && a != b && subs[a].0@ == subs[b].0@
            ==> subs[a].1 != subs[b].1
}

/// Subscription `id` is a cancelled one of `key` with an index in `lo..hi`.
pub open spec fn is_cancelled_in<K: View>(
    subs: Map<u64, Subscription<K>>,
    cancelled: Set<u64>,
    key: K::V,
    lo: int,
    hi: int,
    id: u64,
) -> bool {
    subs[id].0@ == key && lo <= subs[id].1 < hi && cancelled.contains(id)
}

/// The cancelled subscriptions of `key` with an index in `lo..hi`.
pub open spec fn cancelled_in<K: View>(
    subs: Map<u64, Subscription<K>>,
    cancelled: Set<u64>,
    key: K::V,
    lo: int,
    hi: int,
) -> Set<u64> {
    subs.dom().filter(|id: u64| is_cancelled_in(subs, cancelled, key, lo, hi, id))
}

/// The number of cancelled subscriptions of `key` with an index in `lo..hi`.
pub open spec fn count_cancelled<K: View>(
    subs: Map<u64, Subscription<K>>,
    cancelled: Set<u64>,
    key: K::V,
    lo: int,
    hi: int,
) -> nat {
    cancelled_in(subs, cancelled, key, lo, hi).len()
}

/// Indices in a range are no more than the range is long.
pub proof fn lemma_count_cancelled_bound<K: View>(
    subs: Map<u64, Subscription<K>>,
    cancelled: Set<u64>,
    key: K::V,
    lo: int,
    hi: int,
)
    requires
        subs.dom().finite(),
        distinct_indices(subs),
        lo <= hi,
    ensures
        count_cancelled(subs, cancelled, key, lo, hi) <= hi - lo,
{
    let ids = cancelled_in(subs, cancelled, key, lo, hi);
    let index = |id: u64| subs[id].1 as int;
    let all = vstd::set_lib::set_int_range(lo, hi);
    vstd::set_lib::lemma_int_range(lo, hi);
    vstd::set_lib::lemma_map_size(ids, ids.map(index), index);
    assert(ids.map(index).subset_of(all));
    vstd::set_lib::lemma_len_subset(ids.map(index), all);
}

/// Counting over two adjoining ranges is counting over their union.
pub proof fn lemma_count_cancelled_split<K: View>(
    subs: Map<u64, Subscription<K>>,
    cancelled: Set<u64>,
    key: K::V,
    lo: int,
    mid: int,
    hi: int,
)
    requires
        subs.dom().finite(),
        lo <= mid <= hi,
    ensures
        count_cancelled(subs, cancelled, key, lo, hi) == count_cancelled(
            subs,
            cancelled,
            key,
            lo,
            mid,
        ) + count_cancelled(subs, cancelled, key, mid, hi),
{
    let a = cancelled_in(subs, cancelled, key, lo, mid);
    let b = cancelled_in(subs, cancelled, key, mid, hi);
    assert(a + b =~= cancelled_in(subs, cancelled, key, lo, hi));
    vstd::set_lib::lemma_set_disjoint_lens(a, b);
}

/// The number of cancelled subscriptions of `key` with an index below `hi`.
pub fn count_cancelled_below<K: Key>(
    subs: &HashMap<u64, Subscription<K>>,
    cancelled: &HashSet<u64>,
    key: &K,
    hi: usize,
) -> (r: usize)
    ensures
        r == count_cancelled(subs@, cancelled@, key@, 0, hi as int),
{
    let ghost pairs = vstd::std_specs::iter::IteratorSpec::remaining(&subs.iter());
    let ghost wanted = |id: u64| is_cancelled_in(subs@, cancelled@, key@, 0, hi as int, id);
    let mut n: usize = 0;
    let size: usize = subs.len();
    for (id, s) in it: subs.iter()
        invariant
            it.seq() == pairs,
            pairs_of(pairs, subs@),
            size == pairs.len(),
            wanted == |id: u64| is_cancelled_in(subs@, cancelled@, key@, 0, hi as int, id),
            n <= it.index(),
            n == among(pairs.take(it.index() as int), wanted).len(),
    {
        proof {
            lemma_among_step(pairs, subs@, wanted, it.index() as int);
        }
        if s.0.same_key(key) && s.1 < hi && cancelled.contains(id) {
            n += 1;
        }
    }
    proof {
        lemma_among_all(pairs, subs@, wanted);
        assert(pairs.take(pairs.len() as int) =~= pairs);
        assert(cancelled_in(subs@, cancelled@, key@, 0, hi as int) =~= subs@.dom().filter(wanted));
    }
    n
}

/// The pairs are those of the map, each once.
pub open spec fn pairs_of<K: View>(
    pairs: Seq<(&u64, &Subscription<K>)>,
    subs: Map<u64, Subscription<K>>,
) -> bool {
    &&& pairs.no_duplicates()
    &&& forall|i: int|
        0 <= i < pairs.len() ==> subs.contains_key(*(#[trigger] pairs[i]).0)
            && subs[*pairs[i].0] == *pairs[i].1
    &&& forall|id: u64| #[trigger]
        subs.contains_key(id) ==> pairs.contains((&id, &subs[id]))
}

/// The wanted IDs among pairs.
spec fn among<K: View>(
    pairs: Seq<(&u64, &Subscription<K>)>,
    wanted: spec_fn(u64) -> bool,
) -> Set<u64>
    decreases pairs.len(),
{
    if pairs.len() == 0 {
        Set::empty()
    } else {
        let rest = among(pairs.drop_last(), wanted);
        if wanted(*pairs.last().0) {
            rest.insert(*pairs.last().0)
        } else {
            rest
        }
    }
}

proof fn lemma_among<K: View>(pairs: Seq<(&u64, &Subscription<K>)>, wanted: spec_fn(u64) -> bool)
    ensures
        among(pairs, wanted).finite(),
        forall|id: u64| #[trigger]
            among(pairs, wanted).contains(id) <==> wanted(id) && exists|i: int|
                0 <= i < pairs.len() && *(#[trigger] pairs[i]).0 == id,
    decreases pairs.len(),
{
    if pairs.len() > 0 {
        let init = pairs.drop_last();
        lemma_among(init, wanted);
        assert forall|id: u64| #[trigger] among(pairs, wanted).contains(id) <==> wanted(id)
            && exists|i: int| 0 <= i < pairs.len() && *(#[trigger] pairs[i]).0 == id by {
            if among(init, wanted).contains(id) {
                let i = choose|i: int| 0 <= i < init.len() && *(#[trigger] init[i]).0 == id;
                assert(*pairs[i].0 == id);
            }
            if exists|i: int| 0 <= i < pairs.len() && *(#[trigger] pairs[i]).0 == id {
                let i = choose|i: int| 0 <= i < pairs.len() && *(#[trigger] pairs[i]).0 == id;
                if i < init.len() {
                    assert(*init[i].0 == id);
                }
            }
            assert(*pairs[pairs.len() - 1].0 == *pairs.last().0);
        }
    }
}

proof fn lemma_among_step<K: View>(
    pairs: Seq<(&u64, &Subscription<K>)>,
    subs: Map<u64, Subscription<K>>,
    wanted: spec_fn(u64) -> bool,
    i: int,
)
    requires
        pairs_of(pairs, subs),
        0 <= i < pairs.len(),
    ensures
        among(pairs.take(i + 1), wanted).len() == among(pairs.take(i), wanted).len() + (if wanted(
            *pairs[i].0,
        ) {
            1nat
        } else {
            0nat
        }),
{
    let before = pairs.take(i);
    assert(pairs.take(i + 1).drop_last() =~= before);
    assert(pairs.take(i + 1).last() == pairs[i]);
    lemma_among(before, wanted);
    if among(before, wanted).contains(*pairs[i].0) {
        let k = choose|k: int| 0 <= k < before.len() && *(#[trigger] before[k]).0 == *pairs[i].0;
        assert(pairs[k] == before[k]);
        assert(subs[*pairs[k].0] == *pairs[k].1);
        assert(subs[*pairs[i].0] == *pairs[i].1);
        assert(pairs[k] == pairs[i]);
        assert(false);
    }
}

proof fn lemma_among_all<K: View>(
    pairs: Seq<(&u64, &Subscription<K>)>,
    subs: Map<u64, Subscription<K>>,
    wanted: spec_fn(u64) -> bool,
)
    requires
        pairs_of(pairs, subs),
    ensures
        among(pairs, wanted) == subs.dom().filter(wanted),
{
    lemma_among(pairs, wanted);
    assert forall|id: u64| among(pairs, wanted).contains(id) <==> subs.dom().filter(
        wanted,
    ).contains(id) by {
        if subs.contains_key(id) {
            let i = choose|i: int| 0 <= i < pairs.len() && pairs[i] == (&id, &subs[id]);
            assert(pairs.contains((&id, &subs[id])));
            assert(*pairs[i].0 == id);
        }
    }
    assert(among(pairs, wanted) =~= subs.dom().filter(wanted));
}

/// Subscription `id` is an active one of `key`.
pub open spec fn is_active<K: View>(
    subs: Map<u64, Subscription<K>>,
    cancelled: Set<u64>,
    key: K::V,
    id: u64,
) -> bool {
    subs[id].0@ == key && !cancelled.contains(id)
}

/// The number of active subscriptions of `key`.
pub open spec fn count_active<K: View>(
    subs: Map<u64, Subscription<K>>,
    cancelled: Set<u64>,
    key: K::V,
) -> nat {
    subs.dom().filter(|id: u64| is_active(subs, cancelled, key, id)).len()
}

/// The number of active subscriptions of `key`.
pub fn count_active_subs<K: Key>(
    subs: &HashMap<u64, Subscription<K>>,
    cancelled: &HashSet<u64>,
    key: &K,
) -> (r: usize)
    ensures
        r == count_active(subs@, cancelled@, key@),
{
    let ghost pairs = vstd::std_specs::iter::IteratorSpec::remaining(&subs.iter());
    let ghost wanted = |id: u64| is_active(subs@, cancelled@, key@, id);
    let mut n: usize = 0;
    let size: usize = subs.len();
    for (id, s) in it: subs.iter()
        invariant
            it.seq() == pairs,
            pairs_of(pairs, subs@),
            size == pairs.len(),
            wanted == |id: u64| is_active(subs@, cancelled@, key@, id),
            n <= it.index(),
            n == among(pairs.take(it.index() as int), wanted).len(),
    {
        proof {
            lemma_among_step(pairs, subs@, wanted, it.index() as int);
        }
        if s.0.same_key(key) && !cancelled.contains(id) {
            n += 1;
        }
    }
    proof {
        lemma_among_all(pairs, subs@, wanted);
        assert(pairs.take(pairs.len() as int) =~= pairs);
    }
    n
}

/// The arrival that subscription `id` takes: its index, less the number of
/// cancelled subscriptions of its key with a lower one.
pub open spec fn effective_index<K: View>(
    subs: Map<u64, Subscription<K>>,
    cancelled: Set<u64>,
    id: u64,
) -> int {
    subs[id].1 - count_cancelled(subs, cancelled, subs[id].0@, 0, subs[id].1 as int)
}

/// The data for a positional subscription, once it has arrived. A cancelled
/// subscription never gets any.
pub open spec fn positional_data<K: View>(
    subs: Map<u64, Subscription<K>>,
    cancelled: Set<u64>,
    log: Seq<(K, String)>,
    id: u64,
) -> Option<String> {
    if !subs.contains_key(id) || cancelled.contains(id) {
        None
    } else {
        let k = effective_index(subs, cancelled, id);
        let arrived = arrivals_of(log, subs[id].0@);
        if 0 <= k < arrived.len() {
            Some(arrived[k])
        } else {
            None
        }
    }
}

/// The data for a positional subscription.
pub fn positional_arrival<K: Key>(
    subs: &HashMap<u64, Subscription<K>>,
    cancelled: &HashSet<u64>,
    log: &Vec<(K, String)>,
    id: u64,
) -> (r: Option<String>)
    requires
        distinct_indices(subs@),
    ensures
        r == positional_data(subs@, cancelled@, log@, id),
{
    match subs.get(&id) {
        None => None,
        Some(s) => {
            if cancelled.contains(&id) {
                return None;
            }
            let below: usize = count_cancelled_below(subs, cancelled, &s.0, s.1);
            proof {
                lemma_count_cancelled_bound(subs@, cancelled@, s.0@, 0, s.1 as int);
            }
            nth_arrival(log, &s.0, s.1 - below)
        },
    }
}

/// Active subscriptions of one key take arrivals in the order of their
/// indices, and no arrival goes to two of them.
pub proof fn law_positional_matching_keeps_order<K: View>(
    subs: Map<u64, Subscription<K>>,
    cancelled: Set<u64>,
    a: u64,
    b: u64,
)
    requires
        subs.dom().finite(),
        distinct_indices(subs),
        subs.contains_key(a),
        subs.contains_key(b),
        subs[a].0@ == subs[b].0@,
        subs[a].1 < subs[b].1,
        !cancelled.contains(a),
    ensures
        0 <= effective_index(subs, cancelled, a) < effective_index(subs, cancelled, b),
{
    let key = subs[a].0@;
    let i = subs[a].1 as int;
    let j = subs[b].1 as int;
    lemma_count_cancelled_bound(subs, cancelled, key, 0, i);
    lemma_count_cancelled_bound(subs, cancelled, key, i + 1, j);
    lemma_count_cancelled_split(subs, cancelled, key, 0, i, j);
    lemma_count_cancelled_split(subs, cancelled, key, i, i + 1, j);
    let between = cancelled_in(subs, cancelled, key, i, i + 1);
    assert forall|id: u64| !#[trigger] between.contains(id) by {
        if between.contains(id) {
            assert(subs[id].1 == subs[a].1);
        }
    }
    assert(between =~= Set::empty());
}

/// The number of subscriptions to queue `name` that still wait: those that are
/// not `done`, neither cancelled nor served.
pub open spec fn waiting_in_queue(
    subs: Seq<(u64, String)>,
    done: Set<u64>,
    name: Seq<char>,
) -> nat
    decreases subs.len(),
{
    if subs.len() == 0 {
        0
    } else {
        waiting_in_queue(subs.drop_last(), done, name) + if subs.last().1@ == name
            && !done.contains(subs.last().0) {
            1nat
        } else {
            0nat
        }
    }
}

/// `p` is the position of the first queue subscription with ID `sid`.
pub open spec fn first_at(subs: Seq<(u64, String)>, sid: u64, p: int) -> bool {
    &&& 0 <= p < subs.len()
    &&& subs[p].0 == sid
    &&& forall|q: int| 0 <= q < p ==> (#[trigger] subs[q]).0 != sid
}

/// How many subscriptions to its queue wait before the one at `p`.
pub open spec fn queue_rank(subs: Seq<(u64, String)>, done: Set<u64>, p: int) -> nat {
    waiting_in_queue(subs.take(p), done, subs[p].1@)
}

/// The message at `at` in the log was taken.
pub open spec fn is_taken(taken: Set<usize>, at: int) -> bool {
    exists|t: usize| #[trigger] taken.contains(t) && t == at
}

/// Where in the log the messages of queue `name` are that nobody has taken,
/// oldest first.
pub open spec fn untaken(
    log: Seq<(String, String)>,
    taken: Set<usize>,
    name: Seq<char>,
) -> Seq<int>
    decreases log.len(),
{
    if log.len() == 0 {
        Seq::empty()
    } else {
        let rest = untaken(log.drop_last(), taken, name);
        if log.last().0@ == name && !is_taken(taken, log.len() - 1) {
            rest.push(log.len() - 1)
        } else {
            rest
        }
    }
}

/// Where in the log the message is that the waiting subscription at `p` takes:
/// the first that wait take the first that are not taken, in their order.
pub open spec fn queue_place(
    subs: Seq<(u64, String)>,
    done: Set<u64>,
    log: Seq<(String, String)>,
    taken: Set<usize>,
    p: int,
) -> Option<int> {
    let rank = queue_rank(subs, done, p) as int;
    let left = untaken(log, taken, subs[p].1@);
    if rank < left.len() {
        Some(left[rank])
    } else {
        None
    }
}

/// The position of the first queue subscription with ID `sid`.
pub fn find_queue_sub(subs: &Vec<(u64, String)>, sid: u64) -> (r: Option<usize>)
    ensures
        match r {
            Some(p) => first_at(subs@, sid, p as int),
            None => forall|q: int| 0 <= q < subs@.len() ==> (#[trigger] subs@[q]).0 != sid,
        },
{
    let mut i: usize = 0;
    while i < subs.len()
        invariant
            i <= subs@.len(),
            forall|q: int| 0 <= q < i ==> (#[trigger] subs@[q]).0 != sid,
        decreases subs@.len() - i,
    {
        if subs[i].0 == sid {
            return Some(i);
        }
        i += 1;
    }
    None
}

/// How many subscriptions to its queue wait before the one at `p`.
pub fn queue_rank_of(
    subs: &Vec<(u64, String)>,
    cancelled: &HashSet<u64>,
    resolved: &HashSet<u64>,
    p: usize,
) -> (r: usize)
    requires
        p < subs@.len(),
    ensures
        r == queue_rank(subs@, cancelled@.union(resolved@), p as int),
{
    let ghost done = cancelled@.union(resolved@);
    let mut i: usize = 0;
    let mut n: usize = 0;
    assert(subs@.take(0) =~= Seq::empty());
    while i < p
        invariant
            i <= p < subs@.len(),
            n <= i,
            done == cancelled@.union(resolved@),
            n == waiting_in_queue(subs@.take(i as int), done, subs@[p as int].1@),
        decreases p - i,
    {
        assert(subs@.take(i + 1).drop_last() =~= subs@.take(i as int));
        assert(subs@.take(i + 1).last() == subs@[i as int]);
        if subs[i].1 == subs[p].1 && !cancelled.contains(&subs[i].0) && !resolved.contains(
            &subs[i].0,
        ) {
            n += 1;
        }
        i += 1;
    }
    n
}

/// What holds of the untaken messages: they are in the log under the name, in
/// order, and none is taken.
pub proof fn lemma_untaken(log: Seq<(String, String)>, taken: Set<usize>, name: Seq<char>)
    ensures
        untaken(log, taken, name).len() <= log.len(),
        forall|k: int|
            0 <= k < untaken(log, taken, name).len() ==> 0 <= (#[trigger] untaken(
                log,
                taken,
                name,
            )[k]) < log.len() && log[untaken(log, taken, name)[k]].0@ == name && !is_taken(
                taken,
                untaken(log, taken, name)[k],
            ),
        forall|i: int, j: int|
            0 <= i < j < untaken(log, taken, name).len() ==> (#[trigger] untaken(
                log,
                taken,
                name,
            )[i]) < (#[trigger] untaken(log, taken, name)[j]),
    decreases log.len(),
{
    if log.len() > 0 {
        lemma_untaken(log.drop_last(), taken, name);
    }
}

proof fn lemma_untaken_prefix(
    log: Seq<(String, String)>,
    n: int,
    taken: Set<usize>,
    name: Seq<char>,
)
    requires
        0 <= n <= log.len(),
    ensures
        untaken(log.take(n), taken, name).is_prefix_of(untaken(log, taken, name)),
    decreases log.len(),
{
    if n == log.len() {
        assert(log.take(n) =~= log);
    } else {
        lemma_untaken_prefix(log.drop_last(), n, taken, name);
        assert(log.drop_last().take(n) =~= log.take(n));
    }
}

/// Where in the log the `k`-th message of queue `name` is that nobody has
/// taken, counted from 0.
pub fn nth_untaken(
    log: &Vec<(String, String)>,
    taken: &HashSet<usize>,
    name: &String,
    k: usize,
) -> (r: Option<usize>)
    ensures
        match r {
            Some(at) => k < untaken(log@, taken@, name@).len() && at == untaken(
                log@,
                taken@,
                name@,
            )[k as int] && at < log@.len(),
            None => untaken(log@, taken@, name@).len() <= k,
        },
{
    let mut i: usize = 0;
    let mut seen: usize = 0;
    assert(log@.take(0) =~= Seq::empty());
    while i < log.len()
        invariant
            i <= log@.len(),
            seen <= i,
            seen <= k,
            seen == untaken(log@.take(i as int), taken@, name@).len(),
        decreases log@.len() - i,
    {
        proof {
            assert(log@.take(i + 1).drop_last() =~= log@.take(i as int));
            assert(log@.take(i + 1).last() == log@[i as int]);
            lemma_untaken_prefix(log@, i + 1, taken@, name@);
            assert(taken@.contains(i) <==> is_taken(taken@, i as int));
        }
        if log[i].0 == *name && !taken.contains(&i) {
            if seen == k {
                assert(untaken(log@.take(i + 1), taken@, name@)[k as int] == i);
                return Some(i);
            }
            seen += 1;
        }
        i += 1;
    }
    assert(log@.take(i as int) =~= log@);
    None
}

proof fn lemma_waiting_grows(
    subs: Seq<(u64, String)>,
    done: Set<u64>,
    name: Seq<char>,
    m: int,
    n: int,
)
    requires
        0 <= m <= n <= subs.len(),
    ensures
        waiting_in_queue(subs.take(m), done, name) <= waiting_in_queue(subs.take(n), done, name),
    decreases n - m,
{
    if m < n {
        lemma_waiting_grows(subs, done, name, m, n - 1);
        assert(subs.take(n).drop_last() =~= subs.take(n - 1));
    }
}

/// An earlier waiting subscription to the same queue has a lower rank.
pub proof fn lemma_ranks_increase(subs: Seq<(u64, String)>, done: Set<u64>, p: int, q: int)
    requires
        0 <= p < q < subs.len(),
        subs[p].1@ == subs[q].1@,
        !done.contains(subs[p].0),
    ensures
        queue_rank(subs, done, p) < queue_rank(subs, done, q),
{
    let name = subs[p].1@;
    assert(subs.take(p + 1).drop_last() =~= subs.take(p));
    assert(subs.take(p + 1).last() == subs[p]);
    lemma_waiting_grows(subs, done, name, p + 1, q);
}

/// First in, first out: of two subscriptions to one queue that wait at the same
/// time, the earlier one is served where the later one is, and with an earlier
/// message.
pub proof fn law_queue_matching_is_fifo(
    subs: Seq<(u64, String)>,
    done: Set<u64>,
    log: Seq<(String, String)>,
    taken: Set<usize>,
    p: int,
    q: int,
)
    requires
        0 <= p < q < subs.len(),
        subs[p].1@ == subs[q].1@,
        !done.contains(subs[p].0),
        queue_place(subs, done, log, taken, q) is Some,
    ensures
        queue_place(subs, done, log, taken, p) is Some,
        queue_place(subs, done, log, taken, p)->0 < queue_place(subs, done, log, taken, q)->0,
{
    lemma_ranks_increase(subs, done, p, q);
    lemma_untaken(log, taken, subs[p].1@);
}

/// The subscription that waits first takes the oldest message of its queue that
/// nobody has taken.
pub proof fn law_the_first_waiting_takes_the_first_untaken(
    subs: Seq<(u64, String)>,
    done: Set<u64>,
    log: Seq<(String, String)>,
    taken: Set<usize>,
    p: int,
    at: int,
)
    requires
        0 <= p < subs.len(),
        forall|q: int|
            0 <= q < p && (#[trigger] subs[q]).1@ == subs[p].1@ ==> done.contains(subs[q].0),
        0 <= at < log.len(),
        log[at].0@ == subs[p].1@,
        !is_taken(taken, at),
        forall|b: int|
            0 <= b < at && (#[trigger] log[b]).0@ == subs[p].1@ ==> is_taken(taken, b),
    ensures
        queue_place(subs, done, log, taken, p) == Some(at),
{
    let name = subs[p].1@;
    lemma_none_waiting(subs, done, name, p);
    lemma_none_untaken(log, taken, name, at);
    assert(log.take(at + 1).drop_last() =~= log.take(at));
    assert(log.take(at + 1).last() == log[at]);
    assert(untaken(log.take(at + 1), taken, name)[0] == at);
    lemma_untaken_prefix(log, at + 1, taken, name);
}

proof fn lemma_none_waiting(subs: Seq<(u64, String)>, done: Set<u64>, name: Seq<char>, n: int)
    requires
        0 <= n <= subs.len(),
        forall|q: int| 0 <= q < n && (#[trigger] subs[q]).1@ == name ==> done.contains(subs[q].0),
    ensures
        waiting_in_queue(subs.take(n), done, name) == 0,
    decreases n,
{
    if n > 0 {
        lemma_none_waiting(subs, done, name, n - 1);
        assert(subs.take(n).drop_last() =~= subs.take(n - 1));
        assert(subs.take(n).last() == subs[n - 1]);
    }
}

proof fn lemma_none_untaken(
    log: Seq<(String, String)>,
    taken: Set<usize>,
    name: Seq<char>,
    n: int,
)
    requires
        0 <= n <= log.len(),
        forall|b: int| 0 <= b < n && (#[trigger] log[b]).0@ == name ==> is_taken(taken, b),
    ensures
        untaken(log.take(n), taken, name).len() == 0,
    decreases n,
{
    if n > 0 {
        lemma_none_untaken(log, taken, name, n - 1);
        assert(log.take(n).drop_last() =~= log.take(n - 1));
        assert(log.take(n).last() == log[n - 1]);
    }
}

/// While nothing is taken, a subscription takes the arrival whose number is
/// that of the waiting subscriptions before it.
pub proof fn law_an_untouched_queue_matches_by_number(
    subs: Seq<(u64, String)>,
    done: Set<u64>,
    log: Seq<(String, String)>,
    p: int,
)
    requires
        0 <= p < subs.len(),
    ensures
        ({
            let arrived = arrivals_of(log, subs[p].1@);
            let rank = queue_rank(subs, done, p) as int;
            match queue_place(subs, done, log, Set::empty(), p) {
                Some(at) => rank < arrived.len() && log[at].1 == arrived[rank],
                None => arrived.len() <= rank,
            }
        }),
{
    lemma_all_untaken(log, subs[p].1@);
}

/// While nothing is taken, what is untaken is all that arrived.
pub proof fn lemma_all_untaken(log: Seq<(String, String)>, name: Seq<char>)
    ensures
        untaken(log, Set::empty(), name).len() == arrivals_of(log, name).len(),
        forall|k: int|
            0 <= k < arrivals_of(log, name).len() ==> log[#[trigger] untaken(
                log,
                Set::empty(),
                name,
            )[k]].1 == arrivals_of(log, name)[k],
    decreases log.len(),
{
    if log.len() > 0 {
        let init = log.drop_last();
        lemma_all_untaken(init, name);
        lemma_untaken(init, Set::empty(), name);
        assert(!is_taken(Set::empty(), log.len() - 1));
        assert forall|k: int| 0 <= k < arrivals_of(log, name).len() implies log[#[trigger] untaken(
            log,
            Set::empty(),
            name,
        )[k]].1 == arrivals_of(log, name)[k] by {
            if k < arrivals_of(init, name).len() {
                let at = untaken(init, Set::empty(), name)[k];
                assert(log[at] == init[at]);
            }
        }
    }
}

/// A cancelled subscription takes no message: those after it are matched as if
/// it had never been there.
pub proof fn law_cancelled_queue_subscription_is_skipped(
    subs: Seq<(u64, String)>,
    done: Set<u64>,
    log: Seq<(String, String)>,
    taken: Set<usize>,
    p: int,
    q: int,
)
    requires
        0 <= p < q < subs.len(),
        done.contains(subs[p].0),
    ensures
        queue_place(subs, done, log, taken, q) == queue_place(
            subs.remove(p),
            done,
            log,
            taken,
            q - 1,
        ),
{
    lemma_skip(subs, done, subs[q].1@, p, q);
}

proof fn lemma_skip(
    subs: Seq<(u64, String)>,
    done: Set<u64>,
    name: Seq<char>,
    p: int,
    q: int,
)
    requires
        0 <= p < q <= subs.len(),
        done.contains(subs[p].0),
    ensures
        waiting_in_queue(subs.take(q), done, name) == waiting_in_queue(
            subs.remove(p).take(q - 1),
            done,
            name,
        ),
    decreases q,
{
    assert(subs.take(q).drop_last() =~= subs.take(q - 1));
    assert(subs.take(q).last() == subs[q - 1]);
    if q == p + 1 {
        assert(subs.remove(p).take(p) =~= subs.take(p));
    } else {
        lemma_skip(subs, done, name, p, q - 1);
        assert(subs.remove(p).take(q - 1).drop_last() =~= subs.remove(p).take(q - 2));
        assert(subs.remove(p).take(q - 1).last() == subs[q - 1]);
    }
}

/// Once a waiting subscription is done, those after it move up by one, and
/// those before it stay.
pub proof fn lemma_rank_without(
    subs: Seq<(u64, String)>,
    done: Set<u64>,
    name: Seq<char>,
    p: int,
    n: int,
)
    requires
        0 <= p < subs.len(),
        0 <= n <= subs.len(),
        !done.contains(subs[p].0),
        forall|i: int, j: int|
            0 <= i < j < subs.len() ==> (#[trigger] subs[i]).0 != (#[trigger] subs[j]).0,
    ensures
        waiting_in_queue(subs.take(n), done.insert(subs[p].0), name) == waiting_in_queue(
            subs.take(n),
            done,
            name,
        ) - (if p < n && subs[p].1@ == name {
            1int
        } else {
            0int
        }),
    decreases n,
{
    if n > 0 {
        lemma_rank_without(subs, done, name, p, n - 1);
        assert(subs.take(n).drop_last() =~= subs.take(n - 1));
        assert(subs.take(n).last() == subs[n - 1]);
        if n - 1 < p {
            assert(subs[n - 1].0 != subs[p].0);
        } else if n - 1 > p {
            assert(subs[p].0 != subs[n - 1].0);
        }
    }
}

/// Taking the `k`-th untaken message of a queue leaves the others as they were.
pub proof fn lemma_untaken_without(
    log: Seq<(String, String)>,
    taken: Set<usize>,
    name: Seq<char>,
    k: int,
    at: usize,
)
    requires
        0 <= k < untaken(log, taken, name).len(),
        at == untaken(log, taken, name)[k],
    ensures
        untaken(log, taken.insert(at), name) == untaken(log, taken, name).remove(k),
    decreases log.len(),
{
    let init = log.drop_last();
    let before = untaken(init, taken, name);
    lemma_untaken(log, taken, name);
    lemma_untaken(init, taken, name);
    lemma_taken_with(taken, at, log.len() - 1);
    if k < before.len() {
        lemma_untaken_without(init, taken, name, k, at);
        assert(untaken(log, taken, name)[k] == before[k]);
        assert(before[k] < init.len());
    } else {
        lemma_untaken_elsewhere(init, taken, name, at);
    }
    assert(untaken(log, taken.insert(at), name) =~= untaken(log, taken, name).remove(k));
}

/// Taking a message that is not an untaken one of queue `name` leaves what is
/// untaken there.
pub proof fn lemma_untaken_elsewhere(
    log: Seq<(String, String)>,
    taken: Set<usize>,
    name: Seq<char>,
    at: usize,
)
    requires
        at < log.len() ==> log[at as int].0@ != name || is_taken(taken, at as int),
    ensures
        untaken(log, taken.insert(at), name) == untaken(log, taken, name),
    decreases log.len(),
{
    if log.len() > 0 {
        lemma_untaken_elsewhere(log.drop_last(), taken, name, at);
        lemma_taken_with(taken, at, log.len() - 1);
    }
}

proof fn lemma_taken_with(taken: Set<usize>, at: usize, b: int)
    ensures
        is_taken(taken.insert(at), b) <==> is_taken(taken, b) || b == at,
{
    if is_taken(taken, b) {
        let t = choose|t: usize| #[trigger] taken.contains(t) && t == b;
        assert(taken.insert(at).contains(t));
    }
    if b == at {
        assert(taken.insert(at).contains(at));
    }
}

/// A message that has arrived keeps its place when later ones arrive, so what
/// a subscription takes does not change.
pub proof fn law_arrivals_keep_their_place(
    log: Seq<(String, String)>,
    more: (String, String),
    key: Seq<char>,
    k: int,
)
    requires
        0 <= k < arrivals_of(log, key).len(),
    ensures
        k < arrivals_of(log.push(more), key).len(),
        arrivals_of(log.push(more), key)[k] == arrivals_of(log, key)[k],
{
    assert(log.push(more).take(log.len() as int) =~= log);
    lemma_arrivals_prefix(log.push(more), log.len() as int, key);
}

/// `ats` are the places in the log, in order, of all that arrived under `key`.
pub open spec fn places_of<K: View>(log: Seq<(K, String)>, key: K::V, ats: Seq<int>) -> bool {
    &&& forall|j: int|
        0 <= j < ats.len() ==> 0 <= #[trigger] ats[j] < log.len() && log[ats[j]].0@ == key
    &&& forall|i: int, j: int| 0 <= i < j < ats.len() ==> #[trigger] ats[i] < #[trigger] ats[j]
    &&& forall|at: int|
        0 <= at < log.len() && (#[trigger] log[at]).0@ == key ==> ats.contains(at)
}

proof fn lemma_places<K: View>(log: Seq<(K, String)>, key: K::V, ats: Seq<int>)
    requires
        places_of(log, key, ats),
    ensures
        arrivals_of(log, key).len() == ats.len(),
        forall|j: int| 0 <= j < ats.len() ==> #[trigger] arrivals_of(log, key)[j] == log[ats[j]].1,
    decreases log.len(),
{
    if log.len() == 0 {
        if ats.len() > 0 {
            assert(0 <= ats[0] < log.len());
        }
    } else {
        let init = log.drop_last();
        let last = log.len() - 1;
        if log.last().0@ == key {
            assert(log[last].0@ == key);
            assert(ats.contains(last));
            let p = choose|p: int| 0 <= p < ats.len() && ats[p] == last;
            if p < ats.len() - 1 {
                assert(ats[p] < ats[ats.len() - 1]);
            }
            let front = ats.drop_last();
            assert forall|at: int| 0 <= at < init.len() && (#[trigger] init[at]).0@ == key implies
                front.contains(at) by {
                assert(log[at].0@ == key);
                let q = choose|q: int| 0 <= q < ats.len() && ats[q] == at;
                assert(front[q] == at);
            }
            assert forall|j: int| 0 <= j < front.len() implies 0 <= #[trigger] front[j]
                < init.len() && init[front[j]].0@ == key by {
                assert(ats[j] < ats[ats.len() - 1]);
                assert(log[ats[j]].0@ == key);
            }
            assert forall|i: int, j: int| 0 <= i < j < front.len() implies #[trigger] front[i]
                < #[trigger] front[j] by {
                assert(ats[i] < ats[j]);
            }
            lemma_places(init, key, front);
            assert forall|j: int| 0 <= j < ats.len() implies #[trigger] arrivals_of(log, key)[j]
                == log[ats[j]].1 by {
                if j < front.len() {
                    assert(arrivals_of(init, key)[j] == init[front[j]].1);
                }
            }
        } else {
            assert forall|j: int| 0 <= j < ats.len() implies 0 <= #[trigger] ats[j] < init.len()
                && init[ats[j]].0@ == key by {
                assert(log[ats[j]].0@ == key);
            }
            assert forall|at: int| 0 <= at < init.len() && (#[trigger] init[at]).0@ == key implies
                ats.contains(at) by {
                assert(log[at].0@ == key);
            }
            lemma_places(init, key, ats);
            assert forall|j: int| 0 <= j < ats.len() implies #[trigger] arrivals_of(log, key)[j]
                == log[ats[j]].1 by {
                assert(arrivals_of(init, key)[j] == init[ats[j]].1);
            }
        }
    }
}

/// By number: while no subscription of its key is cancelled, the subscription with
/// index `k` gets the arrival number `k` of that key, counted from 0, and nothing as
/// long as there are not that many. `ats` are the places of those arrivals.
pub proof fn law_a_subscription_gets_the_arrival_of_its_number<K: View>(
    subs: Map<u64, Subscription<K>>,
    cancelled: Set<u64>,
    log: Seq<(K, String)>,
    id: u64,
    ats: Seq<int>,
)
    requires
        subs.contains_key(id),
        forall|other: u64| #[trigger]
            subs.contains_key(other) && subs[other].0@ == subs[id].0@ ==> !cancelled.contains(
                other,
            ),
        places_of(log, subs[id].0@, ats),
    ensures
        subs[id].1 < ats.len() ==> positional_data(subs, cancelled, log, id) == Some(
            log[ats[subs[id].1 as int]].1,
        ),
        subs[id].1 >= ats.len() ==> positional_data(subs, cancelled, log, id) is None,
{
    let key = subs[id].0@;
    lemma_places(log, key, ats);
    let none = cancelled_in(subs, cancelled, key, 0, subs[id].1 as int);
    assert forall|other: u64| !#[trigger] none.contains(other) by {
        if none.contains(other) {
            assert(subs.contains_key(other));
        }
    }
    assert(none =~= Set::empty());
}

/// Nothing goes to a cancelled subscription, nor to one that was never made.
pub proof fn law_a_cancelled_subscription_gets_nothing<K: View>(
    subs: Map<u64, Subscription<K>>,
    cancelled: Set<u64>,
    log: Seq<(K, String)>,
    id: u64,
)
    requires
        cancelled.contains(id) || !subs.contains_key(id),
    ensures
        positional_data(subs, cancelled, log, id) is None,
{
}

proof fn lemma_arrivals_front<K: View>(log: Seq<(K, String)>, first: (K, String), key: K::V)
    requires
        first.0@ == key,
    ensures
        arrivals_of(seq![first] + log, key) == seq![first.1] + arrivals_of(log, key),
    decreases log.len(),
{
    let all = seq![first] + log;
    if log.len() == 0 {
        assert(all.drop_last() =~= Seq::empty());
        assert(all.last() == first);
        assert(arrivals_of(all.drop_last(), key) =~= Seq::empty());
        assert(arrivals_of(log, key) =~= Seq::empty());
        assert(arrivals_of(all, key) =~= seq![first.1]);
    } else {
        let init = log.drop_last();
        lemma_arrivals_front(init, first, key);
        assert(all.drop_last() =~= seq![first] + init);
        assert(all.last() == log.last());
        assert(arrivals_of(all, key) =~= seq![first.1] + arrivals_of(log, key));
    }
}

/// A cancelled subscription is skipped: each later one of its key moves up by one,
/// so that it gets what it would have got with one more arrival before all others.
/// The earlier ones, and those of other keys, get what they got before.
pub proof fn law_a_cancelled_subscription_is_skipped<K: View>(
    subs: Map<u64, Subscription<K>>,
    cancelled: Set<u64>,
    log: Seq<(K, String)>,
    gone: u64,
    id: u64,
    before_all: (K, String),
)
    requires
        subs.dom().finite(),
        distinct_indices(subs),
        subs.contains_key(gone),
        !cancelled.contains(gone),
        id != gone,
        subs.contains_key(id),
        before_all.0@ == subs[gone].0@,
    ensures
        subs[id].0@ == subs[gone].0@ && subs[gone].1 < subs[id].1 ==> positional_data(
            subs,
            cancelled.insert(gone),
            log,
            id,
        ) == positional_data(subs, cancelled, seq![before_all] + log, id),
        subs[id].0@ != subs[gone].0@ || subs[id].1 < subs[gone].1 ==> positional_data(
            subs,
            cancelled.insert(gone),
            log,
            id,
        ) == positional_data(subs, cancelled, log, id),
{
    let key = subs[id].0@;
    let j = subs[id].1 as int;
    let now = cancelled.insert(gone);
    let old_ids = cancelled_in(subs, cancelled, key, 0, j);
    let new_ids = cancelled_in(subs, now, key, 0, j);
    if key == subs[gone].0@ && subs[gone].1 < subs[id].1 {
        assert(new_ids =~= old_ids.insert(gone));
        assert(!old_ids.contains(gone));
        assert(new_ids.len() == old_ids.len() + 1);
        lemma_arrivals_front(log, before_all, key);
        if !cancelled.contains(id) {
            law_positional_matching_keeps_order(subs, cancelled, gone, id);
            let e = effective_index(subs, cancelled, id);
            let arrived = arrivals_of(log, key);
            assert(e >= 1);
            if e - 1 < arrived.len() {
                assert((seq![before_all.1] + arrived)[e] == arrived[e - 1]);
            }
        }
    } else {
        assert(new_ids =~= old_ids);
    }
}

/// Whether a subscription still waits is a matter of numbers: it does if more of
/// its key are active than have arrived. `ids` are the active ones, and `ats` the
/// places of the arrivals.
pub proof fn law_active_subscriptions_are_counted<K: View>(
    subs: Map<u64, Subscription<K>>,
    cancelled: Set<u64>,
    log: Seq<(K, String)>,
    key: K::V,
    ids: Seq<u64>,
    ats: Seq<int>,
)
    requires
        ids.no_duplicates(),
        forall|id: u64| #[trigger]
            ids.contains(id) <==> subs.contains_key(id) && subs[id].0@ == key
                && !cancelled.contains(id),
        places_of(log, key, ats),
    ensures
        count_active(subs, cancelled, key) == ids.len(),
        arrivals_of(log, key).len() == ats.len(),
{
    lemma_places(log, key, ats);
    let active = subs.dom().filter(|id: u64| is_active(subs, cancelled, key, id));
    assert forall|id: u64| #[trigger] ids.to_set().contains(id) <==> active.contains(id) by {
        assert(ids.contains(id) <==> subs.contains_key(id) && subs[id].0@ == key
            && !cancelled.contains(id));
    }
    assert(active =~= ids.to_set());
    ids.unique_seq_to_set();
}

/// What arrived under a key is counted and handed out by its number. `ats` are the
/// places of those arrivals.
pub proof fn law_arrivals_are_counted_and_numbered<K: Key>(
    log: &Vec<(K, String)>,
    key: &K,
    k: usize,
    ats: Seq<int>,
    n: usize,
    r: Option<String>,
)
    requires
        places_of(log@, key@, ats),
        call_ensures(count_arrivals::<K>, (log, key), n),
        call_ensures(nth_arrival::<K>, (log, key, k), r),
    ensures
        n == ats.len(),
        k < n ==> r == Some(log@[ats[k as int]].1),
        k >= n ==> r is None,
{
    lemma_places(log@, key@, ats);
}

/// A queue subscription is found at the first place of its ID, and a message that
/// nobody has taken is one of its queue that is not taken.
pub proof fn law_queue_places_are_found(
    subs: &Vec<(u64, String)>,
    sid: u64,
    p: Option<usize>,
    log: &Vec<(String, String)>,
    taken: &HashSet<usize>,
    name: &String,
    k: usize,
    at: Option<usize>,
)
    requires
        call_ensures(find_queue_sub, (subs, sid), p),
        call_ensures(nth_untaken, (log, taken, name, k), at),
    ensures
        p matches Some(i) ==> i < subs@.len() && subs@[i as int].0 == sid && forall|q: int|
            0 <= q < i ==> (#[trigger] subs@[q]).0 != sid,
        at matches Some(a) ==> a < log@.len() && log@[a as int].0@ == name@ && !taken@.contains(
            a,
        ),
{
    if let Some(a) = at {
        lemma_untaken(log@, taken@, name@);
        assert(is_taken(taken@, a as int) <==> taken@.contains(a));
    }
}

} // verus!
