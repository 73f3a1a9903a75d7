//! Which message a queue subscription gets, counted from the start: the
//! subscription that has `j` others of its queue before it that are not
//! cancelled gets arrival `j`, in whatever order the subscriptions are asked.
use crate::context::{self, CtxModel};
use crate::laws;
use crate::mailbox;
use vstd::prelude::*;

verus! {

/// The number of a queue subscription: how many others of its queue were bound
/// before it and are not cancelled.
pub open spec fn number(m: CtxModel, p: int) -> nat {
    mailbox::queue_rank(m.queue_subs, m.queue_cancelled, p)
}

/// Where in the log the messages of a queue are, oldest first.
pub open spec fn places(m: CtxModel, name: Seq<char>) -> Seq<int> {
    mailbox::untaken(m.queue_log, Set::empty(), name)
}

/// What happens to the queues of a context.
pub enum QueueStep {
    /// A subscription is bound: its ID and the name of the queue.
    Bind(u64, String),
    /// A message arrives: the name of the queue and the data.
    Deliver(String, String),
    /// A subscription is cancelled.
    Cancel(u64),
    /// A subscription is asked for its message.
    Poll(u64),
    /// Something else.
    Elsewhere,
}

/// The queues stand alike in both.
pub open spec fn same_queues(m: CtxModel, n: CtxModel) -> bool {
    &&& m.queue_subs == n.queue_subs
    &&& m.queue_log == n.queue_log
    &&& m.queue_cancelled == n.queue_cancelled
    &&& m.queue_resolved == n.queue_resolved
    &&& m.queue_taken == n.queue_taken
}

/// The state after a step.
pub open spec fn after_step(m: CtxModel, step: QueueStep) -> CtxModel {
    match step {
        QueueStep::Bind(id, name) => CtxModel { queue_subs: m.queue_subs.push((id, name)), ..m },
        QueueStep::Deliver(name, data) => CtxModel {
            queue_log: m.queue_log.push((name, data)),
            ..m
        },
        QueueStep::Cancel(id) => CtxModel { queue_cancelled: m.queue_cancelled.insert(id), ..m },
        QueueStep::Poll(id) => context::queue_polled(m, id),
        QueueStep::Elsewhere => m,
    }
}

/// The subscription at `q` got its message.
pub open spec fn is_served(m: CtxModel, q: int) -> bool {
    m.queue_resolved.contains(m.queue_subs[q].0)
}

/// No subscription is bound under the ID.
pub open spec fn is_unbound(m: CtxModel, id: u64) -> bool {
    forall|q: int| 0 <= q < m.queue_subs.len() ==> (#[trigger] m.queue_subs[q]).0 != id
}

/// A step in keeping with the numbers: every subscription is bound under an ID
/// of its own, and none is cancelled after it or a later one of its queue got a
/// message.
pub open spec fn is_orderly(m: CtxModel, step: QueueStep) -> bool {
    match step {
        QueueStep::Bind(id, _) => is_unbound(m, id),
        QueueStep::Cancel(id) => forall|p: int, q: int|
            0 <= p <= q < m.queue_subs.len() && (#[trigger] m.queue_subs[p]).0 == id
                && m.queue_subs[p].1@ == (#[trigger] m.queue_subs[q]).1@ ==> !is_served(m, q),
        _ => true,
    }
}

/// The states of a context in which no message was given out at first, and that
/// went through these steps.
pub open spec fn is_history(states: Seq<CtxModel>, steps: Seq<QueueStep>) -> bool {
    &&& states.len() == steps.len() + 1
    &&& states[0].queue_subs.len() == 0
    &&& states[0].queue_resolved.is_empty()
    &&& states[0].queue_taken.is_empty()
    &&& forall|i: int| 0 <= i < steps.len() ==> #[trigger] goes_on(states, steps, i)
}

/// The step at `i` is orderly and leads to the next state.
pub open spec fn goes_on(states: Seq<CtxModel>, steps: Seq<QueueStep>, i: int) -> bool {
    &&& is_orderly(states[i], steps[i])
    &&& same_queues(states[i + 1], after_step(states[i], steps[i]))
    &&& states[i].queue_log.len() <= usize::MAX
}

/// The subscription at `q` was served with the message at `at`: with the one
/// that has its number.
spec fn has_got(m: CtxModel, q: int, at: int) -> bool {
    let all = places(m, m.queue_subs[q].1@);
    let n = number(m, q) as int;
    0 <= q < m.queue_subs.len() && is_served(m, q) && n < all.len() && all[n] == at
}

/// The subscription at `q` is not cancelled, and the message with its number is
/// taken.
spec fn took_its_own(m: CtxModel, q: int) -> bool {
    let all = places(m, m.queue_subs[q].1@);
    let n = number(m, q) as int;
    &&& !m.queue_cancelled.contains(m.queue_subs[q].0)
    &&& n < all.len()
    &&& mailbox::is_taken(m.queue_taken, all[n])
}

/// What was given out so far was given out by number.
spec fn given_by_number(m: CtxModel) -> bool {
    &&& laws::distinct_queue_ids(m.queue_subs)
    &&& forall|q: int|
        0 <= q < m.queue_subs.len() && #[trigger] is_served(m, q) ==> took_its_own(m, q)
    &&& forall|t: usize| #[trigger]
        m.queue_taken.contains(t) ==> exists|q: int| has_got(m, q, t as int)
    &&& forall|id: u64| #[trigger] m.queue_resolved.contains(id) ==> !is_unbound(m, id)
}

/// How many of the first `k` places are not taken.
spec fn left_among(all: Seq<int>, taken: Set<usize>, k: nat) -> nat
    decreases k,
{
    if k == 0 {
        0
    } else {
        left_among(all, taken, (k - 1) as nat) + if mailbox::is_taken(taken, all[k - 1]) {
            0nat
        } else {
            1nat
        }
    }
}

proof fn lemma_left_prefix(all: Seq<int>, more: int, taken: Set<usize>, k: nat)
    requires
        k <= all.len(),
    ensures
        left_among(all.push(more), taken, k) == left_among(all, taken, k),
    decreases k,
{
    if k > 0 {
        lemma_left_prefix(all, more, taken, (k - 1) as nat);
    }
}

/// A message that is not taken stands among those that are not where the ones
/// before it leave off.
proof fn lemma_left(log: Seq<(String, String)>, taken: Set<usize>, name: Seq<char>)
    ensures
        ({
            let all = mailbox::untaken(log, Set::empty(), name);
            let left = mailbox::untaken(log, taken, name);
            &&& left_among(all, taken, all.len()) == left.len()
            &&& forall|k: int|
                0 <= k < all.len() && !mailbox::is_taken(taken, #[trigger] all[k]) ==> {
                    &&& left_among(all, taken, k as nat) < left.len()
                    &&& left[left_among(all, taken, k as nat) as int] == all[k]
                }
        }),
    decreases log.len(),
{
    let all = mailbox::untaken(log, Set::empty(), name);
    let left = mailbox::untaken(log, taken, name);
    if log.len() > 0 {
        let init = log.drop_last();
        let all0 = mailbox::untaken(init, Set::empty(), name);
        let left0 = mailbox::untaken(init, taken, name);
        let last = log.len() - 1;
        lemma_left(init, taken, name);
        assert(!mailbox::is_taken(Set::empty(), last));
        if log.last().0@ == name {
            assert(all == all0.push(last));
            lemma_left_prefix(all0, last, taken, all0.len());
            assert forall|k: int|
                0 <= k < all.len() && !mailbox::is_taken(taken, #[trigger] all[k]) implies {
                &&& left_among(all, taken, k as nat) < left.len()
                &&& left[left_among(all, taken, k as nat) as int] == all[k]
            } by {
                lemma_left_prefix(all0, last, taken, k as nat);
                if k < all0.len() {
                    assert(all0[k] == all[k]);
                }
            }
        }
    }
}

/// The waiting subscriptions before `p` are as many as the messages left among
/// those of the numbers before its own, as far as they have arrived.
proof fn lemma_waiting_and_left(m: CtxModel, name: Seq<char>, p: int)
    requires
        given_by_number(m),
        0 <= p <= m.queue_subs.len(),
    ensures
        ({
            let done = m.queue_cancelled.union(m.queue_resolved);
            let all = places(m, name);
            let before = m.queue_subs.take(p);
            let n = mailbox::waiting_in_queue(before, m.queue_cancelled, name);
            let r = mailbox::waiting_in_queue(before, done, name);
            &&& n <= all.len() ==> left_among(all, m.queue_taken, n) == r
            &&& n >= all.len() ==> left_among(all, m.queue_taken, all.len()) <= r
        }),
    decreases p,
{
    let subs = m.queue_subs;
    let done = m.queue_cancelled.union(m.queue_resolved);
    let all = places(m, name);
    if p > 0 {
        let q = p - 1;
        lemma_waiting_and_left(m, name, q);
        assert(subs.take(p).drop_last() =~= subs.take(q));
        assert(subs.take(p).last() == subs[q]);
        let n = mailbox::waiting_in_queue(subs.take(q), m.queue_cancelled, name);
        if subs[q].1@ == name && !m.queue_cancelled.contains(subs[q].0) {
            assert(n == number(m, q));
            if is_served(m, q) {
                assert(mailbox::is_taken(m.queue_taken, all[n as int]));
            } else if n < all.len() {
                lemma_not_taken(m, q);
            }
        }
    }
}

/// The message with the number of a subscription that still waits is not taken.
proof fn lemma_not_taken(m: CtxModel, p: int)
    requires
        given_by_number(m),
        0 <= p < m.queue_subs.len(),
        !m.queue_cancelled.contains(m.queue_subs[p].0),
        !is_served(m, p),
        number(m, p) < places(m, m.queue_subs[p].1@).len(),
    ensures
        !mailbox::is_taken(
            m.queue_taken,
            places(m, m.queue_subs[p].1@)[number(m, p) as int],
        ),
{
    let subs = m.queue_subs;
    let name = subs[p].1@;
    let all = places(m, name);
    let n = number(m, p) as int;
    mailbox::lemma_untaken(m.queue_log, Set::empty(), name);
    if mailbox::is_taken(m.queue_taken, all[n]) {
        let t = choose|t: usize| #[trigger] m.queue_taken.contains(t) && t == all[n];
        let q = choose|q: int| has_got(m, q, t as int);
        mailbox::lemma_untaken(m.queue_log, Set::empty(), subs[q].1@);
        let nq = number(m, q) as int;
        assert(m.queue_log[all[n]].0@ == name);
        assert(places(m, subs[q].1@)[nq] == all[n]);
        assert(subs[q].1@ == name);
        if nq < n {
            assert(all[nq] < all[n]);
        } else if n < nq {
            assert(all[n] < all[nq]);
        }
        if q < p {
            mailbox::lemma_ranks_increase(subs, m.queue_cancelled, q, p);
        } else if p < q {
            mailbox::lemma_ranks_increase(subs, m.queue_cancelled, p, q);
        }
        assert(false);
    }
}

/// Where what was given out was given out by number, so is what comes next.
proof fn lemma_place_by_number(m: CtxModel, p: int)
    requires
        given_by_number(m),
        0 <= p < m.queue_subs.len(),
        !m.queue_cancelled.contains(m.queue_subs[p].0),
        !is_served(m, p),
    ensures
        ({
            let all = places(m, m.queue_subs[p].1@);
            let n = number(m, p) as int;
            context::queue_place(m, m.queue_subs[p].0) == (if n < all.len() {
                Some(all[n])
            } else {
                None::<int>
            })
        }),
{
    let subs = m.queue_subs;
    let name = subs[p].1@;
    let all = places(m, name);
    let n = number(m, p);
    let done = m.queue_cancelled.union(m.queue_resolved);
    lemma_first(m, p);
    lemma_waiting_and_left(m, name, p);
    lemma_left(m.queue_log, m.queue_taken, name);
    if n < all.len() {
        lemma_not_taken(m, p);
    }
}

/// With distinct IDs, a subscription is the first of its ID.
proof fn lemma_first(m: CtxModel, p: int)
    requires
        laws::distinct_queue_ids(m.queue_subs),
        0 <= p < m.queue_subs.len(),
    ensures
        mailbox::first_at(m.queue_subs, m.queue_subs[p].0, p),
        forall|q: int| #[trigger]
            mailbox::first_at(m.queue_subs, m.queue_subs[p].0, q) ==> q == p,
{
    assert forall|q: int| #[trigger]
        mailbox::first_at(m.queue_subs, m.queue_subs[p].0, q) implies q == p by {
        if q < p {
            assert(m.queue_subs[q].0 != m.queue_subs[p].0);
        } else if p < q {
            assert(m.queue_subs[p].0 != m.queue_subs[q].0);
        }
    }
}

proof fn lemma_keeps(m: CtxModel, step: QueueStep)
    requires
        given_by_number(m),
        is_orderly(m, step),
        m.queue_log.len() <= usize::MAX,
    ensures
        given_by_number(after_step(m, step)),
{
    match step {
        QueueStep::Bind(id, name) => lemma_keeps_bind(m, id, name),
        QueueStep::Deliver(name, data) => lemma_keeps_deliver(m, name, data),
        QueueStep::Cancel(id) => lemma_keeps_cancel(m, id),
        QueueStep::Poll(id) => lemma_keeps_poll(m, id),
        QueueStep::Elsewhere => {},
    }
}

proof fn lemma_keeps_bind(m: CtxModel, id: u64, name: String)
    requires
        given_by_number(m),
        is_unbound(m, id),
    ensures
        given_by_number(after_step(m, QueueStep::Bind(id, name))),
{
    let n = after_step(m, QueueStep::Bind(id, name));
    assert forall|q: int| 0 <= q < m.queue_subs.len() implies {
        &&& #[trigger] n.queue_subs[q] == m.queue_subs[q]
        &&& number(n, q) == number(m, q)
        &&& is_served(n, q) == is_served(m, q)
    } by {
        assert(n.queue_subs.take(q) =~= m.queue_subs.take(q));
    }
    assert(!is_served(n, m.queue_subs.len() as int));
    assert forall|t: usize| #[trigger] n.queue_taken.contains(t) implies exists|q: int|
        has_got(n, q, t as int) by {
        let q = choose|q: int| has_got(m, q, t as int);
        assert(n.queue_subs[q] == m.queue_subs[q]);
        assert(has_got(n, q, t as int));
    }
    assert forall|other: u64| #[trigger] n.queue_resolved.contains(other) implies !is_unbound(
        n,
        other,
    ) by {
        let q = choose|q: int|
            0 <= q < m.queue_subs.len() && (#[trigger] m.queue_subs[q]).0 == other;
        assert(n.queue_subs[q].0 == other);
    }
}

proof fn lemma_keeps_deliver(m: CtxModel, name: String, data: String)
    requires
        given_by_number(m),
    ensures
        given_by_number(after_step(m, QueueStep::Deliver(name, data))),
{
    let n = after_step(m, QueueStep::Deliver(name, data));
    assert(n.queue_log.drop_last() =~= m.queue_log);
    assert forall|q: int|
        0 <= q < m.queue_subs.len() && #[trigger] is_served(n, q) implies took_its_own(n, q) by {
        assert(is_served(m, q));
    }
    assert forall|t: usize| #[trigger] n.queue_taken.contains(t) implies exists|q: int|
        has_got(n, q, t as int) by {
        let q = choose|q: int| has_got(m, q, t as int);
        assert(has_got(n, q, t as int));
    }
    assert forall|other: u64| #[trigger] n.queue_resolved.contains(other) implies !is_unbound(
        n,
        other,
    ) by {
        let q = choose|q: int|
            0 <= q < m.queue_subs.len() && (#[trigger] m.queue_subs[q]).0 == other;
        assert(n.queue_subs[q].0 == other);
    }
}

proof fn lemma_unknown_id(
    subs: Seq<(u64, String)>,
    done: Set<u64>,
    id: u64,
    name: Seq<char>,
    n: int,
)
    requires
        0 <= n <= subs.len(),
        forall|q: int| 0 <= q < subs.len() ==> (#[trigger] subs[q]).0 != id,
    ensures
        mailbox::waiting_in_queue(subs.take(n), done.insert(id), name)
            == mailbox::waiting_in_queue(subs.take(n), done, name),
    decreases n,
{
    if n > 0 {
        lemma_unknown_id(subs, done, id, name, n - 1);
        assert(subs.take(n).drop_last() =~= subs.take(n - 1));
        assert(subs.take(n).last() == subs[n - 1]);
    }
}

proof fn lemma_keeps_cancel(m: CtxModel, id: u64)
    requires
        given_by_number(m),
        is_orderly(m, QueueStep::Cancel(id)),
    ensures
        given_by_number(after_step(m, QueueStep::Cancel(id))),
{
    let n = after_step(m, QueueStep::Cancel(id));
    let subs = m.queue_subs;
    assert forall|q: int| 0 <= q < subs.len() && is_served(m, q) implies number(n, q) == number(
        m,
        q,
    ) && subs[q].0 != id by {
        if is_unbound(m, id) {
            lemma_unknown_id(subs, m.queue_cancelled, id, subs[q].1@, q);
        } else {
            let p = choose|p: int| 0 <= p < subs.len() && (#[trigger] subs[p]).0 == id;
            if m.queue_cancelled.contains(id) {
                assert(m.queue_cancelled.insert(id) =~= m.queue_cancelled);
            } else {
                mailbox::lemma_rank_without(subs, m.queue_cancelled, subs[q].1@, p, q);
            }
            if p <= q && subs[p].1@ == subs[q].1@ {
                assert(!is_served(m, q));
            }
            if subs[q].0 == id {
                lemma_first(m, p);
                lemma_first(m, q);
                assert(p == q);
            }
        }
    }
    assert forall|q: int|
        0 <= q < subs.len() && #[trigger] is_served(n, q) implies took_its_own(n, q) by {
        assert(is_served(m, q));
    }
    assert forall|t: usize| #[trigger] n.queue_taken.contains(t) implies exists|q: int|
        has_got(n, q, t as int) by {
        let q = choose|q: int| has_got(m, q, t as int);
        assert(has_got(n, q, t as int));
    }
    assert forall|other: u64| #[trigger] n.queue_resolved.contains(other) implies !is_unbound(
        n,
        other,
    ) by {
        let q = choose|q: int| 0 <= q < subs.len() && (#[trigger] subs[q]).0 == other;
        assert(n.queue_subs[q].0 == other);
    }
}

proof fn lemma_keeps_poll(m: CtxModel, id: u64)
    requires
        given_by_number(m),
        m.queue_log.len() <= usize::MAX,
    ensures
        given_by_number(after_step(m, QueueStep::Poll(id))),
{
    let n = after_step(m, QueueStep::Poll(id));
    let subs = m.queue_subs;
    if context::queue_place(m, id) is Some {
        let p = choose|p: int| mailbox::first_at(subs, id, p);
        let name = subs[p].1@;
        assert(subs[p].0 == id);
        lemma_place_by_number(m, p);
        mailbox::lemma_untaken(m.queue_log, Set::empty(), name);
        let at = places(m, name)[number(m, p) as int];
        assert(context::queue_place(m, id) == Some(at));
        assert(n.queue_taken == m.queue_taken.insert(at as usize));
        assert forall|q: int|
            0 <= q < subs.len() && #[trigger] is_served(n, q) implies took_its_own(n, q) by {
            if subs[q].0 == id {
                lemma_first(m, p);
                lemma_first(m, q);
                assert(q == p);
                assert(n.queue_taken.contains(at as usize));
            } else {
                assert(is_served(m, q));
                let k = places(m, subs[q].1@)[number(m, q) as int];
                let t = choose|t: usize| #[trigger] m.queue_taken.contains(t) && t == k;
                assert(n.queue_taken.contains(t));
            }
        }
        assert forall|t: usize| #[trigger] n.queue_taken.contains(t) implies exists|q: int|
            has_got(n, q, t as int) by {
            if t == at {
                assert(has_got(n, p, t as int));
            } else {
                assert(m.queue_taken.contains(t));
                let q = choose|q: int| has_got(m, q, t as int);
                assert(has_got(n, q, t as int));
            }
        }
        assert forall|other: u64| #[trigger] n.queue_resolved.contains(other) implies !is_unbound(
            n,
            other,
        ) by {
            if other != id {
                let q = choose|q: int| 0 <= q < subs.len() && (#[trigger] subs[q]).0 == other;
                assert(n.queue_subs[q].0 == other);
            } else {
                assert(n.queue_subs[p].0 == other);
            }
        }
    }
}

proof fn lemma_same_queues(m: CtxModel, n: CtxModel)
    requires
        given_by_number(m),
        same_queues(n, m),
    ensures
        given_by_number(n),
{
    assert forall|q: int|
        0 <= q < n.queue_subs.len() && #[trigger] is_served(n, q) implies took_its_own(n, q) by {
        assert(is_served(m, q));
    }
    assert forall|t: usize| #[trigger] n.queue_taken.contains(t) implies exists|q: int|
        has_got(n, q, t as int) by {
        let q = choose|q: int| has_got(m, q, t as int);
        assert(has_got(n, q, t as int));
    }
    assert forall|other: u64| #[trigger] n.queue_resolved.contains(other) implies !is_unbound(
        n,
        other,
    ) by {
        let q = choose|q: int|
            0 <= q < m.queue_subs.len() && (#[trigger] m.queue_subs[q]).0 == other;
        assert(n.queue_subs[q].0 == other);
    }
}

proof fn lemma_history(states: Seq<CtxModel>, steps: Seq<QueueStep>, i: int)
    requires
        is_history(states, steps),
        0 <= i < states.len(),
    ensures
        given_by_number(states[i]),
    decreases i,
{
    if i > 0 {
        lemma_history(states, steps, i - 1);
        assert(goes_on(states, steps, i - 1));
        lemma_keeps(states[i - 1], steps[i - 1]);
        lemma_same_queues(after_step(states[i - 1], steps[i - 1]), states[i]);
    }
}

/// The number of a queue subscription decides which message it gets. In every
/// state that binding, delivering, asking and cancelling lead to, where every
/// subscription has an ID of its own and none was cancelled after it or a later
/// one of its queue got a message, the subscription at `p` that still waits gets
/// arrival `j` of its queue once that has arrived, and none before; `j` counts
/// the subscriptions of the queue that were bound before it and are not
/// cancelled. The order in which subscriptions were asked plays no part.
pub proof fn law_queue_messages_go_by_number(
    states: Seq<CtxModel>,
    steps: Seq<QueueStep>,
    i: int,
    p: int,
)
    requires
        is_history(states, steps),
        0 <= i < states.len(),
        0 <= p < states[i].queue_subs.len(),
    ensures
        ({
            let m = states[i];
            let (id, name) = m.queue_subs[p];
            let arrived = mailbox::arrivals_of(m.queue_log, name@);
            let j = number(m, p) as int;
            context::queue_data(m, id) == (if !m.queue_cancelled.contains(id)
                && !m.queue_resolved.contains(id) && j < arrived.len() {
                Some(arrived[j])
            } else {
                None::<String>
            })
        }),
{
    let m = states[i];
    let (id, name) = m.queue_subs[p];
    lemma_history(states, steps, i);
    mailbox::lemma_all_untaken(m.queue_log, name@);
    if !m.queue_cancelled.contains(id) && !m.queue_resolved.contains(id) {
        lemma_place_by_number(m, p);
    }
}

/// A subscription that was never bound gets nothing, one that got its message
/// gets no other, and asking changes nothing where nothing is got.
pub proof fn law_a_queue_subscription_is_served_once(m: CtxModel, id: u64)
    ensures
        is_unbound(m, id) ==> context::queue_data(m, id) is None,
        context::queue_data(context::queue_polled(m, id), id) is None,
        context::queue_data(m, id) is None ==> context::queue_polled(m, id) == m,
{
}

} // verus!
