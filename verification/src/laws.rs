//! Laws of the orchestration context: what its operations keep, undo and leave
//! as it was.
use crate::action::{Action, CompletionResult, ScheduleKind};
use crate::assoc;
use crate::context::{self, CtxInner, CtxModel, SystemStats};
use crate::mailbox;
use crate::orchestration::{self, OrchestrationContext};
use vstd::prelude::*;

verus! {

/// With distinct keys, an entry stands at the position of its key.
proof fn lemma_position<K: View, V>(entries: Seq<(K, V)>, i: int)
    requires
        assoc::distinct_keys(entries),
        0 <= i < entries.len(),
    ensures
        assoc::has_key(entries, entries[i].0@),
        assoc::position(entries, entries[i].0@) == i,
{
    let k = entries[i].0@;
    assert(entries[i].0@ == k);
    let p = assoc::position(entries, k);
    assert(entries[p].0@ == k);
    if p < i {
        assert(entries[p].0@ != entries[i].0@);
    } else if i < p {
        assert(entries[i].0@ != entries[p].0@);
    }
}

/// What is looked up in a list of entries.
spec fn looked_up<V>(entries: Seq<(String, V)>, k: Seq<char>) -> Option<V> {
    if assoc::has_key(entries, k) {
        Some(entries[assoc::position(entries, k)].1)
    } else {
        None
    }
}

proof fn lemma_upsert<V>(e: Seq<(String, V)>, key: String, value: V, k: Seq<char>)
    requires
        assoc::distinct_keys(e),
    ensures
        assoc::distinct_keys(assoc::upsert(e, key, value)),
        looked_up(assoc::upsert(e, key, value), key@) == Some(value),
        k != key@ ==> looked_up(assoc::upsert(e, key, value), k) == looked_up(e, k),
{
    let a = assoc::upsert(e, key, value);
    if assoc::has_key(e, key@) {
        let p = assoc::position(e, key@);
        assert(e[p].0@ == key@);
        assert forall|i: int, j: int| 0 <= i < j < a.len() implies (#[trigger] a[i]).0@ != (
        #[trigger] a[j]).0@ by {
            assert(e[i].0@ != e[j].0@);
        }
        lemma_position(a, p);
    } else {
        assert forall|i: int, j: int| 0 <= i < j < a.len() implies (#[trigger] a[i]).0@ != (
        #[trigger] a[j]).0@ by {
            if j < e.len() {
                assert(e[i].0@ != e[j].0@);
            } else {
                assert(a[i] == e[i]);
                assert(e[i].0@ != key@);
            }
        }
        lemma_position(a, e.len() as int);
    }
    if k != key@ {
        if assoc::has_key(e, k) {
            let q = assoc::position(e, k);
            assert(e[q].0@ == k);
            assert(a[q] == e[q]);
            lemma_position(a, q);
            lemma_position(e, q);
        } else if assoc::has_key(a, k) {
            let q = assoc::position(a, k);
            assert(a[q].0@ == k);
            assert(e[q].0@ == k);
        }
    }
}

proof fn lemma_without<V>(e: Seq<(String, V)>, key: Seq<char>, k: Seq<char>)
    requires
        assoc::distinct_keys(e),
    ensures
        assoc::distinct_keys(assoc::without(e, key)),
        looked_up(assoc::without(e, key), key) is None,
        k != key ==> looked_up(assoc::without(e, key), k) == looked_up(e, k),
{
    let a = assoc::without(e, key);
    if assoc::has_key(e, key) {
        let p = assoc::position(e, key);
        assert(e[p].0@ == key);
        assert forall|i: int, j: int| 0 <= i < j < a.len() implies (#[trigger] a[i]).0@ != (
        #[trigger] a[j]).0@ by {
            let i0 = if i < p {
                i
            } else {
                i + 1
            };
            let j0 = if j < p {
                j
            } else {
                j + 1
            };
            assert(e[i0].0@ != e[j0].0@);
        }
        assert forall|i: int| 0 <= i < a.len() implies (#[trigger] a[i]).0@ != key by {
            let i0 = if i < p {
                i
            } else {
                i + 1
            };
            assert(a[i] == e[i0]);
            if i0 < p {
                assert(e[i0].0@ != e[p].0@);
            } else {
                assert(e[p].0@ != e[i0].0@);
            }
        }
        if k != key {
            if assoc::has_key(e, k) {
                let q = assoc::position(e, k);
                assert(e[q].0@ == k);
                let q0 = if q < p {
                    q
                } else {
                    q - 1
                };
                assert(a[q0] == e[q]);
                lemma_position(a, q0);
                lemma_position(e, q);
            } else if assoc::has_key(a, k) {
                let q = assoc::position(a, k);
                assert(a[q].0@ == k);
                let q0 = if q < p {
                    q
                } else {
                    q + 1
                };
                assert(e[q0].0@ == k);
            }
        }
    }
}

/// A key that was set has the value that it was set to, and every other key has
/// the value that it had.
pub proof fn law_set_value_is_read_back(
    m: CtxModel,
    key: String,
    value: String,
    now_ms: u64,
    other: Seq<char>,
)
    requires
        context::model_wf(m),
    ensures
        orchestration::kv_value(orchestration::kv_set(m, key, value, now_ms), key@) == Some(value),
        other != key@ ==> orchestration::kv_value(
            orchestration::kv_set(m, key, value, now_ms),
            other,
        ) == orchestration::kv_value(m, other),
{
    lemma_upsert(m.kv, key, value, other);
    assert(orchestration::kv_value(m, other) == looked_up(m.kv, other));
    let n = orchestration::kv_set(m, key, value, now_ms);
    assert(orchestration::kv_value(n, other) == looked_up(n.kv, other));
    assert(orchestration::kv_value(n, key@) == looked_up(n.kv, key@));
}

/// A key that was cleared has no value, and every other key has the value that
/// it had.
pub proof fn law_cleared_key_has_no_value(m: CtxModel, key: String, other: Seq<char>)
    requires
        context::model_wf(m),
    ensures
        orchestration::kv_value(orchestration::kv_cleared(m, key), key@) is None,
        other != key@ ==> orchestration::kv_value(orchestration::kv_cleared(m, key), other)
            == orchestration::kv_value(m, other),
{
    lemma_without(m.kv, key@, other);
    assert(orchestration::kv_value(m, other) == looked_up(m.kv, other));
    let n = orchestration::kv_cleared(m, key);
    assert(orchestration::kv_value(n, other) == looked_up(n.kv, other));
    assert(orchestration::kv_value(n, key@) == looked_up(n.kv, key@));
}

proof fn lemma_prunable(
    updated: Seq<(String, u64)>,
    kv: Seq<(String, String)>,
    bound: u64,
    key: Seq<char>,
)
    ensures
        assoc::distinct_keys(updated) ==> ((exists|i: int|
            0 <= i < orchestration::prunable(updated, kv, bound).len() && (
            #[trigger] orchestration::prunable(updated, kv, bound)[i])@ == key) <==> (
        assoc::has_key(kv, key) && (looked_up(updated, key) matches Some(t) && t < bound))),
    decreases updated.len(),
{
    if updated.len() > 0 && assoc::distinct_keys(updated) {
        let e = updated.drop_last();
        let last = updated.last();
        assert(assoc::distinct_keys(e)) by {
            assert forall|i: int, j: int| 0 <= i < j < e.len() implies (#[trigger] e[i]).0@ != (
            #[trigger] e[j]).0@ by {
                assert(updated[i].0@ != updated[j].0@);
            }
        }
        lemma_prunable(e, kv, bound, key);
        let p = orchestration::prunable(updated, kv, bound);
        let q = orchestration::prunable(e, kv, bound);
        if key == last.0@ {
            lemma_position(updated, updated.len() - 1);
            assert(!assoc::has_key(e, key)) by {
                if assoc::has_key(e, key) {
                    let i = assoc::position(e, key);
                    assert(e[i].0@ == key);
                    assert(updated[i].0@ != updated[updated.len() - 1].0@);
                }
            }
            assert(looked_up(e, key) is None);
            if last.1 < bound && assoc::has_key(kv, last.0@) {
                assert(p[q.len() as int]@ == key);
            }
        } else {
            if assoc::has_key(e, key) {
                let i = assoc::position(e, key);
                assert(e[i].0@ == key);
                assert(updated[i].0@ == key);
                lemma_position(updated, i);
                lemma_position(e, i);
            } else if assoc::has_key(updated, key) {
                let i = assoc::position(updated, key);
                assert(updated[i].0@ == key);
                assert(e[i].0@ == key);
            }
            assert(looked_up(updated, key) == looked_up(e, key));
            if exists|i: int| 0 <= i < p.len() && (#[trigger] p[i])@ == key {
                let i = choose|i: int| 0 <= i < p.len() && (#[trigger] p[i])@ == key;
                assert(q[i]@ == key);
            }
            if exists|i: int| 0 <= i < q.len() && (#[trigger] q[i])@ == key {
                let i = choose|i: int| 0 <= i < q.len() && (#[trigger] q[i])@ == key;
                assert(p[i]@ == key);
            }
        }
    }
}

/// A key that was written this turn is never pruned, whatever the bound.
pub proof fn law_keys_written_this_turn_are_never_pruned(
    m: CtxModel,
    key: String,
    value: String,
    now_ms: u64,
    bound: u64,
)
    requires
        context::model_wf(m),
    ensures
        ({
            let n = orchestration::kv_set(m, key, value, now_ms);
            forall|i: int|
                0 <= i < orchestration::prunable(n.kv_updated, n.kv, bound).len() ==> (
                #[trigger] orchestration::prunable(n.kv_updated, n.kv, bound)[i])@ != key@
        }),
{
    let n = orchestration::kv_set(m, key, value, now_ms);
    lemma_upsert(m.kv_updated, key, u64::MAX, key@);
    lemma_prunable(n.kv_updated, n.kv, bound, key@);
    let p = orchestration::prunable(n.kv_updated, n.kv, bound);
    assert forall|i: int| 0 <= i < p.len() implies (#[trigger] p[i])@ != key@ by {
        if p[i]@ == key@ {
            assert(looked_up(n.kv_updated, key@) == Some(u64::MAX));
        }
    }
}

proof fn lemma_cleared_all(m: CtxModel, keys: Seq<String>, k: Seq<char>)
    requires
        assoc::distinct_keys(m.kv),
    ensures
        assoc::distinct_keys(orchestration::kv_cleared_all(m, keys).kv),
        looked_up(orchestration::kv_cleared_all(m, keys).kv, k) == (if exists|i: int|
            0 <= i < keys.len() && (#[trigger] keys[i])@ == k {
            None
        } else {
            looked_up(m.kv, k)
        }),
    decreases keys.len(),
{
    if keys.len() > 0 {
        let rest = keys.drop_last();
        lemma_cleared_all(m, rest, k);
        let n = orchestration::kv_cleared_all(m, rest);
        lemma_without(n.kv, keys.last()@, k);
        if exists|i: int| 0 <= i < rest.len() && (#[trigger] rest[i])@ == k {
            let i = choose|i: int| 0 <= i < rest.len() && (#[trigger] rest[i])@ == k;
            assert(keys[i]@ == k);
        } else if exists|i: int| 0 <= i < keys.len() && (#[trigger] keys[i])@ == k {
            let i = choose|i: int| 0 <= i < keys.len() && (#[trigger] keys[i])@ == k;
            if i < rest.len() {
                assert(rest[i]@ == k);
            }
            assert(k == keys.last()@);
        } else {
            assert(keys[keys.len() - 1]@ != k);
        }
    }
}

/// Pruning clears the keys that were last updated before the bound, and every
/// other key keeps its value.
pub proof fn law_pruning_clears_old_keys_only(m: CtxModel, bound: u64, key: Seq<char>)
    requires
        context::model_wf(m),
    ensures
        ({
            let n = orchestration::kv_cleared_all(
                m,
                orchestration::prunable(m.kv_updated, m.kv, bound),
            );
            let old_key = assoc::has_key(m.kv_updated, key) && m.kv_updated[assoc::position(
                m.kv_updated,
                key,
            )].1 < bound;
            orchestration::kv_value(n, key) == if old_key {
                None
            } else {
                orchestration::kv_value(m, key)
            }
        }),
{
    let keys = orchestration::prunable(m.kv_updated, m.kv, bound);
    let n = orchestration::kv_cleared_all(m, keys);
    lemma_prunable(m.kv_updated, m.kv, bound, key);
    lemma_cleared_all(m, keys, key);
    assert(orchestration::kv_value(n, key) == looked_up(n.kv, key));
    assert(orchestration::kv_value(m, key) == looked_up(m.kv, key));
}

/// Of several updates of the custom status the last one counts, whether it set
/// the status or cleared it.
pub proof fn law_last_status_counts(m: CtxModel, first: Option<String>, last: Option<String>)
    ensures
        orchestration::status_updated(orchestration::status_updated(m, first), last).custom_status
            == last,
{
}

/// Every action is emitted under a token that no earlier action has, and the
/// actions stay in the order of their emission.
pub proof fn law_tokens_are_fresh(m: CtxModel, action: Action)
    requires
        context::model_wf(m),
        m.next_token < u64::MAX,
    ensures
        ({
            let n = context::emitted(m, action);
            &&& n.emitted.len() == m.emitted.len() + 1
            &&& n.emitted.last() == (n.next_token, action)
            &&& forall|i: int|
                0 <= i < m.emitted.len() ==> (#[trigger] n.emitted[i]) == m.emitted[i]
                    && n.emitted[i].0 < n.next_token
        }),
{
}

/// Emitting an action changes neither the key-value store nor the status nor the
/// statistics.
pub proof fn law_actions_leave_values_alone(m: CtxModel, action: Action, key: Seq<char>)
    ensures
        orchestration::kv_value(context::emitted(m, action), key) == orchestration::kv_value(
            m,
            key,
        ),
        context::emitted(m, action).custom_status == m.custom_status,
        context::emitted(m, action).system_stats == m.system_stats,
{
}

/// No two queue subscriptions have the same schedule ID.
pub open spec fn distinct_queue_ids(subs: Seq<(u64, String)>) -> bool {
    forall|i: int, j: int|
        0 <= i < j < subs.len() ==> (#[trigger] subs[i]).0 != (#[trigger] subs[j]).0
}

/// The order of polls does not matter to queue subscriptions: what one of them
/// is given is not changed by another being asked first.
pub proof fn law_poll_order_does_not_matter(m: CtxModel, a: u64, b: u64)
    requires
        distinct_queue_ids(m.queue_subs),
        m.queue_log.len() <= usize::MAX,
        a != b,
    ensures
        context::queue_place(context::queue_polled(m, a), b) == context::queue_place(m, b),
        context::queue_data(context::queue_polled(m, a), b) == context::queue_data(m, b),
{
    let subs = m.queue_subs;
    let done = m.queue_cancelled.union(m.queue_resolved);
    let after = context::queue_polled(m, a);
    let subscribed = exists|p: int| mailbox::first_at(subs, b, p);
    if context::queue_place(m, a) is Some && !done.contains(b) && subscribed {
        let pa = choose|p: int| mailbox::first_at(subs, a, p);
        let pb = choose|p: int| mailbox::first_at(subs, b, p);
        let at = context::queue_place(m, a)->0;
        let left = mailbox::untaken(m.queue_log, m.queue_taken, subs[pa].1@);
        let rank = mailbox::queue_rank(subs, done, pa) as int;
        mailbox::lemma_untaken(m.queue_log, m.queue_taken, subs[pa].1@);
        assert(left[rank] == at);
        assert(after.queue_cancelled.union(after.queue_resolved) =~= done.insert(a));
        mailbox::lemma_rank_without(subs, done, subs[pb].1@, pa, pb);
        if subs[pa].1@ == subs[pb].1@ {
            mailbox::lemma_untaken_without(
                m.queue_log,
                m.queue_taken,
                subs[pa].1@,
                rank,
                at as usize,
            );
            if pa < pb {
                mailbox::lemma_ranks_increase(subs, done, pa, pb);
            } else {
                mailbox::lemma_ranks_increase(subs, done, pb, pa);
            }
        } else {
            mailbox::lemma_untaken_elsewhere(
                m.queue_log,
                m.queue_taken,
                subs[pb].1@,
                at as usize,
            );
        }
    }
}

/// Whether one step leads from `m` to `next`: a queue subscription is asked for
/// its message, or something happens that takes no message.
pub open spec fn queue_step(m: CtxModel, next: CtxModel) -> bool {
    ||| next.queue_taken == m.queue_taken
    ||| exists|id: u64| next == #[trigger] context::queue_polled(m, id)
}

/// Each queue message is handed out at most once: whatever is subscribed,
/// delivered, cancelled or asked for after subscription `a` took a message, no
/// subscription is given that message again.
pub proof fn law_a_queue_message_is_handed_out_once(
    states: Seq<CtxModel>,
    i: int,
    j: int,
    a: u64,
    b: u64,
)
    requires
        forall|n: int|
            0 <= n < states.len() - 1 ==> queue_step(#[trigger] states[n], states[n + 1]),
        0 <= i < j < states.len(),
        states[i].queue_log.len() <= usize::MAX,
        states[i + 1] == context::queue_polled(states[i], a),
        context::queue_place(states[i], a) is Some,
    ensures
        context::queue_place(states[j], b) != context::queue_place(states[i], a),
{
    let m = states[i];
    let at = context::queue_place(m, a)->0;
    let pa = choose|p: int| mailbox::first_at(m.queue_subs, a, p);
    mailbox::lemma_untaken(m.queue_log, m.queue_taken, m.queue_subs[pa].1@);
    lemma_taken_stays(states, i, j, at as usize);
    let last = states[j];
    if context::queue_place(last, b) is Some {
        let pb = choose|p: int| mailbox::first_at(last.queue_subs, b, p);
        mailbox::lemma_untaken(last.queue_log, last.queue_taken, last.queue_subs[pb].1@);
        assert(last.queue_taken.contains(at as usize));
        assert(mailbox::is_taken(last.queue_taken, at));
    }
}

proof fn lemma_taken_stays(states: Seq<CtxModel>, i: int, j: int, at: usize)
    requires
        forall|n: int|
            0 <= n < states.len() - 1 ==> queue_step(#[trigger] states[n], states[n + 1]),
        0 <= i < j < states.len(),
        states[i + 1].queue_taken.contains(at),
    ensures
        states[j].queue_taken.contains(at),
    decreases j,
{
    if i + 1 < j {
        lemma_taken_stays(states, i, j - 1, at);
        assert(queue_step(states[j - 1], states[j - 1 + 1]));
    }
}

/// Recording a decision turns logging on.
pub proof fn law_decisions_turn_logging_on(m: CtxModel, action: Action)
    ensures
        context::emitted(m, action).logging_enabled,
{
}

/// A token is found under the schedule ID that it was bound to last, and every
/// other token under the one that it had.
pub proof fn law_a_bound_token_is_found(
    before: &CtxInner,
    c: &mut CtxInner,
    o: &mut OrchestrationContext,
    token: u64,
    id: u64,
    after: &CtxInner,
    t: u64,
    had: Option<u64>,
    has: Option<u64>,
)
    requires
        before@ == old(c)@,
        old(o)@ == old(c)@,
        call_ensures(CtxInner::bind_token, (c, token, id), ()),
        call_ensures(OrchestrationContext::bind_token, (o, token, id), ()),
        after@ == final(c)@,
        call_ensures(CtxInner::get_bound_schedule_id, (before, t), had),
        call_ensures(CtxInner::get_bound_schedule_id, (after, t), has),
    ensures
        t == token ==> has == Some(id),
        t != token ==> has == had,
        final(o)@ == final(c)@,
        final(c)@ == (CtxModel { bindings: final(c)@.bindings, ..old(c)@ }),
{
}

/// A result that is delivered to a schedule ID reaches the token that is bound to
/// it, and no other one. Where no token is bound to the ID, nothing happens.
pub proof fn law_a_result_reaches_its_token(
    before: &CtxInner,
    c: &mut CtxInner,
    id: u64,
    result: CompletionResult,
    after: &CtxInner,
    token: u64,
    t: u64,
    had: Option<&CompletionResult>,
    has: Option<&CompletionResult>,
)
    requires
        before@ == old(c)@,
        call_ensures(CtxInner::deliver_result, (c, id, result), ()),
        after@ == final(c)@,
        forall|u: u64| #[trigger]
            old(c)@.bindings.contains_key(u) && old(c)@.bindings[u] == id ==> u == token,
        call_ensures(CtxInner::get_result, (before, t), had),
        call_ensures(CtxInner::get_result, (after, t), has),
    ensures
        old(c)@.bindings.contains_key(token) && old(c)@.bindings[token] == id ==> {
            &&& t == token ==> (has matches Some(r) && *r == result)
            &&& t != token ==> match (had, has) {
                (Some(x), Some(y)) => *x == *y,
                (None, None) => true,
                _ => false,
            }
            &&& final(c)@ == (CtxModel { results: final(c)@.results, ..old(c)@ })
        },
        !(old(c)@.bindings.contains_key(token) && old(c)@.bindings[token] == id) ==> final(c)@
            == old(c)@,
{
    assert(context::bound_to(old(c)@.bindings, token, id) <==> old(c)@.bindings.contains_key(token)
        && old(c)@.bindings[token] == id);
}

/// A result is delivered to one token at most, and to one that is bound to its
/// schedule ID; the context does the same as the turn inside it.
pub proof fn law_a_result_is_delivered_once(
    o: &mut OrchestrationContext,
    id: u64,
    result: CompletionResult,
    token: u64,
)
    requires
        call_ensures(OrchestrationContext::deliver_result, (o, id, result), ()),
        old(o)@.bindings.contains_key(token) && old(o)@.bindings[token] == id,
    ensures
        exists|t: u64| #[trigger]
            old(o)@.bindings.contains_key(t) && old(o)@.bindings[t] == id && final(o)@ == (
            CtxModel { results: old(o)@.results.insert(t, result), ..old(o)@ }),
{
    assert(context::bound_to(old(o)@.bindings, token, id));
    let t = choose|t: u64| #[trigger]
        context::bound_to(old(o)@.bindings, t, id) && final(o)@ == (CtxModel {
            results: old(o)@.results.insert(t, result),
            ..old(o)@
        });
    assert(old(o)@.bindings.contains_key(t));
}

/// Draining hands out every action that was emitted, in the order of emission, and
/// leaves none; looking at them leaves them.
pub proof fn law_drained_actions_are_those_emitted(
    c: &mut CtxInner,
    action: Action,
    token: u64,
    o: &mut OrchestrationContext,
    shown: Vec<(u64, Action)>,
    then: &OrchestrationContext,
    drained: Vec<(u64, Action)>,
)
    requires
        call_ensures(CtxInner::emit_action, (c, action), token),
        old(c)@.next_token < u64::MAX,
        old(o)@ == final(c)@,
        then@ == final(c)@,
        call_ensures(OrchestrationContext::get_emitted_actions, (then,), shown),
        call_ensures(OrchestrationContext::drain_emitted_actions, (o,), drained),
    ensures
        drained@ == old(c)@.emitted.push((token, action)),
        shown@ == drained@,
        token == old(c)@.next_token + 1,
        final(o)@ == (CtxModel { emitted: Seq::empty(), ..old(o)@ }),
        final(c)@ == (CtxModel {
            next_token: token,
            emitted: final(c)@.emitted,
            logging_enabled: true,
            ..old(c)@
        }),
{
}

/// A positional subscription gets the next index of its name, which counts up from
/// 0; the indices of other names and the other subscriptions stay.
pub proof fn law_subscriptions_are_numbered(
    o: &mut OrchestrationContext,
    id: u64,
    name: &str,
    other: Seq<char>,
    other_id: u64,
)
    requires
        call_ensures(OrchestrationContext::bind_external_subscription, (o, id, name), ()),
        old(o)@.external_next.contains_key(name@) ==> old(o)@.external_next[name@] < usize::MAX,
    ensures
        final(o)@.external_subs.contains_key(id),
        final(o)@.external_subs[id].0@ == name@,
        !old(o)@.external_next.contains_key(name@) ==> final(o)@.external_subs[id].1 == 0,
        old(o)@.external_next.contains_key(name@) ==> final(o)@.external_subs[id].1 == old(
            o,
        )@.external_next[name@],
        final(o)@.external_next.contains_key(name@),
        final(o)@.external_next[name@] == final(o)@.external_subs[id].1 + 1,
        other != name@ ==> final(o)@.external_next.contains_key(other) == old(
            o,
        )@.external_next.contains_key(other) && final(o)@.external_next[other] == old(
            o,
        )@.external_next[other],
        other_id != id ==> final(o)@.external_subs.contains_key(other_id) == old(
            o,
        )@.external_subs.contains_key(other_id) && final(o)@.external_subs[other_id] == old(
            o,
        )@.external_subs[other_id],
        final(o)@ == (CtxModel {
            external_subs: final(o)@.external_subs,
            external_next: final(o)@.external_next,
            ..old(o)@
        }),
{
}

/// The same of subscriptions by name and topic, which are numbered by both.
pub proof fn law_topic_subscriptions_are_numbered(
    o: &mut OrchestrationContext,
    id: u64,
    name: &str,
    topic: &str,
    other: (Seq<char>, Seq<char>),
    other_id: u64,
)
    requires
        call_ensures(OrchestrationContext::bind_external_subscription2, (o, id, name, topic), ()),
        old(o)@.topic_next.contains_key((name@, topic@)) ==> old(o)@.topic_next[(name@, topic@)]
            < usize::MAX,
    ensures
        final(o)@.topic_subs.contains_key(id),
        final(o)@.topic_subs[id].0.0@ == name@,
        final(o)@.topic_subs[id].0.1@ == topic@,
        !old(o)@.topic_next.contains_key((name@, topic@)) ==> final(o)@.topic_subs[id].1 == 0,
        old(o)@.topic_next.contains_key((name@, topic@)) ==> final(o)@.topic_subs[id].1 == old(
            o,
        )@.topic_next[(name@, topic@)],
        final(o)@.topic_next.contains_key((name@, topic@)),
        final(o)@.topic_next[(name@, topic@)] == final(o)@.topic_subs[id].1 + 1,
        other != (name@, topic@) ==> final(o)@.topic_next.contains_key(other) == old(
            o,
        )@.topic_next.contains_key(other) && final(o)@.topic_next[other] == old(
            o,
        )@.topic_next[other],
        other_id != id ==> final(o)@.topic_subs.contains_key(other_id) == old(
            o,
        )@.topic_subs.contains_key(other_id) && final(o)@.topic_subs[other_id] == old(
            o,
        )@.topic_subs[other_id],
        final(o)@ == (CtxModel {
            topic_subs: final(o)@.topic_subs,
            topic_next: final(o)@.topic_next,
            ..old(o)@
        }),
{
}

/// What a subscription by name is given: while none of its name is cancelled, the
/// arrival of its own number under that name, and nothing before that has arrived.
pub proof fn law_events_go_by_number(
    c: &CtxInner,
    id: u64,
    r: Option<String>,
    ats: Seq<int>,
)
    requires
        call_ensures(CtxInner::get_external_event, (c, id), r),
        c@.external_subs.contains_key(id),
        forall|other: u64| #[trigger]
            c@.external_subs.contains_key(other) && c@.external_subs[other].0@
                == c@.external_subs[id].0@ ==> !c@.external_cancelled.contains(other),
        mailbox::places_of(c@.external_log, c@.external_subs[id].0@, ats),
    ensures
        c@.external_subs[id].1 < ats.len() ==> r == Some(
            c@.external_log[ats[c@.external_subs[id].1 as int]].1,
        ),
        c@.external_subs[id].1 >= ats.len() ==> r is None,
{
    mailbox::law_a_subscription_gets_the_arrival_of_its_number(
        c@.external_subs,
        c@.external_cancelled,
        c@.external_log,
        id,
        ats,
    );
}

/// The same of a subscription by name and topic: arrivals on other topics do not
/// count.
pub proof fn law_topic_events_go_by_number(
    c: &CtxInner,
    id: u64,
    r: Option<String>,
    ats: Seq<int>,
)
    requires
        call_ensures(CtxInner::get_external_event2, (c, id), r),
        c@.topic_subs.contains_key(id),
        forall|other: u64| #[trigger]
            c@.topic_subs.contains_key(other) && c@.topic_subs[other].0@ == c@.topic_subs[id].0@
                ==> !c@.external_cancelled.contains(other),
        mailbox::places_of(c@.topic_log, c@.topic_subs[id].0@, ats),
    ensures
        c@.topic_subs[id].1 < ats.len() ==> r == Some(
            c@.topic_log[ats[c@.topic_subs[id].1 as int]].1,
        ),
        c@.topic_subs[id].1 >= ats.len() ==> r is None,
{
    mailbox::law_a_subscription_gets_the_arrival_of_its_number(
        c@.topic_subs,
        c@.external_cancelled,
        c@.topic_log,
        id,
        ats,
    );
}

/// A cancelled subscription gets nothing, whether by name or by topic, and each
/// later one of its name moves up: it gets what it would have got with one more
/// arrival before all others. The rest get what they got before.
pub proof fn law_cancelled_waits_are_skipped(
    c: &mut CtxInner,
    gone: u64,
    after: &CtxInner,
    id: u64,
    r: Option<String>,
    by_topic: Option<String>,
    before: &CtxInner,
    had: Option<String>,
    padded: &CtxInner,
    with_one_more: Option<String>,
    extra: (String, String),
)
    requires
        context::model_wf(old(c)@),
        call_ensures(CtxInner::mark_external_subscription_cancelled, (c, gone), ()),
        after@ == final(c)@,
        before@ == old(c)@,
        padded@ == (CtxModel {
            external_log: seq![extra] + old(c)@.external_log,
            ..old(c)@
        }),
        call_ensures(CtxInner::get_external_event, (after, id), r),
        call_ensures(CtxInner::get_external_event2, (after, id), by_topic),
        call_ensures(CtxInner::get_external_event, (before, id), had),
        call_ensures(CtxInner::get_external_event, (padded, id), with_one_more),
        old(c)@.external_subs.contains_key(gone),
        !old(c)@.external_cancelled.contains(gone),
        old(c)@.external_subs.contains_key(id),
        extra.0@ == old(c)@.external_subs[gone].0@,
    ensures
        id == gone ==> r is None && by_topic is None,
        id != gone && old(c)@.external_subs[id].0@ == old(c)@.external_subs[gone].0@ && old(
            c,
        )@.external_subs[gone].1 < old(c)@.external_subs[id].1 ==> r == with_one_more,
        id != gone && (old(c)@.external_subs[id].0@ != old(c)@.external_subs[gone].0@ || old(
            c,
        )@.external_subs[id].1 < old(c)@.external_subs[gone].1) ==> r == had,
        final(c)@ == (CtxModel {
            external_cancelled: old(c)@.external_cancelled.insert(gone),
            ..old(c)@
        }),
{
    let m = old(c)@;
    if id != gone {
        mailbox::law_a_cancelled_subscription_is_skipped(
            m.external_subs,
            m.external_cancelled,
            m.external_log,
            gone,
            id,
            extra,
        );
    }
}

/// A subscription slot is pending if more subscriptions to the name are active
/// than events of that name have arrived. `ids` are the active ones, and `ats` the
/// places of the arrivals.
pub proof fn law_a_slot_is_pending_while_arrivals_are_missing(
    c: &CtxInner,
    name: &str,
    r: bool,
    ids: Seq<u64>,
    ats: Seq<int>,
)
    requires
        call_ensures(CtxInner::has_pending_subscription_slot, (c, name), r),
        ids.no_duplicates(),
        forall|id: u64| #[trigger]
            ids.contains(id) <==> c@.external_subs.contains_key(id) && c@.external_subs[id].0@
                == name@ && !c@.external_cancelled.contains(id),
        mailbox::places_of(c@.external_log, name@, ats),
    ensures
        r <==> ids.len() > ats.len(),
{
    mailbox::law_active_subscriptions_are_counted(
        c@.external_subs,
        c@.external_cancelled,
        c@.external_log,
        name@,
        ids,
        ats,
    );
}

/// What arrives comes last in its own log, under the name that it came with, and
/// in no other log.
pub proof fn law_arrivals_come_last(
    a: &mut OrchestrationContext,
    b: &mut OrchestrationContext,
    c: &mut OrchestrationContext,
    name: String,
    topic: String,
    data: String,
)
    requires
        call_ensures(OrchestrationContext::deliver_external_event, (a, name, data), ()),
        call_ensures(OrchestrationContext::deliver_queue_message, (b, name, data), ()),
        call_ensures(OrchestrationContext::deliver_external_event2, (c, name, topic, data), ()),
    ensures
        final(a)@.external_log.drop_last() == old(a)@.external_log,
        final(a)@.external_log.last() == (name, data),
        final(a)@ == (CtxModel { external_log: final(a)@.external_log, ..old(a)@ }),
        final(b)@.queue_log.drop_last() == old(b)@.queue_log,
        final(b)@.queue_log.last() == (name, data),
        final(b)@ == (CtxModel { queue_log: final(b)@.queue_log, ..old(b)@ }),
        final(c)@.topic_log.drop_last() == old(c)@.topic_log,
        final(c)@.topic_log.last() == ((name, topic), data),
        final(c)@ == (CtxModel { topic_log: final(c)@.topic_log, ..old(c)@ }),
{
    assert(final(a)@.external_log.drop_last() =~= old(a)@.external_log);
    assert(final(b)@.queue_log.drop_last() =~= old(b)@.queue_log);
    assert(final(c)@.topic_log.drop_last() =~= old(c)@.topic_log);
}

/// A queue subscription waits behind those that were made before it.
pub proof fn law_queue_subscriptions_line_up(
    a: &mut OrchestrationContext,
    b: &mut OrchestrationContext,
    id: u64,
    name: &str,
)
    requires
        call_ensures(OrchestrationContext::bind_queue_subscription, (a, id, name), ()),
        call_ensures(OrchestrationContext::mark_queue_subscription_cancelled, (b, id), ()),
    ensures
        final(a)@.queue_subs.drop_last() == old(a)@.queue_subs,
        final(a)@.queue_subs.last().0 == id,
        final(a)@.queue_subs.last().1@ == name@,
        final(a)@ == (CtxModel { queue_subs: final(a)@.queue_subs, ..old(a)@ }),
        final(b)@ == (CtxModel {
            queue_cancelled: old(b)@.queue_cancelled.insert(id),
            ..old(b)@
        }),
{
    assert(final(a)@.queue_subs.drop_last() =~= old(a)@.queue_subs);
}

/// The subscription at `p` is the first of its queue that still waits.
pub open spec fn first_in_line(m: CtxModel, p: int) -> bool {
    &&& 0 <= p < m.queue_subs.len()
    &&& forall|q: int|
        0 <= q < p ==> (#[trigger] m.queue_subs[q]).0 != m.queue_subs[p].0 && (
        m.queue_subs[q].1@ == m.queue_subs[p].1@ ==> m.queue_cancelled.contains(m.queue_subs[q].0)
            || m.queue_resolved.contains(m.queue_subs[q].0))
}

/// The message at `at` is the oldest of queue `name` that nobody has taken.
pub open spec fn oldest_message(m: CtxModel, name: Seq<char>, at: int) -> bool {
    &&& 0 <= at < m.queue_log.len()
    &&& m.queue_log[at].0@ == name
    &&& !m.queue_taken.contains(at as usize)
    &&& forall|b: int|
        0 <= b < at && (#[trigger] m.queue_log[b]).0@ == name ==> m.queue_taken.contains(b as usize)
}

/// A queue gives the oldest message that nobody has taken to the subscription that
/// waits first; the message is taken with it, the subscription is served, and
/// nothing else changes.
pub proof fn law_the_first_in_line_gets_the_oldest_message(
    c: &mut CtxInner,
    id: u64,
    r: Option<String>,
    p: int,
    at: int,
)
    requires
        call_ensures(CtxInner::get_queue_message, (c, id), r),
        old(c)@.queue_log.len() <= usize::MAX,
        first_in_line(old(c)@, p),
        old(c)@.queue_subs[p].0 == id,
        !old(c)@.queue_cancelled.contains(id) && !old(c)@.queue_resolved.contains(id),
        oldest_message(old(c)@, old(c)@.queue_subs[p].1@, at),
    ensures
        r == Some(old(c)@.queue_log[at].1),
        final(c)@ == (CtxModel {
            queue_resolved: old(c)@.queue_resolved.insert(id),
            queue_taken: old(c)@.queue_taken.insert(at as usize),
            ..old(c)@
        }),
{
    let m = old(c)@;
    let done = m.queue_cancelled.union(m.queue_resolved);
    assert(mailbox::first_at(m.queue_subs, id, p));
    let p0 = choose|p0: int| mailbox::first_at(m.queue_subs, id, p0);
    assert(p0 == p) by {
        if p0 < p {
            assert(m.queue_subs[p0].0 != m.queue_subs[p].0);
        } else if p < p0 {
            assert(m.queue_subs[p].0 != id);
        }
    }
    assert forall|q: int|
        0 <= q < p && (#[trigger] m.queue_subs[q]).1@ == m.queue_subs[p].1@ implies done.contains(
        m.queue_subs[q].0,
    ) by {
        assert(m.queue_subs[q].0 != m.queue_subs[p].0);
    }
    let name = m.queue_subs[p].1@;
    assert(!mailbox::is_taken(m.queue_taken, at)) by {
        if mailbox::is_taken(m.queue_taken, at) {
            let t = choose|t: usize| #[trigger] m.queue_taken.contains(t) && t == at;
            assert(t == at as usize);
        }
    }
    assert forall|b: int| 0 <= b < at && (#[trigger] m.queue_log[b]).0@ == name implies
        mailbox::is_taken(m.queue_taken, b) by {
        assert(m.queue_taken.contains(b as usize));
    }
    mailbox::law_the_first_waiting_takes_the_first_untaken(
        m.queue_subs,
        done,
        m.queue_log,
        m.queue_taken,
        p,
        at,
    );
}

proof fn lemma_nothing_untaken(m: CtxModel, name: Seq<char>, n: int)
    requires
        0 <= n <= m.queue_log.len(),
        m.queue_log.len() <= usize::MAX,
        forall|b: int|
            0 <= b < m.queue_log.len() && (#[trigger] m.queue_log[b]).0@ == name
                ==> m.queue_taken.contains(b as usize),
    ensures
        mailbox::untaken(m.queue_log.take(n), m.queue_taken, name).len() == 0,
    decreases n,
{
    if n > 0 {
        lemma_nothing_untaken(m, name, n - 1);
        let log = m.queue_log.take(n);
        assert(log.drop_last() =~= m.queue_log.take(n - 1));
        assert(log.last() == m.queue_log[n - 1]);
        if log.last().0@ == name {
            assert(m.queue_taken.contains((n - 1) as usize));
            assert(mailbox::is_taken(m.queue_taken, n - 1));
        }
    }
}

/// A queue gives nothing to a subscription that is cancelled, served already or
/// was never made, nor when all its messages are taken; and then nothing changes.
pub proof fn law_a_queue_gives_nothing_else(
    c: &mut CtxInner,
    id: u64,
    r: Option<String>,
    p: int,
)
    requires
        call_ensures(CtxInner::get_queue_message, (c, id), r),
        old(c)@.queue_log.len() <= usize::MAX,
        ({
            let m = old(c)@;
            ||| m.queue_cancelled.contains(id)
            ||| m.queue_resolved.contains(id)
            ||| forall|q: int| 0 <= q < m.queue_subs.len() ==> (#[trigger] m.queue_subs[q]).0 != id
            ||| first_in_line(m, p) && m.queue_subs[p].0 == id && forall|b: int|
                0 <= b < m.queue_log.len() && (#[trigger] m.queue_log[b]).0@
                    == m.queue_subs[p].1@ ==> m.queue_taken.contains(b as usize)
        }),
    ensures
        r is None,
        final(c)@ == old(c)@,
{
    let m = old(c)@;
    if first_in_line(m, p) && m.queue_subs[p].0 == id {
        let p0 = choose|p0: int| mailbox::first_at(m.queue_subs, id, p0);
        assert(mailbox::first_at(m.queue_subs, id, p));
        if p0 < p {
            assert(m.queue_subs[p0].0 != m.queue_subs[p].0);
        } else if p < p0 {
            assert(m.queue_subs[p].0 != id);
        }
        if forall|b: int|
            0 <= b < m.queue_log.len() && (#[trigger] m.queue_log[b]).0@ == m.queue_subs[p].1@
                ==> m.queue_taken.contains(b as usize) {
            lemma_nothing_untaken(m, m.queue_subs[p].1@, m.queue_log.len() as int);
            assert(m.queue_log.take(m.queue_log.len() as int) =~= m.queue_log);
        }
    }
}

/// Asking one queue subscription does not change what another is given: so the one
/// that waits second gets what it would get once the first was served.
pub proof fn law_queue_polls_commute(
    first: &mut CtxInner,
    a: u64,
    taken: Option<String>,
    second: &mut CtxInner,
    direct: &mut CtxInner,
    b: u64,
    then: Option<String>,
    at_once: Option<String>,
)
    requires
        call_ensures(CtxInner::get_queue_message, (first, a), taken),
        old(second)@ == final(first)@,
        call_ensures(CtxInner::get_queue_message, (second, b), then),
        old(direct)@ == old(first)@,
        call_ensures(CtxInner::get_queue_message, (direct, b), at_once),
        distinct_queue_ids(old(first)@.queue_subs),
        old(first)@.queue_log.len() <= usize::MAX,
        a != b,
    ensures
        then == at_once,
{
    law_poll_order_does_not_matter(old(first)@, a, b);
}

/// What is seeded is read back: the status, the statistics and whether history is
/// replayed, each without touching the others.
pub proof fn law_seeds_are_read_back(
    a: &mut OrchestrationContext,
    b: &mut OrchestrationContext,
    c: &mut OrchestrationContext,
    status: Option<String>,
    stats: SystemStats,
    replaying: bool,
    then_a: &OrchestrationContext,
    then_b: &OrchestrationContext,
    then_c: &OrchestrationContext,
    seen_status: Option<String>,
    seen_stats: Option<SystemStats>,
    seen_replaying: bool,
)
    requires
        call_ensures(OrchestrationContext::seed_custom_status, (a, status), ()),
        call_ensures(OrchestrationContext::seed_system_stats, (b, stats), ()),
        call_ensures(OrchestrationContext::set_is_replaying, (c, replaying), ()),
        then_a@ == final(a)@ && then_b@ == final(b)@ && then_c@ == final(c)@,
        call_ensures(OrchestrationContext::get_custom_status, (then_a,), seen_status),
        call_ensures(OrchestrationContext::get_system_stats, (then_b,), seen_stats),
        call_ensures(OrchestrationContext::is_replaying, (then_c,), seen_replaying),
    ensures
        seen_status == status,
        seen_stats == Some(stats),
        seen_replaying == replaying,
        final(a)@ == (CtxModel { custom_status: final(a)@.custom_status, ..old(a)@ }),
        final(b)@ == (CtxModel { system_stats: final(b)@.system_stats, ..old(b)@ }),
        final(c)@ == (CtxModel { is_replaying: final(c)@.is_replaying, ..old(c)@ }),
{
}

/// The instance of a child is kept under its token.
pub proof fn law_a_child_keeps_its_instance(
    o: &mut OrchestrationContext,
    token: u64,
    instance: String,
    t: u64,
)
    requires
        call_ensures(
            OrchestrationContext::bind_sub_orchestration_instance,
            (o, token, instance),
            (),
        ),
    ensures
        final(o)@.sub_instances.contains_key(token),
        final(o)@.sub_instances[token] == instance,
        t != token ==> final(o)@.sub_instances.contains_key(t) == old(
            o,
        )@.sub_instances.contains_key(t) && final(o)@.sub_instances[t] == old(o)@.sub_instances[t],
        final(o)@ == (CtxModel { sub_instances: final(o)@.sub_instances, ..old(o)@ }),
{
}

/// A key that is set reads as the value that it was set to, and every other key as
/// before; the change is decided on, for the host to store, with the time at which
/// it was made.
pub proof fn law_setting_a_key(
    before: &OrchestrationContext,
    o: &mut OrchestrationContext,
    key: String,
    value: String,
    now_ms: u64,
    after: &OrchestrationContext,
    k: &str,
    had: Option<String>,
    has: Option<String>,
)
    requires
        context::model_wf(old(o)@),
        old(o)@.next_token < u64::MAX,
        before@ == old(o)@,
        call_ensures(OrchestrationContext::set_kv_value_at, (o, key, value, now_ms), ()),
        after@ == final(o)@,
        call_ensures(OrchestrationContext::get_kv_value, (before, k), had),
        call_ensures(OrchestrationContext::get_kv_value, (after, k), has),
    ensures
        k@ == key@ ==> has == Some(value),
        k@ != key@ ==> has == had,
        final(o)@.emitted == old(o)@.emitted.push(
            (
                (old(o)@.next_token + 1) as u64,
                Action::SetKeyValue { key, value, last_updated_at_ms: now_ms },
            ),
        ),
        final(o)@ == (CtxModel {
            next_token: (old(o)@.next_token + 1) as u64,
            emitted: final(o)@.emitted,
            logging_enabled: true,
            kv: final(o)@.kv,
            kv_updated: final(o)@.kv_updated,
            ..old(o)@
        }),
{
    law_set_value_is_read_back(old(o)@, key, value, now_ms, k@);
}

/// Without a given time, a key is set as of some reading of the clock.
pub proof fn law_setting_a_key_now(
    before: &OrchestrationContext,
    o: &mut OrchestrationContext,
    key: String,
    value: String,
    after: &OrchestrationContext,
    k: &str,
    had: Option<String>,
    has: Option<String>,
)
    requires
        context::model_wf(old(o)@),
        old(o)@.next_token < u64::MAX,
        before@ == old(o)@,
        call_ensures(OrchestrationContext::set_kv_value, (o, key, value), ()),
        after@ == final(o)@,
        call_ensures(OrchestrationContext::get_kv_value, (before, k), had),
        call_ensures(OrchestrationContext::get_kv_value, (after, k), has),
    ensures
        k@ == key@ ==> has == Some(value),
        k@ != key@ ==> has == had,
        final(o)@.emitted.drop_last() == old(o)@.emitted,
        final(o)@.emitted.last().0 == old(o)@.next_token + 1,
        final(o)@.emitted.last().1 matches Action::SetKeyValue { key: ak, value: av, .. } && ak
            == key && av == value,
{
    let now_ms = choose|now_ms: u64|
        final(o)@ == #[trigger] orchestration::kv_set(old(o)@, key, value, now_ms);
    law_set_value_is_read_back(old(o)@, key, value, now_ms, k@);
    assert(final(o)@.emitted.drop_last() =~= old(o)@.emitted);
}

/// A key that is cleared has no value, and every other key reads as before; the
/// change is decided on.
pub proof fn law_clearing_a_key(
    before: &OrchestrationContext,
    o: &mut OrchestrationContext,
    key: String,
    after: &OrchestrationContext,
    k: &str,
    had: Option<String>,
    has: Option<String>,
)
    requires
        context::model_wf(old(o)@),
        old(o)@.next_token < u64::MAX,
        before@ == old(o)@,
        call_ensures(OrchestrationContext::clear_kv_value, (o, key), ()),
        after@ == final(o)@,
        call_ensures(OrchestrationContext::get_kv_value, (before, k), had),
        call_ensures(OrchestrationContext::get_kv_value, (after, k), has),
    ensures
        k@ == key@ ==> has is None,
        k@ != key@ ==> has == had,
        final(o)@.emitted == old(o)@.emitted.push(
            ((old(o)@.next_token + 1) as u64, Action::ClearKeyValue { key }),
        ),
        final(o)@ == (CtxModel {
            next_token: (old(o)@.next_token + 1) as u64,
            emitted: final(o)@.emitted,
            logging_enabled: true,
            kv: final(o)@.kv,
            kv_updated: final(o)@.kv_updated,
            ..old(o)@
        }),
{
    law_cleared_key_has_no_value(old(o)@, key, k@);
}

/// Clearing everything leaves no key, and is one decision.
pub proof fn law_clearing_all_keys(
    o: &mut OrchestrationContext,
    after: &OrchestrationContext,
    k: &str,
    has: Option<String>,
    n: usize,
    keys: Vec<String>,
    values: Vec<(String, String)>,
)
    requires
        old(o)@.next_token < u64::MAX,
        call_ensures(OrchestrationContext::clear_all_kv_values, (o,), ()),
        after@ == final(o)@,
        call_ensures(OrchestrationContext::get_kv_value, (after, k), has),
        call_ensures(OrchestrationContext::get_kv_length, (after,), n),
        call_ensures(OrchestrationContext::get_kv_all_keys, (after,), keys),
        call_ensures(OrchestrationContext::get_kv_all_values, (after,), values),
    ensures
        has is None,
        n == 0,
        keys@.len() == 0,
        values@.len() == 0,
        final(o)@.kv_updated.len() == 0,
        final(o)@.emitted == old(o)@.emitted.push(
            ((old(o)@.next_token + 1) as u64, Action::ClearKeyValues),
        ),
{
}

/// The listings agree with single reads: a pair is listed exactly if its key reads
/// as its value, the keys are those of the pairs, and the length counts them.
pub proof fn law_listings_agree_with_reads(
    o: &OrchestrationContext,
    k: &str,
    has: Option<String>,
    n: usize,
    keys: Vec<String>,
    values: Vec<(String, String)>,
    i: int,
)
    requires
        context::model_wf(o@),
        call_ensures(OrchestrationContext::get_kv_value, (o, k), has),
        call_ensures(OrchestrationContext::get_kv_length, (o,), n),
        call_ensures(OrchestrationContext::get_kv_all_keys, (o,), keys),
        call_ensures(OrchestrationContext::get_kv_all_values, (o,), values),
        0 <= i < values@.len(),
    ensures
        n == values@.len(),
        keys@.len() == values@.len(),
        keys@[i] == values@[i].0,
        values@[i].0@ == k@ ==> has == Some(values@[i].1),
        has is Some ==> exists|j: int|
            0 <= j < values@.len() && (#[trigger] values@[j]).0@ == k@ && has == Some(values@[j].1),
{
    if values@[i].0@ == k@ {
        lemma_position(o@.kv, i);
    }
    if has is Some {
        let j = assoc::position(o@.kv, k@);
        assert(o@.kv[j].0@ == k@);
        assert(values@[j].0@ == k@);
    }
}

/// A key that is seeded reads as its value, counts as updated when it was, and is
/// not decided on again.
pub proof fn law_seeding_a_key(
    before: &OrchestrationContext,
    o: &mut OrchestrationContext,
    key: String,
    value: String,
    updated_ms: u64,
    after: &OrchestrationContext,
    k: &str,
    had: Option<String>,
    has: Option<String>,
)
    requires
        context::model_wf(old(o)@),
        before@ == old(o)@,
        call_ensures(OrchestrationContext::seed_kv_value, (o, key, value, updated_ms), ()),
        after@ == final(o)@,
        call_ensures(OrchestrationContext::get_kv_value, (before, k), had),
        call_ensures(OrchestrationContext::get_kv_value, (after, k), has),
    ensures
        k@ == key@ ==> has == Some(value),
        k@ != key@ ==> has == had,
        exists|i: int|
            0 <= i < final(o)@.kv_updated.len() && (#[trigger] final(o)@.kv_updated[i]).0@ == key@
                && final(o)@.kv_updated[i].1 == updated_ms,
        final(o)@ == (CtxModel {
            kv: final(o)@.kv,
            kv_updated: final(o)@.kv_updated,
            ..old(o)@
        }),
{
    lemma_upsert(old(o)@.kv, key, value, k@);
    lemma_upsert(old(o)@.kv_updated, key, updated_ms, k@);
    assert(has == looked_up(final(o)@.kv, k@));
    assert(had == looked_up(old(o)@.kv, k@));
    let u = final(o)@.kv_updated;
    let p = assoc::position(u, key@);
    assert(looked_up(u, key@) == Some(updated_ms));
    assert(u[p].0@ == key@);
}

proof fn lemma_cleared_all_emits(m: CtxModel, keys: Seq<String>)
    requires
        m.next_token + keys.len() <= u64::MAX,
    ensures
        ({
            let n = orchestration::kv_cleared_all(m, keys);
            &&& n.next_token == m.next_token + keys.len()
            &&& n.emitted.len() == m.emitted.len() + keys.len()
            &&& forall|i: int|
                0 <= i < m.emitted.len() ==> #[trigger] n.emitted[i] == m.emitted[i]
            &&& forall|i: int|
                0 <= i < keys.len() ==> #[trigger] n.emitted[m.emitted.len() + i].1 == (
                Action::ClearKeyValue { key: keys[i] })
        }),
    decreases keys.len(),
{
    if keys.len() > 0 {
        let rest = keys.drop_last();
        lemma_cleared_all_emits(m, rest);
        let a = orchestration::kv_cleared_all(m, rest);
        let n = orchestration::kv_cleared_all(m, keys);
        assert forall|i: int| 0 <= i < keys.len() implies #[trigger] n.emitted[m.emitted.len()
            + i].1 == (Action::ClearKeyValue { key: keys[i] }) by {
            if i < rest.len() {
                assert(a.emitted[m.emitted.len() + i].1 == (Action::ClearKeyValue {
                    key: rest[i],
                }));
            }
        }
    }
}

/// Pruning clears exactly the keys with a value that were last updated before the
/// bound, says how many these were, and decides on the clearing of each.
pub proof fn law_pruning_clears_what_is_old(
    before: &OrchestrationContext,
    o: &mut OrchestrationContext,
    bound: u64,
    cleared: usize,
    after: &OrchestrationContext,
    k: &str,
    had: Option<String>,
    has: Option<String>,
    updated_ms: u64,
    u: int,
)
    requires
        context::model_wf(old(o)@),
        old(o)@.next_token + old(o)@.kv_updated.len() <= u64::MAX,
        before@ == old(o)@,
        call_ensures(OrchestrationContext::prune_kv_values_updated_before, (o, bound), cleared),
        after@ == final(o)@,
        call_ensures(OrchestrationContext::get_kv_value, (before, k), had),
        call_ensures(OrchestrationContext::get_kv_value, (after, k), has),
        0 <= u < old(o)@.kv_updated.len(),
        old(o)@.kv_updated[u].0@ == k@,
        old(o)@.kv_updated[u].1 == updated_ms,
    ensures
        updated_ms < bound ==> has is None,
        updated_ms >= bound ==> has == had,
        final(o)@.emitted.len() == old(o)@.emitted.len() + cleared,
        forall|i: int|
            old(o)@.emitted.len() <= i < final(o)@.emitted.len() ==> (
            #[trigger] final(o)@.emitted[i]).1 is ClearKeyValue,
        forall|i: int|
            0 <= i < old(o)@.emitted.len() ==> #[trigger] final(o)@.emitted[i] == old(
                o,
            )@.emitted[i],
        updated_ms < bound && had is Some ==> exists|i: int|
            old(o)@.emitted.len() <= i < final(o)@.emitted.len() && ((
            #[trigger] final(o)@.emitted[i]).1 matches Action::ClearKeyValue { key } && key@ == k@),
{
    let m = old(o)@;
    let keys = orchestration::prunable(m.kv_updated, m.kv, bound);
    law_pruning_clears_old_keys_only(m, bound, k@);
    lemma_position(m.kv_updated, u);
    lemma_prunable(m.kv_updated, m.kv, bound, k@);
    lemma_prunable_len(m.kv_updated, m.kv, bound);
    lemma_cleared_all_emits(m, keys);
    let n = final(o)@;
    assert forall|i: int| m.emitted.len() <= i < n.emitted.len() implies (
    #[trigger] n.emitted[i]).1 is ClearKeyValue by {
        assert(n.emitted[m.emitted.len() + (i - m.emitted.len())].1 == (Action::ClearKeyValue {
            key: keys[i - m.emitted.len()],
        }));
    }
    if updated_ms < bound && had is Some {
        let j = choose|j: int| 0 <= j < keys.len() && (#[trigger] keys[j])@ == k@;
        assert(n.emitted[m.emitted.len() + j].1 == (Action::ClearKeyValue { key: keys[j] }));
    }
}

proof fn lemma_prunable_len(updated: Seq<(String, u64)>, kv: Seq<(String, String)>, bound: u64)
    ensures
        orchestration::prunable(updated, kv, bound).len() <= updated.len(),
    decreases updated.len(),
{
    if updated.len() > 0 {
        lemma_prunable_len(updated.drop_last(), kv, bound);
    }
}

/// Pruning decides on nothing else: each key whose clearing it decides on had a
/// value, and was last updated before the bound.
pub proof fn law_pruning_touches_nothing_else(
    o: &mut OrchestrationContext,
    bound: u64,
    cleared: usize,
    i: int,
    key: String,
)
    requires
        context::model_wf(old(o)@),
        old(o)@.next_token + old(o)@.kv_updated.len() <= u64::MAX,
        call_ensures(OrchestrationContext::prune_kv_values_updated_before, (o, bound), cleared),
        old(o)@.emitted.len() <= i < final(o)@.emitted.len(),
        final(o)@.emitted[i].1 == (Action::ClearKeyValue { key }),
    ensures
        exists|j: int| 0 <= j < old(o)@.kv.len() && (#[trigger] old(o)@.kv[j]).0@ == key@,
        exists|j: int|
            0 <= j < old(o)@.kv_updated.len() && (#[trigger] old(o)@.kv_updated[j]).0@ == key@
                && old(o)@.kv_updated[j].1 < bound,
{
    let m = old(o)@;
    let keys = orchestration::prunable(m.kv_updated, m.kv, bound);
    lemma_prunable_len(m.kv_updated, m.kv, bound);
    lemma_cleared_all_emits(m, keys);
    let at = i - m.emitted.len();
    assert(final(o)@.emitted[m.emitted.len() + at].1 == (Action::ClearKeyValue { key: keys[at] }));
    assert(keys[at]@ == key@);
    lemma_prunable(m.kv_updated, m.kv, bound, key@);
    let p = assoc::position(m.kv, key@);
    assert(m.kv[p].0@ == key@);
    let q = assoc::position(m.kv_updated, key@);
    assert(m.kv_updated[q].0@ == key@);
}

/// A cancelled subscription by topic is skipped as one by name is: each later one
/// of its name and topic gets what it would have got with one more arrival before
/// all others, and the rest get what they got before.
pub proof fn law_cancelled_topic_waits_are_skipped(
    c: &mut CtxInner,
    gone: u64,
    after: &CtxInner,
    id: u64,
    r: Option<String>,
    before: &CtxInner,
    had: Option<String>,
    padded: &CtxInner,
    with_one_more: Option<String>,
    extra: ((String, String), String),
)
    requires
        context::model_wf(old(c)@),
        call_ensures(CtxInner::mark_external_subscription_cancelled, (c, gone), ()),
        after@ == final(c)@,
        before@ == old(c)@,
        padded@ == (CtxModel { topic_log: seq![extra] + old(c)@.topic_log, ..old(c)@ }),
        call_ensures(CtxInner::get_external_event2, (after, id), r),
        call_ensures(CtxInner::get_external_event2, (before, id), had),
        call_ensures(CtxInner::get_external_event2, (padded, id), with_one_more),
        old(c)@.topic_subs.contains_key(gone),
        !old(c)@.external_cancelled.contains(gone),
        old(c)@.topic_subs.contains_key(id),
        extra.0@ == old(c)@.topic_subs[gone].0@,
    ensures
        id == gone ==> r is None,
        id != gone && old(c)@.topic_subs[id].0@ == old(c)@.topic_subs[gone].0@ && old(
            c,
        )@.topic_subs[gone].1 < old(c)@.topic_subs[id].1 ==> r == with_one_more,
        id != gone && (old(c)@.topic_subs[id].0@ != old(c)@.topic_subs[gone].0@ || old(
            c,
        )@.topic_subs[id].1 < old(c)@.topic_subs[gone].1) ==> r == had,
{
    let m = old(c)@;
    if id != gone {
        mailbox::law_a_cancelled_subscription_is_skipped(
            m.topic_subs,
            m.external_cancelled,
            m.topic_log,
            gone,
            id,
            extra,
        );
    }
}

/// What is asked of an orchestration's context, or marked in it, is asked of and
/// marked in its turn.
pub proof fn law_a_context_shows_its_turn(
    o: &OrchestrationContext,
    c: &CtxInner,
    name: &str,
    slot: bool,
    inner_slot: bool,
    marked: &mut OrchestrationContext,
    inner_marked: &mut CtxInner,
    token: u64,
    kind: ScheduleKind,
    skipped: &mut OrchestrationContext,
    inner_skipped: &mut CtxInner,
    id: u64,
)
    requires
        o@ == c@,
        call_ensures(OrchestrationContext::has_pending_subscription_slot, (o, name), slot),
        call_ensures(CtxInner::has_pending_subscription_slot, (c, name), inner_slot),
        old(marked)@ == old(inner_marked)@,
        call_ensures(OrchestrationContext::mark_token_cancelled, (marked, token, &kind), ()),
        call_ensures(CtxInner::mark_token_cancelled, (inner_marked, token, kind), ()),
        old(skipped)@ == old(inner_skipped)@,
        call_ensures(
            OrchestrationContext::mark_external_subscription_cancelled,
            (skipped, id),
            (),
        ),
        call_ensures(CtxInner::mark_external_subscription_cancelled, (inner_skipped, id), ()),
    ensures
        slot == inner_slot,
        final(marked)@ == final(inner_marked)@,
        final(marked)@.cancelled.contains(token),
        final(marked)@.cancelled_kinds[token] == kind,
        final(skipped)@ == final(inner_skipped)@,
        final(skipped)@.external_cancelled.contains(id),
{
    let before = old(marked)@.cancelled;
    assert(before.push(token)[before.len() as int] == token);
}

} // verus!
