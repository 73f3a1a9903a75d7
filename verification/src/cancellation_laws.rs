//! Laws of giving work up: from the future that is disposed of to the report that
//! the host acts on.
use crate::action::ScheduleKind;
use crate::assoc;
use crate::context::{self, CancelClass, CtxInner, CtxModel};
use crate::future::{DurableFuture, Pollable};
use crate::orchestration::OrchestrationContext;
use vstd::prelude::*;

verus! {

proof fn lemma_with_id(ids: Seq<u64>, id: u64, t: u64)
    ensures
        assoc::with_id(ids, id).contains(t) <==> ids.contains(t) || t == id,
{
    let after = assoc::with_id(ids, id);
    if !ids.contains(id) {
        assert(after.last() == id);
        if ids.contains(t) {
            let i = choose|i: int| 0 <= i < ids.len() && ids[i] == t;
            assert(after[i] == t);
        }
    }
}

/// The token `t` was cancelled and is bound to `id`.
pub open spec fn given_up(
    tokens: Seq<u64>,
    kinds: Map<u64, ScheduleKind>,
    bindings: Map<u64, u64>,
    t: u64,
    id: u64,
) -> bool {
    &&& tokens.contains(t)
    &&& kinds.contains_key(t)
    &&& bindings.contains_key(t)
    &&& bindings[t] == id
}

proof fn lemma_reported(
    tokens: Seq<u64>,
    kinds: Map<u64, ScheduleKind>,
    bindings: Map<u64, u64>,
    class: CancelClass,
    of_kind: spec_fn(ScheduleKind) -> bool,
    id: u64,
)
    requires
        forall|k: ScheduleKind| #[trigger] context::of_class(k, class) <==> of_kind(k),
    ensures
        context::cancelled_ids(tokens, kinds, bindings, class).contains(id) <==> exists|t: u64|
            #[trigger] given_up(tokens, kinds, bindings, t, id) && of_kind(kinds[t]),
    decreases tokens.len(),
{
    let ids = context::cancelled_ids(tokens, kinds, bindings, class);
    if tokens.len() > 0 {
        let front = tokens.drop_last();
        let last = tokens.last();
        let rest = context::cancelled_ids(front, kinds, bindings, class);
        lemma_reported(front, kinds, bindings, class, of_kind, id);
        assert(tokens[tokens.len() - 1] == last);
        assert forall|t: u64| tokens.contains(t) <==> front.contains(t) || t == last by {
            if tokens.contains(t) {
                let i = choose|i: int| 0 <= i < tokens.len() && tokens[i] == t;
                if i < front.len() {
                    assert(front[i] == t);
                }
            }
            if front.contains(t) {
                let i = choose|i: int| 0 <= i < front.len() && front[i] == t;
                assert(tokens[i] == t);
            }
        }
        if ids.contains(id) {
            let i = choose|i: int| 0 <= i < ids.len() && ids[i] == id;
            if i < rest.len() {
                assert(rest[i] == id);
                let t = choose|t: u64| #[trigger]
                    given_up(front, kinds, bindings, t, id) && of_kind(kinds[t]);
                assert(given_up(tokens, kinds, bindings, t, id));
            } else {
                assert(context::of_class(kinds[last], class));
                assert(given_up(tokens, kinds, bindings, last, id));
            }
        }
        if exists|t: u64| #[trigger]
            given_up(tokens, kinds, bindings, t, id) && of_kind(kinds[t]) {
            let t = choose|t: u64| #[trigger]
                given_up(tokens, kinds, bindings, t, id) && of_kind(kinds[t]);
            assert(context::of_class(kinds[t], class));
            if front.contains(t) {
                assert(given_up(front, kinds, bindings, t, id));
                let i = choose|i: int| 0 <= i < rest.len() && rest[i] == id;
                assert(ids[i] == id);
            } else {
                assert(t == last);
                assert(ids.last() == id);
            }
        }
    }
}

/// The reports hold exactly the schedule IDs of the cancelled work of their kind:
/// the activities in one, the waits for events in the other, the waits for queue
/// messages in the third, and no ID of another kind in any of them.
pub proof fn law_reports_hold_the_work_of_their_kind(
    ctx: &CtxInner,
    activities: Vec<u64>,
    waits: Vec<u64>,
    dequeues: Vec<u64>,
    id: u64,
)
    requires
        call_ensures(CtxInner::get_cancelled_activity_ids, (ctx,), activities),
        call_ensures(CtxInner::get_cancelled_external_wait_ids, (ctx,), waits),
        call_ensures(CtxInner::get_cancelled_queue_ids, (ctx,), dequeues),
    ensures
        activities@.contains(id) <==> exists|t: u64| #[trigger]
            given_up(ctx@.cancelled, ctx@.cancelled_kinds, ctx@.bindings, t, id)
                && ctx@.cancelled_kinds[t] is Activity,
        waits@.contains(id) <==> exists|t: u64| #[trigger]
            given_up(ctx@.cancelled, ctx@.cancelled_kinds, ctx@.bindings, t, id)
                && ctx@.cancelled_kinds[t] is ExternalWait,
        dequeues@.contains(id) <==> exists|t: u64| #[trigger]
            given_up(ctx@.cancelled, ctx@.cancelled_kinds, ctx@.bindings, t, id)
                && ctx@.cancelled_kinds[t] is QueueDequeue,
{
    let m = ctx@;
    lemma_reported(
        m.cancelled,
        m.cancelled_kinds,
        m.bindings,
        CancelClass::Activity,
        |k: ScheduleKind| k is Activity,
        id,
    );
    lemma_reported(
        m.cancelled,
        m.cancelled_kinds,
        m.bindings,
        CancelClass::ExternalWait,
        |k: ScheduleKind| k is ExternalWait,
        id,
    );
    lemma_reported(
        m.cancelled,
        m.cancelled_kinds,
        m.bindings,
        CancelClass::QueueDequeue,
        |k: ScheduleKind| k is QueueDequeue,
        id,
    );
}

/// From disposal to report: disposing of a future that has not completed, whose
/// token is bound to a schedule ID, puts that ID into the report of its kind.
/// Disposing of one that has completed changes nothing.
pub proof fn law_disposal_is_reported(
    f: DurableFuture,
    ctx: &mut OrchestrationContext,
    after: &OrchestrationContext,
    activities: Vec<u64>,
    waits: Vec<u64>,
    dequeues: Vec<u64>,
    id: u64,
)
    requires
        call_ensures(DurableFuture::dispose, (f, ctx), ()),
        after@ == final(ctx)@,
        call_ensures(OrchestrationContext::get_cancelled_activity_ids, (after,), activities),
        call_ensures(OrchestrationContext::get_cancelled_external_wait_ids, (after,), waits),
        call_ensures(OrchestrationContext::get_cancelled_queue_ids, (after,), dequeues),
        old(ctx)@.bindings.contains_key(f@.token),
        old(ctx)@.bindings[f@.token] == id,
    ensures
        !f@.completed ==> {
            &&& f@.kind is Activity ==> activities@.contains(id)
            &&& f@.kind is ExternalWait ==> waits@.contains(id)
            &&& f@.kind is QueueDequeue ==> dequeues@.contains(id)
        },
        f@.completed ==> final(ctx)@ == old(ctx)@,
{
    let m = after@;
    if !f@.completed {
        lemma_with_id(old(ctx)@.cancelled, f@.token, f@.token);
        let is_activity = |k: ScheduleKind| k is Activity;
        let is_wait = |k: ScheduleKind| k is ExternalWait;
        let is_dequeue = |k: ScheduleKind| k is QueueDequeue;
        lemma_reported(
            m.cancelled,
            m.cancelled_kinds,
            m.bindings,
            CancelClass::Activity,
            is_activity,
            id,
        );
        lemma_reported(
            m.cancelled,
            m.cancelled_kinds,
            m.bindings,
            CancelClass::ExternalWait,
            is_wait,
            id,
        );
        lemma_reported(
            m.cancelled,
            m.cancelled_kinds,
            m.bindings,
            CancelClass::QueueDequeue,
            is_dequeue,
            id,
        );
        if f@.kind is Activity {
            assert(given_up(m.cancelled, m.cancelled_kinds, m.bindings, f@.token, id));
        }
        if f@.kind is ExternalWait {
            assert(given_up(m.cancelled, m.cancelled_kinds, m.bindings, f@.token, id));
        }
        if f@.kind is QueueDequeue {
            assert(given_up(m.cancelled, m.cancelled_kinds, m.bindings, f@.token, id));
        }
    }
}

proof fn lemma_other_kinds(
    tokens: Seq<u64>,
    kinds: Map<u64, ScheduleKind>,
    bindings: Map<u64, u64>,
    class: CancelClass,
    token: u64,
    kind: ScheduleKind,
)
    requires
        !tokens.contains(token),
    ensures
        context::cancelled_ids(tokens, kinds.insert(token, kind), bindings, class)
            == context::cancelled_ids(tokens, kinds, bindings, class),
    decreases tokens.len(),
{
    if tokens.len() > 0 {
        let front = tokens.drop_last();
        assert(tokens[tokens.len() - 1] != token);
        assert(!front.contains(token)) by {
            if front.contains(token) {
                let i = choose|i: int| 0 <= i < front.len() && front[i] == token;
                assert(tokens[i] == token);
            }
        }
        lemma_other_kinds(front, kinds, bindings, class, token, kind);
    }
}

/// Cancellations are reported in their order: what is given up now comes last in
/// the report of its kind, and the other reports stay as they are. Nothing is
/// reported of a timer, nor of work that was never bound.
pub proof fn law_cancellations_are_reported_in_order(
    before: &CtxInner,
    ctx: &mut CtxInner,
    token: u64,
    kind: ScheduleKind,
    after: &CtxInner,
    a0: Vec<u64>,
    a1: Vec<u64>,
    w0: Vec<u64>,
    w1: Vec<u64>,
    q0: Vec<u64>,
    q1: Vec<u64>,
)
    requires
        call_ensures(CtxInner::mark_token_cancelled, (ctx, token, kind), ()),
        before@ == old(ctx)@,
        after@ == final(ctx)@,
        !before@.cancelled.contains(token),
        call_ensures(CtxInner::get_cancelled_activity_ids, (before,), a0),
        call_ensures(CtxInner::get_cancelled_activity_ids, (after,), a1),
        call_ensures(CtxInner::get_cancelled_external_wait_ids, (before,), w0),
        call_ensures(CtxInner::get_cancelled_external_wait_ids, (after,), w1),
        call_ensures(CtxInner::get_cancelled_queue_ids, (before,), q0),
        call_ensures(CtxInner::get_cancelled_queue_ids, (after,), q1),
    ensures
        ({
            let bound = before@.bindings.contains_key(token);
            let id = before@.bindings[token];
            &&& a1@ == if bound && kind is Activity {
                a0@.push(id)
            } else {
                a0@
            }
            &&& w1@ == if bound && kind is ExternalWait {
                w0@.push(id)
            } else {
                w0@
            }
            &&& q1@ == if bound && kind is QueueDequeue {
                q0@.push(id)
            } else {
                q0@
            }
        }),
{
    let m = before@;
    let n = after@;
    assert(n.cancelled.drop_last() =~= m.cancelled);
    assert(n.cancelled.last() == token);
    lemma_other_kinds(
        m.cancelled,
        m.cancelled_kinds,
        m.bindings,
        CancelClass::Activity,
        token,
        kind,
    );
    lemma_other_kinds(
        m.cancelled,
        m.cancelled_kinds,
        m.bindings,
        CancelClass::ExternalWait,
        token,
        kind,
    );
    lemma_other_kinds(
        m.cancelled,
        m.cancelled_kinds,
        m.bindings,
        CancelClass::QueueDequeue,
        token,
        kind,
    );
}

/// A cancelled token is that of a sub-orchestration whose scheduling event and
/// instance are `c`.
pub open spec fn child_given_up(m: CtxModel, t: u64, sub: u64, c: (u64, String)) -> bool {
    &&& m.cancelled.contains(t)
    &&& m.cancelled_kinds.contains_key(t)
    &&& m.cancelled_kinds[t] == (ScheduleKind::SubOrchestration { token: sub })
    &&& m.bindings.contains_key(t)
    &&& m.sub_instances.contains_key(sub)
    &&& c == (m.bindings[t], m.sub_instances[sub])
}

proof fn lemma_children_reported(m: CtxModel, n: nat, c: (u64, String))
    requires
        n <= m.cancelled.len(),
    ensures
        context::sub_cancellations(m, n).contains(c) <==> exists|i: int, sub: u64|
            0 <= i < n && #[trigger] child_given_up(m, m.cancelled[i], sub, c),
    decreases n,
{
    let all = context::sub_cancellations(m, n);
    if n > 0 {
        let rest = context::sub_cancellations(m, (n - 1) as nat);
        lemma_children_reported(m, (n - 1) as nat, c);
        let t = m.cancelled[n - 1];
        assert(m.cancelled.contains(t));
        if all.contains(c) {
            let i = choose|i: int| 0 <= i < all.len() && all[i] == c;
            if i < rest.len() {
                assert(rest[i] == c);
                let (k, sub) = choose|k: int, sub: u64|
                    0 <= k < n - 1 && #[trigger] child_given_up(m, m.cancelled[k], sub, c);
                assert(child_given_up(m, m.cancelled[k], sub, c));
            } else {
                let sub = m.cancelled_kinds[t]->SubOrchestration_token;
                assert(child_given_up(m, m.cancelled[n - 1], sub, c));
            }
        }
        if exists|i: int, sub: u64|
            0 <= i < n && #[trigger] child_given_up(m, m.cancelled[i], sub, c) {
            let (i, sub) = choose|i: int, sub: u64|
                0 <= i < n && #[trigger] child_given_up(m, m.cancelled[i], sub, c);
            if i < n - 1 {
                assert(child_given_up(m, m.cancelled[i], sub, c));
                let k = choose|k: int| 0 <= k < rest.len() && rest[k] == c;
                assert(all[k] == c);
            } else {
                assert(all.last() == c);
            }
        }
    }
}

/// The children to cancel are exactly the sub-orchestrations whose futures were
/// given up, each with the event that scheduled it and the instance that runs it.
pub proof fn law_children_are_reported_with_their_instance(
    ctx: &OrchestrationContext,
    children: Vec<(u64, String)>,
    c: (u64, String),
)
    requires
        call_ensures(
            OrchestrationContext::get_cancelled_sub_orchestration_cancellations,
            (ctx,),
            children,
        ),
    ensures
        children@.contains(c) <==> exists|i: int, sub: u64|
            0 <= i < ctx@.cancelled.len() && #[trigger] child_given_up(
                ctx@,
                ctx@.cancelled[i],
                sub,
                c,
            ),
{
    lemma_children_reported(ctx@, ctx@.cancelled.len(), c);
}

/// Disposing of the future of a running sub-orchestration has its instance
/// reported as one to cancel.
pub proof fn law_disposal_cancels_the_child(
    f: DurableFuture,
    ctx: &mut OrchestrationContext,
    after: &OrchestrationContext,
    children: Vec<(u64, String)>,
    sub: u64,
    id: u64,
    instance: String,
)
    requires
        call_ensures(DurableFuture::dispose, (f, ctx), ()),
        after@ == final(ctx)@,
        call_ensures(
            OrchestrationContext::get_cancelled_sub_orchestration_cancellations,
            (after,),
            children,
        ),
        !f@.completed,
        f@.kind == (ScheduleKind::SubOrchestration { token: sub }),
        old(ctx)@.bindings.contains_key(f@.token) && old(ctx)@.bindings[f@.token] == id,
        old(ctx)@.sub_instances.contains_key(sub) && old(ctx)@.sub_instances[sub] == instance,
    ensures
        children@.contains((id, instance)),
{
    let m = after@;
    let c = (id, instance);
    lemma_with_id(old(ctx)@.cancelled, f@.token, f@.token);
    let i = choose|i: int| 0 <= i < m.cancelled.len() && m.cancelled[i] == f@.token;
    assert(child_given_up(m, m.cancelled[i], sub, c));
    lemma_children_reported(m, m.cancelled.len(), c);
}

/// Once the cancelled tokens are cleared, no report has anything.
pub proof fn law_cleared_cancellations_are_gone(
    ctx: &mut OrchestrationContext,
    after: &OrchestrationContext,
    activities: Vec<u64>,
    waits: Vec<u64>,
    dequeues: Vec<u64>,
    children: Vec<(u64, String)>,
)
    requires
        call_ensures(OrchestrationContext::clear_cancelled_tokens, (ctx,), ()),
        after@ == final(ctx)@,
        call_ensures(OrchestrationContext::get_cancelled_activity_ids, (after,), activities),
        call_ensures(OrchestrationContext::get_cancelled_external_wait_ids, (after,), waits),
        call_ensures(OrchestrationContext::get_cancelled_queue_ids, (after,), dequeues),
        call_ensures(
            OrchestrationContext::get_cancelled_sub_orchestration_cancellations,
            (after,),
            children,
        ),
    ensures
        activities@.len() == 0 && waits@.len() == 0 && dequeues@.len() == 0 && children@.len() == 0,
        final(ctx)@.bindings == old(ctx)@.bindings,
        final(ctx)@.results == old(ctx)@.results,
        final(ctx)@.emitted == old(ctx)@.emitted,
{
}

/// Giving work up changes nothing but what is reported: no action is emitted, no
/// result or binding is lost, and a token that was given up before keeps its place.
pub proof fn law_giving_up_leaves_the_rest_alone(
    f: DurableFuture,
    ctx: &mut OrchestrationContext,
    t: u64,
)
    requires
        call_ensures(DurableFuture::dispose, (f, ctx), ()),
    ensures
        final(ctx)@ == (CtxModel {
            cancelled: final(ctx)@.cancelled,
            cancelled_kinds: final(ctx)@.cancelled_kinds,
            ..old(ctx)@
        }),
        final(ctx)@.cancelled.contains(t) <==> old(ctx)@.cancelled.contains(t) || (t == f@.token
            && !f@.completed),
        forall|i: int|
            0 <= i < old(ctx)@.cancelled.len() ==> #[trigger] final(ctx)@.cancelled[i] == old(
                ctx,
            )@.cancelled[i],
        t != f@.token ==> final(ctx)@.cancelled_kinds.contains_key(t) == old(
            ctx,
        )@.cancelled_kinds.contains_key(t) && final(ctx)@.cancelled_kinds[t] == old(
            ctx,
        )@.cancelled_kinds[t],
{
    lemma_with_id(old(ctx)@.cancelled, f@.token, t);
}

} // verus!
