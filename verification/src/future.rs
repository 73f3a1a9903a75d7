//! Handles for scheduled work.
//!
//! A future is polled against the orchestration context, which holds what has
//! been delivered so far. Disposing of one that has not completed cancels the
//! work behind it.
use crate::action::{Action, CompletionResult, ScheduleKind};
use crate::assoc;
use crate::context::{self, CtxModel};
use crate::orchestration::OrchestrationContext;
use vstd::prelude::*;

verus! {

/// Something that can be polled for an output against a context.
pub trait Pollable: View + Sized {
    /// What it completes with.
    type Output;

    /// Whether it may be polled: some may not be once they have completed.
    spec fn can_poll(s: Self::V) -> bool;

    /// The output that a poll gives, if it is ready.
    spec fn outcome(s: Self::V, m: CtxModel) -> Option<Self::Output>;

    /// The future and the context after a poll.
    spec fn after_poll(s: Self::V, m: CtxModel) -> (Self::V, CtxModel);

    /// The context after the future is disposed of.
    spec fn after_dispose(s: Self::V, m: CtxModel) -> CtxModel;

    /// What is not ready may be polled again.
    proof fn lemma_pending(s: Self::V, m: CtxModel)
        requires
            Self::can_poll(s),
            Self::outcome(s, m) is None,
        ensures
            Self::can_poll(Self::after_poll(s, m).0),
    ;

    /// Polls once.
    fn poll(&mut self, ctx: &mut OrchestrationContext) -> (r: Option<Self::Output>)
        requires
            old(ctx).wf(),
            Self::can_poll(old(self)@),
        ensures
            final(ctx).wf(),
            r == Self::outcome(old(self)@, old(ctx)@),
            (final(self)@, final(ctx)@) == Self::after_poll(old(self)@, old(ctx)@),
    ;

    /// Gives the future up. Work that has not completed is cancelled.
    fn dispose(self, ctx: &mut OrchestrationContext)
        requires
            old(ctx).wf(),
        ensures
            final(ctx).wf(),
            final(ctx)@ == Self::after_dispose(self@, old(ctx)@),
    ;
}

/// Where a future finds what completes it.
#[derive(Debug, Clone, Copy, PartialEq, Eq, Structural)]
pub enum Source {
    /// The result of an activity.
    Activity,
    /// The firing of a timer.
    Timer,
    /// A positional external event.
    External,
    /// A queue message.
    Queue,
    /// An external event by topic.
    Topic,
    /// The result of a sub-orchestration.
    SubOrchestration,
}

/// What scheduled work completes with.
#[derive(Debug, PartialEq, Eq)]
pub enum Outcome {
    /// An activity or sub-orchestration finished.
    Finished(Result<String, String>),
    /// A timer fired.
    Fired,
    /// An event or message came.
    Received(String),
}

/// What a [`DurableFuture`] stands for.
pub struct FutureModel {
    /// The token of the action that scheduled the work.
    pub token: u64,
    /// What kind of work it is.
    pub kind: ScheduleKind,
    /// Where its completion is found.
    pub source: Source,
    /// Whether it has completed.
    pub completed: bool,
}

/// A handle for scheduled work.
#[derive(Debug)]
pub struct DurableFuture {
    token: u64,
    kind: ScheduleKind,
    source: Source,
    completed: bool,
}

impl View for DurableFuture {
    type V = FutureModel;

    closed spec fn view(&self) -> FutureModel {
        FutureModel {
            token: self.token,
            kind: self.kind,
            source: self.source,
            completed: self.completed,
        }
    }
}

/// The completion that a result stands for, for work from `source`. A result
/// of another kind does not complete it.
pub open spec fn completion(source: Source, result: CompletionResult) -> Option<Outcome> {
    match (source, result) {
        (Source::Activity, CompletionResult::ActivityOk(s)) => Some(Outcome::Finished(Ok(s))),
        (Source::Activity, CompletionResult::ActivityErr(e)) => Some(Outcome::Finished(Err(e))),
        (Source::Timer, CompletionResult::TimerFired) => Some(Outcome::Fired),
        (Source::SubOrchestration, CompletionResult::SubOrchOk(s)) => Some(
            Outcome::Finished(Ok(s)),
        ),
        (Source::SubOrchestration, CompletionResult::SubOrchErr(e)) => Some(
            Outcome::Finished(Err(e)),
        ),
        _ => None,
    }
}

/// An event or message as the completion of a wait.
pub open spec fn received(data: Option<String>) -> Option<Outcome> {
    match data {
        Some(s) => Some(Outcome::Received(s)),
        None => None,
    }
}

/// What a poll of the future gives: the result delivered to its token, or the
/// event that its bound subscription is matched with.
pub open spec fn future_outcome(f: FutureModel, m: CtxModel) -> Option<Outcome> {
    match f.source {
        Source::Activity | Source::Timer | Source::SubOrchestration => {
            if m.results.contains_key(f.token) {
                completion(f.source, m.results[f.token])
            } else {
                None
            }
        },
        _ => {
            if m.bindings.contains_key(f.token) {
                let id = m.bindings[f.token];
                match f.source {
                    Source::External => received(context::external_data(m, id)),
                    Source::Topic => received(context::topic_data(m, id)),
                    _ => received(context::queue_data(m, id)),
                }
            } else {
                None
            }
        },
    }
}

/// The context after a poll of the future: only taking a queue message
/// changes it.
pub open spec fn context_after_poll(f: FutureModel, m: CtxModel) -> CtxModel {
    if f.source is Queue && m.bindings.contains_key(f.token) {
        context::queue_polled(m, m.bindings[f.token])
    } else {
        m
    }
}

/// The actions with the tag of the one under `token` set.
pub open spec fn tagged(
    emitted: Seq<(u64, Action)>,
    token: u64,
    tag: String,
) -> Seq<(u64, Action)> {
    let i = assoc::position(emitted, token);
    match emitted[i].1 {
        Action::CallActivity { scheduling_event_id, name, input, session_id, .. } => emitted.update(
            i,
            (
                token,
                Action::CallActivity {
                    scheduling_event_id,
                    name,
                    input,
                    session_id,
                    tag: Some(tag),
                },
            ),
        ),
        _ => emitted,
    }
}

/// The activity under `token` is among the emitted actions.
pub open spec fn activity_emitted(emitted: Seq<(u64, Action)>, token: u64) -> bool {
    assoc::has_key(emitted, token) && emitted[assoc::position(emitted, token)].1 is CallActivity
}

impl DurableFuture {
    /// A future for work that was scheduled under `token`.
    pub fn new(token: u64, kind: ScheduleKind, source: Source) -> (r: Self)
        ensures
            r@ == (FutureModel { token, kind, source, completed: false }),
    {
        DurableFuture { token, kind, source, completed: false }
    }

    /// The token of the action that scheduled the work.
    pub fn token(&self) -> (r: u64)
        ensures
            r == self@.token,
    {
        self.token
    }

    /// Whether the future has completed.
    pub fn is_completed(&self) -> (r: bool)
        ensures
            r == self@.completed,
    {
        self.completed
    }

    /// Sets the routing tag of the scheduled activity, whose action must not
    /// have been drained.
    pub fn with_tag(self, ctx: &mut OrchestrationContext, tag: String) -> (r: Self)
        requires
            old(ctx).wf(),
            self@.kind is Activity,
            activity_emitted(old(ctx)@.emitted, self@.token),
        ensures
            final(ctx).wf(),
            r@ == self@,
            final(ctx)@ == (CtxModel {
                emitted: tagged(old(ctx)@.emitted, self@.token, tag),
                ..old(ctx)@
            }),
    {
        ctx.set_activity_tag(self.token, tag);
        self
    }
}

impl Pollable for DurableFuture {
    type Output = Outcome;

    open spec fn can_poll(s: FutureModel) -> bool {
        true
    }

    open spec fn outcome(s: FutureModel, m: CtxModel) -> Option<Outcome> {
        future_outcome(s, m)
    }

    open spec fn after_poll(s: FutureModel, m: CtxModel) -> (FutureModel, CtxModel) {
        (
            FutureModel { completed: s.completed || future_outcome(s, m) is Some, ..s },
            context_after_poll(s, m),
        )
    }

    open spec fn after_dispose(s: FutureModel, m: CtxModel) -> CtxModel {
        if s.completed {
            m
        } else {
            context::token_cancelled(m, s.token, s.kind)
        }
    }

    proof fn lemma_pending(s: FutureModel, m: CtxModel) {
    }

    fn poll(&mut self, ctx: &mut OrchestrationContext) -> (r: Option<Outcome>) {
        let r = ctx.poll_source(self.token, self.source);
        if r.is_some() {
            self.completed = true;
        }
        r
    }

    fn dispose(self, ctx: &mut OrchestrationContext) {
        if !self.completed {
            ctx.mark_token_cancelled(self.token, &self.kind);
        }
    }
}

/// What a mapped future stands for: the future inside, and the function that its
/// output goes through.
pub struct MappedModel<S, G> {
    pub inner: S,
    pub map: G,
}

/// A future whose output goes through a function.
///
/// It keeps the identity of the one inside: disposing of it cancels the same
/// work, and it can be joined and raced like any other.
pub struct MappedFuture<F: Pollable, G, U> {
    inner: F,
    map: G,
    output: std::marker::PhantomData<U>,
}

impl<F: Pollable, G: Fn(F::Output) -> U, U> View for MappedFuture<F, G, U> {
    type V = MappedModel<F::V, G>;

    closed spec fn view(&self) -> MappedModel<F::V, G> {
        MappedModel { inner: self.inner@, map: self.map }
    }
}

/// The function can be called on everything, and gives one result for each.
pub open spec fn is_mapping<T, U, G: Fn(T) -> U>(g: G) -> bool {
    &&& forall|x: T| #[trigger] call_requires(g, (x,))
    &&& forall|x: T, y: U, z: U| #[trigger]
        call_ensures(g, (x,), y) && #[trigger] call_ensures(g, (x,), z) ==> y == z
}

/// What a function makes of `x`.
pub open spec fn image<T, U, G: Fn(T) -> U>(g: G, x: T) -> U {
    choose|y: U| call_ensures(g, (x,), y)
}

impl<F: Pollable, G: Fn(F::Output) -> U, U> MappedFuture<F, G, U> {
    /// Sends the output of `inner` through `map`.
    pub fn new(inner: F, map: G) -> (r: Self)
        ensures
            r@ == (MappedModel { inner: inner@, map }),
    {
        MappedFuture { inner, map, output: std::marker::PhantomData }
    }
}

impl<F: Pollable, G: Fn(F::Output) -> U, U> Pollable for MappedFuture<F, G, U> {
    type Output = U;

    open spec fn can_poll(s: MappedModel<F::V, G>) -> bool {
        F::can_poll(s.inner) && is_mapping::<F::Output, U, G>(s.map)
    }

    open spec fn outcome(s: MappedModel<F::V, G>, m: CtxModel) -> Option<U> {
        match F::outcome(s.inner, m) {
            Some(x) => Some(image::<F::Output, U, G>(s.map, x)),
            None => None,
        }
    }

    open spec fn after_poll(s: MappedModel<F::V, G>, m: CtxModel) -> (
        MappedModel<F::V, G>,
        CtxModel,
    ) {
        let (f, n) = F::after_poll(s.inner, m);
        (MappedModel { inner: f, map: s.map }, n)
    }

    open spec fn after_dispose(s: MappedModel<F::V, G>, m: CtxModel) -> CtxModel {
        F::after_dispose(s.inner, m)
    }

    proof fn lemma_pending(s: MappedModel<F::V, G>, m: CtxModel) {
        F::lemma_pending(s.inner, m);
    }

    fn poll(&mut self, ctx: &mut OrchestrationContext) -> (r: Option<U>) {
        match self.inner.poll(ctx) {
            Some(x) => {
                assert(call_requires(self.map, (x,)));
                let y = (self.map)(x);
                assert(call_ensures(self.map, (x,), y));
                Some(y)
            },
            None => None,
        }
    }

    fn dispose(self, ctx: &mut OrchestrationContext) {
        self.inner.dispose(ctx);
    }
}

impl DurableFuture {
    /// Sends the output through `f`. Giving the new future up cancels the work
    /// behind this one.
    pub fn map<U, G: Fn(Outcome) -> U>(self, f: G) -> (r: MappedFuture<DurableFuture, G, U>)
        ensures
            r@ == (MappedModel { inner: self@, map: f }),
    {
        MappedFuture::new(self, f)
    }
}

/// Polls once. What is ready is disposed of and its output handed out; what is
/// not is handed back.
pub fn settle<F: Pollable>(future: F, ctx: &mut OrchestrationContext) -> (r: Result<F::Output, F>)
    requires
        old(ctx).wf(),
        F::can_poll(future@),
    ensures
        final(ctx).wf(),
        match F::outcome(future@, old(ctx)@) {
            Some(o) => {
                let (f, m) = F::after_poll(future@, old(ctx)@);
                r == Ok::<F::Output, F>(o) && final(ctx)@ == F::after_dispose(f, m)
            },
            None => r matches Err(f) && (f@, final(ctx)@) == F::after_poll(future@, old(ctx)@)
                && F::can_poll(f@),
        },
{
    let mut f = future;
    let ghost m0 = ctx@;
    match f.poll(ctx) {
        Some(o) => {
            f.dispose(ctx);
            Ok(o)
        },
        None => {
            proof {
                F::lemma_pending(future@, m0);
            }
            Err(f)
        },
    }
}

/// A mapped future is ready exactly when the one inside is, and giving it up
/// cancels what the one inside would cancel.
pub proof fn law_mapping_keeps_the_identity<F: Pollable, G: Fn(F::Output) -> U, U>(
    s: MappedModel<F::V, G>,
    m: CtxModel,
)
    ensures
        MappedFuture::<F, G, U>::outcome(s, m) is Some <==> F::outcome(s.inner, m) is Some,
        MappedFuture::<F, G, U>::after_poll(s, m).1 == F::after_poll(s.inner, m).1,
        MappedFuture::<F, G, U>::after_dispose(s, m) == F::after_dispose(s.inner, m),
{
}

/// A result that was delivered to a token completes the future of that token,
/// when it is of the kind that the future waits for.
pub proof fn law_delivered_result_completes(
    f: FutureModel,
    m: CtxModel,
    result: CompletionResult,
)
    requires
        completion(f.source, result) is Some,
    ensures
        future_outcome(f, CtxModel { results: m.results.insert(f.token, result), ..m })
            == completion(f.source, result),
{
}

/// Disposing of a completed future changes nothing; disposing of another one
/// puts its token among the cancelled ones.
pub proof fn law_only_unfinished_work_is_cancelled(f: FutureModel, m: CtxModel)
    ensures
        f.completed ==> DurableFuture::after_dispose(f, m) == m,
        !f.completed ==> DurableFuture::after_dispose(f, m).cancelled.contains(f.token)
            && DurableFuture::after_dispose(f, m).cancelled_kinds[f.token] == f.kind,
{
    if !f.completed && !m.cancelled.contains(f.token) {
        let after = DurableFuture::after_dispose(f, m).cancelled;
        assert(after[after.len() - 1] == f.token);
    }
}

/// A wait for an event never completes before its token is bound.
pub proof fn law_unbound_waits_are_pending(f: FutureModel, m: CtxModel)
    requires
        f.source is External || f.source is Queue || f.source is Topic,
        !m.bindings.contains_key(f.token),
    ensures
        future_outcome(f, m) is None,
        context_after_poll(f, m) == m,
{
}

/// Polling is repeatable: except for a queue message, which is taken, a second
/// poll gives what the first gave.
pub proof fn law_polling_again_gives_the_same(f: FutureModel, m: CtxModel)
    requires
        !(f.source is Queue),
    ensures
        ({
            let (f1, m1) = DurableFuture::after_poll(f, m);
            future_outcome(f1, m1) == future_outcome(f, m)
        }),
{
}

/// A queue message is taken once: a second poll of the same future gives
/// nothing.
pub proof fn law_queue_message_is_taken_once(f: FutureModel, m: CtxModel)
    requires
        f.source is Queue,
        future_outcome(f, m) is Some,
    ensures
        ({
            let (f1, m1) = DurableFuture::after_poll(f, m);
            future_outcome(f1, m1) is None
        }),
{
}

/// What awaits the end of an execution that continues as new. It is pending on
/// every poll: the execution is over, and nothing after it runs.
#[derive(Debug)]
pub struct ContinueAsNewFuture;

impl View for ContinueAsNewFuture {
    type V = ();

    open spec fn view(&self) -> () {
        ()
    }
}

impl Pollable for ContinueAsNewFuture {
    type Output = Result<String, String>;

    open spec fn can_poll(s: ()) -> bool {
        true
    }

    open spec fn outcome(s: (), m: CtxModel) -> Option<Result<String, String>> {
        None
    }

    open spec fn after_poll(s: (), m: CtxModel) -> ((), CtxModel) {
        (s, m)
    }

    open spec fn after_dispose(s: (), m: CtxModel) -> CtxModel {
        m
    }

    proof fn lemma_pending(s: (), m: CtxModel) {
    }

    fn poll(&mut self, _ctx: &mut OrchestrationContext) -> (r: Option<Result<String, String>>) {
        None
    }

    fn dispose(self, _ctx: &mut OrchestrationContext) {
    }
}

/// An execution that continues as new never gets past that point: on every
/// context the future is pending, and polling it leaves the context as it is.
pub proof fn law_continuing_as_new_never_completes(s: (), m: CtxModel)
    ensures
        ContinueAsNewFuture::can_poll(s),
        ContinueAsNewFuture::outcome(s, m) is None,
        ContinueAsNewFuture::after_poll(s, m) == (s, m),
{
}

/// What a poll gives to work that is completed by a result: exactly what was
/// delivered to its own token, if it is of the kind that the work ends with. The
/// future remembers that it completed, keeps its identity, and changes nothing in
/// the context.
pub proof fn law_a_poll_gives_what_was_delivered(
    f: &mut DurableFuture,
    ctx: &mut OrchestrationContext,
    r: Option<Outcome>,
)
    requires
        call_ensures(DurableFuture::poll, (f, ctx), r),
        old(f)@.source is Activity || old(f)@.source is Timer || old(f)@.source is SubOrchestration,
    ensures
        !old(ctx)@.results.contains_key(old(f)@.token) ==> r is None,
        old(ctx)@.results.contains_key(old(f)@.token) ==> match (
            old(f)@.source,
            old(ctx)@.results[old(f)@.token],
        ) {
            (Source::Activity, CompletionResult::ActivityOk(s)) => r == Some(
                Outcome::Finished(Ok(s)),
            ),
            (Source::Activity, CompletionResult::ActivityErr(e)) => r == Some(
                Outcome::Finished(Err(e)),
            ),
            (Source::Timer, CompletionResult::TimerFired) => r == Some(Outcome::Fired),
            (Source::SubOrchestration, CompletionResult::SubOrchOk(s)) => r == Some(
                Outcome::Finished(Ok(s)),
            ),
            (Source::SubOrchestration, CompletionResult::SubOrchErr(e)) => r == Some(
                Outcome::Finished(Err(e)),
            ),
            _ => r is None,
        },
        final(ctx)@ == old(ctx)@,
        final(f)@.completed <==> old(f)@.completed || r is Some,
        final(f)@.token == old(f)@.token,
        final(f)@.kind == old(f)@.kind,
        final(f)@.source == old(f)@.source,
        DurableFuture::can_poll(old(f)@),
{
}

/// What a poll gives to a wait: once its token is bound, what the context has for
/// the subscription that it is bound to, by name, by topic or from the queue; a
/// message of a queue is taken with it. Before that nothing, and nothing changes.
pub proof fn law_a_wait_gives_what_its_subscription_has(
    f: &mut DurableFuture,
    ctx: &mut OrchestrationContext,
    r: Option<Outcome>,
    id: u64,
    before: &context::CtxInner,
    asked: &mut context::CtxInner,
    by_name: Option<String>,
    by_topic: Option<String>,
    message: Option<String>,
)
    requires
        call_ensures(DurableFuture::poll, (f, ctx), r),
        before@ == old(ctx)@,
        old(asked)@ == old(ctx)@,
        call_ensures(context::CtxInner::get_external_event, (before, id), by_name),
        call_ensures(context::CtxInner::get_external_event2, (before, id), by_topic),
        call_ensures(context::CtxInner::get_queue_message, (asked, id), message),
        old(f)@.source is External || old(f)@.source is Topic || old(f)@.source is Queue,
        old(ctx)@.bindings.contains_key(old(f)@.token) ==> old(ctx)@.bindings[old(f)@.token] == id,
    ensures
        old(ctx)@.bindings.contains_key(old(f)@.token) ==> {
            let data = match old(f)@.source {
                Source::External => by_name,
                Source::Topic => by_topic,
                _ => message,
            };
            &&& data matches Some(s) ==> r == Some(Outcome::Received(s))
            &&& data is None ==> r is None
            &&& old(f)@.source is Queue ==> final(ctx)@ == final(asked)@
            &&& !(old(f)@.source is Queue) ==> final(ctx)@ == old(ctx)@
        },
        !old(ctx)@.bindings.contains_key(old(f)@.token) ==> r is None && final(ctx)@ == old(ctx)@,
        final(f)@.completed <==> old(f)@.completed || r is Some,
        final(f)@.token == old(f)@.token,
        final(f)@.kind == old(f)@.kind,
        final(f)@.source == old(f)@.source,
{
}

/// A tag reaches the activity that it is meant for, whose other properties stay,
/// and no other action.
pub proof fn law_a_tag_reaches_its_activity(
    f: DurableFuture,
    ctx: &mut OrchestrationContext,
    tag: String,
    r: DurableFuture,
    k: int,
    i: int,
)
    requires
        call_ensures(DurableFuture::with_tag, (f, ctx, tag), r),
        context::model_wf(old(ctx)@),
        0 <= k < old(ctx)@.emitted.len(),
        old(ctx)@.emitted[k].0 == f@.token,
        old(ctx)@.emitted[k].1 is CallActivity,
        0 <= i < old(ctx)@.emitted.len(),
    ensures
        r@ == f@,
        final(ctx)@.emitted.len() == old(ctx)@.emitted.len(),
        final(ctx)@.emitted[i].0 == old(ctx)@.emitted[i].0,
        old(ctx)@.emitted[i].0 != f@.token ==> final(ctx)@.emitted[i] == old(ctx)@.emitted[i],
        old(ctx)@.emitted[i].0 == f@.token ==> match (
            old(ctx)@.emitted[i].1,
            final(ctx)@.emitted[i].1,
        ) {
            (
                Action::CallActivity {
                    scheduling_event_id: e0,
                    name: n0,
                    input: i0,
                    session_id: s0,
                    tag: _,
                },
                Action::CallActivity {
                    scheduling_event_id: e1,
                    name: n1,
                    input: i1,
                    session_id: s1,
                    tag: t1,
                },
            ) => e1 == e0 && n1 == n0 && i1 == i0 && s1 == s0 && t1 == Some(tag),
            (Action::CallActivity { .. }, _) => false,
            (a, b) => b == a,
        },
        final(ctx)@ == (CtxModel { emitted: final(ctx)@.emitted, ..old(ctx)@ }),
{
    let e = old(ctx)@.emitted;
    assert(e[k].0@ == f@.token);
    let p = assoc::position(e, f@.token);
    assert(e[p].0@ == f@.token);
    if p < k {
        assert(e[p].0 < e[k].0);
    } else if k < p {
        assert(e[k].0 < e[p].0);
    }
    if i < k {
        assert(e[i].0 < e[k].0);
    } else if k < i {
        assert(e[k].0 < e[i].0);
    }
}

/// A mapped future is ready when the one inside is, and gives what the function
/// makes of that output.
pub proof fn law_a_mapped_output_went_through_the_function<F: Pollable, G: Fn(F::Output) -> U, U>(
    s: MappedModel<F::V, G>,
    m: CtxModel,
    x: F::Output,
    y: U,
)
    requires
        F::can_poll(s.inner),
        is_mapping::<F::Output, U, G>(s.map),
        F::outcome(s.inner, m) == Some(x),
        call_ensures(s.map, (x,), y),
    ensures
        MappedFuture::<F, G, U>::can_poll(s),
        MappedFuture::<F, G, U>::outcome(s, m) == Some(y),
        MappedFuture::<F, G, U>::after_poll(s, m).0.inner == F::after_poll(s.inner, m).0,
        MappedFuture::<F, G, U>::after_poll(s, m).0.map == s.map,
{
}

/// Settling hands out the output of what is ready and gives the future up; what is
/// not ready is handed back as the poll left it.
pub proof fn law_settling_hands_out_or_hands_back<F: Pollable>(
    f: F,
    ctx: &mut OrchestrationContext,
    r: Result<F::Output, F>,
)
    requires
        call_ensures(settle::<F>, (f, ctx), r),
    ensures
        ({
            let (g, m) = F::after_poll(f@, old(ctx)@);
            match r {
                Ok(o) => F::outcome(f@, old(ctx)@) == Some(o) && final(ctx)@ == F::after_dispose(
                    g,
                    m,
                ),
                Err(h) => F::outcome(f@, old(ctx)@) is None && h@ == g && final(ctx)@ == m,
            }
        }),
{
}

/// A future stands for the work of its token, and has not completed when it is
/// made.
pub proof fn law_a_future_stands_for_its_token(
    token: u64,
    kind: ScheduleKind,
    source: Source,
    f: DurableFuture,
    t: u64,
    done: bool,
)
    requires
        call_ensures(DurableFuture::new, (token, kind, source), f),
        call_ensures(DurableFuture::token, (&f,), t),
        call_ensures(DurableFuture::is_completed, (&f,), done),
    ensures
        t == token,
        !done,
        f@.kind == kind && f@.source == source,
{
}

} // verus!
