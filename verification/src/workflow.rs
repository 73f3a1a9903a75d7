//! Orchestrations written as state machines, and what runs them against a
//! context.
//!
//! A workflow says what it waits for next: a batch of activities, a batch of
//! sub-orchestrations, or nothing more because it is at its end. Its execution
//! schedules the batch, joins it, and hands the results back.
use crate::action::{Action, CompletionResult};
use crate::combinators::{self, JoinModel, PollAllJoin};
use crate::context::{self, CtxModel};
use crate::future::{self, DurableFuture, FutureModel, Outcome, Pollable, Source};
use crate::orchestration::{self, OrchestrationContext};
use crate::trace::{self, TraceEntry, TraceLevel};
use vstd::prelude::*;

verus! {

/// The kind of work that a workflow waits for.
#[derive(Debug, Clone, Copy, PartialEq, Eq, Structural)]
pub enum Work {
    Activity,
    SubOrchestration,
}

/// What a workflow does next.
#[derive(Debug)]
pub enum Step {
    /// Schedule work of this name for each of the inputs, in their order, and
    /// wait for all of it.
    Await { work: Work, name: &'static str, inputs: Vec<String> },
    /// Schedule activities of this name for each of the inputs, in their order,
    /// give all of them up, and end with this failure.
    Abandon { name: &'static str, inputs: Vec<String>, failure: String },
    /// End with this result.
    Finish(Result<String, String>),
}

/// An orchestration as a state machine. What it does depends on its view.
pub trait Workflow: View + Sized {
    /// The invariant of the state.
    spec fn valid(w: Self::V) -> bool;

    /// `step` is what the workflow does next.
    spec fn is_next(w: Self::V, step: Step) -> bool;

    /// The workflow waits for work that gives this many results.
    spec fn awaits(w: Self::V, n: nat) -> bool;

    /// The state after the awaited work has given these results.
    spec fn resumed(w: Self::V, results: Seq<Result<String, String>>) -> Self::V;

    /// A bound on how often the workflow still waits.
    spec fn waits_left(w: Self::V) -> nat;

    /// What comes next.
    fn next_step(&self) -> (r: Step)
        requires
            Self::valid(self@),
        ensures
            Self::is_next(self@, r),
            r matches Step::Await { inputs, .. } ==> Self::awaits(self@, inputs@.len()),
    ;

    /// Takes the results of the work that was waited for.
    fn resume(&mut self, results: Vec<Result<String, String>>)
        requires
            Self::valid(old(self)@),
            Self::awaits(old(self)@, results@.len()),
        ensures
            Self::valid(final(self)@),
            final(self)@ == Self::resumed(old(self)@, results@),
            Self::waits_left(final(self)@) < Self::waits_left(old(self)@),
    ;
}

/// Work was scheduled: `after` is `before` with one more action, and `f` stands
/// for the work.
pub open spec fn one_scheduled(
    work: Work,
    before: CtxModel,
    after: CtxModel,
    name: String,
    input: String,
    f: FutureModel,
) -> bool {
    match work {
        Work::Activity => {
            &&& after == context::emitted(before, orchestration::activity_action(name, input, None))
            &&& f == orchestration::activity_future(before, name)
        },
        Work::SubOrchestration => {
            &&& orchestration::sub_scheduled(before, after, name, None, None, input)
            &&& f == orchestration::sub_future(before)
        },
    }
}

/// The futures stand for work that was scheduled for each of the inputs in
/// order, through the contexts `states`.
pub open spec fn scheduled_through(
    work: Work,
    states: Seq<CtxModel>,
    name: String,
    inputs: Seq<String>,
    futures: Seq<FutureModel>,
) -> bool {
    &&& states.len() == inputs.len() + 1
    &&& futures.len() == inputs.len()
    &&& forall|i: int|
        #![trigger futures[i]]
        0 <= i < inputs.len() ==> one_scheduled(
            work,
            states[i],
            states[i + 1],
            name,
            inputs[i],
            futures[i],
        )
}

/// The futures stand for work that was scheduled for each of the inputs in
/// order, which took the context from `before` to `after`.
pub open spec fn all_scheduled(
    work: Work,
    before: CtxModel,
    after: CtxModel,
    name: Seq<char>,
    inputs: Seq<String>,
    futures: Seq<FutureModel>,
) -> bool {
    exists|states: Seq<CtxModel>, n: String| #[trigger]
        scheduled_through(work, states, n, inputs, futures) && n@ == name && states[0] == before
            && states.last() == after
}

/// The views of futures.
pub open spec fn views(futures: Seq<DurableFuture>) -> Seq<FutureModel> {
    futures.map_values(|f: DurableFuture| f@)
}

/// Schedules work for each of the inputs, in their order.
pub fn schedule_all(
    ctx: &mut OrchestrationContext,
    work: Work,
    name: &str,
    inputs: Vec<String>,
) -> (r: Vec<DurableFuture>)
    requires
        old(ctx).wf(),
        old(ctx)@.next_token + inputs@.len() <= u64::MAX,
    ensures
        final(ctx).wf(),
        all_scheduled(work, old(ctx)@, final(ctx)@, name@, inputs@, views(r@)),
{
    let name: String = name.to_string();
    let mut futures: Vec<DurableFuture> = Vec::new();
    let ghost mut states: Seq<CtxModel> = seq![ctx@];
    let ghost m = ctx@;
    let mut i: usize = 0;
    while i < inputs.len()
        invariant
            ctx.wf(),
            i <= inputs@.len(),
            m.next_token + inputs@.len() <= u64::MAX,
            ctx@.next_token == m.next_token + i,
            futures@.len() == i,
            states.len() == i + 1,
            states[0] == m,
            states[i as int] == ctx@,
            scheduled_through(work, states, name, inputs@.take(i as int), views(futures@)),
        decreases inputs@.len() - i,
    {
        let input = inputs[i].clone();
        let future = match work {
            Work::Activity => ctx.schedule_activity(name.clone(), input),
            Work::SubOrchestration => ctx.schedule_sub_orchestration(name.clone(), input),
        };
        let ghost before = futures@;
        let ghost states_before = states;
        futures.push(future);
        proof {
            states = states.push(ctx@);
            let taken = inputs@.take(i + 1);
            let done = views(futures@);
            assert forall|k: int|
                #![trigger done[k]]
                0 <= k < taken.len() implies one_scheduled(
                work,
                states[k],
                states[k + 1],
                name,
                taken[k],
                done[k],
            ) by {
                if k < i {
                    assert(done[k] == views(before)[k]);
                    assert(taken[k] == inputs@.take(i as int)[k]);
                }
            }
        }
        i += 1;
    }
    assert(inputs@.take(i as int) =~= inputs@);
    futures
}

/// What is awaited gives results: every future that runs waits for one, and
/// every output so far is one.
pub open spec fn gives_results(j: JoinModel<FutureModel, Outcome>) -> bool {
    &&& forall|i: int|
        0 <= i < j.futures.len() ==> ((#[trigger] j.futures[i]) matches Some(f)
            ==> f.source is Activity || f.source is SubOrchestration)
    &&& forall|i: int|
        0 <= i < j.outputs.len() ==> ((#[trigger] j.outputs[i]) matches Some(o)
            ==> o is Finished)
}

/// The results among outputs.
pub open spec fn results_of(outputs: Seq<Option<Outcome>>) -> Seq<Result<String, String>> {
    outputs.map_values(|o: Option<Outcome>| o->0->Finished_0)
}

proof fn lemma_polling_gives_results(
    j: JoinModel<FutureModel, Outcome>,
    m: CtxModel,
    n: nat,
)
    requires
        gives_results(j),
        j.futures.len() == j.outputs.len(),
        n <= j.futures.len(),
    ensures
        ({
            let (k, _) = combinators::slots_polled::<DurableFuture>(j, m, n);
            gives_results(k) && k.futures.len() == j.futures.len() && k.outputs.len()
                == j.outputs.len()
        }),
    decreases n,
{
    if n > 0 {
        lemma_polling_gives_results(j, m, (n - 1) as nat);
        let (j1, m1) = combinators::slots_polled::<DurableFuture>(j, m, (n - 1) as nat);
        let (j2, _) = combinators::slot_polled::<DurableFuture>(j1, m1, n - 1);
        if let Some(f) = j1.futures[n - 1] {
            if let Some(o) = future::future_outcome(f, m1) {
                assert(o is Finished);
                assert forall|i: int| 0 <= i < j2.outputs.len() implies ((
                #[trigger] j2.outputs[i]) matches Some(p) ==> p is Finished) by {
                    if i != n - 1 {
                        assert(j2.outputs[i] == j1.outputs[i]);
                    }
                }
                assert forall|i: int| 0 <= i < j2.futures.len() implies ((
                #[trigger] j2.futures[i]) matches Some(g) ==> g.source is Activity
                    || g.source is SubOrchestration) by {
                    if i != n - 1 {
                        assert(j2.futures[i] == j1.futures[i]);
                    }
                }
            } else {
                assert forall|i: int| 0 <= i < j2.futures.len() implies ((
                #[trigger] j2.futures[i]) matches Some(g) ==> g.source is Activity
                    || g.source is SubOrchestration) by {
                    if i != n - 1 {
                        assert(j2.futures[i] == j1.futures[i]);
                    }
                }
            }
        }
    }
}

/// How far an execution came.
#[derive(Debug)]
pub enum Progress {
    /// It went on by one step.
    Advanced,
    /// The work that it waits for is not over.
    Waiting,
    /// It is at its end.
    Finished(Result<String, String>),
    /// There are fewer tokens left than it has work to schedule.
    OutOfTokens,
}

/// What an execution stands for.
pub struct ExecutionModel<S> {
    /// The state of the workflow.
    pub workflow: S,
    /// The work that is waited for.
    pub awaiting: Option<JoinModel<FutureModel, Outcome>>,
}

/// A join that waits for fresh futures.
pub open spec fn fresh_join(futures: Seq<FutureModel>) -> JoinModel<FutureModel, Outcome> {
    JoinModel {
        futures: futures.map_values(|f: FutureModel| Some(f)),
        outputs: Seq::new(futures.len(), |i: int| None::<Outcome>),
    }
}

/// One step took an execution and its context from `(a, m)` to `(b, n)`.
pub open spec fn stepped<W: Workflow>(
    a: ExecutionModel<W::V>,
    m: CtxModel,
    b: ExecutionModel<W::V>,
    n: CtxModel,
    p: Progress,
) -> bool {
    match a.awaiting {
        None => exists|step: Step| #[trigger]
            W::is_next(a.workflow, step) && b.workflow == a.workflow && match step {
                Step::Finish(result) => p == Progress::Finished(result) && b == a && n == m,
                Step::Abandon { name, inputs, failure } => b == a && if m.next_token + inputs@.len()
                    > u64::MAX {
                    p is OutOfTokens && n == m
                } else {
                    p == Progress::Finished(Err(failure)) && exists|
                        futures: Seq<FutureModel>,
                        scheduled: CtxModel,
                    | #[trigger]
                        all_scheduled(Work::Activity, m, scheduled, name@, inputs@, futures) && n
                            == combinators::slots_disposed::<DurableFuture>(
                            fresh_join(futures).futures,
                            scheduled,
                            futures.len(),
                        )
                },
                Step::Await { work, name, inputs } => if m.next_token + inputs@.len() > u64::MAX {
                    p is OutOfTokens && b == a && n == m
                } else {
                    p is Advanced && exists|futures: Seq<FutureModel>| #[trigger]
                        all_scheduled(work, m, n, name@, inputs@, futures) && b.awaiting == Some(
                            fresh_join(futures),
                        )
                },
            },
        Some(j) => {
            let (k, after) = combinators::slots_polled::<DurableFuture>(j, m, j.futures.len());
            &&& n == after
            &&& if combinators::all_done(k) {
                &&& p is Advanced
                &&& b.workflow == W::resumed(a.workflow, results_of(k.outputs))
                &&& b.awaiting is None
            } else {
                &&& p is Waiting
                &&& b.workflow == a.workflow
                &&& b.awaiting == Some(k)
            }
        },
    }
}

/// A state of an execution and its context.
pub struct Moment<S> {
    pub execution: ExecutionModel<S>,
    pub ctx: CtxModel,
}

/// The moments follow one another step by step.
pub open spec fn is_path<W: Workflow>(path: Seq<Moment<W::V>>) -> bool {
    &&& path.len() > 0
    &&& forall|i: int|
        #![trigger path[i]]
        0 <= i < path.len() - 1 ==> stepped::<W>(
            path[i].execution,
            path[i].ctx,
            path[i + 1].execution,
            path[i + 1].ctx,
            Progress::Advanced,
        )
}

/// An execution went on as far as it could, to `(b, n)`.
pub open spec fn ran<W: Workflow>(
    a: ExecutionModel<W::V>,
    m: CtxModel,
    b: ExecutionModel<W::V>,
    n: CtxModel,
    p: Progress,
) -> bool {
    exists|path: Seq<Moment<W::V>>| #[trigger]
        is_path::<W>(path) && path[0].execution == a && path[0].ctx == m && !(p is Advanced)
            && stepped::<W>(path.last().execution, path.last().ctx, b, n, p)
}

/// A workflow that runs against a context.
pub struct Execution<W: Workflow> {
    workflow: W,
    awaiting: Option<PollAllJoin<DurableFuture>>,
}

impl<W: Workflow> View for Execution<W> {
    type V = ExecutionModel<W::V>;

    closed spec fn view(&self) -> ExecutionModel<W::V> {
        ExecutionModel {
            workflow: self.workflow@,
            awaiting: match self.awaiting {
                Some(j) => Some(j@),
                None => None,
            },
        }
    }
}

/// Takes the results out of outputs.
fn take_results(outputs: Vec<Outcome>) -> (r: Vec<Result<String, String>>)
    requires
        forall|i: int| 0 <= i < outputs@.len() ==> (#[trigger] outputs@[i]) is Finished,
    ensures
        r@ == outputs@.map_values(|o: Outcome| o->Finished_0),
{
    let ghost all = outputs@;
    let mut results: Vec<Result<String, String>> = Vec::new();
    for o in it: outputs
        invariant
            it.seq() == all,
            results@.len() == it.index(),
            forall|i: int| 0 <= i < all.len() ==> (#[trigger] all[i]) is Finished,
            forall|k: int|
                0 <= k < it.index() ==> #[trigger] results@[k] == all[k]->Finished_0,
    {
        assert(all[it.index() as int] is Finished);
        if let Outcome::Finished(result) = o {
            results.push(result);
        }
    }
    assert(results@ =~= all.map_values(|o: Outcome| o->Finished_0));
    results
}

impl<W: Workflow> Execution<W> {
    /// The invariant of an execution.
    pub closed spec fn wf(&self) -> bool {
        &&& W::valid(self.workflow@)
        &&& self.awaiting matches Some(j) ==> {
            &&& j.wf()
            &&& combinators::outputs_in_place(j@)
            &&& gives_results(j@)
            &&& W::awaits(self.workflow@, j@.futures.len())
        }
    }

    /// An execution that starts.
    pub fn new(workflow: W) -> (r: Self)
        requires
            W::valid(workflow@),
        ensures
            r.wf(),
            r@ == (ExecutionModel { workflow: workflow@, awaiting: None }),
    {
        Execution { workflow, awaiting: None }
    }

    /// Goes on by one step: schedules what comes next, or polls what is
    /// awaited.
    pub fn advance(&mut self, ctx: &mut OrchestrationContext) -> (r: Progress)
        requires
            old(self).wf(),
            old(ctx).wf(),
        ensures
            final(self).wf(),
            final(ctx).wf(),
            stepped::<W>(old(self)@, old(ctx)@, final(self)@, final(ctx)@, r),
            r is Advanced ==> W::waits_left(final(self)@.workflow) < W::waits_left(
                old(self)@.workflow,
            ) || W::waits_left(final(self)@.workflow) == W::waits_left(old(self)@.workflow)
                && old(self)@.awaiting is None && final(self)@.awaiting is Some,
    {
        let ghost m = ctx@;
        let ghost start = self@;
        let mut awaiting: Option<PollAllJoin<DurableFuture>> = None;
        std::mem::swap(&mut awaiting, &mut self.awaiting);
        match awaiting {
            None => {
                let step = self.workflow.next_step();
                let ghost shown = step;
                assert(W::is_next(start.workflow, shown));
                match step {
                    Step::Finish(result) => Progress::Finished(result),
                    Step::Abandon { name, inputs, failure } => {
                        if ctx.tokens_left() < inputs.len() as u64 {
                            return Progress::OutOfTokens;
                        }
                        let futures = schedule_all(ctx, Work::Activity, name, inputs);
                        let ghost models = views(futures@);
                        let ghost scheduled = ctx@;
                        let join = ctx.join(futures);
                        proof {
                            assert(join@ =~= fresh_join(models));
                            assert(all_scheduled(
                                Work::Activity,
                                m,
                                scheduled,
                                name@,
                                inputs@,
                                models,
                            ));
                        }
                        join.dispose(ctx);
                        Progress::Finished(Err(failure))
                    },
                    Step::Await { work, name, inputs } => {
                        if ctx.tokens_left() < inputs.len() as u64 {
                            return Progress::OutOfTokens;
                        }
                        let futures = schedule_all(ctx, work, name, inputs);
                        let ghost models = views(futures@);
                        let join = ctx.join(futures);
                        proof {
                            assert(join@ =~= fresh_join(models));
                            let (states, n) = choose|states: Seq<CtxModel>, n: String|
                                #[trigger] scheduled_through(work, states, n, inputs@, models)
                                    && n@ == name@ && states[0] == m && states.last() == ctx@;
                            assert forall|i: int| 0 <= i < join@.futures.len() implies ((
                            #[trigger] join@.futures[i]) matches Some(f) ==> f.source is Activity
                                || f.source is SubOrchestration) by {
                                assert(join@.futures[i] == Some(models[i]));
                                assert(one_scheduled(
                                    work,
                                    states[i],
                                    states[i + 1],
                                    n,
                                    inputs@[i],
                                    models[i],
                                ));
                            }
                        }
                        self.awaiting = Some(join);
                        Progress::Advanced
                    },
                }
            },
            Some(mut join) => {
                let ghost before = join@;
                proof {
                    lemma_polling_gives_results(before, m, before.futures.len());
                    if before.futures.len() > 0 {
                        combinators::law_join_keeps_the_order_of_futures::<DurableFuture>(
                            before,
                            m,
                            before.futures.len(),
                            0,
                        );
                    }
                }
                match join.poll(ctx) {
                    None => {
                        self.awaiting = Some(join);
                        Progress::Waiting
                    },
                    Some(outputs) => {
                        proof {
                            let (k, _) = combinators::slots_polled::<DurableFuture>(
                                before,
                                m,
                                before.futures.len(),
                            );
                            assert(outputs@.map_values(|o: Outcome| o->Finished_0) =~= results_of(
                                k.outputs,
                            ));
                            assert forall|i: int| 0 <= i < outputs@.len() implies (
                            #[trigger] outputs@[i]) is Finished by {
                                assert(k.futures[i] is None);
                                assert(k.outputs[i] is Some);
                            }
                        }
                        let results = take_results(outputs);
                        self.workflow.resume(results);
                        Progress::Advanced
                    },
                }
            },
        }
    }

    /// Goes on as far as possible: until the work that is waited for is not
    /// over, the end is reached, or no tokens are left.
    pub fn poll(&mut self, ctx: &mut OrchestrationContext) -> (r: Progress)
        requires
            old(self).wf(),
            old(ctx).wf(),
        ensures
            final(self).wf(),
            final(ctx).wf(),
            ran::<W>(old(self)@, old(ctx)@, final(self)@, final(ctx)@, r),
    {
        let ghost mut path: Seq<Moment<W::V>> = seq![Moment { execution: self@, ctx: ctx@ }];
        loop
            invariant
                self.wf(),
                ctx.wf(),
                is_path::<W>(path),
                path[0].execution == old(self)@,
                path[0].ctx == old(ctx)@,
                path.last().execution == self@,
                path.last().ctx == ctx@,
            decreases
                    W::waits_left(self@.workflow),
                    (if self@.awaiting is None {
                        1int
                    } else {
                        0int
                    }),
        {
            match self.advance(ctx) {
                Progress::Advanced => {
                    proof {
                        let before = path;
                        path = path.push(Moment { execution: self@, ctx: ctx@ });
                        assert forall|i: int|
                            #![trigger path[i]]
                            0 <= i < path.len() - 1 implies stepped::<W>(
                            path[i].execution,
                            path[i].ctx,
                            path[i + 1].execution,
                            path[i + 1].ctx,
                            Progress::Advanced,
                        ) by {
                            assert(path[i] == before[i]);
                            if i < before.len() - 1 {
                                assert(path[i + 1] == before[i + 1]);
                            }
                        }
                    }
                },
                other => return other,
            }
        }
    }

    /// Gives the execution up: work that has not completed is cancelled.
    pub fn dispose(self, ctx: &mut OrchestrationContext)
        requires
            self.wf(),
            old(ctx).wf(),
        ensures
            final(ctx).wf(),
            final(ctx)@ == (match self@.awaiting {
                Some(j) => combinators::slots_disposed::<DurableFuture>(
                    j.futures,
                    old(ctx)@,
                    j.futures.len(),
                ),
                None => old(ctx)@,
            }),
    {
        if let Some(join) = self.awaiting {
            join.dispose(ctx);
        }
    }
}

/// A message that a workflow has for the log.
#[derive(Debug)]
pub struct Note {
    /// Whether it is an error; otherwise it is for information.
    pub error: bool,
    pub message: String,
}

/// What notes stand for: whether each is an error, and its message.
pub open spec fn note_views(notes: Seq<Note>) -> Seq<(bool, Seq<char>)> {
    notes.map_values(|n: Note| (n.error, n.message@))
}

/// A workflow that traces what it does.
pub trait Traced: Workflow {
    /// These notes are traced before the next step.
    spec fn is_traced(w: Self::V, notes: Seq<(bool, Seq<char>)>) -> bool;

    /// The notes before the next step.
    fn notes(&self) -> (r: Vec<Note>)
        requires
            Self::valid(self@),
        ensures
            Self::is_traced(self@, note_views(r@)),
    ;
}

/// The entry is that of a note in the turn `m`.
pub open spec fn is_entry_of(e: TraceEntry, m: CtxModel, note: (bool, Seq<char>)) -> bool {
    &&& e.message@ == note.1
    &&& if note.0 {
        trace::is_entry(e, m, TraceLevel::Error, "ERROR"@, e.message)
    } else {
        trace::is_entry(e, m, TraceLevel::Info, "INFO"@, e.message)
    }
}

/// The entries are those of the notes in the turn `m`: none while history is
/// replayed, and one for each otherwise.
pub open spec fn are_entries_of(
    entries: Seq<TraceEntry>,
    m: CtxModel,
    notes: Seq<(bool, Seq<char>)>,
) -> bool {
    if m.is_replaying {
        entries.len() == 0
    } else {
        entries.len() == notes.len() && forall|i: int|
            0 <= i < entries.len() ==> is_entry_of(#[trigger] entries[i], m, notes[i])
    }
}

impl<W: Traced> Execution<W> {
    /// The entries that are logged before the next step. While work is awaited
    /// there are none.
    pub fn trace(&self, ctx: &OrchestrationContext) -> (r: Vec<TraceEntry>)
        requires
            self.wf(),
        ensures
            match self@.awaiting {
                Some(_) => r@.len() == 0,
                None => exists|notes: Seq<(bool, Seq<char>)>| #[trigger]
                    W::is_traced(self@.workflow, notes) && are_entries_of(r@, ctx@, notes),
            },
    {
        let mut entries: Vec<TraceEntry> = Vec::new();
        if self.awaiting.is_some() {
            return entries;
        }
        let notes = self.workflow.notes();
        let ghost models = note_views(notes@);
        assert(W::is_traced(self@.workflow, models));
        if ctx.is_replaying() {
            return entries;
        }
        for note in it: notes
            invariant
                it.seq() == notes@,
                models == note_views(notes@),
                !ctx@.is_replaying,
                entries@.len() == it.index(),
                forall|i: int|
                    0 <= i < entries@.len() ==> is_entry_of(
                        #[trigger] entries@[i],
                        ctx@,
                        models[i],
                    ),
        {
            assert(models[it.index() as int] == (note.error, note.message@));
            let entry = if note.error {
                ctx.trace_error(note.message)
            } else {
                ctx.trace_info(note.message)
            };
            if let Some(e) = entry {
                entries.push(e);
            }
        }
        entries
    }
}

/// Replay is deterministic: what becomes of awaited work depends on the
/// execution and the context alone.
pub proof fn law_replay_of_awaited_work_is_deterministic<W: Workflow>(
    a: ExecutionModel<W::V>,
    m: CtxModel,
    b1: ExecutionModel<W::V>,
    n1: CtxModel,
    p1: Progress,
    b2: ExecutionModel<W::V>,
    n2: CtxModel,
    p2: Progress,
)
    requires
        a.awaiting is Some,
        stepped::<W>(a, m, b1, n1, p1),
        stepped::<W>(a, m, b2, n2, p2),
    ensures
        b1 == b2,
        n1 == n2,
        p1 == p2,
{
}

/// The work behind a slot is over: it was before, or its result was delivered.
pub open spec fn slot_over(slot: Option<FutureModel>, m: CtxModel) -> bool {
    slot matches Some(f) ==> future::future_outcome(f, m) is Some
}

proof fn lemma_slots_over(j: JoinModel<FutureModel, Outcome>, m: CtxModel, n: nat)
    requires
        gives_results(j),
        j.futures.len() == j.outputs.len(),
        n <= j.futures.len(),
    ensures
        ({
            let (k, m1) = combinators::slots_polled::<DurableFuture>(j, m, n);
            &&& m1 == m
            &&& k.futures.len() == j.futures.len()
            &&& forall|i: int|
                0 <= i < n ==> ((#[trigger] k.futures[i]) is None <==> slot_over(j.futures[i], m))
            &&& forall|i: int|
                n <= i < j.futures.len() ==> #[trigger] k.futures[i] == j.futures[i]
        }),
    decreases n,
{
    if n > 0 {
        lemma_slots_over(j, m, (n - 1) as nat);
        let (k, _) = combinators::slots_polled::<DurableFuture>(j, m, (n - 1) as nat);
        assert(k.futures[n - 1] == j.futures[n - 1]);
        let (k1, m1) = combinators::slot_polled::<DurableFuture>(k, m, n - 1);
        assert forall|i: int| 0 <= i < n implies ((#[trigger] k1.futures[i]) is None <==> slot_over(
            j.futures[i],
            m,
        )) by {
            if i < n - 1 {
                assert(k1.futures[i] == k.futures[i]);
            }
        }
        assert forall|i: int| n <= i < j.futures.len() implies #[trigger] k1.futures[i]
            == j.futures[i] by {
            assert(k1.futures[i] == k.futures[i]);
        }
    }
}

/// An execution goes on as soon as, and not before, the results of all awaited
/// work were delivered, in whatever order. Polling leaves the context as it is.
pub proof fn law_execution_goes_on_when_all_is_delivered<W: Workflow>(
    a: ExecutionModel<W::V>,
    m: CtxModel,
    b: ExecutionModel<W::V>,
    n: CtxModel,
    p: Progress,
    j: JoinModel<FutureModel, Outcome>,
)
    requires
        a.awaiting == Some(j),
        gives_results(j),
        combinators::outputs_in_place(j),
        stepped::<W>(a, m, b, n, p),
    ensures
        n == m,
        p is Advanced <==> forall|i: int|
            0 <= i < j.futures.len() ==> slot_over(#[trigger] j.futures[i], m),
        !(p is Advanced) ==> p is Waiting && b.workflow == a.workflow,
{
    lemma_slots_over(j, m, j.futures.len());
    let (k, _) = combinators::slots_polled::<DurableFuture>(j, m, j.futures.len());
    if combinators::all_done(k) {
        assert forall|i: int| 0 <= i < j.futures.len() implies slot_over(
            #[trigger] j.futures[i],
            m,
        ) by {
            assert(k.futures[i] is None);
        }
    }
    if forall|i: int| 0 <= i < j.futures.len() ==> slot_over(#[trigger] j.futures[i], m) {
        assert forall|i: int| 0 <= i < k.futures.len() implies (#[trigger] k.futures[i]) is None by {
            assert(slot_over(j.futures[i], m));
        }
    }
}

/// The action that schedules work of a kind under a name with an input.
pub open spec fn schedules(action: Action, work: Work, name: Seq<char>, input: String) -> bool {
    match (work, action) {
        (
            Work::Activity,
            Action::CallActivity { name: n, input: i, session_id: None, tag: None, .. },
        ) => n@ == name && i == input,
        (
            Work::SubOrchestration,
            Action::StartSubOrchestration { name: n, version: None, input: i, .. },
        ) => n@ == name && i == input,
        _ => false,
    }
}

/// The future stands for work of that kind, under the token of the action.
pub open spec fn stands_for(f: FutureModel, work: Work, token: u64) -> bool {
    &&& f.token == token
    &&& !f.completed
    &&& match work {
        Work::Activity => f.source is Activity && f.kind is Activity,
        Work::SubOrchestration => f.source is SubOrchestration && f.kind is SubOrchestration,
    }
}

/// A batch was scheduled: one action for each input, in their order, behind what
/// was emitted before, and one future for each of them.
pub open spec fn batch_scheduled(
    before: CtxModel,
    after: CtxModel,
    work: Work,
    name: Seq<char>,
    inputs: Seq<String>,
    futures: Seq<FutureModel>,
) -> bool {
    let n = before.emitted.len() as int;
    &&& futures.len() == inputs.len()
    &&& after.emitted.len() == n + inputs.len()
    &&& after.emitted.take(n) == before.emitted
    &&& forall|i: int|
        0 <= i < inputs.len() ==> schedules(
            (#[trigger] after.emitted[n + i]).1,
            work,
            name,
            inputs[i],
        )
    &&& forall|i: int|
        0 <= i < inputs.len() ==> stands_for(
            #[trigger] futures[i],
            work,
            after.emitted[n + i].0,
        )
    &&& forall|i: int| 0 <= i < inputs.len() ==> (#[trigger] futures[i]).token == before.next_token
        + 1 + i
}

proof fn lemma_batch(
    work: Work,
    states: Seq<CtxModel>,
    name: String,
    inputs: Seq<String>,
    futures: Seq<FutureModel>,
    k: int,
)
    requires
        scheduled_through(work, states, name, inputs, futures),
        states[0].next_token + inputs.len() <= u64::MAX,
        0 <= k <= inputs.len(),
    ensures
        states[k].next_token == states[0].next_token + k,
        batch_scheduled(states[0], states[k], work, name@, inputs.take(k), futures.take(k)),
    decreases k,
{
    let m = states[0];
    let n = m.emitted.len() as int;
    if k == 0 {
        assert(m.emitted.take(n) =~= m.emitted);
    } else {
        lemma_batch(work, states, name, inputs, futures, k - 1);
        let a = states[k - 1];
        let b = states[k];
        assert(one_scheduled(
            work,
            states[k - 1],
            states[k - 1 + 1],
            name,
            inputs[k - 1],
            futures[k - 1],
        ));
        assert(b.emitted.take(n) =~= a.emitted.take(n));
        assert forall|i: int| 0 <= i < k implies schedules(
            (#[trigger] b.emitted[n + i]).1,
            work,
            name@,
            inputs.take(k)[i],
        ) by {
            if i < k - 1 {
                assert(b.emitted[n + i] == a.emitted[n + i]);
                assert(inputs.take(k - 1)[i] == inputs.take(k)[i]);
            }
        }
        assert forall|i: int| 0 <= i < k implies stands_for(
            #[trigger] futures.take(k)[i],
            work,
            b.emitted[n + i].0,
        ) by {
            if i < k - 1 {
                assert(b.emitted[n + i] == a.emitted[n + i]);
                assert(futures.take(k - 1)[i] == futures.take(k)[i]);
            }
        }
        assert forall|i: int| 0 <= i < k implies (#[trigger] futures.take(k)[i]).token
            == m.next_token + 1 + i by {
            if i < k - 1 {
                assert(futures.take(k - 1)[i] == futures.take(k)[i]);
            }
        }
    }
}

proof fn lemma_all_scheduled(
    work: Work,
    before: CtxModel,
    after: CtxModel,
    name: Seq<char>,
    inputs: Seq<String>,
    futures: Seq<FutureModel>,
)
    requires
        all_scheduled(work, before, after, name, inputs, futures),
        before.next_token + inputs.len() <= u64::MAX,
    ensures
        batch_scheduled(before, after, work, name, inputs, futures),
{
    let (states, n) = choose|states: Seq<CtxModel>, n: String| #[trigger]
        scheduled_through(work, states, n, inputs, futures) && n@ == name && states[0] == before
            && states.last() == after;
    lemma_batch(work, states, n, inputs, futures, inputs.len() as int);
    assert(inputs.take(inputs.len() as int) =~= inputs);
    assert(futures.take(futures.len() as int) =~= futures);
}

/// A batch of work is scheduled in the order of its inputs, each under the same
/// name, and each future stands for the work of its own input.
pub proof fn law_a_batch_is_scheduled_in_order(
    ctx: &mut OrchestrationContext,
    work: Work,
    name: &str,
    inputs: Vec<String>,
    r: Vec<DurableFuture>,
)
    requires
        call_ensures(schedule_all, (ctx, work, name, inputs), r),
        old(ctx)@.next_token + inputs@.len() <= u64::MAX,
    ensures
        batch_scheduled(
            old(ctx)@,
            final(ctx)@,
            work,
            name@,
            inputs@,
            r@.map_values(|f: DurableFuture| f@),
        ),
{
    lemma_all_scheduled(work, old(ctx)@, final(ctx)@, name@, inputs@, views(r@));
}

/// The result that was delivered to the work of a future.
pub open spec fn has_result(f: FutureModel, m: CtxModel, result: Result<String, String>) -> bool {
    &&& m.results.contains_key(f.token)
    &&& match (f.source, m.results[f.token], result) {
        (Source::Activity, CompletionResult::ActivityOk(a), Ok(b)) => a == b,
        (Source::Activity, CompletionResult::ActivityErr(a), Err(b)) => a == b,
        (Source::SubOrchestration, CompletionResult::SubOrchOk(a), Ok(b)) => a == b,
        (Source::SubOrchestration, CompletionResult::SubOrchErr(a), Err(b)) => a == b,
        _ => false,
    }
}

/// Once the result of all awaited work was delivered, the workflow gets exactly
/// these results, in the order of its inputs, whatever the order in which they
/// came; and the context stays as it is.
pub proof fn law_results_are_handed_back_in_order<W: Workflow>(
    e: &mut Execution<W>,
    ctx: &mut OrchestrationContext,
    p: Progress,
    futures: Seq<FutureModel>,
    results: Seq<Result<String, String>>,
)
    requires
        call_ensures(Execution::<W>::advance, (e, ctx), p),
        old(e).wf(),
        old(e)@.awaiting matches Some(j) && j.futures.len() == futures.len() && forall|i: int|
            0 <= i < futures.len() ==> #[trigger] j.futures[i] == Some(futures[i]),
        results.len() == futures.len(),
        forall|i: int|
            0 <= i < futures.len() ==> has_result(#[trigger] futures[i], old(ctx)@, results[i]),
    ensures
        p is Advanced,
        final(e)@.awaiting is None,
        final(e)@.workflow == W::resumed(old(e)@.workflow, results),
        final(ctx)@ == old(ctx)@,
{
    let j = old(e)@.awaiting->0;
    let m = old(ctx)@;
    let n = futures.len();
    let ms = Seq::new(n + 1, |i: int| m);
    assert forall|i: int| 0 <= i < j.futures.len() implies #[trigger] ms[i + 1]
        == combinators::context_past::<DurableFuture>(j.futures[i], ms[i]) by {
        assert(has_result(futures[i], m, results[i]));
    }
    combinators::lemma_slots_polled::<DurableFuture>(j, ms, n);
    let (k, after) = combinators::slots_polled::<DurableFuture>(j, m, n);
    assert forall|i: int| 0 <= i < k.futures.len() implies (#[trigger] k.futures[i]) is None by {
        assert(has_result(futures[i], m, results[i]));
        assert(j.futures[i] == Some(futures[i]));
    }
    assert forall|i: int| 0 <= i < n implies #[trigger] results_of(k.outputs)[i] == results[i] by {
        assert(has_result(futures[i], m, results[i]));
        assert(j.futures[i] == Some(futures[i]));
        assert(k.outputs[i] == combinators::output_now::<DurableFuture>(
            j.futures[i],
            j.outputs[i],
            ms[i],
        ));
    }
    assert(results_of(k.outputs) =~= results);
}

/// As long as nothing was delivered to some of the awaited work, the workflow waits
/// as it is, and nothing is scheduled.
pub proof fn law_an_execution_waits_for_all_of_it<W: Workflow>(
    e: &mut Execution<W>,
    ctx: &mut OrchestrationContext,
    p: Progress,
    j: JoinModel<FutureModel, Outcome>,
    i: int,
)
    requires
        call_ensures(Execution::<W>::advance, (e, ctx), p),
        old(e).wf(),
        old(e)@.awaiting == Some(j),
        0 <= i < j.futures.len(),
        j.futures[i] matches Some(f) && !old(ctx)@.results.contains_key(f.token),
    ensures
        p is Waiting,
        final(e)@.workflow == old(e)@.workflow,
        final(e)@.awaiting is Some,
        final(ctx)@ == old(ctx)@,
{
    law_execution_goes_on_when_all_is_delivered::<W>(
        old(e)@,
        old(ctx)@,
        final(e)@,
        final(ctx)@,
        p,
        j,
    );
    assert(!slot_over(j.futures[i], old(ctx)@));
}

/// A workflow that waits for a batch next has it scheduled and awaited; one that is
/// at its end has its result handed out, and nothing happens in the context.
pub proof fn law_an_execution_does_what_comes_next<W: Workflow>(
    e: &mut Execution<W>,
    ctx: &mut OrchestrationContext,
    p: Progress,
    work: Work,
    name: Seq<char>,
    inputs: Seq<String>,
    result: Result<String, String>,
)
    requires
        call_ensures(Execution::<W>::advance, (e, ctx), p),
        old(e)@.awaiting is None,
        old(ctx)@.next_token + inputs.len() <= u64::MAX,
    ensures
        (forall|s: Step| #[trigger]
            W::is_next(old(e)@.workflow, s) ==> (s matches Step::Await {
                work: w,
                name: n,
                inputs: i,
            } && w == work && n@ == name && i@ == inputs)) ==> {
            &&& p is Advanced
            &&& final(e)@.workflow == old(e)@.workflow
            &&& final(e)@.awaiting matches Some(j) && exists|futures: Seq<FutureModel>| #[trigger]
                batch_scheduled(old(ctx)@, final(ctx)@, work, name, inputs, futures) && j
                    == fresh_join(futures)
        },
        (forall|s: Step| #[trigger]
            W::is_next(old(e)@.workflow, s) ==> s == Step::Finish(result)) ==> {
            &&& p == Progress::Finished(result)
            &&& final(e)@ == old(e)@
            &&& final(ctx)@ == old(ctx)@
        },
{
    let w = old(e)@.workflow;
    if forall|s: Step| #[trigger]
        W::is_next(w, s) ==> (s matches Step::Await { work: w, name: n, inputs: i } && w == work
            && n@ == name && i@ == inputs) {
        let futures = choose|futures: Seq<FutureModel>| #[trigger]
            all_scheduled(work, old(ctx)@, final(ctx)@, name, inputs, futures)
                && final(e)@.awaiting == Some(fresh_join(futures));
        lemma_all_scheduled(work, old(ctx)@, final(ctx)@, name, inputs, futures);
    }
}

/// A workflow that gives a batch up next has it scheduled, every part of it given up
/// in order, and its failure handed out. `ms` are the contexts between those parts.
pub proof fn law_an_abandoned_batch_is_scheduled_and_given_up<W: Workflow>(
    e: &mut Execution<W>,
    ctx: &mut OrchestrationContext,
    p: Progress,
    name: Seq<char>,
    inputs: Seq<String>,
    failure: String,
)
    requires
        call_ensures(Execution::<W>::advance, (e, ctx), p),
        old(e)@.awaiting is None,
        old(ctx)@.next_token + inputs.len() <= u64::MAX,
        forall|s: Step| #[trigger]
            W::is_next(old(e)@.workflow, s) ==> (s matches Step::Abandon {
                name: n,
                inputs: i,
                failure: f,
            } && n@ == name && i@ == inputs && f == failure),
    ensures
        p == Progress::Finished(Err(failure)),
        final(e)@ == old(e)@,
        exists|futures: Seq<FutureModel>, scheduled: CtxModel|
            {
                &&& #[trigger] batch_scheduled(
                    old(ctx)@,
                    scheduled,
                    Work::Activity,
                    name,
                    inputs,
                    futures,
                )
                &&& forall|ms: Seq<CtxModel>|
                    ms.len() == futures.len() + 1 && ms[0] == scheduled && (forall|i: int|
                        0 <= i < futures.len() ==> #[trigger] ms[i + 1]
                            == DurableFuture::after_dispose(futures[i], ms[i])) ==> final(ctx)@
                        == #[trigger] ms.last()
            },
{
    let (futures, scheduled) = choose|futures: Seq<FutureModel>, scheduled: CtxModel| #[trigger]
        all_scheduled(Work::Activity, old(ctx)@, scheduled, name, inputs, futures) && final(ctx)@
            == combinators::slots_disposed::<DurableFuture>(
            fresh_join(futures).futures,
            scheduled,
            futures.len(),
        );
    lemma_all_scheduled(Work::Activity, old(ctx)@, scheduled, name, inputs, futures);
    let slots = fresh_join(futures).futures;
    assert forall|ms: Seq<CtxModel>|
        ms.len() == futures.len() + 1 && ms[0] == scheduled && (forall|i: int|
            0 <= i < futures.len() ==> #[trigger] ms[i + 1] == DurableFuture::after_dispose(
                futures[i],
                ms[i],
            )) implies final(ctx)@ == #[trigger] ms.last() by {
        assert forall|i: int| 0 <= i < slots.len() implies #[trigger] ms[i + 1] == (match slots[i] {
            Some(f) => DurableFuture::after_dispose(f, ms[i]),
            None => ms[i],
        }) by {}
        combinators::lemma_slots_disposed::<DurableFuture>(slots, ms, slots.len());
    }
}

/// Where the tokens do not suffice for the batch that comes next, that is said and
/// nothing else happens, whether the batch would be awaited or given up.
pub proof fn law_without_tokens_nothing_happens<W: Workflow>(
    e: &mut Execution<W>,
    ctx: &mut OrchestrationContext,
    p: Progress,
    needed: nat,
)
    requires
        call_ensures(Execution::<W>::advance, (e, ctx), p),
        old(e)@.awaiting is None,
        old(ctx)@.next_token + needed > u64::MAX,
        forall|s: Step| #[trigger]
            W::is_next(old(e)@.workflow, s) ==> (match s {
                Step::Await { inputs, .. } => inputs@.len() == needed,
                Step::Abandon { inputs, .. } => inputs@.len() == needed,
                Step::Finish(_) => false,
            }),
    ensures
        p is OutOfTokens,
        final(e)@ == old(e)@,
        final(ctx)@ == old(ctx)@,
{
}

/// Running stops only where nothing more can be done, and an execution starts
/// without waiting for anything.
pub proof fn law_running_stops_only_where_it_must<W: Workflow>(
    workflow: W,
    started: Execution<W>,
    e: &mut Execution<W>,
    ctx: &mut OrchestrationContext,
    p: Progress,
)
    requires
        call_ensures(Execution::<W>::new, (workflow,), started),
        call_ensures(Execution::<W>::poll, (e, ctx), p),
    ensures
        started@.workflow == workflow@,
        started@.awaiting is None,
        !(p is Advanced),
{
}

/// Giving an execution up gives up the work that it still waits for, and nothing
/// else: one that waits for nothing leaves the context as it is.
pub proof fn law_giving_an_execution_up<W: Workflow>(
    e: Execution<W>,
    ctx: &mut OrchestrationContext,
    ms: Seq<CtxModel>,
)
    requires
        call_ensures(Execution::<W>::dispose, (e, ctx), ()),
        e@.awaiting matches Some(j) ==> ms.len() == j.futures.len() + 1 && ms[0] == old(ctx)@
            && forall|i: int|
            0 <= i < j.futures.len() ==> #[trigger] ms[i + 1] == (match j.futures[i] {
                Some(f) => DurableFuture::after_dispose(f, ms[i]),
                None => ms[i],
            }),
    ensures
        e@.awaiting is Some ==> final(ctx)@ == ms.last(),
        e@.awaiting is None ==> final(ctx)@ == old(ctx)@,
{
    if let Some(j) = e@.awaiting {
        combinators::lemma_slots_disposed::<DurableFuture>(j.futures, ms, j.futures.len());
    }
}

/// Nothing is logged while work is awaited or history is replayed. Otherwise every
/// note of the workflow is logged, in order: at the level of errors or of
/// information, under the instance and execution of the turn.
pub proof fn law_notes_are_logged_once<W: Traced>(
    e: &Execution<W>,
    ctx: &OrchestrationContext,
    r: Vec<TraceEntry>,
)
    requires
        call_ensures(Execution::<W>::trace, (e, ctx), r),
    ensures
        e@.awaiting is Some || ctx@.is_replaying ==> r@.len() == 0,
        e@.awaiting is None && !ctx@.is_replaying ==> exists|notes: Seq<(bool, Seq<char>)>|
            {
                &&& #[trigger] W::is_traced(e@.workflow, notes)
                &&& r@.len() == notes.len()
                &&& forall|i: int|
                    0 <= i < notes.len() ==> {
                        &&& (#[trigger] r@[i]).message@ == notes[i].1
                        &&& r@[i].level is Error <==> notes[i].0
                        &&& r@[i].level is Info <==> !notes[i].0
                        &&& r@[i].label@ == if notes[i].0 { "ERROR"@ } else { "INFO"@ }
                        &&& r@[i].instance_id == ctx@.instance_id
                        &&& r@[i].execution_id == ctx@.execution_id
                    }
            },
{
    if e@.awaiting is None && !ctx@.is_replaying {
        let notes = choose|notes: Seq<(bool, Seq<char>)>| #[trigger]
            W::is_traced(e@.workflow, notes) && are_entries_of(r@, ctx@, notes);
        assert forall|i: int| 0 <= i < notes.len() implies {
            &&& (#[trigger] r@[i]).message@ == notes[i].1
            &&& r@[i].level is Error <==> notes[i].0
            &&& r@[i].level is Info <==> !notes[i].0
            &&& r@[i].label@ == if notes[i].0 { "ERROR"@ } else { "INFO"@ }
            &&& r@[i].instance_id == ctx@.instance_id
            &&& r@[i].execution_id == ctx@.execution_id
        } by {
            assert(is_entry_of(r@[i], ctx@, notes[i]));
        }
    }
}

} // verus!
