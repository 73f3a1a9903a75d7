//! Joining and racing futures.
//!
//! A join polls every pending future on each poll, in order, and never relies
//! on being woken by one of them. A select polls its futures in order and takes
//! the first that is ready.
use crate::assoc;
use crate::context::CtxModel;
use crate::either::{Either2, Either3};
use crate::future::{DurableFuture, FutureModel, Pollable};
use crate::orchestration::OrchestrationContext;
use vstd::prelude::*;

verus! {

/// What a [`PollAllJoin`] stands for: the futures that still run, and the
/// outputs so far, slot by slot.
#[verifier::ext_equal]
pub struct JoinModel<S, T> {
    pub futures: Seq<Option<S>>,
    pub outputs: Seq<Option<T>>,
}

/// The view of an optional future.
pub open spec fn slot_view<F: View>(slot: Option<F>) -> Option<F::V> {
    match slot {
        Some(f) => Some(f@),
        None => None,
    }
}

/// The join and the context after slot `i` is polled. A future that completes
/// leaves its output in its slot and is disposed of.
pub open spec fn slot_polled<F: Pollable>(
    j: JoinModel<F::V, F::Output>,
    m: CtxModel,
    i: int,
) -> (JoinModel<F::V, F::Output>, CtxModel) {
    match j.futures[i] {
        None => (j, m),
        Some(f) => {
            let (f1, m1) = F::after_poll(f, m);
            match F::outcome(f, m) {
                Some(o) => (
                    JoinModel {
                        futures: j.futures.update(i, None),
                        outputs: j.outputs.update(i, Some(o)),
                    },
                    F::after_dispose(f1, m1),
                ),
                None => (JoinModel { futures: j.futures.update(i, Some(f1)), ..j }, m1),
            }
        },
    }
}

/// The join and the context after the first `n` slots are polled in order.
pub open spec fn slots_polled<F: Pollable>(
    j: JoinModel<F::V, F::Output>,
    m: CtxModel,
    n: nat,
) -> (JoinModel<F::V, F::Output>, CtxModel)
    decreases n,
{
    if n == 0 {
        (j, m)
    } else {
        let (j1, m1) = slots_polled::<F>(j, m, (n - 1) as nat);
        slot_polled::<F>(j1, m1, n - 1)
    }
}

/// No future runs any more.
pub open spec fn all_done<S, T>(j: JoinModel<S, T>) -> bool {
    forall|i: int| 0 <= i < j.futures.len() ==> (#[trigger] j.futures[i]) is None
}

/// A join of any number of futures.
pub struct PollAllJoin<F: Pollable> {
    futures: Vec<Option<F>>,
    outputs: Vec<Option<F::Output>>,
    remaining: usize,
}

impl<F: Pollable> View for PollAllJoin<F> {
    type V = JoinModel<F::V, F::Output>;

    closed spec fn view(&self) -> JoinModel<F::V, F::Output> {
        JoinModel {
            futures: self.futures@.map_values(|s: Option<F>| slot_view(s)),
            outputs: self.outputs@,
        }
    }
}

/// The number of futures that still run.
pub open spec fn count_running<S>(futures: Seq<Option<S>>) -> nat
    decreases futures.len(),
{
    if futures.len() == 0 {
        0
    } else {
        count_running(futures.drop_last()) + if futures.last() is Some {
            1nat
        } else {
            0nat
        }
    }
}

proof fn lemma_count_update<S>(futures: Seq<Option<S>>, i: int, slot: Option<S>)
    requires
        0 <= i < futures.len(),
    ensures
        count_running(futures.update(i, slot)) == count_running(futures) + (if slot is Some {
            1int
        } else {
            0int
        }) - (if futures[i] is Some {
            1int
        } else {
            0int
        }),
    decreases futures.len(),
{
    let after = futures.update(i, slot);
    if i == futures.len() - 1 {
        assert(after.drop_last() =~= futures.drop_last());
    } else {
        assert(after.drop_last() =~= futures.drop_last().update(i, slot));
        lemma_count_update(futures.drop_last(), i, slot);
    }
}

proof fn lemma_count_zero<S, T>(j: JoinModel<S, T>)
    ensures
        count_running(j.futures) == 0 <==> all_done(j),
    decreases j.futures.len(),
{
    if j.futures.len() > 0 {
        let k = JoinModel { futures: j.futures.drop_last(), ..j };
        lemma_count_zero(k);
        if all_done(k) && j.futures.last() is None {
            assert forall|i: int| 0 <= i < j.futures.len() implies (
            #[trigger] j.futures[i]) is None by {
                if i < k.futures.len() {
                    assert(k.futures[i] is None);
                }
            }
        }
        if all_done(j) {
            assert forall|i: int| 0 <= i < k.futures.len() implies (
            #[trigger] k.futures[i]) is None by {
                assert(j.futures[i] is None);
            }
            assert(j.futures[j.futures.len() - 1] is None);
        }
    }
}

proof fn lemma_count_all<S>(futures: Seq<Option<S>>)
    requires
        forall|i: int| 0 <= i < futures.len() ==> (#[trigger] futures[i]) is Some,
    ensures
        count_running(futures) == futures.len(),
    decreases futures.len(),
{
    if futures.len() > 0 {
        lemma_count_all(futures.drop_last());
        assert(futures[futures.len() - 1] is Some);
    }
}

/// A slot without a running future holds an output.
pub open spec fn outputs_in_place<S, T>(j: JoinModel<S, T>) -> bool {
    &&& j.futures.len() == j.outputs.len()
    &&& forall|i: int|
        0 <= i < j.futures.len() ==> ((#[trigger] j.futures[i]) is None <==> j.outputs[i] is Some)
}

/// The running futures may be polled.
pub open spec fn running_can_poll<F: Pollable>(futures: Seq<Option<F::V>>) -> bool {
    forall|i: int|
        0 <= i < futures.len() ==> ((#[trigger] futures[i]) matches Some(f) ==> F::can_poll(f))
}

/// The contexts through which disposing of the futures in order goes.
pub open spec fn slots_disposed<F: Pollable>(
    futures: Seq<Option<F::V>>,
    m: CtxModel,
    n: nat,
) -> CtxModel
    decreases n,
{
    if n == 0 {
        m
    } else {
        let m1 = slots_disposed::<F>(futures, m, (n - 1) as nat);
        match futures[n - 1] {
            Some(f) => F::after_dispose(f, m1),
            None => m1,
        }
    }
}

impl<F: Pollable> PollAllJoin<F> {
    /// Every slot holds a future or its output.
    pub closed spec fn wf(&self) -> bool {
        &&& outputs_in_place(self@)
        &&& self.remaining == count_running(self@.futures)
        &&& running_can_poll::<F>(self@.futures)
    }

    /// A join of `futures`.
    pub fn new(futures: Vec<F>) -> (r: Self)
        requires
            forall|i: int| 0 <= i < futures@.len() ==> F::can_poll((#[trigger] futures@[i])@),
        ensures
            r.wf(),
            r@.futures == futures@.map_values(|f: F| Some(f@)),
            r@.outputs == Seq::new(futures@.len(), |i: int| None::<F::Output>),
    {
        let n: usize = futures.len();
        let ghost all = futures@;
        let mut slots: Vec<Option<F>> = Vec::new();
        let mut outputs: Vec<Option<F::Output>> = Vec::new();
        for f in it: futures
            invariant
                it.seq() == all,
                slots@.len() == it.index(),
                outputs@.len() == it.index(),
                forall|k: int| 0 <= k < it.index() ==> #[trigger] slots@[k] == Some(all[k]),
                forall|k: int| 0 <= k < it.index() ==> (#[trigger] outputs@[k]) is None,
        {
            slots.push(Some(f));
            outputs.push(None);
        }
        let r = PollAllJoin { futures: slots, outputs, remaining: n };
        proof {
            assert(r@.futures =~= all.map_values(|f: F| Some(f@)));
            assert(r@.outputs =~= Seq::new(all.len(), |i: int| None::<F::Output>));
            assert forall|k: int| 0 <= k < r@.futures.len() implies (
            #[trigger] r@.futures[k]) == Some(all[k]@) by {
                assert(slots@[k] == Some(all[k]));
            }
            lemma_count_all(r@.futures);
        }
        r
    }

    /// Polls every pending future once, in order. When none is left, hands out
    /// the outputs in the order of the futures.
    pub fn poll(&mut self, ctx: &mut OrchestrationContext) -> (r: Option<Vec<F::Output>>)
        requires
            old(self).wf(),
            old(ctx).wf(),
        ensures
            final(ctx).wf(),
            final(self).wf(),
            ({
                let (j, m) = slots_polled::<F>(
                    old(self)@,
                    old(ctx)@,
                    old(self)@.futures.len(),
                );
                &&& final(ctx)@ == m
                &&& match r {
                    Some(v) => {
                        &&& all_done(j)
                        &&& v@ == j.outputs.map_values(|o: Option<F::Output>| o->0)
                        &&& final(self)@ == (JoinModel {
                            futures: Seq::<Option<F::V>>::empty(),
                            outputs: Seq::<Option<F::Output>>::empty(),
                        })
                    },
                    None => !all_done(j) && final(self)@ == j,
                }
            }),
    {
        let n: usize = self.futures.len();
        let mut i: usize = 0;
        while i < n
            invariant
                i <= n,
                n == old(self)@.futures.len(),
                self@.futures.len() == n,
                self.wf(),
                ctx.wf(),
                (self@, ctx@) == slots_polled::<F>(old(self)@, old(ctx)@, i as nat),
            decreases n - i,
        {
            let ghost before = self@;
            let ghost m0 = ctx@;
            let mut slot: Option<F> = None;
            std::mem::swap(&mut slot, &mut self.futures[i]);
            assert(before.futures[i as int] == slot_view(slot));
            match slot {
                None => {
                    assert(self@ =~= before);
                },
                Some(mut future) => {
                    proof {
                        lemma_count_update(before.futures, i as int, None);
                    }
                    match future.poll(ctx) {
                        Some(output) => {
                            self.outputs.set(i, Some(output));
                            self.remaining = self.remaining - 1;
                            future.dispose(ctx);
                            proof {
                                assert(self@.futures =~= before.futures.update(i as int, None));
                            }
                        },
                        None => {
                            self.futures.set(i, Some(future));
                            proof {
                                F::lemma_pending(before.futures[i as int]->0, m0);
                                assert(self@.futures =~= before.futures.update(
                                    i as int,
                                    Some(future@),
                                ));
                                lemma_count_update(before.futures, i as int, Some(future@));
                            }
                        },
                    }
                },
            }
            assert((self@, ctx@) == slot_polled::<F>(before, m0, i as int));
            i += 1;
        }
        proof {
            lemma_count_zero(self@);
        }
        if self.remaining == 0 {
            let ghost done = self@;
            let mut outputs: Vec<Option<F::Output>> = Vec::new();
            std::mem::swap(&mut outputs, &mut self.outputs);
            self.futures = Vec::new();
            assert forall|k: int| 0 <= k < outputs@.len() implies (
            #[trigger] outputs@[k]) is Some by {
                assert(done.futures[k] is None);
            }
            let v = take_outputs(outputs);
            assert(v@ =~= done.outputs.map_values(|o: Option<F::Output>| o->0));
            assert(self@.futures =~= Seq::<Option<F::V>>::empty());
            Some(v)
        } else {
            None
        }
    }

    /// Gives the join up: the futures that still run are disposed of in order.
    pub fn dispose(self, ctx: &mut OrchestrationContext)
        requires
            old(ctx).wf(),
        ensures
            final(ctx).wf(),
            final(ctx)@ == slots_disposed::<F>(
                self@.futures,
                old(ctx)@,
                self@.futures.len(),
            ),
    {
        let ghost slots = self@.futures;
        let ghost all = self.futures@;
        for slot in it: self.futures
            invariant
                it.seq() == all,
                slots == all.map_values(|s: Option<F>| slot_view(s)),
                ctx.wf(),
                ctx@ == slots_disposed::<F>(slots, old(ctx)@, it.index() as nat),
        {
            assert(slots[it.index()] == slot_view(slot));
            if let Some(f) = slot {
                f.dispose(ctx);
            }
        }
    }
}

/// The outputs out of their slots.
fn take_outputs<T>(outputs: Vec<Option<T>>) -> (r: Vec<T>)
    requires
        forall|i: int| 0 <= i < outputs@.len() ==> (#[trigger] outputs@[i]) is Some,
    ensures
        r@.len() == outputs@.len(),
        forall|i: int| 0 <= i < r@.len() ==> Some(#[trigger] r@[i]) == outputs@[i],
{
    let ghost all = outputs@;
    let mut out: Vec<T> = Vec::new();
    for o in it: outputs
        invariant
            it.seq() == all,
            forall|k: int| 0 <= k < all.len() ==> (#[trigger] all[k]) is Some,
            out@.len() == it.index(),
            forall|k: int| 0 <= k < it.index() ==> Some(#[trigger] out@[k]) == all[k],
    {
        if let Some(v) = o {
            out.push(v);
        }
    }
    out
}

/// A future in a slot, its output, and the context, after the slot is polled.
pub open spec fn half_polled<F: Pollable>(
    f: Option<F::V>,
    o: Option<F::Output>,
    m: CtxModel,
) -> (Option<F::V>, Option<F::Output>, CtxModel) {
    match f {
        None => (None, o, m),
        Some(f) => {
            let (f1, m1) = F::after_poll(f, m);
            match F::outcome(f, m) {
                Some(out) => (None, Some(out), F::after_dispose(f1, m1)),
                None => (Some(f1), o, m1),
            }
        },
    }
}

/// A slot may be polled: its future may be, or its output is there.
pub open spec fn half_can_poll<F: Pollable>(f: Option<F::V>, o: Option<F::Output>) -> bool {
    match f {
        Some(f) => F::can_poll(f),
        None => o is Some,
    }
}

proof fn lemma_half<F: Pollable>(f: Option<F::V>, o: Option<F::Output>, m: CtxModel)
    requires
        half_can_poll::<F>(f, o),
    ensures
        half_can_poll::<F>(half_polled::<F>(f, o, m).0, half_polled::<F>(f, o, m).1),
{
    if let Some(g) = f {
        if F::outcome(g, m) is None {
            F::lemma_pending(g, m);
        }
    }
}

/// Polls a slot.
fn poll_half<F: Pollable>(
    slot: &mut Option<F>,
    output: &mut Option<F::Output>,
    ctx: &mut OrchestrationContext,
)
    requires
        old(ctx).wf(),
        half_can_poll::<F>(slot_view(*old(slot)), *old(output)),
    ensures
        final(ctx).wf(),
        (slot_view(*final(slot)), *final(output), final(ctx)@) == half_polled::<F>(
            slot_view(*old(slot)),
            *old(output),
            old(ctx)@,
        ),
{
    let mut taken: Option<F> = None;
    std::mem::swap(&mut taken, slot);
    if let Some(mut future) = taken {
        match future.poll(ctx) {
            Some(out) => {
                *output = Some(out);
                future.dispose(ctx);
            },
            None => {
                *slot = Some(future);
            },
        }
    }
}

/// Disposes of the future in a slot.
fn dispose_half<F: Pollable>(slot: Option<F>, ctx: &mut OrchestrationContext)
    requires
        old(ctx).wf(),
    ensures
        final(ctx).wf(),
        final(ctx)@ == half_disposed::<F>(slot_view(slot), old(ctx)@),
{
    if let Some(f) = slot {
        f.dispose(ctx);
    }
}

/// The context after the future in a slot is disposed of.
pub open spec fn half_disposed<F: Pollable>(f: Option<F::V>, m: CtxModel) -> CtxModel {
    match f {
        Some(f) => F::after_dispose(f, m),
        None => m,
    }
}

/// What a [`PollAllJoin2`] stands for.
pub struct Join2Model<S1, S2, T1, T2> {
    pub f1: Option<S1>,
    pub f2: Option<S2>,
    pub output1: Option<T1>,
    pub output2: Option<T2>,
}

/// A join of two futures.
pub struct PollAllJoin2<F1: Pollable, F2: Pollable> {
    f1: Option<F1>,
    f2: Option<F2>,
    output1: Option<F1::Output>,
    output2: Option<F2::Output>,
}

impl<F1: Pollable, F2: Pollable> View for PollAllJoin2<F1, F2> {
    type V = Join2Model<F1::V, F2::V, F1::Output, F2::Output>;

    closed spec fn view(&self) -> Join2Model<F1::V, F2::V, F1::Output, F2::Output> {
        Join2Model {
            f1: slot_view(self.f1),
            f2: slot_view(self.f2),
            output1: self.output1,
            output2: self.output2,
        }
    }
}

/// The join and the context after both slots are polled.
pub open spec fn join2_polled<F1: Pollable, F2: Pollable>(
    j: Join2Model<F1::V, F2::V, F1::Output, F2::Output>,
    m: CtxModel,
) -> (Join2Model<F1::V, F2::V, F1::Output, F2::Output>, CtxModel) {
    let (f1, output1, m1) = half_polled::<F1>(j.f1, j.output1, m);
    let (f2, output2, m2) = half_polled::<F2>(j.f2, j.output2, m1);
    (Join2Model { f1, f2, output1, output2 }, m2)
}

impl<F1: Pollable, F2: Pollable> PollAllJoin2<F1, F2> {
    /// A join of `f1` and `f2`.
    pub fn new(f1: F1, f2: F2) -> (r: Self)
        ensures
            r@ == (Join2Model {
                f1: Some(f1@),
                f2: Some(f2@),
                output1: None::<F1::Output>,
                output2: None::<F2::Output>,
            }),
    {
        PollAllJoin2 { f1: Some(f1), f2: Some(f2), output1: None, output2: None }
    }
}

impl<F1: Pollable, F2: Pollable> Pollable for PollAllJoin2<F1, F2> {
    type Output = (F1::Output, F2::Output);

    open spec fn can_poll(s: Self::V) -> bool {
        half_can_poll::<F1>(s.f1, s.output1) && half_can_poll::<F2>(s.f2, s.output2)
    }

    open spec fn outcome(s: Self::V, m: CtxModel) -> Option<Self::Output> {
        let (j, m1) = join2_polled::<F1, F2>(s, m);
        if j.f1 is None && j.f2 is None {
            Some((j.output1->0, j.output2->0))
        } else {
            None
        }
    }

    open spec fn after_poll(s: Self::V, m: CtxModel) -> (Self::V, CtxModel) {
        let (j, m1) = join2_polled::<F1, F2>(s, m);
        if j.f1 is None && j.f2 is None {
            (Join2Model { output1: None, output2: None, ..j }, m1)
        } else {
            (j, m1)
        }
    }

    open spec fn after_dispose(s: Self::V, m: CtxModel) -> CtxModel {
        half_disposed::<F2>(s.f2, half_disposed::<F1>(s.f1, m))
    }

    proof fn lemma_pending(s: Self::V, m: CtxModel) {
        let (f1, output1, m1) = half_polled::<F1>(s.f1, s.output1, m);
        lemma_half::<F1>(s.f1, s.output1, m);
        lemma_half::<F2>(s.f2, s.output2, m1);
    }

    fn poll(&mut self, ctx: &mut OrchestrationContext) -> (r: Option<Self::Output>) {
        proof {
            lemma_half::<F1>(slot_view(self.f1), self.output1, ctx@);
        }
        poll_half(&mut self.f1, &mut self.output1, ctx);
        proof {
            lemma_half::<F2>(slot_view(self.f2), self.output2, ctx@);
        }
        poll_half(&mut self.f2, &mut self.output2, ctx);
        if self.f1.is_none() && self.f2.is_none() {
            match (self.output1.take(), self.output2.take()) {
                (Some(a), Some(b)) => Some((a, b)),
                _ => None,
            }
        } else {
            None
        }
    }

    fn dispose(self, ctx: &mut OrchestrationContext) {
        dispose_half(self.f1, ctx);
        dispose_half(self.f2, ctx);
    }
}

/// What a [`PollAllJoin3`] stands for.
pub struct Join3Model<S1, S2, S3, T1, T2, T3> {
    pub f1: Option<S1>,
    pub f2: Option<S2>,
    pub f3: Option<S3>,
    pub output1: Option<T1>,
    pub output2: Option<T2>,
    pub output3: Option<T3>,
}

/// A join of three futures.
pub struct PollAllJoin3<F1: Pollable, F2: Pollable, F3: Pollable> {
    f1: Option<F1>,
    f2: Option<F2>,
    f3: Option<F3>,
    output1: Option<F1::Output>,
    output2: Option<F2::Output>,
    output3: Option<F3::Output>,
}

impl<F1: Pollable, F2: Pollable, F3: Pollable> View for PollAllJoin3<F1, F2, F3> {
    type V = Join3Model<F1::V, F2::V, F3::V, F1::Output, F2::Output, F3::Output>;

    closed spec fn view(&self) -> Self::V {
        Join3Model {
            f1: slot_view(self.f1),
            f2: slot_view(self.f2),
            f3: slot_view(self.f3),
            output1: self.output1,
            output2: self.output2,
            output3: self.output3,
        }
    }
}

/// The join and the context after all three slots are polled.
pub open spec fn join3_polled<F1: Pollable, F2: Pollable, F3: Pollable>(
    j: Join3Model<F1::V, F2::V, F3::V, F1::Output, F2::Output, F3::Output>,
    m: CtxModel,
) -> (Join3Model<F1::V, F2::V, F3::V, F1::Output, F2::Output, F3::Output>, CtxModel) {
    let (f1, output1, m1) = half_polled::<F1>(j.f1, j.output1, m);
    let (f2, output2, m2) = half_polled::<F2>(j.f2, j.output2, m1);
    let (f3, output3, m3) = half_polled::<F3>(j.f3, j.output3, m2);
    (Join3Model { f1, f2, f3, output1, output2, output3 }, m3)
}

impl<F1: Pollable, F2: Pollable, F3: Pollable> PollAllJoin3<F1, F2, F3> {
    /// A join of `f1`, `f2` and `f3`.
    pub fn new(f1: F1, f2: F2, f3: F3) -> (r: Self)
        ensures
            r@ == (Join3Model {
                f1: Some(f1@),
                f2: Some(f2@),
                f3: Some(f3@),
                output1: None::<F1::Output>,
                output2: None::<F2::Output>,
                output3: None::<F3::Output>,
            }),
    {
        PollAllJoin3 {
            f1: Some(f1),
            f2: Some(f2),
            f3: Some(f3),
            output1: None,
            output2: None,
            output3: None,
        }
    }
}

impl<F1: Pollable, F2: Pollable, F3: Pollable> Pollable for PollAllJoin3<F1, F2, F3> {
    type Output = (F1::Output, F2::Output, F3::Output);

    open spec fn can_poll(s: Self::V) -> bool {
        half_can_poll::<F1>(s.f1, s.output1) && half_can_poll::<F2>(s.f2, s.output2)
            && half_can_poll::<F3>(s.f3, s.output3)
    }

    open spec fn outcome(s: Self::V, m: CtxModel) -> Option<Self::Output> {
        let (j, m1) = join3_polled::<F1, F2, F3>(s, m);
        if j.f1 is None && j.f2 is None && j.f3 is None {
            Some((j.output1->0, j.output2->0, j.output3->0))
        } else {
            None
        }
    }

    open spec fn after_poll(s: Self::V, m: CtxModel) -> (Self::V, CtxModel) {
        let (j, m1) = join3_polled::<F1, F2, F3>(s, m);
        if j.f1 is None && j.f2 is None && j.f3 is None {
            (Join3Model { output1: None, output2: None, output3: None, ..j }, m1)
        } else {
            (j, m1)
        }
    }

    open spec fn after_dispose(s: Self::V, m: CtxModel) -> CtxModel {
        half_disposed::<F3>(
            s.f3,
            half_disposed::<F2>(s.f2, half_disposed::<F1>(s.f1, m)),
        )
    }

    proof fn lemma_pending(s: Self::V, m: CtxModel) {
        let (f1, output1, m1) = half_polled::<F1>(s.f1, s.output1, m);
        let (f2, output2, m2) = half_polled::<F2>(s.f2, s.output2, m1);
        lemma_half::<F1>(s.f1, s.output1, m);
        lemma_half::<F2>(s.f2, s.output2, m1);
        lemma_half::<F3>(s.f3, s.output3, m2);
    }

    fn poll(&mut self, ctx: &mut OrchestrationContext) -> (r: Option<Self::Output>) {
        proof {
            lemma_half::<F1>(slot_view(self.f1), self.output1, ctx@);
        }
        poll_half(&mut self.f1, &mut self.output1, ctx);
        proof {
            lemma_half::<F2>(slot_view(self.f2), self.output2, ctx@);
        }
        poll_half(&mut self.f2, &mut self.output2, ctx);
        proof {
            lemma_half::<F3>(slot_view(self.f3), self.output3, ctx@);
        }
        poll_half(&mut self.f3, &mut self.output3, ctx);
        if self.f1.is_none() && self.f2.is_none() && self.f3.is_none() {
            match (self.output1.take(), self.output2.take(), self.output3.take()) {
                (Some(a), Some(b), Some(c)) => Some((a, b, c)),
                _ => None,
            }
        } else {
            None
        }
    }

    fn dispose(self, ctx: &mut OrchestrationContext) {
        dispose_half(self.f1, ctx);
        dispose_half(self.f2, ctx);
        dispose_half(self.f3, ctx);
    }
}

/// What a [`Select2`] stands for.
pub struct Select2Model<S1, S2> {
    pub f1: S1,
    pub f2: S2,
}

/// A race between two futures, in favour of the first.
pub struct Select2<F1: Pollable, F2: Pollable> {
    f1: F1,
    f2: F2,
}

impl<F1: Pollable, F2: Pollable> View for Select2<F1, F2> {
    type V = Select2Model<F1::V, F2::V>;

    closed spec fn view(&self) -> Select2Model<F1::V, F2::V> {
        Select2Model { f1: self.f1@, f2: self.f2@ }
    }
}

impl<F1: Pollable, F2: Pollable> Select2<F1, F2> {
    /// A race between `f1` and `f2`.
    pub fn new(f1: F1, f2: F2) -> (r: Self)
        ensures
            r@ == (Select2Model { f1: f1@, f2: f2@ }),
    {
        Select2 { f1, f2 }
    }
}

impl<F1: Pollable, F2: Pollable> Pollable for Select2<F1, F2> {
    type Output = Either2<F1::Output, F2::Output>;

    open spec fn can_poll(s: Self::V) -> bool {
        F1::can_poll(s.f1) && F2::can_poll(s.f2)
    }

    open spec fn outcome(s: Self::V, m: CtxModel) -> Option<Self::Output> {
        match F1::outcome(s.f1, m) {
            Some(a) => Some(Either2::First(a)),
            None => match F2::outcome(s.f2, F1::after_poll(s.f1, m).1) {
                Some(b) => Some(Either2::Second(b)),
                None => None,
            },
        }
    }

    open spec fn after_poll(s: Self::V, m: CtxModel) -> (Self::V, CtxModel) {
        let (f1, m1) = F1::after_poll(s.f1, m);
        if F1::outcome(s.f1, m) is Some {
            (Select2Model { f1, ..s }, m1)
        } else {
            let (f2, m2) = F2::after_poll(s.f2, m1);
            (Select2Model { f1, f2 }, m2)
        }
    }

    open spec fn after_dispose(s: Self::V, m: CtxModel) -> CtxModel {
        F2::after_dispose(s.f2, F1::after_dispose(s.f1, m))
    }

    proof fn lemma_pending(s: Self::V, m: CtxModel) {
        F1::lemma_pending(s.f1, m);
        F2::lemma_pending(s.f2, F1::after_poll(s.f1, m).1);
    }

    fn poll(&mut self, ctx: &mut OrchestrationContext) -> (r: Option<Self::Output>) {
        if let Some(a) = self.f1.poll(ctx) {
            return Some(Either2::First(a));
        }
        if let Some(b) = self.f2.poll(ctx) {
            return Some(Either2::Second(b));
        }
        None
    }

    fn dispose(self, ctx: &mut OrchestrationContext) {
        self.f1.dispose(ctx);
        self.f2.dispose(ctx);
    }
}

/// What a [`Select3`] stands for.
pub struct Select3Model<S1, S2, S3> {
    pub f1: S1,
    pub f2: S2,
    pub f3: S3,
}

/// A race between three futures, in favour of the earlier ones.
pub struct Select3<F1: Pollable, F2: Pollable, F3: Pollable> {
    f1: F1,
    f2: F2,
    f3: F3,
}

impl<F1: Pollable, F2: Pollable, F3: Pollable> View for Select3<F1, F2, F3> {
    type V = Select3Model<F1::V, F2::V, F3::V>;

    closed spec fn view(&self) -> Select3Model<F1::V, F2::V, F3::V> {
        Select3Model { f1: self.f1@, f2: self.f2@, f3: self.f3@ }
    }
}

impl<F1: Pollable, F2: Pollable, F3: Pollable> Select3<F1, F2, F3> {
    /// A race between `f1`, `f2` and `f3`.
    pub fn new(f1: F1, f2: F2, f3: F3) -> (r: Self)
        ensures
            r@ == (Select3Model { f1: f1@, f2: f2@, f3: f3@ }),
    {
        Select3 { f1, f2, f3 }
    }
}

impl<F1: Pollable, F2: Pollable, F3: Pollable> Pollable for Select3<F1, F2, F3> {
    type Output = Either3<F1::Output, F2::Output, F3::Output>;

    open spec fn can_poll(s: Self::V) -> bool {
        F1::can_poll(s.f1) && F2::can_poll(s.f2) && F3::can_poll(s.f3)
    }

    open spec fn outcome(s: Self::V, m: CtxModel) -> Option<Self::Output> {
        match F1::outcome(s.f1, m) {
            Some(a) => Some(Either3::First(a)),
            None => {
                let m1 = F1::after_poll(s.f1, m).1;
                match F2::outcome(s.f2, m1) {
                    Some(b) => Some(Either3::Second(b)),
                    None => match F3::outcome(s.f3, F2::after_poll(s.f2, m1).1) {
                        Some(c) => Some(Either3::Third(c)),
                        None => None,
                    },
                }
            },
        }
    }

    open spec fn after_poll(s: Self::V, m: CtxModel) -> (Self::V, CtxModel) {
        let (f1, m1) = F1::after_poll(s.f1, m);
        if F1::outcome(s.f1, m) is Some {
            (Select3Model { f1, ..s }, m1)
        } else {
            let (f2, m2) = F2::after_poll(s.f2, m1);
            if F2::outcome(s.f2, m1) is Some {
                (Select3Model { f1, f2, ..s }, m2)
            } else {
                let (f3, m3) = F3::after_poll(s.f3, m2);
                (Select3Model { f1, f2, f3 }, m3)
            }
        }
    }

    open spec fn after_dispose(s: Self::V, m: CtxModel) -> CtxModel {
        F3::after_dispose(s.f3, F2::after_dispose(s.f2, F1::after_dispose(s.f1, m)))
    }

    proof fn lemma_pending(s: Self::V, m: CtxModel) {
        let m1 = F1::after_poll(s.f1, m).1;
        F1::lemma_pending(s.f1, m);
        F2::lemma_pending(s.f2, m1);
        F3::lemma_pending(s.f3, F2::after_poll(s.f2, m1).1);
    }

    fn poll(&mut self, ctx: &mut OrchestrationContext) -> (r: Option<Self::Output>) {
        if let Some(a) = self.f1.poll(ctx) {
            return Some(Either3::First(a));
        }
        if let Some(b) = self.f2.poll(ctx) {
            return Some(Either3::Second(b));
        }
        if let Some(c) = self.f3.poll(ctx) {
            return Some(Either3::Third(c));
        }
        None
    }

    fn dispose(self, ctx: &mut OrchestrationContext) {
        self.f1.dispose(ctx);
        self.f2.dispose(ctx);
        self.f3.dispose(ctx);
    }
}

impl OrchestrationContext {
    /// A join of any number of futures: all are polled, and the outputs come in
    /// the order of the futures.
    pub fn join<F: Pollable>(&self, futures: Vec<F>) -> (r: PollAllJoin<F>)
        requires
            forall|i: int| 0 <= i < futures@.len() ==> F::can_poll((#[trigger] futures@[i])@),
        ensures
            r.wf(),
            r@.futures == futures@.map_values(|f: F| Some(f@)),
            r@.outputs == Seq::new(futures@.len(), |i: int| None::<F::Output>),
    {
        PollAllJoin::new(futures)
    }

    /// A join of two futures.
    pub fn join2<F1: Pollable, F2: Pollable>(&self, f1: F1, f2: F2) -> (r: PollAllJoin2<F1, F2>)
        ensures
            r@ == (Join2Model {
                f1: Some(f1@),
                f2: Some(f2@),
                output1: None::<F1::Output>,
                output2: None::<F2::Output>,
            }),
    {
        PollAllJoin2::new(f1, f2)
    }

    /// A join of three futures.
    pub fn join3<F1: Pollable, F2: Pollable, F3: Pollable>(&self, f1: F1, f2: F2, f3: F3) -> (r:
        PollAllJoin3<F1, F2, F3>)
        ensures
            r@ == (Join3Model {
                f1: Some(f1@),
                f2: Some(f2@),
                f3: Some(f3@),
                output1: None::<F1::Output>,
                output2: None::<F2::Output>,
                output3: None::<F3::Output>,
            }),
    {
        PollAllJoin3::new(f1, f2, f3)
    }

    /// A race between two futures, polled in their order.
    pub fn select2<F1: Pollable, F2: Pollable>(&self, f1: F1, f2: F2) -> (r: Select2<F1, F2>)
        ensures
            r@ == (Select2Model { f1: f1@, f2: f2@ }),
    {
        Select2::new(f1, f2)
    }

    /// A race between three futures, polled in their order.
    pub fn select3<F1: Pollable, F2: Pollable, F3: Pollable>(&self, f1: F1, f2: F2, f3: F3) -> (r:
        Select3<F1, F2, F3>)
        ensures
            r@ == (Select3Model { f1: f1@, f2: f2@, f3: f3@ }),
    {
        Select3::new(f1, f2, f3)
    }
}

/// The race is biased: when the first future is ready it wins, and the second
/// is not even polled.
pub proof fn law_select_prefers_the_first<F1: Pollable, F2: Pollable>(
    s: Select2Model<F1::V, F2::V>,
    m: CtxModel,
)
    requires
        F1::outcome(s.f1, m) is Some,
    ensures
        Select2::<F1, F2>::outcome(s, m) == Some(
            Either2::<F1::Output, F2::Output>::First(F1::outcome(s.f1, m)->0),
        ),
        Select2::<F1, F2>::after_poll(s, m).0.f2 == s.f2,
        Select2::<F1, F2>::after_poll(s, m).1 == F1::after_poll(s.f1, m).1,
{
}

/// When one of two futures has won a race, giving the race up cancels the other
/// one and nothing else.
pub proof fn law_race_cancels_the_loser(a: FutureModel, b: FutureModel, m: CtxModel)
    requires
        !a.completed,
        !b.completed,
        a.token != b.token,
        Select2::<DurableFuture, DurableFuture>::outcome(
            (Select2Model { f1: a, f2: b }),
            m,
        ) is Some,
    ensures
        ({
            let first = DurableFuture::outcome(a, m) is Some;
            let (won, lost) = if first {
                (a, b)
            } else {
                (b, a)
            };
            let (s, n) = Select2::<DurableFuture, DurableFuture>::after_poll(
                (Select2Model { f1: a, f2: b }),
                m,
            );
            let after = Select2::<DurableFuture, DurableFuture>::after_dispose(s, n);
            &&& after.cancelled.contains(lost.token)
            &&& after.cancelled_kinds[lost.token] == lost.kind
            &&& after.cancelled.contains(won.token) <==> m.cancelled.contains(won.token)
        }),
{
    let first = DurableFuture::outcome(a, m) is Some;
    let lost = if first {
        b
    } else {
        a
    };
    let (s, n) = Select2::<DurableFuture, DurableFuture>::after_poll(
        (Select2Model { f1: a, f2: b }),
        m,
    );
    let after = Select2::<DurableFuture, DurableFuture>::after_dispose(s, n);
    assert(after.cancelled == assoc::with_id(m.cancelled, lost.token));
    if !m.cancelled.contains(lost.token) {
        assert(after.cancelled.last() == lost.token);
        assert(forall|t: u64|
            m.cancelled.contains(t) ==> #[trigger] after.cancelled.contains(t)) by {
            assert forall|t: u64| m.cancelled.contains(t) implies #[trigger] after.cancelled.contains(
                t,
            ) by {
                let i = choose|i: int| 0 <= i < m.cancelled.len() && m.cancelled[i] == t;
                assert(after.cancelled[i] == t);
            }
        }
    }
}

/// Outputs stay in their slots from poll to poll, and each one that is new is
/// what its own future gave: so a join hands the outputs out in the order of
/// the futures, whatever the order in which these completed.
pub proof fn law_join_keeps_the_order_of_futures<F: Pollable>(
    j: JoinModel<F::V, F::Output>,
    m: CtxModel,
    n: nat,
    i: int,
)
    requires
        outputs_in_place(j),
        n <= j.futures.len(),
        0 <= i < j.futures.len(),
    ensures
        ({
            let (k, m1) = slots_polled::<F>(j, m, n);
            &&& outputs_in_place(k)
            &&& k.futures.len() == j.futures.len()
            &&& j.outputs[i] is Some ==> k.outputs[i] == j.outputs[i]
            &&& i >= n ==> k.futures[i] == j.futures[i] && k.outputs[i] == j.outputs[i]
            &&& j.outputs[i] is None && i < n ==> k.outputs[i] == F::outcome(
                j.futures[i]->0,
                slots_polled::<F>(j, m, i as nat).1,
            )
        }),
    decreases n,
{
    if n > 0 {
        law_join_keeps_the_order_of_futures::<F>(j, m, (n - 1) as nat, i);
        law_join_keeps_the_order_of_futures::<F>(j, m, (n - 1) as nat, n - 1);
    }
}

/// The race of two: the first wins if it is ready; else the second wins if it is
/// ready once the first was polled; and nobody wins only if neither is ready. What
/// was polled has the state of its own poll, and the rest is as it was.
pub proof fn law_race_of_two<F1: Pollable, F2: Pollable>(
    s: Select2Model<F1::V, F2::V>,
    m: CtxModel,
)
    ensures
        ({
            let (p1, m1) = F1::after_poll(s.f1, m);
            let (p2, m2) = F2::after_poll(s.f2, m1);
            let first = F1::outcome(s.f1, m);
            let second = F2::outcome(s.f2, m1);
            let won = Select2::<F1, F2>::outcome(s, m);
            let (t, n) = Select2::<F1, F2>::after_poll(s, m);
            &&& first matches Some(a) ==> won == Some(Either2::<F1::Output, F2::Output>::First(a))
            &&& first is None ==> (second matches Some(b) ==> won == Some(
                Either2::<F1::Output, F2::Output>::Second(b),
            ))
            &&& won is None <==> first is None && second is None
            &&& t.f1 == p1
            &&& first is Some ==> t.f2 == s.f2 && n == m1
            &&& first is None ==> t.f2 == p2 && n == m2
        }),
        Select2::<F1, F2>::after_dispose(s, m) == F2::after_dispose(
            s.f2,
            F1::after_dispose(s.f1, m),
        ),
        F1::can_poll(s.f1) && F2::can_poll(s.f2) ==> Select2::<F1, F2>::can_poll(s),
{
}

/// The race of three: the first wins if it is ready; else the second wins if it is
/// ready once the first was polled; else the third wins if it is ready once both
/// were; and nobody wins only if none of the three is ready. All that come before
/// the winner are polled, and none that come after it.
pub proof fn law_race_of_three<F1: Pollable, F2: Pollable, F3: Pollable>(
    s: Select3Model<F1::V, F2::V, F3::V>,
    m: CtxModel,
)
    ensures
        ({
            let (p1, m1) = F1::after_poll(s.f1, m);
            let (p2, m2) = F2::after_poll(s.f2, m1);
            let (p3, m3) = F3::after_poll(s.f3, m2);
            let first = F1::outcome(s.f1, m);
            let second = F2::outcome(s.f2, m1);
            let third = F3::outcome(s.f3, m2);
            let won = Select3::<F1, F2, F3>::outcome(s, m);
            let (t, n) = Select3::<F1, F2, F3>::after_poll(s, m);
            &&& first matches Some(a) ==> won == Some(
                Either3::<F1::Output, F2::Output, F3::Output>::First(a),
            )
            &&& first is None ==> (second matches Some(b) ==> won == Some(
                Either3::<F1::Output, F2::Output, F3::Output>::Second(b),
            ))
            &&& first is None && second is None ==> (third matches Some(c) ==> won == Some(
                Either3::<F1::Output, F2::Output, F3::Output>::Third(c),
            ))
            &&& won is None <==> first is None && second is None && third is None
            &&& t.f1 == p1
            &&& first is Some ==> t.f2 == s.f2 && t.f3 == s.f3 && n == m1
            &&& first is None && second is Some ==> t.f2 == p2 && t.f3 == s.f3 && n == m2
            &&& first is None && second is None ==> t.f2 == p2 && t.f3 == p3 && n == m3
        }),
        Select3::<F1, F2, F3>::after_dispose(s, m) == F3::after_dispose(
            s.f3,
            F2::after_dispose(s.f2, F1::after_dispose(s.f1, m)),
        ),
        F1::can_poll(s.f1) && F2::can_poll(s.f2) && F3::can_poll(s.f3) ==> Select3::<
            F1,
            F2,
            F3,
        >::can_poll(s),
{
}

proof fn lemma_cancelled_once(m: CtxModel, token: u64, t: u64)
    ensures
        assoc::with_id(m.cancelled, token).contains(t) <==> m.cancelled.contains(t) || t == token,
{
    let after = assoc::with_id(m.cancelled, token);
    if !m.cancelled.contains(token) {
        assert(after.last() == token);
        if m.cancelled.contains(t) {
            let i = choose|i: int| 0 <= i < m.cancelled.len() && m.cancelled[i] == t;
            assert(after[i] == t);
        }
    }
}

/// Whichever of three futures wins, giving the race up cancels the two others and
/// not the winner.
pub proof fn law_race_of_three_cancels_the_losers(
    a: FutureModel,
    b: FutureModel,
    c: FutureModel,
    m: CtxModel,
)
    requires
        !a.completed && !b.completed && !c.completed,
        a.token != b.token && b.token != c.token && a.token != c.token,
        Select3::<DurableFuture, DurableFuture, DurableFuture>::outcome(
            (Select3Model { f1: a, f2: b, f3: c }),
            m,
        ) is Some,
    ensures
        ({
            let race = Select3Model { f1: a, f2: b, f3: c };
            let won = Select3::<DurableFuture, DurableFuture, DurableFuture>::outcome(race, m)->0;
            let (s, n) = Select3::<DurableFuture, DurableFuture, DurableFuture>::after_poll(
                race,
                m,
            );
            let after = Select3::<DurableFuture, DurableFuture, DurableFuture>::after_dispose(
                s,
                n,
            );
            &&& !(won is First) ==> after.cancelled.contains(a.token)
            &&& !(won is Second) ==> after.cancelled.contains(b.token)
            &&& !(won is Third) ==> after.cancelled.contains(c.token)
            &&& won is First ==> (after.cancelled.contains(a.token) <==> m.cancelled.contains(
                a.token,
            ))
            &&& won is Second ==> (after.cancelled.contains(b.token) <==> m.cancelled.contains(
                b.token,
            ))
            &&& won is Third ==> (after.cancelled.contains(c.token) <==> m.cancelled.contains(
                c.token,
            ))
        }),
{
    let race = Select3Model { f1: a, f2: b, f3: c };
    let (s, n) = Select3::<DurableFuture, DurableFuture, DurableFuture>::after_poll(race, m);
    let d1 = DurableFuture::after_dispose(s.f1, n);
    let d2 = DurableFuture::after_dispose(s.f2, d1);
    lemma_cancelled_once(n, a.token, a.token);
    lemma_cancelled_once(n, a.token, b.token);
    lemma_cancelled_once(n, a.token, c.token);
    lemma_cancelled_once(d1, b.token, a.token);
    lemma_cancelled_once(d1, b.token, b.token);
    lemma_cancelled_once(d1, b.token, c.token);
    lemma_cancelled_once(d2, c.token, a.token);
    lemma_cancelled_once(d2, c.token, b.token);
    lemma_cancelled_once(d2, c.token, c.token);
}

/// What a slot of a join holds once it was polled: the output that was there, or
/// the one that its future gives now.
pub open spec fn output_now<F: Pollable>(
    f: Option<F::V>,
    o: Option<F::Output>,
    m: CtxModel,
) -> Option<F::Output> {
    match f {
        Some(f) => F::outcome(f, m),
        None => o,
    }
}

/// The future that a slot holds once it was polled: none if it completed.
pub open spec fn future_now<F: Pollable>(f: Option<F::V>, m: CtxModel) -> Option<F::V> {
    if f is Some && F::outcome(f->0, m) is None {
        Some(F::after_poll(f->0, m).0)
    } else {
        None
    }
}

/// The context past a slot: its future was polled, and disposed of if it
/// completed.
pub open spec fn context_past<F: Pollable>(f: Option<F::V>, m: CtxModel) -> CtxModel {
    if f is Some {
        let (g, n) = F::after_poll(f->0, m);
        if F::outcome(f->0, m) is Some {
            F::after_dispose(g, n)
        } else {
            n
        }
    } else {
        m
    }
}

/// The join of two: ready exactly when both outputs are there, which may have come
/// in different polls; the pair has the outputs in the order of the futures. Both
/// futures are polled each time, also when the first is pending.
pub proof fn law_join_of_two<F1: Pollable, F2: Pollable>(
    s: Join2Model<F1::V, F2::V, F1::Output, F2::Output>,
    m: CtxModel,
)
    ensures
        ({
            let m1 = context_past::<F1>(s.f1, m);
            let m2 = context_past::<F2>(s.f2, m1);
            let a = output_now::<F1>(s.f1, s.output1, m);
            let b = output_now::<F2>(s.f2, s.output2, m1);
            let r = PollAllJoin2::<F1, F2>::outcome(s, m);
            let (t, n) = PollAllJoin2::<F1, F2>::after_poll(s, m);
            PollAllJoin2::<F1, F2>::can_poll(s) ==> {
                &&& r is Some <==> a is Some && b is Some
                &&& r is Some ==> r == Some((a->0, b->0))
                &&& n == m2
                &&& t.f1 == future_now::<F1>(s.f1, m)
                &&& t.f2 == future_now::<F2>(s.f2, m1)
                &&& r is None && a is Some ==> t.output1 == a
                &&& r is None && b is Some ==> t.output2 == b
            }
        }),
        (s.f1 matches Some(f) ==> F1::can_poll(f)) && (s.f1 is None ==> s.output1 is Some) && (
        s.f2 matches Some(f) ==> F2::can_poll(f)) && (s.f2 is None ==> s.output2 is Some)
            ==> PollAllJoin2::<F1, F2>::can_poll(s),
{
}

/// The join of three: ready exactly when all outputs are there, which come in the
/// order of the futures. Each future is polled each time.
pub proof fn law_join_of_three<F1: Pollable, F2: Pollable, F3: Pollable>(
    s: Join3Model<F1::V, F2::V, F3::V, F1::Output, F2::Output, F3::Output>,
    m: CtxModel,
)
    ensures
        ({
            let m1 = context_past::<F1>(s.f1, m);
            let m2 = context_past::<F2>(s.f2, m1);
            let m3 = context_past::<F3>(s.f3, m2);
            let a = output_now::<F1>(s.f1, s.output1, m);
            let b = output_now::<F2>(s.f2, s.output2, m1);
            let c = output_now::<F3>(s.f3, s.output3, m2);
            let r = PollAllJoin3::<F1, F2, F3>::outcome(s, m);
            let (t, n) = PollAllJoin3::<F1, F2, F3>::after_poll(s, m);
            PollAllJoin3::<F1, F2, F3>::can_poll(s) ==> {
                &&& r is Some <==> a is Some && b is Some && c is Some
                &&& r is Some ==> r == Some((a->0, b->0, c->0))
                &&& n == m3
                &&& t.f1 == future_now::<F1>(s.f1, m)
                &&& t.f2 == future_now::<F2>(s.f2, m1)
                &&& t.f3 == future_now::<F3>(s.f3, m2)
                &&& r is None && a is Some ==> t.output1 == a
                &&& r is None && b is Some ==> t.output2 == b
                &&& r is None && c is Some ==> t.output3 == c
            }
        }),
        (s.f1 matches Some(f) ==> F1::can_poll(f)) && (s.f1 is None ==> s.output1 is Some) && (
        s.f2 matches Some(f) ==> F2::can_poll(f)) && (s.f2 is None ==> s.output2 is Some) && (
        s.f3 matches Some(f) ==> F3::can_poll(f)) && (s.f3 is None ==> s.output3 is Some)
            ==> PollAllJoin3::<F1, F2, F3>::can_poll(s),
{
}

/// Giving a join up gives up each future that it still waits for, in order.
pub proof fn law_joins_give_up_what_they_wait_for<F1: Pollable, F2: Pollable, F3: Pollable>(
    f1: F1::V,
    f2: F2::V,
    f3: F3::V,
    a: F1::Output,
    b: F2::Output,
    m: CtxModel,
)
    ensures
        ({
            let m1 = F1::after_dispose(f1, m);
            let m2 = F2::after_dispose(f2, m1);
            &&& PollAllJoin2::<F1, F2>::after_dispose(
                (Join2Model { f1: Some(f1), f2: Some(f2), output1: None, output2: None }),
                m,
            ) == m2
            &&& PollAllJoin2::<F1, F2>::after_dispose(
                (Join2Model { f1: Some(f1), f2: None, output1: None, output2: Some(b) }),
                m,
            ) == m1
            &&& PollAllJoin2::<F1, F2>::after_dispose(
                (Join2Model { f1: None, f2: Some(f2), output1: Some(a), output2: None }),
                m,
            ) == F2::after_dispose(f2, m)
            &&& PollAllJoin3::<F1, F2, F3>::after_dispose(
                (Join3Model {
                    f1: Some(f1),
                    f2: Some(f2),
                    f3: Some(f3),
                    output1: None,
                    output2: None,
                    output3: None,
                }),
                m,
            ) == F3::after_dispose(f3, m2)
            &&& PollAllJoin3::<F1, F2, F3>::after_dispose(
                (Join3Model {
                    f1: Some(f1),
                    f2: None,
                    f3: Some(f3),
                    output1: None,
                    output2: Some(b),
                    output3: None,
                }),
                m,
            ) == F3::after_dispose(f3, m1)
            &&& PollAllJoin3::<F1, F2, F3>::after_dispose(
                (Join3Model {
                    f1: None,
                    f2: Some(f2),
                    f3: None,
                    output1: Some(a),
                    output2: None,
                    output3: None,
                }),
                m,
            ) == F2::after_dispose(f2, m)
        }),
{
}

pub proof fn lemma_slots_polled<F: Pollable>(
    j: JoinModel<F::V, F::Output>,
    ms: Seq<CtxModel>,
    n: nat,
)
    requires
        outputs_in_place(j),
        n <= j.futures.len(),
        ms.len() == j.futures.len() + 1,
        forall|i: int|
            0 <= i < j.futures.len() ==> #[trigger] ms[i + 1] == context_past::<F>(
                j.futures[i],
                ms[i],
            ),
    ensures
        ({
            let (k, m) = slots_polled::<F>(j, ms[0], n);
            &&& m == ms[n as int]
            &&& k.futures.len() == j.futures.len()
            &&& k.outputs.len() == j.outputs.len()
            &&& forall|i: int|
                0 <= i < n ==> #[trigger] k.futures[i] == future_now::<F>(j.futures[i], ms[i])
            &&& forall|i: int|
                0 <= i < n ==> #[trigger] k.outputs[i] == output_now::<F>(
                    j.futures[i],
                    j.outputs[i],
                    ms[i],
                )
            &&& forall|i: int| n <= i < j.futures.len() ==> #[trigger] k.futures[i] == j.futures[i]
            &&& forall|i: int| n <= i < j.futures.len() ==> #[trigger] k.outputs[i] == j.outputs[i]
        }),
    decreases n,
{
    if n > 0 {
        lemma_slots_polled::<F>(j, ms, (n - 1) as nat);
        assert(ms[(n - 1) + 1] == context_past::<F>(j.futures[n - 1], ms[n - 1]));
        assert(j.futures[n - 1] is None <==> j.outputs[n - 1] is Some);
    }
}

/// A join of any number of futures polls each of them once, in order. It is ready
/// exactly when every slot has its output, and hands these out in the order of the
/// futures; otherwise it keeps the outputs that are there and the futures that are
/// pending. `ms` are the contexts that the futures are polled in.
pub proof fn law_a_join_waits_for_all<F: Pollable>(
    join: &mut PollAllJoin<F>,
    ctx: &mut OrchestrationContext,
    r: Option<Vec<F::Output>>,
    ms: Seq<CtxModel>,
)
    requires
        call_ensures(PollAllJoin::<F>::poll, (join, ctx), r),
        old(join).wf(),
        ms.len() == old(join)@.futures.len() + 1,
        ms[0] == old(ctx)@,
        forall|i: int|
            0 <= i < old(join)@.futures.len() ==> #[trigger] ms[i + 1] == context_past::<F>(
                old(join)@.futures[i],
                ms[i],
            ),
    ensures
        final(ctx)@ == ms.last(),
        r is Some <==> forall|i: int|
            0 <= i < old(join)@.futures.len() ==> output_now::<F>(
                #[trigger] old(join)@.futures[i],
                old(join)@.outputs[i],
                ms[i],
            ) is Some,
        r matches Some(v) ==> v@.len() == old(join)@.futures.len() && forall|i: int|
            0 <= i < v@.len() ==> Some(#[trigger] v@[i]) == output_now::<F>(
                old(join)@.futures[i],
                old(join)@.outputs[i],
                ms[i],
            ),
        r is None ==> {
            &&& final(join)@.futures.len() == old(join)@.futures.len()
            &&& forall|i: int|
                0 <= i < old(join)@.futures.len() ==> #[trigger] final(join)@.futures[i]
                    == future_now::<F>(old(join)@.futures[i], ms[i])
            &&& forall|i: int|
                0 <= i < old(join)@.futures.len() ==> #[trigger] final(join)@.outputs[i]
                    == output_now::<F>(old(join)@.futures[i], old(join)@.outputs[i], ms[i])
        },
{
    let j = old(join)@;
    let n = j.futures.len();
    lemma_slots_polled::<F>(j, ms, n);
    let (k, m) = slots_polled::<F>(j, ms[0], n);
    assert forall|i: int| 0 <= i < n implies (#[trigger] k.futures[i] is None <==> output_now::<F>(
        j.futures[i],
        j.outputs[i],
        ms[i],
    ) is Some) by {
        assert(j.futures[i] is None <==> j.outputs[i] is Some);
    }
    if all_done(k) {
        assert forall|i: int| 0 <= i < n implies output_now::<F>(
            #[trigger] j.futures[i],
            j.outputs[i],
            ms[i],
        ) is Some by {
            assert(k.futures[i] is None);
        }
        if let Some(v) = r {
            assert forall|i: int| 0 <= i < v@.len() implies Some(#[trigger] v@[i])
                == output_now::<F>(j.futures[i], j.outputs[i], ms[i]) by {
                assert(k.futures[i] is None);
                assert(k.outputs[i] is Some);
            }
        }
    } else {
        let i = choose|i: int| 0 <= i < k.futures.len() && !((#[trigger] k.futures[i]) is None);
        assert(output_now::<F>(j.futures[i], j.outputs[i], ms[i]) is None);
    }
}

pub proof fn lemma_slots_disposed<F: Pollable>(
    futures: Seq<Option<F::V>>,
    ms: Seq<CtxModel>,
    n: nat,
)
    requires
        n <= futures.len(),
        ms.len() == futures.len() + 1,
        forall|i: int|
            0 <= i < futures.len() ==> #[trigger] ms[i + 1] == (match futures[i] {
                Some(f) => F::after_dispose(f, ms[i]),
                None => ms[i],
            }),
    ensures
        slots_disposed::<F>(futures, ms[0], n) == ms[n as int],
    decreases n,
{
    if n > 0 {
        lemma_slots_disposed::<F>(futures, ms, (n - 1) as nat);
        assert(ms[(n - 1) + 1] == ms[n as int]);
    }
}

/// Giving a join of any number of futures up gives up each future that is still
/// pending, in order, and no other one.
pub proof fn law_a_join_gives_up_all_that_is_pending<F: Pollable>(
    join: PollAllJoin<F>,
    ctx: &mut OrchestrationContext,
    ms: Seq<CtxModel>,
)
    requires
        call_ensures(PollAllJoin::<F>::dispose, (join, ctx), ()),
        ms.len() == join@.futures.len() + 1,
        ms[0] == old(ctx)@,
        forall|i: int|
            0 <= i < join@.futures.len() ==> #[trigger] ms[i + 1] == (match join@.futures[i] {
                Some(f) => F::after_dispose(f, ms[i]),
                None => ms[i],
            }),
    ensures
        final(ctx)@ == ms.last(),
{
    lemma_slots_disposed::<F>(join@.futures, ms, join@.futures.len());
}

/// A join and a race hold the futures that they were made of, in their order, and
/// no output yet.
pub proof fn law_joins_and_races_hold_their_futures<F1: Pollable, F2: Pollable, F3: Pollable>(
    ctx: &OrchestrationContext,
    futures: Vec<F1>,
    f1: F1,
    f2: F2,
    f3: F3,
    all: PollAllJoin<F1>,
    two: PollAllJoin2<F1, F2>,
    three: PollAllJoin3<F1, F2, F3>,
    race2: Select2<F1, F2>,
    race3: Select3<F1, F2, F3>,
)
    requires
        call_ensures(OrchestrationContext::join::<F1>, (ctx, futures), all),
        call_ensures(OrchestrationContext::join2::<F1, F2>, (ctx, f1, f2), two),
        call_ensures(OrchestrationContext::join3::<F1, F2, F3>, (ctx, f1, f2, f3), three),
        call_ensures(OrchestrationContext::select2::<F1, F2>, (ctx, f1, f2), race2),
        call_ensures(OrchestrationContext::select3::<F1, F2, F3>, (ctx, f1, f2, f3), race3),
    ensures
        all@.futures.len() == futures@.len() && all@.outputs.len() == futures@.len(),
        forall|i: int| 0 <= i < futures@.len() ==> #[trigger] all@.futures[i] == Some(futures@[i]@),
        forall|i: int| 0 <= i < futures@.len() ==> (#[trigger] all@.outputs[i]) is None,
        two@.f1 == Some(f1@) && two@.f2 == Some(f2@),
        two@.output1 is None && two@.output2 is None,
        three@.f1 == Some(f1@) && three@.f2 == Some(f2@) && three@.f3 == Some(f3@),
        three@.output1 is None && three@.output2 is None && three@.output3 is None,
        race2@.f1 == f1@ && race2@.f2 == f2@,
        race3@.f1 == f1@ && race3@.f2 == f2@ && race3@.f3 == f3@,
{
}

} // verus!
