//! Retrying activities.
use crate::action::{Action, CompletionResult};
use crate::context::{self, CtxModel};
use crate::error::copy_text;
use crate::future::{self, DurableFuture, FutureModel, Outcome, Pollable};
use crate::orchestration::{self, OrchestrationContext};
use crate::text::{self, u64_text};
use crate::time::{self, Duration, MAX_NANOS, NANOS_PER_MILLI, NANOS_PER_SEC};
use crate::trace::{self, TraceEntry, TraceLevel};
use vstd::prelude::*;

verus! {

/// The bits of the double-precision number 2.0.
pub const MULTIPLIER_TWO: u64 = 0x4000_0000_0000_0000;

/// How long to wait between attempts.
#[derive(Debug, Clone, Copy, PartialEq, Eq, Structural)]
pub enum BackoffStrategy {
    /// No delay.
    NoDelay,
    /// The same delay every time.
    Fixed { delay: Duration },
    /// `base` times the attempt number, at most `max`.
    Linear { base: Duration, max: Duration },
    /// `base` times `multiplier` to the power of the attempt number less one,
    /// at most `max`. The multiplier is held as the bits of a double-precision
    /// number, and the caller does the floating-point work.
    Exponential { base: Duration, multiplier_bits: u64, max: Duration },
}

impl BackoffStrategy {
    /// The spans are within bounds.
    pub open spec fn wf(&self) -> bool {
        match *self {
            BackoffStrategy::NoDelay => true,
            BackoffStrategy::Fixed { delay } => delay.wf(),
            BackoffStrategy::Linear { base, max } => base.wf() && max.wf(),
            BackoffStrategy::Exponential { base, max, .. } => base.wf() && max.wf(),
        }
    }
}

/// The delay after attempt `attempt`, in nanoseconds. `scaled` is what an
/// exponential strategy makes of its base, before capping; the others do not
/// look at it.
pub open spec fn backoff_nanos(b: BackoffStrategy, attempt: u32, scaled: u128) -> nat {
    match b {
        BackoffStrategy::NoDelay => 0,
        BackoffStrategy::Fixed { delay } => delay@,
        BackoffStrategy::Linear { base, max } => time::min_nat(
            time::min_nat(base@ * attempt as nat, MAX_NANOS as nat),
            max@,
        ),
        BackoffStrategy::Exponential { max, .. } => time::min_nat(
            time::min_nat(scaled as nat, u64::MAX as nat),
            max@,
        ),
    }
}

impl Default for BackoffStrategy {
    fn default() -> (r: Self)
        ensures
            r.wf(),
            r matches BackoffStrategy::Exponential { base, multiplier_bits, max } && base@ == 100
                * NANOS_PER_MILLI && multiplier_bits == MULTIPLIER_TWO && max@ == 30
                * NANOS_PER_SEC,
    {
        BackoffStrategy::Exponential {
            base: Duration::from_millis(100),
            multiplier_bits: MULTIPLIER_TWO,
            max: Duration::from_secs(30),
        }
    }
}

impl BackoffStrategy {
    /// The delay after attempt `attempt`, counted from 1. For an exponential
    /// strategy, `scaled_nanos` is its base in nanoseconds times the
    /// multiplier to the power of the attempt number less one.
    pub fn delay_for_attempt(&self, attempt: u32, scaled_nanos: u128) -> (r: Duration)
        requires
            self.wf(),
        ensures
            r.wf(),
            r@ == backoff_nanos(*self, attempt, scaled_nanos),
    {
        match self {
            BackoffStrategy::NoDelay => Duration::zero(),
            BackoffStrategy::Fixed { delay } => *delay,
            BackoffStrategy::Linear { base, max } => base.saturating_mul(attempt).shorter(max),
            BackoffStrategy::Exponential { max, .. } => {
                let capped: u64 = if scaled_nanos <= u64::MAX as u128 {
                    scaled_nanos as u64
                } else {
                    u64::MAX
                };
                Duration::from_nanos(capped).shorter(max)
            },
        }
    }
}

/// Longer and longer, but never beyond the cap: linear delays do not shrink
/// from attempt to attempt.
pub proof fn law_linear_backoff_grows_to_its_cap(
    base: Duration,
    max: Duration,
    a: u32,
    b: u32,
    scaled: u128,
)
    requires
        a <= b,
    ensures
        ({
            let s = BackoffStrategy::Linear { base, max };
            backoff_nanos(s, a, scaled) <= backoff_nanos(s, b, scaled) <= max@
        }),
{
    assert(base@ * a as nat <= base@ * b as nat) by (nonlinear_arith)
        requires
            a <= b,
    ;
}

/// How often, how soon and how long an activity is tried.
#[derive(Debug, Clone, Copy, PartialEq, Eq, Structural)]
pub struct RetryPolicy {
    /// The number of attempts, the first included.
    pub max_attempts: u32,
    /// The delay between attempts.
    pub backoff: BackoffStrategy,
    /// How long one attempt may take. An attempt that takes longer ends the
    /// whole with an error.
    pub timeout: Option<Duration>,
}

impl RetryPolicy {
    /// The spans are within bounds.
    pub open spec fn wf(&self) -> bool {
        self.backoff.wf() && (self.timeout matches Some(t) ==> t.wf())
    }
}

impl Default for RetryPolicy {
    fn default() -> (r: Self)
        ensures
            r.wf(),
            r.max_attempts == 3,
            r.timeout is None,
            r.backoff matches BackoffStrategy::Exponential { base, multiplier_bits, max } && base@
                == 100 * NANOS_PER_MILLI && multiplier_bits == MULTIPLIER_TWO && max@ == 30
                * NANOS_PER_SEC,
    {
        RetryPolicy { max_attempts: 3, backoff: BackoffStrategy::default(), timeout: None }
    }
}

impl RetryPolicy {
    /// A policy of `max_attempts` attempts with the default backoff.
    pub fn new(max_attempts: u32) -> (r: Self)
        requires
            max_attempts >= 1,
        ensures
            r.wf(),
            r.max_attempts == max_attempts,
            r.timeout is None,
            r.backoff matches BackoffStrategy::Exponential { base, multiplier_bits, max } && base@
                == 100 * NANOS_PER_MILLI && multiplier_bits == MULTIPLIER_TWO && max@ == 30
                * NANOS_PER_SEC,
    {
        RetryPolicy { max_attempts, backoff: BackoffStrategy::default(), timeout: None }
    }

    /// The policy with a limit on each attempt.
    pub fn with_timeout(self, timeout: Duration) -> (r: Self)
        ensures
            r == (RetryPolicy { timeout: Some(timeout), ..self }),
    {
        RetryPolicy { timeout: Some(timeout), ..self }
    }

    /// The same as [`Self::with_timeout`].
    pub fn with_total_timeout(self, timeout: Duration) -> (r: Self)
        ensures
            r == (RetryPolicy { timeout: Some(timeout), ..self }),
    {
        RetryPolicy { timeout: Some(timeout), ..self }
    }

    /// The policy with another backoff.
    pub fn with_backoff(self, backoff: BackoffStrategy) -> (r: Self)
        ensures
            r == (RetryPolicy { backoff, ..self }),
    {
        RetryPolicy { backoff, ..self }
    }

    /// The delay after attempt `attempt`.
    pub fn delay_for_attempt(&self, attempt: u32, scaled_nanos: u128) -> (r: Duration)
        requires
            self.wf(),
        ensures
            r.wf(),
            r@ == backoff_nanos(self.backoff, attempt, scaled_nanos),
    {
        self.backoff.delay_for_attempt(attempt, scaled_nanos)
    }
}

/// Where a retried activity stands.
enum RetryState {
    /// The next attempt is about to start.
    Ready,
    /// An attempt runs, raced by a timer once it was found pending.
    Running { activity: DurableFuture, deadline: Option<DurableFuture> },
    /// The delay before the next attempt runs.
    Waiting { timer: DurableFuture },
    /// The result was handed out.
    Finished,
}

/// What a retry state stands for.
pub enum RetryStateModel {
    Ready,
    Running { activity: FutureModel, deadline: Option<FutureModel> },
    Waiting { timer: FutureModel },
    Finished,
}

/// What an [`ActivityRetry`] stands for.
pub struct RetryModel {
    pub name: String,
    pub input: String,
    pub session_id: Option<String>,
    pub policy: RetryPolicy,
    /// The current attempt, counted from 1.
    pub attempt: u32,
    pub last_error: String,
    pub state: RetryStateModel,
}

/// An activity with automatic retry: errors are retried as the policy says,
/// timeouts are not. All attempts run on the same session, if one is given.
pub struct ActivityRetry {
    name: String,
    input: String,
    session_id: Option<String>,
    policy: RetryPolicy,
    attempt: u32,
    last_error: String,
    state: RetryState,
}

/// How far one step got.
#[derive(Debug)]
pub enum RetryProgress {
    /// Nothing can happen before the next poll.
    Pending,
    /// The next step can be taken at once.
    Continue,
    /// The activity succeeded, or was given up.
    Done(Result<String, String>),
}

/// One step of a retried activity.
#[derive(Debug)]
pub struct RetryStep {
    pub progress: RetryProgress,
    /// A notice for the log.
    pub notice: Option<TraceEntry>,
}

spec fn opt_future(f: Option<DurableFuture>) -> Option<FutureModel> {
    match f {
        Some(f) => Some(f@),
        None => None,
    }
}

spec fn state_view(s: RetryState) -> RetryStateModel {
    match s {
        RetryState::Ready => RetryStateModel::Ready,
        RetryState::Running { activity, deadline } => RetryStateModel::Running {
            activity: activity@,
            deadline: opt_future(deadline),
        },
        RetryState::Waiting { timer } => RetryStateModel::Waiting { timer: timer@ },
        RetryState::Finished => RetryStateModel::Finished,
    }
}

impl View for ActivityRetry {
    type V = RetryModel;

    closed spec fn view(&self) -> RetryModel {
        RetryModel {
            name: self.name,
            input: self.input,
            session_id: self.session_id,
            policy: self.policy,
            attempt: self.attempt,
            last_error: self.last_error,
            state: state_view(self.state),
        }
    }
}

/// The notice that an attempt failed and another follows.
pub open spec fn retry_notice(r: RetryModel, error: Seq<char>) -> Seq<char> {
    let who = match r.session_id {
        Some(s) => "Activity '"@ + r.name@ + "' (session="@ + s@ + ") attempt "@,
        None => "Activity '"@ + r.name@ + "' attempt "@,
    };
    who + text::decimal(r.attempt as nat) + "/"@ + text::decimal(r.policy.max_attempts as nat)
        + " failed: "@ + error + ". Retrying..."@
}

/// The invariant of a retried activity: attempts are counted from 1 and stay
/// within the policy, and the futures are those of an activity and of timers.
pub open spec fn retry_wf(r: RetryModel) -> bool {
    &&& r.policy.wf()
    &&& 1 <= r.attempt
    &&& r.policy.max_attempts >= 1 ==> r.attempt <= r.policy.max_attempts
    &&& r.policy.max_attempts == 0 ==> r.attempt == 1 && (r.state is Ready || r.state is Finished)
    &&& match r.state {
        RetryStateModel::Running { activity, deadline } => activity.source is Activity && (
        deadline matches Some(d) ==> d.source is Timer),
        RetryStateModel::Waiting { timer } => timer.source is Timer && r.attempt
            < r.policy.max_attempts,
        _ => true,
    }
}

/// The context after the timer that raced an attempt is given up.
pub open spec fn deadline_dropped(deadline: Option<FutureModel>, m: CtxModel) -> CtxModel {
    match deadline {
        Some(d) => DurableFuture::after_dispose(d, m),
        None => m,
    }
}

/// What a step does when an attempt failed with `error`.
pub open spec fn attempt_failed(
    r: RetryModel,
    m: CtxModel,
    error: String,
    now_ms: u64,
    scaled: u128,
    r1: RetryModel,
    m1: CtxModel,
    step: RetryStep,
) -> bool {
    if r.attempt < r.policy.max_attempts {
        &&& exists|text: String|
            text@ == retry_notice(r, error@) && #[trigger] trace::traced(
                step.notice,
                m,
                TraceLevel::Warn,
                "warn"@,
                text,
            )
        &&& step.progress is Continue
        &&& ({
            let delay = backoff_nanos(r.policy.backoff, r.attempt, scaled);
            if delay == 0 {
                &&& m1 == m
                &&& r1 == (RetryModel {
                    attempt: (r.attempt + 1) as u32,
                    last_error: error,
                    state: RetryStateModel::Ready,
                    ..r
                })
            } else {
                &&& m1 == orchestration::timer_scheduled(m, now_ms, delay)
                &&& r1 == (RetryModel {
                    last_error: error,
                    state: RetryStateModel::Waiting { timer: orchestration::timer_future(m) },
                    ..r
                })
            }
        })
    } else {
        &&& m1 == m
        &&& step.notice is None
        &&& step.progress == RetryProgress::Done(Err(error))
        &&& r1 == (RetryModel { last_error: error, state: RetryStateModel::Finished, ..r })
    }
}

/// What one step does.
pub open spec fn retry_stepped(
    r: RetryModel,
    m: CtxModel,
    now_ms: u64,
    scaled: u128,
    r1: RetryModel,
    m1: CtxModel,
    step: RetryStep,
) -> bool {
    match r.state {
        RetryStateModel::Ready => {
            &&& step.notice is None
            &&& if r.attempt > r.policy.max_attempts {
                &&& m1 == m
                &&& step.progress == RetryProgress::Done(Err(r.last_error))
                &&& r1 == (RetryModel { state: RetryStateModel::Finished, ..r })
            } else {
                &&& m1 == context::emitted(
                    m,
                    orchestration::activity_action(r.name, r.input, r.session_id),
                )
                &&& step.progress is Continue
                &&& r1 == (RetryModel {
                    state: RetryStateModel::Running {
                        activity: orchestration::activity_future(m, r.name),
                        deadline: None,
                    },
                    ..r
                })
            }
        },
        RetryStateModel::Running { activity, deadline } => {
            match future::future_outcome(activity, m) {
                Some(Outcome::Finished(Ok(s))) => {
                    &&& step.notice is None
                    &&& m1 == deadline_dropped(deadline, m)
                    &&& step.progress == RetryProgress::Done(Ok(s))
                    &&& r1 == (RetryModel { state: RetryStateModel::Finished, ..r })
                },
                Some(Outcome::Finished(Err(e))) => attempt_failed(
                    r,
                    deadline_dropped(deadline, m),
                    e,
                    now_ms,
                    scaled,
                    r1,
                    m1,
                    step,
                ),
                _ => {
                    &&& step.notice is None
                    &&& match (r.policy.timeout, deadline) {
                        (None, _) => m1 == m && step.progress is Pending && r1 == r,
                        (Some(t), None) => {
                            &&& m1 == orchestration::timer_scheduled(m, now_ms, t@)
                            &&& step.progress is Continue
                            &&& r1 == (RetryModel {
                                state: RetryStateModel::Running {
                                    activity,
                                    deadline: Some(orchestration::timer_future(m)),
                                },
                                ..r
                            })
                        },
                        (Some(_), Some(d)) => {
                            if future::future_outcome(d, m) is Some {
                                &&& m1 == DurableFuture::after_dispose(activity, m)
                                &&& step.progress matches RetryProgress::Done(Err(e)) && e@
                                    == "timeout: activity timed out"@
                                &&& r1 == (RetryModel { state: RetryStateModel::Finished, ..r })
                            } else {
                                m1 == m && step.progress is Pending && r1 == r
                            }
                        },
                    }
                },
            }
        },
        RetryStateModel::Waiting { timer } => {
            &&& step.notice is None
            &&& m1 == m
            &&& if future::future_outcome(timer, m) is Some {
                &&& step.progress is Continue
                &&& r1 == (RetryModel {
                    attempt: (r.attempt + 1) as u32,
                    state: RetryStateModel::Ready,
                    ..r
                })
            } else {
                step.progress is Pending && r1 == r
            }
        },
        RetryStateModel::Finished => true,
    }
}

/// The first state of an activity with automatic retry.
pub open spec fn untried(
    m: RetryModel,
    name: String,
    input: String,
    policy: RetryPolicy,
    session_id: Option<String>,
) -> bool {
    &&& m.name == name
    &&& m.input == input
    &&& m.policy == policy
    &&& m.session_id == session_id
    &&& m.attempt == 1
    &&& m.last_error@ == ""@
    &&& m.state is Ready
}

impl OrchestrationContext {
    /// An activity that is tried again after errors, as the policy says. Its
    /// steps are taken with [`ActivityRetry::step`].
    pub fn schedule_activity_with_retry(
        &self,
        name: String,
        input: String,
        policy: RetryPolicy,
    ) -> (r: ActivityRetry)
        requires
            policy.wf(),
        ensures
            retry_wf(r@),
            untried(r@, name, input, policy, None),
    {
        ActivityRetry::new(name, input, policy, None)
    }

    /// An activity that is tried again after errors, every time on the same
    /// session.
    pub fn schedule_activity_with_retry_on_session(
        &self,
        name: String,
        input: String,
        policy: RetryPolicy,
        session_id: String,
    ) -> (r: ActivityRetry)
        requires
            policy.wf(),
        ensures
            retry_wf(r@),
            untried(r@, name, input, policy, Some(session_id)),
    {
        ActivityRetry::new(name, input, policy, Some(session_id))
    }
}

impl ActivityRetry {
    /// An activity that is to be tried as the policy says.
    pub fn new(
        name: String,
        input: String,
        policy: RetryPolicy,
        session_id: Option<String>,
    ) -> (r: Self)
        requires
            policy.wf(),
        ensures
            retry_wf(r@),
            untried(r@, name, input, policy, session_id),
    {
        ActivityRetry {
            name,
            input,
            session_id,
            policy,
            attempt: 1,
            last_error: "".to_string(),
            state: RetryState::Ready,
        }
    }

    /// The current attempt, counted from 1.
    pub fn attempt(&self) -> (r: u32)
        ensures
            r == self@.attempt,
    {
        self.attempt
    }

    /// The notice that an attempt failed and another follows.
    fn notice_text(&self, error: &String) -> (r: String)
        ensures
            r@ == retry_notice(self@, error@),
    {
        let mut s = "Activity '".to_string();
        s.append(self.name.as_str());
        match &self.session_id {
            Some(id) => {
                s.append("' (session=");
                s.append(id.as_str());
                s.append(") attempt ");
            },
            None => {
                s.append("' attempt ");
            },
        }
        s.append(u64_text(self.attempt as u64).as_str());
        s.append("/");
        s.append(u64_text(self.policy.max_attempts as u64).as_str());
        s.append(" failed: ");
        s.append(error.as_str());
        s.append(". Retrying...");
        s
    }

    /// What follows a failed attempt.
    fn fail_attempt(
        &mut self,
        ctx: &mut OrchestrationContext,
        error: String,
        now_ms: u64,
        scaled_nanos: u128,
    ) -> (step: RetryStep)
        requires
            retry_wf(old(self)@),
            old(self)@.policy.max_attempts >= 1,
            old(ctx).wf(),
            old(ctx)@.next_token < u64::MAX,
        ensures
            final(ctx).wf(),
            retry_wf(final(self)@),
            attempt_failed(
                old(self)@,
                old(ctx)@,
                error,
                now_ms,
                scaled_nanos,
                final(self)@,
                final(ctx)@,
                step,
            ),
    {
        if self.attempt < self.policy.max_attempts {
            let text = self.notice_text(&error);
            let notice = ctx.trace_internal(TraceLevel::Warn, "warn", text);
            assert(trace::traced(notice, ctx@, TraceLevel::Warn, "warn"@, text));
            let delay = self.policy.delay_for_attempt(self.attempt, scaled_nanos);
            self.last_error = error;
            if delay.is_zero() {
                self.attempt = self.attempt + 1;
                self.state = RetryState::Ready;
            } else {
                let timer = ctx.schedule_timer_at(delay, now_ms);
                self.state = RetryState::Waiting { timer };
            }
            RetryStep { progress: RetryProgress::Continue, notice }
        } else {
            self.last_error = error.clone();
            self.state = RetryState::Finished;
            RetryStep { progress: RetryProgress::Done(Err(error)), notice: None }
        }
    }

    /// Takes one step. `scaled_nanos` is what an exponential backoff makes of
    /// its base for the current attempt.
    pub fn step(
        &mut self,
        ctx: &mut OrchestrationContext,
        now_ms: u64,
        scaled_nanos: u128,
    ) -> (step: RetryStep)
        requires
            retry_wf(old(self)@),
            !(old(self)@.state is Finished),
            old(ctx).wf(),
            old(ctx)@.next_token < u64::MAX,
        ensures
            final(ctx).wf(),
            retry_wf(final(self)@),
            retry_stepped(
                old(self)@,
                old(ctx)@,
                now_ms,
                scaled_nanos,
                final(self)@,
                final(ctx)@,
                step,
            ),
    {
        let mut state = RetryState::Finished;
        std::mem::swap(&mut state, &mut self.state);
        match state {
            RetryState::Ready => {
                if self.attempt > self.policy.max_attempts {
                    let e = self.last_error.clone();
                    return RetryStep { progress: RetryProgress::Done(Err(e)), notice: None };
                }
                let activity = ctx.schedule_activity_internal(
                    self.name.clone(),
                    self.input.clone(),
                    copy_text(&self.session_id),
                );
                self.state = RetryState::Running { activity, deadline: None };
                RetryStep { progress: RetryProgress::Continue, notice: None }
            },
            RetryState::Running { activity, deadline } => {
                let mut activity = activity;
                let polled = activity.poll(ctx);
                match polled {
                    Some(Outcome::Finished(Ok(s))) => {
                        if let Some(d) = deadline {
                            d.dispose(ctx);
                        }
                        activity.dispose(ctx);
                        RetryStep { progress: RetryProgress::Done(Ok(s)), notice: None }
                    },
                    Some(Outcome::Finished(Err(e))) => {
                        if let Some(d) = deadline {
                            d.dispose(ctx);
                        }
                        activity.dispose(ctx);
                        self.state = RetryState::Ready;
                        self.fail_attempt(ctx, e, now_ms, scaled_nanos)
                    },
                    _ => match self.policy.timeout {
                        None => {
                            self.state = RetryState::Running { activity, deadline };
                            RetryStep { progress: RetryProgress::Pending, notice: None }
                        },
                        Some(t) => match deadline {
                            None => {
                                let timer = ctx.schedule_timer_at(t, now_ms);
                                self.state = RetryState::Running {
                                    activity,
                                    deadline: Some(timer),
                                };
                                RetryStep { progress: RetryProgress::Continue, notice: None }
                            },
                            Some(d) => {
                                let mut d = d;
                                if d.poll(ctx).is_some() {
                                    activity.dispose(ctx);
                                    d.dispose(ctx);
                                    let e = "timeout: activity timed out".to_string();
                                    RetryStep {
                                        progress: RetryProgress::Done(Err(e)),
                                        notice: None,
                                    }
                                } else {
                                    self.state = RetryState::Running {
                                        activity,
                                        deadline: Some(d),
                                    };
                                    RetryStep { progress: RetryProgress::Pending, notice: None }
                                }
                            },
                        },
                    },
                }
            },
            RetryState::Waiting { timer } => {
                let mut timer = timer;
                if timer.poll(ctx).is_some() {
                    timer.dispose(ctx);
                    self.attempt = self.attempt + 1;
                    self.state = RetryState::Ready;
                    RetryStep { progress: RetryProgress::Continue, notice: None }
                } else {
                    self.state = RetryState::Waiting { timer };
                    RetryStep { progress: RetryProgress::Pending, notice: None }
                }
            },
            RetryState::Finished => RetryStep { progress: RetryProgress::Pending, notice: None },
        }
    }
}

/// A timeout is never retried: it ends the whole, and the attempt that took
/// too long is cancelled.
pub proof fn law_timeout_is_not_retried(
    r: RetryModel,
    m: CtxModel,
    now_ms: u64,
    scaled: u128,
    r1: RetryModel,
    m1: CtxModel,
    step: RetryStep,
    activity: FutureModel,
    deadline: FutureModel,
)
    requires
        r.policy.timeout is Some,
        r.state == (RetryStateModel::Running { activity, deadline: Some(deadline) }),
        !activity.completed,
        future::future_outcome(activity, m) is None,
        future::future_outcome(deadline, m) is Some,
        retry_stepped(r, m, now_ms, scaled, r1, m1, step),
    ensures
        step.progress matches RetryProgress::Done(Err(e)) && e@ == "timeout: activity timed out"@,
        r1.state is Finished,
        m1 == context::token_cancelled(m, activity.token, activity.kind),
        m1.emitted == m.emitted,
{
}

/// No attempt starts beyond the policy: an activity is scheduled only while
/// the attempt number is within the maximum, and the number grows by one from
/// attempt to attempt.
pub proof fn law_attempts_stay_within_the_policy(
    r: RetryModel,
    m: CtxModel,
    now_ms: u64,
    scaled: u128,
    r1: RetryModel,
    m1: CtxModel,
    step: RetryStep,
)
    requires
        retry_wf(r),
        !(r.state is Finished),
        retry_stepped(r, m, now_ms, scaled, r1, m1, step),
    ensures
        r1.attempt == r.attempt || r1.attempt == r.attempt + 1 && r1.state is Ready,
        r1.attempt <= r.policy.max_attempts || r1.attempt == 1,
        r.state is Ready && step.progress is Continue ==> r.attempt <= r.policy.max_attempts,
        r1.policy == r.policy,
{
}

/// The result that was delivered to a future.
pub open spec fn delivered(m: CtxModel, f: FutureModel, result: CompletionResult) -> bool {
    m.results.contains_key(f.token) && m.results[f.token] == result
}

/// Nothing was delivered to a future yet.
pub open spec fn undelivered(m: CtxModel, f: FutureModel) -> bool {
    !m.results.contains_key(f.token)
}

/// An attempt that fails while others are left is followed by another one,
/// whatever the timeout, and whether or not a timer already raced the attempt:
/// nothing is given up, the warning names the activity and the error, and the
/// next state is that of the next attempt or of the delay before it.
pub proof fn law_errors_are_retried(
    retry: &mut ActivityRetry,
    ctx: &mut OrchestrationContext,
    now_ms: u64,
    scaled: u128,
    step: RetryStep,
    activity: FutureModel,
    deadline: Option<FutureModel>,
    error: String,
)
    requires
        call_ensures(ActivityRetry::step, (retry, ctx, now_ms, scaled), step),
        retry_wf(old(retry)@),
        old(retry)@.state == (RetryStateModel::Running { activity, deadline }),
        delivered(old(ctx)@, activity, CompletionResult::ActivityErr(error)),
        old(retry)@.attempt < old(retry)@.policy.max_attempts,
    ensures
        step.progress is Continue,
        final(retry)@.last_error == error,
        match final(retry)@.state {
            RetryStateModel::Ready => final(retry)@.attempt == old(retry)@.attempt + 1,
            RetryStateModel::Waiting { .. } => final(retry)@.attempt == old(retry)@.attempt,
            _ => false,
        },
        final(retry)@.name == old(retry)@.name,
        final(retry)@.input == old(retry)@.input,
        final(retry)@.session_id == old(retry)@.session_id,
        final(retry)@.policy == old(retry)@.policy,
        match step.notice {
            Some(entry) => !old(ctx)@.is_replaying && entry.level == TraceLevel::Warn
                && entry.label@ == "warn"@ && entry.message@ == (match old(retry)@.session_id {
                Some(s) => "Activity '"@ + old(retry)@.name@ + "' (session="@ + s@ + ") attempt "@,
                None => "Activity '"@ + old(retry)@.name@ + "' attempt "@,
            }) + text::decimal(old(retry)@.attempt as nat) + "/"@ + text::decimal(
                old(retry)@.policy.max_attempts as nat,
            ) + " failed: "@ + error@ + ". Retrying..."@,
            None => old(ctx)@.is_replaying,
        },
{
}

/// The last attempt that the policy allows ends the whole with its own error,
/// and no timer and no activity is scheduled any more.
pub proof fn law_the_last_error_is_handed_out(
    retry: &mut ActivityRetry,
    ctx: &mut OrchestrationContext,
    now_ms: u64,
    scaled: u128,
    step: RetryStep,
    activity: FutureModel,
    deadline: Option<FutureModel>,
    error: String,
)
    requires
        call_ensures(ActivityRetry::step, (retry, ctx, now_ms, scaled), step),
        retry_wf(old(retry)@),
        old(retry)@.state == (RetryStateModel::Running { activity, deadline }),
        delivered(old(ctx)@, activity, CompletionResult::ActivityErr(error)),
        old(retry)@.attempt == old(retry)@.policy.max_attempts,
    ensures
        step.progress == RetryProgress::Done(Err(error)),
        final(retry)@.state is Finished,
        final(ctx)@.emitted == old(ctx)@.emitted,
{
}

/// A result ends the whole with that result, on whichever attempt it comes, and
/// even where the time is over as well; a timer that raced it is given up.
pub proof fn law_a_result_ends_the_attempts(
    retry: &mut ActivityRetry,
    ctx: &mut OrchestrationContext,
    now_ms: u64,
    scaled: u128,
    step: RetryStep,
    activity: FutureModel,
    deadline: Option<FutureModel>,
    result: String,
)
    requires
        call_ensures(ActivityRetry::step, (retry, ctx, now_ms, scaled), step),
        retry_wf(old(retry)@),
        old(retry)@.state == (RetryStateModel::Running { activity, deadline }),
        delivered(old(ctx)@, activity, CompletionResult::ActivityOk(result)),
    ensures
        step.progress == RetryProgress::Done(Ok(result)),
        step.notice is None,
        final(retry)@.state is Finished,
        final(ctx)@.emitted == old(ctx)@.emitted,
        deadline matches Some(d) ==> (!d.completed ==> final(ctx)@.cancelled.contains(d.token)),
{
    if let Some(d) = deadline {
        future::law_only_unfinished_work_is_cancelled(d, old(ctx)@);
    }
}

/// An attempt for which nothing came yet stays as it is where the policy has no
/// timeout. Where it has one, a timer over that time is scheduled the first time
/// that the attempt is found pending; once it has fired, the whole ends with an
/// error that says so, and the attempt is cancelled.
pub proof fn law_a_timeout_limits_one_attempt(
    retry: &mut ActivityRetry,
    ctx: &mut OrchestrationContext,
    now_ms: u64,
    scaled: u128,
    step: RetryStep,
    activity: FutureModel,
    deadline: Option<FutureModel>,
)
    requires
        call_ensures(ActivityRetry::step, (retry, ctx, now_ms, scaled), step),
        retry_wf(old(retry)@),
        old(retry)@.state == (RetryStateModel::Running { activity, deadline }),
        undelivered(old(ctx)@, activity),
        !activity.completed,
    ensures
        step.notice is None,
        old(retry)@.policy.timeout is None ==> step.progress is Pending && final(retry)@
            == old(retry)@ && final(ctx)@ == old(ctx)@,
        old(retry)@.policy.timeout matches Some(t) ==> match deadline {
            None => {
                &&& step.progress is Continue
                &&& final(ctx)@.emitted.len() == old(ctx)@.emitted.len() + 1
                &&& final(ctx)@.emitted.last().1 matches Action::CreateTimer { fire_at_ms, .. }
                    && (now_ms + t@ / 1_000_000 <= u64::MAX ==> fire_at_ms == now_ms + t@
                    / 1_000_000)
                &&& final(retry)@.state matches RetryStateModel::Running {
                    activity: a,
                    deadline: Some(d),
                } && a == activity && d.source is Timer && d.token
                    == final(ctx)@.emitted.last().0
                &&& final(retry)@.attempt == old(retry)@.attempt
            },
            Some(d) => {
                &&& delivered(old(ctx)@, d, CompletionResult::TimerFired) ==> {
                    &&& step.progress matches RetryProgress::Done(Err(e)) && e@
                        == "timeout: activity timed out"@
                    &&& final(retry)@.state is Finished
                    &&& final(ctx)@.cancelled.contains(activity.token)
                    &&& final(ctx)@.cancelled_kinds[activity.token] == activity.kind
                    &&& final(ctx)@.emitted == old(ctx)@.emitted
                }
                &&& undelivered(old(ctx)@, d) ==> step.progress is Pending && final(retry)@
                    == old(retry)@ && final(ctx)@ == old(ctx)@
            },
        },
{
    future::law_only_unfinished_work_is_cancelled(activity, old(ctx)@);
    if let Some(t) = old(retry)@.policy.timeout {
        lemma_fire_time(now_ms, t@);
    }
}

proof fn lemma_fire_time(now_ms: u64, delay: nat)
    ensures
        now_ms + delay / 1_000_000 <= u64::MAX ==> orchestration::fire_time(now_ms, delay)
            == now_ms + delay / 1_000_000,
{
    let ms = delay / 1_000_000;
    if now_ms + ms <= u64::MAX {
        assert(ms % (time::U64_RANGE as nat) == ms);
    }
}

/// An attempt schedules the activity with the same name, the same input and on
/// the same session as every other one, and waits for exactly that activity.
/// Where the policy allows no attempt, none is made.
pub proof fn law_every_attempt_is_the_same_activity(
    retry: &mut ActivityRetry,
    ctx: &mut OrchestrationContext,
    now_ms: u64,
    scaled: u128,
    step: RetryStep,
)
    requires
        call_ensures(ActivityRetry::step, (retry, ctx, now_ms, scaled), step),
        retry_wf(old(retry)@),
        old(retry)@.state is Ready,
    ensures
        old(retry)@.policy.max_attempts >= 1 ==> {
            let r = old(retry)@;
            &&& step.progress is Continue
            &&& final(ctx)@.emitted.len() == old(ctx)@.emitted.len() + 1
            &&& final(ctx)@.emitted.last().1 matches Action::CallActivity {
                name,
                input,
                session_id,
                tag,
                ..
            } && name == r.name && input == r.input && session_id == r.session_id && tag is None
            &&& final(retry)@.state matches RetryStateModel::Running { activity, deadline: None }
                && activity.source is Activity && activity.token == final(ctx)@.emitted.last().0
                && !activity.completed
            &&& final(retry)@.attempt == r.attempt
        },
        old(retry)@.policy.max_attempts == 0 ==> {
            &&& step.progress == RetryProgress::Done(Err(old(retry)@.last_error))
            &&& final(ctx)@.emitted == old(ctx)@.emitted
        },
{
}

/// The delay after an error: none without a backoff, and a timer over the time
/// of the backoff where that is longer than nothing. The next attempt starts when
/// the timer has fired, and not before.
pub proof fn law_a_backoff_delays_the_next_attempt(
    retry: &mut ActivityRetry,
    ctx: &mut OrchestrationContext,
    now_ms: u64,
    scaled: u128,
    step: RetryStep,
    activity: FutureModel,
    deadline: Option<FutureModel>,
    error: String,
)
    requires
        call_ensures(ActivityRetry::step, (retry, ctx, now_ms, scaled), step),
        retry_wf(old(retry)@),
        old(retry)@.state == (RetryStateModel::Running { activity, deadline }),
        delivered(old(ctx)@, activity, CompletionResult::ActivityErr(error)),
        old(retry)@.attempt < old(retry)@.policy.max_attempts,
    ensures
        old(retry)@.policy.backoff is NoDelay ==> final(retry)@.state is Ready
            && final(ctx)@.emitted == old(ctx)@.emitted,
        old(retry)@.policy.backoff matches BackoffStrategy::Fixed { delay } ==> {
            &&& delay@ == 0 ==> final(retry)@.state is Ready
            &&& delay@ > 0 ==> waits_for(final(retry)@, old(ctx)@, final(ctx)@, now_ms, delay@)
        },
        old(retry)@.policy.backoff matches BackoffStrategy::Linear { base, max } ==> (0 < base@
            * old(retry)@.attempt <= max@ ==> waits_for(
            final(retry)@,
            old(ctx)@,
            final(ctx)@,
            now_ms,
            (base@ * old(retry)@.attempt) as nat,
        )),
        old(retry)@.policy.backoff matches BackoffStrategy::Exponential { max, .. } ==> (0 < scaled
            <= max@ && scaled <= u64::MAX ==> waits_for(
            final(retry)@,
            old(ctx)@,
            final(ctx)@,
            now_ms,
            scaled as nat,
        )),
{
    match old(retry)@.policy.backoff {
        BackoffStrategy::Fixed { delay } => lemma_fire_time(now_ms, delay@),
        BackoffStrategy::Linear { base, max } => {
            lemma_fire_time(now_ms, (base@ * old(retry)@.attempt) as nat);
        },
        BackoffStrategy::Exponential { .. } => lemma_fire_time(now_ms, scaled as nat),
        _ => {},
    }
}

/// One timer was scheduled, over `delay` nanoseconds from `now_ms`, and the next
/// attempt waits for it.
pub open spec fn waits_for(
    r: RetryModel,
    before: CtxModel,
    after: CtxModel,
    now_ms: u64,
    delay: nat,
) -> bool {
    &&& after.emitted.len() == before.emitted.len() + 1
    &&& after.emitted.last().1 matches Action::CreateTimer { fire_at_ms, .. } && (now_ms + delay
        / 1_000_000 <= u64::MAX ==> fire_at_ms == now_ms + delay / 1_000_000)
    &&& r.state matches RetryStateModel::Waiting { timer } && timer.source is Timer
        && timer.token == after.emitted.last().0
}

/// The delay between two attempts ends when its timer has fired: the next
/// attempt has the next number. Until then nothing happens.
pub proof fn law_the_next_attempt_waits_for_the_delay(
    retry: &mut ActivityRetry,
    ctx: &mut OrchestrationContext,
    now_ms: u64,
    scaled: u128,
    step: RetryStep,
    timer: FutureModel,
)
    requires
        call_ensures(ActivityRetry::step, (retry, ctx, now_ms, scaled), step),
        retry_wf(old(retry)@),
        old(retry)@.state == (RetryStateModel::Waiting { timer }),
    ensures
        step.notice is None,
        final(ctx)@ == old(ctx)@,
        delivered(old(ctx)@, timer, CompletionResult::TimerFired) ==> step.progress is Continue
            && final(retry)@.state is Ready && final(retry)@.attempt == old(retry)@.attempt + 1,
        undelivered(old(ctx)@, timer) ==> step.progress is Pending && final(retry)@ == old(retry)@,
        final(retry)@.last_error == old(retry)@.last_error,
        final(retry)@.name == old(retry)@.name,
        final(retry)@.input == old(retry)@.input,
        final(retry)@.session_id == old(retry)@.session_id,
        final(retry)@.policy == old(retry)@.policy,
{
}

/// What is to be retried starts with attempt 1, before any activity is
/// scheduled, under the given name, input, policy and session.
pub proof fn law_retrying_starts_with_the_first_attempt(
    ctx: &OrchestrationContext,
    name: String,
    input: String,
    policy: RetryPolicy,
    session: String,
    plain: ActivityRetry,
    on_session: ActivityRetry,
)
    requires
        call_ensures(
            OrchestrationContext::schedule_activity_with_retry,
            (ctx, name, input, policy),
            plain,
        ),
        call_ensures(
            OrchestrationContext::schedule_activity_with_retry_on_session,
            (ctx, name, input, policy, session),
            on_session,
        ),
    ensures
        plain@.attempt == 1 && on_session@.attempt == 1,
        plain@.state is Ready && on_session@.state is Ready,
        plain@.last_error@ == ""@ && on_session@.last_error@ == ""@,
        plain@.name == name && on_session@.name == name,
        plain@.input == input && on_session@.input == input,
        plain@.policy == policy && on_session@.policy == policy,
        plain@.session_id is None,
        on_session@.session_id == Some(session),
{
}

/// No delay exceeds the cap of its strategy; a fixed delay is the same after
/// every attempt, and a linear one is the base times the number of the attempt
/// below the cap.
pub proof fn law_delays_follow_their_strategy(
    b: &BackoffStrategy,
    attempt: u32,
    scaled: u128,
    r: Duration,
)
    requires
        call_ensures(BackoffStrategy::delay_for_attempt, (b, attempt, scaled), r),
    ensures
        match *b {
            BackoffStrategy::NoDelay => r@ == 0,
            BackoffStrategy::Fixed { delay } => r@ == delay@,
            BackoffStrategy::Linear { base, max } => r@ <= max@ && r@ <= base@ * attempt && (r@
                == max@ || r@ == base@ * attempt || r@ == MAX_NANOS),
            BackoffStrategy::Exponential { max, .. } => r@ <= max@ && r@ <= scaled && (r@ == max@
                || r@ == scaled || r@ == u64::MAX),
        },
{
}

/// A policy says what it was built with: the number of attempts, no timeout until
/// one is set, and the backoff that was set last; the total timeout is the
/// timeout under another name.
pub proof fn law_policies_keep_their_settings(
    n: u32,
    t: Duration,
    b: BackoffStrategy,
    new: RetryPolicy,
    timed: RetryPolicy,
    total: RetryPolicy,
    backed: RetryPolicy,
)
    requires
        call_ensures(RetryPolicy::new, (n,), new),
        call_ensures(RetryPolicy::with_timeout, (new, t), timed),
        call_ensures(RetryPolicy::with_total_timeout, (new, t), total),
        call_ensures(RetryPolicy::with_backoff, (timed, b), backed),
    ensures
        new.max_attempts == n && timed.max_attempts == n && backed.max_attempts == n,
        new.timeout is None,
        timed.timeout == Some(t) && backed.timeout == Some(t),
        total == timed,
        timed.backoff == new.backoff,
        backed.backoff == b,
        new.backoff matches BackoffStrategy::Exponential { base, multiplier_bits, max } && base@
            == 100_000_000 && multiplier_bits == 0x4000_0000_0000_0000 && max@ == 30_000_000_000,
{
}

/// Where nothing is said, an activity is tried three times, as a policy of three
/// attempts says.
pub proof fn law_three_attempts_are_the_default(r: RetryPolicy, b: BackoffStrategy, p: RetryPolicy)
    requires
        call_ensures(RetryPolicy::default, (), r),
        call_ensures(BackoffStrategy::default, (), b),
        call_ensures(RetryPolicy::new, (3u32,), p),
    ensures
        r.max_attempts == p.max_attempts,
        r.timeout == p.timeout,
        b matches BackoffStrategy::Exponential { base, multiplier_bits, max } && base@
            == 100_000_000 && multiplier_bits == 0x4000_0000_0000_0000 && max@ == 30_000_000_000,
        r.backoff matches BackoffStrategy::Exponential { base, multiplier_bits, max } && base@
            == 100_000_000 && multiplier_bits == 0x4000_0000_0000_0000 && max@ == 30_000_000_000,
        p.backoff matches BackoffStrategy::Exponential { base, multiplier_bits, max } && base@
            == 100_000_000 && multiplier_bits == 0x4000_0000_0000_0000 && max@ == 30_000_000_000,
{
}

/// A policy delays as its backoff does, and what is tried by it starts with
/// attempt 1 and knows its number.
pub proof fn law_a_policy_delays_as_its_backoff(
    p: &RetryPolicy,
    attempt: u32,
    scaled: u128,
    r: Duration,
    b: Duration,
    name: String,
    input: String,
    session_id: Option<String>,
    tried: ActivityRetry,
    n: u32,
)
    requires
        call_ensures(RetryPolicy::delay_for_attempt, (p, attempt, scaled), r),
        call_ensures(BackoffStrategy::delay_for_attempt, (&p.backoff, attempt, scaled), b),
        call_ensures(ActivityRetry::new, (name, input, *p, session_id), tried),
        call_ensures(ActivityRetry::attempt, (&tried,), n),
    ensures
        r@ == b@,
        n == 1 && tried@.attempt == 1,
        tried@.name == name && tried@.input == input && tried@.session_id == session_id,
        tried@.policy == *p,
        tried@.state is Ready,
{
}

} // verus!
