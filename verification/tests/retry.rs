//! Retrying activities.
use duroxide::action::CompletionResult;
use duroxide::retry::{ActivityRetry, RetryProgress, MULTIPLIER_TWO};
use duroxide::time::Duration;
use duroxide::{Action, BackoffStrategy, OrchestrationContext, RetryPolicy};

fn s(text: &str) -> String {
    text.to_string()
}

fn ctx() -> OrchestrationContext {
    let mut ctx = OrchestrationContext::new(vec![], 1, s("inst"), s("Orch"), s("1"), None);
    ctx.set_is_replaying(false);
    ctx
}

fn nanos(d: Duration) -> u128 {
    d.as_nanos()
}

#[test]
fn the_default_policy() {
    let policy = RetryPolicy::default();
    assert_eq!(policy, RetryPolicy::new(3));
    assert_eq!(policy.max_attempts, 3);
    assert_eq!(policy.timeout, None);
    assert_eq!(
        policy.backoff,
        BackoffStrategy::Exponential {
            base: Duration::from_millis(100),
            multiplier_bits: 2.0f64.to_bits(),
            max: Duration::from_secs(30),
        }
    );
    assert_eq!(MULTIPLIER_TWO, 2.0f64.to_bits());
    let limit = Duration::from_secs(5);
    assert_eq!(policy.with_timeout(limit).timeout, Some(limit));
    assert_eq!(policy.with_total_timeout(limit), policy.with_timeout(limit));
    assert_eq!(policy.with_backoff(BackoffStrategy::NoDelay).backoff, BackoffStrategy::NoDelay);
}

#[test]
fn delays_between_attempts() {
    assert_eq!(nanos(BackoffStrategy::NoDelay.delay_for_attempt(4, 7)), 0);
    let fixed = BackoffStrategy::Fixed { delay: Duration::from_secs(2) };
    assert_eq!(nanos(fixed.delay_for_attempt(9, 7)), 2_000_000_000);
    let linear = BackoffStrategy::Linear {
        base: Duration::from_secs(1),
        max: Duration::from_secs(10),
    };
    let seconds: Vec<u128> =
        (1..=4).map(|n| nanos(linear.delay_for_attempt(n, 0)) / 1_000_000_000).collect();
    assert_eq!(seconds, vec![1, 2, 3, 4]);
    assert_eq!(nanos(linear.delay_for_attempt(11, 0)), 10_000_000_000);
    assert_eq!(nanos(linear.delay_for_attempt(u32::MAX, 0)), 10_000_000_000);
    let exponential = BackoffStrategy::Exponential {
        base: Duration::from_millis(100),
        multiplier_bits: MULTIPLIER_TWO,
        max: Duration::from_secs(30),
    };
    assert_eq!(nanos(exponential.delay_for_attempt(3, 400_000_000)), 400_000_000);
    assert_eq!(nanos(exponential.delay_for_attempt(60, u128::MAX)), 30_000_000_000);
    let unbounded = BackoffStrategy::Exponential {
        base: Duration::from_millis(100),
        multiplier_bits: MULTIPLIER_TWO,
        max: Duration::from_secs(u64::MAX),
    };
    assert_eq!(nanos(unbounded.delay_for_attempt(99, u128::MAX)), u64::MAX as u128);
}

/// Takes steps until nothing can happen before the next poll, or to the end.
fn run(
    retry: &mut ActivityRetry,
    ctx: &mut OrchestrationContext,
    notices: &mut Vec<String>,
) -> Option<Result<String, String>> {
    loop {
        let step = retry.step(ctx, 1000, 0);
        if let Some(entry) = step.notice {
            notices.push(entry.message);
        }
        match step.progress {
            RetryProgress::Pending => return None,
            RetryProgress::Continue => {}
            RetryProgress::Done(r) => return Some(r),
        }
    }
}

/// Binds what was scheduled last, and delivers a result to it.
fn deliver(ctx: &mut OrchestrationContext, token: u64, result: CompletionResult) {
    ctx.bind_token(token, token);
    ctx.deliver_result(token, result);
}

#[test]
fn an_activity_that_succeeds_is_not_tried_again() {
    let mut ctx = ctx();
    let mut retry = ctx.schedule_activity_with_retry(s("Work"), s("in"), RetryPolicy::new(3));
    let mut notices = vec![];
    assert_eq!(run(&mut retry, &mut ctx, &mut notices), None);
    deliver(&mut ctx, 1, CompletionResult::ActivityOk(s("fine")));
    assert_eq!(run(&mut retry, &mut ctx, &mut notices), Some(Ok(s("fine"))));
    assert!(notices.is_empty());
    assert_eq!(ctx.get_emitted_actions().len(), 1);
}

#[test]
fn errors_are_retried_as_the_policy_says() {
    let mut ctx = ctx();
    let policy = RetryPolicy::new(3).with_backoff(BackoffStrategy::Linear {
        base: Duration::from_secs(1),
        max: Duration::from_secs(10),
    });
    let mut retry = ctx.schedule_activity_with_retry(s("Work"), s("in"), policy);
    let mut notices = vec![];
    assert_eq!(run(&mut retry, &mut ctx, &mut notices), None);
    deliver(&mut ctx, 1, CompletionResult::ActivityErr(s("e1")));
    assert_eq!(run(&mut retry, &mut ctx, &mut notices), None);
    assert_eq!(retry.attempt(), 1);
    deliver(&mut ctx, 2, CompletionResult::TimerFired);
    assert_eq!(run(&mut retry, &mut ctx, &mut notices), None);
    assert_eq!(retry.attempt(), 2);
    deliver(&mut ctx, 3, CompletionResult::ActivityErr(s("e2")));
    assert_eq!(run(&mut retry, &mut ctx, &mut notices), None);
    deliver(&mut ctx, 4, CompletionResult::TimerFired);
    assert_eq!(run(&mut retry, &mut ctx, &mut notices), None);
    assert_eq!(retry.attempt(), 3);
    deliver(&mut ctx, 5, CompletionResult::ActivityErr(s("e3")));
    assert_eq!(run(&mut retry, &mut ctx, &mut notices), Some(Err(s("e3"))));
    assert_eq!(
        notices,
        vec![
            s("Activity 'Work' attempt 1/3 failed: e1. Retrying..."),
            s("Activity 'Work' attempt 2/3 failed: e2. Retrying..."),
        ]
    );
    let fire_times: Vec<u64> = ctx
        .get_emitted_actions()
        .into_iter()
        .filter_map(|(_, a)| match a {
            Action::CreateTimer { fire_at_ms, .. } => Some(fire_at_ms),
            _ => None,
        })
        .collect();
    assert_eq!(fire_times, vec![2000, 3000]);
}

#[test]
fn without_a_delay_the_next_attempt_follows_at_once() {
    let mut ctx = ctx();
    let policy = RetryPolicy::new(2).with_backoff(BackoffStrategy::NoDelay);
    let mut retry =
        ctx.schedule_activity_with_retry_on_session(s("Work"), s("in"), policy, s("sess-9"));
    let mut notices = vec![];
    assert_eq!(run(&mut retry, &mut ctx, &mut notices), None);
    deliver(&mut ctx, 1, CompletionResult::ActivityErr(s("no")));
    assert_eq!(run(&mut retry, &mut ctx, &mut notices), None);
    assert_eq!(notices, vec![s("Activity 'Work' (session=sess-9) attempt 1/2 failed: no. Retrying...")]);
    for (_, action) in ctx.get_emitted_actions() {
        match action {
            Action::CallActivity { session_id, .. } => {
                assert_eq!(session_id.as_deref(), Some("sess-9"))
            }
            other => panic!("{other:?}"),
        }
    }
    deliver(&mut ctx, 2, CompletionResult::ActivityOk(s("yes")));
    assert_eq!(run(&mut retry, &mut ctx, &mut notices), Some(Ok(s("yes"))));
}

#[test]
fn a_timeout_is_not_retried() {
    let mut ctx = ctx();
    let policy = RetryPolicy::new(5).with_timeout(Duration::from_secs(30));
    let mut retry = ctx.schedule_activity_with_retry(s("Slow"), s(""), policy);
    let mut notices = vec![];
    assert_eq!(run(&mut retry, &mut ctx, &mut notices), None);
    ctx.bind_token(1, 1);
    deliver(&mut ctx, 2, CompletionResult::TimerFired);
    assert_eq!(
        run(&mut retry, &mut ctx, &mut notices),
        Some(Err(s("timeout: activity timed out")))
    );
    assert!(notices.is_empty());
    assert_eq!(ctx.get_cancelled_activity_ids(), vec![1]);
    assert_eq!(ctx.get_emitted_actions().len(), 2);
}

#[test]
fn a_result_beats_the_timeout() {
    let mut ctx = ctx();
    let policy = RetryPolicy::new(5).with_timeout(Duration::from_secs(30));
    let mut retry = ctx.schedule_activity_with_retry(s("Quick"), s(""), policy);
    let mut notices = vec![];
    assert_eq!(run(&mut retry, &mut ctx, &mut notices), None);
    deliver(&mut ctx, 2, CompletionResult::TimerFired);
    deliver(&mut ctx, 1, CompletionResult::ActivityOk(s("in time")));
    assert_eq!(run(&mut retry, &mut ctx, &mut notices), Some(Ok(s("in time"))));
}

#[test]
fn no_attempts_give_an_empty_error() {
    let mut ctx = ctx();
    let policy = RetryPolicy { max_attempts: 0, ..RetryPolicy::default() };
    let mut retry = ctx.schedule_activity_with_retry(s("Never"), s(""), policy);
    assert_eq!(run(&mut retry, &mut ctx, &mut vec![]), Some(Err(s(""))));
    assert!(ctx.get_emitted_actions().is_empty());
}
