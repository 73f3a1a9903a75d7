//! The context of a turn: scheduling, delivery, events, status and keys.
use duroxide::action::CompletionResult;
use duroxide::context::{CtxInner, SystemStats};
use duroxide::future::{Outcome, Pollable};
use duroxide::ids::{
    SYSCALL_ACTIVITY_GET_KV_VALUE, SYSCALL_ACTIVITY_NEW_GUID, SYSCALL_ACTIVITY_UTC_NOW_MS,
};
use duroxide::orchestration::parse_utc_now;
use duroxide::time::Duration;
use duroxide::trace::TraceLevel;
use duroxide::{Action, OrchestrationContext};

fn s(text: &str) -> String {
    text.to_string()
}

fn ctx() -> OrchestrationContext {
    OrchestrationContext::new(vec![], 1, s("inst-1"), s("Orders"), s("1.2.0"), None)
}

/// The actions with their tokens, drained.
fn drain(ctx: &mut OrchestrationContext) -> Vec<(u64, Action)> {
    ctx.drain_emitted_actions()
}

#[test]
fn a_fresh_turn_replays_and_knows_where_it_is() {
    let mut ctx = ctx();
    assert!(ctx.is_replaying());
    assert_eq!(ctx.instance_id(), "inst-1");
    assert_eq!(ctx.execution_id(), 1);
    assert_eq!(ctx.orchestration_name(), "Orders");
    assert_eq!(ctx.orchestration_version(), "1.2.0");
    assert_eq!(ctx.tokens_left(), u64::MAX);
    assert!(ctx.get_emitted_actions().is_empty());
    ctx.set_is_replaying(false);
    assert!(!ctx.is_replaying());
}

#[test]
fn scheduling_emits_actions_under_fresh_tokens() {
    let mut ctx = ctx();
    let a = ctx.schedule_activity(s("Charge"), s("42"));
    let b = ctx.schedule_activity_on_session(s("Ship"), s("x"), s("sess"));
    let t = ctx.schedule_timer_at(Duration::from_millis(1500), 10_000);
    assert_eq!((a.token(), b.token(), t.token()), (1, 2, 3));
    assert_eq!(ctx.get_emitted_actions().len(), 3);
    assert_eq!(
        drain(&mut ctx),
        vec![
            (
                1,
                Action::CallActivity {
                    scheduling_event_id: 0,
                    name: s("Charge"),
                    input: s("42"),
                    session_id: None,
                    tag: None,
                }
            ),
            (
                2,
                Action::CallActivity {
                    scheduling_event_id: 0,
                    name: s("Ship"),
                    input: s("x"),
                    session_id: Some(s("sess")),
                    tag: None,
                }
            ),
            (3, Action::CreateTimer { scheduling_event_id: 0, fire_at_ms: 11_500 }),
        ]
    );
    assert!(ctx.get_emitted_actions().is_empty());
    // Tokens go on after a drain.
    assert_eq!(ctx.schedule_wait(s("Go")).token(), 4);
}

#[test]
fn timers_are_cut_to_milliseconds_and_never_overflow() {
    let mut ctx = ctx();
    let _ = ctx.schedule_timer_at(Duration::from_nanos(1_999_999), 7);
    let _ = ctx.schedule_timer_at(Duration::from_millis(100), u64::MAX - 5);
    let actions = drain(&mut ctx);
    assert_eq!(actions[0].1, Action::CreateTimer { scheduling_event_id: 0, fire_at_ms: 8 });
    assert_eq!(actions[1].1, Action::CreateTimer { scheduling_event_id: 0, fire_at_ms: u64::MAX });
    // From the wall clock: some time after 2020.
    let _ = ctx.schedule_timer(Duration::from_secs(1));
    match &drain(&mut ctx)[0].1 {
        Action::CreateTimer { fire_at_ms, .. } => assert!(*fire_at_ms > 1_577_836_800_000),
        other => panic!("{other:?}"),
    }
}

#[test]
fn a_tag_is_set_on_the_action_that_was_emitted() {
    let mut ctx = ctx();
    let f = ctx.schedule_activity(s("Render"), s("{}"));
    let f = f.with_tag(&mut ctx, s("gpu"));
    assert_eq!(f.token(), 1);
    match &ctx.get_emitted_actions()[0].1 {
        Action::CallActivity { tag, .. } => assert_eq!(tag.as_deref(), Some("gpu")),
        other => panic!("{other:?}"),
    }
}

#[test]
fn results_complete_the_futures_that_wait_for_them() {
    let mut ctx = ctx();
    let mut a = ctx.schedule_activity(s("A"), s(""));
    let mut b = ctx.schedule_activity(s("B"), s(""));
    let mut t = ctx.schedule_timer_at(Duration::from_secs(1), 0);
    ctx.bind_token(a.token(), 11);
    ctx.bind_token(b.token(), 12);
    ctx.bind_token(t.token(), 13);
    assert_eq!(a.poll(&mut ctx), None);
    ctx.deliver_result(12, CompletionResult::ActivityErr(s("boom")));
    ctx.deliver_result(13, CompletionResult::TimerFired);
    // A result for an unknown ID is dropped.
    ctx.deliver_result(99, CompletionResult::ActivityOk(s("lost")));
    assert_eq!(a.poll(&mut ctx), None);
    assert_eq!(b.poll(&mut ctx), Some(Outcome::Finished(Err(s("boom")))));
    assert_eq!(t.poll(&mut ctx), Some(Outcome::Fired));
    ctx.deliver_result(11, CompletionResult::ActivityOk(s("done")));
    assert!(!a.is_completed());
    assert_eq!(a.poll(&mut ctx), Some(Outcome::Finished(Ok(s("done")))));
    assert!(a.is_completed());
    // Polling again gives the same.
    assert_eq!(a.poll(&mut ctx), Some(Outcome::Finished(Ok(s("done")))));
}

#[test]
fn a_result_of_the_wrong_kind_completes_nothing() {
    let mut ctx = ctx();
    let mut a = ctx.schedule_activity(s("A"), s(""));
    ctx.bind_token(a.token(), 5);
    ctx.deliver_result(5, CompletionResult::TimerFired);
    assert_eq!(a.poll(&mut ctx), None);
}

#[test]
fn giving_up_unfinished_work_cancels_it() {
    let mut ctx = ctx();
    let a = ctx.schedule_activity(s("A"), s(""));
    let mut b = ctx.schedule_activity(s("B"), s(""));
    let sub = ctx.schedule_sub_orchestration(s("Child"), s("in"));
    ctx.bind_token(a.token(), 21);
    ctx.bind_token(b.token(), 22);
    ctx.bind_token(sub.token(), 23);
    ctx.bind_sub_orchestration_instance(sub.token(), s("inst-1::sub::23"));
    ctx.deliver_result(22, CompletionResult::ActivityOk(s("ok")));
    assert!(b.poll(&mut ctx).is_some());
    a.dispose(&mut ctx);
    b.dispose(&mut ctx);
    sub.dispose(&mut ctx);
    assert_eq!(ctx.get_cancelled_activity_ids(), vec![21]);
    assert_eq!(
        ctx.get_cancelled_sub_orchestration_cancellations(),
        vec![(23, s("inst-1::sub::23"))]
    );
    assert!(ctx.get_cancelled_external_wait_ids().is_empty());
    ctx.clear_cancelled_tokens();
    assert!(ctx.get_cancelled_activity_ids().is_empty());
}

#[test]
fn positional_events_are_matched_in_order() {
    let mut ctx = ctx();
    let mut first = ctx.schedule_wait(s("Go"));
    let mut second = ctx.schedule_wait(s("Go"));
    ctx.bind_token(first.token(), 1);
    ctx.bind_external_subscription(1, "Go");
    ctx.bind_token(second.token(), 2);
    ctx.bind_external_subscription(2, "Go");
    assert!(ctx.has_pending_subscription_slot("Go"));
    assert!(!ctx.has_pending_subscription_slot("Stop"));
    ctx.deliver_external_event(s("Stop"), s("no"));
    ctx.deliver_external_event(s("Go"), s("one"));
    assert_eq!(second.poll(&mut ctx), None);
    assert_eq!(first.poll(&mut ctx), Some(Outcome::Received(s("one"))));
    ctx.deliver_external_event(s("Go"), s("two"));
    assert!(!ctx.has_pending_subscription_slot("Go"));
    assert_eq!(second.poll(&mut ctx), Some(Outcome::Received(s("two"))));
}

#[test]
fn a_cancelled_positional_wait_takes_no_event() {
    let mut ctx = ctx();
    let mut first = ctx.schedule_wait(s("Go"));
    let mut second = ctx.schedule_wait(s("Go"));
    ctx.bind_token(first.token(), 1);
    ctx.bind_external_subscription(1, "Go");
    ctx.bind_token(second.token(), 2);
    ctx.bind_external_subscription(2, "Go");
    ctx.mark_external_subscription_cancelled(1);
    ctx.deliver_external_event(s("Go"), s("only"));
    assert_eq!(first.poll(&mut ctx), None);
    assert_eq!(second.poll(&mut ctx), Some(Outcome::Received(s("only"))));
}

#[test]
fn queue_messages_are_taken_once_and_in_order() {
    let mut ctx = ctx();
    ctx.deliver_queue_message(s("inbox"), s("m1"));
    ctx.deliver_queue_message(s("other"), s("x"));
    ctx.deliver_queue_message(s("inbox"), s("m2"));
    let mut a = ctx.dequeue_event(s("inbox"));
    let mut b = ctx.schedule_wait_persistent(s("inbox"));
    ctx.bind_token(a.token(), 1);
    ctx.bind_queue_subscription(1, "inbox");
    ctx.bind_token(b.token(), 2);
    ctx.bind_queue_subscription(2, "inbox");
    // Whichever is polled first, each takes the message of its place.
    assert_eq!(b.poll(&mut ctx), Some(Outcome::Received(s("m2"))));
    assert_eq!(a.poll(&mut ctx), Some(Outcome::Received(s("m1"))));
    assert_eq!(a.poll(&mut ctx), None);
    assert_eq!(b.poll(&mut ctx), None);
}

#[test]
fn a_queue_message_is_handed_out_at_most_once() {
    let mut c = CtxInner::new(vec![], 1, s("i"), s("o"), s("1"), None);
    for id in 1..4 {
        c.bind_queue_subscription(id, "q");
    }
    c.deliver_queue_message(s("q"), s("m0"));
    c.deliver_queue_message(s("q"), s("m1"));
    assert_eq!(c.get_queue_message(2), Some(s("m1")));
    c.mark_queue_subscription_cancelled(1);
    assert_eq!(c.get_queue_message(3), Some(s("m0")));
    assert_eq!(c.get_queue_message(3), None);
    c.bind_queue_subscription(4, "q");
    assert_eq!(c.get_queue_message(4), None);
    c.deliver_queue_message(s("q"), s("m2"));
    assert_eq!(c.get_queue_message(4), Some(s("m2")));
}

#[test]
fn the_order_of_polls_does_not_matter_to_a_queue() {
    for order in [[1u64, 2, 3], [3, 2, 1], [2, 3, 1]] {
        let mut c = CtxInner::new(vec![], 1, s("i"), s("o"), s("1"), None);
        for id in 1..4 {
            c.bind_queue_subscription(id, "q");
            c.deliver_queue_message(s("q"), format!("m{id}"));
        }
        for id in order {
            assert_eq!(c.get_queue_message(id), Some(format!("m{id}")));
        }
    }
}

#[test]
fn a_queue_message_goes_to_the_subscription_with_its_number() {
    let mut c = CtxInner::new(vec![], 1, s("i"), s("o"), s("1"), None);
    for id in 1..4 {
        c.bind_queue_subscription(id, "q");
    }
    c.bind_queue_subscription(10, "other");
    c.deliver_queue_message(s("q"), s("m0"));
    c.deliver_queue_message(s("other"), s("x"));
    c.deliver_queue_message(s("q"), s("m1"));
    assert_eq!(c.get_queue_message(1), Some(s("m0")));
    // Subscription 2 is cancelled before it or a later one got a message.
    c.mark_queue_subscription_cancelled(2);
    c.bind_queue_subscription(4, "q");
    // Nothing has arrived for number 2 yet.
    assert_eq!(c.get_queue_message(4), None);
    c.deliver_queue_message(s("q"), s("m2"));
    assert_eq!(c.get_queue_message(4), Some(s("m2")));
    assert_eq!(c.get_queue_message(3), Some(s("m1")));
    assert_eq!(c.get_queue_message(3), None);
    assert_eq!(c.get_queue_message(2), None);
    assert_eq!(c.get_queue_message(10), Some(s("x")));
    assert_eq!(c.get_queue_message(77), None);
}

#[test]
fn a_recorded_decision_turns_logging_on() {
    let mut ctx = ctx();
    assert!(!ctx.is_logging_enabled());
    ctx.schedule_activity(s("A"), s("x"));
    assert!(ctx.is_logging_enabled());
}

#[test]
fn a_cancelled_queue_subscription_leaves_its_message() {
    let mut ctx = ctx();
    ctx.deliver_queue_message(s("inbox"), s("m1"));
    let a = ctx.dequeue_event(s("inbox"));
    let mut b = ctx.dequeue_event(s("inbox"));
    ctx.bind_token(a.token(), 1);
    ctx.bind_queue_subscription(1, "inbox");
    ctx.bind_token(b.token(), 2);
    ctx.bind_queue_subscription(2, "inbox");
    a.dispose(&mut ctx);
    assert_eq!(ctx.get_cancelled_queue_ids(), vec![1]);
    ctx.mark_queue_subscription_cancelled(1);
    assert_eq!(b.poll(&mut ctx), Some(Outcome::Received(s("m1"))));
}

#[test]
fn a_cancelled_topic_subscription_is_skipped() {
    let mut c = CtxInner::new(vec![], 1, s("i"), s("o"), s("1"), None);
    for id in 1..4 {
        c.bind_external_subscription2(id, "Price", "EUR");
    }
    c.bind_external_subscription2(4, "Price", "USD");
    c.deliver_external_event2(s("Price"), s("EUR"), s("1"));
    c.deliver_external_event2(s("Price"), s("EUR"), s("2"));
    c.deliver_external_event2(s("Price"), s("USD"), s("9"));
    assert_eq!(c.get_external_event2(2), Some(s("2")));
    c.mark_external_subscription_cancelled(1);
    assert_eq!(c.get_external_event2(1), None);
    assert_eq!(c.get_external_event2(2), Some(s("1")));
    assert_eq!(c.get_external_event2(3), Some(s("2")));
    assert_eq!(c.get_external_event2(4), Some(s("9")));
}

#[test]
fn topic_events_are_matched_by_name_and_topic() {
    let mut ctx = ctx();
    let mut a = ctx.schedule_wait2(s("Price"), s("EUR"));
    let mut b = ctx.schedule_wait2(s("Price"), s("USD"));
    ctx.bind_token(a.token(), 1);
    ctx.bind_external_subscription2(1, "Price", "EUR");
    ctx.bind_token(b.token(), 2);
    ctx.bind_external_subscription2(2, "Price", "USD");
    ctx.deliver_external_event2(s("Price"), s("USD"), s("1.1"));
    assert_eq!(a.poll(&mut ctx), None);
    assert_eq!(b.poll(&mut ctx), Some(Outcome::Received(s("1.1"))));
}

#[test]
fn a_wait_that_is_not_bound_stays_pending() {
    let mut ctx = ctx();
    let mut a = ctx.schedule_wait(s("Go"));
    ctx.deliver_external_event(s("Go"), s("one"));
    assert_eq!(a.poll(&mut ctx), None);
}

#[test]
fn sub_orchestrations_get_placeholders_unless_they_are_named() {
    let mut ctx = ctx();
    let _ = ctx.schedule_sub_orchestration(s("Child"), s("a"));
    let _ = ctx.schedule_sub_orchestration_with_id(s("Child"), s("my-child"), s("b"));
    let _ = ctx.schedule_sub_orchestration_versioned(s("Child"), Some(s("2.0")), s("c"));
    let _ = ctx.schedule_sub_orchestration_versioned_with_id(s("Child"), None, s("x"), s("d"));
    let started: Vec<(String, Option<String>)> = drain(&mut ctx)
        .into_iter()
        .map(|(_, a)| match a {
            Action::StartSubOrchestration { instance, version, .. } => (instance, version),
            other => panic!("{other:?}"),
        })
        .collect();
    assert_eq!(
        started,
        vec![
            (s("sub::pending_1"), None),
            (s("my-child"), None),
            (s("sub::pending_3"), Some(s("2.0"))),
            (s("x"), None),
        ]
    );
}

#[test]
fn a_sub_orchestration_completes_with_its_result() {
    let mut ctx = ctx();
    let mut f = ctx.schedule_sub_orchestration(s("Child"), s("a"));
    ctx.bind_token(f.token(), 9);
    ctx.deliver_result(9, CompletionResult::SubOrchErr(s("child failed")));
    assert_eq!(f.poll(&mut ctx), Some(Outcome::Finished(Err(s("child failed")))));
    let mut g = ctx.schedule_sub_orchestration(s("Child"), s("b"));
    ctx.bind_token(g.token(), 10);
    ctx.deliver_result(10, CompletionResult::SubOrchOk(s("fine")));
    assert_eq!(g.poll(&mut ctx), Some(Outcome::Finished(Ok(s("fine")))));
}

#[test]
fn detached_starts_and_new_executions_are_actions() {
    let mut ctx = ctx();
    ctx.schedule_orchestration(s("Audit"), s("audit-1"), s("{}"));
    ctx.schedule_orchestration_versioned(s("Audit"), Some(s("3")), s("audit-2"), s("{}"));
    let mut next = ctx.continue_as_new(s("next"));
    let mut later = ctx.continue_as_new_versioned(s("2.0.0"), s("later"));
    for _ in 0..3 {
        assert_eq!(next.poll(&mut ctx), None);
        assert_eq!(later.poll(&mut ctx), None);
    }
    let actions: Vec<Action> = drain(&mut ctx).into_iter().map(|(_, a)| a).collect();
    assert_eq!(
        actions,
        vec![
            Action::StartOrchestrationDetached {
                scheduling_event_id: 0,
                name: s("Audit"),
                version: None,
                instance: s("audit-1"),
                input: s("{}"),
            },
            Action::StartOrchestrationDetached {
                scheduling_event_id: 0,
                name: s("Audit"),
                version: Some(s("3")),
                instance: s("audit-2"),
                input: s("{}"),
            },
            Action::ContinueAsNew { input: s("next"), version: None },
            Action::ContinueAsNew { input: s("later"), version: Some(s("2.0.0")) },
        ]
    );
}

#[test]
fn the_last_status_counts() {
    let mut ctx = ctx();
    assert_eq!(ctx.get_custom_status(), None);
    ctx.seed_custom_status(Some(s("carried")));
    assert_eq!(ctx.get_custom_status(), Some(s("carried")));
    ctx.set_custom_status(s("one"));
    ctx.set_custom_status(s("two"));
    assert_eq!(ctx.get_custom_status(), Some(s("two")));
    ctx.reset_custom_status();
    assert_eq!(ctx.get_custom_status(), None);
    let actions: Vec<Action> = drain(&mut ctx).into_iter().map(|(_, a)| a).collect();
    assert_eq!(
        actions,
        vec![
            Action::UpdateCustomStatus { status: Some(s("one")) },
            Action::UpdateCustomStatus { status: Some(s("two")) },
            Action::UpdateCustomStatus { status: None },
        ]
    );
}

#[test]
fn statistics_are_those_of_the_last_turn() {
    let mut ctx = ctx();
    assert_eq!(ctx.get_system_stats(), None);
    let stats = SystemStats {
        history_event_count: 847,
        history_size_bytes: 52301,
        queue_pending_count: 3,
        kv_user_key_count: 42,
        kv_total_value_bytes: 8192,
    };
    ctx.seed_system_stats(stats);
    assert_eq!(ctx.get_system_stats(), Some(stats));
}

#[test]
fn a_key_that_was_set_is_read_back() {
    let mut ctx = ctx();
    assert_eq!(ctx.get_kv_value("k"), None);
    ctx.set_kv_value_at(s("k"), s("v1"), 100);
    ctx.set_kv_value_at(s("other"), s("w"), 101);
    ctx.set_kv_value_at(s("k"), s("v2"), 102);
    assert_eq!(ctx.get_kv_value("k"), Some(s("v2")));
    assert_eq!(ctx.get_kv_value("other"), Some(s("w")));
    assert_eq!(ctx.get_kv_length(), 2);
    assert_eq!(ctx.get_kv_all_keys(), vec![s("k"), s("other")]);
    assert_eq!(ctx.get_kv_all_values(), vec![(s("k"), s("v2")), (s("other"), s("w"))]);
    ctx.clear_kv_value(s("k"));
    assert_eq!(ctx.get_kv_value("k"), None);
    assert_eq!(ctx.get_kv_length(), 1);
    ctx.clear_all_kv_values();
    assert_eq!(ctx.get_kv_length(), 0);
    let actions: Vec<Action> = drain(&mut ctx).into_iter().map(|(_, a)| a).collect();
    assert_eq!(actions.len(), 5);
    assert_eq!(
        actions[2],
        Action::SetKeyValue { key: s("k"), value: s("v2"), last_updated_at_ms: 102 }
    );
    assert_eq!(actions[3], Action::ClearKeyValue { key: s("k") });
    assert_eq!(actions[4], Action::ClearKeyValues);
}

#[test]
fn setting_a_key_stamps_the_wall_clock() {
    let mut ctx = ctx();
    ctx.set_kv_value(s("k"), s("v"));
    match &drain(&mut ctx)[0].1 {
        Action::SetKeyValue { last_updated_at_ms, .. } => {
            assert!(*last_updated_at_ms > 1_577_836_800_000)
        }
        other => panic!("{other:?}"),
    }
}

#[test]
fn pruning_clears_old_keys_and_never_those_of_this_turn() {
    let mut ctx = ctx();
    ctx.seed_kv_value(s("old"), s("1"), 50);
    ctx.seed_kv_value(s("edge"), s("2"), 100);
    ctx.seed_kv_value(s("new"), s("3"), 150);
    ctx.seed_kv_value(s("rewritten"), s("4"), 10);
    ctx.set_kv_value_at(s("rewritten"), s("5"), 20);
    let _ = drain(&mut ctx);
    assert_eq!(ctx.prune_kv_values_updated_before(100), 1);
    assert_eq!(ctx.get_kv_value("old"), None);
    assert_eq!(ctx.get_kv_value("edge"), Some(s("2")));
    assert_eq!(ctx.get_kv_value("rewritten"), Some(s("5")));
    assert_eq!(drain(&mut ctx), vec![(2, Action::ClearKeyValue { key: s("old") })]);
    assert_eq!(ctx.prune_kv_values_updated_before(u64::MAX), 2);
    assert_eq!(ctx.get_kv_all_keys(), vec![s("rewritten")]);
}

#[test]
fn built_in_activities_have_reserved_names() {
    let mut ctx = ctx();
    let _ = ctx.new_guid();
    let _ = ctx.utc_now();
    let _ = ctx.get_kv_value_from_instance(s("other \"inst\""), s("key"));
    let calls: Vec<(String, String)> = drain(&mut ctx)
        .into_iter()
        .map(|(_, a)| match a {
            Action::CallActivity { name, input, .. } => (name, input),
            other => panic!("{other:?}"),
        })
        .collect();
    assert_eq!(calls[0], (s(SYSCALL_ACTIVITY_NEW_GUID), s("")));
    assert_eq!(calls[1], (s(SYSCALL_ACTIVITY_UTC_NOW_MS), s("")));
    assert_eq!(
        calls[2],
        (
            s(SYSCALL_ACTIVITY_GET_KV_VALUE),
            s("{\"instance_id\":\"other \\\"inst\\\"\",\"key\":\"key\"}")
        )
    );
}

#[test]
fn the_clock_activity_is_read_as_a_number() {
    assert_eq!(parse_utc_now(Ok(s("1700000000000"))), Ok(1_700_000_000_000));
    assert_eq!(parse_utc_now(Ok(s("+5"))), Ok(5));
    assert_eq!(parse_utc_now(Err(s("down"))), Err(s("down")));
    assert_eq!(parse_utc_now(Ok(s(""))), Err(s("cannot parse integer from empty string")));
    assert_eq!(parse_utc_now(Ok(s("12x"))), Err(s("invalid digit found in string")));
    assert_eq!(
        parse_utc_now(Ok(s("18446744073709551616"))),
        Err(s("number too large to fit in target type"))
    );
}

#[test]
fn traces_are_silent_during_replay() {
    let mut ctx = ctx();
    assert!(ctx.trace_info(s("hello")).is_none());
    ctx.set_is_replaying(false);
    let entry = ctx.trace_info(s("hello")).unwrap();
    assert_eq!(entry.level, TraceLevel::Info);
    assert_eq!(entry.message, "hello");
    assert_eq!(entry.instance_id, "inst-1");
    assert_eq!(entry.orchestration_name, "Orders");
    assert_eq!(ctx.trace_warn(s("w")).unwrap().level, TraceLevel::Warn);
    assert_eq!(ctx.trace_error(s("e")).unwrap().level, TraceLevel::Error);
    assert_eq!(ctx.trace_debug(s("d")).unwrap().level, TraceLevel::Debug);
    // Levels are read whatever their case, and others are kept by name.
    assert_eq!(ctx.trace("warn", s("w")).unwrap().level, TraceLevel::Warn);
    assert_eq!(ctx.trace("Error", s("e")).unwrap().level, TraceLevel::Error);
    let other = ctx.trace("verbose", s("v")).unwrap();
    assert_eq!(other.level, TraceLevel::Trace);
    assert_eq!(other.label, "verbose");
}
