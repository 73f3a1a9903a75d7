//! The client: messages, status, waits and errors.
use duroxide::client::{
    classify_delete_error, AdminCall, ChangeStep, Wait, WaitStep, INITIAL_POLL_DELAY_MS,
    MAX_POLL_DELAY_MS, POLL_DELAY_MULTIPLIER,
};
use duroxide::error::AppErrorKind;
use duroxide::time::Duration;
use duroxide::{
    Client, ClientError, ErrorDetails, Event, EventKind, InstanceFilter, OrchestrationStatus,
    ProviderError, PruneOptions, WorkItem,
};

fn s(text: &str) -> String {
    text.to_string()
}

fn client() -> Client {
    Client::new(true)
}

fn failure(text: &str, retryable: bool) -> ProviderError {
    ProviderError { message: s(text), text: format!("operation: {text}"), retryable }
}

fn event(kind: EventKind) -> Event {
    Event::with_event_id_at(1, s("inst"), 1, None, kind, 1)
}

fn started() -> Event {
    event(EventKind::OrchestrationStarted {
        name: s("Orch"),
        version: s("1"),
        input: s("{}"),
        parent_instance: None,
        parent_id: None,
        carry_forward_events: None,
        initial_custom_status: None,
    })
}

fn failed(message: &str) -> Event {
    event(EventKind::OrchestrationFailed {
        details: ErrorDetails::Application {
            kind: AppErrorKind::OrchestrationFailed,
            message: s(message),
            retryable: false,
        },
    })
}

#[test]
fn starting_enqueues_the_first_execution_of_a_root() {
    let item = client().start_orchestration(s("order-1"), s("Process"), s("{}"));
    assert_eq!(
        item,
        WorkItem::StartOrchestration {
            instance: s("order-1"),
            orchestration: s("Process"),
            input: s("{}"),
            version: None,
            parent_instance: None,
            parent_id: None,
            execution_id: 1,
        }
    );
    match client().start_orchestration_versioned(s("o"), s("P"), s("2.1"), s("in")) {
        WorkItem::StartOrchestration { version, input, .. } => {
            assert_eq!(version, Some(s("2.1")));
            assert_eq!(input, "in");
        }
        other => panic!("{other:?}"),
    }
}

#[test]
fn inputs_that_cannot_be_encoded_are_refused() {
    assert_eq!(
        client().start_orchestration_typed(s("o"), s("P"), Err(s("bad key"))),
        Err(ClientError::InvalidInput { message: s("encode: bad key") })
    );
    assert_eq!(
        client().start_orchestration_typed(s("o"), s("P"), Ok(s("1"))),
        Ok(client().start_orchestration(s("o"), s("P"), s("1")))
    );
    assert_eq!(
        client().start_orchestration_versioned_typed(s("o"), s("P"), s("2"), Err(s("x"))),
        Err(ClientError::InvalidInput { message: s("encode: x") })
    );
    assert_eq!(
        client().start_orchestration_versioned_typed(s("o"), s("P"), s("2"), Ok(s("1"))),
        Ok(client().start_orchestration_versioned(s("o"), s("P"), s("2"), s("1")))
    );
}

#[test]
fn events_messages_and_cancellations() {
    let c = client();
    assert_eq!(
        c.raise_event(s("i"), s("Go"), s("d")),
        WorkItem::ExternalRaised { instance: s("i"), name: s("Go"), data: s("d") }
    );
    assert_eq!(
        c.enqueue_event(s("i"), s("q"), s("d")),
        WorkItem::QueueMessage { instance: s("i"), name: s("q"), data: s("d") }
    );
    assert_eq!(c.raise_event_persistent(s("i"), s("q"), s("d")), c.enqueue_event(s("i"), s("q"), s("d")));
    assert_eq!(
        c.raise_event2(s("i"), s("Go"), s("t"), s("d")),
        WorkItem::ExternalRaised2 { instance: s("i"), name: s("Go"), topic: s("t"), data: s("d") }
    );
    assert_eq!(
        c.cancel_instance(s("i"), s("why")),
        WorkItem::CancelInstance { instance: s("i"), reason: s("why") }
    );
}

#[test]
fn the_status_is_what_the_history_shows() {
    let c = client();
    let custom = || Ok(Some((Some(s("half")), 4)));
    assert_eq!(
        c.get_orchestration_status(Ok(vec![]), custom()),
        Ok(OrchestrationStatus::NotFound)
    );
    assert_eq!(
        c.get_orchestration_status(Ok(vec![started()]), custom()),
        Ok(OrchestrationStatus::Running { custom_status: Some(s("half")), custom_status_version: 4 })
    );
    let completed = event(EventKind::OrchestrationCompleted { output: s("42") });
    assert_eq!(
        c.get_orchestration_status(Ok(vec![started(), completed.clone()]), Ok(None)),
        Ok(OrchestrationStatus::Completed {
            output: s("42"),
            custom_status: None,
            custom_status_version: 0,
        })
    );
    // The latest end decides.
    match c.get_orchestration_status(Ok(vec![started(), completed, failed("late")]), custom()) {
        Ok(OrchestrationStatus::Failed { details, custom_status_version, .. }) => {
            assert_eq!(details.display_message(), "late");
            assert_eq!(custom_status_version, 4);
        }
        other => panic!("{other:?}"),
    }
    // A failure to read the custom status does not count; one to read the history does.
    assert_eq!(
        c.get_orchestration_status(Ok(vec![started()]), Err(failure("busy", true))),
        Ok(OrchestrationStatus::Running { custom_status: None, custom_status_version: 0 })
    );
    assert_eq!(
        c.get_orchestration_status(Err(failure("gone", false)), custom()),
        Err(ClientError::Provider(failure("gone", false)))
    );
}

fn running() -> Result<OrchestrationStatus, ClientError> {
    Ok(OrchestrationStatus::Running { custom_status: None, custom_status_version: 0 })
}

#[test]
fn a_wait_looks_at_once_and_then_with_growing_delays() {
    let mut wait = client().wait_for_orchestration();
    assert!(matches!(wait.begin::<OrchestrationStatus>(), WaitStep::Look));
    let mut slept = vec![];
    let mut clock_looks = 0;
    for _ in 0..7 {
        let mut step = wait.on_status(running());
        if let WaitStep::CheckClock = step {
            clock_looks += 1;
            step = wait.on_clock(false);
        }
        match step {
            WaitStep::Sleep { ms } => slept.push(ms),
            other => panic!("{other:?}"),
        }
        assert!(matches!(wait.on_clock::<OrchestrationStatus>(false), WaitStep::Look));
    }
    assert_eq!(clock_looks, 1);
    assert_eq!(slept, vec![5, 10, 20, 40, 80, 100, 100]);
    assert!(matches!(
        wait.on_clock::<OrchestrationStatus>(true),
        WaitStep::Finish(Err(ClientError::Timeout))
    ));
    assert_eq!((INITIAL_POLL_DELAY_MS, MAX_POLL_DELAY_MS, POLL_DELAY_MULTIPLIER), (5, 100, 2));
}

#[test]
fn a_wait_whose_time_is_over_after_its_first_look_does_not_sleep() {
    let mut wait = client().wait_for_orchestration();
    assert!(matches!(wait.begin::<OrchestrationStatus>(), WaitStep::Look));
    assert!(matches!(wait.on_status(running()), WaitStep::CheckClock));
    assert!(matches!(
        wait.on_clock::<OrchestrationStatus>(true),
        WaitStep::Finish(Err(ClientError::Timeout))
    ));
    let mut wait = client().wait_for_kv_value();
    assert!(matches!(wait.on_value(Ok(None)), WaitStep::CheckClock));
    assert!(matches!(
        wait.on_clock::<String>(true),
        WaitStep::Finish(Err(ClientError::Timeout))
    ));
}

#[test]
fn a_wait_ends_with_the_orchestration_or_a_failure_to_look() {
    let mut wait = Wait::new();
    let done = || OrchestrationStatus::Completed {
        output: s("ok"),
        custom_status: None,
        custom_status_version: 0,
    };
    match wait.on_status(Ok(done())) {
        WaitStep::Finish(Ok(status)) => assert_eq!(status, done()),
        other => panic!("{other:?}"),
    }
    assert!(matches!(
        wait.on_status(Err(ClientError::Provider(failure("down", true)))),
        WaitStep::Finish(Err(ClientError::Provider(_)))
    ));
    assert!(matches!(
        wait.on_status(Ok(OrchestrationStatus::NotFound)),
        WaitStep::CheckClock
    ));
    assert!(matches!(
        wait.on_clock::<OrchestrationStatus>(false),
        WaitStep::Sleep { ms: 5 }
    ));
}

#[test]
fn a_wait_for_a_key_ends_with_its_value() {
    let mut wait = client().wait_for_kv_value();
    assert!(matches!(wait.begin::<String>(), WaitStep::Look));
    assert!(matches!(wait.on_value(Ok(None)), WaitStep::CheckClock));
    assert!(matches!(wait.on_clock::<String>(false), WaitStep::Sleep { ms: 5 }));
    assert!(matches!(wait.on_clock::<String>(false), WaitStep::Look));
    assert!(matches!(wait.on_value(Ok(None)), WaitStep::Sleep { ms: 10 }));
    match wait.on_value(Ok(Some(s("v")))) {
        WaitStep::Finish(Ok(v)) => assert_eq!(v, "v"),
        other => panic!("{other:?}"),
    }
    assert!(matches!(
        wait.on_value(Err(ClientError::Timeout)),
        WaitStep::Finish(Err(ClientError::Timeout))
    ));
}

#[test]
fn a_wait_for_a_change_returns_the_status_after_it() {
    let mut wait = client().wait_for_status_change(2, Duration::from_millis(200));
    assert!(matches!(
        wait.on_clock(false),
        ChangeStep::QueryCustomStatus { last_seen_version: 2 }
    ));
    assert!(matches!(wait.on_custom_status(Ok(None)), ChangeStep::QueryStatus));
    match wait.on_status(running(), Duration::from_millis(50)) {
        ChangeStep::Sleep { span } => assert_eq!(span.as_millis(), 50),
        other => panic!("{other:?}"),
    }
    match wait.on_status(running(), Duration::from_secs(9)) {
        ChangeStep::Sleep { span } => assert_eq!(span.as_millis(), 200),
        other => panic!("{other:?}"),
    }
    assert!(matches!(wait.on_custom_status(Ok(Some((None, 3)))), ChangeStep::QueryStatus));
    assert!(matches!(
        wait.on_status(running(), Duration::from_secs(9)),
        ChangeStep::Finish(Ok(OrchestrationStatus::Running { .. }))
    ));
    assert!(matches!(
        wait.on_custom_status(Err(failure("down", false))),
        ChangeStep::Finish(Err(ClientError::Provider(_)))
    ));
    assert!(matches!(wait.on_clock(true), ChangeStep::Finish(Err(ClientError::Timeout))));
}

#[test]
fn a_wait_for_a_change_ends_with_the_orchestration() {
    let mut wait = client().wait_for_status_change(2, Duration::from_millis(200));
    assert!(matches!(wait.on_custom_status(Ok(None)), ChangeStep::QueryStatus));
    let done = OrchestrationStatus::Completed {
        output: s("ok"),
        custom_status: None,
        custom_status_version: 0,
    };
    assert!(matches!(
        wait.on_status(Ok(done), Duration::zero()),
        ChangeStep::Finish(Ok(OrchestrationStatus::Completed { .. }))
    ));
}

#[test]
fn typed_outcomes() {
    let c = client();
    let done = || {
        Ok(OrchestrationStatus::Completed {
            output: s("7"),
            custom_status: None,
            custom_status_version: 0,
        })
    };
    assert_eq!(c.wait_for_orchestration_typed(done(), Some(Ok(7u8))), Ok(Ok(7)));
    assert_eq!(
        c.wait_for_orchestration_typed::<u8>(done(), Some(Err(s("no number")))),
        Err(ClientError::InvalidInput { message: s("decode failed: no number") })
    );
    let fell = Ok(OrchestrationStatus::Failed {
        details: ErrorDetails::Application {
            kind: AppErrorKind::Cancelled { reason: s("user") },
            message: s("m"),
            retryable: false,
        },
        custom_status: None,
        custom_status_version: 0,
    });
    assert_eq!(c.wait_for_orchestration_typed::<u8>(fell, None), Ok(Err(s("canceled: user"))));
    assert_eq!(
        c.wait_for_orchestration_typed::<u8>(Err(ClientError::Timeout), None),
        Err(ClientError::Timeout)
    );
    assert_eq!(c.get_kv_value_typed(Ok(Some(Ok(1u8)))), Ok(Some(1)));
    assert_eq!(c.get_kv_value_typed::<u8>(Ok(None)), Ok(None));
    assert_eq!(
        c.get_kv_value_typed::<u8>(Ok(Some(Err(s("eof"))))),
        Err(ClientError::InvalidInput { message: s("KV deserialization error: eof") })
    );
    assert_eq!(c.wait_for_kv_value_typed(Ok(Ok(1u8))), Ok(1));
    assert_eq!(
        c.wait_for_kv_value_typed::<u8>(Ok(Err(s("eof")))),
        Err(ClientError::InvalidInput { message: s("KV deserialization error: eof") })
    );
    assert_eq!(
        c.wait_for_kv_value_typed::<u8>(Err(ClientError::Timeout)),
        Err(ClientError::Timeout)
    );
}

#[test]
fn management_needs_a_store_that_has_it() {
    let without = Client::new(false);
    assert!(!without.has_management_capability());
    assert!(matches!(without.list_all_instances(), Err(ClientError::ManagementNotAvailable)));
    assert!(matches!(
        without.delete_instance(s("i"), true),
        Err(ClientError::ManagementNotAvailable)
    ));
    let c = client();
    assert!(c.has_management_capability());
    assert!(matches!(c.list_all_instances(), Ok(AdminCall::ListInstances)));
    assert!(matches!(
        c.list_instances_by_status(s("Running")),
        Ok(AdminCall::ListInstancesByStatus { status }) if status == "Running"
    ));
    assert!(matches!(
        c.get_execution_info(s("i"), 3),
        Ok(AdminCall::GetExecutionInfo { instance, execution_id: 3 }) if instance == "i"
    ));
    assert!(matches!(
        c.read_execution_history(s("i"), 2),
        Ok(AdminCall::ReadHistory { execution_id: 2, .. })
    ));
    assert!(matches!(c.get_instance_info(s("i")), Ok(AdminCall::GetInstanceInfo { .. })));
    assert!(matches!(c.list_executions(s("i")), Ok(AdminCall::ListExecutions { .. })));
    assert!(matches!(c.get_system_metrics(), Ok(AdminCall::GetSystemMetrics)));
    assert!(matches!(c.get_queue_depths(), Ok(AdminCall::GetQueueDepths)));
    assert!(matches!(c.get_instance_tree(s("i")), Ok(AdminCall::GetInstanceTree { .. })));
    let filter = || InstanceFilter {
        instance_ids: Some(vec![s("a")]),
        completed_before: Some(9),
        limit: None,
    };
    let options = PruneOptions { keep_last: Some(2), completed_before: None };
    assert!(matches!(
        c.delete_instance_bulk(filter()),
        Ok(AdminCall::DeleteInstances { filter: f }) if f == filter()
    ));
    assert!(matches!(
        c.prune_executions(s("i"), options),
        Ok(AdminCall::PruneExecutions { options: o, .. }) if o == options
    ));
    assert!(matches!(
        c.prune_executions_bulk(filter(), options),
        Ok(AdminCall::PruneExecutionsOf { filter: f, options: o }) if f == filter() && o == options
    ));
}

#[test]
fn refused_deletions_are_explained() {
    let explain = |text: &str| Client::translate_delete_error(failure(text, false), "i-1");
    // The text is read whatever its case.
    assert_eq!(
        explain("Instance NOT FOUND"),
        ClientError::InstanceNotFound { instance_id: s("i-1") }
    );
    assert_eq!(
        explain("Instance i-1 is Still Running"),
        ClientError::InstanceStillRunning { instance_id: s("i-1") }
    );
    assert_eq!(
        explain("Cannot delete Sub-Orchestration"),
        ClientError::CannotDeleteSubOrchestration { instance_id: s("i-1") }
    );
    assert_eq!(
        explain("please Delete the Root instead"),
        ClientError::CannotDeleteSubOrchestration { instance_id: s("i-1") }
    );
    assert_eq!(explain("disk full"), ClientError::Provider(failure("disk full", false)));
    // What matches first counts.
    assert_eq!(
        explain("sub-orchestration not found"),
        ClientError::InstanceNotFound { instance_id: s("i-1") }
    );
    // The text must already be in lower case here.
    assert_eq!(
        classify_delete_error(failure("x", false), "NOT FOUND", "i-1"),
        ClientError::Provider(failure("x", false))
    );
    let c = client();
    assert_eq!(c.deleted("i-1", Ok(3u8)), Ok(3));
    assert_eq!(
        c.deleted::<u8>("i-1", Err(failure("Not Found", false))),
        Err(ClientError::InstanceNotFound { instance_id: s("i-1") })
    );
    assert_eq!(
        c.instance_tree::<u8>("i-1", Err(failure("Not Found", false))),
        Err(ClientError::InstanceNotFound { instance_id: s("i-1") })
    );
    assert_eq!(
        c.instance_tree::<u8>("i-1", Err(failure("still running", false))),
        Err(ClientError::Provider(failure("still running", false)))
    );
}

#[test]
fn errors_have_texts_and_say_whether_to_try_again() {
    let all = vec![
        (ClientError::Provider(failure("busy", true)), "operation: busy", true),
        (ClientError::Provider(failure("bad", false)), "operation: bad", false),
        (
            ClientError::ManagementNotAvailable,
            "Management features not available - provider doesn't implement ProviderAdmin",
            false,
        ),
        (ClientError::InvalidInput { message: s("m") }, "Invalid input: m", false),
        (ClientError::Timeout, "Operation timed out", false),
        (
            ClientError::InstanceStillRunning { instance_id: s("i") },
            "Instance i is still running. Use force=true or cancel first.",
            false,
        ),
        (
            ClientError::CannotDeleteSubOrchestration { instance_id: s("i") },
            "Cannot delete sub-orchestration i directly. Delete the root orchestration instead.",
            false,
        ),
        (ClientError::InstanceNotFound { instance_id: s("i") }, "Instance i not found", false),
    ];
    for (error, text, retryable) in all {
        assert_eq!(error.message(), text);
        assert_eq!(error.is_retryable(), retryable);
        assert_eq!(error.clone(), error);
    }
    assert_eq!(Client::reply::<u8>(Err(failure("x", true))), Err(failure("x", true).into()));
    assert_eq!(Client::reply(Ok(1u8)), Ok(1));
}
