//! Stress tests: payloads, configurations, the pump and the drain, and the
//! orchestrations that are run.
use duroxide::action::CompletionResult;
use duroxide::error::{AppErrorKind, ConfigErrorKind, PoisonMessageType};
use duroxide::examples::{
    fan_in, farewell, greet, greeting_message, users_processed, FanOutFanIn, GreetingWorkflow,
    HelloWorld, User,
};
use duroxide::stress::{
    default_wait_timeout_secs, fanout_input, generate_payload, host_options, read_task_count,
    task_count, DrainStep, LargePayloadConfig, PumpStep, RunEnd, StressRun, StressTally, StressTestConfig,
};
use duroxide::suite::{
    concurrency_label, duration_or, header, large_payload_config, pad, row, rule,
    FileSqliteFactory, Measured, Suite, SuiteStore,
};
use duroxide::time::Duration;
use duroxide::trace::TraceLevel;
use duroxide::workflow::{Execution, Progress, Traced, Workflow};
use duroxide::workload::{
    check_input, create_default_activities, create_default_orchestrations,
    create_large_payload_activities, create_large_payload_orchestrations, fanout_orchestration,
    large_payload_orchestration, large_payload_sub_orchestration, Running, Task, Workload,
};
use duroxide::{Action, ErrorDetails, OrchestrationContext};

fn s(text: &str) -> String {
    text.to_string()
}

fn ctx() -> OrchestrationContext {
    OrchestrationContext::new(vec![], 1, s("inst"), s("Orch"), s("1"), None)
}

#[test]
fn test_generate_payload_sizes() {
    let payload_10kb = generate_payload(10);
    assert_eq!(payload_10kb.len(), 10 * 1024);

    let payload_50kb = generate_payload(50);
    assert_eq!(payload_50kb.len(), 50 * 1024);

    let payload_100kb = generate_payload(100);
    assert_eq!(payload_100kb.len(), 100 * 1024);
}

#[test]
fn payloads_repeat_a_pattern() {
    assert_eq!(generate_payload(0), "");
    let payload = generate_payload(1);
    assert!(payload.starts_with("0123456789abcdefghijklmnopqrstuvwxyzABC"));
    assert_eq!(&payload[72..144], &payload[..72]);
    assert_eq!(&payload[1008..1024], &payload[..16]);
}

#[test]
fn default_configurations() {
    let config = StressTestConfig::default();
    assert_eq!(config.max_concurrent, 20);
    assert_eq!(config.duration_secs, 10);
    assert_eq!(config.tasks_per_instance, 5);
    assert_eq!(config.activity_delay_ms, 10);
    assert_eq!((config.orch_concurrency, config.worker_concurrency), (2, 2));
    assert_eq!(config.wait_timeout_secs, default_wait_timeout_secs());
    let large = LargePayloadConfig::default();
    assert_eq!(large, large_payload_config(10));
    assert_eq!(large.base.wait_timeout_secs, 120);
    assert_eq!(
        (large.small_payload_kb, large.medium_payload_kb, large.large_payload_kb),
        (10, 50, 100)
    );
    assert_eq!((large.activity_count, large.sub_orch_count), (20, 5));
    assert_eq!(large_payload_config(7).base.duration_secs, 7);
}

#[test]
fn the_pump_launches_up_to_the_limit_and_stops_in_time() {
    let config = StressTestConfig { max_concurrent: 2, ..StressTestConfig::default() };
    let mut run = StressRun::new(config);
    for n in 1..=2 {
        match run.pump(&Duration::from_secs(1)) {
            PumpStep::Launch { instance, sleep_ms } => {
                assert_eq!(instance, format!("stress-test-{n}"));
                assert_eq!(sleep_ms, 1);
            }
            other => panic!("{other:?}"),
        }
    }
    assert!(matches!(run.pump(&Duration::from_secs(2)), PumpStep::Pause { sleep_ms: 10 }));
    run.end(RunEnd::Completed);
    assert!(matches!(
        run.pump(&Duration::from_millis(9_999)),
        PumpStep::Launch { instance, .. } if instance == "stress-test-3"
    ));
    assert!(matches!(run.pump(&Duration::from_secs(10)), PumpStep::Stop));
    assert_eq!(run.tally.launched, 3);
}

#[test]
fn every_end_is_counted_under_its_cause() {
    let mut tally = StressTally::new();
    for _ in 0..8 {
        tally.launch();
    }
    tally.end(RunEnd::Completed);
    tally.end(RunEnd::NotStarted);
    tally.end(RunEnd::WaitFailed);
    tally.end(RunEnd::Unfinished);
    tally.end(RunEnd::Failed(ErrorDetails::Infrastructure {
        operation: s("o"),
        message: s("m"),
        retryable: false,
    }));
    tally.end(RunEnd::Failed(ErrorDetails::Poison {
        attempt_count: 1,
        max_attempts: 1,
        message_type: PoisonMessageType::Orchestration { instance: s("i"), execution_id: 1 },
        message: s(""),
    }));
    tally.end(RunEnd::Failed(ErrorDetails::Configuration {
        kind: ConfigErrorKind::Nondeterminism,
        resource: s("r"),
        message: None,
    }));
    tally.end(RunEnd::Failed(ErrorDetails::Application {
        kind: AppErrorKind::ActivityFailed,
        message: s("m"),
        retryable: false,
    }));
    assert_eq!(
        tally,
        StressTally {
            launched: 8,
            completed: 1,
            failed: 7,
            failed_infrastructure: 2,
            failed_configuration: 1,
            failed_application: 1,
            active: 0,
        }
    );
}

#[test]
fn the_drain_reports_now_and_then_and_gives_up() {
    let mut run = StressRun::new(StressTestConfig::default());
    assert!(matches!(run.drain(), DrainStep::Done));
    run.pump(&Duration::zero());
    let mut reports = 0;
    let mut waits = 0;
    loop {
        match run.drain() {
            DrainStep::Wait { sleep_ms, report } => {
                assert_eq!(sleep_ms, 100);
                assert_eq!(report, waits % 100 == 0);
                reports += report as u32;
                waits += 1;
            }
            DrainStep::TimedOut => break,
            DrainStep::Done => panic!("one still runs"),
        }
    }
    assert_eq!((waits, reports), (1201, 13));
}

#[test]
fn inputs_ask_for_tasks() {
    assert_eq!(fanout_input(5), "{\"task_count\":5}");
    assert_eq!(read_task_count(&fanout_input(12)), Ok(12));
    assert_eq!(read_task_count("{}"), Ok(5));
    assert_eq!(read_task_count("[1]"), Ok(5));
    assert_eq!(read_task_count("{\"task_count\":\"7\"}"), Ok(5));
    assert_eq!(read_task_count("{\"task_count\":-7}"), Ok(5));
    let error = read_task_count("{").unwrap_err();
    assert!(error.starts_with("Invalid input: ") && error.len() > 15);
    assert_eq!(task_count(Ok(None)), Ok(5));
    assert_eq!(task_count(Err(s("eof"))), Err(s("Invalid input: eof")));
    assert_eq!(check_input("1"), Ok(()));
    assert!(check_input("").unwrap_err().starts_with("Invalid input: "));
}

/// Runs a workflow to its end, answering every piece of work as `answer` says,
/// and returns what was scheduled.
fn drive<W: Workflow>(
    workflow: W,
    answer: &dyn Fn(&str, &str) -> Result<String, String>,
) -> (Result<String, String>, Vec<(String, String)>) {
    let mut ctx = ctx();
    let mut execution = Execution::new(workflow);
    let mut scheduled = vec![];
    loop {
        match execution.poll(&mut ctx) {
            Progress::Finished(result) => return (result, scheduled),
            Progress::Waiting => {}
            other => panic!("{other:?}"),
        }
        for (token, action) in ctx.drain_emitted_actions() {
            ctx.bind_token(token, token);
            match action {
                Action::CallActivity { name, input, .. } => {
                    let result = match answer(&name, &input) {
                        Ok(v) => CompletionResult::ActivityOk(v),
                        Err(e) => CompletionResult::ActivityErr(e),
                    };
                    ctx.deliver_result(token, result);
                    scheduled.push((name, input));
                }
                Action::StartSubOrchestration { name, input, .. } => {
                    let result = match answer(&name, &input) {
                        Ok(v) => CompletionResult::SubOrchOk(v),
                        Err(e) => CompletionResult::SubOrchErr(e),
                    };
                    ctx.deliver_result(token, result);
                    scheduled.push((name, input));
                }
                other => panic!("{other:?}"),
            }
        }
    }
}

#[test]
fn a_fan_out_waits_for_all_and_counts_successes() {
    let run = fanout_orchestration("{\"task_count\":3}").unwrap();
    let (result, scheduled) = drive(run, &|_, input| {
        if input == "task-1" {
            Err(s("no"))
        } else {
            Ok(format!("processed: {input}"))
        }
    });
    assert_eq!(result, Ok(s("Completed 3 tasks (2 succeeded)")));
    let inputs: Vec<String> = scheduled.iter().map(|(_, i)| i.clone()).collect();
    assert_eq!(inputs, vec![s("task-0"), s("task-1"), s("task-2")]);
    assert!(scheduled.iter().all(|(n, _)| n == "ProcessTask"));
    assert!(fanout_orchestration("nope").is_err());
    // Nothing to wait for.
    let (result, _) = drive(fanout_orchestration("{\"task_count\":0}").unwrap(), &|_, _| Ok(s("")));
    assert_eq!(result, Ok(s("Completed 0 tasks (0 succeeded)")));
}

#[test]
fn an_execution_waits_and_can_be_given_up() {
    let mut ctx = ctx();
    let mut execution = Execution::new(fanout_orchestration("{\"task_count\":2}").unwrap());
    assert!(matches!(execution.advance(&mut ctx), Progress::Advanced));
    assert!(matches!(execution.advance(&mut ctx), Progress::Waiting));
    ctx.bind_token(1, 1);
    ctx.bind_token(2, 2);
    ctx.deliver_result(2, CompletionResult::ActivityOk(s("x")));
    assert!(matches!(execution.poll(&mut ctx), Progress::Waiting));
    execution.dispose(&mut ctx);
    assert_eq!(ctx.get_cancelled_activity_ids(), vec![1]);
}

fn small_config() -> LargePayloadConfig {
    LargePayloadConfig {
        small_payload_kb: 1,
        medium_payload_kb: 2,
        large_payload_kb: 4,
        activity_count: 7,
        sub_orch_count: 2,
        ..LargePayloadConfig::default()
    }
}

#[test]
fn the_large_payload_orchestration_goes_through_its_phases() {
    let run = large_payload_orchestration("{}", small_config()).unwrap();
    let (result, scheduled) = drive(run, &|name, _| {
        if name == "MediumPayloadTask" {
            Err(s("no"))
        } else {
            Ok(s("ok"))
        }
    });
    let names: Vec<&str> = scheduled.iter().map(|(n, _)| n.as_str()).collect();
    let mut expected = vec!["SmallPayloadTask"; 2];
    expected.extend(vec!["MediumPayloadTask"; 2]);
    expected.extend(vec!["LargePayloadTask"; 3]);
    expected.extend(vec!["LargePayloadSubOrchestration"; 2]);
    expected.extend(vec!["SmallPayloadTask"; 10]);
    assert_eq!(names, expected);
    let kb = generate_payload(1);
    assert_eq!(scheduled[1].1, format!("{{\"data\":\"{kb}\",\"index\":1}}"));
    assert_eq!(scheduled[2].1, format!("{{\"data\":\"{kb}\",\"index\":0}}"));
    assert_eq!(scheduled[6].1, format!("{{\"data\":\"{kb}\",\"index\":2}}"));
    let medium = generate_payload(2);
    assert_eq!(scheduled[8].1, format!("{{\"index\":1,\"payload\":\"{medium}\"}}"));
    assert_eq!(scheduled[9].1, "final-task-0");
    assert_eq!(scheduled[18].1, "final-task-9");
    let large = generate_payload(4);
    assert_eq!(
        result,
        Ok(format!(
            "{{\"activities_completed\":15,\"estimated_event_count\":42,\"result_payload\":\"{large}\",\"result_size_kb\":4,\"sub_orchestrations_completed\":2}}"
        ))
    );
    assert!(large_payload_orchestration("", small_config()).unwrap_err().starts_with("Invalid input: "));
}

#[test]
fn the_large_payload_sub_orchestration_needs_both_activities() {
    for (first, second) in [(true, true), (false, true), (true, false)] {
        let run = large_payload_sub_orchestration("{\"payload\":\"x\"}", 1, 2).unwrap();
        let (result, scheduled) = drive(run, &|name, _| {
            if (name == "SmallPayloadTask" && first) || (name == "MediumPayloadTask" && second) {
                Ok(s("ok"))
            } else {
                Err(s("no"))
            }
        });
        assert_eq!(scheduled[0], (s("SmallPayloadTask"), generate_payload(1)));
        assert_eq!(scheduled[1], (s("MediumPayloadTask"), generate_payload(1)));
        let payload = generate_payload(2);
        let success = first && second;
        assert_eq!(
            result,
            Ok(format!(
                "{{\"result_payload\":\"{payload}\",\"size_kb\":2,\"success\":{success}}}"
            ))
        );
    }
    assert!(large_payload_sub_orchestration("{", 1, 2).is_err());
}

#[test]
fn registries_find_what_was_registered() {
    let activities = create_default_activities(3);
    let task = activities.get("ProcessTask").unwrap();
    assert_eq!(task, Task::Process { delay_ms: 3 });
    assert_eq!(task.delay_ms(), 3);
    assert_eq!(task.answer("task-1"), "processed: task-1");
    assert!(activities.get("Other").is_none());
    let orchestrations = create_default_orchestrations();
    assert_eq!(orchestrations.get("FanoutOrchestration"), Some(Workload::Fanout));
    let activities = create_large_payload_activities(5, 1, 2, 3);
    let task = activities.get("LargePayloadTask").unwrap();
    assert_eq!(task, Task::Payload { delay_ms: 5, kb: 3 });
    let payload = generate_payload(3);
    assert_eq!(
        task.answer("say \"hi\""),
        format!("{{\"input\":\"say \\\"hi\\\"\",\"payload\":\"{payload}\",\"size_kb\":3}}")
    );
    let config = small_config();
    let orchestrations = create_large_payload_orchestrations(config);
    assert_eq!(
        orchestrations.get("FanoutOrchestration"),
        orchestrations.get("LargePayloadOrchestration")
    );
    let sub = orchestrations.get("LargePayloadSubOrchestration").unwrap();
    assert_eq!(sub, Workload::LargePayloadSub { small_kb: 1, medium_kb: 2 });
    match sub.start("{}").unwrap() {
        Running::LargePayloadSub(run) => assert_eq!((run.small_kb, run.medium_kb), (1, 2)),
        other => panic!("{other:?}"),
    }
    let (result, _) = drive(Workload::Fanout.start("{}").unwrap(), &|_, _| Ok(s("")));
    assert_eq!(result, Ok(s("Completed 5 tasks (5 succeeded)")));
    assert!(Workload::LargePayload { config }.start("{").is_err());
}

#[test]
fn example_workflows() {
    let answer = |name: &str, input: &str| match name {
        "Greet" => Ok(greet(input)),
        _ => Ok(farewell(input)),
    };
    let (result, _) = drive(HelloWorld::new(s("Rust Developer")), &answer);
    assert_eq!(result, Ok(s("Hello, Rust Developer!")));
    let (result, scheduled) = drive(GreetingWorkflow::new(s("World")), &answer);
    assert_eq!(result, Ok(s("Hello, World! | Goodbye, World!")));
    assert_eq!(scheduled, vec![(s("Greet"), s("World")), (s("Farewell"), s("World"))]);
    let (result, scheduled) = drive(GreetingWorkflow::new(s("World")), &|_, _| Err(s("rude")));
    assert_eq!(result, Err(s("rude")));
    assert_eq!(scheduled.len(), 1);
    let (result, _) = drive(HelloWorld::new(s("x")), &|_, _| Err(s("rude")));
    assert_eq!(result, Err(s("rude")));
}

fn some_users() -> Vec<User> {
    vec![User { id: 1, name: s("Alice") }, User { id: 2, name: s("Bob") }]
}

fn read_id(profile: String) -> Result<u32, String> {
    profile.parse::<u32>().map_err(|_| s("no number"))
}

#[test]
fn a_fan_out_welcomes_all_users() {
    let answer = |name: &str, input: &str| match name {
        "FetchUserProfile" => Ok(s(if input.contains("Alice") { "1" } else { "2" })),
        _ if input == "1" => Ok(s("sent")),
        _ => Err(s("bounced")),
    };
    let (result, scheduled) = drive(FanOutFanIn::new(Ok(some_users()), read_id), &answer);
    assert_eq!(result, Ok(s("Successfully processed 1 users")));
    assert_eq!(
        scheduled,
        vec![
            (s("FetchUserProfile"), s("{\"id\":1,\"name\":\"Alice\"}")),
            (s("FetchUserProfile"), s("{\"id\":2,\"name\":\"Bob\"}")),
            (s("SendWelcomeEmail"), s("1")),
            (s("SendWelcomeEmail"), s("2")),
        ]
    );
    let (result, scheduled) = drive(FanOutFanIn::new(Ok(vec![]), read_id), &answer);
    assert_eq!(result, Ok(s("Successfully processed 0 users")));
    assert!(scheduled.is_empty());
    let (result, _) = drive(FanOutFanIn::new(Err(s("eof")), read_id), &answer);
    assert_eq!(result, Err(s("JSON parse error: eof")));
}

#[test]
fn a_fan_out_gives_up_at_the_first_bad_profile() {
    let mut ctx = ctx();
    let mut execution = Execution::new(FanOutFanIn::new(Ok(some_users()), read_id));
    assert!(matches!(execution.poll(&mut ctx), Progress::Waiting));
    ctx.bind_token(1, 1);
    ctx.bind_token(2, 2);
    ctx.deliver_result(1, CompletionResult::ActivityOk(s("1")));
    ctx.deliver_result(2, CompletionResult::ActivityErr(s("api")));
    match execution.poll(&mut ctx) {
        Progress::Finished(result) => assert_eq!(result, Err(s("Profile fetch failed: api"))),
        other => panic!("{other:?}"),
    }
    let names: Vec<String> = ctx
        .drain_emitted_actions()
        .into_iter()
        .map(|(_, action)| match action {
            Action::CallActivity { name, .. } => name,
            other => panic!("{other:?}"),
        })
        .collect();
    assert_eq!(names, vec!["FetchUserProfile", "FetchUserProfile", "SendWelcomeEmail"]);
    ctx.bind_token(3, 3);
    assert_eq!(ctx.get_cancelled_activity_ids(), vec![3]);
}

fn said<W: Traced>(
    execution: &Execution<W>,
    ctx: &OrchestrationContext,
) -> Vec<(TraceLevel, String)> {
    execution.trace(ctx).into_iter().map(|e| (e.level, e.message)).collect()
}

#[test]
fn examples_trace_what_they_do() {
    let mut ctx = ctx();
    ctx.set_is_replaying(false);
    let mut execution = Execution::new(FanOutFanIn::new(Ok(some_users()), read_id));
    assert_eq!(
        said(&execution, &ctx),
        vec![
            (TraceLevel::Info, s("Starting fan-out/fan-in orchestration")),
            (TraceLevel::Info, s("Processing 2 users in parallel")),
        ]
    );
    assert!(matches!(execution.advance(&mut ctx), Progress::Advanced));
    assert!(said(&execution, &ctx).is_empty());
    ctx.bind_token(1, 1);
    ctx.bind_token(2, 2);
    ctx.deliver_result(1, CompletionResult::ActivityOk(s("1")));
    ctx.deliver_result(2, CompletionResult::ActivityErr(s("api")));
    assert!(matches!(execution.advance(&mut ctx), Progress::Advanced));
    assert_eq!(
        said(&execution, &ctx),
        vec![
            (TraceLevel::Info, s("Fetched profile for user 1")),
            (TraceLevel::Error, s("Failed to fetch user profile: api")),
        ]
    );
    ctx.set_is_replaying(true);
    assert!(said(&execution, &ctx).is_empty());

    let hello = HelloWorld { name: s("x"), greeting: Some(Ok(s("Hi"))) };
    assert_eq!(hello.notes()[0].message, "Greeting completed: Hi");
    assert_eq!(HelloWorld::new(s("x")).notes()[0].message, "Starting greeting orchestration");
    let both = |greeting, farewell| GreetingWorkflow { name: s("x"), greeting, farewell };
    assert_eq!(both(Some(Ok(s("Hi"))), None).notes()[0].message, "Got greeting: Hi");
    assert_eq!(
        both(Some(Ok(s("Hi"))), Some(Ok(s("Bye")))).notes()[0].message,
        "Orchestration completing"
    );
    assert!(both(Some(Err(s("rude"))), None).notes().is_empty());
}

#[test]
fn users_are_fetched_and_welcomed() {
    let user = User { id: 1, name: s("ALICE") };
    assert_eq!(user.to_json(), "{\"id\":1,\"name\":\"ALICE\"}");
    let profile = user.profile();
    assert_eq!(profile.user_id, 1);
    assert_eq!(profile.email, "alice@example.com");
    assert_eq!(profile.preferences, vec![s("notifications"), s("dark_mode")]);
    assert_eq!(profile.welcome(), "Welcome email sent to alice@example.com");
    assert_eq!(user.fetched_message(), "Fetched user 1");
    assert_eq!(profile.sent_message(), "Sent welcome email to alice@example.com");
    assert_eq!(greeting_message("Bob"), "Greeting user: Bob");
    let parse = |p: String| p.parse::<u32>().map_err(|_| s("eof"));
    let all = fan_in(&vec![Ok(s("1")), Ok(s("2"))], &parse);
    assert_eq!((all.ids, all.failure), (vec![1, 2], None));
    let stopped = fan_in(&vec![Ok(s("1")), Err(s("api")), Ok(s("3"))], &parse);
    assert_eq!(stopped.ids, vec![1]);
    assert_eq!(stopped.failure, Some(s("Profile fetch failed: api")));
    let unreadable = fan_in(&vec![Ok(s("p1"))], &parse);
    assert_eq!(unreadable.failure, Some(s("JSON parse error: eof")));
    assert_eq!(
        users_processed(&vec![Ok(s("a")), Err(s("b")), Ok(s("c"))]),
        "Successfully processed 2 users"
    );
}

#[test]
fn the_suite_runs_every_store_at_two_levels() {
    assert_eq!(duration_or(None, 30), 30);
    assert_eq!(duration_or(Some("5"), 30), 5);
    assert_eq!(duration_or(Some("soon"), 30), 30);
    let file = FileSqliteFactory::new(4711);
    assert_eq!(file.db_path(), "/tmp/duroxide_stress_4711.db");
    assert_eq!(file.url(), "sqlite:/tmp/duroxide_stress_4711.db");
    let mut suite = Suite::new(5);
    let mut seen = vec![];
    while let Some(test) = suite.next_test() {
        assert_eq!(test.config.duration_secs, 5);
        assert_eq!(test.config.max_concurrent, 20);
        seen.push((test.store.name(), concurrency_label(&test.config)));
        let measured = if test.store == SuiteStore::InMemory {
            Some(Measured {
                tally: StressTally { completed: 12, failed: 1, ..StressTally::new() },
                success_rate: s("92.31"),
                orch_throughput: s("1.00"),
                activity_throughput: s("5.00"),
                avg_latency_ms: s("416.67"),
            })
        } else {
            None
        };
        suite.record(measured);
    }
    assert_eq!(
        seen,
        vec![
            ("In-Memory SQLite", s("1/1")),
            ("In-Memory SQLite", s("2/2")),
            ("File SQLite", s("1/1")),
            ("File SQLite", s("2/2")),
        ]
    );
    let table = suite.table();
    assert_eq!(table.len(), 5);
    assert_eq!(table[0], "\n=== Comparison Table ===");
    assert_eq!(table[1], header());
    assert_eq!(table[2], "-".repeat(150));
    let cells = format!(
        "{:<20} {:<10} {:<10} {:<10} {:<8} {:<8} {:<8} {:<10.2} {:<15.2} {:<15.2} {:<15.2}ms",
        "In-Memory SQLite", "1/1", 12, 1, 0, 0, 0, 92.31, 1.0, 5.0, 416.67
    );
    assert_eq!(table[3], cells);
}

#[test]
fn the_table_is_laid_out_in_columns() {
    assert_eq!(pad("ab", 4), "ab  ");
    assert_eq!(pad("abcdef", 4), "abcdef");
    assert_eq!(pad("", 0), "");
    assert_eq!(pad("é", 3), format!("{:<3}", "é"));
    assert_eq!(rule().len(), 150);
    assert_eq!(
        header(),
        format!(
            "{:<20} {:<10} {:<10} {:<10} {:<8} {:<8} {:<8} {:<10} {:<15} {:<15} {:<15}",
            "Provider",
            "Config",
            "Completed",
            "Failed",
            "Infra",
            "Config",
            "App",
            "Success %",
            "Orch/sec",
            "Activity/sec",
            "Avg Latency"
        )
    );
    let suite = Suite::new(1);
    let test = suite.next_test().unwrap();
    let measured = Measured {
        tally: StressTally::new(),
        success_rate: s("0.00"),
        orch_throughput: s("0.00"),
        activity_throughput: s("0.00"),
        avg_latency_ms: s("1.00"),
    };
    assert!(row(&test, &measured).ends_with("1.00           ms"));
}

#[test]
fn a_host_is_started_with_a_poll_interval_of_100_ms() {
    let config = StressTestConfig {
        orch_concurrency: 3,
        worker_concurrency: 4,
        ..StressTestConfig::default()
    };
    let options = host_options(&config);
    assert_eq!(options.dispatcher_min_poll_interval.as_millis(), 100);
    assert_eq!((options.orchestration_concurrency, options.worker_concurrency), (3, 4));
}

#[test]
fn stores_have_a_name_in_the_table_and_one_in_the_heading() {
    assert_eq!(SuiteStore::InMemory.heading(), "In-Memory SQLite");
    assert_eq!(SuiteStore::InMemory.name(), "In-Memory SQLite");
    assert_eq!(SuiteStore::File.heading(), "File-Based SQLite");
    assert_eq!(SuiteStore::File.name(), "File SQLite");
}
