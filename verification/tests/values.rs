//! Texts, identifiers, events, errors, JSON and the context of an activity.
use duroxide::activity::ActivityContext;
use duroxide::error::{AppErrorKind, ConfigErrorKind, PoisonMessageType};
use duroxide::event::{CRATE_VERSION, INITIAL_EVENT_ID, INITIAL_EXECUTION_ID};
use duroxide::ids::{
    build_child_instance_id, generate_guid, guid_text, is_auto_generated_sub_orch_id, pending_id,
    SYSCALL_ACTIVITY_PREFIX,
};
use duroxide::json::{
    explain_kv_reply, kv_request_text, read_kv_reply, read_typed_kv_reply, typed_kv_value, Json,
    JsonValue,
};
use duroxide::text::{contains, parse_u64, starts_with, u64_text, ParsedU64};
use duroxide::time::{low_u64, millis_of, nanos_of, wall_clock_ms, wall_clock_nanos, Duration};
use duroxide::trace::TraceLevel;
use duroxide::{ErrorDetails, Event, EventKind};

fn s(text: &str) -> String {
    text.to_string()
}

#[test]
fn numbers_are_written_and_read_back() {
    for n in [0, 7, 10, 99, 100, 12345, u64::MAX] {
        assert_eq!(u64_text(n), n.to_string());
        assert_eq!(parse_u64(&n.to_string()), ParsedU64::Value(n));
    }
    assert_eq!(parse_u64(""), ParsedU64::Empty);
    assert_eq!(parse_u64("+12"), ParsedU64::Value(12));
    for bad in ["+", "-1", " 1", "1_0", "x"] {
        assert!(bad.parse::<u64>().is_err());
        assert!(!matches!(parse_u64(bad), ParsedU64::Value(_)));
    }
}

#[test]
fn texts_are_searched() {
    assert!(starts_with("sub::7", "sub::"));
    assert!(!starts_with("sub", "sub::"));
    assert!(starts_with("anything", ""));
    assert!(contains("Instance not found", "not found"));
    assert!(contains("abc", ""));
    assert!(!contains("abc", "abcd"));
    assert!(!contains("aab", "ba"));
    assert!(contains("größe", "ö"));
}

#[test]
fn generated_ids_get_the_parent_and_explicit_ones_stay() {
    assert!(is_auto_generated_sub_orch_id("sub::3"));
    assert!(!is_auto_generated_sub_orch_id("my-sub::3"));
    assert_eq!(build_child_instance_id("parent", "sub::3"), "parent::sub::3");
    assert_eq!(build_child_instance_id("parent", "child"), "child");
    assert_eq!(pending_id(12), "sub::pending_12");
    assert!(is_auto_generated_sub_orch_id(&pending_id(1)));
    assert_eq!(SYSCALL_ACTIVITY_PREFIX, "__duroxide_syscall:");
}

#[test]
fn identifiers_are_made_of_time_and_a_counter() {
    let id = guid_text(0x0123_4567_89ab_cdef_fedc_ba98_7654_3210, 0x1_0002);
    let parts: Vec<&str> = id.split('-').collect();
    let lengths: Vec<usize> = parts.iter().map(|p| p.len()).collect();
    assert_eq!(lengths, vec![8, 4, 4, 4, 12]);
    assert_eq!(parts[0], "01234567");
    assert_eq!(parts[4], "ba9876543210");
    assert_ne!(guid_text(5, 1), guid_text(5, 2));
    let live = generate_guid(7);
    assert_eq!(live.len(), 36);
    assert!(live.chars().all(|c| c == '-' || c.is_ascii_hexdigit()));
    assert_ne!(live, guid_text(0, 7));
}

#[test]
fn spans_of_time() {
    assert!(Duration::zero().is_zero());
    assert_eq!(Duration::from_secs(2).as_millis(), 2000);
    assert_eq!(Duration::from_parts(1, 5).as_nanos(), 1_000_000_005);
    assert_eq!(Duration::from_nanos(1_999_999).as_millis(), 1);
    let longest = Duration::from_parts(u64::MAX, 999_999_999);
    assert_eq!(Duration::from_secs(u64::MAX).saturating_mul(3), longest);
    assert_eq!(Duration::saturating_from_nanos(u128::MAX), longest);
    assert_eq!(
        Duration::from_secs(1).shorter(&Duration::from_millis(1500)),
        Duration::from_secs(1)
    );
    assert_eq!(low_u64(u64::MAX as u128 + 6), 5);
    assert_eq!(millis_of(Some((12, 345_999_999))), 12_345);
    assert_eq!(nanos_of(Some((12, 345))), 12_000_000_345);
    assert_eq!((millis_of(None), nanos_of(None)), (0, 0));
    // Some time after 2020.
    assert!(wall_clock_ms() > 1_577_836_800_000);
    assert!(wall_clock_nanos() > 1_577_836_800_000_000_000);
}

#[test]
fn events_carry_their_place() {
    assert_eq!((INITIAL_EXECUTION_ID, INITIAL_EVENT_ID), (1, 1));
    let mut e = Event::new(s("inst"), 2, Some(5), EventKind::ActivityCompleted { result: s("r") });
    assert_eq!(e.event_id(), 0);
    e.set_event_id(9);
    assert_eq!(e.event_id(), 9);
    assert_eq!(e.source_event_id, Some(5));
    assert_eq!(e.execution_id, 2);
    assert_eq!(e.duroxide_version, CRATE_VERSION);
    assert!(e.timestamp_ms > 1_577_836_800_000);
    let at = Event::with_event_id_at(3, s("i"), 1, None, EventKind::KeyValuesCleared, 77);
    assert_eq!((at.event_id(), at.timestamp_ms), (3, 77));
    let now = Event::with_event_id(4, s("i"), 1, None, EventKind::KeyValuesCleared);
    assert!(now.timestamp_ms > 1_577_836_800_000);
    assert!(!now.is_terminal());
    let end = EventKind::OrchestrationContinuedAsNew { input: s("next") };
    assert!(Event::new(s("i"), 1, None, end).is_terminal());
}

#[test]
fn failures_have_categories_and_texts() {
    let poison = |message_type| ErrorDetails::Poison {
        attempt_count: 11,
        max_attempts: 10,
        message_type,
        message: s("{}"),
    };
    let all = vec![
        (
            ErrorDetails::Infrastructure {
                operation: s("ack"),
                message: s("disk"),
                retryable: true,
            },
            "infrastructure",
            true,
            "infrastructure:ack: disk",
        ),
        (
            ErrorDetails::Configuration {
                kind: ConfigErrorKind::Nondeterminism,
                resource: s("Orders"),
                message: Some(s("diverged")),
            },
            "configuration",
            false,
            "nondeterministic: diverged",
        ),
        (
            ErrorDetails::Configuration {
                kind: ConfigErrorKind::Nondeterminism,
                resource: s("Orders"),
                message: None,
            },
            "configuration",
            false,
            "nondeterministic in Orders",
        ),
        (
            ErrorDetails::Application {
                kind: AppErrorKind::ActivityFailed,
                message: s("declined"),
                retryable: true,
            },
            "application",
            true,
            "declined",
        ),
        (
            ErrorDetails::Application {
                kind: AppErrorKind::Panicked,
                message: s("oops"),
                retryable: false,
            },
            "application",
            false,
            "orchestration panicked: oops",
        ),
        (
            ErrorDetails::Application {
                kind: AppErrorKind::Cancelled { reason: s("user") },
                message: s("m"),
                retryable: false,
            },
            "application",
            false,
            "canceled: user",
        ),
        (
            poison(PoisonMessageType::Orchestration { instance: s("i"), execution_id: 1 }),
            "poison",
            false,
            "poison: orchestration i exceeded 11 attempts (max 10)",
        ),
        (
            poison(PoisonMessageType::Activity {
                instance: s("i"),
                execution_id: 1,
                activity_name: s("Pay"),
                activity_id: 4,
            }),
            "poison",
            false,
            "poison: activity Pay#4 exceeded 11 attempts (max 10)",
        ),
        (
            poison(PoisonMessageType::FailedDeserialization {
                instance: s("i"),
                execution_id: 1,
                error: s("eof"),
            }),
            "poison",
            false,
            "poison: orchestration i history deserialization failed after 11 attempts (max 10): eof",
        ),
    ];
    for (details, category, retryable, text) in all {
        assert_eq!(details.category(), category);
        assert_eq!(details.is_retryable(), retryable);
        assert_eq!(details.display_message(), text);
        assert_eq!(details.clone(), details);
    }
}

#[test]
fn replies_for_keys_of_other_instances() {
    assert_eq!(
        kv_request_text("\"\\/", "\u{8}\t\u{c}\r\u{1}\u{1f}\u{7f}é"),
        "{\"instance_id\":\"\\\"\\\\/\",\"key\":\"\\b\\t\\f\\r\\u0001\\u001f\u{7f}é\"}"
    );
    assert_eq!(kv_request_text("a", "k\n"), "{\"instance_id\":\"a\",\"key\":\"k\\n\"}");
    assert_eq!(read_kv_reply(Ok(s("null"))), Ok(None));
    assert_eq!(read_kv_reply(Ok(s("\"va\\\"lue\""))), Ok(Some(s("va\"lue"))));
    assert_eq!(read_kv_reply(Err(s("down"))), Err(s("down")));
    let error = read_kv_reply(Ok(s("{"))).unwrap_err();
    let prefix = "get_kv_value_from_instance deserialization error: ";
    assert!(error.starts_with(prefix) && error.len() > prefix.len());
    assert_eq!(
        explain_kv_reply(Err(s("eof"))),
        Err(s("get_kv_value_from_instance deserialization error: eof"))
    );
    assert_eq!(read_typed_kv_reply(Ok(Some(Ok(5u8)))), Ok(Some(5)));
    assert_eq!(read_typed_kv_reply::<u8>(Ok(None)), Ok(None));
    assert_eq!(read_typed_kv_reply::<u8>(Err(s("down"))), Err(s("down")));
    assert_eq!(
        read_typed_kv_reply::<u8>(Ok(Some(Err(s("eof"))))),
        Err(s("get_kv_value_from_instance_typed deserialization error: eof"))
    );
    assert_eq!(typed_kv_value("k", Some(Ok(5u8))), Ok(Some(5)));
    assert_eq!(typed_kv_value::<u8>("k", None), Ok(None));
    assert_eq!(
        typed_kv_value::<u8>("k", Some(Err(s("eof")))),
        Err(s("KV deserialization error for key 'k': eof"))
    );
}

#[test]
fn the_codec_leaves_strings_as_they_are() {
    assert_eq!(Json::encode(Ok(JsonValue::Text(s("plain")))), Ok(s("plain")));
    assert_eq!(Json::encode(Ok(JsonValue::Document(s("[1,2]")))), Ok(s("[1,2]")));
    assert_eq!(Json::encode(Err(s("no"))), Err(s("no")));
    assert_eq!(Json::decode(Some(1u8), Err(s("x"))), Ok(1));
    assert_eq!(Json::decode(None, Ok(2u8)), Ok(2));
    assert_eq!(Json::decode::<u8>(None, Err(s("x"))), Err(s("x")));
    // A text that is no JSON string comes back as it was.
    for text in ["plain", "", "{\"a\":1}", "12", "\"open"] {
        assert_eq!(Json::decode_text(&Json::encode_text(text)), text);
    }
    // One that is loses its quotes.
    assert_eq!(Json::decode_text(&Json::encode_text("\"quoted\"")), "quoted");
    assert_eq!(Json::decode_text_with(None, "raw"), "raw");
}

#[test]
fn an_activity_knows_where_it_runs() {
    let ctx = ActivityContext::new(
        s("inst"),
        3,
        s("Orders"),
        s("1.0"),
        s("Charge"),
        8,
        s("worker-2"),
        Some(s("sess")),
        None,
    );
    assert_eq!(ctx.instance_id(), "inst");
    assert_eq!(ctx.execution_id(), 3);
    assert_eq!(ctx.orchestration_name(), "Orders");
    assert_eq!(ctx.orchestration_version(), "1.0");
    assert_eq!(ctx.activity_name(), "Charge");
    assert_eq!(ctx.worker_id(), "worker-2");
    assert_eq!(ctx.session_id(), Some("sess"));
    assert_eq!(ctx.tag(), None);
    let entry = ctx.trace_warn(s("slow"));
    assert_eq!(entry.level, TraceLevel::Warn);
    assert_eq!(entry.message, "slow");
    assert_eq!(entry.activity_id, 8);
    assert_eq!(ctx.trace_info(s("i")).level, TraceLevel::Info);
    assert_eq!(ctx.trace_error(s("e")).level, TraceLevel::Error);
    assert_eq!(ctx.trace_debug(s("d")).level, TraceLevel::Debug);
}
