//! Laws of scheduling: what each call of an orchestration decides, and what it
//! hands out to wait for.
use crate::action::{Action, ScheduleKind};
use crate::context::CtxModel;
use crate::future::{ContinueAsNewFuture, DurableFuture, FutureModel, Source};
use crate::orchestration::{self, OrchestrationContext};
use crate::text;
use crate::time::Duration;
use crate::trace::{TraceEntry, TraceLevel};
use vstd::prelude::*;

verus! {

/// One decision was made: an action came behind the others, under a token that is
/// new, and nothing else changed but that logging is on.
pub open spec fn decided(before: CtxModel, after: CtxModel, action: Action) -> bool {
    &&& after.emitted.len() == before.emitted.len() + 1
    &&& after.emitted.drop_last() == before.emitted
    &&& after.emitted.last().0 == before.next_token + 1
    &&& after.emitted.last().1 == action
    &&& after == (CtxModel {
        next_token: after.emitted.last().0,
        emitted: after.emitted,
        logging_enabled: true,
        ..before
    })
}

/// The future waits for the decision that was made last, and has not completed.
pub open spec fn waits_for_it(f: FutureModel, after: CtxModel, source: Source) -> bool {
    f.token == after.emitted.last().0 && f.source == source && !f.completed
}

/// The last decision.
pub open spec fn last_decision(m: CtxModel) -> Action {
    m.emitted.last().1
}

/// An activity is scheduled with the name and the input that were given, on the
/// session that was given or on none, without a tag; the future waits for its
/// result.
pub proof fn law_activities_are_scheduled(
    a: &mut OrchestrationContext,
    b: &mut OrchestrationContext,
    c: &mut OrchestrationContext,
    name: String,
    input: String,
    session: String,
    maybe: Option<String>,
    f: DurableFuture,
    g: DurableFuture,
    h: DurableFuture,
)
    requires
        call_ensures(OrchestrationContext::schedule_activity, (a, name, input), f),
        call_ensures(
            OrchestrationContext::schedule_activity_on_session,
            (b, name, input, session),
            g,
        ),
        call_ensures(
            OrchestrationContext::schedule_activity_internal,
            (c, name, input, maybe),
            h,
        ),
        old(a)@.next_token < u64::MAX,
        old(b)@.next_token < u64::MAX,
        old(c)@.next_token < u64::MAX,
    ensures
        decided(
            old(a)@,
            final(a)@,
            Action::CallActivity {
                scheduling_event_id: 0,
                name,
                input,
                session_id: None,
                tag: None,
            },
        ),
        decided(
            old(b)@,
            final(b)@,
            Action::CallActivity {
                scheduling_event_id: 0,
                name,
                input,
                session_id: Some(session),
                tag: None,
            },
        ),
        decided(
            old(c)@,
            final(c)@,
            Action::CallActivity {
                scheduling_event_id: 0,
                name,
                input,
                session_id: maybe,
                tag: None,
            },
        ),
        waits_for_it(f@, final(a)@, Source::Activity),
        waits_for_it(g@, final(b)@, Source::Activity),
        waits_for_it(h@, final(c)@, Source::Activity),
        f@.kind == (ScheduleKind::Activity { name }),
        g@.kind == (ScheduleKind::Activity { name }),
        h@.kind == (ScheduleKind::Activity { name }),
{
    assert(final(a)@.emitted.drop_last() =~= old(a)@.emitted);
    assert(final(b)@.emitted.drop_last() =~= old(b)@.emitted);
    assert(final(c)@.emitted.drop_last() =~= old(c)@.emitted);
}

/// A timer fires its delay, in whole milliseconds, after now, or at the latest
/// time there is; the future waits for that.
pub proof fn law_timers_fire_after_their_delay(
    a: &mut OrchestrationContext,
    b: &mut OrchestrationContext,
    delay: Duration,
    now_ms: u64,
    f: DurableFuture,
    g: DurableFuture,
)
    requires
        call_ensures(OrchestrationContext::schedule_timer_at, (a, delay, now_ms), f),
        call_ensures(OrchestrationContext::schedule_timer, (b, delay), g),
        old(a)@.next_token < u64::MAX,
        old(b)@.next_token < u64::MAX,
        delay@ / 1_000_000 <= u64::MAX,
    ensures
        last_decision(final(a)@) matches Action::CreateTimer { fire_at_ms, .. } && fire_at_ms == (if
            now_ms + delay@ / 1_000_000 <= u64::MAX {
            now_ms + delay@ / 1_000_000
        } else {
            u64::MAX as int
        }),
        last_decision(final(b)@) matches Action::CreateTimer { fire_at_ms, .. } && fire_at_ms
            >= delay@ / 1_000_000,
        decided(old(a)@, final(a)@, last_decision(final(a)@)),
        decided(old(b)@, final(b)@, last_decision(final(b)@)),
        waits_for_it(f@, final(a)@, Source::Timer),
        waits_for_it(g@, final(b)@, Source::Timer),
        f@.kind is Timer,
        g@.kind is Timer,
{
    let ms = delay@ / 1_000_000;
    assert(ms % 18_446_744_073_709_551_616 == ms);
    assert(final(a)@.emitted.drop_last() =~= old(a)@.emitted);
    assert(final(b)@.emitted.drop_last() =~= old(b)@.emitted);
}

/// A wait subscribes to the event that was named, by name alone or by name and
/// topic, and its future waits for that event.
pub proof fn law_waits_subscribe_to_their_event(
    a: &mut OrchestrationContext,
    b: &mut OrchestrationContext,
    name: String,
    topic: String,
    f: DurableFuture,
    g: DurableFuture,
)
    requires
        call_ensures(OrchestrationContext::schedule_wait, (a, name), f),
        call_ensures(OrchestrationContext::schedule_wait2, (b, name, topic), g),
        old(a)@.next_token < u64::MAX,
        old(b)@.next_token < u64::MAX,
    ensures
        decided(
            old(a)@,
            final(a)@,
            Action::WaitExternal { scheduling_event_id: 0, name },
        ),
        decided(
            old(b)@,
            final(b)@,
            Action::WaitExternal2 { scheduling_event_id: 0, name, topic },
        ),
        waits_for_it(f@, final(a)@, Source::External),
        waits_for_it(g@, final(b)@, Source::Topic),
        f@.kind == (ScheduleKind::ExternalWait { event_name: name }),
        g@.kind == (ScheduleKind::ExternalWait { event_name: name }),
{
    assert(final(a)@.emitted.drop_last() =~= old(a)@.emitted);
    assert(final(b)@.emitted.drop_last() =~= old(b)@.emitted);
}

/// A dequeue asks for a message of the queue that was named, under either name of
/// the call.
pub proof fn law_dequeues_ask_for_a_message(
    a: &mut OrchestrationContext,
    b: &mut OrchestrationContext,
    queue: String,
    f: DurableFuture,
    g: DurableFuture,
)
    requires
        call_ensures(OrchestrationContext::dequeue_event, (a, queue), f),
        call_ensures(OrchestrationContext::schedule_wait_persistent, (b, queue), g),
        old(a)@.next_token < u64::MAX,
        old(b)@ == old(a)@,
    ensures
        decided(
            old(a)@,
            final(a)@,
            Action::DequeueEvent { scheduling_event_id: 0, name: queue },
        ),
        waits_for_it(f@, final(a)@, Source::Queue),
        f@.kind == (ScheduleKind::QueueDequeue { event_name: queue }),
        final(b)@ == final(a)@,
        g@ == f@,
{
    assert(final(a)@.emitted.drop_last() =~= old(a)@.emitted);
}

/// A sub-orchestration was decided on: under the instance that was given, or else
/// under the placeholder of its own token, which no other child of the turn has.
pub open spec fn child_started(
    before: CtxModel,
    after: CtxModel,
    f: FutureModel,
    child: Seq<char>,
    wanted_version: Option<String>,
    given: Option<String>,
    with: String,
) -> bool {
    &&& last_decision(after) matches Action::StartSubOrchestration {
        scheduling_event_id,
        name,
        version,
        instance,
        input,
    } && {
        &&& scheduling_event_id == 0
        &&& name@ == child
        &&& version == wanted_version
        &&& input == with
        &&& given matches Some(g) ==> instance == g
        &&& given is None ==> instance@ == "sub::pending_"@ + text::decimal(f.token as nat)
    }
    &&& decided(before, after, last_decision(after))
    &&& waits_for_it(f, after, Source::SubOrchestration)
    &&& f.kind == (ScheduleKind::SubOrchestration { token: f.token })
}

/// Sub-orchestrations are started with the name, version, instance and input that
/// were given; what is not given is left to the host.
pub proof fn law_children_are_started(
    a: &mut OrchestrationContext,
    b: &mut OrchestrationContext,
    c: &mut OrchestrationContext,
    d: &mut OrchestrationContext,
    e: &mut OrchestrationContext,
    name: String,
    version: Option<String>,
    instance: String,
    maybe: Option<String>,
    input: String,
    fs: Seq<DurableFuture>,
)
    requires
        fs.len() == 5,
        call_ensures(OrchestrationContext::schedule_sub_orchestration, (a, name, input), fs[0]),
        call_ensures(
            OrchestrationContext::schedule_sub_orchestration_with_id,
            (b, name, instance, input),
            fs[1],
        ),
        call_ensures(
            OrchestrationContext::schedule_sub_orchestration_versioned,
            (c, name, version, input),
            fs[2],
        ),
        call_ensures(
            OrchestrationContext::schedule_sub_orchestration_versioned_with_id,
            (d, name, version, instance, input),
            fs[3],
        ),
        call_ensures(
            OrchestrationContext::schedule_sub_orchestration_versioned_with_id_internal,
            (e, name, version, maybe, input),
            fs[4],
        ),
        old(a)@.next_token < u64::MAX,
        old(b)@.next_token < u64::MAX,
        old(c)@.next_token < u64::MAX,
        old(d)@.next_token < u64::MAX,
        old(e)@.next_token < u64::MAX,
    ensures
        child_started(old(a)@, final(a)@, fs[0]@, name@, None, None, input),
        child_started(old(b)@, final(b)@, fs[1]@, name@, None, Some(instance), input),
        child_started(old(c)@, final(c)@, fs[2]@, name@, version, None, input),
        child_started(old(d)@, final(d)@, fs[3]@, name@, version, Some(instance), input),
        child_started(old(e)@, final(e)@, fs[4]@, name@, version, maybe, input),
{
    assert(final(a)@.emitted.drop_last() =~= old(a)@.emitted);
    assert(final(b)@.emitted.drop_last() =~= old(b)@.emitted);
    assert(final(c)@.emitted.drop_last() =~= old(c)@.emitted);
    assert(final(d)@.emitted.drop_last() =~= old(d)@.emitted);
    assert(final(e)@.emitted.drop_last() =~= old(e)@.emitted);
}

/// An orchestration that nobody awaits is started under exactly the instance that
/// was given, in the version that was given or in none.
pub proof fn law_detached_orchestrations_are_started(
    a: &mut OrchestrationContext,
    b: &mut OrchestrationContext,
    name: String,
    version: Option<String>,
    instance: String,
    input: String,
)
    requires
        call_ensures(OrchestrationContext::schedule_orchestration, (a, name, instance, input), ()),
        call_ensures(
            OrchestrationContext::schedule_orchestration_versioned,
            (b, name, version, instance, input),
            (),
        ),
        old(a)@.next_token < u64::MAX,
        old(b)@.next_token < u64::MAX,
    ensures
        decided(
            old(a)@,
            final(a)@,
            Action::StartOrchestrationDetached {
                scheduling_event_id: 0,
                name,
                version: None,
                instance,
                input,
            },
        ),
        decided(
            old(b)@,
            final(b)@,
            Action::StartOrchestrationDetached {
                scheduling_event_id: 0,
                name,
                version,
                instance,
                input,
            },
        ),
{
    assert(final(a)@.emitted.drop_last() =~= old(a)@.emitted);
    assert(final(b)@.emitted.drop_last() =~= old(b)@.emitted);
}

/// An execution continues as new with the input that was given, in the same
/// version unless another one was given.
pub proof fn law_continuing_as_new_is_decided(
    a: &mut OrchestrationContext,
    b: &mut OrchestrationContext,
    version: String,
    input: String,
    f: ContinueAsNewFuture,
    g: ContinueAsNewFuture,
)
    requires
        call_ensures(OrchestrationContext::continue_as_new, (a, input), f),
        call_ensures(OrchestrationContext::continue_as_new_versioned, (b, version, input), g),
        old(a)@.next_token < u64::MAX,
        old(b)@.next_token < u64::MAX,
    ensures
        decided(old(a)@, final(a)@, Action::ContinueAsNew { input, version: None }),
        decided(old(b)@, final(b)@, Action::ContinueAsNew { input, version: Some(version) }),
{
    assert(final(a)@.emitted.drop_last() =~= old(a)@.emitted);
    assert(final(b)@.emitted.drop_last() =~= old(b)@.emitted);
}

/// The built-in activities ask for a fresh identifier and for the time, without
/// input and without a session.
pub proof fn law_system_calls_are_activities(
    a: &mut OrchestrationContext,
    b: &mut OrchestrationContext,
    f: DurableFuture,
    g: DurableFuture,
)
    requires
        call_ensures(OrchestrationContext::new_guid, (a,), f),
        call_ensures(OrchestrationContext::utc_now, (b,), g),
        old(a)@.next_token < u64::MAX,
        old(b)@.next_token < u64::MAX,
    ensures
        last_decision(final(a)@) matches Action::CallActivity {
            name,
            input,
            session_id: None,
            tag: None,
            ..
        } && name@ == "__duroxide_syscall:new_guid"@ && input@ == ""@,
        last_decision(final(b)@) matches Action::CallActivity {
            name,
            input,
            session_id: None,
            tag: None,
            ..
        } && name@ == "__duroxide_syscall:utc_now_ms"@ && input@ == ""@,
        decided(old(a)@, final(a)@, last_decision(final(a)@)),
        decided(old(b)@, final(b)@, last_decision(final(b)@)),
        waits_for_it(f@, final(a)@, Source::Activity),
        waits_for_it(g@, final(b)@, Source::Activity),
        f@.kind is Activity && g@.kind is Activity,
{
    assert(final(a)@.emitted.drop_last() =~= old(a)@.emitted);
    assert(final(b)@.emitted.drop_last() =~= old(b)@.emitted);
}

/// The time that the clock activity gives is read back as the number that it was
/// written as, and an error of the activity is handed on.
pub proof fn law_the_time_is_read_back(
    result: Result<String, String>,
    r: Result<u64, String>,
    ms: u64,
)
    requires
        call_ensures(orchestration::parse_utc_now, (result,), r),
    ensures
        result matches Ok(s) ==> (s@ == text::decimal(ms as nat) ==> r == Ok::<u64, String>(ms)),
        result matches Err(e) ==> r == Err::<u64, String>(e),
{
    if let Ok(s) = result {
        if s@ == text::decimal(ms as nat) {
            text::law_decimal_reads_back(ms as nat);
        }
    }
}

/// The status is what was set last, is none once it was reset, and each change is
/// decided on, for the host to store.
pub proof fn law_the_status_is_set_and_reset(
    a: &mut OrchestrationContext,
    status: String,
    then_a: &OrchestrationContext,
    b: &mut OrchestrationContext,
    then_b: &OrchestrationContext,
    seen_a: Option<String>,
    seen_b: Option<String>,
)
    requires
        call_ensures(OrchestrationContext::set_custom_status, (a, status), ()),
        then_a@ == final(a)@,
        call_ensures(OrchestrationContext::get_custom_status, (then_a,), seen_a),
        call_ensures(OrchestrationContext::reset_custom_status, (b,), ()),
        then_b@ == final(b)@,
        call_ensures(OrchestrationContext::get_custom_status, (then_b,), seen_b),
        old(a)@.next_token < u64::MAX,
        old(b)@.next_token < u64::MAX,
    ensures
        seen_a == Some(status),
        seen_b is None,
        decided(
            CtxModel { custom_status: Some(status), ..old(a)@ },
            final(a)@,
            Action::UpdateCustomStatus { status: Some(status) },
        ),
        decided(
            CtxModel { custom_status: None, ..old(b)@ },
            final(b)@,
            Action::UpdateCustomStatus { status: None },
        ),
{
    assert(final(a)@.emitted.drop_last() =~= old(a)@.emitted);
    assert(final(b)@.emitted.drop_last() =~= old(b)@.emitted);
}

/// A turn starts out replaying, with nothing decided, delivered, bound or
/// cancelled, and knows the execution that it belongs to.
pub proof fn law_a_turn_starts_out_empty(
    history: Vec<crate::event::Event>,
    execution_id: u64,
    instance_id: String,
    name: String,
    version: String,
    worker: Option<String>,
    c: OrchestrationContext,
)
    requires
        call_ensures(
            OrchestrationContext::new,
            (history, execution_id, instance_id, name, version, worker),
            c,
        ),
    ensures
        c@.is_replaying,
        !c@.logging_enabled,
        c@.next_token == 0,
        c@.emitted.len() == 0,
        c@.results.dom().is_empty() && c@.bindings.dom().is_empty(),
        c@.external_subs.dom().is_empty() && c@.topic_subs.dom().is_empty(),
        c@.queue_subs.len() == 0,
        c@.external_log.len() == 0 && c@.queue_log.len() == 0 && c@.topic_log.len() == 0,
        c@.cancelled.len() == 0,
        c@.custom_status is None && c@.system_stats is None,
        c@.kv.len() == 0 && c@.kv_updated.len() == 0,
        c@.execution_id == execution_id,
        c@.instance_id == instance_id,
        c@.orchestration_name == name,
        c@.orchestration_version == version,
{
}

/// The context says which execution it belongs to.
pub proof fn law_a_turn_knows_its_execution(
    c: &OrchestrationContext,
    execution_id: u64,
    instance_id: String,
    name: String,
    version: String,
    logging: bool,
    replaying: bool,
    left: u64,
)
    requires
        call_ensures(OrchestrationContext::execution_id, (c,), execution_id),
        call_ensures(OrchestrationContext::instance_id, (c,), instance_id),
        call_ensures(OrchestrationContext::orchestration_name, (c,), name),
        call_ensures(OrchestrationContext::orchestration_version, (c,), version),
        call_ensures(OrchestrationContext::is_logging_enabled, (c,), logging),
        call_ensures(OrchestrationContext::is_replaying, (c,), replaying),
        call_ensures(OrchestrationContext::tokens_left, (c,), left),
    ensures
        execution_id == c@.execution_id,
        instance_id == c@.instance_id,
        name == c@.orchestration_name,
        version == c@.orchestration_version,
        logging == c@.logging_enabled,
        replaying == c@.is_replaying,
        left + c@.next_token == u64::MAX,
{
}

/// Nothing is traced while history is replayed. Otherwise each call gives the
/// message at the level of its name, with what ties it to its execution.
pub proof fn law_traces_are_for_the_first_time_only(
    c: &OrchestrationContext,
    message: String,
    info: Option<TraceEntry>,
    warn: Option<TraceEntry>,
    error: Option<TraceEntry>,
    debug: Option<TraceEntry>,
)
    requires
        call_ensures(OrchestrationContext::trace_info, (c, message), info),
        call_ensures(OrchestrationContext::trace_warn, (c, message), warn),
        call_ensures(OrchestrationContext::trace_error, (c, message), error),
        call_ensures(OrchestrationContext::trace_debug, (c, message), debug),
    ensures
        c@.is_replaying ==> info is None && warn is None && error is None && debug is None,
        !c@.is_replaying ==> {
            &&& info matches Some(e) && e.level is Info && e.label@ == "INFO"@ && ties(e, c@)
                && e.message == message
            &&& warn matches Some(e) && e.level is Warn && e.label@ == "WARN"@ && ties(e, c@)
                && e.message == message
            &&& error matches Some(e) && e.level is Error && e.label@ == "ERROR"@ && ties(e, c@)
                && e.message == message
            &&& debug matches Some(e) && e.level is Debug && e.label@ == "DEBUG"@ && ties(e, c@)
                && e.message == message
        },
{
}

/// The entry names the execution that it comes from.
pub open spec fn ties(e: TraceEntry, m: CtxModel) -> bool {
    &&& e.instance_id == m.instance_id
    &&& e.execution_id == m.execution_id
    &&& e.orchestration_name == m.orchestration_name
    &&& e.orchestration_version == m.orchestration_version
}

/// A level by name: the four names, as they read in upper case, stand for their
/// levels, and every other one for the lowest; the entry keeps the name as given.
pub proof fn law_a_named_level_is_kept(
    c: &OrchestrationContext,
    level: &str,
    message: String,
    r: Option<TraceEntry>,
)
    requires
        call_ensures(OrchestrationContext::trace, (c, level, message), r),
    ensures
        c@.is_replaying <==> r is None,
        r matches Some(e) ==> {
            let upper = crate::trace::uppercased(level@);
            &&& e.label@ == level@
            &&& e.message == message
            &&& ties(e, c@)
            &&& e.level is Info <==> upper == "INFO"@
            &&& e.level is Warn <==> upper == "WARN"@
            &&& e.level is Error <==> upper == "ERROR"@
            &&& e.level is Debug <==> upper == "DEBUG"@
        },
{
    reveal_strlit("INFO");
    reveal_strlit("WARN");
    reveal_strlit("ERROR");
    reveal_strlit("DEBUG");
    assert("INFO"@[0] == 'I' && "WARN"@[0] == 'W' && "ERROR"@[0] == 'E' && "DEBUG"@[0] == 'D');
}

/// A trace at a given level keeps the level and the label as they are.
pub proof fn law_a_trace_keeps_its_level(
    c: &OrchestrationContext,
    level: TraceLevel,
    label: &str,
    message: String,
    r: Option<TraceEntry>,
)
    requires
        call_ensures(OrchestrationContext::trace_internal, (c, level, label, message), r),
    ensures
        c@.is_replaying <==> r is None,
        r matches Some(e) ==> e.level == level && e.label@ == label@ && e.message == message
            && ties(e, c@),
{
}

} // verus!
