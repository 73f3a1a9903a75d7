//! The event history of an orchestration.
use crate::error::ErrorDetails;
use crate::time::{self, wall_clock_ms};
use vstd::prelude::*;

verus! {

/// Execution ID of the first execution of an instance.
pub const INITIAL_EXECUTION_ID: u64 = 1;

/// Event ID of the first event of an execution.
pub const INITIAL_EVENT_ID: u64 = 1;

/// The version of this crate, stamped on every event.
pub const CRATE_VERSION: &'static str = "0.1.0";

/// One entry of an append-only history.
///
/// Scheduling and completion events are linked by `source_event_id`.
#[derive(Debug, Clone, PartialEq, Eq)]
pub struct Event {
    /// Position in the history of the execution.
    pub event_id: u64,
    /// For a completion event, the scheduling event that it completes.
    pub source_event_id: Option<u64>,
    /// The instance that the event belongs to.
    pub instance_id: String,
    /// The execution that the event belongs to.
    pub execution_id: u64,
    /// When the event was made, in milliseconds since 1970.
    pub timestamp_ms: u64,
    /// The version of the crate that made the event.
    pub duroxide_version: String,
    /// What happened.
    pub kind: EventKind,
}

/// What an event records.
#[derive(Debug, Clone, PartialEq, Eq)]
pub enum EventKind {
    /// The orchestration was started by name with input.
    OrchestrationStarted {
        name: String,
        version: String,
        input: String,
        parent_instance: Option<String>,
        parent_id: Option<u64>,
        /// Queue events that the previous execution left, as (name, data).
        carry_forward_events: Option<Vec<(String, String)>>,
        /// The custom status that the previous execution left.
        initial_custom_status: Option<String>,
    },
    /// The orchestration completed.
    OrchestrationCompleted { output: String },
    /// The orchestration failed.
    OrchestrationFailed { details: ErrorDetails },
    /// An activity was scheduled.
    ActivityScheduled {
        name: String,
        input: String,
        session_id: Option<String>,
        tag: Option<String>,
    },
    /// An activity completed.
    ActivityCompleted { result: String },
    /// An activity failed.
    ActivityFailed { details: ErrorDetails },
    /// Cancellation of an activity was requested.
    ActivityCancelRequested { reason: String },
    /// A timer was created.
    TimerCreated { fire_at_ms: u64 },
    /// A timer fired.
    TimerFired { fire_at_ms: u64 },
    /// A positional subscription to an external event was recorded.
    ExternalSubscribed { name: String },
    /// An external event was raised.
    ExternalEvent { name: String, data: String },
    /// A detached orchestration was scheduled.
    OrchestrationChained { name: String, instance: String, input: String },
    /// A sub-orchestration was scheduled.
    SubOrchestrationScheduled { name: String, instance: String, input: String },
    /// A sub-orchestration completed.
    SubOrchestrationCompleted { result: String },
    /// A sub-orchestration failed.
    SubOrchestrationFailed { details: ErrorDetails },
    /// Cancellation of a sub-orchestration was requested.
    SubOrchestrationCancelRequested { reason: String },
    /// The execution ended and a new one follows with fresh input.
    OrchestrationContinuedAsNew { input: String },
    /// Cancellation of the orchestration was requested.
    OrchestrationCancelRequested { reason: String },
    /// A positional subscription was cancelled.
    ExternalSubscribedCancelled { reason: String },
    /// A queue subscription was recorded.
    QueueSubscribed { name: String },
    /// A queue event was delivered.
    QueueEventDelivered { name: String, data: String },
    /// A queue subscription was cancelled.
    QueueSubscriptionCancelled { reason: String },
    /// The custom status was set, or cleared with `None`.
    CustomStatusUpdated { status: Option<String> },
    /// A subscription by name and topic was recorded.
    ExternalSubscribed2 { name: String, topic: String },
    /// An external event was raised on a topic.
    ExternalEvent2 { name: String, topic: String, data: String },
    /// A key was set.
    KeyValueSet { key: String, value: String, last_updated_at_ms: u64 },
    /// A key was cleared.
    KeyValueCleared { key: String },
    /// All keys were cleared.
    KeyValuesCleared,
}

/// The event with these fields, made at `timestamp_ms`.
pub open spec fn is_event(
    e: Event,
    event_id: u64,
    instance_id: String,
    execution_id: u64,
    source_event_id: Option<u64>,
    kind: EventKind,
    timestamp_ms: u64,
) -> bool {
    &&& e.event_id == event_id
    &&& e.instance_id == instance_id
    &&& e.execution_id == execution_id
    &&& e.source_event_id == source_event_id
    &&& e.kind == kind
    &&& e.timestamp_ms == timestamp_ms
    &&& e.duroxide_version@ == CRATE_VERSION@
}

/// Whether a kind of event ends its execution.
pub open spec fn ends_execution(kind: EventKind) -> bool {
    kind is OrchestrationCompleted || kind is OrchestrationFailed
        || kind is OrchestrationContinuedAsNew
}

impl Event {
    /// An event with a known position, stamped with the wall clock.
    pub fn with_event_id(
        event_id: u64,
        instance_id: String,
        execution_id: u64,
        source_event_id: Option<u64>,
        kind: EventKind,
    ) -> (r: Self)
        ensures
            exists|reading: Option<(u64, u32)>|
                r.timestamp_ms == #[trigger] time::epoch_millis(reading),
            is_event(r, event_id, instance_id, execution_id, source_event_id, kind, r.timestamp_ms),
    {
        let now: u64 = wall_clock_ms();
        Event::with_event_id_at(event_id, instance_id, execution_id, source_event_id, kind, now)
    }

    /// An event with a known position and time stamp.
    pub fn with_event_id_at(
        event_id: u64,
        instance_id: String,
        execution_id: u64,
        source_event_id: Option<u64>,
        kind: EventKind,
        timestamp_ms: u64,
    ) -> (r: Self)
        ensures
            is_event(r, event_id, instance_id, execution_id, source_event_id, kind, timestamp_ms),
    {
        Event {
            event_id,
            source_event_id,
            instance_id,
            execution_id,
            timestamp_ms,
            duroxide_version: CRATE_VERSION.to_string(),
            kind,
        }
    }

    /// An event whose position is yet to be assigned: its `event_id` is 0.
    pub fn new(
        instance_id: String,
        execution_id: u64,
        source_event_id: Option<u64>,
        kind: EventKind,
    ) -> (r: Self)
        ensures
            exists|reading: Option<(u64, u32)>|
                r.timestamp_ms == #[trigger] time::epoch_millis(reading),
            is_event(r, 0, instance_id, execution_id, source_event_id, kind, r.timestamp_ms),
    {
        Event::with_event_id(0, instance_id, execution_id, source_event_id, kind)
    }

    /// The position in history.
    pub fn event_id(&self) -> (r: u64)
        ensures
            r == self.event_id,
    {
        self.event_id
    }

    /// Assigns the position in history.
    pub fn set_event_id(&mut self, id: u64)
        ensures
            *final(self) == (Event { event_id: id, ..*old(self) }),
    {
        self.event_id = id;
    }

    /// The scheduling event that this one completes, if it completes one.
    pub fn source_event_id(&self) -> (r: Option<u64>)
        ensures
            r == self.source_event_id,
    {
        self.source_event_id
    }

    /// Whether this event ends its execution.
    pub fn is_terminal(&self) -> (r: bool)
        ensures
            r == ends_execution(self.kind),
    {
        matches!(
            self.kind,
            EventKind::OrchestrationCompleted { .. } | EventKind::OrchestrationFailed { .. }
                | EventKind::OrchestrationContinuedAsNew { .. }
        )
    }
}

/// Log levels of an orchestration.
#[derive(Debug, Clone, Copy, PartialEq, Eq, Structural)]
pub enum LogLevel {
    Info,
    Warn,
    Error,
}

/// An event holds what it was made of, at the position that it was given, or at
/// position 0 until it is given one, and is stamped with the version of the crate.
pub proof fn law_an_event_holds_what_it_was_made_of(
    id: u64,
    instance: String,
    execution: u64,
    source: Option<u64>,
    kind: EventKind,
    at: u64,
    placed: Event,
    stamped: Event,
    unplaced: Event,
)
    requires
        call_ensures(
            Event::with_event_id_at,
            (id, instance, execution, source, kind, at),
            placed,
        ),
        call_ensures(Event::with_event_id, (id, instance, execution, source, kind), stamped),
        call_ensures(Event::new, (instance, execution, source, kind), unplaced),
    ensures
        placed.event_id == id && stamped.event_id == id && unplaced.event_id == 0,
        placed.timestamp_ms == at,
        placed.instance_id == instance && stamped.instance_id == instance && unplaced.instance_id
            == instance,
        placed.execution_id == execution && stamped.execution_id == execution
            && unplaced.execution_id == execution,
        placed.source_event_id == source && stamped.source_event_id == source
            && unplaced.source_event_id == source,
        placed.kind == kind && stamped.kind == kind && unplaced.kind == kind,
        placed.duroxide_version@ == "0.1.0"@ && stamped.duroxide_version@ == "0.1.0"@
            && unplaced.duroxide_version@ == "0.1.0"@,
{
}

/// An event says what it holds: its position, which can be assigned later, and the
/// event that it completes. It ends its execution exactly if the orchestration
/// completed, failed or continued as new with it.
pub proof fn law_an_event_says_what_it_holds(
    e: &mut Event,
    id: u64,
    now: &Event,
    position: u64,
    source: Option<u64>,
    terminal: bool,
)
    requires
        call_ensures(Event::set_event_id, (e, id), ()),
        *now == *final(e),
        call_ensures(Event::event_id, (now,), position),
        call_ensures(Event::source_event_id, (now,), source),
        call_ensures(Event::is_terminal, (now,), terminal),
    ensures
        position == id,
        source == old(e).source_event_id,
        terminal <==> match old(e).kind {
            EventKind::OrchestrationCompleted { .. } => true,
            EventKind::OrchestrationFailed { .. } => true,
            EventKind::OrchestrationContinuedAsNew { .. } => true,
            _ => false,
        },
        *final(e) == (Event { event_id: id, ..*old(e) }),
{
}

} // verus!
