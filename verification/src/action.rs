//! What an orchestration turn decides, and what completes a decision.
use crate::error::copy_text;
use vstd::prelude::*;

verus! {

/// A decision of an orchestration turn, for the host to turn into an event.
#[derive(Debug, PartialEq, Eq)]
pub enum Action {
    /// Schedule an activity.
    CallActivity {
        scheduling_event_id: u64,
        name: String,
        input: String,
        /// The session whose worker is to run the activity.
        session_id: Option<String>,
        /// The tag of the workers that may run the activity.
        tag: Option<String>,
    },
    /// Create a timer that fires at an absolute time.
    CreateTimer { scheduling_event_id: u64, fire_at_ms: u64 },
    /// Subscribe to an external event by name.
    WaitExternal { scheduling_event_id: u64, name: String },
    /// Start an orchestration whose result nobody awaits.
    StartOrchestrationDetached {
        scheduling_event_id: u64,
        name: String,
        version: Option<String>,
        instance: String,
        input: String,
    },
    /// Start a sub-orchestration.
    StartSubOrchestration {
        scheduling_event_id: u64,
        name: String,
        version: Option<String>,
        instance: String,
        input: String,
    },
    /// End this execution and start the next with fresh input.
    ContinueAsNew { input: String, version: Option<String> },
    /// Set the custom status, or clear it with `None`.
    UpdateCustomStatus { status: Option<String> },
    /// Take the next message of a queue.
    DequeueEvent { scheduling_event_id: u64, name: String },
    /// Subscribe to an external event by name and topic.
    WaitExternal2 { scheduling_event_id: u64, name: String, topic: String },
    /// Set a key.
    SetKeyValue { key: String, value: String, last_updated_at_ms: u64 },
    /// Clear a key.
    ClearKeyValue { key: String },
    /// Clear all keys.
    ClearKeyValues,
}

impl Clone for Action {
    fn clone(&self) -> (r: Self)
        ensures
            r == *self,
    {
        match self {
            Action::CallActivity { scheduling_event_id, name, input, session_id, tag } => {
                Action::CallActivity {
                    scheduling_event_id: *scheduling_event_id,
                    name: name.clone(),
                    input: input.clone(),
                    session_id: copy_text(session_id),
                    tag: copy_text(tag),
                }
            },
            Action::CreateTimer { scheduling_event_id, fire_at_ms } => Action::CreateTimer {
                scheduling_event_id: *scheduling_event_id,
                fire_at_ms: *fire_at_ms,
            },
            Action::WaitExternal { scheduling_event_id, name } => Action::WaitExternal {
                scheduling_event_id: *scheduling_event_id,
                name: name.clone(),
            },
            Action::StartOrchestrationDetached {
                scheduling_event_id,
                name,
                version,
                instance,
                input,
            } => Action::StartOrchestrationDetached {
                scheduling_event_id: *scheduling_event_id,
                name: name.clone(),
                version: copy_text(version),
                instance: instance.clone(),
                input: input.clone(),
            },
            Action::StartSubOrchestration { scheduling_event_id, name, version, instance, input } => {
                Action::StartSubOrchestration {
                    scheduling_event_id: *scheduling_event_id,
                    name: name.clone(),
                    version: copy_text(version),
                    instance: instance.clone(),
                    input: input.clone(),
                }
            },
            Action::ContinueAsNew { input, version } => Action::ContinueAsNew {
                input: input.clone(),
                version: copy_text(version),
            },
            Action::UpdateCustomStatus { status } => Action::UpdateCustomStatus {
                status: copy_text(status),
            },
            Action::DequeueEvent { scheduling_event_id, name } => Action::DequeueEvent {
                scheduling_event_id: *scheduling_event_id,
                name: name.clone(),
            },
            Action::WaitExternal2 { scheduling_event_id, name, topic } => Action::WaitExternal2 {
                scheduling_event_id: *scheduling_event_id,
                name: name.clone(),
                topic: topic.clone(),
            },
            Action::SetKeyValue { key, value, last_updated_at_ms } => Action::SetKeyValue {
                key: key.clone(),
                value: value.clone(),
                last_updated_at_ms: *last_updated_at_ms,
            },
            Action::ClearKeyValue { key } => Action::ClearKeyValue { key: key.clone() },
            Action::ClearKeyValues => Action::ClearKeyValues,
        }
    }
}

/// The result that completes a scheduled operation.
#[derive(Debug, PartialEq, Eq)]
pub enum CompletionResult {
    /// An activity succeeded.
    ActivityOk(String),
    /// An activity failed.
    ActivityErr(String),
    /// A timer fired.
    TimerFired,
    /// A sub-orchestration succeeded.
    SubOrchOk(String),
    /// A sub-orchestration failed.
    SubOrchErr(String),
    /// Data of an external event.
    ExternalData(String),
}

impl Clone for CompletionResult {
    fn clone(&self) -> (r: Self)
        ensures
            r == *self,
    {
        match self {
            CompletionResult::ActivityOk(s) => CompletionResult::ActivityOk(s.clone()),
            CompletionResult::ActivityErr(s) => CompletionResult::ActivityErr(s.clone()),
            CompletionResult::TimerFired => CompletionResult::TimerFired,
            CompletionResult::SubOrchOk(s) => CompletionResult::SubOrchOk(s.clone()),
            CompletionResult::SubOrchErr(s) => CompletionResult::SubOrchErr(s.clone()),
            CompletionResult::ExternalData(s) => CompletionResult::ExternalData(s.clone()),
        }
    }
}

/// The kind of scheduled work, which decides how dropping it cancels it.
///
/// - **Activity**: its entry leaves the worker queue.
/// - **SubOrchestration**: a cancellation is sent to the child.
/// - **Timer**, **ExternalWait**: nothing outside needs cancelling.
#[derive(Debug, PartialEq, Eq)]
pub enum ScheduleKind {
    /// An activity.
    Activity { name: String },
    /// A timer.
    Timer,
    /// A wait for an external event.
    ExternalWait { event_name: String },
    /// A wait for a queue message.
    QueueDequeue { event_name: String },
    /// A sub-orchestration, with the token under which its instance is found.
    SubOrchestration { token: u64 },
}

impl Clone for ScheduleKind {
    fn clone(&self) -> (r: Self)
        ensures
            r == *self,
    {
        match self {
            ScheduleKind::Activity { name } => ScheduleKind::Activity { name: name.clone() },
            ScheduleKind::Timer => ScheduleKind::Timer,
            ScheduleKind::ExternalWait { event_name } => ScheduleKind::ExternalWait {
                event_name: event_name.clone(),
            },
            ScheduleKind::QueueDequeue { event_name } => ScheduleKind::QueueDequeue {
                event_name: event_name.clone(),
            },
            ScheduleKind::SubOrchestration { token } => ScheduleKind::SubOrchestration {
                token: *token,
            },
        }
    }
}

} // verus!
