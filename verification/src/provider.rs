//! What passes between the runtime and its store: work items, errors, filters
//! and the results of maintenance.
use crate::error::ErrorDetails;
use crate::event::INITIAL_EXECUTION_ID;
use vstd::prelude::*;

verus! {

/// A message for a dispatcher.
#[derive(Debug, Clone, PartialEq, Eq)]
pub enum WorkItem {
    /// Start an orchestration.
    StartOrchestration {
        instance: String,
        orchestration: String,
        input: String,
        version: Option<String>,
        parent_instance: Option<String>,
        parent_id: Option<u64>,
        execution_id: u64,
    },
    /// Run an activity.
    ActivityExecute {
        instance: String,
        execution_id: u64,
        id: u64,
        name: String,
        input: String,
        session_id: Option<String>,
        tag: Option<String>,
    },
    /// An activity completed.
    ActivityCompleted { instance: String, execution_id: u64, id: u64, result: String },
    /// A timer fired.
    TimerFired { instance: String, execution_id: u64, id: u64, fire_at_ms: u64 },
    /// A positional external event was raised.
    ExternalRaised { instance: String, name: String, data: String },
    /// An external event was raised on a topic.
    ExternalRaised2 { instance: String, name: String, topic: String, data: String },
    /// A message was sent to a queue.
    QueueMessage { instance: String, name: String, data: String },
    /// Cancel an instance.
    CancelInstance { instance: String, reason: String },
    /// Go on in a new execution.
    ContinueAsNew {
        instance: String,
        orchestration: String,
        input: String,
        version: Option<String>,
        carry_forward_events: Vec<(String, String)>,
        initial_custom_status: Option<String>,
    },
}

/// The message that starts `orchestration` as a root in its first execution.
pub open spec fn start_of(
    instance: String,
    orchestration: String,
    input: String,
    version: Option<String>,
) -> WorkItem {
    WorkItem::StartOrchestration {
        instance,
        orchestration,
        input,
        version,
        parent_instance: None,
        parent_id: None,
        execution_id: INITIAL_EXECUTION_ID,
    }
}

/// A failure that the store reports.
#[derive(Debug, PartialEq, Eq)]
pub struct ProviderError {
    /// What went wrong.
    pub message: String,
    /// The text of the error, with its circumstances.
    pub text: String,
    /// Whether trying again can help.
    pub retryable: bool,
}

impl Clone for ProviderError {
    fn clone(&self) -> (r: Self)
        ensures
            r == *self,
    {
        ProviderError {
            message: self.message.clone(),
            text: self.text.clone(),
            retryable: self.retryable,
        }
    }
}

impl ProviderError {
    /// Whether trying again can help.
    pub fn is_retryable(&self) -> (r: bool)
        ensures
            r == self.retryable,
    {
        self.retryable
    }
}

/// How an orchestration stands.
#[derive(Debug, PartialEq, Eq)]
pub enum OrchestrationStatus {
    /// No such instance.
    NotFound,
    /// It was started and has not ended.
    Running { custom_status: Option<String>, custom_status_version: u64 },
    /// It completed.
    Completed { output: String, custom_status: Option<String>, custom_status_version: u64 },
    /// It failed.
    Failed { details: ErrorDetails, custom_status: Option<String>, custom_status_version: u64 },
}

/// Which instances an operation is for. What is absent does not restrict it.
#[derive(Debug, Clone, PartialEq, Eq)]
pub struct InstanceFilter {
    pub instance_ids: Option<Vec<String>>,
    /// Only those that completed before this time, in milliseconds since 1970.
    pub completed_before: Option<u64>,
    /// At most this many.
    pub limit: Option<u32>,
}

/// Which executions are pruned. The current one never is.
#[derive(Debug, Clone, Copy, PartialEq, Eq, Structural)]
pub struct PruneOptions {
    /// Keep this many of the latest executions.
    pub keep_last: Option<u32>,
    /// Only those that completed before this time, in milliseconds since 1970.
    pub completed_before: Option<u64>,
}

/// What a deletion removed.
#[derive(Debug, Clone, Copy, PartialEq, Eq, Structural)]
pub struct DeleteInstanceResult {
    pub instances_deleted: u64,
    pub executions_deleted: u64,
    pub events_deleted: u64,
    pub queue_messages_deleted: u64,
}

/// What a pruning removed.
#[derive(Debug, Clone, Copy, PartialEq, Eq, Structural)]
pub struct PruneResult {
    pub instances_processed: u64,
    pub executions_deleted: u64,
    pub events_deleted: u64,
}

} // verus!
