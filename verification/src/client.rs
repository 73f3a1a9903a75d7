//! The client: what it enqueues, how it reads the status of an orchestration,
//! how it waits, and how it reports errors.
use crate::error::{self, copy_text, ErrorDetails};
use crate::event::{Event, EventKind, INITIAL_EXECUTION_ID};
use crate::provider::{
    self, InstanceFilter, OrchestrationStatus, ProviderError, PruneOptions, WorkItem,
};
use crate::text::{self, contains, join2, join3};
use crate::time::{self, Duration};
use vstd::prelude::*;

verus! {

/// What a client operation fails with.
#[derive(Debug, PartialEq, Eq)]
pub enum ClientError {
    /// The store failed.
    Provider(ProviderError),
    /// The store has no management operations.
    ManagementNotAvailable,
    /// The input cannot be used.
    InvalidInput { message: String },
    /// The time for the operation ran out.
    Timeout,
    /// The instance still runs.
    InstanceStillRunning { instance_id: String },
    /// The instance is a sub-orchestration and goes only with its root.
    CannotDeleteSubOrchestration { instance_id: String },
    /// There is no such instance.
    InstanceNotFound { instance_id: String },
}

impl Clone for ClientError {
    fn clone(&self) -> (r: Self)
        ensures
            r == *self,
    {
        match self {
            ClientError::Provider(e) => ClientError::Provider(e.clone()),
            ClientError::ManagementNotAvailable => ClientError::ManagementNotAvailable,
            ClientError::InvalidInput { message } => ClientError::InvalidInput {
                message: message.clone(),
            },
            ClientError::Timeout => ClientError::Timeout,
            ClientError::InstanceStillRunning { instance_id } => {
                ClientError::InstanceStillRunning { instance_id: instance_id.clone() }
            },
            ClientError::CannotDeleteSubOrchestration { instance_id } => {
                ClientError::CannotDeleteSubOrchestration { instance_id: instance_id.clone() }
            },
            ClientError::InstanceNotFound { instance_id } => ClientError::InstanceNotFound {
                instance_id: instance_id.clone(),
            },
        }
    }
}

/// The text of an error.
pub open spec fn error_text(e: ClientError) -> Seq<char> {
    match e {
        ClientError::Provider(p) => p.text@,
        ClientError::ManagementNotAvailable => {
            "Management features not available - provider doesn't implement ProviderAdmin"@
        },
        ClientError::InvalidInput { message } => "Invalid input: "@ + message@,
        ClientError::Timeout => "Operation timed out"@,
        ClientError::InstanceStillRunning { instance_id } => {
            "Instance "@ + instance_id@ + " is still running. Use force=true or cancel first."@
        },
        ClientError::CannotDeleteSubOrchestration { instance_id } => {
            "Cannot delete sub-orchestration "@ + instance_id@
                + " directly. Delete the root orchestration instead."@
        },
        ClientError::InstanceNotFound { instance_id } => {
            "Instance "@ + instance_id@ + " not found"@
        },
    }
}

impl ClientError {
    /// Whether trying again can help. Only an error of the store can say so.
    pub fn is_retryable(&self) -> (r: bool)
        ensures
            r == (*self matches ClientError::Provider(e) && e.retryable),
    {
        match self {
            ClientError::Provider(e) => e.is_retryable(),
            ClientError::ManagementNotAvailable => false,
            ClientError::InvalidInput { .. } => false,
            ClientError::Timeout => false,
            ClientError::InstanceStillRunning { .. } => false,
            ClientError::CannotDeleteSubOrchestration { .. } => false,
            ClientError::InstanceNotFound { .. } => false,
        }
    }

    /// The text of the error.
    pub fn message(&self) -> (r: String)
        ensures
            r@ == error_text(*self),
    {
        match self {
            ClientError::Provider(e) => e.text.clone(),
            ClientError::ManagementNotAvailable => {
                "Management features not available - provider doesn't implement ProviderAdmin".to_string()
            },
            ClientError::InvalidInput { message } => join2("Invalid input: ", message.as_str()),
            ClientError::Timeout => "Operation timed out".to_string(),
            ClientError::InstanceStillRunning { instance_id } => join3(
                "Instance ",
                instance_id.as_str(),
                " is still running. Use force=true or cancel first.",
            ),
            ClientError::CannotDeleteSubOrchestration { instance_id } => join3(
                "Cannot delete sub-orchestration ",
                instance_id.as_str(),
                " directly. Delete the root orchestration instead.",
            ),
            ClientError::InstanceNotFound { instance_id } => join3(
                "Instance ",
                instance_id.as_str(),
                " not found",
            ),
        }
    }
}

impl From<ProviderError> for ClientError {
    fn from(e: ProviderError) -> (r: Self) {
        ClientError::Provider(e)
    }
}

impl vstd::std_specs::convert::FromSpecImpl<ProviderError> for ClientError {
    open spec fn obeys_from_spec() -> bool {
        true
    }

    open spec fn from_spec(e: ProviderError) -> Self {
        ClientError::Provider(e)
    }
}

/// The delay before the second look of a wait, in milliseconds.
pub const INITIAL_POLL_DELAY_MS: u64 = 5;

/// The longest delay of a wait, in milliseconds.
pub const MAX_POLL_DELAY_MS: u64 = 100;

/// By how much the delay of a wait grows from look to look.
pub const POLL_DELAY_MULTIPLIER: u64 = 2;

/// What the store is asked to do under its management operations.
#[derive(Debug)]
pub enum AdminCall {
    ListInstances,
    ListInstancesByStatus { status: String },
    GetInstanceInfo { instance: String },
    GetExecutionInfo { instance: String, execution_id: u64 },
    ListExecutions { instance: String },
    ReadHistory { instance: String, execution_id: u64 },
    GetSystemMetrics,
    GetQueueDepths,
    GetInstanceTree { instance: String },
    DeleteInstance { instance: String, force: bool },
    DeleteInstances { filter: InstanceFilter },
    PruneExecutions { instance: String, options: PruneOptions },
    PruneExecutionsOf { filter: InstanceFilter, options: PruneOptions },
}

/// A custom status as the store reports it, with its version.
pub type CustomStatus = (Option<String>, u64);

/// The custom status that a status query shows: what the store reported, and
/// none at version 0 where it reported nothing or failed.
pub open spec fn shown_status(
    custom: Result<Option<CustomStatus>, ProviderError>,
) -> CustomStatus {
    match custom {
        Ok(Some(c)) => c,
        _ => (None, 0),
    }
}

/// The latest event of a history that completes or fails the orchestration.
pub open spec fn last_end(history: Seq<Event>) -> Option<EventKind>
    decreases history.len(),
{
    if history.len() == 0 {
        None
    } else if history.last().kind is OrchestrationCompleted || history.last().kind
        is OrchestrationFailed {
        Some(history.last().kind)
    } else {
        last_end(history.drop_last())
    }
}

/// Whether a history holds the start of the orchestration.
pub open spec fn was_started(history: Seq<Event>) -> bool {
    exists|i: int|
        0 <= i < history.len() && (#[trigger] history[i]).kind is OrchestrationStarted
}

/// The status that a history shows. The latest end decides; without one, an
/// orchestration that was started runs.
pub open spec fn status_of(history: Seq<Event>, custom: CustomStatus) -> OrchestrationStatus {
    match last_end(history) {
        Some(EventKind::OrchestrationCompleted { output }) => OrchestrationStatus::Completed {
            output,
            custom_status: custom.0,
            custom_status_version: custom.1,
        },
        Some(EventKind::OrchestrationFailed { details }) => OrchestrationStatus::Failed {
            details,
            custom_status: custom.0,
            custom_status_version: custom.1,
        },
        _ => {
            if was_started(history) {
                OrchestrationStatus::Running {
                    custom_status: custom.0,
                    custom_status_version: custom.1,
                }
            } else {
                OrchestrationStatus::NotFound
            }
        },
    }
}

/// The orchestration has ended.
pub open spec fn is_end(status: OrchestrationStatus) -> bool {
    status is Completed || status is Failed
}

/// The status that a history shows.
pub fn read_status(history: &Vec<Event>, custom: CustomStatus) -> (r: OrchestrationStatus)
    ensures
        r == status_of(history@, custom),
{
    let (custom_status, custom_status_version) = custom;
    let mut left: usize = history.len();
    assert(history@.take(left as int) =~= history@);
    while left > 0
        invariant
            left <= history@.len(),
            custom == (custom_status, custom_status_version),
            last_end(history@) == last_end(history@.take(left as int)),
        decreases left,
    {
        proof {
            let t = history@.take(left as int);
            assert(t.last() == history@[left - 1]);
            assert(t.drop_last() =~= history@.take(left - 1));
        }
        left -= 1;
        match &history[left].kind {
            EventKind::OrchestrationCompleted { output } => {
                return OrchestrationStatus::Completed {
                    output: output.clone(),
                    custom_status,
                    custom_status_version,
                };
            },
            EventKind::OrchestrationFailed { details } => {
                return OrchestrationStatus::Failed {
                    details: details.clone(),
                    custom_status,
                    custom_status_version,
                };
            },
            _ => {},
        }
    }
    let mut i: usize = 0;
    while i < history.len()
        invariant
            i <= history@.len(),
            custom == (custom_status, custom_status_version),
            last_end(history@) is None,
            forall|k: int|
                0 <= k < i ==> !((#[trigger] history@[k]).kind is OrchestrationStarted),
        decreases history@.len() - i,
    {
        if matches!(history[i].kind, EventKind::OrchestrationStarted { .. }) {
            assert(was_started(history@));
            return OrchestrationStatus::Running { custom_status, custom_status_version };
        }
        i += 1;
    }
    OrchestrationStatus::NotFound
}

/// What `str::to_lowercase` makes of a text.
pub uninterp spec fn lowercased(s: Seq<char>) -> Seq<char>;

/// Calls `str::to_lowercase`, which maps every character to its Unicode lower
/// case. The claim is that the result depends on the text alone.
#[verifier::external_body]
pub(crate) fn to_lowercase(s: &str) -> (r: String)
    ensures
        r@ == lowercased(s@),
{
    s.to_lowercase()
}

/// What an error of the store says of a deletion, its text in lower case.
pub open spec fn delete_error(e: ProviderError, lower: Seq<char>, instance_id: Seq<char>) -> spec_fn(
    ClientError,
) -> bool {
    |r: ClientError|
        if text::has_substring(lower, "not found"@) {
            r matches ClientError::InstanceNotFound { instance_id: id } && id@ == instance_id
        } else if text::has_substring(lower, "still running"@) {
            r matches ClientError::InstanceStillRunning { instance_id: id } && id@ == instance_id
        } else if text::has_substring(lower, "sub-orchestration"@) || text::has_substring(
            lower,
            "delete the root"@,
        ) {
            r matches ClientError::CannotDeleteSubOrchestration { instance_id: id } && id@
                == instance_id
        } else {
            r == ClientError::Provider(e)
        }
}

/// Explains an error of the store on a deletion, given its text in lower case.
pub fn classify_delete_error(e: ProviderError, lower: &str, instance_id: &str) -> (r: ClientError)
    ensures
        delete_error(e, lower@, instance_id@)(r),
{
    if contains(lower, "not found") {
        ClientError::InstanceNotFound { instance_id: instance_id.to_string() }
    } else if contains(lower, "still running") {
        ClientError::InstanceStillRunning { instance_id: instance_id.to_string() }
    } else if contains(lower, "sub-orchestration") || contains(lower, "delete the root") {
        ClientError::CannotDeleteSubOrchestration { instance_id: instance_id.to_string() }
    } else {
        ClientError::Provider(e)
    }
}

/// What an error of the store says of a look-up, its text in lower case.
pub open spec fn lookup_error(e: ProviderError, lower: Seq<char>, instance_id: Seq<char>) -> spec_fn(
    ClientError,
) -> bool {
    |r: ClientError|
        if text::has_substring(lower, "not found"@) {
            r matches ClientError::InstanceNotFound { instance_id: id } && id@ == instance_id
        } else {
            r == ClientError::Provider(e)
        }
}

/// Explains an error of the store on a look-up, given its text in lower case.
pub fn classify_lookup_error(e: ProviderError, lower: &str, instance_id: &str) -> (r: ClientError)
    ensures
        lookup_error(e, lower@, instance_id@)(r),
{
    if contains(lower, "not found") {
        ClientError::InstanceNotFound { instance_id: instance_id.to_string() }
    } else {
        ClientError::Provider(e)
    }
}

/// The client of a store.
#[derive(Debug, Clone, Copy)]
pub struct Client {
    management: bool,
}

impl Client {
    /// Whether the store has management operations.
    pub closed spec fn manages(&self) -> bool {
        self.management
    }

    /// The client of a store, which may have management operations.
    pub fn new(management: bool) -> (r: Self)
        ensures
            r.manages() == management,
    {
        Client { management }
    }

    /// Hands on what the store replied.
    pub fn reply<T>(reply: Result<T, ProviderError>) -> (r: Result<T, ClientError>)
        ensures
            r == (match reply {
                Ok(v) => Ok::<T, ClientError>(v),
                Err(e) => Err(ClientError::Provider(e)),
            }),
    {
        match reply {
            Ok(v) => Ok(v),
            Err(e) => Err(ClientError::from(e)),
        }
    }

    /// The message that starts an orchestration.
    pub fn start_orchestration(
        &self,
        instance: String,
        orchestration: String,
        input: String,
    ) -> (r: WorkItem)
        ensures
            r == provider::start_of(instance, orchestration, input, None),
    {
        WorkItem::StartOrchestration {
            instance,
            orchestration,
            input,
            version: None,
            parent_instance: None,
            parent_id: None,
            execution_id: INITIAL_EXECUTION_ID,
        }
    }

    /// The message that starts a given version of an orchestration.
    pub fn start_orchestration_versioned(
        &self,
        instance: String,
        orchestration: String,
        version: String,
        input: String,
    ) -> (r: WorkItem)
        ensures
            r == provider::start_of(instance, orchestration, input, Some(version)),
    {
        WorkItem::StartOrchestration {
            instance,
            orchestration,
            input,
            version: Some(version),
            parent_instance: None,
            parent_id: None,
            execution_id: INITIAL_EXECUTION_ID,
        }
    }

    /// The input that was encoded, or the error that tells why it was not.
    fn encoded_input(encoded: Result<String, String>) -> (r: Result<String, ClientError>)
        ensures
            match encoded {
                Ok(s) => r == Ok::<String, ClientError>(s),
                Err(e) => r matches Err(ClientError::InvalidInput { message }) && message@
                    == "encode: "@ + e@,
            },
    {
        match encoded {
            Ok(s) => Ok(s),
            Err(e) => Err(ClientError::InvalidInput { message: join2("encode: ", e.as_str()) }),
        }
    }

    /// The message that starts an orchestration with an encoded input.
    pub fn start_orchestration_typed(
        &self,
        instance: String,
        orchestration: String,
        encoded: Result<String, String>,
    ) -> (r: Result<WorkItem, ClientError>)
        ensures
            match encoded {
                Ok(input) => r == Ok::<WorkItem, ClientError>(
                    provider::start_of(instance, orchestration, input, None),
                ),
                Err(e) => r matches Err(ClientError::InvalidInput { message }) && message@
                    == "encode: "@ + e@,
            },
    {
        match Client::encoded_input(encoded) {
            Ok(input) => Ok(self.start_orchestration(instance, orchestration, input)),
            Err(e) => Err(e),
        }
    }

    /// The message that starts a given version with an encoded input.
    pub fn start_orchestration_versioned_typed(
        &self,
        instance: String,
        orchestration: String,
        version: String,
        encoded: Result<String, String>,
    ) -> (r: Result<WorkItem, ClientError>)
        ensures
            match encoded {
                Ok(input) => r == Ok::<WorkItem, ClientError>(
                    provider::start_of(instance, orchestration, input, Some(version)),
                ),
                Err(e) => r matches Err(ClientError::InvalidInput { message }) && message@
                    == "encode: "@ + e@,
            },
    {
        match Client::encoded_input(encoded) {
            Ok(input) => Ok(
                self.start_orchestration_versioned(instance, orchestration, version, input),
            ),
            Err(e) => Err(e),
        }
    }

    /// The message that raises a positional external event.
    pub fn raise_event(&self, instance: String, event_name: String, data: String) -> (r: WorkItem)
        ensures
            r == (WorkItem::ExternalRaised { instance, name: event_name, data }),
    {
        WorkItem::ExternalRaised { instance, name: event_name, data }
    }

    /// The message that puts data into a queue.
    pub fn enqueue_event(&self, instance: String, queue: String, data: String) -> (r: WorkItem)
        ensures
            r == (WorkItem::QueueMessage { instance, name: queue, data }),
    {
        WorkItem::QueueMessage { instance, name: queue, data }
    }

    /// The message that puts data into a queue, by its former name.
    pub fn raise_event_persistent(
        &self,
        instance: String,
        event_name: String,
        data: String,
    ) -> (r: WorkItem)
        ensures
            r == (WorkItem::QueueMessage { instance, name: event_name, data }),
    {
        self.enqueue_event(instance, event_name, data)
    }

    /// The message that raises an external event on a topic.
    pub fn raise_event2(
        &self,
        instance: String,
        event_name: String,
        topic: String,
        data: String,
    ) -> (r: WorkItem)
        ensures
            r == (WorkItem::ExternalRaised2 { instance, name: event_name, topic, data }),
    {
        WorkItem::ExternalRaised2 { instance, name: event_name, topic, data }
    }

    /// The message that cancels an instance.
    pub fn cancel_instance(&self, instance: String, reason: String) -> (r: WorkItem)
        ensures
            r == (WorkItem::CancelInstance { instance, reason }),
    {
        WorkItem::CancelInstance { instance, reason }
    }

    /// The status of an orchestration, from its history and its custom status.
    /// A failure to read the custom status does not count; one to read the
    /// history does.
    pub fn get_orchestration_status(
        &self,
        history: Result<Vec<Event>, ProviderError>,
        custom: Result<Option<CustomStatus>, ProviderError>,
    ) -> (r: Result<OrchestrationStatus, ClientError>)
        ensures
            r == (match history {
                Ok(h) => Ok::<OrchestrationStatus, ClientError>(
                    status_of(h@, shown_status(custom)),
                ),
                Err(e) => Err(ClientError::Provider(e)),
            }),
    {
        let h = match Client::reply(history) {
            Ok(h) => h,
            Err(e) => return Err(e),
        };
        let shown: CustomStatus = match custom {
            Ok(Some(c)) => c,
            Ok(None) => (None, 0),
            Err(_) => (None, 0),
        };
        Ok(read_status(&h, shown))
    }

    /// A wait for the end of an orchestration: its status is handed to
    /// [`Wait::on_status`].
    pub fn wait_for_orchestration(&self) -> (r: Wait)
        ensures
            r@ == fresh_wait(),
    {
        Wait::new()
    }

    /// A wait for the value of a key: what is found is handed to
    /// [`Wait::on_value`].
    pub fn wait_for_kv_value(&self) -> (r: Wait)
        ensures
            r@ == fresh_wait(),
    {
        Wait::new()
    }

    /// A wait for a custom status newer than `last_seen_version`, or for the
    /// end of the orchestration.
    pub fn wait_for_status_change(&self, last_seen_version: u64, poll_interval: Duration) -> (r:
        StatusChangeWait)
        requires
            poll_interval.wf(),
        ensures
            r.wf(),
            r.seen_version() == last_seen_version,
            r.interval() == poll_interval@,
            !r.saw_change(),
    {
        StatusChangeWait::new(last_seen_version, poll_interval)
    }

    /// The typed outcome of an orchestration that was waited for: the decoded
    /// output, or the message of the failure.
    pub fn wait_for_orchestration_typed<T>(
        &self,
        waited: Result<OrchestrationStatus, ClientError>,
        decoded: Option<Result<T, String>>,
    ) -> (r: Result<Result<T, String>, ClientError>)
        requires
            waited matches Ok(s) ==> is_end(s),
            waited matches Ok(s) && s is Completed ==> decoded is Some,
        ensures
            match waited {
                Err(e) => r == Err::<Result<T, String>, ClientError>(e),
                Ok(OrchestrationStatus::Failed { details, .. }) => r matches Ok(Err(m)) && m@
                    == error::message_text(details),
                Ok(_) => match decoded {
                    Some(Ok(v)) => r == Ok::<Result<T, String>, ClientError>(Ok(v)),
                    Some(Err(e)) => r matches Err(ClientError::InvalidInput { message })
                        && message@ == "decode failed: "@ + e@,
                    None => false,
                },
            },
    {
        match waited {
            Err(e) => Err(e),
            Ok(OrchestrationStatus::Failed { details, .. }) => Ok(Err(details.display_message())),
            Ok(_) => match decoded {
                Some(Ok(v)) => Ok(Ok(v)),
                Some(Err(e)) => Err(
                    ClientError::InvalidInput { message: join2("decode failed: ", e.as_str()) },
                ),
                None => Err(ClientError::Timeout),
            },
        }
    }

    /// A typed value of a key, from what parsing it gave.
    pub fn get_kv_value_typed<T>(
        &self,
        read: Result<Option<Result<T, String>>, ClientError>,
    ) -> (r: Result<Option<T>, ClientError>)
        ensures
            match read {
                Err(e) => r == Err::<Option<T>, ClientError>(e),
                Ok(None) => r == Ok::<Option<T>, ClientError>(None),
                Ok(Some(Ok(v))) => r == Ok::<Option<T>, ClientError>(Some(v)),
                Ok(Some(Err(e))) => r matches Err(ClientError::InvalidInput { message })
                    && message@ == "KV deserialization error: "@ + e@,
            },
    {
        match read {
            Err(e) => Err(e),
            Ok(None) => Ok(None),
            Ok(Some(Ok(v))) => Ok(Some(v)),
            Ok(Some(Err(e))) => Err(
                ClientError::InvalidInput {
                    message: join2("KV deserialization error: ", e.as_str()),
                },
            ),
        }
    }

    /// A typed value of a key that was waited for, from what parsing it gave.
    pub fn wait_for_kv_value_typed<T>(
        &self,
        waited: Result<Result<T, String>, ClientError>,
    ) -> (r: Result<T, ClientError>)
        ensures
            match waited {
                Err(e) => r == Err::<T, ClientError>(e),
                Ok(Ok(v)) => r == Ok::<T, ClientError>(v),
                Ok(Err(e)) => r matches Err(ClientError::InvalidInput { message }) && message@
                    == "KV deserialization error: "@ + e@,
            },
    {
        match waited {
            Err(e) => Err(e),
            Ok(Ok(v)) => Ok(v),
            Ok(Err(e)) => Err(
                ClientError::InvalidInput {
                    message: join2("KV deserialization error: ", e.as_str()),
                },
            ),
        }
    }

    /// Whether the store has management operations.
    pub fn has_management_capability(&self) -> (r: bool)
        ensures
            r == self.manages(),
    {
        self.discover_management().is_ok()
    }

    /// Fails where the store has no management operations.
    pub fn discover_management(&self) -> (r: Result<(), ClientError>)
        ensures
            r == (if self.manages() {
                Ok::<(), ClientError>(())
            } else {
                Err(ClientError::ManagementNotAvailable)
            }),
    {
        if self.management {
            Ok(())
        } else {
            Err(ClientError::ManagementNotAvailable)
        }
    }

    /// A management operation for the store, where it has any.
    fn admin(&self, call: AdminCall) -> (r: Result<AdminCall, ClientError>)
        ensures
            r == self.asked(call),
    {
        match self.discover_management() {
            Ok(_) => Ok(call),
            Err(e) => Err(e),
        }
    }

    /// A management operation, where the store has any; the error that says
    /// so where it has none.
    pub open spec fn asked(&self, call: AdminCall) -> Result<AdminCall, ClientError> {
        if self.manages() {
            Ok(call)
        } else {
            Err(ClientError::ManagementNotAvailable)
        }
    }

    /// Lists all instances.
    pub fn list_all_instances(&self) -> (r: Result<AdminCall, ClientError>)
        ensures
            r == self.asked(AdminCall::ListInstances),
    {
        self.admin(AdminCall::ListInstances)
    }

    /// Lists the instances with a status.
    pub fn list_instances_by_status(&self, status: String) -> (r: Result<AdminCall, ClientError>)
        ensures
            r == self.asked(AdminCall::ListInstancesByStatus { status }),
    {
        self.admin(AdminCall::ListInstancesByStatus { status })
    }

    /// Describes an instance.
    pub fn get_instance_info(&self, instance: String) -> (r: Result<AdminCall, ClientError>)
        ensures
            r == self.asked(AdminCall::GetInstanceInfo { instance }),
    {
        self.admin(AdminCall::GetInstanceInfo { instance })
    }

    /// Describes an execution.
    pub fn get_execution_info(&self, instance: String, execution_id: u64) -> (r: Result<
        AdminCall,
        ClientError,
    >)
        ensures
            r == self.asked(AdminCall::GetExecutionInfo { instance, execution_id }),
    {
        self.admin(AdminCall::GetExecutionInfo { instance, execution_id })
    }

    /// Lists the executions of an instance.
    pub fn list_executions(&self, instance: String) -> (r: Result<AdminCall, ClientError>)
        ensures
            r == self.asked(AdminCall::ListExecutions { instance }),
    {
        self.admin(AdminCall::ListExecutions { instance })
    }

    /// Reads the history of an execution.
    pub fn read_execution_history(&self, instance: String, execution_id: u64) -> (r: Result<
        AdminCall,
        ClientError,
    >)
        ensures
            r == self.asked(AdminCall::ReadHistory { instance, execution_id }),
    {
        self.admin(AdminCall::ReadHistory { instance, execution_id })
    }

    /// Reads the metrics of the whole system.
    pub fn get_system_metrics(&self) -> (r: Result<AdminCall, ClientError>)
        ensures
            r == self.asked(AdminCall::GetSystemMetrics),
    {
        self.admin(AdminCall::GetSystemMetrics)
    }

    /// Reads how much waits in the queues.
    pub fn get_queue_depths(&self) -> (r: Result<AdminCall, ClientError>)
        ensures
            r == self.asked(AdminCall::GetQueueDepths),
    {
        self.admin(AdminCall::GetQueueDepths)
    }

    /// Reads the tree of an instance and its descendants.
    pub fn get_instance_tree(&self, instance: String) -> (r: Result<AdminCall, ClientError>)
        ensures
            r == self.asked(AdminCall::GetInstanceTree { instance }),
    {
        self.admin(AdminCall::GetInstanceTree { instance })
    }

    /// Hands on what the store replied for a tree: an instance that it does
    /// not know is reported as such.
    pub fn instance_tree<T>(&self, instance_id: &str, reply: Result<T, ProviderError>) -> (r:
        Result<T, ClientError>)
        ensures
            match reply {
                Ok(v) => r == Ok::<T, ClientError>(v),
                Err(e) => r matches Err(x) && lookup_error(
                    e,
                    lowercased(e.text@),
                    instance_id@,
                )(x),
            },
    {
        match reply {
            Ok(v) => Ok(v),
            Err(e) => {
                let lower = to_lowercase(e.text.as_str());
                Err(classify_lookup_error(e, lower.as_str(), instance_id))
            },
        }
    }

    /// Deletes an instance and its descendants.
    pub fn delete_instance(&self, instance: String, force: bool) -> (r: Result<
        AdminCall,
        ClientError,
    >)
        ensures
            r == self.asked(AdminCall::DeleteInstance { instance, force }),
    {
        self.admin(AdminCall::DeleteInstance { instance, force })
    }

    /// Hands on what the store replied to a deletion.
    pub fn deleted<T>(&self, instance_id: &str, reply: Result<T, ProviderError>) -> (r: Result<
        T,
        ClientError,
    >)
        ensures
            match reply {
                Ok(v) => r == Ok::<T, ClientError>(v),
                Err(e) => r matches Err(x) && delete_error(
                    e,
                    lowercased(e.text@),
                    instance_id@,
                )(x),
            },
    {
        match reply {
            Ok(v) => Ok(v),
            Err(e) => Err(Client::translate_delete_error(e, instance_id)),
        }
    }

    /// Deletes the instances that a filter selects.
    pub fn delete_instance_bulk(&self, filter: InstanceFilter) -> (r: Result<
        AdminCall,
        ClientError,
    >)
        ensures
            r == self.asked(AdminCall::DeleteInstances { filter }),
    {
        self.admin(AdminCall::DeleteInstances { filter })
    }

    /// Prunes the old executions of an instance.
    pub fn prune_executions(&self, instance: String, options: PruneOptions) -> (r: Result<
        AdminCall,
        ClientError,
    >)
        ensures
            r == self.asked(AdminCall::PruneExecutions { instance, options }),
    {
        self.admin(AdminCall::PruneExecutions { instance, options })
    }

    /// Prunes the old executions of the instances that a filter selects.
    pub fn prune_executions_bulk(&self, filter: InstanceFilter, options: PruneOptions) -> (r:
        Result<AdminCall, ClientError>)
        ensures
            r == self.asked(AdminCall::PruneExecutionsOf { filter, options }),
    {
        self.admin(AdminCall::PruneExecutionsOf { filter, options })
    }

    /// Explains an error of the store on a deletion.
    pub fn translate_delete_error(e: ProviderError, instance_id: &str) -> (r: ClientError)
        ensures
            delete_error(e, lowercased(e.text@), instance_id@)(r),
    {
        let lower = to_lowercase(e.text.as_str());
        classify_delete_error(e, lower.as_str(), instance_id)
    }
}

/// The delay that follows a delay of `ms` milliseconds: twice as long, up to
/// the longest.
pub open spec fn next_delay(ms: u64) -> u64 {
    if ms * POLL_DELAY_MULTIPLIER <= MAX_POLL_DELAY_MS {
        (ms * POLL_DELAY_MULTIPLIER) as u64
    } else {
        MAX_POLL_DELAY_MS
    }
}

/// The delay after `n` earlier ones.
pub open spec fn nth_delay(n: nat) -> u64
    decreases n,
{
    if n == 0 {
        INITIAL_POLL_DELAY_MS
    } else {
        next_delay(nth_delay((n - 1) as nat))
    }
}

/// What a wait with growing delays does next.
#[derive(Debug)]
pub enum WaitStep<T> {
    /// Look, and hand what is found to the wait.
    Look,
    /// See whether the time is over, and hand that to `on_clock`.
    CheckClock,
    /// Sleep for this many milliseconds, then see whether the time is over and
    /// hand that to `on_clock`.
    Sleep { ms: u64 },
    /// The wait is over.
    Finish(Result<T, ClientError>),
}

/// A wait that looks at once, and then again and again with growing delays
/// until it finds what it waits for or the time is over.
#[derive(Debug)]
pub struct Wait {
    slept: bool,
    delay_ms: u64,
}

/// What a wait stands for.
pub struct WaitModel {
    /// It slept before.
    pub slept: bool,
    /// How long it sleeps the next time.
    pub delay_ms: u64,
}

impl View for Wait {
    type V = WaitModel;

    closed spec fn view(&self) -> WaitModel {
        WaitModel { slept: self.slept, delay_ms: self.delay_ms }
    }
}

/// A wait that has not looked yet.
pub open spec fn fresh_wait() -> WaitModel {
    WaitModel { slept: false, delay_ms: INITIAL_POLL_DELAY_MS }
}

/// The wait once it sleeps.
pub open spec fn asleep(m: WaitModel) -> WaitModel {
    WaitModel { slept: true, delay_ms: next_delay(m.delay_ms) }
}

/// The wait after a look that found nothing.
pub open spec fn looked_in_vain(m: WaitModel) -> WaitModel {
    if m.slept {
        asleep(m)
    } else {
        m
    }
}

/// What follows a look that found nothing: a sleep, but before the first one
/// it is seen whether the time is over.
pub open spec fn after_vain_look<T>(m: WaitModel) -> WaitStep<T> {
    if m.slept {
        WaitStep::Sleep { ms: m.delay_ms }
    } else {
        WaitStep::CheckClock
    }
}

/// The wait after the clock was looked at.
pub open spec fn clocked(m: WaitModel, expired: bool) -> WaitModel {
    if expired || m.slept {
        m
    } else {
        asleep(m)
    }
}

/// What follows a look at the clock.
pub open spec fn after_clock<T>(m: WaitModel, expired: bool) -> WaitStep<T> {
    if expired {
        WaitStep::Finish(Err(ClientError::Timeout))
    } else if m.slept {
        WaitStep::Look
    } else {
        WaitStep::Sleep { ms: m.delay_ms }
    }
}

/// A wait that found nothing so far, when it sleeps for the `n`th time; before
/// the first time it is fresh.
pub open spec fn after_sleeps(n: nat) -> WaitModel
    decreases n,
{
    if n == 0 {
        fresh_wait()
    } else if n == 1 {
        clocked(looked_in_vain(fresh_wait()), false)
    } else {
        looked_in_vain(clocked(after_sleeps((n - 1) as nat), false))
    }
}

impl Wait {
    /// A wait that has not looked yet.
    pub fn new() -> (r: Self)
        ensures
            r@ == fresh_wait(),
    {
        Wait { slept: false, delay_ms: INITIAL_POLL_DELAY_MS }
    }

    /// The first step: to look, without a delay.
    pub fn begin<T>(&self) -> (r: WaitStep<T>)
        ensures
            r == WaitStep::<T>::Look,
    {
        WaitStep::Look
    }

    /// Goes to sleep, and makes the next delay longer.
    fn sleep<T>(&mut self) -> (r: WaitStep<T>)
        ensures
            final(self)@ == asleep(old(self)@),
            r == (WaitStep::<T>::Sleep { ms: old(self)@.delay_ms }),
    {
        let ms: u64 = self.delay_ms;
        self.slept = true;
        self.delay_ms = match ms.checked_mul(POLL_DELAY_MULTIPLIER) {
            Some(grown) if grown <= MAX_POLL_DELAY_MS => grown,
            _ => MAX_POLL_DELAY_MS,
        };
        WaitStep::Sleep { ms }
    }

    /// Takes a look that found nothing.
    fn on_nothing<T>(&mut self) -> (r: WaitStep<T>)
        ensures
            final(self)@ == looked_in_vain(old(self)@),
            r == after_vain_look::<T>(old(self)@),
    {
        if self.slept {
            self.sleep()
        } else {
            WaitStep::CheckClock
        }
    }

    /// Goes on while the time is not over: with the first sleep, or after a
    /// sleep with the next look.
    pub fn on_clock<T>(&mut self, expired: bool) -> (r: WaitStep<T>)
        ensures
            final(self)@ == clocked(old(self)@, expired),
            r == after_clock::<T>(old(self)@, expired),
    {
        if expired {
            WaitStep::Finish(Err(ClientError::Timeout))
        } else if self.slept {
            WaitStep::Look
        } else {
            self.sleep()
        }
    }

    /// Takes a look at the status of an orchestration. Only one that has ended
    /// ends the wait, or a failure to look.
    pub fn on_status(&mut self, status: Result<OrchestrationStatus, ClientError>) -> (r: WaitStep<
        OrchestrationStatus,
    >)
        ensures
            match status {
                Ok(s) => if is_end(s) {
                    r == WaitStep::Finish(Ok(s)) && final(self)@ == old(self)@
                } else {
                    r == after_vain_look::<OrchestrationStatus>(old(self)@) && final(self)@
                        == looked_in_vain(old(self)@)
                },
                Err(e) => r == WaitStep::<OrchestrationStatus>::Finish(Err(e)) && final(self)@
                    == old(self)@,
            },
    {
        match status {
            Ok(OrchestrationStatus::Completed {
                output,
                custom_status,
                custom_status_version,
            }) => WaitStep::Finish(
                Ok(OrchestrationStatus::Completed { output, custom_status, custom_status_version }),
            ),
            Ok(OrchestrationStatus::Failed {
                details,
                custom_status,
                custom_status_version,
            }) => WaitStep::Finish(
                Ok(OrchestrationStatus::Failed { details, custom_status, custom_status_version }),
            ),
            Err(e) => WaitStep::Finish(Err(e)),
            Ok(_) => self.on_nothing(),
        }
    }

    /// Takes a look at the value of a key. A value ends the wait, or a failure
    /// to look.
    pub fn on_value(&mut self, value: Result<Option<String>, ClientError>) -> (r: WaitStep<String>)
        ensures
            match value {
                Ok(Some(v)) => r == WaitStep::Finish(Ok(v)) && final(self)@ == old(self)@,
                Ok(None) => r == after_vain_look::<String>(old(self)@) && final(self)@
                    == looked_in_vain(old(self)@),
                Err(e) => r == WaitStep::<String>::Finish(Err(e)) && final(self)@ == old(self)@,
            },
    {
        match value {
            Ok(Some(v)) => WaitStep::Finish(Ok(v)),
            Ok(None) => self.on_nothing(),
            Err(e) => WaitStep::Finish(Err(e)),
        }
    }
}

/// What a wait for a change of the custom status does next.
#[derive(Debug)]
pub enum ChangeStep {
    /// Ask for a custom status that is newer than this version, and hand it to
    /// `on_custom_status`.
    QueryCustomStatus { last_seen_version: u64 },
    /// Ask for the status, and hand it to `on_status`.
    QueryStatus,
    /// Sleep for this long, then see whether the time is over.
    Sleep { span: Duration },
    /// The wait is over.
    Finish(Result<OrchestrationStatus, ClientError>),
}

/// A wait for a change of the custom status, or for the orchestration to end.
#[derive(Debug)]
pub struct StatusChangeWait {
    last_seen_version: u64,
    poll_interval: Duration,
    changed: bool,
}

impl StatusChangeWait {
    /// The interval can be slept.
    pub closed spec fn wf(&self) -> bool {
        self.poll_interval.wf()
    }

    /// How long the wait sleeps between two looks, in nanoseconds.
    pub closed spec fn interval(&self) -> nat {
        self.poll_interval@
    }

    /// The version that was seen last when the wait began.
    pub closed spec fn seen_version(&self) -> u64 {
        self.last_seen_version
    }

    /// Whether a change was seen.
    pub closed spec fn saw_change(&self) -> bool {
        self.changed
    }

    /// A wait for a version after `last_seen_version`, looking at this
    /// interval.
    pub fn new(last_seen_version: u64, poll_interval: Duration) -> (r: Self)
        requires
            poll_interval.wf(),
        ensures
            r.wf(),
            r.seen_version() == last_seen_version,
            r.interval() == poll_interval@,
            !r.saw_change(),
    {
        StatusChangeWait { last_seen_version, poll_interval, changed: false }
    }

    /// Goes on while the time is not over.
    pub fn on_clock(&self, expired: bool) -> (r: ChangeStep)
        ensures
            r == (if expired {
                ChangeStep::Finish(Err(ClientError::Timeout))
            } else {
                ChangeStep::QueryCustomStatus { last_seen_version: self.seen_version() }
            }),
    {
        if expired {
            ChangeStep::Finish(Err(ClientError::Timeout))
        } else {
            ChangeStep::QueryCustomStatus { last_seen_version: self.last_seen_version }
        }
    }

    /// Takes what the store has newer than the version seen last. Either way
    /// the full status comes next: to be returned where there is something
    /// newer, and to see whether the orchestration has ended where not.
    pub fn on_custom_status(&mut self, custom: Result<Option<CustomStatus>, ProviderError>) -> (r:
        ChangeStep)
        requires
            old(self).wf(),
        ensures
            final(self).wf(),
            final(self).seen_version() == old(self).seen_version(),
            final(self).interval() == old(self).interval(),
            match custom {
                Ok(c) => r == ChangeStep::QueryStatus && final(self).saw_change() == (c is Some),
                Err(e) => r == ChangeStep::Finish(Err(ClientError::Provider(e)))
                    && final(self).saw_change() == old(self).saw_change(),
            },
    {
        match custom {
            Ok(Some(_)) => {
                self.changed = true;
                ChangeStep::QueryStatus
            },
            Ok(None) => {
                self.changed = false;
                ChangeStep::QueryStatus
            },
            Err(e) => ChangeStep::Finish(Err(ClientError::from(e))),
        }
    }

    /// Takes the status, with the time that remains. After a change any status
    /// is returned; without one only the end of the orchestration is.
    pub fn on_status(
        &self,
        status: Result<OrchestrationStatus, ClientError>,
        remaining: Duration,
    ) -> (r: ChangeStep)
        requires
            self.wf(),
            remaining.wf(),
        ensures
            match status {
                Err(e) => r == ChangeStep::Finish(Err(e)),
                Ok(s) => if self.saw_change() || is_end(s) {
                    r == ChangeStep::Finish(Ok(s))
                } else {
                    r matches ChangeStep::Sleep { span } && span.wf() && span@ == time::min_nat(
                        self.interval(),
                        remaining@,
                    )
                },
            },
    {
        match status {
            Err(e) => ChangeStep::Finish(Err(e)),
            Ok(s) => {
                let ended = matches!(
                    s,
                    OrchestrationStatus::Completed { .. } | OrchestrationStatus::Failed { .. }
                );
                if self.changed || ended {
                    ChangeStep::Finish(Ok(s))
                } else {
                    ChangeStep::Sleep { span: self.poll_interval.shorter(&remaining) }
                }
            },
        }
    }
}

/// The delays of a wait start at 5 ms, double from look to look, and stay at
/// 100 ms from the sixth on.
pub proof fn law_poll_delays(n: nat)
    ensures
        INITIAL_POLL_DELAY_MS <= nth_delay(n) <= MAX_POLL_DELAY_MS,
        nth_delay(n) <= nth_delay(n + 1) <= nth_delay(n) * 2,
        n >= 5 ==> nth_delay(n) == MAX_POLL_DELAY_MS,
        n == 0 ==> nth_delay(n) == 5,
        n == 1 ==> nth_delay(n) == 10,
        n == 2 ==> nth_delay(n) == 20,
        n == 3 ==> nth_delay(n) == 40,
        n == 4 ==> nth_delay(n) == 80,
    decreases n,
{
    reveal_with_fuel(nth_delay, 7);
    if n > 0 {
        law_poll_delays((n - 1) as nat);
    }
}

/// The first look of a wait comes at once, and before the look that follows
/// `n + 1` vain ones it sleeps `nth_delay(n)`: 5 ms before the second look, then
/// 10, 20, 40, 80 and from there on 100. After each sleep it looks again unless
/// the time is over.
pub proof fn law_wait_follows_the_delays<T>(n: nat)
    ensures
        after_sleeps(n) == (WaitModel { slept: n > 0, delay_ms: nth_delay(n) }),
        n == 0 ==> {
            let looked = looked_in_vain(after_sleeps(0));
            &&& after_vain_look::<T>(after_sleeps(0)) is CheckClock
            &&& after_clock::<T>(looked, false) == (WaitStep::<T>::Sleep { ms: nth_delay(0) })
            &&& clocked(looked, false) == after_sleeps(1)
        },
        n > 0 ==> {
            &&& after_clock::<T>(after_sleeps(n), false) is Look
            &&& clocked(after_sleeps(n), false) == after_sleeps(n)
            &&& after_vain_look::<T>(after_sleeps(n)) == (WaitStep::<T>::Sleep {
                ms: nth_delay(n),
            })
            &&& looked_in_vain(after_sleeps(n)) == after_sleeps(n + 1)
        },
        after_clock::<T>(after_sleeps(n), true) == WaitStep::<T>::Finish(
            Err(ClientError::Timeout),
        ),
    decreases n,
{
    reveal_with_fuel(after_sleeps, 3);
    if n > 0 {
        law_wait_follows_the_delays::<T>((n - 1) as nat);
    }
}

/// A wait whose time is over after its first look, which found nothing, ends
/// there: it neither sleeps nor looks again.
pub proof fn law_an_expired_wait_does_not_sleep<T>()
    ensures
        after_vain_look::<T>(fresh_wait()) is CheckClock,
        after_clock::<T>(looked_in_vain(fresh_wait()), true) == WaitStep::<T>::Finish(
            Err(ClientError::Timeout),
        ),
{
}

/// Once an orchestration has completed or failed, nothing that comes after but
/// another end changes that, and no custom status does.
pub proof fn law_end_is_kept(history: Seq<Event>, later: Event, custom: CustomStatus)
    requires
        is_end(status_of(history, custom)),
        !(later.kind is OrchestrationCompleted),
        !(later.kind is OrchestrationFailed),
    ensures
        status_of(history.push(later), custom) == status_of(history, custom),
{
    assert(history.push(later).drop_last() =~= history);
    lemma_last_end(history);
}

proof fn lemma_last_end(history: Seq<Event>)
    ensures
        last_end(history) matches Some(k) ==> k is OrchestrationCompleted || k
            is OrchestrationFailed,
    decreases history.len(),
{
    if history.len() > 0 {
        lemma_last_end(history.drop_last());
    }
}

/// An orchestration shows as not found exactly while its history holds neither
/// a start nor an end.
pub proof fn law_not_found_means_never_started(history: Seq<Event>, custom: CustomStatus)
    ensures
        status_of(history, custom) is NotFound <==> !was_started(history) && last_end(history)
            is None,
{
    lemma_last_end(history);
}

/// The event completes or fails the orchestration.
pub open spec fn ends_orchestration(e: Event) -> bool {
    e.kind is OrchestrationCompleted || e.kind is OrchestrationFailed
}

proof fn lemma_last_end_at(history: Seq<Event>, i: int)
    requires
        0 <= i < history.len(),
        ends_orchestration(history[i]),
        forall|j: int| i < j < history.len() ==> !ends_orchestration(#[trigger] history[j]),
    ensures
        last_end(history) == Some(history[i].kind),
    decreases history.len(),
{
    if i < history.len() - 1 {
        assert(!ends_orchestration(history[history.len() - 1]));
        let init = history.drop_last();
        assert forall|j: int| i < j < init.len() implies !ends_orchestration(
            #[trigger] init[j],
        ) by {
            assert(init[j] == history[j]);
        }
        lemma_last_end_at(init, i);
    }
}

proof fn lemma_no_end(history: Seq<Event>)
    requires
        forall|j: int| 0 <= j < history.len() ==> !ends_orchestration(#[trigger] history[j]),
    ensures
        last_end(history) is None,
    decreases history.len(),
{
    if history.len() > 0 {
        assert(!ends_orchestration(history[history.len() - 1]));
        let init = history.drop_last();
        assert forall|j: int| 0 <= j < init.len() implies !ends_orchestration(
            #[trigger] init[j],
        ) by {
            assert(init[j] == history[j]);
        }
        lemma_no_end(init);
    }
}

/// The event at `i` that no later event of the history overrules decides the
/// status: a completion shows its output, a failure its details.
pub proof fn law_the_latest_end_is_shown(
    history: &Vec<Event>,
    custom: CustomStatus,
    i: int,
    r: OrchestrationStatus,
)
    requires
        call_ensures(read_status, (history, custom), r),
        0 <= i < history@.len(),
        ends_orchestration(history@[i]),
        forall|j: int| i < j < history@.len() ==> !ends_orchestration(#[trigger] history@[j]),
    ensures
        history@[i].kind matches EventKind::OrchestrationCompleted { output } ==> (r matches
            OrchestrationStatus::Completed { output: shown, .. } && shown == output),
        history@[i].kind matches EventKind::OrchestrationFailed { details } ==> (r matches
            OrchestrationStatus::Failed { details: shown, .. } && shown == details),
{
    lemma_last_end_at(history@, i);
}

/// A history without an end shows an orchestration that runs where it holds the
/// start, and none where it does not.
pub proof fn law_without_an_end_it_runs(
    history: &Vec<Event>,
    custom: CustomStatus,
    r: OrchestrationStatus,
)
    requires
        call_ensures(read_status, (history, custom), r),
        forall|j: int| 0 <= j < history@.len() ==> !ends_orchestration(#[trigger] history@[j]),
    ensures
        (exists|j: int|
            0 <= j < history@.len() && (#[trigger] history@[j]).kind is OrchestrationStarted)
            ==> r is Running,
        (forall|j: int|
            0 <= j < history@.len() ==> !((#[trigger] history@[j]).kind is OrchestrationStarted))
            ==> r is NotFound,
{
    lemma_no_end(history@);
}

/// Whatever the history, the status carries the custom status and its version:
/// while the orchestration runs and after it has completed or failed. Only one
/// that is not found carries none.
pub proof fn law_a_status_carries_the_custom_status(
    history: &Vec<Event>,
    custom: CustomStatus,
    r: OrchestrationStatus,
)
    requires
        call_ensures(read_status, (history, custom), r),
    ensures
        match r {
            OrchestrationStatus::NotFound => true,
            OrchestrationStatus::Running { custom_status, custom_status_version } => custom == (
                custom_status,
                custom_status_version,
            ),
            OrchestrationStatus::Completed { custom_status, custom_status_version, .. } => custom
                == (custom_status, custom_status_version),
            OrchestrationStatus::Failed { custom_status, custom_status_version, .. } => custom == (
                custom_status,
                custom_status_version,
            ),
        },
{
    lemma_last_end(history@);
}

/// A status query fails exactly where the history cannot be read, with the error
/// of the store. What it shows is what the history shows, with the custom status
/// that the store reported, and with none at version 0 where it reported none or
/// failed to.
pub proof fn law_a_status_query_reads_the_history(
    client: &Client,
    history: Result<Vec<Event>, ProviderError>,
    custom: Result<Option<CustomStatus>, ProviderError>,
    r: Result<OrchestrationStatus, ClientError>,
    shown: OrchestrationStatus,
)
    requires
        call_ensures(Client::get_orchestration_status, (client, history, custom), r),
        history matches Ok(h) ==> call_ensures(
            read_status,
            (
                &h,
                if custom is Ok && custom->Ok_0 is Some {
                    custom->Ok_0->0
                } else {
                    (None::<String>, 0u64)
                },
            ),
            shown,
        ),
    ensures
        history matches Err(e) ==> r == Err::<OrchestrationStatus, ClientError>(
            ClientError::Provider(e),
        ),
        history is Ok ==> r == Ok::<OrchestrationStatus, ClientError>(shown),
{
}

/// A wait for an orchestration ends at once with a status of one that has
/// completed or failed, and with an error of the look; nothing else ends it.
/// A wait that ends is left as it was.
pub proof fn law_a_wait_ends_with_the_orchestration(
    wait: &mut Wait,
    status: Result<OrchestrationStatus, ClientError>,
    r: WaitStep<OrchestrationStatus>,
)
    requires
        call_ensures(Wait::on_status, (wait, status), r),
    ensures
        match status {
            Ok(OrchestrationStatus::Completed { .. }) | Ok(OrchestrationStatus::Failed { .. })
                | Err(_) => r == WaitStep::Finish(status) && final(wait)@ == old(wait)@,
            Ok(OrchestrationStatus::Running { .. }) | Ok(OrchestrationStatus::NotFound) => {
                if old(wait)@.slept {
                    r == (WaitStep::<OrchestrationStatus>::Sleep { ms: old(wait)@.delay_ms })
                } else {
                    r is CheckClock
                }
            },
        },
{
}

/// A wait for a key ends with the value once there is one, and with an error of
/// the look; nothing else ends it.
pub proof fn law_a_wait_ends_with_the_value(
    wait: &mut Wait,
    value: Result<Option<String>, ClientError>,
    r: WaitStep<String>,
)
    requires
        call_ensures(Wait::on_value, (wait, value), r),
    ensures
        match value {
            Ok(Some(v)) => r == WaitStep::Finish(Ok(v)) && final(wait)@ == old(wait)@,
            Err(e) => r == WaitStep::<String>::Finish(Err(e)) && final(wait)@ == old(wait)@,
            Ok(None) => if old(wait)@.slept {
                r == (WaitStep::<String>::Sleep { ms: old(wait)@.delay_ms })
            } else {
                r is CheckClock
            },
        },
{
}

/// A wait whose time is over ends with a timeout, whenever that is seen. One
/// that has time left sleeps where it has not slept yet, and looks where it has.
pub proof fn law_time_ends_a_wait<T>(wait: &mut Wait, expired: bool, r: WaitStep<T>)
    requires
        call_ensures(Wait::on_clock::<T>, (wait, expired), r),
    ensures
        expired ==> r == WaitStep::<T>::Finish(Err(ClientError::Timeout)) && final(wait)@
            == old(wait)@,
        !expired && old(wait)@.slept ==> r is Look && final(wait)@ == old(wait)@,
        !expired && !old(wait)@.slept ==> r == (WaitStep::<T>::Sleep {
            ms: old(wait)@.delay_ms,
        }) && final(wait)@.slept,
{
}

/// Every sleep makes the next one twice as long, up to 100 ms, and every wait
/// begins with 5 ms and a look.
pub proof fn law_sleeps_grow(
    new: Wait,
    wait: &mut Wait,
    status: Result<OrchestrationStatus, ClientError>,
    r: WaitStep<OrchestrationStatus>,
    clock: &mut Wait,
    c: WaitStep<OrchestrationStatus>,
)
    requires
        call_ensures(Wait::new, (), new),
        call_ensures(Wait::on_status, (wait, status), r),
        call_ensures(Wait::on_clock::<OrchestrationStatus>, (clock, false), c),
        old(wait)@.delay_ms <= 100,
        old(clock)@.delay_ms <= 100,
    ensures
        new@.delay_ms == 5 && !new@.slept,
        r is Sleep ==> final(wait)@.slept && final(wait)@.delay_ms == (if old(wait)@.delay_ms
            <= 50 {
            2 * old(wait)@.delay_ms
        } else {
            100int
        }),
        !(r is Sleep) ==> final(wait)@ == old(wait)@,
        c is Sleep ==> final(clock)@.delay_ms == (if old(clock)@.delay_ms <= 50 {
            2 * old(clock)@.delay_ms
        } else {
            100int
        }),
{
}

/// A wait for a change of the custom status returns what it sees after a
/// change, whatever that is, and a completed or failed orchestration without
/// one; an error ends it. Otherwise it sleeps for its interval, or for the time
/// that remains where that is shorter.
pub proof fn law_a_change_or_an_end_is_returned(
    wait: &StatusChangeWait,
    status: Result<OrchestrationStatus, ClientError>,
    remaining: Duration,
    r: ChangeStep,
)
    requires
        call_ensures(StatusChangeWait::on_status, (wait, status, remaining), r),
    ensures
        status is Err ==> r == ChangeStep::Finish(status),
        status is Ok && wait.saw_change() ==> r == ChangeStep::Finish(status),
        (status matches Ok(OrchestrationStatus::Completed { .. })) ==> r == ChangeStep::Finish(
            status,
        ),
        (status matches Ok(OrchestrationStatus::Failed { .. })) ==> r == ChangeStep::Finish(status),
        !wait.saw_change() && (status matches Ok(OrchestrationStatus::Running { .. }) || status
            matches Ok(OrchestrationStatus::NotFound)) ==> (r matches ChangeStep::Sleep { span }
            && span@ <= wait.interval() && span@ <= remaining@ && (span@ == wait.interval()
            || span@ == remaining@)),
{
}

/// A wait for a change asks for what is newer than the version that was seen
/// last, until the time is over; what the store has newer counts as a change,
/// nothing newer counts as none, and an error of the store ends the wait.
pub proof fn law_a_change_is_what_is_newer(
    asked: &StatusChangeWait,
    expired: bool,
    q: ChangeStep,
    wait: &mut StatusChangeWait,
    custom: Result<Option<CustomStatus>, ProviderError>,
    r: ChangeStep,
)
    requires
        call_ensures(StatusChangeWait::on_clock, (asked, expired), q),
        call_ensures(StatusChangeWait::on_custom_status, (wait, custom), r),
    ensures
        expired ==> q == ChangeStep::Finish(Err(ClientError::Timeout)),
        !expired ==> (q matches ChangeStep::QueryCustomStatus { last_seen_version }
            && last_seen_version == asked.seen_version()),
        (custom matches Ok(Some(_))) ==> r is QueryStatus && final(wait).saw_change(),
        (custom matches Ok(None)) ==> r is QueryStatus && !final(wait).saw_change(),
        custom matches Err(e) ==> r == ChangeStep::Finish(Err(ClientError::Provider(e))),
        final(wait).seen_version() == old(wait).seen_version(),
        final(wait).interval() == old(wait).interval(),
{
}

/// The typed result of a wait: a failure of the wait stays one, a failed
/// orchestration gives its message, and a completed one the decoded output.
pub proof fn law_typed_waits_tell_failures_apart<T>(
    client: &Client,
    waited: Result<OrchestrationStatus, ClientError>,
    decoded: Option<Result<T, String>>,
    r: Result<Result<T, String>, ClientError>,
)
    requires
        call_ensures(Client::wait_for_orchestration_typed::<T>, (client, waited, decoded), r),
        waited matches Ok(OrchestrationStatus::Completed { .. }) ==> decoded is Some,
    ensures
        waited matches Err(e) ==> r == Err::<Result<T, String>, ClientError>(e),
        waited matches Ok(OrchestrationStatus::Failed { details, .. }) ==> (r matches Ok(Err(m))
            && m@ == error::message_text(details)),
        (waited matches Ok(OrchestrationStatus::Completed { .. })) ==> (match decoded {
            Some(Ok(v)) => r == Ok::<Result<T, String>, ClientError>(Ok(v)),
            _ => r matches Err(ClientError::InvalidInput { .. }),
        }),
{
}

/// An error of the store on a deletion is explained by what its text says, and
/// the explanation names the instance: not found before still running, and that
/// before being part of a tree. An error that says none of these is handed on.
pub proof fn law_deletion_errors_are_explained(
    e: ProviderError,
    lower: &str,
    instance_id: &str,
    r: ClientError,
)
    requires
        call_ensures(classify_delete_error, (e, lower, instance_id), r),
    ensures
        match r {
            ClientError::InstanceNotFound { instance_id: id } => id@ == instance_id@
                && text::has_substring(lower@, "not found"@),
            ClientError::InstanceStillRunning { instance_id: id } => id@ == instance_id@
                && text::has_substring(lower@, "still running"@) && !text::has_substring(
                lower@,
                "not found"@,
            ),
            ClientError::CannotDeleteSubOrchestration { instance_id: id } => id@ == instance_id@
                && (text::has_substring(lower@, "sub-orchestration"@) || text::has_substring(
                lower@,
                "delete the root"@,
            )),
            ClientError::Provider(x) => x == e && !text::has_substring(lower@, "not found"@)
                && !text::has_substring(lower@, "still running"@) && !text::has_substring(
                lower@,
                "sub-orchestration"@,
            ) && !text::has_substring(lower@, "delete the root"@),
            _ => false,
        },
        text::has_substring(lower@, "not found"@) ==> r is InstanceNotFound,
        text::has_substring(lower@, "still running"@) ==> r is InstanceNotFound || r
            is InstanceStillRunning,
{
}

/// What the store replied is handed on: a success as it is, and an error as an
/// error, explained where the operation is about one instance.
pub proof fn law_replies_are_handed_on<T>(
    client: &Client,
    instance_id: &str,
    reply: Result<T, ProviderError>,
    plain: Result<T, ClientError>,
    deleted: Result<T, ClientError>,
    tree: Result<T, ClientError>,
)
    requires
        call_ensures(Client::reply::<T>, (reply,), plain),
        call_ensures(Client::deleted::<T>, (client, instance_id, reply), deleted),
        call_ensures(Client::instance_tree::<T>, (client, instance_id, reply), tree),
    ensures
        reply matches Ok(v) ==> plain == Ok::<T, ClientError>(v) && deleted == Ok::<
            T,
            ClientError,
        >(v) && tree == Ok::<T, ClientError>(v),
        reply matches Err(e) ==> {
            let lower = lowercased(e.text@);
            &&& plain == Err::<T, ClientError>(ClientError::Provider(e))
            &&& deleted is Err && tree is Err
            &&& text::has_substring(lower, "not found"@) ==> {
                &&& deleted->Err_0 matches ClientError::InstanceNotFound { instance_id: id }
                    && id@ == instance_id@
                &&& tree->Err_0 matches ClientError::InstanceNotFound { instance_id: id } && id@
                    == instance_id@
            }
            &&& !text::has_substring(lower, "not found"@) ==> tree->Err_0 == ClientError::Provider(
                e,
            )
        },
{
}

/// Only an error of the store can be worth another try, and it is where the
/// store says so.
pub proof fn law_only_the_store_asks_for_another_try(e: &ClientError, r: bool)
    requires
        call_ensures(ClientError::is_retryable, (e,), r),
    ensures
        r <==> (*e matches ClientError::Provider(p) && p.retryable),
        *e is Timeout || *e is InvalidInput || *e is ManagementNotAvailable ==> !r,
{
}

/// Starting an orchestration makes a root in its first execution, under the
/// instance, the name and the input that were given, at the given version or at
/// none.
pub proof fn law_a_start_makes_a_root(
    client: &Client,
    instance: String,
    orchestration: String,
    version: String,
    input: String,
    plain: WorkItem,
    versioned: WorkItem,
)
    requires
        call_ensures(Client::start_orchestration, (client, instance, orchestration, input), plain),
        call_ensures(
            Client::start_orchestration_versioned,
            (client, instance, orchestration, version, input),
            versioned,
        ),
    ensures
        plain == (WorkItem::StartOrchestration {
            instance,
            orchestration,
            input,
            version: None,
            parent_instance: None,
            parent_id: None,
            execution_id: 1,
        }),
        versioned == (WorkItem::StartOrchestration {
            instance,
            orchestration,
            input,
            version: Some(version),
            parent_instance: None,
            parent_id: None,
            execution_id: 1,
        }),
{
}

/// A typed start sends the encoded input as a plain one would be, and an input
/// that could not be encoded starts nothing.
pub proof fn law_typed_starts_send_the_encoded_input(
    client: &Client,
    instance: String,
    orchestration: String,
    version: String,
    encoded: Result<String, String>,
    r: Result<WorkItem, ClientError>,
    v: Result<WorkItem, ClientError>,
    plain: WorkItem,
    versioned: WorkItem,
)
    requires
        call_ensures(
            Client::start_orchestration_typed,
            (client, instance, orchestration, encoded),
            r,
        ),
        call_ensures(
            Client::start_orchestration_versioned_typed,
            (client, instance, orchestration, version, encoded),
            v,
        ),
        encoded matches Ok(input) ==> call_ensures(
            Client::start_orchestration,
            (client, instance, orchestration, input),
            plain,
        ) && call_ensures(
            Client::start_orchestration_versioned,
            (client, instance, orchestration, version, input),
            versioned,
        ),
    ensures
        encoded is Ok ==> r == Ok::<WorkItem, ClientError>(plain) && v == Ok::<
            WorkItem,
            ClientError,
        >(versioned),
        encoded is Err ==> (r matches Err(ClientError::InvalidInput { .. })) && (v matches Err(
            ClientError::InvalidInput { .. },
        )),
{
}

/// What is raised, queued or cancelled goes to the instance that was given, by
/// the name and with the data that were given; a persistent event is a queue
/// message.
pub proof fn law_messages_carry_what_was_given(
    client: &Client,
    instance: String,
    name: String,
    topic: String,
    data: String,
    raised: WorkItem,
    raised2: WorkItem,
    queued: WorkItem,
    persistent: WorkItem,
    cancelled: WorkItem,
)
    requires
        call_ensures(Client::raise_event, (client, instance, name, data), raised),
        call_ensures(Client::raise_event2, (client, instance, name, topic, data), raised2),
        call_ensures(Client::enqueue_event, (client, instance, name, data), queued),
        call_ensures(Client::raise_event_persistent, (client, instance, name, data), persistent),
        call_ensures(Client::cancel_instance, (client, instance, data), cancelled),
    ensures
        raised == (WorkItem::ExternalRaised { instance, name, data }),
        raised2 == (WorkItem::ExternalRaised2 { instance, name, topic, data }),
        queued == (WorkItem::QueueMessage { instance, name, data }),
        persistent == queued,
        cancelled == (WorkItem::CancelInstance { instance, reason: data }),
{
}

/// Without management operations every one of them is refused for that reason;
/// with them the store is asked for what was wanted, with the given arguments.
pub proof fn law_management_is_asked_or_refused(
    client: &Client,
    a: String,
    n: u64,
    force: bool,
    filter: InstanceFilter,
    options: PruneOptions,
)
    ensures
        forall|r: Result<AdminCall, ClientError>|
            {
                ||| #[trigger] call_ensures(Client::list_all_instances, (client,), r)
                ||| call_ensures(Client::list_instances_by_status, (client, a), r)
                ||| call_ensures(Client::get_instance_info, (client, a), r)
                ||| call_ensures(Client::get_execution_info, (client, a, n), r)
                ||| call_ensures(Client::list_executions, (client, a), r)
                ||| call_ensures(Client::read_execution_history, (client, a, n), r)
                ||| call_ensures(Client::get_system_metrics, (client,), r)
                ||| call_ensures(Client::get_queue_depths, (client,), r)
                ||| call_ensures(Client::get_instance_tree, (client, a), r)
                ||| call_ensures(Client::delete_instance, (client, a, force), r)
                ||| call_ensures(Client::delete_instance_bulk, (client, filter), r)
                ||| call_ensures(Client::prune_executions, (client, a, options), r)
                ||| call_ensures(Client::prune_executions_bulk, (client, filter, options), r)
            } ==> if client.manages() {
                r is Ok
            } else {
                r == Err::<AdminCall, ClientError>(ClientError::ManagementNotAvailable)
            },
        forall|r: Result<AdminCall, ClientError>| #[trigger]
            call_ensures(Client::list_all_instances, (client,), r) && r is Ok ==> r->Ok_0
                is ListInstances,
        forall|r: Result<AdminCall, ClientError>| #[trigger]
            call_ensures(Client::list_instances_by_status, (client, a), r) && r is Ok ==> r->Ok_0
                == (AdminCall::ListInstancesByStatus { status: a }),
        forall|r: Result<AdminCall, ClientError>| #[trigger]
            call_ensures(Client::get_instance_info, (client, a), r) && r is Ok ==> r->Ok_0 == (
            AdminCall::GetInstanceInfo { instance: a }),
        forall|r: Result<AdminCall, ClientError>| #[trigger]
            call_ensures(Client::get_execution_info, (client, a, n), r) && r is Ok ==> r->Ok_0 == (
            AdminCall::GetExecutionInfo { instance: a, execution_id: n }),
        forall|r: Result<AdminCall, ClientError>| #[trigger]
            call_ensures(Client::list_executions, (client, a), r) && r is Ok ==> r->Ok_0 == (
            AdminCall::ListExecutions { instance: a }),
        forall|r: Result<AdminCall, ClientError>| #[trigger]
            call_ensures(Client::read_execution_history, (client, a, n), r) && r is Ok ==> r->Ok_0
                == (AdminCall::ReadHistory { instance: a, execution_id: n }),
        forall|r: Result<AdminCall, ClientError>| #[trigger]
            call_ensures(Client::get_system_metrics, (client,), r) && r is Ok ==> r->Ok_0
                is GetSystemMetrics,
        forall|r: Result<AdminCall, ClientError>| #[trigger]
            call_ensures(Client::get_queue_depths, (client,), r) && r is Ok ==> r->Ok_0
                is GetQueueDepths,
        forall|r: Result<AdminCall, ClientError>| #[trigger]
            call_ensures(Client::get_instance_tree, (client, a), r) && r is Ok ==> r->Ok_0 == (
            AdminCall::GetInstanceTree { instance: a }),
        forall|r: Result<AdminCall, ClientError>| #[trigger]
            call_ensures(Client::delete_instance, (client, a, force), r) && r is Ok ==> r->Ok_0
                == (AdminCall::DeleteInstance { instance: a, force }),
        forall|r: Result<AdminCall, ClientError>| #[trigger]
            call_ensures(Client::delete_instance_bulk, (client, filter), r) && r is Ok ==> r->Ok_0
                == (AdminCall::DeleteInstances { filter }),
        forall|r: Result<AdminCall, ClientError>| #[trigger]
            call_ensures(Client::prune_executions, (client, a, options), r) && r is Ok ==> r->Ok_0
                == (AdminCall::PruneExecutions { instance: a, options }),
        forall|r: Result<AdminCall, ClientError>| #[trigger]
            call_ensures(Client::prune_executions_bulk, (client, filter, options), r) && r is Ok
                ==> r->Ok_0 == (AdminCall::PruneExecutionsOf { filter, options }),
{
}

/// A typed value is there where the text of the key was, and read where it could
/// be parsed; a text that could not be parsed is an error, not an absent value.
pub proof fn law_typed_values_are_read_or_refused<T>(
    client: &Client,
    read: Result<Option<Result<T, String>>, ClientError>,
    r: Result<Option<T>, ClientError>,
    waited: Result<Result<T, String>, ClientError>,
    w: Result<T, ClientError>,
)
    requires
        call_ensures(Client::get_kv_value_typed::<T>, (client, read), r),
        call_ensures(Client::wait_for_kv_value_typed::<T>, (client, waited), w),
    ensures
        r matches Ok(None) <==> (read matches Ok(None)),
        forall|v: T|
            r == Ok::<Option<T>, ClientError>(Some(v)) <==> read == Ok::<
                Option<Result<T, String>>,
                ClientError,
            >(Some(Ok(v))),
        read matches Err(e) ==> r == Err::<Option<T>, ClientError>(e),
        forall|v: T|
            w == Ok::<T, ClientError>(v) <==> waited == Ok::<Result<T, String>, ClientError>(
                Ok(v),
            ),
        waited matches Err(e) ==> w == Err::<T, ClientError>(e),
{
}

/// A lookup that did not find its instance says which one; any other error of
/// the store is handed on as it is.
pub proof fn law_a_failed_lookup_names_its_instance(
    e: ProviderError,
    lower: &str,
    instance_id: &str,
    r: ClientError,
)
    requires
        call_ensures(classify_lookup_error, (e, lower, instance_id), r),
    ensures
        text::has_substring(lower@, "not found"@) ==> (r matches ClientError::InstanceNotFound {
            instance_id: id,
        } && id@ == instance_id@),
        !text::has_substring(lower@, "not found"@) ==> r == ClientError::Provider(e),
{
}

/// An error on a deletion is explained as a failed deletion is.
pub proof fn law_a_translated_error_is_that_of_the_deletion<T>(
    client: &Client,
    e: ProviderError,
    instance_id: &str,
    r: ClientError,
    reply: Result<T, ProviderError>,
    deleted: Result<T, ClientError>,
)
    requires
        call_ensures(Client::translate_delete_error, (e, instance_id), r),
        reply == Err::<T, ProviderError>(e),
        call_ensures(Client::deleted::<T>, (client, instance_id, reply), deleted),
    ensures
        deleted is Err,
        r is Provider <==> deleted->Err_0 is Provider,
        r is InstanceNotFound <==> deleted->Err_0 is InstanceNotFound,
        r is InstanceStillRunning <==> deleted->Err_0 is InstanceStillRunning,
        r is CannotDeleteSubOrchestration <==> deleted->Err_0 is CannotDeleteSubOrchestration,
        r matches ClientError::Provider(p) ==> p == e,
        r matches ClientError::InstanceNotFound { instance_id: id } ==> id@ == instance_id@,
        r matches ClientError::InstanceStillRunning { instance_id: id } ==> id@ == instance_id@,
        r matches ClientError::CannotDeleteSubOrchestration { instance_id: id } ==> id@
            == instance_id@,
        text::has_substring(lowercased(e.text@), "not found"@) ==> r is InstanceNotFound,
        !text::has_substring(lowercased(e.text@), "not found"@) && text::has_substring(
            lowercased(e.text@),
            "still running"@,
        ) ==> r is InstanceStillRunning,
        !text::has_substring(lowercased(e.text@), "not found"@) && !text::has_substring(
            lowercased(e.text@),
            "still running"@,
        ) ==> (r is CannotDeleteSubOrchestration <==> text::has_substring(
            lowercased(e.text@),
            "sub-orchestration"@,
        ) || text::has_substring(lowercased(e.text@), "delete the root"@)),
{
}

/// A client says that it manages exactly where its store does, and then finds
/// the management operations; the others are told that there are none.
pub proof fn law_management_is_found_where_it_is(
    management: bool,
    client: Client,
    has: bool,
    found: Result<(), ClientError>,
    listed: Result<AdminCall, ClientError>,
)
    requires
        call_ensures(Client::new, (management,), client),
        call_ensures(Client::has_management_capability, (&client,), has),
        call_ensures(Client::discover_management, (&client,), found),
        call_ensures(Client::list_all_instances, (&client,), listed),
    ensures
        has == management,
        found is Ok <==> management,
        listed is Ok <==> management,
        !management ==> found == Err::<(), ClientError>(ClientError::ManagementNotAvailable),
{
}

/// Every wait begins with a look, at the same state whatever it waits for; a wait
/// for a change has seen none yet, and knows the version and the interval that
/// were given.
pub proof fn law_waits_begin_with_a_look(
    client: &Client,
    fresh: Wait,
    orchestration: Wait,
    value: Wait,
    first: WaitStep<OrchestrationStatus>,
    last_seen_version: u64,
    poll_interval: Duration,
    change: StatusChangeWait,
    same: StatusChangeWait,
)
    requires
        call_ensures(Wait::new, (), fresh),
        call_ensures(Client::wait_for_orchestration, (client,), orchestration),
        call_ensures(Client::wait_for_kv_value, (client,), value),
        call_ensures(Wait::begin::<OrchestrationStatus>, (&fresh,), first),
        call_ensures(
            Client::wait_for_status_change,
            (client, last_seen_version, poll_interval),
            change,
        ),
        call_ensures(StatusChangeWait::new, (last_seen_version, poll_interval), same),
    ensures
        first is Look,
        orchestration@ == fresh@ && value@ == fresh@,
        change.seen_version() == last_seen_version && same.seen_version() == last_seen_version,
        change.interval() == poll_interval@ && same.interval() == poll_interval@,
        !change.saw_change() && !same.saw_change(),
{
}

/// A wait that sleeps after a vain look for a value sleeps as one for an
/// orchestration does: the next sleep is twice as long, up to 100 ms.
pub proof fn law_waits_for_values_sleep_alike(
    wait: &mut Wait,
    value: Result<Option<String>, ClientError>,
    r: WaitStep<String>,
)
    requires
        call_ensures(Wait::on_value, (wait, value), r),
        old(wait)@.delay_ms <= 100,
    ensures
        r is Sleep ==> final(wait)@.slept && final(wait)@.delay_ms == (if old(wait)@.delay_ms
            <= 50 {
            2 * old(wait)@.delay_ms
        } else {
            100int
        }),
        !(r is Sleep) ==> final(wait)@ == old(wait)@,
{
}

/// What could not be written or read as a value is explained: the explanation
/// ends with the reason that was given, and says what was tried.
pub proof fn law_unusable_values_are_explained<T>(
    client: &Client,
    instance: String,
    orchestration: String,
    why: String,
    started: Result<WorkItem, ClientError>,
    waited: Result<OrchestrationStatus, ClientError>,
    end: Result<Result<T, String>, ClientError>,
    read: Result<Option<T>, ClientError>,
    value: Result<T, ClientError>,
)
    requires
        call_ensures(
            Client::start_orchestration_typed,
            (client, instance, orchestration, Err::<String, String>(why)),
            started,
        ),
        waited matches Ok(OrchestrationStatus::Completed { .. }),
        call_ensures(
            Client::wait_for_orchestration_typed::<T>,
            (client, waited, Some(Err::<T, String>(why))),
            end,
        ),
        call_ensures(
            Client::get_kv_value_typed::<T>,
            (
                client,
                Ok::<Option<Result<T, String>>, ClientError>(Some(Err::<T, String>(why))),
            ),
            read,
        ),
        call_ensures(
            Client::wait_for_kv_value_typed::<T>,
            (client, Ok::<Result<T, String>, ClientError>(Err::<T, String>(why))),
            value,
        ),
    ensures
        started matches Err(ClientError::InvalidInput { message }) && message@ == "encode: "@
            + why@,
        end matches Err(ClientError::InvalidInput { message }) && message@ == "decode failed: "@
            + why@,
        read matches Err(ClientError::InvalidInput { message }) && message@
            == "KV deserialization error: "@ + why@,
        value matches Err(ClientError::InvalidInput { message }) && message@
            == "KV deserialization error: "@ + why@,
{
}

/// An error says what happened: one of the store in the words of the store, one
/// about an instance with the ID of that instance, and one about an input with
/// the explanation.
pub proof fn law_errors_say_what_happened(e: &ClientError, r: String)
    requires
        call_ensures(ClientError::message, (e,), r),
    ensures
        match *e {
            ClientError::Provider(p) => r@ == p.text@,
            ClientError::ManagementNotAvailable => r@
                == "Management features not available - provider doesn't implement ProviderAdmin"@,
            ClientError::InvalidInput { message } => r@ == "Invalid input: "@ + message@,
            ClientError::Timeout => r@ == "Operation timed out"@,
            ClientError::InstanceStillRunning { instance_id: id } => r@ == "Instance "@ + id@
                + " is still running. Use force=true or cancel first."@,
            ClientError::CannotDeleteSubOrchestration { instance_id: id } => r@
                == "Cannot delete sub-orchestration "@ + id@
                + " directly. Delete the root orchestration instead."@,
            ClientError::InstanceNotFound { instance_id: id } => r@ == "Instance "@ + id@
                + " not found"@,
        },
{
}

} // verus!
