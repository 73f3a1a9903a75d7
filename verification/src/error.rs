//! Structured failure details.
use crate::text::{self, join2, join3, u64_text};
use vstd::prelude::*;

verus! {

/// Structured error details for orchestration failures.
///
/// - **Infrastructure**: provider failures, data corruption.
/// - **Configuration**: deployment issues such as nondeterminism.
/// - **Application**: business logic failures, the only ones that
///   orchestration code sees.
/// - **Poison**: a message that was fetched too often.
#[derive(Debug, PartialEq, Eq)]
#[allow(inconsistent_fields)]
pub enum ErrorDetails {
    /// Provider errors or data corruption.
    Infrastructure { operation: String, message: String, retryable: bool },
    /// Unregistered work or nondeterminism.
    Configuration { kind: ConfigErrorKind, resource: String, message: Option<String> },
    /// Business logic failures.
    Application { kind: AppErrorKind, message: String, retryable: bool },
    /// A message that exceeded its fetch attempts.
    Poison {
        attempt_count: u32,
        max_attempts: u32,
        message_type: PoisonMessageType,
        message: String,
    },
}

/// Which message was poisoned.
#[derive(Debug, PartialEq, Eq)]
pub enum PoisonMessageType {
    /// A batch of orchestration work items.
    Orchestration { instance: String, execution_id: u64 },
    /// An activity execution.
    Activity { instance: String, execution_id: u64, activity_name: String, activity_id: u64 },
    /// A history that could not be read back.
    FailedDeserialization { instance: String, execution_id: u64, error: String },
}

/// Configuration error kinds.
#[derive(Debug, PartialEq, Eq)]
pub enum ConfigErrorKind {
    Nondeterminism,
}

/// Application error kinds.
#[derive(Debug, PartialEq, Eq)]
pub enum AppErrorKind {
    ActivityFailed,
    OrchestrationFailed,
    Panicked,
    Cancelled { reason: String },
}

/// A copy of an optional text.
pub fn copy_text(t: &Option<String>) -> (r: Option<String>)
    ensures
        r == *t,
{
    match t {
        Some(s) => Some(s.clone()),
        None => None,
    }
}

impl Clone for ConfigErrorKind {
    fn clone(&self) -> (r: Self)
        ensures
            r == *self,
    {
        match self {
            ConfigErrorKind::Nondeterminism => ConfigErrorKind::Nondeterminism,
        }
    }
}

impl Clone for AppErrorKind {
    fn clone(&self) -> (r: Self)
        ensures
            r == *self,
    {
        match self {
            AppErrorKind::ActivityFailed => AppErrorKind::ActivityFailed,
            AppErrorKind::OrchestrationFailed => AppErrorKind::OrchestrationFailed,
            AppErrorKind::Panicked => AppErrorKind::Panicked,
            AppErrorKind::Cancelled { reason } => AppErrorKind::Cancelled {
                reason: reason.clone(),
            },
        }
    }
}

impl Clone for PoisonMessageType {
    fn clone(&self) -> (r: Self)
        ensures
            r == *self,
    {
        match self {
            PoisonMessageType::Orchestration { instance, execution_id } => {
                PoisonMessageType::Orchestration {
                    instance: instance.clone(),
                    execution_id: *execution_id,
                }
            },
            PoisonMessageType::Activity { instance, execution_id, activity_name, activity_id } => {
                PoisonMessageType::Activity {
                    instance: instance.clone(),
                    execution_id: *execution_id,
                    activity_name: activity_name.clone(),
                    activity_id: *activity_id,
                }
            },
            PoisonMessageType::FailedDeserialization { instance, execution_id, error } => {
                PoisonMessageType::FailedDeserialization {
                    instance: instance.clone(),
                    execution_id: *execution_id,
                    error: error.clone(),
                }
            },
        }
    }
}

impl Clone for ErrorDetails {
    fn clone(&self) -> (r: Self)
        ensures
            r == *self,
    {
        match self {
            ErrorDetails::Infrastructure { operation, message, retryable } => {
                ErrorDetails::Infrastructure {
                    operation: operation.clone(),
                    message: message.clone(),
                    retryable: *retryable,
                }
            },
            ErrorDetails::Configuration { kind, resource, message } => {
                ErrorDetails::Configuration {
                    kind: kind.clone(),
                    resource: resource.clone(),
                    message: copy_text(message),
                }
            },
            ErrorDetails::Application { kind, message, retryable } => ErrorDetails::Application {
                kind: kind.clone(),
                message: message.clone(),
                retryable: *retryable,
            },
            ErrorDetails::Poison { attempt_count, max_attempts, message_type, message } => {
                ErrorDetails::Poison {
                    attempt_count: *attempt_count,
                    max_attempts: *max_attempts,
                    message_type: message_type.clone(),
                    message: message.clone(),
                }
            },
        }
    }
}

/// The tail of the text for a poisoned message: how often it was fetched, and
/// how often it might have been.
pub open spec fn attempts_text(
    lead: Seq<char>,
    attempt_count: u32,
    max_attempts: u32,
) -> Seq<char> {
    lead + text::decimal(attempt_count as nat) + " attempts (max "@ + text::decimal(
        max_attempts as nat,
    ) + ")"@
}

/// The text that describes a failure to a person.
pub open spec fn message_text(e: ErrorDetails) -> Seq<char> {
    match e {
        ErrorDetails::Infrastructure { operation, message, .. } => {
            "infrastructure:"@ + operation@ + ": "@ + message@
        },
        ErrorDetails::Configuration { kind: ConfigErrorKind::Nondeterminism, resource, message } => {
            match message {
                Some(m) => "nondeterministic: "@ + m@,
                None => "nondeterministic in "@ + resource@,
            }
        },
        ErrorDetails::Application { kind, message, .. } => match kind {
            AppErrorKind::Cancelled { reason } => "canceled: "@ + reason@,
            AppErrorKind::Panicked => "orchestration panicked: "@ + message@,
            AppErrorKind::ActivityFailed => message@,
            AppErrorKind::OrchestrationFailed => message@,
        },
        ErrorDetails::Poison { attempt_count, max_attempts, message_type, .. } => {
            match message_type {
                PoisonMessageType::Orchestration { instance, .. } => attempts_text(
                    "poison: orchestration "@ + instance@ + " exceeded "@,
                    attempt_count,
                    max_attempts,
                ),
                PoisonMessageType::Activity { activity_name, activity_id, .. } => attempts_text(
                    "poison: activity "@ + activity_name@ + "#"@ + text::decimal(activity_id as nat)
                        + " exceeded "@,
                    attempt_count,
                    max_attempts,
                ),
                PoisonMessageType::FailedDeserialization { instance, error, .. } => attempts_text(
                    "poison: orchestration "@ + instance@
                        + " history deserialization failed after "@,
                    attempt_count,
                    max_attempts,
                ) + ": "@ + error@,
            }
        },
    }
}

/// Adds the attempt counts to `lead`.
fn with_attempts(lead: String, attempt_count: u32, max_attempts: u32) -> (r: String)
    ensures
        r@ == attempts_text(lead@, attempt_count, max_attempts),
{
    let mut s = lead;
    s.append(u64_text(attempt_count as u64).as_str());
    s.append(" attempts (max ");
    s.append(u64_text(max_attempts as u64).as_str());
    s.append(")");
    s
}

/// The metrics category of a failure.
pub open spec fn category_text(e: ErrorDetails) -> Seq<char> {
    match e {
        ErrorDetails::Infrastructure { .. } => "infrastructure"@,
        ErrorDetails::Configuration { .. } => "configuration"@,
        ErrorDetails::Application { .. } => "application"@,
        ErrorDetails::Poison { .. } => "poison"@,
    }
}

/// Whether trying again can help.
pub open spec fn retry_helps(e: ErrorDetails) -> bool {
    match e {
        ErrorDetails::Infrastructure { retryable, .. } => retryable,
        ErrorDetails::Application { retryable, .. } => retryable,
        ErrorDetails::Configuration { .. } => false,
        ErrorDetails::Poison { .. } => false,
    }
}

impl ErrorDetails {
    /// The failure category for metrics and logging.
    pub fn category(&self) -> (r: &'static str)
        ensures
            r@ == category_text(*self),
    {
        match self {
            ErrorDetails::Infrastructure { .. } => "infrastructure",
            ErrorDetails::Configuration { .. } => "configuration",
            ErrorDetails::Application { .. } => "application",
            ErrorDetails::Poison { .. } => "poison",
        }
    }

    /// Whether the failure is retryable.
    pub fn is_retryable(&self) -> (r: bool)
        ensures
            r == retry_helps(*self),
    {
        match self {
            ErrorDetails::Infrastructure { retryable, .. } => *retryable,
            ErrorDetails::Application { retryable, .. } => *retryable,
            ErrorDetails::Configuration { .. } => false,
            ErrorDetails::Poison { .. } => false,
        }
    }

    /// The message for logs and user interfaces.
    pub fn display_message(&self) -> (r: String)
        ensures
            r@ == message_text(*self),
    {
        match self {
            ErrorDetails::Infrastructure { operation, message, .. } => {
                let mut s = join3("infrastructure:", operation.as_str(), ": ");
                s.append(message.as_str());
                s
            },
            ErrorDetails::Configuration { kind, resource, message } => match kind {
                ConfigErrorKind::Nondeterminism => match message {
                    Some(m) => join2("nondeterministic: ", m.as_str()),
                    None => join2("nondeterministic in ", resource.as_str()),
                },
            },
            ErrorDetails::Application { kind, message, .. } => match kind {
                AppErrorKind::Cancelled { reason } => join2("canceled: ", reason.as_str()),
                AppErrorKind::Panicked => join2("orchestration panicked: ", message.as_str()),
                AppErrorKind::ActivityFailed => message.clone(),
                AppErrorKind::OrchestrationFailed => message.clone(),
            },
            ErrorDetails::Poison { attempt_count, max_attempts, message_type, .. } => {
                match message_type {
                    PoisonMessageType::Orchestration { instance, .. } => {
                        let lead = join3("poison: orchestration ", instance.as_str(), " exceeded ");
                        with_attempts(lead, *attempt_count, *max_attempts)
                    },
                    PoisonMessageType::Activity { activity_name, activity_id, .. } => {
                        let mut lead = join3("poison: activity ", activity_name.as_str(), "#");
                        lead.append(u64_text(*activity_id).as_str());
                        lead.append(" exceeded ");
                        with_attempts(lead, *attempt_count, *max_attempts)
                    },
                    PoisonMessageType::FailedDeserialization { instance, error, .. } => {
                        let lead = join3(
                            "poison: orchestration ",
                            instance.as_str(),
                            " history deserialization failed after ",
                        );
                        let mut s = with_attempts(lead, *attempt_count, *max_attempts);
                        s.append(": ");
                        s.append(error.as_str());
                        s
                    },
                }
            },
        }
    }
}

/// Only infrastructure and application failures can ever be worth a retry, so
/// the other two categories never are.
pub proof fn law_retry_categories(e: ErrorDetails)
    ensures
        retry_helps(e) ==> category_text(e) == "infrastructure"@ || category_text(e)
            == "application"@,
        e is Configuration || e is Poison ==> !retry_helps(e),
{
}

/// The category of a failure is the name of its variant, and a failure is
/// retryable only where it says so itself.
pub proof fn law_failures_say_what_they_are(e: &ErrorDetails, category: &'static str, retry: bool)
    requires
        call_ensures(ErrorDetails::category, (e,), category),
        call_ensures(ErrorDetails::is_retryable, (e,), retry),
    ensures
        *e is Infrastructure ==> category@ == "infrastructure"@,
        *e is Configuration ==> category@ == "configuration"@,
        *e is Application ==> category@ == "application"@,
        *e is Poison ==> category@ == "poison"@,
        *e matches ErrorDetails::Infrastructure { retryable, .. } ==> retry == retryable,
        *e matches ErrorDetails::Application { retryable, .. } ==> retry == retryable,
        *e is Configuration || *e is Poison ==> !retry,
{
}

/// The message of a failure of the application is the text that it failed with,
/// with what happened before it where it was cancelled or panicked.
pub proof fn law_application_messages(
    kind: AppErrorKind,
    message: String,
    retryable: bool,
    r: String,
)
    requires
        call_ensures(
            ErrorDetails::display_message,
            (&ErrorDetails::Application { kind, message, retryable },),
            r,
        ),
    ensures
        match kind {
            AppErrorKind::ActivityFailed | AppErrorKind::OrchestrationFailed => r@ == message@,
            AppErrorKind::Panicked => r@ == "orchestration panicked: "@ + message@,
            AppErrorKind::Cancelled { reason } => r@ == "canceled: "@ + reason@,
        },
{
}

/// The message of a failure of the store or of the configuration names where it
/// happened.
pub proof fn law_system_messages(
    operation: String,
    message: String,
    retryable: bool,
    resource: String,
    detail: Option<String>,
    store: String,
    config: String,
)
    requires
        call_ensures(
            ErrorDetails::display_message,
            (&ErrorDetails::Infrastructure { operation, message, retryable },),
            store,
        ),
        call_ensures(
            ErrorDetails::display_message,
            (
                &ErrorDetails::Configuration {
                    kind: ConfigErrorKind::Nondeterminism,
                    resource,
                    message: detail,
                },
            ),
            config,
        ),
    ensures
        store@ == "infrastructure:"@ + operation@ + ": "@ + message@,
        detail matches Some(m) ==> config@ == "nondeterministic: "@ + m@,
        detail is None ==> config@ == "nondeterministic in "@ + resource@,
{
}

/// The message for a poisoned message names what was poisoned, how often it was
/// fetched, and how often it might have been.
pub proof fn law_poison_messages(
    attempt_count: u32,
    max_attempts: u32,
    message_type: PoisonMessageType,
    message: String,
    r: String,
)
    requires
        call_ensures(
            ErrorDetails::display_message,
            (&ErrorDetails::Poison { attempt_count, max_attempts, message_type, message },),
            r,
        ),
    ensures
        ({
            let counts = text::decimal(attempt_count as nat) + " attempts (max "@ + text::decimal(
                max_attempts as nat,
            ) + ")"@;
            match message_type {
                PoisonMessageType::Orchestration { instance, .. } => r@ == "poison: orchestration "@
                    + instance@ + " exceeded "@ + counts,
                PoisonMessageType::Activity { activity_name, activity_id, .. } => r@
                    == "poison: activity "@ + activity_name@ + "#"@ + text::decimal(
                    activity_id as nat,
                ) + " exceeded "@ + counts,
                PoisonMessageType::FailedDeserialization { instance, error, .. } => r@
                    == "poison: orchestration "@ + instance@
                    + " history deserialization failed after "@ + counts + ": "@ + error@,
            }
        }),
{
    let counts = text::decimal(attempt_count as nat) + " attempts (max "@ + text::decimal(
        max_attempts as nat,
    ) + ")"@;
    match message_type {
        PoisonMessageType::Orchestration { instance, .. } => {
            assert(r@ =~= "poison: orchestration "@ + instance@ + " exceeded "@ + counts);
        },
        PoisonMessageType::Activity { activity_name, activity_id, .. } => {
            assert(r@ =~= "poison: activity "@ + activity_name@ + "#"@ + text::decimal(
                activity_id as nat,
            ) + " exceeded "@ + counts);
        },
        PoisonMessageType::FailedDeserialization { instance, error, .. } => {
            assert(r@ =~= "poison: orchestration "@ + instance@
                + " history deserialization failed after "@ + counts + ": "@ + error@);
        },
    }
}

/// Copying keeps everything.
pub proof fn law_copies_are_equal(
    e: &ErrorDetails,
    copy: ErrorDetails,
    t: &Option<String>,
    copied: Option<String>,
)
    requires
        call_ensures(ErrorDetails::clone, (e,), copy),
        call_ensures(copy_text, (t,), copied),
    ensures
        copy == *e,
        copied == *t,
{
}

} // verus!
