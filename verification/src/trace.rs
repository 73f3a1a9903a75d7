//! Trace entries.
use crate::context::CtxModel;
use crate::orchestration::OrchestrationContext;
use crate::text::same_text;
use vstd::prelude::*;

verus! {

/// The level at which an entry is logged.
#[derive(Debug, Clone, Copy, PartialEq, Eq, Structural)]
pub enum TraceLevel {
    Info,
    Warn,
    Error,
    Debug,
    /// Any other level: the entry keeps its text.
    Trace,
}

/// What `str::to_uppercase` makes of a text.
pub uninterp spec fn uppercased(s: Seq<char>) -> Seq<char>;

/// Calls `str::to_uppercase`, which maps every character to its Unicode upper
/// case. The claim is that the result depends on the text alone.
#[verifier::external_body]
fn to_uppercase(s: &str) -> (r: String)
    ensures
        r@ == uppercased(s@),
{
    s.to_uppercase()
}

/// The level that an upper-case name stands for.
pub open spec fn level_named(upper: Seq<char>) -> TraceLevel {
    if upper == "INFO"@ {
        TraceLevel::Info
    } else if upper == "WARN"@ {
        TraceLevel::Warn
    } else if upper == "ERROR"@ {
        TraceLevel::Error
    } else if upper == "DEBUG"@ {
        TraceLevel::Debug
    } else {
        TraceLevel::Trace
    }
}

/// The level that an upper-case name stands for.
pub fn level_of(upper: &str) -> (r: TraceLevel)
    ensures
        r == level_named(upper@),
{
    if same_text(upper, "INFO") {
        TraceLevel::Info
    } else if same_text(upper, "WARN") {
        TraceLevel::Warn
    } else if same_text(upper, "ERROR") {
        TraceLevel::Error
    } else if same_text(upper, "DEBUG") {
        TraceLevel::Debug
    } else {
        TraceLevel::Trace
    }
}

/// An entry for the log, with what ties it to its orchestration.
#[derive(Debug)]
pub struct TraceEntry {
    pub level: TraceLevel,
    /// The level as it was given.
    pub label: String,
    pub instance_id: String,
    pub execution_id: u64,
    pub orchestration_name: String,
    pub orchestration_version: String,
    pub message: String,
}

/// `e` is the entry for `message` at `level` in the turn `m`.
pub open spec fn is_entry(
    e: TraceEntry,
    m: CtxModel,
    level: TraceLevel,
    label: Seq<char>,
    message: String,
) -> bool {
    &&& e.level == level
    &&& e.label@ == label
    &&& e.instance_id == m.instance_id
    &&& e.execution_id == m.execution_id
    &&& e.orchestration_name == m.orchestration_name
    &&& e.orchestration_version == m.orchestration_version
    &&& e.message == message
}

/// What tracing gives: an entry, but none while history is replayed.
pub open spec fn traced(
    r: Option<TraceEntry>,
    m: CtxModel,
    level: TraceLevel,
    label: Seq<char>,
    message: String,
) -> bool {
    match r {
        Some(e) => !m.is_replaying && is_entry(e, m, level, label, message),
        None => m.is_replaying,
    }
}

impl OrchestrationContext {
    /// The entry for `message` at `level`, unless history is being replayed.
    pub fn trace_internal(&self, level: TraceLevel, label: &str, message: String) -> (r: Option<
        TraceEntry,
    >)
        ensures
            traced(r, self@, level, label@, message),
    {
        if self.is_replaying() {
            None
        } else {
            Some(
                TraceEntry {
                    level,
                    label: label.to_string(),
                    instance_id: self.instance_id(),
                    execution_id: self.execution_id(),
                    orchestration_name: self.orchestration_name(),
                    orchestration_version: self.orchestration_version(),
                    message,
                },
            )
        }
    }

    /// Traces at a named level, in upper or lower case.
    pub fn trace(&self, level: &str, message: String) -> (r: Option<TraceEntry>)
        ensures
            traced(r, self@, level_named(uppercased(level@)), level@, message),
    {
        let upper = to_uppercase(level);
        self.trace_internal(level_of(upper.as_str()), level, message)
    }

    /// Traces at the level INFO.
    pub fn trace_info(&self, message: String) -> (r: Option<TraceEntry>)
        ensures
            traced(r, self@, TraceLevel::Info, "INFO"@, message),
    {
        self.trace_internal(TraceLevel::Info, "INFO", message)
    }

    /// Traces at the level WARN.
    pub fn trace_warn(&self, message: String) -> (r: Option<TraceEntry>)
        ensures
            traced(r, self@, TraceLevel::Warn, "WARN"@, message),
    {
        self.trace_internal(TraceLevel::Warn, "WARN", message)
    }

    /// Traces at the level ERROR.
    pub fn trace_error(&self, message: String) -> (r: Option<TraceEntry>)
        ensures
            traced(r, self@, TraceLevel::Error, "ERROR"@, message),
    {
        self.trace_internal(TraceLevel::Error, "ERROR", message)
    }

    /// Traces at the level DEBUG.
    pub fn trace_debug(&self, message: String) -> (r: Option<TraceEntry>)
        ensures
            traced(r, self@, TraceLevel::Debug, "DEBUG"@, message),
    {
        self.trace_internal(TraceLevel::Debug, "DEBUG", message)
    }
}

} // verus!
