//! What an activity knows of the orchestration that it works for.
use crate::trace::TraceLevel;
use vstd::prelude::*;

verus! {

/// The metadata of an activity while it runs.
#[derive(Debug, Clone)]
pub struct ActivityContext {
    instance_id: String,
    execution_id: u64,
    orchestration_name: String,
    orchestration_version: String,
    activity_name: String,
    activity_id: u64,
    worker_id: String,
    session_id: Option<String>,
    tag: Option<String>,
}

/// What the metadata of an activity stands for.
pub struct ActivityModel {
    pub instance_id: Seq<char>,
    pub execution_id: u64,
    pub orchestration_name: Seq<char>,
    pub orchestration_version: Seq<char>,
    pub activity_name: Seq<char>,
    pub activity_id: u64,
    pub worker_id: Seq<char>,
    /// The session, where the activity was scheduled on one.
    pub session_id: Option<String>,
    /// The routing tag, where the activity was scheduled with one.
    pub tag: Option<String>,
}

impl View for ActivityContext {
    type V = ActivityModel;

    closed spec fn view(&self) -> ActivityModel {
        ActivityModel {
            instance_id: self.instance_id@,
            execution_id: self.execution_id,
            orchestration_name: self.orchestration_name@,
            orchestration_version: self.orchestration_version@,
            activity_name: self.activity_name@,
            activity_id: self.activity_id,
            worker_id: self.worker_id@,
            session_id: self.session_id,
            tag: self.tag,
        }
    }
}

/// An entry for the log, with what ties it to its activity.
#[derive(Debug)]
pub struct ActivityTraceEntry {
    pub level: TraceLevel,
    pub instance_id: String,
    pub execution_id: u64,
    pub orchestration_name: String,
    pub orchestration_version: String,
    pub activity_name: String,
    pub activity_id: u64,
    pub worker_id: String,
    pub message: String,
}

/// `e` is the entry for `message` at `level` in the activity `m`.
pub open spec fn is_activity_entry(
    e: ActivityTraceEntry,
    m: ActivityModel,
    level: TraceLevel,
    message: String,
) -> bool {
    &&& e.level == level
    &&& e.instance_id@ == m.instance_id
    &&& e.execution_id == m.execution_id
    &&& e.orchestration_name@ == m.orchestration_name
    &&& e.orchestration_version@ == m.orchestration_version
    &&& e.activity_name@ == m.activity_name
    &&& e.activity_id == m.activity_id
    &&& e.worker_id@ == m.worker_id
    &&& e.message == message
}

/// The text inside an optional one.
fn inner_text(t: &Option<String>) -> (r: Option<&str>)
    ensures
        same_optional(r, *t),
{
    match t {
        Some(s) => Some(s.as_str()),
        None => None,
    }
}

/// An optional text slice that holds the same text as `t`.
pub open spec fn same_optional(r: Option<&str>, t: Option<String>) -> bool {
    match (r, t) {
        (Some(a), Some(b)) => a@ == b@,
        (None, None) => true,
        _ => false,
    }
}

impl ActivityContext {
    /// The context of an activity.
    pub fn new(
        instance_id: String,
        execution_id: u64,
        orchestration_name: String,
        orchestration_version: String,
        activity_name: String,
        activity_id: u64,
        worker_id: String,
        session_id: Option<String>,
        tag: Option<String>,
    ) -> (r: Self)
        ensures
            r@ == (ActivityModel {
                instance_id: instance_id@,
                execution_id,
                orchestration_name: orchestration_name@,
                orchestration_version: orchestration_version@,
                activity_name: activity_name@,
                activity_id,
                worker_id: worker_id@,
                session_id,
                tag,
            }),
    {
        ActivityContext {
            instance_id,
            execution_id,
            orchestration_name,
            orchestration_version,
            activity_name,
            activity_id,
            worker_id,
            session_id,
            tag,
        }
    }

    /// The orchestration instance.
    pub fn instance_id(&self) -> (r: &str)
        ensures
            r@ == self@.instance_id,
    {
        self.instance_id.as_str()
    }

    /// The execution within the instance.
    pub fn execution_id(&self) -> (r: u64)
        ensures
            r == self@.execution_id,
    {
        self.execution_id
    }

    /// The name of the parent orchestration.
    pub fn orchestration_name(&self) -> (r: &str)
        ensures
            r@ == self@.orchestration_name,
    {
        self.orchestration_name.as_str()
    }

    /// The version of the parent orchestration.
    pub fn orchestration_version(&self) -> (r: &str)
        ensures
            r@ == self@.orchestration_version,
    {
        self.orchestration_version.as_str()
    }

    /// The name of the activity.
    pub fn activity_name(&self) -> (r: &str)
        ensures
            r@ == self@.activity_name,
    {
        self.activity_name.as_str()
    }

    /// The worker that runs the activity.
    pub fn worker_id(&self) -> (r: &str)
        ensures
            r@ == self@.worker_id,
    {
        self.worker_id.as_str()
    }

    /// The session, where the activity was scheduled on one.
    pub fn session_id(&self) -> (r: Option<&str>)
        ensures
            same_optional(r, self@.session_id),
    {
        inner_text(&self.session_id)
    }

    /// The routing tag, where the activity was scheduled with one.
    pub fn tag(&self) -> (r: Option<&str>)
        ensures
            same_optional(r, self@.tag),
    {
        inner_text(&self.tag)
    }

    /// The entry for `message` at `level`. It is given whether or not history
    /// is being replayed: an activity has no part in replay.
    fn entry(&self, level: TraceLevel, message: String) -> (r: ActivityTraceEntry)
        ensures
            is_activity_entry(r, self@, level, message),
    {
        ActivityTraceEntry {
            level,
            instance_id: self.instance_id.clone(),
            execution_id: self.execution_id,
            orchestration_name: self.orchestration_name.clone(),
            orchestration_version: self.orchestration_version.clone(),
            activity_name: self.activity_name.clone(),
            activity_id: self.activity_id,
            worker_id: self.worker_id.clone(),
            message,
        }
    }

    /// Traces at the level INFO.
    pub fn trace_info(&self, message: String) -> (r: ActivityTraceEntry)
        ensures
            is_activity_entry(r, self@, TraceLevel::Info, message),
    {
        self.entry(TraceLevel::Info, message)
    }

    /// Traces at the level WARN.
    pub fn trace_warn(&self, message: String) -> (r: ActivityTraceEntry)
        ensures
            is_activity_entry(r, self@, TraceLevel::Warn, message),
    {
        self.entry(TraceLevel::Warn, message)
    }

    /// Traces at the level ERROR.
    pub fn trace_error(&self, message: String) -> (r: ActivityTraceEntry)
        ensures
            is_activity_entry(r, self@, TraceLevel::Error, message),
    {
        self.entry(TraceLevel::Error, message)
    }

    /// Traces at the level DEBUG.
    pub fn trace_debug(&self, message: String) -> (r: ActivityTraceEntry)
        ensures
            is_activity_entry(r, self@, TraceLevel::Debug, message),
    {
        self.entry(TraceLevel::Debug, message)
    }
}

/// An activity knows what it was started with.
pub proof fn law_an_activity_knows_its_origin(
    instance_id: String,
    execution_id: u64,
    orchestration_name: String,
    orchestration_version: String,
    activity_name: String,
    activity_id: u64,
    worker_id: String,
    session_id: Option<String>,
    tag: Option<String>,
    c: ActivityContext,
    instance: &str,
    execution: u64,
    name: &str,
    version: &str,
    activity: &str,
    worker: &str,
    session: Option<&str>,
    its_tag: Option<&str>,
)
    requires
        call_ensures(
            ActivityContext::new,
            (
                instance_id,
                execution_id,
                orchestration_name,
                orchestration_version,
                activity_name,
                activity_id,
                worker_id,
                session_id,
                tag,
            ),
            c,
        ),
        call_ensures(ActivityContext::instance_id, (&c,), instance),
        call_ensures(ActivityContext::execution_id, (&c,), execution),
        call_ensures(ActivityContext::orchestration_name, (&c,), name),
        call_ensures(ActivityContext::orchestration_version, (&c,), version),
        call_ensures(ActivityContext::activity_name, (&c,), activity),
        call_ensures(ActivityContext::worker_id, (&c,), worker),
        call_ensures(ActivityContext::session_id, (&c,), session),
        call_ensures(ActivityContext::tag, (&c,), its_tag),
    ensures
        instance@ == instance_id@,
        execution == execution_id,
        name@ == orchestration_name@,
        version@ == orchestration_version@,
        activity@ == activity_name@,
        worker@ == worker_id@,
        session_id matches Some(s) ==> (session matches Some(t) && t@ == s@),
        session_id is None ==> session is None,
        tag matches Some(s) ==> (its_tag matches Some(t) && t@ == s@),
        tag is None ==> its_tag is None,
        c@.activity_id == activity_id,
{
}

/// An activity traces at the level of the call, with what ties the entry to the
/// activity and to its orchestration.
pub proof fn law_an_activity_traces_at_the_level_of_the_call(
    c: &ActivityContext,
    message: String,
    info: ActivityTraceEntry,
    warn: ActivityTraceEntry,
    error: ActivityTraceEntry,
    debug: ActivityTraceEntry,
)
    requires
        call_ensures(ActivityContext::trace_info, (c, message), info),
        call_ensures(ActivityContext::trace_warn, (c, message), warn),
        call_ensures(ActivityContext::trace_error, (c, message), error),
        call_ensures(ActivityContext::trace_debug, (c, message), debug),
    ensures
        info.level is Info && warn.level is Warn && error.level is Error && debug.level is Debug,
        info.message == message && warn.message == message && error.message == message
            && debug.message == message,
        names_its_activity(info, c@),
        names_its_activity(warn, c@),
        names_its_activity(error, c@),
        names_its_activity(debug, c@),
{
}

/// The entry names the activity that it comes from.
pub open spec fn names_its_activity(e: ActivityTraceEntry, m: ActivityModel) -> bool {
    &&& e.instance_id@ == m.instance_id
    &&& e.execution_id == m.execution_id
    &&& e.orchestration_name@ == m.orchestration_name
    &&& e.orchestration_version@ == m.orchestration_version
    &&& e.activity_name@ == m.activity_name
    &&& e.activity_id == m.activity_id
    &&& e.worker_id@ == m.worker_id
}

} // verus!
