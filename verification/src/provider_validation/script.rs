//! The language of validation scripts.
//!
//! A script is a row of steps. A step asks the store for something, checks what
//! the store replied, remembers something of it, or prepares what the next
//! request carries.
use crate::error::{AppErrorKind, ErrorDetails};
use crate::event::{self, Event, EventKind};
use crate::provider::WorkItem;
use vstd::prelude::*;

verus! {

/// A message that a script hands to the store.
#[derive(Debug, Clone, Copy)]
pub enum Item {
    /// Start an orchestration: instance, orchestration, input, version, parent
    /// instance, parent ID and execution.
    Start(
        &'static str,
        &'static str,
        &'static str,
        Option<&'static str>,
        Option<&'static str>,
        Option<u64>,
        u64,
    ),
    /// Run an activity: instance, execution, ID, name and input.
    Activity(&'static str, u64, u64, &'static str, &'static str),
    /// An activity completed: instance, execution, ID and result.
    Completed(&'static str, u64, u64, &'static str),
    /// A timer fired: instance, execution, ID and time.
    Timer(&'static str, u64, u64, u64),
    /// An external event was raised: instance, name and data.
    Raised(&'static str, &'static str, &'static str),
    /// Go on in a new execution: instance, orchestration, input and version.
    Continue(&'static str, &'static str, &'static str, &'static str),
}

/// What an event of a script records.
#[derive(Debug, Clone, Copy)]
pub enum Fact {
    /// The orchestration started: name, version, input, parent instance and
    /// parent ID.
    Started(&'static str, &'static str, &'static str, Option<&'static str>, Option<u64>),
    /// The orchestration started with three events carried forward.
    StartedCarrying(
        &'static str,
        &'static str,
        &'static str,
        (&'static str, &'static str),
        (&'static str, &'static str),
        (&'static str, &'static str),
    ),
    /// The orchestration completed with an output.
    Completed(&'static str),
    /// The orchestration failed with a message.
    Failed(&'static str),
    /// The orchestration continued as new with an input.
    Continued(&'static str),
    /// An activity was scheduled: name and input.
    Scheduled(&'static str, &'static str),
    /// A timer was created for a time.
    TimerCreated(u64),
    /// An external event arrived: name and data.
    External(&'static str, &'static str),
    /// The custom status was set or cleared.
    StatusUpdated(Option<&'static str>),
    /// A key was set: key, value and time of update.
    KeySet(&'static str, &'static str, u64),
}

/// An event of a script.
#[derive(Debug, Clone, Copy)]
pub struct ScriptEvent {
    pub event_id: u64,
    pub instance: &'static str,
    pub execution_id: u64,
    pub source_event_id: Option<u64>,
    pub fact: Fact,
}

/// The metadata that goes with an acknowledged turn.
#[derive(Debug, Clone, Copy)]
pub struct ExecutionMetadata {
    pub status: Option<&'static str>,
    pub output: Option<&'static str>,
    pub orchestration_name: Option<&'static str>,
    pub orchestration_version: Option<&'static str>,
    pub parent_instance_id: Option<&'static str>,
}

/// An activity that a turn cancels.
#[derive(Debug, Clone, Copy)]
pub struct ScheduledActivityIdentifier {
    pub instance: &'static str,
    pub execution_id: u64,
    pub activity_id: u64,
}

/// The lock token of a request.
#[derive(Debug, Clone, Copy)]
pub enum Token {
    /// The one remembered in a register.
    Held(u64),
    /// A made-up one.
    Given(&'static str),
}

/// What a span of time is measured from.
#[derive(Debug, Clone, Copy)]
pub enum Base {
    /// Nothing.
    Zero,
    /// The lock timeout of the store.
    Lock,
    /// How fast a store that does not wait for work replies.
    ShortPoll,
}

/// A span of time: so many tenths of its base, to the nearest nanosecond, less
/// some milliseconds but not below zero, and some milliseconds more.
#[derive(Debug, Clone, Copy)]
pub struct Span {
    pub base: Base,
    pub tenths: u8,
    pub minus_ms: u64,
    pub plus_ms: u64,
}

/// A request to the store, or to what surrounds it.
#[derive(Debug, Clone, Copy)]
pub enum Call {
    /// Enqueue for the orchestrator.
    Put(Item),
    /// Enqueue for the worker.
    PutWork(Item),
    /// Fetch a turn: lock and poll timeouts.
    FetchTurn(Span, Span),
    /// Fetch a work item: lock and poll timeouts.
    FetchWork(Span, Span),
    /// Acknowledge a turn, with all that was prepared.
    Ack(Token, u64),
    /// Acknowledge a work item, with its completion.
    AckWork(Token, Option<Item>),
    /// Acknowledge a work item with the completion of the activity whose ID is
    /// remembered in a register: instance, execution, register and result.
    AckWorkAs(Token, &'static str, u64, u64, &'static str),
    /// Abandon a turn, counting the attempt or not.
    AbandonTurn(Token, bool),
    /// Abandon a work item, with a delay, counting the attempt or not.
    AbandonWork(Token, Option<Span>, bool),
    /// Renew the lock of a turn.
    RenewTurn(Token, Span),
    /// Renew the lock of a work item.
    RenewWork(Token, Span),
    /// Read the history of the latest execution.
    Read(&'static str),
    /// Read the history of an execution.
    ReadExecution(&'static str, u64),
    /// Ask for a custom status newer than a version.
    CustomStatus(&'static str, u64),
    /// Ask for the statistics of an instance.
    Stats(&'static str),
    /// See that the store has management operations.
    Management,
    ListInstances,
    ListByStatus(&'static str),
    ListExecutions(&'static str),
    ListChildren(&'static str),
    ParentOf(&'static str),
    Tree(&'static str),
    InstanceInfo(&'static str),
    ExecutionInfo(&'static str, u64),
    Metrics,
    Depths,
    /// Delete an instance, by force or not.
    Delete(&'static str, bool),
    /// Delete the listed instances together, by force or not.
    DeleteListed(bool),
    /// Delete what a filter selects: whether the listed instances restrict it,
    /// the register with the time before which they completed, and the limit.
    DeleteMatching(bool, Option<u64>, Option<u32>),
    /// Prune the executions of an instance, keeping the last ones.
    Prune(&'static str, Option<u32>),
    /// Prune the executions of the listed instances, keeping the last ones.
    PruneListed(Option<u32>),
    /// Make the history of an instance unreadable.
    Corrupt(&'static str),
    /// Read the wall clock.
    Clock,
    /// Let time pass.
    Sleep(Span),
}

/// A number that a reply shows.
#[derive(Debug, Clone, Copy)]
pub enum Num {
    /// How often the messages of a fetched item were fetched.
    Attempts,
    /// The execution of a fetched turn.
    TurnExecution,
    /// The length of the history of a fetched turn.
    TurnHistory,
    /// The messages of a fetched turn.
    TurnMessages,
    /// The ID of a fetched activity.
    WorkId,
    /// The length of a history, 0 where it could not be read.
    History,
    /// The version of a custom status.
    StatusVersion,
    StatsEvents,
    StatsSize,
    StatsPending,
    StatsKeys,
    StatsValueBytes,
    /// The length of a list of names.
    Names,
    /// The length of a list of executions.
    Executions,
    /// The first of a list of executions.
    FirstExecution,
    /// The current execution of an instance.
    InfoExecution,
    /// The execution that was described.
    ExecutionId,
    TotalInstances,
    TotalEvents,
    OrchestratorQueue,
    TreeSize,
    InstancesDeleted,
    ExecutionsDeleted,
    EventsDeleted,
    QueueMessagesDeleted,
    InstancesProcessed,
    ExecutionsPruned,
    /// The wall clock, in milliseconds since 1970.
    Clock,
    /// The requests made together that succeeded without an item.
    GroupDone,
    /// The requests made together that failed.
    GroupFailed,
    /// The requests made together that got a turn.
    GroupTurns,
    /// The requests made together that found nothing.
    GroupNothing,
    /// The different instances whose turns were got together.
    GroupInstances,
}

/// A text that a reply shows.
#[derive(Debug, Clone, Copy)]
pub enum Txt {
    TurnInstance,
    TurnOrchestration,
    TurnVersion,
    WorkName,
    /// The activity that the first event of a history schedules.
    FirstScheduled,
    CustomStatus,
    InfoInstance,
    InfoOrchestration,
    InfoVersion,
    InfoStatus,
    ExecutionStatus,
    ExecutionOutput,
    Parent,
    TreeRoot,
}

/// How a number is to stand to another.
#[derive(Debug, Clone, Copy)]
pub enum Rel {
    Is,
    AtLeast,
    MoreThan,
    AtMost,
}

/// A number to compare with.
#[derive(Debug, Clone, Copy)]
pub enum Operand {
    Literal(u64),
    /// The one remembered in a register.
    Saved(u64),
    /// Another number that the same reply shows.
    Shown(Num),
}

/// Sorts of events.
#[derive(Debug, Clone, Copy, PartialEq, Eq, Structural)]
pub enum EventSort {
    Started,
    Scheduled,
    Completed,
}

/// Sorts of messages.
#[derive(Debug, Clone, Copy, PartialEq, Eq, Structural)]
pub enum MessageSort {
    Timer,
    Raised,
    /// The completion of the activity with this ID.
    Completed(u64),
}

/// A test on the reply at hand, or on what was remembered.
#[derive(Debug, Clone, Copy)]
pub enum Check {
    /// The request failed.
    Failed,
    /// The request failed, and trying again cannot help.
    Permanent,
    /// The text of the error, in lower case, holds one of these.
    Says(&'static str, &'static str, &'static str),
    /// The message of the error holds one of these.
    Tells(&'static str, &'static str),
    /// There was nothing.
    Nothing,
    /// There was something.
    Something,
    Number(Num, Rel, Operand),
    Text(Txt, &'static str),
    /// The text is absent.
    NoText(Txt),
    /// The list of names holds this one.
    Has(&'static str),
    /// The list of names does not hold this one.
    Lacks(&'static str),
    /// The list of executions holds one of these.
    HasExecution(u64, u64),
    /// The event at this place is of this sort.
    EventIs(u64, EventSort),
    /// The message at this place is of this sort.
    MessageIs(u64, MessageSort),
    /// The completed activities among the messages are those from the first
    /// ID to the last, in this order.
    Completions(u64, u64),
    /// No message completes an activity with a result that holds this.
    NoCompletionSaying(&'static str),
    /// An activity was fetched.
    WorkIsActivity,
    /// Where a turn was fetched, it is of this execution.
    ExecutionIfAny(u64),
    /// Whether the tree holds nothing but its root.
    RootOnly(bool),
    /// Two remembered tokens differ.
    TokensDiffer(u64, u64),
    /// A remembered token is not this one.
    TokenIsNot(u64, &'static str),
    /// Every turn that was got together is of this instance.
    GroupTurnsAre(&'static str),
    /// The tokens remembered in the first registers differ from each other.
    TokensDistinct(u64),
    /// Two remembered numbers differ.
    NumbersDiffer(u64, u64),
    /// The last request took less time than this.
    Faster(Span),
    /// The last request took no less time than this.
    NotFaster(Span),
}

/// A step of a script.
#[derive(Debug, Clone, Copy)]
pub enum Step {
    /// Make a request that must not fail.
    Do(Call),
    /// Make a request that must hand out an item, and remember its token.
    Take(Call, u64),
    /// Make a request that may hand out an item, and remember its token where
    /// it does.
    TakeIfAny(Call, u64),
    /// Make a request, whatever comes of it.
    Try(Call),
    /// Test the reply at hand, or what was remembered.
    Expect(Check),
    /// Remember a number of the reply at hand.
    Save(u64, Num),
    /// Prepare an event for the next acknowledgement.
    AddEvent(ScriptEvent),
    /// Prepare a message for the worker.
    AddWork(Item),
    /// Prepare a message for the orchestrator.
    AddMessage(Item),
    /// Prepare the cancellation of an activity.
    AddCancelled(ScheduledActivityIdentifier),
    /// Prepare the metadata.
    SetMetadata(ExecutionMetadata),
    /// List an instance for the next request.
    AddId(&'static str),
    /// Skip so many steps where the reply at hand is nothing.
    SkipIfNothing(u64),
    /// Prepare a request that is made together with others: how long it waits
    /// at first, the request, for how long it goes on after it, and whether it
    /// is tried again after an error that allows it.
    Fork(Span, Call, Span, bool),
    /// Make the prepared requests together, after a common start or not.
    Join(bool),
    /// Put the reply at hand behind those that can be turned to.
    Shelve,
    /// Turn to the reply at this place among those made together or put aside.
    Pick(u64),
    /// Remember the token of the reply at hand.
    Keep(u64),
}

// ----------------------------------------------------------------------------
// Short forms
// ----------------------------------------------------------------------------
/// No time.
#[verifier::allow_in_spec]
pub fn zero() -> Span
    returns
        (Span { base: Base::Zero, tenths: 0, minus_ms: 0, plus_ms: 0 }),
{
    Span { base: Base::Zero, tenths: 0, minus_ms: 0, plus_ms: 0 }
}

/// So many milliseconds.
#[verifier::allow_in_spec]
pub fn millis(ms: u64) -> Span
    returns
        (Span { base: Base::Zero, tenths: 0, minus_ms: 0, plus_ms: ms }),
{
    Span { base: Base::Zero, tenths: 0, minus_ms: 0, plus_ms: ms }
}

/// The lock timeout.
#[verifier::allow_in_spec]
pub fn lock() -> Span
    returns
        (Span { base: Base::Lock, tenths: 10, minus_ms: 0, plus_ms: 0 }),
{
    Span { base: Base::Lock, tenths: 10, minus_ms: 0, plus_ms: 0 }
}

/// So many tenths of the lock timeout.
#[verifier::allow_in_spec]
pub fn lock_tenths(tenths: u8) -> Span
    returns
        (Span { base: Base::Lock, tenths, minus_ms: 0, plus_ms: 0 }),
{
    Span { base: Base::Lock, tenths, minus_ms: 0, plus_ms: 0 }
}

/// The lock timeout and so many milliseconds.
#[verifier::allow_in_spec]
pub fn lock_and(ms: u64) -> Span
    returns
        (Span { base: Base::Lock, tenths: 10, minus_ms: 0, plus_ms: ms }),
{
    Span { base: Base::Lock, tenths: 10, minus_ms: 0, plus_ms: ms }
}

/// What remains of the lock timeout after `minus_ms`, and `plus_ms` more.
#[verifier::allow_in_spec]
pub fn rest_of_lock(minus_ms: u64, plus_ms: u64) -> Span
    returns
        (Span { base: Base::Lock, tenths: 10, minus_ms, plus_ms }),
{
    Span { base: Base::Lock, tenths: 10, minus_ms, plus_ms }
}

/// The threshold for a store that does not wait for work.
#[verifier::allow_in_spec]
pub fn short_poll() -> Span
    returns
        (Span { base: Base::ShortPoll, tenths: 10, minus_ms: 0, plus_ms: 0 }),
{
    Span { base: Base::ShortPoll, tenths: 10, minus_ms: 0, plus_ms: 0 }
}

/// A fetch of a turn that does not wait.
#[verifier::allow_in_spec]
pub fn fetch_turn(lock_for: Span) -> Call
    returns
        Call::FetchTurn(lock_for, zero()),
{
    Call::FetchTurn(lock_for, zero())
}

/// A fetch of a work item that does not wait.
#[verifier::allow_in_spec]
pub fn fetch_work(lock_for: Span) -> Call
    returns
        Call::FetchWork(lock_for, zero()),
{
    Call::FetchWork(lock_for, zero())
}

/// A fetch of a turn under a lock of 30 seconds.
#[verifier::allow_in_spec]
pub fn turn() -> Call
    returns
        fetch_turn(millis(30_000)),
{
    fetch_turn(millis(30_000))
}

/// A fetch of a work item under a lock of 30 seconds.
#[verifier::allow_in_spec]
pub fn work() -> Call
    returns
        fetch_work(millis(30_000)),
{
    fetch_work(millis(30_000))
}

/// The message that starts an instance in its first execution.
#[verifier::allow_in_spec]
pub fn start_item(instance: &'static str) -> Item
    returns
        start_item_with_execution(instance, 1),
{
    start_item_with_execution(instance, 1)
}

/// The message that starts an execution of an instance.
#[verifier::allow_in_spec]
pub fn start_item_with_execution(instance: &'static str, execution_id: u64) -> Item
    returns
        Item::Start(instance, "TestOrch", "{}", Some("1.0.0"), None, None, execution_id),
{
    Item::Start(instance, "TestOrch", "{}", Some("1.0.0"), None, None, execution_id)
}

/// The message that starts an instance under a parent.
#[verifier::allow_in_spec]
pub fn start_child(instance: &'static str, parent: &'static str, parent_id: Option<u64>) -> Item
    returns
        Item::Start(instance, "TestOrch", "{}", Some("1.0.0"), Some(parent), parent_id, 1),
{
    Item::Start(instance, "TestOrch", "{}", Some("1.0.0"), Some(parent), parent_id, 1)
}

/// The message that makes an instance take another turn.
#[verifier::allow_in_spec]
pub fn poke_item(instance: &'static str) -> Item
    returns
        Item::Raised(instance, "poke", "{}"),
{
    Item::Raised(instance, "poke", "{}")
}

/// An activity of the first execution, without input.
#[verifier::allow_in_spec]
pub fn activity(instance: &'static str, id: u64, name: &'static str) -> Item
    returns
        Item::Activity(instance, 1, id, name, "{}"),
{
    Item::Activity(instance, 1, id, name, "{}")
}

/// A completion in the first execution.
#[verifier::allow_in_spec]
pub fn completed(instance: &'static str, id: u64, result: &'static str) -> Item
    returns
        Item::Completed(instance, 1, id, result),
{
    Item::Completed(instance, 1, id, result)
}

/// An event without a source.
#[verifier::allow_in_spec]
pub fn event(event_id: u64, instance: &'static str, execution_id: u64, fact: Fact) -> Step
    returns
        Step::AddEvent(
            ScriptEvent { event_id, instance, execution_id, source_event_id: None, fact },
        ),
{
    Step::AddEvent(ScriptEvent { event_id, instance, execution_id, source_event_id: None, fact })
}

/// The start of a root without input.
#[verifier::allow_in_spec]
pub fn started(name: &'static str, version: &'static str) -> Fact
    returns
        Fact::Started(name, version, "{}", None, None),
{
    Fact::Started(name, version, "{}", None, None)
}

/// No metadata.
#[verifier::allow_in_spec]
pub fn no_metadata() -> ExecutionMetadata
    returns
        (ExecutionMetadata {
            status: None,
            output: None,
            orchestration_name: None,
            orchestration_version: None,
            parent_instance_id: None,
        }),
{
    ExecutionMetadata {
        status: None,
        output: None,
        orchestration_name: None,
        orchestration_version: None,
        parent_instance_id: None,
    }
}

/// Metadata with a status, an output, a name and a version.
#[verifier::allow_in_spec]
pub fn metadata(
    status: Option<&'static str>,
    output: Option<&'static str>,
    name: Option<&'static str>,
    version: Option<&'static str>,
) -> Step
    returns
        Step::SetMetadata(
            ExecutionMetadata {
                status,
                output,
                orchestration_name: name,
                orchestration_version: version,
                parent_instance_id: None,
            },
        ),
{
    Step::SetMetadata(
        ExecutionMetadata {
            status,
            output,
            orchestration_name: name,
            orchestration_version: version,
            parent_instance_id: None,
        },
    )
}

/// The cancellation of an activity of the first execution.
#[verifier::allow_in_spec]
pub fn cancelled(instance: &'static str, activity_id: u64) -> Step
    returns
        Step::AddCancelled(
            ScheduledActivityIdentifier { instance, execution_id: 1, activity_id },
        ),
{
    Step::AddCancelled(ScheduledActivityIdentifier { instance, execution_id: 1, activity_id })
}

/// A test that a number is a given one.
#[verifier::allow_in_spec]
pub fn number_is(what: Num, n: u64) -> Step
    returns
        Step::Expect(Check::Number(what, Rel::Is, Operand::Literal(n))),
{
    Step::Expect(Check::Number(what, Rel::Is, Operand::Literal(n)))
}

/// A test that a number is at least a given one.
#[verifier::allow_in_spec]
pub fn at_least(what: Num, n: u64) -> Step
    returns
        Step::Expect(Check::Number(what, Rel::AtLeast, Operand::Literal(n))),
{
    Step::Expect(Check::Number(what, Rel::AtLeast, Operand::Literal(n)))
}

/// A test that a text is a given one.
#[verifier::allow_in_spec]
pub fn text_is(what: Txt, s: &'static str) -> Step
    returns
        Step::Expect(Check::Text(what, s)),
{
    Step::Expect(Check::Text(what, s))
}

/// The steps of `a` and then those of `b`.
pub fn chain(a: Vec<Step>, b: Vec<Step>) -> (r: Vec<Step>)
    ensures
        r@ == a@ + b@,
{
    let mut steps = a;
    let mut more = b;
    steps.append(&mut more);
    steps
}

// ----------------------------------------------------------------------------
// What a script stands for
// ----------------------------------------------------------------------------
/// A text that may be absent, by its characters.
pub open spec fn optional_chars(t: Option<&'static str>) -> Option<Seq<char>> {
    match t {
        Some(s) => Some(s@),
        None => None,
    }
}

/// A text that may be absent, by its characters.
pub open spec fn optional_string(t: Option<String>) -> Option<Seq<char>> {
    match t {
        Some(s) => Some(s@),
        None => None,
    }
}

/// An owned copy of a text that may be absent.
fn owned(t: Option<&'static str>) -> (r: Option<String>)
    ensures
        optional_string(r) == optional_chars(t),
{
    match t {
        Some(s) => Some(s.to_string()),
        None => None,
    }
}

/// `w` is the message that `item` stands for.
pub open spec fn is_message(w: WorkItem, item: Item) -> bool {
    match (w, item) {
        (
            WorkItem::StartOrchestration {
                instance,
                orchestration,
                input,
                version,
                parent_instance,
                parent_id,
                execution_id,
            },
            Item::Start(i, o, n, v, p, pid, e),
        ) => {
            &&& instance@ == i@
            &&& orchestration@ == o@
            &&& input@ == n@
            &&& optional_string(version) == optional_chars(v)
            &&& optional_string(parent_instance) == optional_chars(p)
            &&& parent_id == pid
            &&& execution_id == e
        },
        (
            WorkItem::ActivityExecute { instance, execution_id, id, name, input, session_id, tag },
            Item::Activity(i, e, d, n, p),
        ) => {
            &&& instance@ == i@
            &&& execution_id == e
            &&& id == d
            &&& name@ == n@
            &&& input@ == p@
            &&& session_id is None
            &&& tag is None
        },
        (
            WorkItem::ActivityCompleted { instance, execution_id, id, result },
            Item::Completed(i, e, d, x),
        ) => instance@ == i@ && execution_id == e && id == d && result@ == x@,
        (
            WorkItem::TimerFired { instance, execution_id, id, fire_at_ms },
            Item::Timer(i, e, d, t),
        ) => instance@ == i@ && execution_id == e && id == d && fire_at_ms == t,
        (WorkItem::ExternalRaised { instance, name, data }, Item::Raised(i, n, d)) => instance@
            == i@ && name@ == n@ && data@ == d@,
        (
            WorkItem::ContinueAsNew {
                instance,
                orchestration,
                input,
                version,
                carry_forward_events,
                initial_custom_status,
            },
            Item::Continue(i, o, n, v),
        ) => {
            &&& instance@ == i@
            &&& orchestration@ == o@
            &&& input@ == n@
            &&& optional_string(version) == Some(v@)
            &&& carry_forward_events@.len() == 0
            &&& initial_custom_status is None
        },
        _ => false,
    }
}

impl Item {
    /// The message that this stands for.
    pub fn message(&self) -> (r: WorkItem)
        ensures
            is_message(r, *self),
    {
        match *self {
            Item::Start(instance, orchestration, input, version, parent, parent_id, execution_id) => {
                WorkItem::StartOrchestration {
                    instance: instance.to_string(),
                    orchestration: orchestration.to_string(),
                    input: input.to_string(),
                    version: owned(version),
                    parent_instance: owned(parent),
                    parent_id,
                    execution_id,
                }
            },
            Item::Activity(instance, execution_id, id, name, input) => {
                WorkItem::ActivityExecute {
                    instance: instance.to_string(),
                    execution_id,
                    id,
                    name: name.to_string(),
                    input: input.to_string(),
                    session_id: None,
                    tag: None,
                }
            },
            Item::Completed(instance, execution_id, id, result) => {
                WorkItem::ActivityCompleted {
                    instance: instance.to_string(),
                    execution_id,
                    id,
                    result: result.to_string(),
                }
            },
            Item::Timer(instance, execution_id, id, fire_at_ms) => WorkItem::TimerFired {
                instance: instance.to_string(),
                execution_id,
                id,
                fire_at_ms,
            },
            Item::Raised(instance, name, data) => WorkItem::ExternalRaised {
                instance: instance.to_string(),
                name: name.to_string(),
                data: data.to_string(),
            },
            Item::Continue(instance, orchestration, input, version) => WorkItem::ContinueAsNew {
                instance: instance.to_string(),
                orchestration: orchestration.to_string(),
                input: input.to_string(),
                version: Some(version.to_string()),
                carry_forward_events: Vec::new(),
                initial_custom_status: None,
            },
        }
    }
}

/// `p` holds the texts of `q`.
pub open spec fn is_pair(p: (String, String), q: (&'static str, &'static str)) -> bool {
    p.0@ == q.0@ && p.1@ == q.1@
}

/// `kind` is what `fact` stands for.
pub open spec fn is_kind(kind: EventKind, fact: Fact) -> bool {
    match (kind, fact) {
        (
            EventKind::OrchestrationStarted {
                name,
                version,
                input,
                parent_instance,
                parent_id,
                carry_forward_events,
                initial_custom_status,
            },
            Fact::Started(n, v, i, p, pid),
        ) => {
            &&& name@ == n@
            &&& version@ == v@
            &&& input@ == i@
            &&& optional_string(parent_instance) == optional_chars(p)
            &&& parent_id == pid
            &&& carry_forward_events is None
            &&& initial_custom_status is None
        },
        (
            EventKind::OrchestrationStarted {
                name,
                version,
                input,
                parent_instance,
                parent_id,
                carry_forward_events,
                initial_custom_status,
            },
            Fact::StartedCarrying(n, v, i, a, b, c),
        ) => {
            &&& name@ == n@
            &&& version@ == v@
            &&& input@ == i@
            &&& parent_instance is None
            &&& parent_id is None
            &&& carry_forward_events matches Some(carried) && carried@.len() == 3 && is_pair(
                carried@[0],
                a,
            ) && is_pair(carried@[1], b) && is_pair(carried@[2], c)
            &&& initial_custom_status is None
        },
        (EventKind::OrchestrationCompleted { output }, Fact::Completed(o)) => output@ == o@,
        (EventKind::OrchestrationFailed { details }, Fact::Failed(m)) => {
            details matches ErrorDetails::Application { kind: k, message, retryable } && k
                is OrchestrationFailed && message@ == m@ && !retryable
        },
        (EventKind::OrchestrationContinuedAsNew { input }, Fact::Continued(i)) => input@ == i@,
        (
            EventKind::ActivityScheduled { name, input, session_id, tag },
            Fact::Scheduled(n, i),
        ) => name@ == n@ && input@ == i@ && session_id is None && tag is None,
        (EventKind::TimerCreated { fire_at_ms }, Fact::TimerCreated(t)) => fire_at_ms == t,
        (EventKind::ExternalEvent { name, data }, Fact::External(n, d)) => name@ == n@ && data@
            == d@,
        (EventKind::CustomStatusUpdated { status }, Fact::StatusUpdated(s)) => optional_string(
            status,
        ) == optional_chars(s),
        (EventKind::KeyValueSet { key, value, last_updated_at_ms }, Fact::KeySet(k, v, t)) => {
            key@ == k@ && value@ == v@ && last_updated_at_ms == t
        },
        _ => false,
    }
}

impl Fact {
    /// What this stands for.
    pub fn kind(&self) -> (r: EventKind)
        ensures
            is_kind(r, *self),
    {
        match *self {
            Fact::Started(name, version, input, parent, parent_id) => {
                EventKind::OrchestrationStarted {
                    name: name.to_string(),
                    version: version.to_string(),
                    input: input.to_string(),
                    parent_instance: owned(parent),
                    parent_id,
                    carry_forward_events: None,
                    initial_custom_status: None,
                }
            },
            Fact::StartedCarrying(name, version, input, a, b, c) => {
                EventKind::OrchestrationStarted {
                    name: name.to_string(),
                    version: version.to_string(),
                    input: input.to_string(),
                    parent_instance: None,
                    parent_id: None,
                    carry_forward_events: Some(
                        vec![
                            (a.0.to_string(), a.1.to_string()),
                            (b.0.to_string(), b.1.to_string()),
                            (c.0.to_string(), c.1.to_string()),
                        ],
                    ),
                    initial_custom_status: None,
                }
            },
            Fact::Completed(output) => EventKind::OrchestrationCompleted {
                output: output.to_string(),
            },
            Fact::Failed(message) => EventKind::OrchestrationFailed {
                details: ErrorDetails::Application {
                    kind: AppErrorKind::OrchestrationFailed,
                    message: message.to_string(),
                    retryable: false,
                },
            },
            Fact::Continued(input) => EventKind::OrchestrationContinuedAsNew {
                input: input.to_string(),
            },
            Fact::Scheduled(name, input) => EventKind::ActivityScheduled {
                name: name.to_string(),
                input: input.to_string(),
                session_id: None,
                tag: None,
            },
            Fact::TimerCreated(fire_at_ms) => EventKind::TimerCreated { fire_at_ms },
            Fact::External(name, data) => EventKind::ExternalEvent {
                name: name.to_string(),
                data: data.to_string(),
            },
            Fact::StatusUpdated(status) => EventKind::CustomStatusUpdated {
                status: owned(status),
            },
            Fact::KeySet(key, value, last_updated_at_ms) => EventKind::KeyValueSet {
                key: key.to_string(),
                value: value.to_string(),
                last_updated_at_ms,
            },
        }
    }
}

impl ScriptEvent {
    /// The event that this stands for, made at `timestamp_ms`.
    pub fn event(&self, timestamp_ms: u64) -> (r: Event)
        ensures
            r.instance_id@ == self.instance@,
            is_kind(r.kind, self.fact),
            event::is_event(
                r,
                self.event_id,
                r.instance_id,
                self.execution_id,
                self.source_event_id,
                r.kind,
                timestamp_ms,
            ),
    {
        Event::with_event_id_at(
            self.event_id,
            self.instance.to_string(),
            self.execution_id,
            self.source_event_id,
            self.fact.kind(),
            timestamp_ms,
        )
    }
}

/// The message of an item carries the item's own values, each in its place.
pub proof fn law_items_become_messages(
    instance: &'static str,
    name: &'static str,
    data: &'static str,
    version: Option<&'static str>,
    parent: Option<&'static str>,
    parent_id: Option<u64>,
    execution: u64,
    id: u64,
    wanted: &'static str,
)
    ensures
        forall|w: WorkItem| #[trigger]
            call_ensures(
                Item::message,
                (&Item::Start(instance, name, data, version, parent, parent_id, execution),),
                w,
            ) ==> (w matches WorkItem::StartOrchestration {
                instance: i,
                orchestration: o,
                input: n,
                version: v,
                parent_instance: p,
                parent_id: pid,
                execution_id: e,
            } && i@ == instance@ && o@ == name@ && n@ == data@ && same_text(v, version)
                && same_text(p, parent) && pid == parent_id && e == execution),
        forall|w: WorkItem| #[trigger]
            call_ensures(
                Item::message,
                (&Item::Activity(instance, execution, id, name, data),),
                w,
            ) ==> (w matches WorkItem::ActivityExecute {
                instance: i,
                execution_id: e,
                id: d,
                name: n,
                input: p,
                session_id: None,
                tag: None,
            } && i@ == instance@ && e == execution && d == id && n@ == name@ && p@ == data@),
        forall|w: WorkItem| #[trigger]
            call_ensures(Item::message, (&Item::Completed(instance, execution, id, data),), w) ==> (
            w matches WorkItem::ActivityCompleted { instance: i, execution_id: e, id: d, result: x }
                && i@ == instance@ && e == execution && d == id && x@ == data@),
        forall|w: WorkItem| #[trigger]
            call_ensures(Item::message, (&Item::Timer(instance, execution, id, execution),), w)
                ==> (w matches WorkItem::TimerFired {
                instance: i,
                execution_id: e,
                id: d,
                fire_at_ms: t,
            } && i@ == instance@ && e == execution && d == id && t == execution),
        forall|w: WorkItem| #[trigger]
            call_ensures(Item::message, (&Item::Raised(instance, name, data),), w) ==> (
            w matches WorkItem::ExternalRaised { instance: i, name: n, data: d } && i@ == instance@
                && n@ == name@ && d@ == data@),
        forall|w: WorkItem| #[trigger]
            call_ensures(Item::message, (&Item::Continue(instance, name, data, wanted),), w) ==> (
            w matches WorkItem::ContinueAsNew {
                instance: i,
                orchestration: o,
                input: n,
                version: Some(v),
                carry_forward_events: c,
                initial_custom_status: None,
            } && i@ == instance@ && o@ == name@ && n@ == data@ && v@ == wanted@ && c@.len() == 0),
{
}

/// Both texts are absent, or they are the same.
pub open spec fn same_text(t: Option<String>, s: Option<&'static str>) -> bool {
    match (t, s) {
        (Some(a), Some(b)) => a@ == b@,
        (None, None) => true,
        _ => false,
    }
}

/// What an event of a script records is what its fact says.
pub proof fn law_facts_become_kinds(
    name: &'static str,
    version: &'static str,
    text: &'static str,
    parent: Option<&'static str>,
    parent_id: Option<u64>,
    ms: u64,
)
    ensures
        forall|k: EventKind| #[trigger]
            call_ensures(Fact::kind, (&Fact::Started(name, version, text, parent, parent_id),), k)
                ==> (k matches EventKind::OrchestrationStarted {
                name: n,
                version: v,
                input: i,
                parent_instance: p,
                parent_id: pid,
                carry_forward_events: None,
                initial_custom_status: None,
            } && n@ == name@ && v@ == version@ && i@ == text@ && same_text(p, parent) && pid
                == parent_id),
        forall|k: EventKind| #[trigger]
            call_ensures(Fact::kind, (&Fact::Completed(text),), k) ==> (
            k matches EventKind::OrchestrationCompleted { output } && output@ == text@),
        forall|k: EventKind| #[trigger]
            call_ensures(Fact::kind, (&Fact::Failed(text),), k) ==> (
            k matches EventKind::OrchestrationFailed {
                details: ErrorDetails::Application {
                    kind: AppErrorKind::OrchestrationFailed,
                    message,
                    retryable,
                },
            } && message@ == text@ && !retryable),
        forall|k: EventKind| #[trigger]
            call_ensures(Fact::kind, (&Fact::Continued(text),), k) ==> (
            k matches EventKind::OrchestrationContinuedAsNew { input } && input@ == text@),
        forall|k: EventKind| #[trigger]
            call_ensures(Fact::kind, (&Fact::Scheduled(name, text),), k) ==> (
            k matches EventKind::ActivityScheduled { name: n, input: i, session_id: None, tag: None }
                && n@ == name@ && i@ == text@),
        forall|k: EventKind| #[trigger]
            call_ensures(Fact::kind, (&Fact::TimerCreated(ms),), k) ==> k == (
            EventKind::TimerCreated { fire_at_ms: ms }),
        forall|k: EventKind| #[trigger]
            call_ensures(Fact::kind, (&Fact::External(name, text),), k) ==> (
            k matches EventKind::ExternalEvent { name: n, data: d } && n@ == name@ && d@ == text@),
        forall|k: EventKind| #[trigger]
            call_ensures(Fact::kind, (&Fact::StatusUpdated(parent),), k) ==> (
            k matches EventKind::CustomStatusUpdated { status } && same_text(status, parent)),
        forall|k: EventKind| #[trigger]
            call_ensures(Fact::kind, (&Fact::KeySet(name, text, ms),), k) ==> (
            k matches EventKind::KeyValueSet { key, value, last_updated_at_ms } && key@ == name@
                && value@ == text@ && last_updated_at_ms == ms),
{
}

/// An event of a script becomes one at its own position, of its instance and execution,
/// that completes what it says it does, made at the given time.
pub proof fn law_script_events_become_events(e: &ScriptEvent, at: u64, r: Event)
    requires
        call_ensures(ScriptEvent::event, (e, at), r),
    ensures
        r.event_id == e.event_id,
        r.instance_id@ == e.instance@,
        r.execution_id == e.execution_id,
        r.source_event_id == e.source_event_id,
        r.timestamp_ms == at,
        e.fact matches Fact::Completed(text) ==> (r.kind matches EventKind::OrchestrationCompleted {
            output,
        } && output@ == text@),
        e.fact matches Fact::Scheduled(name, text) ==> (r.kind
            matches EventKind::ActivityScheduled { name: n, input: i, .. } && n@ == name@ && i@
            == text@),
{
}

/// The short forms stand for what they say.
pub proof fn law_short_forms(
    ms: u64,
    tenths: u8,
    less: u64,
    span: Span,
    instance: &'static str,
    name: &'static str,
    id: u64,
    result: &'static str,
    what: Num,
    text: Txt,
)
    ensures
        zero() == millis(0),
        millis(ms) == (Span { base: Base::Zero, tenths: 0, minus_ms: 0, plus_ms: ms }),
        lock() == lock_tenths(10),
        lock_and(ms) == (Span { plus_ms: ms, ..lock() }),
        rest_of_lock(less, ms) == (Span { minus_ms: less, ..lock_and(ms) }),
        lock_tenths(tenths) == (Span { base: Base::Lock, tenths, minus_ms: 0, plus_ms: 0 }),
        short_poll() == (Span { base: Base::ShortPoll, ..lock() }),
        fetch_turn(span) == Call::FetchTurn(span, millis(0)),
        fetch_work(span) == Call::FetchWork(span, millis(0)),
        turn() == fetch_turn(millis(30_000)),
        work() == fetch_work(millis(30_000)),
        start_item(instance) == Item::Start(
            instance,
            "TestOrch",
            "{}",
            Some("1.0.0"),
            None,
            None,
            1,
        ),
        start_item_with_execution(instance, id) == Item::Start(
            instance,
            "TestOrch",
            "{}",
            Some("1.0.0"),
            None,
            None,
            id,
        ),
        start_child(instance, name, Some(id)) == Item::Start(
            instance,
            "TestOrch",
            "{}",
            Some("1.0.0"),
            Some(name),
            Some(id),
            1,
        ),
        poke_item(instance) == Item::Raised(instance, "poke", "{}"),
        activity(instance, id, name) == Item::Activity(instance, 1, id, name, "{}"),
        completed(instance, id, result) == Item::Completed(instance, 1, id, result),
        started(name, result) == Fact::Started(name, result, "{}", None, None),
        event(id, instance, ms, started(name, result)) == Step::AddEvent(
            ScriptEvent {
                event_id: id,
                instance,
                execution_id: ms,
                source_event_id: None,
                fact: Fact::Started(name, result, "{}", None, None),
            },
        ),
        cancelled(instance, id) == Step::AddCancelled(
            ScheduledActivityIdentifier { instance, execution_id: 1, activity_id: id },
        ),
        number_is(what, ms) == Step::Expect(
            Check::Number(what, Rel::Is, Operand::Literal(ms)),
        ),
        at_least(what, ms) == Step::Expect(
            Check::Number(what, Rel::AtLeast, Operand::Literal(ms)),
        ),
        text_is(text, result) == Step::Expect(Check::Text(text, result)),
        metadata(Some(result), None, Some(name), None) == Step::SetMetadata(
            ExecutionMetadata {
                status: Some(result),
                output: None,
                orchestration_name: Some(name),
                orchestration_version: None,
                parent_instance_id: None,
            },
        ),
        no_metadata().status is None && no_metadata().output is None
            && no_metadata().orchestration_name is None
            && no_metadata().orchestration_version is None
            && no_metadata().parent_instance_id is None,
{
}

/// Chained scripts run one after the other.
pub proof fn law_scripts_are_chained(a: Vec<Step>, b: Vec<Step>, r: Vec<Step>, i: int)
    requires
        call_ensures(chain, (a, b), r),
        0 <= i < a@.len() + b@.len(),
    ensures
        r@.len() == a@.len() + b@.len(),
        i < a@.len() ==> r@[i] == a@[i],
        i >= a@.len() ==> r@[i] == b@[i - a@.len()],
{
}

} // verus!
