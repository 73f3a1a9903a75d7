//! What a store replies, and what can be read off a reply.
use crate::client::{self, to_lowercase};
use crate::context::SystemStats;
use crate::event::{Event, EventKind};
use crate::provider::{DeleteInstanceResult, ProviderError, PruneResult, WorkItem};
use crate::provider_validation::script::{EventSort, MessageSort, Num, Txt};
use crate::text::{self, contains, same_text};
use vstd::prelude::*;

verus! {

/// A turn that was fetched.
#[derive(Debug)]
pub struct OrchestrationItem {
    pub instance: String,
    pub orchestration_name: String,
    pub execution_id: u64,
    pub version: String,
    pub history: Vec<Event>,
    pub messages: Vec<WorkItem>,
}

/// What describes an instance.
#[derive(Debug)]
pub struct InstanceInfo {
    pub instance_id: String,
    pub orchestration_name: String,
    pub orchestration_version: String,
    pub current_execution_id: u64,
    pub status: String,
}

/// What describes an execution.
#[derive(Debug)]
pub struct ExecutionInfo {
    pub execution_id: u64,
    pub status: String,
    pub output: Option<String>,
}

/// An instance and its descendants.
#[derive(Debug)]
pub struct InstanceTree {
    pub root_id: String,
    /// The root and all its descendants.
    pub all_ids: Vec<String>,
}

impl InstanceTree {
    /// How many instances there are.
    pub fn size(&self) -> (r: usize)
        ensures
            r == self.all_ids@.len(),
    {
        self.all_ids.len()
    }

    /// Whether there is nothing but the root.
    pub fn is_root_only(&self) -> (r: bool)
        ensures
            r == (self.all_ids@.len() == 1),
    {
        self.all_ids.len() == 1
    }
}

/// What a store replies to a request.
#[derive(Debug)]
pub enum Reply {
    /// It failed.
    Failed(ProviderError),
    /// It has no management operations.
    NoManagement,
    /// It did what was asked.
    Done,
    /// There is nothing of the kind.
    Nothing,
    /// A turn, its lock token, and how often its messages were fetched.
    Turn(OrchestrationItem, String, u32),
    /// A work item, its lock token, and how often it was fetched.
    Work(WorkItem, String, u32),
    History(Vec<Event>),
    /// A custom status and its version.
    CustomStatus(Option<String>, u64),
    Stats(SystemStats),
    /// Instances.
    Names(Vec<String>),
    /// Executions.
    Executions(Vec<u64>),
    Instance(InstanceInfo),
    Execution(ExecutionInfo),
    /// The parent of an instance, if it has one.
    Parent(Option<String>),
    Tree(InstanceTree),
    /// How many instances and events there are.
    Metrics(u64, u64),
    /// How many messages wait for the orchestrator.
    Depths(u64),
    Deleted(DeleteInstanceResult),
    Pruned(PruneResult),
    /// The wall clock, in milliseconds since 1970.
    Clock(u64),
}

/// The request did not fail.
pub open spec fn succeeded(r: Reply) -> bool {
    !(r is Failed) && !(r is NoManagement)
}

/// The number that a reply shows, if it shows it.
pub open spec fn number_of(what: Num, r: Reply) -> Option<u64> {
    match (what, r) {
        (Num::Attempts, Reply::Turn(_, _, n)) => Some(n as u64),
        (Num::Attempts, Reply::Work(_, _, n)) => Some(n as u64),
        (Num::TurnExecution, Reply::Turn(item, _, _)) => Some(item.execution_id),
        (Num::TurnHistory, Reply::Turn(item, _, _)) => Some(item.history@.len() as u64),
        (Num::TurnMessages, Reply::Turn(item, _, _)) => Some(item.messages@.len() as u64),
        (Num::WorkId, Reply::Work(WorkItem::ActivityExecute { id, .. }, _, _)) => Some(id),
        (Num::History, Reply::History(h)) => Some(h@.len() as u64),
        (Num::History, Reply::Failed(_)) => Some(0),
        (Num::StatusVersion, Reply::CustomStatus(_, v)) => Some(v),
        (Num::StatsEvents, Reply::Stats(s)) => Some(s.history_event_count),
        (Num::StatsSize, Reply::Stats(s)) => Some(s.history_size_bytes),
        (Num::StatsPending, Reply::Stats(s)) => Some(s.queue_pending_count),
        (Num::StatsKeys, Reply::Stats(s)) => Some(s.kv_user_key_count),
        (Num::StatsValueBytes, Reply::Stats(s)) => Some(s.kv_total_value_bytes),
        (Num::Names, Reply::Names(v)) => Some(v@.len() as u64),
        (Num::Executions, Reply::Executions(v)) => Some(v@.len() as u64),
        (Num::FirstExecution, Reply::Executions(v)) => if v@.len() > 0 {
            Some(v@[0])
        } else {
            None
        },
        (Num::InfoExecution, Reply::Instance(i)) => Some(i.current_execution_id),
        (Num::ExecutionId, Reply::Execution(i)) => Some(i.execution_id),
        (Num::TotalInstances, Reply::Metrics(n, _)) => Some(n),
        (Num::TotalEvents, Reply::Metrics(_, n)) => Some(n),
        (Num::OrchestratorQueue, Reply::Depths(n)) => Some(n),
        (Num::TreeSize, Reply::Tree(t)) => Some(t.all_ids@.len() as u64),
        (Num::InstancesDeleted, Reply::Deleted(d)) => Some(d.instances_deleted),
        (Num::ExecutionsDeleted, Reply::Deleted(d)) => Some(d.executions_deleted),
        (Num::EventsDeleted, Reply::Deleted(d)) => Some(d.events_deleted),
        (Num::QueueMessagesDeleted, Reply::Deleted(d)) => Some(d.queue_messages_deleted),
        (Num::InstancesProcessed, Reply::Pruned(p)) => Some(p.instances_processed),
        (Num::ExecutionsPruned, Reply::Pruned(p)) => Some(p.executions_deleted),
        (Num::Clock, Reply::Clock(t)) => Some(t),
        _ => None,
    }
}

/// The number that a reply shows, if it shows it.
pub fn number(what: Num, r: &Reply) -> (n: Option<u64>)
    ensures
        n == number_of(what, *r),
{
    match (what, r) {
        (Num::Attempts, Reply::Turn(_, _, n)) => Some(*n as u64),
        (Num::Attempts, Reply::Work(_, _, n)) => Some(*n as u64),
        (Num::TurnExecution, Reply::Turn(item, _, _)) => Some(item.execution_id),
        (Num::TurnHistory, Reply::Turn(item, _, _)) => Some(item.history.len() as u64),
        (Num::TurnMessages, Reply::Turn(item, _, _)) => Some(item.messages.len() as u64),
        (Num::WorkId, Reply::Work(WorkItem::ActivityExecute { id, .. }, _, _)) => Some(*id),
        (Num::History, Reply::History(h)) => Some(h.len() as u64),
        (Num::History, Reply::Failed(_)) => Some(0),
        (Num::StatusVersion, Reply::CustomStatus(_, v)) => Some(*v),
        (Num::StatsEvents, Reply::Stats(s)) => Some(s.history_event_count),
        (Num::StatsSize, Reply::Stats(s)) => Some(s.history_size_bytes),
        (Num::StatsPending, Reply::Stats(s)) => Some(s.queue_pending_count),
        (Num::StatsKeys, Reply::Stats(s)) => Some(s.kv_user_key_count),
        (Num::StatsValueBytes, Reply::Stats(s)) => Some(s.kv_total_value_bytes),
        (Num::Names, Reply::Names(v)) => Some(v.len() as u64),
        (Num::Executions, Reply::Executions(v)) => Some(v.len() as u64),
        (Num::FirstExecution, Reply::Executions(v)) => if v.len() > 0 {
            Some(v[0])
        } else {
            None
        },
        (Num::InfoExecution, Reply::Instance(i)) => Some(i.current_execution_id),
        (Num::ExecutionId, Reply::Execution(i)) => Some(i.execution_id),
        (Num::TotalInstances, Reply::Metrics(n, _)) => Some(*n),
        (Num::TotalEvents, Reply::Metrics(_, n)) => Some(*n),
        (Num::OrchestratorQueue, Reply::Depths(n)) => Some(*n),
        (Num::TreeSize, Reply::Tree(t)) => Some(t.size() as u64),
        (Num::InstancesDeleted, Reply::Deleted(d)) => Some(d.instances_deleted),
        (Num::ExecutionsDeleted, Reply::Deleted(d)) => Some(d.executions_deleted),
        (Num::EventsDeleted, Reply::Deleted(d)) => Some(d.events_deleted),
        (Num::QueueMessagesDeleted, Reply::Deleted(d)) => Some(d.queue_messages_deleted),
        (Num::InstancesProcessed, Reply::Pruned(p)) => Some(p.instances_processed),
        (Num::ExecutionsPruned, Reply::Pruned(p)) => Some(p.executions_deleted),
        (Num::Clock, Reply::Clock(t)) => Some(*t),
        _ => None,
    }
}

/// The text that a reply shows: `None` where it shows no such text,
/// `Some(None)` where it shows that there is none.
pub open spec fn text_of(what: Txt, r: Reply) -> Option<Option<Seq<char>>> {
    match (what, r) {
        (Txt::TurnInstance, Reply::Turn(item, _, _)) => Some(Some(item.instance@)),
        (Txt::TurnOrchestration, Reply::Turn(item, _, _)) => Some(Some(item.orchestration_name@)),
        (Txt::TurnVersion, Reply::Turn(item, _, _)) => Some(Some(item.version@)),
        (Txt::WorkName, Reply::Work(WorkItem::ActivityExecute { name, .. }, _, _)) => Some(
            Some(name@),
        ),
        (Txt::FirstScheduled, Reply::History(h)) => if h@.len() > 0 {
            match h@[0].kind {
                EventKind::ActivityScheduled { name, .. } => Some(Some(name@)),
                _ => None,
            }
        } else {
            None
        },
        (Txt::CustomStatus, Reply::CustomStatus(s, _)) => Some(
            match s {
                Some(t) => Some(t@),
                None => None,
            },
        ),
        (Txt::InfoInstance, Reply::Instance(i)) => Some(Some(i.instance_id@)),
        (Txt::InfoOrchestration, Reply::Instance(i)) => Some(Some(i.orchestration_name@)),
        (Txt::InfoVersion, Reply::Instance(i)) => Some(Some(i.orchestration_version@)),
        (Txt::InfoStatus, Reply::Instance(i)) => Some(Some(i.status@)),
        (Txt::ExecutionStatus, Reply::Execution(i)) => Some(Some(i.status@)),
        (Txt::ExecutionOutput, Reply::Execution(i)) => Some(
            match i.output {
                Some(t) => Some(t@),
                None => None,
            },
        ),
        (Txt::Parent, Reply::Parent(p)) => Some(
            match p {
                Some(t) => Some(t@),
                None => None,
            },
        ),
        (Txt::TreeRoot, Reply::Tree(t)) => Some(Some(t.root_id@)),
        _ => None,
    }
}

/// A text that may be absent, as a slice.
fn slice(t: &Option<String>) -> (r: Option<&str>)
    ensures
        match (r, *t) {
            (Some(a), Some(b)) => a@ == b@,
            (None, None) => true,
            _ => false,
        },
{
    match t {
        Some(s) => Some(s.as_str()),
        None => None,
    }
}

/// The characters of what a text was read as.
pub open spec fn shown(t: Option<Option<&str>>) -> Option<Option<Seq<char>>> {
    match t {
        Some(Some(s)) => Some(Some(s@)),
        Some(None) => Some(None),
        None => None,
    }
}

/// The text that a reply shows.
pub fn text<'a>(what: Txt, r: &'a Reply) -> (t: Option<Option<&'a str>>)
    ensures
        shown(t) == text_of(what, *r),
{
    match (what, r) {
        (Txt::TurnInstance, Reply::Turn(item, _, _)) => Some(Some(item.instance.as_str())),
        (Txt::TurnOrchestration, Reply::Turn(item, _, _)) => Some(
            Some(item.orchestration_name.as_str()),
        ),
        (Txt::TurnVersion, Reply::Turn(item, _, _)) => Some(Some(item.version.as_str())),
        (Txt::WorkName, Reply::Work(WorkItem::ActivityExecute { name, .. }, _, _)) => Some(
            Some(name.as_str()),
        ),
        (Txt::FirstScheduled, Reply::History(h)) => if h.len() > 0 {
            match &h[0].kind {
                EventKind::ActivityScheduled { name, .. } => Some(Some(name.as_str())),
                _ => None,
            }
        } else {
            None
        },
        (Txt::CustomStatus, Reply::CustomStatus(s, _)) => Some(slice(s)),
        (Txt::InfoInstance, Reply::Instance(i)) => Some(Some(i.instance_id.as_str())),
        (Txt::InfoOrchestration, Reply::Instance(i)) => Some(Some(i.orchestration_name.as_str())),
        (Txt::InfoVersion, Reply::Instance(i)) => Some(Some(i.orchestration_version.as_str())),
        (Txt::InfoStatus, Reply::Instance(i)) => Some(Some(i.status.as_str())),
        (Txt::ExecutionStatus, Reply::Execution(i)) => Some(Some(i.status.as_str())),
        (Txt::ExecutionOutput, Reply::Execution(i)) => Some(slice(&i.output)),
        (Txt::Parent, Reply::Parent(p)) => Some(slice(p)),
        (Txt::TreeRoot, Reply::Tree(t)) => Some(Some(t.root_id.as_str())),
        _ => None,
    }
}

/// The names that a reply lists.
pub open spec fn names_of(r: Reply) -> Option<Seq<String>> {
    match r {
        Reply::Names(v) => Some(v@),
        Reply::Tree(t) => Some(t.all_ids@),
        _ => None,
    }
}

/// One of the names is `name`.
pub open spec fn lists(names: Seq<String>, name: Seq<char>) -> bool {
    exists|i: int| 0 <= i < names.len() && (#[trigger] names[i])@ == name
}

/// Whether one of the names is `name`.
pub fn is_listed(names: &Vec<String>, name: &str) -> (r: bool)
    ensures
        r == lists(names@, name@),
{
    let mut i: usize = 0;
    while i < names.len()
        invariant
            i <= names@.len(),
            forall|k: int| 0 <= k < i ==> (#[trigger] names@[k])@ != name@,
        decreases names@.len() - i,
    {
        if same_text(names[i].as_str(), name) {
            assert(names@[i as int]@ == name@);
            return true;
        }
        i += 1;
    }
    false
}

/// The event is of this sort.
pub open spec fn event_is(e: Event, sort: EventSort) -> bool {
    match sort {
        EventSort::Started => e.kind is OrchestrationStarted,
        EventSort::Scheduled => e.kind is ActivityScheduled,
        EventSort::Completed => e.kind is OrchestrationCompleted,
    }
}

/// Whether the event is of this sort.
pub fn is_event_of(e: &Event, sort: EventSort) -> (r: bool)
    ensures
        r == event_is(*e, sort),
{
    match sort {
        EventSort::Started => matches!(e.kind, EventKind::OrchestrationStarted { .. }),
        EventSort::Scheduled => matches!(e.kind, EventKind::ActivityScheduled { .. }),
        EventSort::Completed => matches!(e.kind, EventKind::OrchestrationCompleted { .. }),
    }
}

/// The message is of this sort.
pub open spec fn message_is(w: WorkItem, sort: MessageSort) -> bool {
    match sort {
        MessageSort::Timer => w is TimerFired,
        MessageSort::Raised => w is ExternalRaised,
        MessageSort::Completed(id) => w matches WorkItem::ActivityCompleted { id: i, .. } && i
            == id,
    }
}

/// Whether the message is of this sort.
pub fn is_message_of(w: &WorkItem, sort: MessageSort) -> (r: bool)
    ensures
        r == message_is(*w, sort),
{
    match (sort, w) {
        (MessageSort::Timer, WorkItem::TimerFired { .. }) => true,
        (MessageSort::Raised, WorkItem::ExternalRaised { .. }) => true,
        (MessageSort::Completed(id), WorkItem::ActivityCompleted { id: i, .. }) => *i == id,
        _ => false,
    }
}

/// The activities that the messages complete, in their order.
pub open spec fn completed_ids(messages: Seq<WorkItem>) -> Seq<u64>
    decreases messages.len(),
{
    if messages.len() == 0 {
        Seq::empty()
    } else {
        let before = completed_ids(messages.drop_last());
        match messages.last() {
            WorkItem::ActivityCompleted { id, .. } => before.push(id),
            _ => before,
        }
    }
}

/// The numbers from `first` to `last`.
pub open spec fn row(first: u64, last: u64) -> Seq<u64> {
    if first <= last {
        Seq::new((last - first + 1) as nat, |i: int| (first + i) as u64)
    } else {
        Seq::empty()
    }
}

/// Whether the messages complete the activities from `first` to `last`, in
/// this order, and no others.
pub fn completes_row(messages: &Vec<WorkItem>, first: u64, last: u64) -> (r: bool)
    requires
        first <= last < u64::MAX,
    ensures
        r == (completed_ids(messages@) == row(first, last)),
{
    let mut next: u64 = first;
    let mut i: usize = 0;
    let ghost whole = row(first, last);
    assert(messages@.take(0) =~= Seq::empty());
    assert(whole.take(0) =~= Seq::empty());
    while i < messages.len()
        invariant
            i <= messages@.len(),
            first <= next <= last + 1,
            last < u64::MAX,
            whole == row(first, last),
            completed_ids(messages@.take(i as int)) == whole.take(next - first),
        decreases messages@.len() - i,
    {
        proof {
            let t = messages@.take(i + 1);
            assert(t.drop_last() =~= messages@.take(i as int));
            assert(t.last() == messages@[i as int]);
        }
        if let WorkItem::ActivityCompleted { id, .. } = &messages[i] {
            if next > last || *id != next {
                proof {
                    let at = next - first;
                    let t = messages@.take(i + 1);
                    assert(completed_ids(t) == whole.take(at).push(*id));
                    assert(completed_ids(t)[at] == *id);
                    lemma_completed_prefix(messages@, i + 1);
                    if completed_ids(messages@) == whole {
                        assert(whole[at] == completed_ids(t)[at]);
                    }
                }
                return false;
            }
            assert(whole.take(next - first + 1) =~= whole.take(next - first).push(*id));
            next = next + 1;
        }
        i += 1;
    }
    assert(messages@.take(i as int) =~= messages@);
    proof {
        assert(completed_ids(messages@) == whole.take(next - first));
        if next == last + 1 {
            assert(whole.take(next - first) =~= whole);
        } else {
            assert(whole.take(next - first).len() < whole.len());
        }
    }
    next == last + 1
}

/// What the first messages complete is how the whole begins.
proof fn lemma_completed_prefix(messages: Seq<WorkItem>, n: int)
    requires
        0 <= n <= messages.len(),
    ensures
        completed_ids(messages.take(n)).len() <= completed_ids(messages).len(),
        forall|k: int|
            0 <= k < completed_ids(messages.take(n)).len() ==> completed_ids(messages)[k]
                == #[trigger] completed_ids(messages.take(n))[k],
    decreases messages.len(),
{
    if n == messages.len() {
        assert(messages.take(n) =~= messages);
    } else {
        lemma_completed_prefix(messages.drop_last(), n);
        assert(messages.drop_last().take(n) =~= messages.take(n));
    }
}

/// The message completes an activity with a result that holds `s`.
pub open spec fn completion_says(w: WorkItem, s: Seq<char>) -> bool {
    w matches WorkItem::ActivityCompleted { result, .. } && text::has_substring(result@, s)
}

/// One of the messages completes an activity with a result that holds `s`.
pub open spec fn completes_saying(messages: Seq<WorkItem>, s: Seq<char>) -> bool {
    exists|i: int| 0 <= i < messages.len() && #[trigger] completion_says(messages[i], s)
}

/// Whether one of the messages completes an activity with a result that holds
/// `s`.
pub fn has_completion_saying(messages: &Vec<WorkItem>, s: &str) -> (r: bool)
    ensures
        r == completes_saying(messages@, s@),
{
    let mut i: usize = 0;
    while i < messages.len()
        invariant
            i <= messages@.len(),
            forall|k: int| 0 <= k < i ==> !(#[trigger] completion_says(messages@[k], s@)),
        decreases messages@.len() - i,
    {
        if let WorkItem::ActivityCompleted { result, .. } = &messages[i] {
            if contains(result.as_str(), s) {
                assert(completion_says(messages@[i as int], s@));
                return true;
            }
        }
        i += 1;
    }
    false
}

/// One of the executions is `a` or `b`.
pub open spec fn has_either(v: Seq<u64>, a: u64, b: u64) -> bool {
    v.contains(a) || v.contains(b)
}

/// Whether one of the executions is `a` or `b`.
pub fn holds_either(v: &Vec<u64>, a: u64, b: u64) -> (r: bool)
    ensures
        r == has_either(v@, a, b),
{
    let mut i: usize = 0;
    while i < v.len()
        invariant
            i <= v@.len(),
            forall|k: int| 0 <= k < i ==> (#[trigger] v@[k]) != a && v@[k] != b,
        decreases v@.len() - i,
    {
        if v[i] == a || v[i] == b {
            assert(v@.contains(v@[i as int]));
            return true;
        }
        i += 1;
    }
    false
}

/// The text of an error, in lower case, holds one of these.
pub open spec fn says(lower: Seq<char>, a: Seq<char>, b: Seq<char>, c: Seq<char>) -> bool {
    text::has_substring(lower, a) || text::has_substring(lower, b) || text::has_substring(lower, c)
}

/// Whether a text, already in lower case, holds one of these.
pub fn holds_one(lower: &str, a: &str, b: &str, c: &str) -> (r: bool)
    ensures
        r == says(lower@, a@, b@, c@),
{
    contains(lower, a) || contains(lower, b) || contains(lower, c)
}

/// Whether the text of an error, whatever its case, holds one of these.
pub fn error_says(e: &ProviderError, a: &str, b: &str, c: &str) -> (r: bool)
    ensures
        r == says(client::lowercased(e.text@), a@, b@, c@),
{
    let lower = to_lowercase(e.text.as_str());
    holds_one(lower.as_str(), a, b, c)
}

/// The turns that were got together.
pub open spec fn turns(group: Seq<Reply>) -> Seq<Seq<char>>
    decreases group.len(),
{
    if group.len() == 0 {
        Seq::empty()
    } else {
        let before = turns(group.drop_last());
        match group.last() {
            Reply::Turn(item, _, _) => before.push(item.instance@),
            _ => before,
        }
    }
}

/// How many different ones there are.
pub open spec fn distinct<A>(s: Seq<A>) -> nat
    decreases s.len(),
{
    if s.len() == 0 {
        0
    } else if s.drop_last().contains(s.last()) {
        distinct(s.drop_last())
    } else {
        distinct(s.drop_last()) + 1
    }
}

/// How many replies of a group satisfy `f`.
pub open spec fn count(group: Seq<Reply>, f: spec_fn(Reply) -> bool) -> nat
    decreases group.len(),
{
    if group.len() == 0 {
        0
    } else {
        count(group.drop_last(), f) + if f(group.last()) {
            1nat
        } else {
            0nat
        }
    }
}

/// The number that a group of replies shows, if it shows it.
pub open spec fn group_number_of(what: Num, group: Seq<Reply>) -> Option<u64> {
    match what {
        Num::GroupDone => Some(count(group, |r: Reply| r is Done) as u64),
        Num::GroupFailed => Some(count(group, |r: Reply| r is Failed) as u64),
        Num::GroupNothing => Some(count(group, |r: Reply| r is Nothing) as u64),
        Num::GroupTurns => Some(count(group, |r: Reply| r is Turn) as u64),
        Num::GroupInstances => Some(distinct(turns(group)) as u64),
        _ => None,
    }
}

/// What the replies of a group are.
#[derive(Debug, Clone, Copy)]
struct Census {
    done: u64,
    failed: u64,
    nothing: u64,
    turns: u64,
}

fn census(group: &Vec<Reply>) -> (r: Census)
    ensures
        r.done == count(group@, |r: Reply| r is Done),
        r.failed == count(group@, |r: Reply| r is Failed),
        r.nothing == count(group@, |r: Reply| r is Nothing),
        r.turns == count(group@, |r: Reply| r is Turn),
{
    let mut c = Census { done: 0, failed: 0, nothing: 0, turns: 0 };
    let mut i: usize = 0;
    let ghost f1 = |r: Reply| r is Done;
    let ghost f2 = |r: Reply| r is Failed;
    let ghost f3 = |r: Reply| r is Nothing;
    let ghost f4 = |r: Reply| r is Turn;
    assert(group@.take(0) =~= Seq::empty());
    while i < group.len()
        invariant
            i <= group@.len(),
            f1 == |r: Reply| r is Done,
            f2 == |r: Reply| r is Failed,
            f3 == |r: Reply| r is Nothing,
            f4 == |r: Reply| r is Turn,
            c.done == count(group@.take(i as int), f1),
            c.failed == count(group@.take(i as int), f2),
            c.nothing == count(group@.take(i as int), f3),
            c.turns == count(group@.take(i as int), f4),
            c.done <= i,
            c.failed <= i,
            c.nothing <= i,
            c.turns <= i,
        decreases group@.len() - i,
    {
        proof {
            let t = group@.take(i + 1);
            assert(t.drop_last() =~= group@.take(i as int));
            assert(t.last() == group@[i as int]);
        }
        match &group[i] {
            Reply::Done => {
                c.done = c.done + 1;
            },
            Reply::Failed(_) => {
                c.failed = c.failed + 1;
            },
            Reply::Nothing => {
                c.nothing = c.nothing + 1;
            },
            Reply::Turn(_, _, _) => {
                c.turns = c.turns + 1;
            },
            _ => {},
        }
        i += 1;
    }
    assert(group@.take(i as int) =~= group@);
    c
}

fn count_instances(group: &Vec<Reply>) -> (r: u64)
    ensures
        r == distinct(turns(group@)),
{
    let mut n: u64 = 0;
    let mut i: usize = 0;
    let mut seen: Vec<String> = Vec::new();
    assert(group@.take(0) =~= Seq::empty());
    assert(views(seen@) =~= Seq::empty());
    while i < group.len()
        invariant
            i <= group@.len(),
            n <= i,
            views(seen@) == turns(group@.take(i as int)),
            n == distinct(turns(group@.take(i as int))),
        decreases group@.len() - i,
    {
        proof {
            let t = group@.take(i + 1);
            assert(t.drop_last() =~= group@.take(i as int));
            assert(t.last() == group@[i as int]);
        }
        if let Reply::Turn(item, _, _) = &group[i] {
            let known = is_listed(&seen, item.instance.as_str());
            proof {
                let before = turns(group@.take(i as int));
                let after = turns(group@.take(i + 1));
                assert(after == before.push(item.instance@));
                assert(after.drop_last() =~= before);
                assert(known == before.contains(item.instance@)) by {
                    if known {
                        let k = choose|k: int|
                            0 <= k < seen@.len() && (#[trigger] seen@[k])@ == item.instance@;
                        assert(before[k] == item.instance@);
                    }
                    if before.contains(item.instance@) {
                        let k = choose|k: int|
                            0 <= k < before.len() && before[k] == item.instance@;
                        assert(seen@[k]@ == item.instance@);
                    }
                }
            }
            if !known {
                n = n + 1;
            }
            seen.push(item.instance.clone());
            assert(views(seen@) =~= turns(group@.take(i as int)).push(item.instance@));
        }
        i += 1;
    }
    assert(group@.take(i as int) =~= group@);
    n
}

/// The characters of texts.
spec fn views(texts: Seq<String>) -> Seq<Seq<char>> {
    texts.map_values(|s: String| s@)
}

/// Every turn that was got together is of this instance.
pub open spec fn turns_are(group: Seq<Reply>, instance: Seq<char>) -> bool {
    forall|i: int|
        0 <= i < group.len() ==> (#[trigger] group[i] matches Reply::Turn(item, _, _)
            ==> item.instance@ == instance)
}

/// Whether every turn that was got together is of this instance.
pub fn turns_all_of(group: &Vec<Reply>, instance: &str) -> (r: bool)
    ensures
        r == turns_are(group@, instance@),
{
    let mut i: usize = 0;
    while i < group.len()
        invariant
            i <= group@.len(),
            turns_are(group@.take(i as int), instance@),
        decreases group@.len() - i,
    {
        if let Reply::Turn(item, _, _) = &group[i] {
            if !same_text(item.instance.as_str(), instance) {
                assert(group@[i as int] is Turn);
                return false;
            }
        }
        proof {
            let t = group@.take(i + 1);
            assert forall|k: int| 0 <= k < t.len() implies (#[trigger] t[k] matches Reply::Turn(
                item,
                _,
                _,
            ) ==> item.instance@ == instance@) by {
                if k < i {
                    assert(t[k] == group@.take(i as int)[k]);
                }
            }
        }
        i += 1;
    }
    assert(group@.take(i as int) =~= group@);
    true
}

/// The number that a group of replies shows, if it shows it.
pub fn group_number(what: Num, group: &Vec<Reply>) -> (n: Option<u64>)
    ensures
        n == group_number_of(what, group@),
{
    let c = census(group);
    match what {
        Num::GroupDone => Some(c.done),
        Num::GroupFailed => Some(c.failed),
        Num::GroupNothing => Some(c.nothing),
        Num::GroupTurns => Some(c.turns),
        Num::GroupInstances => Some(count_instances(group)),
        _ => None,
    }
}

/// A reply shows the number that is asked for, out of the field that holds it.
pub proof fn law_a_reply_shows_its_numbers(
    item: OrchestrationItem,
    token: String,
    n: u32,
    error: ProviderError,
    status: Option<String>,
    stats: SystemStats,
    info: InstanceInfo,
    execution: ExecutionInfo,
    tree: InstanceTree,
    deleted: DeleteInstanceResult,
    pruned: PruneResult,
    a: u64,
    b: u64,
)
    ensures
        forall|r: Option<u64>| #[trigger]
            call_ensures(number, (Num::Attempts, &Reply::Turn(item, token, n)), r)
                ==> r == Some(n as u64),
        forall|r: Option<u64>| #[trigger]
            call_ensures(number, (Num::TurnExecution, &Reply::Turn(item, token, n)), r)
                ==> r == Some(item.execution_id),
        forall|r: Option<u64>| #[trigger]
            call_ensures(number, (Num::TurnHistory, &Reply::Turn(item, token, n)), r)
                ==> r == Some(item.history@.len() as u64),
        forall|r: Option<u64>| #[trigger]
            call_ensures(number, (Num::TurnMessages, &Reply::Turn(item, token, n)), r)
                ==> r == Some(item.messages@.len() as u64),
        forall|r: Option<u64>| #[trigger]
            call_ensures(number, (Num::History, &Reply::Failed(error)), r) ==> r == Some(0u64),
        forall|r: Option<u64>| #[trigger]
            call_ensures(number, (Num::StatusVersion, &Reply::CustomStatus(status, a)), r)
                ==> r == Some(a),
        forall|r: Option<u64>| #[trigger]
            call_ensures(number, (Num::StatsEvents, &Reply::Stats(stats)), r)
                ==> r == Some(stats.history_event_count),
        forall|r: Option<u64>| #[trigger]
            call_ensures(number, (Num::StatsSize, &Reply::Stats(stats)), r)
                ==> r == Some(stats.history_size_bytes),
        forall|r: Option<u64>| #[trigger]
            call_ensures(number, (Num::StatsPending, &Reply::Stats(stats)), r)
                ==> r == Some(stats.queue_pending_count),
        forall|r: Option<u64>| #[trigger]
            call_ensures(number, (Num::StatsKeys, &Reply::Stats(stats)), r)
                ==> r == Some(stats.kv_user_key_count),
        forall|r: Option<u64>| #[trigger]
            call_ensures(number, (Num::StatsValueBytes, &Reply::Stats(stats)), r)
                ==> r == Some(stats.kv_total_value_bytes),
        forall|r: Option<u64>| #[trigger]
            call_ensures(number, (Num::InfoExecution, &Reply::Instance(info)), r)
                ==> r == Some(info.current_execution_id),
        forall|r: Option<u64>| #[trigger]
            call_ensures(number, (Num::ExecutionId, &Reply::Execution(execution)), r)
                ==> r == Some(execution.execution_id),
        forall|r: Option<u64>| #[trigger]
            call_ensures(number, (Num::TotalInstances, &Reply::Metrics(a, b)), r) ==> r == Some(a),
        forall|r: Option<u64>| #[trigger]
            call_ensures(number, (Num::TotalEvents, &Reply::Metrics(a, b)), r) ==> r == Some(b),
        forall|r: Option<u64>| #[trigger]
            call_ensures(number, (Num::OrchestratorQueue, &Reply::Depths(a)), r) ==> r == Some(a),
        forall|r: Option<u64>| #[trigger]
            call_ensures(number, (Num::TreeSize, &Reply::Tree(tree)), r)
                ==> r == Some(tree.all_ids@.len() as u64),
        forall|r: Option<u64>| #[trigger]
            call_ensures(number, (Num::InstancesDeleted, &Reply::Deleted(deleted)), r)
                ==> r == Some(deleted.instances_deleted),
        forall|r: Option<u64>| #[trigger]
            call_ensures(number, (Num::ExecutionsDeleted, &Reply::Deleted(deleted)), r)
                ==> r == Some(deleted.executions_deleted),
        forall|r: Option<u64>| #[trigger]
            call_ensures(number, (Num::EventsDeleted, &Reply::Deleted(deleted)), r)
                ==> r == Some(deleted.events_deleted),
        forall|r: Option<u64>| #[trigger]
            call_ensures(number, (Num::QueueMessagesDeleted, &Reply::Deleted(deleted)), r)
                ==> r == Some(deleted.queue_messages_deleted),
        forall|r: Option<u64>| #[trigger]
            call_ensures(number, (Num::InstancesProcessed, &Reply::Pruned(pruned)), r)
                ==> r == Some(pruned.instances_processed),
        forall|r: Option<u64>| #[trigger]
            call_ensures(number, (Num::ExecutionsPruned, &Reply::Pruned(pruned)), r)
                ==> r == Some(pruned.executions_deleted),
        forall|r: Option<u64>| #[trigger]
            call_ensures(number, (Num::Clock, &Reply::Clock(a)), r) ==> r == Some(a),
{
}

/// A reply that lists shows how long its list is, and the first of it; a work item shows
/// how often it was fetched, and the activity that it is for.
pub proof fn law_a_reply_shows_its_lists(
    history: Vec<Event>,
    names: Vec<String>,
    executions: Vec<u64>,
    work: WorkItem,
    token: String,
    n: u32,
)
    ensures
        forall|r: Option<u64>| #[trigger]
            call_ensures(number, (Num::History, &Reply::History(history)), r) ==> r == Some(
                history@.len() as u64,
            ),
        forall|r: Option<u64>| #[trigger]
            call_ensures(number, (Num::Names, &Reply::Names(names)), r) ==> r == Some(
                names@.len() as u64,
            ),
        forall|r: Option<u64>| #[trigger]
            call_ensures(number, (Num::Executions, &Reply::Executions(executions)), r) ==> r
                == Some(executions@.len() as u64),
        forall|r: Option<u64>| #[trigger]
            call_ensures(number, (Num::FirstExecution, &Reply::Executions(executions)), r) ==> r
                == (if executions@.len() > 0 {
                Some(executions@[0])
            } else {
                None
            }),
        forall|r: Option<u64>| #[trigger]
            call_ensures(number, (Num::Attempts, &Reply::Work(work, token, n)), r) ==> r == Some(
                n as u64,
            ),
        forall|r: Option<u64>| #[trigger]
            call_ensures(number, (Num::WorkId, &Reply::Work(work, token, n)), r) ==> match work {
                WorkItem::ActivityExecute { id, .. } => r == Some(id),
                _ => r is None,
            },
        forall|what: Num, r: Option<u64>| #[trigger]
            call_ensures(number, (what, &Reply::Nothing), r) ==> r is None,
        forall|what: Num, r: Option<u64>| #[trigger]
            call_ensures(number, (what, &Reply::Done), r) ==> r is None,
{
}

/// The text that was read is this one.
pub open spec fn reads(t: Option<Option<&str>>, s: Seq<char>) -> bool {
    t matches Some(Some(x)) && x@ == s
}

/// The text that was read is this one, or is absent as this one is.
pub open spec fn reads_optional(t: Option<Option<&str>>, s: Option<String>) -> bool {
    match (t, s) {
        (Some(Some(x)), Some(y)) => x@ == y@,
        (Some(None), None) => true,
        _ => false,
    }
}

/// A reply shows the text that is asked for, out of the field that holds it.
pub proof fn law_a_reply_shows_its_texts(
    item: OrchestrationItem,
    token: String,
    n: u32,
    work: WorkItem,
    status: Option<String>,
    a: u64,
    info: InstanceInfo,
    execution: ExecutionInfo,
    parent: Option<String>,
    tree: InstanceTree,
    history: Vec<Event>,
)
    ensures
        forall|t: Option<Option<&str>>| #[trigger]
            call_ensures(text, (Txt::TurnInstance, &Reply::Turn(item, token, n)), t)
                ==> reads(t, item.instance@),
        forall|t: Option<Option<&str>>| #[trigger]
            call_ensures(text, (Txt::TurnOrchestration, &Reply::Turn(item, token, n)), t)
                ==> reads(t, item.orchestration_name@),
        forall|t: Option<Option<&str>>| #[trigger]
            call_ensures(text, (Txt::TurnVersion, &Reply::Turn(item, token, n)), t)
                ==> reads(t, item.version@),
        forall|t: Option<Option<&str>>| #[trigger]
            call_ensures(text, (Txt::CustomStatus, &Reply::CustomStatus(status, a)), t)
                ==> reads_optional(t, status),
        forall|t: Option<Option<&str>>| #[trigger]
            call_ensures(text, (Txt::InfoInstance, &Reply::Instance(info)), t)
                ==> reads(t, info.instance_id@),
        forall|t: Option<Option<&str>>| #[trigger]
            call_ensures(text, (Txt::InfoOrchestration, &Reply::Instance(info)), t)
                ==> reads(t, info.orchestration_name@),
        forall|t: Option<Option<&str>>| #[trigger]
            call_ensures(text, (Txt::InfoVersion, &Reply::Instance(info)), t)
                ==> reads(t, info.orchestration_version@),
        forall|t: Option<Option<&str>>| #[trigger]
            call_ensures(text, (Txt::InfoStatus, &Reply::Instance(info)), t)
                ==> reads(t, info.status@),
        forall|t: Option<Option<&str>>| #[trigger]
            call_ensures(text, (Txt::ExecutionStatus, &Reply::Execution(execution)), t)
                ==> reads(t, execution.status@),
        forall|t: Option<Option<&str>>| #[trigger]
            call_ensures(text, (Txt::ExecutionOutput, &Reply::Execution(execution)), t)
                ==> reads_optional(t, execution.output),
        forall|t: Option<Option<&str>>| #[trigger]
            call_ensures(text, (Txt::Parent, &Reply::Parent(parent)), t)
                ==> reads_optional(t, parent),
        forall|t: Option<Option<&str>>| #[trigger]
            call_ensures(text, (Txt::TreeRoot, &Reply::Tree(tree)), t) ==> reads(t, tree.root_id@),
        forall|t: Option<Option<&str>>| #[trigger]
            call_ensures(text, (Txt::WorkName, &Reply::Work(work, token, n)), t) ==> match work {
                WorkItem::ActivityExecute { name, .. } => reads(t, name@),
                _ => t is None,
            },
        forall|t: Option<Option<&str>>| #[trigger]
            call_ensures(text, (Txt::FirstScheduled, &Reply::History(history)), t) ==> (
            history@.len() > 0 ==> match history@[0].kind {
                EventKind::ActivityScheduled { name, .. } => reads(t, name@),
                _ => t is None,
            }) && (history@.len() == 0 ==> t is None),
{
}

/// Sorts of events and messages are told apart by their variants, and a completion also
/// by the activity that it completes.
pub proof fn law_sorts_are_told_apart(e: &Event, w: &WorkItem, id: u64)
    ensures
        forall|r: bool| #[trigger]
            call_ensures(is_event_of, (e, EventSort::Started), r) ==> (r <==> e.kind
                is OrchestrationStarted),
        forall|r: bool| #[trigger]
            call_ensures(is_event_of, (e, EventSort::Scheduled), r) ==> (r <==> e.kind
                is ActivityScheduled),
        forall|r: bool| #[trigger]
            call_ensures(is_event_of, (e, EventSort::Completed), r) ==> (r <==> e.kind
                is OrchestrationCompleted),
        forall|r: bool| #[trigger]
            call_ensures(is_message_of, (w, MessageSort::Timer), r) ==> (r <==> *w is TimerFired),
        forall|r: bool| #[trigger]
            call_ensures(is_message_of, (w, MessageSort::Raised), r) ==> (r <==> *w
                is ExternalRaised),
        forall|r: bool| #[trigger]
            call_ensures(is_message_of, (w, MessageSort::Completed(id)), r) ==> (r <==> (
            *w matches WorkItem::ActivityCompleted { id: i, .. } && i == id)),
{
}

/// Lists are searched through to their ends.
pub proof fn law_lists_are_searched(
    names: &Vec<String>,
    name: &str,
    listed: bool,
    executions: &Vec<u64>,
    a: u64,
    b: u64,
    either: bool,
    i: int,
)
    requires
        call_ensures(is_listed, (names, name), listed),
        call_ensures(holds_either, (executions, a, b), either),
    ensures
        0 <= i < names@.len() && names@[i]@ == name@ ==> listed,
        listed ==> exists|j: int| 0 <= j < names@.len() && (#[trigger] names@[j])@ == name@,
        0 <= i < executions@.len() && (executions@[i] == a || executions@[i] == b) ==> either,
        either ==> exists|j: int|
            0 <= j < executions@.len() && ((#[trigger] executions@[j]) == a || executions@[j] == b),
{
    if 0 <= i < executions@.len() {
        assert(executions@.contains(executions@[i]));
    }
    if either {
        if executions@.contains(a) {
            let j = choose|j: int| 0 <= j < executions@.len() && executions@[j] == a;
            assert(executions@[j] == a);
        } else {
            let j = choose|j: int| 0 <= j < executions@.len() && executions@[j] == b;
            assert(executions@[j] == b);
        }
    }
}

/// The messages complete a row of activities if the completions among them, in their
/// order, are those of the row: one more completion makes the row one longer, if it is
/// the next, and other messages do not count.
pub proof fn law_completions_make_a_row(
    messages: &Vec<WorkItem>,
    more: &Vec<WorkItem>,
    next: WorkItem,
    first: u64,
    last: u64,
    before: bool,
    after: bool,
    same: bool,
)
    requires
        first <= last,
        last + 1 < u64::MAX,
        more@ == messages@.push(next),
        call_ensures(completes_row, (messages, first, last), before),
        call_ensures(completes_row, (more, first, (last + 1) as u64), after),
        call_ensures(completes_row, (more, first, last), same),
    ensures
        before && (next matches WorkItem::ActivityCompleted { id, .. } && id == last + 1) ==> after
            && !same,
        before && (next matches WorkItem::ActivityCompleted { id, .. } && id != last + 1) ==> !after
            && !same,
        before && !(next is ActivityCompleted) ==> same && !after,
        after && next is ActivityCompleted ==> before,
{
    let m = completed_ids(messages@);
    assert(more@.drop_last() =~= messages@);
    assert(more@.last() == next);
    let short = row(first, last);
    let long = row(first, (last + 1) as u64);
    assert(long =~= short.push((last + 1) as u64));
    if next is ActivityCompleted {
        let id = next->ActivityCompleted_id;
        assert(completed_ids(more@) == m.push(id));
        if m == short {
            assert(m.push(id).len() == long.len());
            assert(m.push(id)[short.len() as int] == id);
            assert(long[short.len() as int] == last + 1);
        }
        if m.push(id) == long {
            assert(m.push(id).drop_last() =~= m);
            assert(long.drop_last() =~= short);
        }
    } else if m == short {
        assert(m.len() != long.len());
    }
}

/// A completion that says something is found among the messages, and nothing else is.
pub proof fn law_completions_are_searched(
    messages: &Vec<WorkItem>,
    s: &str,
    r: bool,
    i: int,
)
    requires
        call_ensures(has_completion_saying, (messages, s), r),
    ensures
        0 <= i < messages@.len() && (messages@[i] matches WorkItem::ActivityCompleted {
            result,
            ..
        } && text::has_substring(result@, s@)) ==> r,
        r ==> exists|j: int|
            0 <= j < messages@.len() && ((#[trigger] messages@[j])
                matches WorkItem::ActivityCompleted { result, .. } && text::has_substring(
                result@,
                s@,
            )),
{
    if let WorkItem::ActivityCompleted { result, .. } = messages@[i] {
        if 0 <= i < messages@.len() && text::has_substring(result@, s@) {
            assert(completion_says(messages@[i], s@));
        }
    }
    if r {
        let j = choose|j: int|
            0 <= j < messages@.len() && #[trigger] completion_says(messages@[j], s@);
        assert(messages@[j] is ActivityCompleted);
    }
}

/// An error says something if its text does, whatever the case of its letters.
pub proof fn law_errors_are_searched(
    e: &ProviderError,
    lower: &str,
    a: &str,
    b: &str,
    c: &str,
    said: bool,
    held: bool,
)
    requires
        lower@ == client::lowercased(e.text@),
        call_ensures(error_says, (e, a, b, c), said),
        call_ensures(holds_one, (lower, a, b, c), held),
    ensures
        said == held,
        held <==> text::has_substring(lower@, a@) || text::has_substring(lower@, b@)
            || text::has_substring(lower@, c@),
{
}

/// What a group of replies shows: one more reply counts under its own kind and under no
/// other, and an instance counts once, however many of its turns were got.
pub proof fn law_groups_are_counted(
    group: &Vec<Reply>,
    more: &Vec<Reply>,
    next: Reply,
    empty: &Vec<Reply>,
)
    requires
        more@ == group@.push(next),
        group@.len() < u64::MAX,
        empty@.len() == 0,
    ensures
        forall|a: Option<u64>, b: Option<u64>|
            #![trigger call_ensures(group_number, (Num::GroupDone, group), a),
                call_ensures(group_number, (Num::GroupDone, more), b)]
            call_ensures(group_number, (Num::GroupDone, group), a) && call_ensures(
                group_number,
                (Num::GroupDone, more),
                b,
            ) ==> one_more(a, b, next is Done),
        forall|a: Option<u64>, b: Option<u64>|
            #![trigger call_ensures(group_number, (Num::GroupFailed, group), a),
                call_ensures(group_number, (Num::GroupFailed, more), b)]
            call_ensures(group_number, (Num::GroupFailed, group), a) && call_ensures(
                group_number,
                (Num::GroupFailed, more),
                b,
            ) ==> one_more(a, b, next is Failed),
        forall|a: Option<u64>, b: Option<u64>|
            #![trigger call_ensures(group_number, (Num::GroupNothing, group), a),
                call_ensures(group_number, (Num::GroupNothing, more), b)]
            call_ensures(group_number, (Num::GroupNothing, group), a) && call_ensures(
                group_number,
                (Num::GroupNothing, more),
                b,
            ) ==> one_more(a, b, next is Nothing),
        forall|a: Option<u64>, b: Option<u64>|
            #![trigger call_ensures(group_number, (Num::GroupTurns, group), a),
                call_ensures(group_number, (Num::GroupTurns, more), b)]
            call_ensures(group_number, (Num::GroupTurns, group), a) && call_ensures(
                group_number,
                (Num::GroupTurns, more),
                b,
            ) ==> one_more(a, b, next is Turn),
        forall|a: Option<u64>, b: Option<u64>|
            #![trigger call_ensures(group_number, (Num::GroupInstances, group), a),
                call_ensures(group_number, (Num::GroupInstances, more), b)]
            call_ensures(group_number, (Num::GroupInstances, group), a) && call_ensures(
                group_number,
                (Num::GroupInstances, more),
                b,
            ) ==> one_more(
                a,
                b,
                next matches Reply::Turn(item, _, _) && !has_turn_of(group@, item.instance@),
            ),
        forall|a: Option<u64>| #[trigger]
            call_ensures(group_number, (Num::GroupDone, empty), a) ==> a == Some(0u64),
        forall|a: Option<u64>| #[trigger]
            call_ensures(group_number, (Num::GroupFailed, empty), a) ==> a == Some(0u64),
        forall|a: Option<u64>| #[trigger]
            call_ensures(group_number, (Num::GroupNothing, empty), a) ==> a == Some(0u64),
        forall|a: Option<u64>| #[trigger]
            call_ensures(group_number, (Num::GroupTurns, empty), a) ==> a == Some(0u64),
        forall|a: Option<u64>| #[trigger]
            call_ensures(group_number, (Num::GroupInstances, empty), a) ==> a == Some(0u64),
{
    let g = group@;
    assert(more@.drop_last() =~= g);
    assert(more@.last() == next);
    lemma_count_bound(g, |r: Reply| r is Done);
    lemma_count_bound(g, |r: Reply| r is Failed);
    lemma_count_bound(g, |r: Reply| r is Nothing);
    lemma_count_bound(g, |r: Reply| r is Turn);
    lemma_turns_bound(g);
    if let Reply::Turn(item, _, _) = next {
        let t = turns(g);
        assert(turns(more@) == t.push(item.instance@));
        assert(t.push(item.instance@).drop_last() =~= t);
        lemma_turns_of(g, item.instance@);
    }
}

/// The second number is the first, or one more if `more`.
pub open spec fn one_more(a: Option<u64>, b: Option<u64>, more: bool) -> bool {
    &&& a is Some && b is Some
    &&& b->0 == a->0 + if more {
        1int
    } else {
        0int
    }
}

/// A turn of the instance is among the replies.
pub open spec fn has_turn_of(group: Seq<Reply>, instance: Seq<char>) -> bool {
    exists|i: int|
        0 <= i < group.len() && ((#[trigger] group[i]) matches Reply::Turn(item, _, _)
            && item.instance@ == instance)
}

proof fn lemma_count_bound(group: Seq<Reply>, f: spec_fn(Reply) -> bool)
    ensures
        count(group, f) <= group.len(),
    decreases group.len(),
{
    if group.len() > 0 {
        lemma_count_bound(group.drop_last(), f);
    }
}

proof fn lemma_turns_bound(group: Seq<Reply>)
    ensures
        distinct(turns(group)) <= turns(group).len() <= group.len(),
    decreases group.len(),
{
    if group.len() > 0 {
        lemma_turns_bound(group.drop_last());
        if group.last() is Turn {
            let before = turns(group.drop_last());
            let name = group.last()->Turn_0.instance@;
            assert(before.push(name).drop_last() =~= before);
        }
    }
}

proof fn lemma_turns_of(group: Seq<Reply>, instance: Seq<char>)
    ensures
        turns(group).contains(instance) <==> has_turn_of(group, instance),
    decreases group.len(),
{
    if group.len() > 0 {
        let front = group.drop_last();
        let before = turns(front);
        let all = turns(group);
        lemma_turns_of(front, instance);
        if before.contains(instance) {
            let k = choose|k: int| 0 <= k < before.len() && before[k] == instance;
            assert(all[k] == instance);
        }
        if has_turn_of(front, instance) {
            let i = choose|i: int|
                0 <= i < front.len() && ((#[trigger] front[i]) matches Reply::Turn(item, _, _)
                    && item.instance@ == instance);
            assert(group[i] is Turn);
        }
        if all.contains(instance) && !before.contains(instance) {
            let k = choose|k: int| 0 <= k < all.len() && all[k] == instance;
            if k < before.len() {
                assert(before[k] == instance);
            }
            assert(group[group.len() - 1] is Turn);
        }
        if has_turn_of(group, instance) && !has_turn_of(front, instance) {
            let i = choose|i: int|
                0 <= i < group.len() && ((#[trigger] group[i]) matches Reply::Turn(item, _, _)
                    && item.instance@ == instance);
            if i < front.len() {
                assert(front[i] is Turn);
            }
            assert(all.last() == instance);
        }
    }
}

/// The turns of a group are all of one instance if each is.
pub proof fn law_turns_of_a_group(group: &Vec<Reply>, instance: &str, r: bool, i: int)
    requires
        call_ensures(turns_all_of, (group, instance), r),
    ensures
        r && 0 <= i < group@.len() ==> (group@[i] matches Reply::Turn(item, _, _) ==> item.instance@
            == instance@),
        !r ==> exists|j: int|
            0 <= j < group@.len() && ((#[trigger] group@[j]) matches Reply::Turn(item, _, _)
                && item.instance@ != instance@),
{
}

/// A tree is nothing but its root exactly where it has one instance.
pub proof fn law_a_lone_root_is_a_tree_of_one(tree: &InstanceTree, n: usize, alone: bool)
    requires
        call_ensures(InstanceTree::size, (tree,), n),
        call_ensures(InstanceTree::is_root_only, (tree,), alone),
    ensures
        n == tree.all_ids@.len(),
        alone <==> n == 1,
{
}

} // verus!
