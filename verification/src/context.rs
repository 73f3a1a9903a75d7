//! The state of one orchestration turn.
use crate::action::{Action, CompletionResult, ScheduleKind};
use crate::assoc::{self, AssocMap, IdSet};
use crate::error::copy_text;
use crate::event::Event;
use crate::future;
use crate::mailbox::{
    self, count_active_subs, count_arrivals, find_queue_sub, nth_untaken, positional_arrival,
    queue_rank_of, Subscription,
};
use crate::orchestration;
use crate::time::{self, wall_clock_ms};
use std::collections::{HashMap, HashSet};
use vstd::prelude::*;

verus! {

broadcast use vstd::std_specs::hash::group_hash_axioms;

/// What the state of a turn stands for.
#[verifier::ext_equal]
pub struct CtxModel {
    /// Whether history is being replayed.
    pub is_replaying: bool,
    /// The last token that was handed out.
    pub next_token: u64,
    /// The actions emitted and not yet drained, each with its token.
    pub emitted: Seq<(u64, Action)>,
    /// The results delivered, by token.
    pub results: Map<u64, CompletionResult>,
    /// The schedule ID bound to each token.
    pub bindings: Map<u64, u64>,
    /// The positional subscriptions, by schedule ID.
    pub external_subs: Map<u64, Subscription<String>>,
    /// The external events that arrived, as (name, data).
    pub external_log: Seq<(String, String)>,
    /// The next index of a positional subscription, by name.
    pub external_next: Map<Seq<char>, usize>,
    /// The cancelled positional subscriptions.
    pub external_cancelled: Set<u64>,
    /// The queue subscriptions, as (schedule ID, name).
    pub queue_subs: Seq<(u64, String)>,
    /// The queue messages that arrived, as (name, data).
    pub queue_log: Seq<(String, String)>,
    /// The cancelled queue subscriptions.
    pub queue_cancelled: Set<u64>,
    /// The queue subscriptions that have taken their message.
    pub queue_resolved: Set<u64>,
    /// Where in the log the messages are that were taken.
    pub queue_taken: Set<usize>,
    /// The positional subscriptions by name and topic, by schedule ID.
    pub topic_subs: Map<u64, Subscription<(String, String)>>,
    /// The events that arrived by topic, as ((name, topic), data).
    pub topic_log: Seq<((String, String), String)>,
    /// The next index of a subscription by topic.
    pub topic_next: Map<(Seq<char>, Seq<char>), usize>,
    /// The instance ID of each sub-orchestration, by token.
    pub sub_instances: Map<u64, String>,
    /// The cancelled tokens, in the order of their cancellation.
    pub cancelled: Seq<u64>,
    /// What each cancelled token was for.
    pub cancelled_kinds: Map<u64, ScheduleKind>,
    pub execution_id: u64,
    pub instance_id: String,
    pub orchestration_name: String,
    pub orchestration_version: String,
    /// Whether a decision was recorded, so that what follows is worth logging.
    pub logging_enabled: bool,
    /// The custom status, if one is set.
    pub custom_status: Option<String>,
    /// The key-value entries.
    pub kv: Seq<(String, String)>,
    /// When each key was last updated; `u64::MAX` for a key written this turn.
    pub kv_updated: Seq<(String, u64)>,
    /// The statistics as of the last turn that was acknowledged, if there was
    /// one.
    pub system_stats: Option<SystemStats>,
}

/// Runtime introspection statistics of an instance.
#[derive(Debug, Clone, Copy, PartialEq, Eq, Structural)]
pub struct SystemStats {
    /// The events in the history of the current execution.
    pub history_event_count: u64,
    /// The approximate serialized size of the full history, in bytes.
    pub history_size_bytes: u64,
    /// The unprocessed queue messages carried forward from the previous
    /// execution.
    pub queue_pending_count: u64,
    /// The keys of the key-value store.
    pub kv_user_key_count: u64,
    /// The sizes of all key-value values together, in bytes.
    pub kv_total_value_bytes: u64,
}

/// The state after an action is emitted. With a decision recorded, logging is
/// on.
pub open spec fn emitted(m: CtxModel, action: Action) -> CtxModel {
    let token = (m.next_token + 1) as u64;
    CtxModel {
        next_token: token,
        emitted: m.emitted.push((token, action)),
        logging_enabled: true,
        ..m
    }
}

/// Emitted actions carry increasing tokens, none beyond the last handed out.
pub open spec fn tokens_increase(emitted: Seq<(u64, Action)>, next_token: u64) -> bool {
    &&& forall|i: int| 0 <= i < emitted.len() ==> 0 < (#[trigger] emitted[i]).0 <= next_token
    &&& forall|i: int, j: int|
        0 <= i < j < emitted.len() ==> (#[trigger] emitted[i]).0 < (#[trigger] emitted[j]).0
}

/// Every positional subscription has an index below the next one of its key.
pub open spec fn indices_assigned<K: View>(
    subs: Map<u64, Subscription<K>>,
    next: Map<K::V, usize>,
) -> bool {
    forall|id: u64| #[trigger]
        subs.contains_key(id) ==> next.contains_key(subs[id].0@) && subs[id].1
            < next[subs[id].0@]
}

/// The index that the next subscription to `name` gets.
pub open spec fn next_index<K>(next: Map<K, usize>, name: K) -> usize {
    if next.contains_key(name) {
        next[name]
    } else {
        0
    }
}

/// The state after a positional subscription is bound.
pub open spec fn external_bound(m: CtxModel, schedule_id: u64, name: String) -> CtxModel {
    let index = next_index(m.external_next, name@);
    CtxModel {
        external_next: m.external_next.insert(name@, (index + 1) as usize),
        external_subs: m.external_subs.insert(schedule_id, (name, index)),
        ..m
    }
}

/// An active positional subscription to `name` still waits for an arrival:
/// there are more of them than arrivals. Cancelled ones do not count.
pub open spec fn arrivals_waiting(m: CtxModel, name: Seq<char>) -> bool {
    mailbox::count_active(m.external_subs, m.external_cancelled, name) > mailbox::arrivals_of(
        m.external_log,
        name,
    ).len()
}

/// The data for a positional subscription, once it has arrived. A cancelled
/// subscription never gets any.
pub open spec fn external_data(m: CtxModel, schedule_id: u64) -> Option<String> {
    mailbox::positional_data(m.external_subs, m.external_cancelled, m.external_log, schedule_id)
}

/// Where in the log the message is that the queue subscription `schedule_id`
/// would take now: the first subscription that is neither cancelled nor served
/// gets the first message of its queue that nobody has taken.
pub open spec fn queue_place(m: CtxModel, schedule_id: u64) -> Option<int> {
    let done = m.queue_cancelled.union(m.queue_resolved);
    if !done.contains(schedule_id) && exists|p: int|
        mailbox::first_at(m.queue_subs, schedule_id, p) {
        let p = choose|p: int| mailbox::first_at(m.queue_subs, schedule_id, p);
        mailbox::queue_place(m.queue_subs, done, m.queue_log, m.queue_taken, p)
    } else {
        None
    }
}

/// The message that the queue subscription `schedule_id` would take now.
pub open spec fn queue_data(m: CtxModel, schedule_id: u64) -> Option<String> {
    match queue_place(m, schedule_id) {
        Some(at) => Some(m.queue_log[at].1),
        None => None,
    }
}

/// The state after the queue subscription `schedule_id` was asked for its
/// message: if it got one, the subscription is resolved and the message taken.
pub open spec fn queue_polled(m: CtxModel, schedule_id: u64) -> CtxModel {
    match queue_place(m, schedule_id) {
        Some(at) => CtxModel {
            queue_resolved: m.queue_resolved.insert(schedule_id),
            queue_taken: m.queue_taken.insert(at as usize),
            ..m
        },
        None => m,
    }
}

/// The state after a subscription by topic is bound.
pub open spec fn topic_bound(
    m: CtxModel,
    schedule_id: u64,
    name: String,
    topic: String,
) -> CtxModel {
    let key = (name@, topic@);
    let index = next_index(m.topic_next, key);
    CtxModel {
        topic_next: m.topic_next.insert(key, (index + 1) as usize),
        topic_subs: m.topic_subs.insert(schedule_id, ((name, topic), index)),
        ..m
    }
}

/// The data for a subscription by topic, once it has arrived. A cancelled
/// subscription never gets any.
pub open spec fn topic_data(m: CtxModel, schedule_id: u64) -> Option<String> {
    mailbox::positional_data(m.topic_subs, m.external_cancelled, m.topic_log, schedule_id)
}

/// The state after a token is cancelled.
pub open spec fn token_cancelled(m: CtxModel, token: u64, kind: ScheduleKind) -> CtxModel {
    CtxModel {
        cancelled: assoc::with_id(m.cancelled, token),
        cancelled_kinds: m.cancelled_kinds.insert(token, kind),
        ..m
    }
}

/// The kinds of work whose cancellation is reported separately.
#[derive(Debug, Clone, Copy, PartialEq, Eq, Structural)]
pub enum CancelClass {
    Activity,
    ExternalWait,
    QueueDequeue,
}

/// Whether a schedule kind is of a class.
pub open spec fn of_class(kind: ScheduleKind, class: CancelClass) -> bool {
    match class {
        CancelClass::Activity => kind is Activity,
        CancelClass::ExternalWait => kind is ExternalWait,
        CancelClass::QueueDequeue => kind is QueueDequeue,
    }
}

/// Whether a cancelled token was for work of the class that got a schedule ID.
pub open spec fn cancels(
    kinds: Map<u64, ScheduleKind>,
    bindings: Map<u64, u64>,
    token: u64,
    class: CancelClass,
) -> bool {
    kinds.contains_key(token) && of_class(kinds[token], class) && bindings.contains_key(token)
}

/// The schedule IDs of the cancelled work of a class, in the order of
/// cancellation.
pub open spec fn cancelled_ids(
    tokens: Seq<u64>,
    kinds: Map<u64, ScheduleKind>,
    bindings: Map<u64, u64>,
    class: CancelClass,
) -> Seq<u64>
    decreases tokens.len(),
{
    if tokens.len() == 0 {
        Seq::empty()
    } else {
        let rest = cancelled_ids(tokens.drop_last(), kinds, bindings, class);
        if cancels(kinds, bindings, tokens.last(), class) {
            rest.push(bindings[tokens.last()])
        } else {
            rest
        }
    }
}

/// What a cancelled token says of a sub-orchestration: its scheduling event
/// and its instance, where both are known.
pub open spec fn sub_cancellation(m: CtxModel, token: u64) -> Option<(u64, String)> {
    if m.cancelled_kinds.contains_key(token) && m.bindings.contains_key(token) {
        match m.cancelled_kinds[token] {
            ScheduleKind::SubOrchestration { token: sub } => {
                if m.sub_instances.contains_key(sub) {
                    Some((m.bindings[token], m.sub_instances[sub]))
                } else {
                    None
                }
            },
            _ => None,
        }
    } else {
        None
    }
}

/// The cancelled sub-orchestrations among the first `n` cancelled tokens.
pub open spec fn sub_cancellations(m: CtxModel, n: nat) -> Seq<(u64, String)>
    recommends
        n <= m.cancelled.len(),
    decreases n,
{
    if n == 0 {
        Seq::empty()
    } else {
        let rest = sub_cancellations(m, (n - 1) as nat);
        match sub_cancellation(m, m.cancelled[n - 1]) {
            Some(c) => rest.push(c),
            None => rest,
        }
    }
}

/// The state of one orchestration turn.
pub struct CtxInner {
    pub(crate) is_replaying: bool,
    pub(crate) next_token: u64,
    pub(crate) emitted_actions: Vec<(u64, Action)>,
    pub(crate) completion_results: HashMap<u64, CompletionResult>,
    pub(crate) token_bindings: HashMap<u64, u64>,
    pub(crate) external_subscriptions: HashMap<u64, Subscription<String>>,
    pub(crate) external_arrivals: Vec<(String, String)>,
    pub(crate) external_next_index: AssocMap<String, usize>,
    pub(crate) external_cancelled_subscriptions: HashSet<u64>,
    pub(crate) queue_subscriptions: Vec<(u64, String)>,
    pub(crate) queue_arrivals: Vec<(String, String)>,
    pub(crate) queue_cancelled_subscriptions: HashSet<u64>,
    pub(crate) queue_resolved_subscriptions: HashSet<u64>,
    pub(crate) queue_taken_arrivals: HashSet<usize>,
    pub(crate) external2_subscriptions: HashMap<u64, Subscription<(String, String)>>,
    pub(crate) external2_arrivals: Vec<((String, String), String)>,
    pub(crate) external2_next_index: AssocMap<(String, String), usize>,
    pub(crate) sub_orchestration_instances: HashMap<u64, String>,
    pub(crate) cancelled_tokens: IdSet,
    pub(crate) cancelled_token_kinds: HashMap<u64, ScheduleKind>,
    pub(crate) execution_id: u64,
    pub(crate) instance_id: String,
    pub(crate) orchestration_name: String,
    pub(crate) orchestration_version: String,
    pub(crate) logging_enabled_this_poll: bool,
    pub(crate) accumulated_custom_status: Option<String>,
    pub(crate) kv_state: AssocMap<String, String>,
    pub(crate) kv_metadata: AssocMap<String, u64>,
    pub(crate) system_stats: Option<SystemStats>,
}

impl View for CtxInner {
    type V = CtxModel;

    closed spec fn view(&self) -> CtxModel {
        CtxModel {
            is_replaying: self.is_replaying,
            next_token: self.next_token,
            emitted: self.emitted_actions@,
            results: self.completion_results@,
            bindings: self.token_bindings@,
            external_subs: self.external_subscriptions@,
            external_log: self.external_arrivals@,
            external_next: self.external_next_index@,
            external_cancelled: self.external_cancelled_subscriptions@,
            queue_subs: self.queue_subscriptions@,
            queue_log: self.queue_arrivals@,
            queue_cancelled: self.queue_cancelled_subscriptions@,
            queue_resolved: self.queue_resolved_subscriptions@,
            queue_taken: self.queue_taken_arrivals@,
            topic_subs: self.external2_subscriptions@,
            topic_log: self.external2_arrivals@,
            topic_next: self.external2_next_index@,
            sub_instances: self.sub_orchestration_instances@,
            cancelled: self.cancelled_tokens@,
            cancelled_kinds: self.cancelled_token_kinds@,
            execution_id: self.execution_id,
            instance_id: self.instance_id,
            orchestration_name: self.orchestration_name,
            orchestration_version: self.orchestration_version,
            logging_enabled: self.logging_enabled_this_poll,
            custom_status: self.accumulated_custom_status,
            kv: self.kv_state.entries(),
            kv_updated: self.kv_metadata.entries(),
            system_stats: self.system_stats,
        }
    }
}

/// The state before the first poll of a turn.
pub open spec fn fresh(
    execution_id: u64,
    instance_id: String,
    orchestration_name: String,
    orchestration_version: String,
) -> CtxModel {
    CtxModel {
        is_replaying: true,
        next_token: 0,
        emitted: Seq::empty(),
        results: Map::empty(),
        bindings: Map::empty(),
        external_subs: Map::empty(),
        external_log: Seq::empty(),
        external_next: Map::empty(),
        external_cancelled: Set::empty(),
        queue_subs: Seq::empty(),
        queue_log: Seq::empty(),
        queue_cancelled: Set::empty(),
        queue_resolved: Set::empty(),
        queue_taken: Set::empty(),
        topic_subs: Map::empty(),
        topic_log: Seq::empty(),
        topic_next: Map::empty(),
        sub_instances: Map::empty(),
        cancelled: Seq::empty(),
        cancelled_kinds: Map::empty(),
        execution_id,
        instance_id,
        orchestration_name,
        orchestration_version,
        logging_enabled: false,
        custom_status: None,
        kv: Seq::empty(),
        kv_updated: Seq::empty(),
        system_stats: None,
    }
}

/// The invariant of a turn, over its model.
pub open spec fn model_wf(m: CtxModel) -> bool {
    &&& tokens_increase(m.emitted, m.next_token)
    &&& mailbox::distinct_indices(m.external_subs)
    &&& indices_assigned(m.external_subs, m.external_next)
    &&& m.external_subs.dom().finite()
    &&& m.topic_subs.dom().finite()
    &&& mailbox::distinct_indices(m.topic_subs)
    &&& indices_assigned(m.topic_subs, m.topic_next)
    &&& assoc::distinct_keys(m.kv)
    &&& assoc::distinct_keys(m.kv_updated)
    &&& m.cancelled.no_duplicates()
}

impl CtxInner {
    /// The invariant of a turn.
    pub closed spec fn wf(&self) -> bool {
        &&& self.external_next_index.wf()
        &&& self.external2_next_index.wf()
        &&& self.cancelled_tokens.wf()
        &&& self.kv_state.wf()
        &&& self.kv_metadata.wf()
        &&& model_wf(self@)
    }

    /// The invariant, over the model.
    pub proof fn lemma_wf(&self)
        requires
            self.wf(),
        ensures
            model_wf(self@),
    {
    }

    /// A fresh state, replaying. The history and the worker play no part in
    /// it.
    pub fn new(
        _history: Vec<Event>,
        execution_id: u64,
        instance_id: String,
        orchestration_name: String,
        orchestration_version: String,
        _worker_id: Option<String>,
    ) -> (r: Self)
        ensures
            r.wf(),
            r@ == fresh(execution_id, instance_id, orchestration_name, orchestration_version),
            model_wf(r@),
    {
        CtxInner {
            is_replaying: true,
            next_token: 0,
            emitted_actions: Vec::new(),
            completion_results: HashMap::new(),
            token_bindings: HashMap::new(),
            external_subscriptions: HashMap::new(),
            external_arrivals: Vec::new(),
            external_next_index: AssocMap::new(),
            external_cancelled_subscriptions: HashSet::new(),
            queue_subscriptions: Vec::new(),
            queue_arrivals: Vec::new(),
            queue_cancelled_subscriptions: HashSet::new(),
            queue_resolved_subscriptions: HashSet::new(),
            queue_taken_arrivals: HashSet::new(),
            external2_subscriptions: HashMap::new(),
            external2_arrivals: Vec::new(),
            external2_next_index: AssocMap::new(),
            sub_orchestration_instances: HashMap::new(),
            cancelled_tokens: IdSet::new(),
            cancelled_token_kinds: HashMap::new(),
            execution_id,
            instance_id,
            orchestration_name,
            orchestration_version,
            logging_enabled_this_poll: false,
            accumulated_custom_status: None,
            kv_state: AssocMap::new(),
            kv_metadata: AssocMap::new(),
            system_stats: None,
        }
    }

    /// The wall clock, in milliseconds since 1970.
    pub fn now_ms(&self) -> (r: u64)
        ensures
            exists|reading: Option<(u64, u32)>| r == time::epoch_millis(reading),
    {
        wall_clock_ms()
    }

    /// Emits an action under a fresh token, and turns logging on.
    pub fn emit_action(&mut self, action: Action) -> (token: u64)
        requires
            old(self).wf(),
            old(self)@.next_token < u64::MAX,
        ensures
            final(self).wf(),
            token == old(self)@.next_token + 1,
            final(self)@ == emitted(old(self)@, action),
    {
        self.next_token = self.next_token + 1;
        let token: u64 = self.next_token;
        self.emitted_actions.push((token, action));
        self.logging_enabled_this_poll = true;
        token
    }

    /// Takes the emitted actions out.
    pub fn drain_emitted_actions(&mut self) -> (r: Vec<(u64, Action)>)
        requires
            old(self).wf(),
        ensures
            final(self).wf(),
            r@ == old(self)@.emitted,
            final(self)@ == (CtxModel { emitted: Seq::empty(), ..old(self)@ }),
    {
        let mut out: Vec<(u64, Action)> = Vec::new();
        std::mem::swap(&mut out, &mut self.emitted_actions);
        out
    }

    /// Binds a token to a schedule ID.
    pub fn bind_token(&mut self, token: u64, schedule_id: u64)
        requires
            old(self).wf(),
        ensures
            final(self).wf(),
            final(self)@ == (CtxModel {
                bindings: old(self)@.bindings.insert(token, schedule_id),
                ..old(self)@
            }),
    {
        self.token_bindings.insert(token, schedule_id);
    }

    /// The schedule ID bound to a token.
    pub fn get_bound_schedule_id(&self, token: u64) -> (r: Option<u64>)
        requires
            self.wf(),
        ensures
            r == (if self@.bindings.contains_key(token) {
                Some(self@.bindings[token])
            } else {
                None
            }),
    {
        match self.token_bindings.get(&token) {
            Some(id) => Some(*id),
            None => None,
        }
    }

    /// Delivers the result of the work with this schedule ID to a token that
    /// is bound to it. Where none is, the result is dropped.
    pub fn deliver_result(&mut self, schedule_id: u64, result: CompletionResult)
        requires
            old(self).wf(),
        ensures
            final(self).wf(),
            result_delivered(old(self)@, final(self)@, schedule_id, result),
    {
        let ghost pairs = vstd::std_specs::iter::IteratorSpec::remaining(
            &self.token_bindings.iter(),
        );
        let mut found: Option<u64> = None;
        for (token, id) in it: self.token_bindings.iter()
            invariant
                it.seq() == pairs,
                forall|i: int|
                    0 <= i < pairs.len() ==> self@.bindings.contains_key(
                        *(#[trigger] pairs[i]).0,
                    ) && self@.bindings[*pairs[i].0] == *pairs[i].1,
                match found {
                    Some(t) => bound_to(self@.bindings, t, schedule_id),
                    None => forall|i: int|
                        0 <= i < it.index() ==> *(#[trigger] pairs[i]).1 != schedule_id,
                },
        {
            if found.is_none() && *id == schedule_id {
                found = Some(*token);
            }
        }
        match found {
            Some(token) => {
                self.completion_results.insert(token, result);
            },
            None => {
                assert forall|t: u64| !bound_to(self@.bindings, t, schedule_id) by {
                    if self@.bindings.contains_key(t) {
                        assert(pairs.contains((&t, &self@.bindings[t])));
                    }
                }
            },
        }
    }

    /// The result delivered to a token.
    pub fn get_result(&self, token: u64) -> (r: Option<&CompletionResult>)
        requires
            self.wf(),
        ensures
            match r {
                Some(v) => self@.results.contains_key(token) && *v == self@.results[token],
                None => !self@.results.contains_key(token),
            },
    {
        self.completion_results.get(&token)
    }

    /// Binds a positional subscription to the next index of its name.
    pub fn bind_external_subscription(&mut self, schedule_id: u64, name: &str)
        requires
            old(self).wf(),
            next_index(old(self)@.external_next, name@) < usize::MAX,
        ensures
            final(self).wf(),
            exists|n: String|
                n@ == name@ && final(self)@ == #[trigger] external_bound(
                    old(self)@,
                    schedule_id,
                    n,
                ),
    {
        let owned: String = name.to_string();
        let index: usize = match self.external_next_index.get(&owned) {
            Some(i) => *i,
            None => 0,
        };
        self.external_next_index.insert(owned.clone(), index + 1);
        self.external_subscriptions.insert(schedule_id, (owned.clone(), index));
        assert(self@ == external_bound(old(self)@, schedule_id, owned));
    }

    /// Whether an active positional subscription to `name` still waits for an
    /// arrival.
    pub fn has_pending_subscription_slot(&self, name: &str) -> (r: bool)
        requires
            self.wf(),
        ensures
            r == arrivals_waiting(self@, name@),
    {
        let owned: String = name.to_string();
        let active: usize = count_active_subs(
            &self.external_subscriptions,
            &self.external_cancelled_subscriptions,
            &owned,
        );
        let delivered: usize = count_arrivals(&self.external_arrivals, &owned);
        active > delivered
    }

    /// Records the arrival of an external event.
    pub fn deliver_external_event(&mut self, name: String, data: String)
        requires
            old(self).wf(),
        ensures
            final(self).wf(),
            final(self)@ == (CtxModel {
                external_log: old(self)@.external_log.push((name, data)),
                ..old(self)@
            }),
    {
        self.external_arrivals.push((name, data));
    }

    /// The data for a positional subscription.
    pub fn get_external_event(&self, schedule_id: u64) -> (r: Option<String>)
        requires
            self.wf(),
        ensures
            r == external_data(self@, schedule_id),
    {
        positional_arrival(
            &self.external_subscriptions,
            &self.external_cancelled_subscriptions,
            &self.external_arrivals,
            schedule_id,
        )
    }

    /// Marks a positional subscription as cancelled.
    pub fn mark_external_subscription_cancelled(&mut self, schedule_id: u64)
        requires
            old(self).wf(),
        ensures
            final(self).wf(),
            final(self)@ == (CtxModel {
                external_cancelled: old(self)@.external_cancelled.insert(schedule_id),
                ..old(self)@
            }),
    {
        self.external_cancelled_subscriptions.insert(schedule_id);
    }

    /// Binds a queue subscription.
    pub fn bind_queue_subscription(&mut self, schedule_id: u64, name: &str)
        requires
            old(self).wf(),
        ensures
            final(self).wf(),
            exists|n: String|
                n@ == name@ && final(self)@ == (CtxModel {
                    queue_subs: #[trigger] old(self)@.queue_subs.push((schedule_id, n)),
                    ..old(self)@
                }),
    {
        let owned: String = name.to_string();
        self.queue_subscriptions.push((schedule_id, owned));
        assert(self@.queue_subs == old(self)@.queue_subs.push((schedule_id, owned)));
    }

    /// Records the arrival of a queue message.
    pub fn deliver_queue_message(&mut self, name: String, data: String)
        requires
            old(self).wf(),
        ensures
            final(self).wf(),
            final(self)@ == (CtxModel {
                queue_log: old(self)@.queue_log.push((name, data)),
                ..old(self)@
            }),
    {
        self.queue_arrivals.push((name, data));
    }

    /// Marks a queue subscription as cancelled.
    pub fn mark_queue_subscription_cancelled(&mut self, schedule_id: u64)
        requires
            old(self).wf(),
        ensures
            final(self).wf(),
            final(self)@ == (CtxModel {
                queue_cancelled: old(self)@.queue_cancelled.insert(schedule_id),
                ..old(self)@
            }),
    {
        self.queue_cancelled_subscriptions.insert(schedule_id);
    }

    /// Takes the message for a queue subscription, once.
    pub fn get_queue_message(&mut self, schedule_id: u64) -> (r: Option<String>)
        requires
            old(self).wf(),
        ensures
            final(self).wf(),
            r == queue_data(old(self)@, schedule_id),
            final(self)@ == queue_polled(old(self)@, schedule_id),
    {
        match find_queue_sub(&self.queue_subscriptions, schedule_id) {
            None => {
                assert forall|p: int| !mailbox::first_at(self@.queue_subs, schedule_id, p) by {}
                None
            },
            Some(p) => {
                proof {
                    lemma_first_unique(self@.queue_subs, schedule_id, p as int);
                }
                if self.queue_resolved_subscriptions.contains(&schedule_id) {
                    return None;
                }
                if self.queue_cancelled_subscriptions.contains(&schedule_id) {
                    return None;
                }
                let rank: usize = queue_rank_of(
                    &self.queue_subscriptions,
                    &self.queue_cancelled_subscriptions,
                    &self.queue_resolved_subscriptions,
                    p,
                );
                match nth_untaken(
                    &self.queue_arrivals,
                    &self.queue_taken_arrivals,
                    &self.queue_subscriptions[p].1,
                    rank,
                ) {
                    Some(at) => {
                        self.queue_resolved_subscriptions.insert(schedule_id);
                        self.queue_taken_arrivals.insert(at);
                        Some(self.queue_arrivals[at].1.clone())
                    },
                    None => None,
                }
            },
        }
    }

    /// The schedule IDs of the cancelled work of a class.
    fn get_cancelled_ids(&self, class: CancelClass) -> (r: Vec<u64>)
        requires
            self.wf(),
        ensures
            r@ == cancelled_ids(
                self@.cancelled,
                self@.cancelled_kinds,
                self@.bindings,
                class,
            ),
    {
        let ghost tokens = self.cancelled_tokens@;
        let ghost kinds = self.cancelled_token_kinds@;
        let ghost bindings = self.token_bindings@;
        let mut ids: Vec<u64> = Vec::new();
        let mut i: usize = 0;
        assert(tokens.take(0) =~= Seq::empty());
        while i < self.cancelled_tokens.as_vec().len()
            invariant
                self.wf(),
                tokens == self.cancelled_tokens@,
                kinds == self.cancelled_token_kinds@,
                bindings == self.token_bindings@,
                i <= tokens.len(),
                ids@ == cancelled_ids(tokens.take(i as int), kinds, bindings, class),
            decreases tokens.len() - i,
        {
            let token: u64 = self.cancelled_tokens.as_vec()[i];
            assert(tokens.take(i + 1).drop_last() =~= tokens.take(i as int));
            assert(tokens.take(i + 1).last() == token);
            if let Some(kind) = self.cancelled_token_kinds.get(&token) {
                let hit = match (class, kind) {
                    (CancelClass::Activity, ScheduleKind::Activity { .. }) => true,
                    (CancelClass::ExternalWait, ScheduleKind::ExternalWait { .. }) => true,
                    (CancelClass::QueueDequeue, ScheduleKind::QueueDequeue { .. }) => true,
                    _ => false,
                };
                if hit {
                    if let Some(schedule_id) = self.token_bindings.get(&token) {
                        ids.push(*schedule_id);
                    }
                }
            }
            i += 1;
        }
        assert(tokens.take(i as int) =~= tokens);
        ids
    }

    /// The schedule IDs of the cancelled queue subscriptions.
    pub fn get_cancelled_queue_ids(&self) -> (r: Vec<u64>)
        requires
            self.wf(),
        ensures
            r@ == cancelled_ids(
                self@.cancelled,
                self@.cancelled_kinds,
                self@.bindings,
                CancelClass::QueueDequeue,
            ),
    {
        self.get_cancelled_ids(CancelClass::QueueDequeue)
    }

    /// Binds a subscription by topic to the next index of its name and topic.
    pub fn bind_external_subscription2(&mut self, schedule_id: u64, name: &str, topic: &str)
        requires
            old(self).wf(),
            next_index(old(self)@.topic_next, (name@, topic@)) < usize::MAX,
        ensures
            final(self).wf(),
            exists|n: String, t: String|
                n@ == name@ && t@ == topic@ && final(self)@ == #[trigger] topic_bound(
                    old(self)@,
                    schedule_id,
                    n,
                    t,
                ),
    {
        let n: String = name.to_string();
        let t: String = topic.to_string();
        let key: (String, String) = (n.clone(), t.clone());
        let index: usize = match self.external2_next_index.get(&key) {
            Some(i) => *i,
            None => 0,
        };
        self.external2_next_index.insert(key, index + 1);
        self.external2_subscriptions.insert(schedule_id, ((n.clone(), t.clone()), index));
        assert(self@ == topic_bound(old(self)@, schedule_id, n, t));
    }

    /// Records the arrival of an external event on a topic.
    pub fn deliver_external_event2(&mut self, name: String, topic: String, data: String)
        requires
            old(self).wf(),
        ensures
            final(self).wf(),
            final(self)@ == (CtxModel {
                topic_log: old(self)@.topic_log.push(((name, topic), data)),
                ..old(self)@
            }),
    {
        self.external2_arrivals.push(((name, topic), data));
    }

    /// The data for a subscription by topic.
    pub fn get_external_event2(&self, schedule_id: u64) -> (r: Option<String>)
        requires
            self.wf(),
        ensures
            r == topic_data(self@, schedule_id),
    {
        positional_arrival(
            &self.external2_subscriptions,
            &self.external_cancelled_subscriptions,
            &self.external2_arrivals,
            schedule_id,
        )
    }

    /// Marks a token as cancelled.
    pub fn mark_token_cancelled(&mut self, token: u64, kind: ScheduleKind)
        requires
            old(self).wf(),
        ensures
            final(self).wf(),
            final(self)@ == token_cancelled(old(self)@, token, kind),
    {
        self.cancelled_tokens.insert(token);
        self.cancelled_token_kinds.insert(token, kind);
    }

    /// The schedule IDs of the cancelled activities.
    pub fn get_cancelled_activity_ids(&self) -> (r: Vec<u64>)
        requires
            self.wf(),
        ensures
            r@ == cancelled_ids(
                self@.cancelled,
                self@.cancelled_kinds,
                self@.bindings,
                CancelClass::Activity,
            ),
    {
        self.get_cancelled_ids(CancelClass::Activity)
    }

    /// The schedule IDs of the cancelled waits for external events.
    pub fn get_cancelled_external_wait_ids(&self) -> (r: Vec<u64>)
        requires
            self.wf(),
        ensures
            r@ == cancelled_ids(
                self@.cancelled,
                self@.cancelled_kinds,
                self@.bindings,
                CancelClass::ExternalWait,
            ),
    {
        self.get_cancelled_ids(CancelClass::ExternalWait)
    }

    /// The scheduling event and instance of each cancelled sub-orchestration.
    /// One whose instance is not known was never started, and is left out.
    pub fn get_cancelled_sub_orchestration_cancellations(&self) -> (r: Vec<(u64, String)>)
        requires
            self.wf(),
        ensures
            r@ == sub_cancellations(self@, self@.cancelled.len()),
    {
        let mut cancels: Vec<(u64, String)> = Vec::new();
        let mut i: usize = 0;
        while i < self.cancelled_tokens.as_vec().len()
            invariant
                self.wf(),
                i <= self.cancelled_tokens@.len(),
                cancels@ == sub_cancellations(self@, i as nat),
            decreases self.cancelled_tokens@.len() - i,
        {
            let token: u64 = self.cancelled_tokens.as_vec()[i];
            assert(self@.cancelled[i as int] == token);
            if let Some(ScheduleKind::SubOrchestration { token: sub }) =
                self.cancelled_token_kinds.get(&token) {
                if let Some(schedule_id) = self.token_bindings.get(&token) {
                    if let Some(instance) = self.sub_orchestration_instances.get(sub) {
                        cancels.push((*schedule_id, instance.clone()));
                    }
                }
            }
            i += 1;
        }
        cancels
    }

    /// Records the instance ID of the sub-orchestration with this token.
    pub fn bind_sub_orchestration_instance(&mut self, token: u64, instance_id: String)
        requires
            old(self).wf(),
        ensures
            final(self).wf(),
            final(self)@ == (CtxModel {
                sub_instances: old(self)@.sub_instances.insert(token, instance_id),
                ..old(self)@
            }),
    {
        self.sub_orchestration_instances.insert(token, instance_id);
    }

    /// Forgets the cancelled tokens.
    pub fn clear_cancelled_tokens(&mut self)
        requires
            old(self).wf(),
        ensures
            final(self).wf(),
            final(self)@ == (CtxModel {
                cancelled: Seq::empty(),
                cancelled_kinds: Map::empty(),
                ..old(self)@
            }),
    {
        self.cancelled_tokens.clear();
        self.cancelled_token_kinds.clear();
    }

    /// Whether history is being replayed.
    pub fn is_replaying(&self) -> (r: bool)
        ensures
            r == self@.is_replaying,
    {
        self.is_replaying
    }

    /// Sets whether history is being replayed.
    pub fn set_is_replaying(&mut self, is_replaying: bool)
        requires
            old(self).wf(),
        ensures
            final(self).wf(),
            final(self)@ == (CtxModel { is_replaying, ..old(self)@ }),
    {
        self.is_replaying = is_replaying;
    }

    /// The last token that was handed out.
    pub fn last_token(&self) -> (r: u64)
        ensures
            r == self@.next_token,
    {
        self.next_token
    }

    /// A copy of the emitted actions.
    pub fn get_emitted_actions(&self) -> (r: Vec<(u64, Action)>)
        ensures
            r@ == self@.emitted,
    {
        let mut out: Vec<(u64, Action)> = Vec::new();
        let mut i: usize = 0;
        while i < self.emitted_actions.len()
            invariant
                i <= self.emitted_actions@.len(),
                out@ == self.emitted_actions@.take(i as int),
            decreases self.emitted_actions@.len() - i,
        {
            out.push((self.emitted_actions[i].0, self.emitted_actions[i].1.clone()));
            i += 1;
            assert(self.emitted_actions@.take(i as int) =~= self.emitted_actions@.take(
                i - 1,
            ).push(self.emitted_actions@[i - 1]));
        }
        assert(self.emitted_actions@.take(i as int) =~= self.emitted_actions@);
        out
    }

    /// Sets the routing tag of an emitted activity.
    pub fn set_activity_tag(&mut self, token: u64, tag: String)
        requires
            old(self).wf(),
            future::activity_emitted(old(self)@.emitted, token),
        ensures
            final(self).wf(),
            final(self)@ == (CtxModel {
                emitted: future::tagged(old(self)@.emitted, token, tag),
                ..old(self)@
            }),
    {
        let ghost before = self.emitted_actions@;
        let ghost p = assoc::position(before, token);
        assert(before[p].0 == token);
        let mut i: usize = 0;
        while i < self.emitted_actions.len() && self.emitted_actions[i].0 != token
            invariant
                *self == *old(self),
                self.wf(),
                before == self.emitted_actions@,
                0 <= p < before.len(),
                before[p].0 == token,
                i <= p,
            decreases before.len() - i,
        {
            i += 1;
        }
        assert(i == p);
        if let Action::CallActivity { scheduling_event_id, name, input, session_id, .. } =
            &self.emitted_actions[i].1 {
            let action = Action::CallActivity {
                scheduling_event_id: *scheduling_event_id,
                name: name.clone(),
                input: input.clone(),
                session_id: copy_text(session_id),
                tag: Some(tag),
            };
            self.emitted_actions.set(i, (token, action));
        }
    }

    /// The instance identifier.
    pub fn instance_id(&self) -> (r: String)
        ensures
            r == self@.instance_id,
    {
        self.instance_id.clone()
    }

    /// The execution within the instance.
    pub fn execution_id(&self) -> (r: u64)
        ensures
            r == self@.execution_id,
    {
        self.execution_id
    }

    /// The orchestration name.
    pub fn orchestration_name(&self) -> (r: String)
        ensures
            r == self@.orchestration_name,
    {
        self.orchestration_name.clone()
    }

    /// The orchestration version.
    pub fn orchestration_version(&self) -> (r: String)
        ensures
            r == self@.orchestration_version,
    {
        self.orchestration_version.clone()
    }

    /// How many more actions can be emitted.
    pub fn tokens_left(&self) -> (r: u64)
        ensures
            r == u64::MAX - self@.next_token,
    {
        u64::MAX - self.next_token
    }

    /// Whether logging is enabled for the current poll.
    pub fn is_logging_enabled(&self) -> (r: bool)
        ensures
            r == self@.logging_enabled,
    {
        self.logging_enabled_this_poll
    }

    /// The custom status, if one is set.
    pub fn get_custom_status(&self) -> (r: Option<String>)
        ensures
            r == self@.custom_status,
    {
        copy_text(&self.accumulated_custom_status)
    }

    /// The statistics as of the last turn that was acknowledged.
    pub fn get_system_stats(&self) -> (r: Option<SystemStats>)
        ensures
            r == self@.system_stats,
    {
        self.system_stats
    }

    /// Takes over the statistics that the last acknowledged turn left.
    pub fn seed_system_stats(&mut self, stats: SystemStats)
        requires
            old(self).wf(),
        ensures
            final(self).wf(),
            final(self)@ == (CtxModel { system_stats: Some(stats), ..old(self)@ }),
    {
        self.system_stats = Some(stats);
    }

    /// Takes over the custom status that earlier turns left.
    pub fn seed_custom_status(&mut self, status: Option<String>)
        requires
            old(self).wf(),
        ensures
            final(self).wf(),
            final(self)@ == (CtxModel { custom_status: status, ..old(self)@ }),
    {
        self.accumulated_custom_status = status;
    }

    /// Sets or clears the custom status, and emits the change.
    pub fn set_status(&mut self, status: Option<String>)
        requires
            old(self).wf(),
            old(self)@.next_token < u64::MAX,
        ensures
            final(self).wf(),
            final(self)@ == orchestration::status_updated(old(self)@, status),
    {
        self.accumulated_custom_status = copy_text(&status);
        let _ = self.emit_action(Action::UpdateCustomStatus { status });
    }

    /// Puts a key-value entry in place, with its time of update.
    pub fn seed_kv_value(&mut self, key: String, value: String, last_updated_at_ms: u64)
        requires
            old(self).wf(),
        ensures
            final(self).wf(),
            final(self)@ == (CtxModel {
                kv: assoc::upsert(old(self)@.kv, key, value),
                kv_updated: assoc::upsert(old(self)@.kv_updated, key, last_updated_at_ms),
                ..old(self)@
            }),
    {
        self.kv_state.insert(key.clone(), value);
        self.kv_metadata.insert(key, last_updated_at_ms);
    }

    /// The value under a key.
    pub fn get_kv_value(&self, key: &str) -> (r: Option<String>)
        requires
            self.wf(),
        ensures
            r == orchestration::kv_value(self@, key@),
    {
        let owned: String = key.to_string();
        match self.kv_state.get(&owned) {
            Some(v) => Some(v.clone()),
            None => None,
        }
    }

    /// All key-value entries.
    pub fn get_kv_all_values(&self) -> (r: Vec<(String, String)>)
        requires
            self.wf(),
        ensures
            r@ == self@.kv,
    {
        let entries = self.kv_state.as_vec();
        let mut out: Vec<(String, String)> = Vec::new();
        let mut i: usize = 0;
        while i < entries.len()
            invariant
                i <= entries@.len(),
                out@ == entries@.take(i as int),
            decreases entries@.len() - i,
        {
            out.push((entries[i].0.clone(), entries[i].1.clone()));
            i += 1;
            assert(entries@.take(i as int) =~= entries@.take(i - 1).push(entries@[i - 1]));
        }
        assert(entries@.take(i as int) =~= entries@);
        out
    }

    /// All keys.
    pub fn get_kv_all_keys(&self) -> (r: Vec<String>)
        requires
            self.wf(),
        ensures
            r@ == self@.kv.map_values(|e: (String, String)| e.0),
    {
        let entries = self.kv_state.as_vec();
        let mut out: Vec<String> = Vec::new();
        let mut i: usize = 0;
        while i < entries.len()
            invariant
                i <= entries@.len(),
                out@.len() == i,
                forall|j: int| 0 <= j < i ==> out@[j] == (#[trigger] entries@[j]).0,
            decreases entries@.len() - i,
        {
            out.push(entries[i].0.clone());
            i += 1;
        }
        assert(out@ =~= self@.kv.map_values(|e: (String, String)| e.0));
        out
    }

    /// The number of keys.
    pub fn get_kv_length(&self) -> (r: usize)
        requires
            self.wf(),
        ensures
            r == self@.kv.len(),
    {
        self.kv_state.len()
    }

    /// Takes a key out.
    pub fn remove_kv(&mut self, key: &String)
        requires
            old(self).wf(),
        ensures
            final(self).wf(),
            final(self)@ == (CtxModel {
                kv: assoc::without(old(self)@.kv, key@),
                kv_updated: assoc::without(old(self)@.kv_updated, key@),
                ..old(self)@
            }),
    {
        self.kv_state.remove(key);
        self.kv_metadata.remove(key);
    }

    /// Takes all keys out.
    pub fn remove_all_kv(&mut self)
        requires
            old(self).wf(),
        ensures
            final(self).wf(),
            final(self)@ == (CtxModel { kv: Seq::empty(), kv_updated: Seq::empty(), ..old(self)@ }),
    {
        self.kv_state.clear();
        self.kv_metadata.clear();
    }

    /// The keys last updated before `bound` that have a value.
    pub fn prunable_keys(&self, bound: u64) -> (r: Vec<String>)
        requires
            self.wf(),
        ensures
            r@ == orchestration::prunable(self@.kv_updated, self@.kv, bound),
    {
        let entries = self.kv_metadata.as_vec();
        let mut keys: Vec<String> = Vec::new();
        let mut i: usize = 0;
        assert(entries@.take(0) =~= Seq::empty());
        while i < entries.len()
            invariant
                self.wf(),
                entries@ == self@.kv_updated,
                i <= entries@.len(),
                keys@ == orchestration::prunable(entries@.take(i as int), self@.kv, bound),
            decreases entries@.len() - i,
        {
            assert(entries@.take(i + 1).drop_last() =~= entries@.take(i as int));
            assert(entries@.take(i + 1).last() == entries@[i as int]);
            if entries[i].1 < bound && self.kv_state.contains_key(&entries[i].0) {
                keys.push(entries[i].0.clone());
            }
            i += 1;
        }
        assert(entries@.take(i as int) =~= entries@);
        keys
    }
}

/// `token` is bound to `schedule_id`.
pub open spec fn bound_to(bindings: Map<u64, u64>, token: u64, schedule_id: u64) -> bool {
    bindings.contains_key(token) && bindings[token] == schedule_id
}

/// What delivering a result changes: a token bound to the schedule ID gets it,
/// and where none is bound nothing changes.
pub open spec fn result_delivered(
    before: CtxModel,
    after: CtxModel,
    schedule_id: u64,
    result: CompletionResult,
) -> bool {
    if exists|t: u64| bound_to(before.bindings, t, schedule_id) {
        exists|t: u64|
            #[trigger] bound_to(before.bindings, t, schedule_id) && after == (CtxModel {
                results: before.results.insert(t, result),
                ..before
            })
    } else {
        after == before
    }
}

proof fn lemma_first_unique(subs: Seq<(u64, String)>, sid: u64, p: int)
    requires
        mailbox::first_at(subs, sid, p),
    ensures
        forall|q: int| mailbox::first_at(subs, sid, q) ==> q == p,
{
}

/// Every emitted action uses up one token: it is handed out last, and one fewer
/// is left.
pub proof fn law_tokens_are_counted(
    ctx: &mut CtxInner,
    action: Action,
    token: u64,
    before: u64,
    left_before: u64,
    after: u64,
    left_after: u64,
)
    requires
        call_ensures(CtxInner::last_token, (&*old(ctx),), before),
        call_ensures(CtxInner::tokens_left, (&*old(ctx),), left_before),
        call_ensures(CtxInner::emit_action, (ctx, action), token),
        call_ensures(CtxInner::last_token, (&*final(ctx),), after),
        call_ensures(CtxInner::tokens_left, (&*final(ctx),), left_after),
    ensures
        after == token,
        token == before + 1,
        left_after == left_before - 1,
        before + left_before == u64::MAX,
{
}

} // verus!
