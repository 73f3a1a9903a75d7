//! Runs the validation scripts against a store in memory, and against stores
//! that are broken in one way each.
use duroxide::context::SystemStats;
use duroxide::provider::{DeleteInstanceResult, ProviderError, PruneResult, WorkItem};
use duroxide::provider_validation::reply::{
    ExecutionInfo, InstanceInfo, InstanceTree, OrchestrationItem, Reply,
};
use duroxide::provider_validation::runner::{again, AckBody, Next, Request, Run, Task};
use duroxide::provider_validation::script::{lock_tenths, Call, Step};
use duroxide::provider_validation::{
    atomicity, bulk_deletion, cancellation, custom_status, deletion, error_handling,
    instance_creation, instance_locking, lock_expiration, long_polling, management,
    multi_execution, poison_message, prune,
};
use duroxide::time::Duration;
use duroxide::{Event, EventKind};
use std::collections::BTreeMap;

const START_MS: u64 = 1_700_000_000_000;

/// The ways in which a store can be broken.
#[derive(Clone, Copy, PartialEq, Eq, Debug)]
enum Fault {
    Sound,
    /// A failed acknowledgement appends its events all the same.
    AppendsBeforeChecking,
    /// Locks do not expire.
    LocksForever,
    /// Locked instances are handed out again.
    IgnoresLocks,
    /// Every token is the same.
    OneToken,
    /// Cancelled activities stay.
    KeepsCancelled,
    /// A deletion leaves the children.
    LeavesChildren,
    /// Attempts are not counted.
    CountsNoAttempts,
    /// Events of all executions are read together.
    MixesExecutions,
    /// The version of the custom status stays.
    KeepsStatusVersion,
    /// There are no management operations.
    NoManagement,
    /// A corrupt history is read as an empty one.
    HidesCorruption,
    /// Pruning removes the current execution too.
    PrunesCurrent,
}

#[derive(Clone)]
struct Execution {
    status: String,
    output: Option<String>,
    history: Vec<Event>,
    completed_at: Option<u64>,
}

#[derive(Clone)]
struct Instance {
    name: String,
    version: String,
    current: u64,
    executions: BTreeMap<u64, Execution>,
    custom_status: Option<String>,
    status_version: u64,
    parent: Option<String>,
    corrupt: bool,
    keys: BTreeMap<String, String>,
}

#[derive(Clone)]
struct Message {
    item: WorkItem,
    visible_at: u128,
    batch: Option<String>,
    attempts: u32,
}

#[derive(Clone)]
struct Work {
    item: WorkItem,
    visible_at: u128,
    lock: Option<(String, u128)>,
    attempts: u32,
}

struct Store {
    fault: Fault,
    waits: bool,
    now: u128,
    tokens: u64,
    instances: BTreeMap<String, Instance>,
    order: Vec<String>,
    messages: Vec<Message>,
    work: Vec<Work>,
    locks: BTreeMap<String, (String, u128)>,
}

fn target(item: &WorkItem) -> String {
    match item {
        WorkItem::StartOrchestration { instance, .. } => instance.clone(),
        WorkItem::ActivityExecute { instance, .. } => instance.clone(),
        WorkItem::ActivityCompleted { instance, .. } => instance.clone(),
        WorkItem::TimerFired { instance, .. } => instance.clone(),
        WorkItem::ExternalRaised { instance, .. } => instance.clone(),
        WorkItem::ExternalRaised2 { instance, .. } => instance.clone(),
        WorkItem::QueueMessage { instance, .. } => instance.clone(),
        WorkItem::CancelInstance { instance, .. } => instance.clone(),
        WorkItem::ContinueAsNew { instance, .. } => instance.clone(),
    }
}

fn permanent(operation: &str, message: &str) -> Reply {
    Reply::Failed(ProviderError {
        message: message.to_string(),
        text: format!("{operation}: {message}"),
        retryable: false,
    })
}

fn terminal(status: &str) -> bool {
    status == "Completed" || status == "Failed" || status == "ContinuedAsNew" || status == "Cancelled"
}

impl Store {
    fn new(fault: Fault, waits: bool) -> Self {
        Store {
            fault,
            waits,
            now: START_MS as u128 * 1_000_000,
            tokens: 0,
            instances: BTreeMap::new(),
            order: Vec::new(),
            messages: Vec::new(),
            work: Vec::new(),
            locks: BTreeMap::new(),
        }
    }

    fn now_ms(&self) -> u64 {
        (self.now / 1_000_000) as u64
    }

    fn token(&mut self) -> String {
        if self.fault != Fault::OneToken {
            self.tokens += 1;
        }
        format!("token-{}", self.tokens)
    }

    fn is_locked(&self, instance: &str) -> bool {
        match self.locks.get(instance) {
            Some((_, until)) => self.fault == Fault::LocksForever || *until > self.now,
            None => false,
        }
    }

    fn fetch_turn(&mut self, lock: u128) -> Option<Reply> {
        let mut found = None;
        for m in &self.messages {
            let instance = target(&m.item);
            let locked = self.is_locked(&instance) && self.fault != Fault::IgnoresLocks;
            if m.visible_at <= self.now && !locked {
                found = Some(instance);
                break;
            }
        }
        let instance = found?;
        let token = self.token();
        self.locks.insert(instance.clone(), (token.clone(), self.now + lock));
        let mut batch = Vec::new();
        let mut attempts = 0;
        let counts = self.fault != Fault::CountsNoAttempts;
        for m in &mut self.messages {
            if target(&m.item) == instance && m.visible_at <= self.now {
                m.batch = Some(token.clone());
                if counts {
                    m.attempts += 1;
                }
                attempts = attempts.max(m.attempts);
                batch.push(m.item.clone());
            }
        }
        let (mut name, mut version) = ("Unknown".to_string(), "unknown".to_string());
        for item in &batch {
            if let WorkItem::StartOrchestration { orchestration, version: v, .. }
            | WorkItem::ContinueAsNew { orchestration, version: v, .. } = item
            {
                name = orchestration.clone();
                if let Some(v) = v {
                    version = v.clone();
                }
            }
        }
        let mut execution_id = 1;
        let mut history = Vec::new();
        if let Some(i) = self.instances.get(&instance) {
            name = i.name.clone();
            version = i.version.clone();
            execution_id = i.current;
            history = i.executions.get(&i.current).map(|e| e.history.clone()).unwrap_or_default();
        }
        let item = OrchestrationItem {
            instance,
            orchestration_name: name,
            execution_id,
            version,
            history,
            messages: batch,
        };
        Some(Reply::Turn(item, token, attempts))
    }

    fn fetch_work(&mut self, lock: u128) -> Option<Reply> {
        let now = self.now;
        let forever = self.fault == Fault::LocksForever;
        let at = self.work.iter().position(|w| {
            w.visible_at <= now
                && match &w.lock {
                    Some((_, until)) => !forever && *until <= now,
                    None => true,
                }
        })?;
        let token = self.token();
        let counts = self.fault != Fault::CountsNoAttempts;
        let w = &mut self.work[at];
        w.lock = Some((token.clone(), now + lock));
        if counts {
            w.attempts += 1;
        }
        Some(Reply::Work(w.item.clone(), token, w.attempts))
    }

    /// The instance that a live token locks.
    fn locked_by(&self, token: &str) -> Option<String> {
        for (instance, (t, until)) in &self.locks {
            if t == token && (self.fault == Fault::LocksForever || *until > self.now) {
                return Some(instance.clone());
            }
        }
        None
    }

    fn work_under(&self, token: &str) -> Option<usize> {
        self.work.iter().position(|w| match &w.lock {
            Some((t, until)) => t == token && (self.fault == Fault::LocksForever || *until > self.now),
            None => false,
        })
    }

    fn ack(&mut self, token: &str, execution_id: u64, body: &AckBody) -> Reply {
        let instance = match self.locked_by(token) {
            Some(i) => i,
            None => return permanent("ack_orchestration_item", "Invalid lock token"),
        };
        let now_ms = self.now_ms();
        let existing: Vec<u64> = match self.instances.get(&instance) {
            Some(i) => match i.executions.get(&execution_id) {
                Some(e) => e.history.iter().map(|e| e.event_id).collect(),
                None => Vec::new(),
            },
            None => Vec::new(),
        };
        let duplicate = body.events.iter().any(|e| existing.contains(&e.event_id));
        if duplicate && self.fault != Fault::AppendsBeforeChecking {
            return permanent("ack_orchestration_item", "duplicate event");
        }
        let mut first = ("Unknown".to_string(), "unknown".to_string(), None);
        for m in &self.messages {
            if m.batch.as_deref() == Some(token) {
                if let WorkItem::StartOrchestration {
                    orchestration,
                    version,
                    parent_instance,
                    ..
                } = &m.item
                {
                    first.0 = orchestration.clone();
                    if let Some(v) = version {
                        first.1 = v.clone();
                    }
                    first.2 = parent_instance.clone();
                }
            }
        }
        if !self.instances.contains_key(&instance) {
            self.order.push(instance.clone());
            self.instances.insert(
                instance.clone(),
                Instance {
                    name: first.0,
                    version: first.1,
                    current: execution_id,
                    executions: BTreeMap::new(),
                    custom_status: None,
                    status_version: 0,
                    parent: first.2,
                    corrupt: false,
                    keys: BTreeMap::new(),
                },
            );
        }
        let keeps_version = self.fault == Fault::KeepsStatusVersion;
        let i = self.instances.get_mut(&instance).unwrap();
        if let Some(n) = body.metadata.orchestration_name {
            i.name = n.to_string();
        }
        if let Some(v) = body.metadata.orchestration_version {
            i.version = v.to_string();
        }
        if let Some(p) = body.metadata.parent_instance_id {
            i.parent = Some(p.to_string());
        }
        i.current = i.current.max(execution_id);
        let e = i.executions.entry(execution_id).or_insert(Execution {
            status: "Running".to_string(),
            output: None,
            history: Vec::new(),
            completed_at: None,
        });
        for event in &body.events {
            e.history.push(event.event(now_ms));
        }
        if let Some(s) = body.metadata.status {
            e.status = s.to_string();
            if terminal(s) {
                e.completed_at = Some(now_ms);
            }
        }
        if let Some(o) = body.metadata.output {
            e.output = Some(o.to_string());
        }
        for event in &body.events {
            match event.fact.kind() {
                EventKind::CustomStatusUpdated { status } => {
                    i.custom_status = status;
                    if !keeps_version {
                        i.status_version += 1;
                    }
                }
                EventKind::KeyValueSet { key, value, .. } => {
                    i.keys.insert(key, value);
                }
                _ => {}
            }
        }
        if duplicate {
            return permanent("ack_orchestration_item", "duplicate event");
        }
        self.messages.retain(|m| m.batch.as_deref() != Some(token));
        for item in &body.work {
            self.put_work(item.message());
        }
        for item in &body.messages {
            self.put(item.message());
        }
        if self.fault != Fault::KeepsCancelled {
            for c in &body.cancelled {
                self.work.retain(|w| match &w.item {
                    WorkItem::ActivityExecute { instance, execution_id, id, .. } => {
                        !(instance == c.instance
                            && *execution_id == c.execution_id
                            && *id == c.activity_id)
                    }
                    _ => true,
                });
            }
        }
        self.locks.remove(&instance);
        Reply::Done
    }

    fn put(&mut self, item: WorkItem) {
        let visible_at = match &item {
            WorkItem::TimerFired { fire_at_ms, .. } => *fire_at_ms as u128 * 1_000_000,
            _ => self.now,
        };
        self.messages.push(Message { item, visible_at, batch: None, attempts: 0 });
    }

    fn put_work(&mut self, item: WorkItem) {
        self.work.push(Work { item, visible_at: self.now, lock: None, attempts: 0 });
    }

    fn ack_work(&mut self, token: &str, completion: Option<WorkItem>) -> Reply {
        match self.work_under(token) {
            Some(at) => {
                self.work.remove(at);
                if let Some(item) = completion {
                    self.put(item);
                }
                Reply::Done
            }
            None => permanent("ack_work_item", "Invalid lock token or entry not found"),
        }
    }

    fn read(&self, instance: &str, execution: Option<u64>) -> Reply {
        match self.instances.get(instance) {
            None => Reply::History(Vec::new()),
            Some(i) => {
                if i.corrupt {
                    if self.fault == Fault::HidesCorruption {
                        return Reply::History(Vec::new());
                    }
                    return permanent("read", "deserialization failed: corrupt history");
                }
                if self.fault == Fault::MixesExecutions {
                    let all = i.executions.values().flat_map(|e| e.history.clone()).collect();
                    return Reply::History(all);
                }
                let id = execution.unwrap_or(i.current);
                let history = i.executions.get(&id).map(|e| e.history.clone()).unwrap_or_default();
                Reply::History(history)
            }
        }
    }

    fn status_of(&self, instance: &str) -> Option<String> {
        let i = self.instances.get(instance)?;
        Some(i.executions.get(&i.current).map(|e| e.status.clone()).unwrap_or_default())
    }

    fn children(&self, instance: &str) -> Vec<String> {
        let mut all = Vec::new();
        for id in &self.order {
            if self.instances.get(id).and_then(|i| i.parent.clone()).as_deref() == Some(instance) {
                all.push(id.clone());
            }
        }
        all
    }

    fn tree(&self, instance: &str) -> Vec<String> {
        let mut all = vec![instance.to_string()];
        let mut at = 0;
        while at < all.len() {
            let more = self.children(&all[at]);
            all.extend(more);
            at += 1;
        }
        all
    }

    fn remove(&mut self, ids: &[String]) -> DeleteInstanceResult {
        let mut r = DeleteInstanceResult {
            instances_deleted: 0,
            executions_deleted: 0,
            events_deleted: 0,
            queue_messages_deleted: 0,
        };
        for id in ids {
            if let Some(i) = self.instances.remove(id) {
                r.instances_deleted += 1;
                r.executions_deleted += i.executions.len() as u64;
                for e in i.executions.values() {
                    r.events_deleted += e.history.len() as u64;
                }
            }
            let before = self.messages.len() + self.work.len();
            self.messages.retain(|m| target(&m.item) != *id);
            self.work.retain(|w| target(&w.item) != *id);
            r.queue_messages_deleted += (before - self.messages.len() - self.work.len()) as u64;
            self.locks.remove(id);
        }
        let gone: Vec<String> = ids.to_vec();
        self.order.retain(|id| !gone.contains(id));
        r
    }

    fn delete(&mut self, instance: &str, force: bool) -> Reply {
        let parent = match self.instances.get(instance) {
            None => return permanent("delete_instance", "Instance not found"),
            Some(i) => i.parent.clone(),
        };
        if parent.is_some() {
            return permanent("delete_instance", "Cannot delete sub-orchestration directly");
        }
        let ids = if self.fault == Fault::LeavesChildren {
            vec![instance.to_string()]
        } else {
            self.tree(instance)
        };
        self.delete_all(&ids, force, false)
    }

    fn delete_all(&mut self, ids: &[String], force: bool, closed: bool) -> Reply {
        for id in ids {
            if !force && self.status_of(id).map(|s| !terminal(&s)).unwrap_or(false) {
                return permanent("delete_instance", "Instance is still running");
            }
        }
        if closed {
            for id in ids {
                for child in self.children(id) {
                    if !ids.contains(&child) {
                        return permanent("delete_instances_atomic", "would orphan a child");
                    }
                }
            }
        }
        Reply::Deleted(self.remove(ids))
    }

    fn delete_matching(&mut self, listed: Option<Vec<String>>, before: Option<u64>, limit: u32) -> Reply {
        let mut chosen = Vec::new();
        for id in &self.order {
            let i = &self.instances[id];
            if i.parent.is_some() {
                continue;
            }
            if let Some(ids) = &listed {
                if !ids.contains(id) {
                    continue;
                }
            }
            let e = match i.executions.get(&i.current) {
                Some(e) => e,
                None => continue,
            };
            if !terminal(&e.status) {
                continue;
            }
            if let Some(t) = before {
                match e.completed_at {
                    Some(c) if c < t => {}
                    _ => continue,
                }
            }
            if (chosen.len() as u32) < limit {
                chosen.push(id.clone());
            }
        }
        let mut ids = Vec::new();
        for id in &chosen {
            ids.extend(self.tree(id));
        }
        Reply::Deleted(self.remove(&ids))
    }

    fn prune_one(&mut self, instance: &str, keep_last: Option<u32>) -> Option<(u64, u64)> {
        let prunes_current = self.fault == Fault::PrunesCurrent;
        let i = self.instances.get_mut(instance)?;
        let mut ids: Vec<u64> = i.executions.keys().copied().collect();
        ids.sort();
        ids.reverse();
        let keep = keep_last.unwrap_or(0) as usize;
        let mut events = 0;
        let mut n = 0;
        for (at, id) in ids.iter().enumerate() {
            if at < keep {
                continue;
            }
            if !prunes_current && (*id == i.current || !terminal(&i.executions[id].status)) {
                continue;
            }
            if let Some(e) = i.executions.remove(id) {
                n += 1;
                events += e.history.len() as u64;
            }
        }
        Some((n, events))
    }

    fn stats(&self, instance: &str) -> Reply {
        match self.instances.get(instance) {
            None => Reply::Nothing,
            Some(i) => {
                let history = match i.executions.get(&i.current) {
                    Some(e) => e.history.clone(),
                    None => Vec::new(),
                };
                let mut pending = 0;
                for e in &history {
                    if let EventKind::OrchestrationStarted { carry_forward_events: Some(c), .. } = &e.kind
                    {
                        pending = c.len() as u64;
                    }
                }
                let size: usize = history.iter().map(|e| format!("{:?}", e.kind).len()).sum();
                Reply::Stats(SystemStats {
                    history_event_count: history.len() as u64,
                    history_size_bytes: size as u64,
                    queue_pending_count: pending,
                    kv_user_key_count: i.keys.len() as u64,
                    kv_total_value_bytes: i.keys.values().map(|v| v.len() as u64).sum(),
                })
            }
        }
    }

    fn is_management(call: &Call) -> bool {
        matches!(
            call,
            Call::Management
                | Call::ListInstances
                | Call::ListByStatus(_)
                | Call::ListExecutions(_)
                | Call::ListChildren(_)
                | Call::ParentOf(_)
                | Call::Tree(_)
                | Call::InstanceInfo(_)
                | Call::ExecutionInfo(_, _)
                | Call::Metrics
                | Call::Depths
                | Call::Delete(_, _)
                | Call::DeleteListed(_)
                | Call::DeleteMatching(_, _, _)
                | Call::Prune(_, _)
                | Call::PruneListed(_)
        )
    }

    fn reply(&mut self, q: &Request) -> Reply {
        if self.fault == Fault::NoManagement && Store::is_management(&q.call) {
            return Reply::NoManagement;
        }
        let token = q.token.clone().unwrap_or_default();
        let span = q.span.as_nanos();
        let poll = q.poll.as_nanos();
        let ids: Vec<String> = q.ids.iter().map(|s| s.to_string()).collect();
        match q.call {
            Call::Put(item) => {
                self.put(item.message());
                Reply::Done
            }
            Call::PutWork(item) => {
                self.put_work(item.message());
                Reply::Done
            }
            Call::FetchTurn(_, _) => match self.fetch_turn(span) {
                Some(r) => r,
                None => {
                    if self.waits {
                        self.now += poll;
                    }
                    self.fetch_turn(span).unwrap_or(Reply::Nothing)
                }
            },
            Call::FetchWork(_, _) => match self.fetch_work(span) {
                Some(r) => r,
                None => {
                    if self.waits {
                        self.now += poll;
                    }
                    self.fetch_work(span).unwrap_or(Reply::Nothing)
                }
            },
            Call::Ack(_, execution_id) => self.ack(&token, execution_id, &q.ack),
            Call::AckWork(_, completion) => {
                let completion = completion.map(|c| c.message());
                self.ack_work(&token, completion)
            }
            Call::AckWorkAs(_, instance, execution_id, _, result) => {
                let completion = WorkItem::ActivityCompleted {
                    instance: instance.to_string(),
                    execution_id,
                    id: q.number.unwrap(),
                    result: result.to_string(),
                };
                self.ack_work(&token, Some(completion))
            }
            Call::AbandonTurn(_, ignore) => match self.locked_by(&token) {
                Some(instance) => {
                    for m in &mut self.messages {
                        if m.batch.as_deref() == Some(token.as_str()) {
                            m.batch = None;
                            if ignore {
                                m.attempts = m.attempts.saturating_sub(1);
                            }
                        }
                    }
                    self.locks.remove(&instance);
                    Reply::Done
                }
                None => permanent("abandon_orchestration_item", "Invalid lock token"),
            },
            Call::AbandonWork(_, delay, ignore) => match self.work_under(&token) {
                Some(at) => {
                    let now = self.now;
                    let w = &mut self.work[at];
                    w.lock = None;
                    w.visible_at = if delay.is_some() { now + span } else { now };
                    if ignore {
                        w.attempts = w.attempts.saturating_sub(1);
                    }
                    Reply::Done
                }
                None => permanent("abandon_work_item", "Invalid lock token"),
            },
            Call::RenewTurn(_, _) => match self.locked_by(&token) {
                Some(instance) => {
                    self.locks.insert(instance, (token, self.now + span));
                    Reply::Done
                }
                None => permanent("renew_orchestration_item_lock", "Lock token invalid or expired"),
            },
            Call::RenewWork(_, _) => match self.work_under(&token) {
                Some(at) => {
                    self.work[at].lock = Some((token, self.now + span));
                    Reply::Done
                }
                None => permanent("renew_work_item_lock", "Lock token invalid or expired"),
            },
            Call::Read(instance) => self.read(instance, None),
            Call::ReadExecution(instance, id) => self.read(instance, Some(id)),
            Call::CustomStatus(instance, version) => match self.instances.get(instance) {
                Some(i) if i.status_version > version => {
                    Reply::CustomStatus(i.custom_status.clone(), i.status_version)
                }
                _ => Reply::Nothing,
            },
            Call::Stats(instance) => self.stats(instance),
            Call::ListInstances => Reply::Names(self.order.clone()),
            Call::ListByStatus(status) => {
                let mut names = Vec::new();
                for id in &self.order {
                    if self.status_of(id).as_deref() == Some(status) {
                        names.push(id.clone());
                    }
                }
                Reply::Names(names)
            }
            Call::ListExecutions(instance) => match self.instances.get(instance) {
                Some(i) => Reply::Executions(i.executions.keys().copied().collect()),
                None => Reply::Executions(Vec::new()),
            },
            Call::ListChildren(instance) => Reply::Names(self.children(instance)),
            Call::ParentOf(instance) => match self.instances.get(instance) {
                Some(i) => Reply::Parent(i.parent.clone()),
                None => permanent("get_parent_id", "Instance not found"),
            },
            Call::Tree(instance) => Reply::Tree(InstanceTree {
                root_id: instance.to_string(),
                all_ids: self.tree(instance),
            }),
            Call::InstanceInfo(instance) => match self.instances.get(instance) {
                Some(i) => Reply::Instance(InstanceInfo {
                    instance_id: instance.to_string(),
                    orchestration_name: i.name.clone(),
                    orchestration_version: i.version.clone(),
                    current_execution_id: i.current,
                    status: self.status_of(instance).unwrap(),
                }),
                None => permanent("get_instance_info", "Instance not found"),
            },
            Call::ExecutionInfo(instance, id) => match self.instances.get(instance) {
                Some(i) => match i.executions.get(&id) {
                    Some(e) => Reply::Execution(ExecutionInfo {
                        execution_id: id,
                        status: e.status.clone(),
                        output: e.output.clone(),
                    }),
                    None => permanent("get_execution_info", "Execution not found"),
                },
                None => permanent("get_execution_info", "Instance not found"),
            },
            Call::Management => Reply::Done,
            Call::Metrics => {
                let events: usize = self
                    .instances
                    .values()
                    .flat_map(|i| i.executions.values())
                    .map(|e| e.history.len())
                    .sum();
                Reply::Metrics(self.instances.len() as u64, events as u64)
            }
            Call::Depths => Reply::Depths(self.messages.len() as u64),
            Call::Delete(instance, force) => self.delete(instance, force),
            Call::DeleteListed(force) => self.delete_all(&ids, force, true),
            Call::DeleteMatching(listed, _, limit) => {
                let filter = if listed { Some(ids) } else { None };
                self.delete_matching(filter, q.number, limit.unwrap_or(1000))
            }
            Call::Prune(instance, keep) => match self.prune_one(instance, keep) {
                Some((n, events)) => Reply::Pruned(PruneResult {
                    instances_processed: 1,
                    executions_deleted: n,
                    events_deleted: events,
                }),
                None => permanent("prune_executions", "Instance not found"),
            },
            Call::PruneListed(keep) => {
                let mut r = PruneResult {
                    instances_processed: 0,
                    executions_deleted: 0,
                    events_deleted: 0,
                };
                for id in &ids {
                    if let Some((n, events)) = self.prune_one(id, keep) {
                        r.instances_processed += 1;
                        r.executions_deleted += n;
                        r.events_deleted += events;
                    }
                }
                Reply::Pruned(r)
            }
            Call::Corrupt(instance) => match self.instances.get_mut(instance) {
                Some(i) => {
                    i.corrupt = true;
                    Reply::Done
                }
                None => permanent("corrupt", "Instance not found"),
            },
            Call::Clock => Reply::Clock(self.now_ms()),
            Call::Sleep(_) => {
                self.now += span;
                Reply::Done
            }
        }
    }

    /// Makes requests together: each after its delay, and tried again where
    /// that is allowed.
    fn together(&mut self, tasks: &[Task]) -> Vec<Reply> {
        let start = self.now;
        let mut order: Vec<usize> = (0..tasks.len()).collect();
        order.sort_by_key(|i| tasks[*i].delay.as_nanos());
        let mut replies: Vec<Option<Reply>> = tasks.iter().map(|_| None).collect();
        let mut end = start;
        for i in order {
            let task = &tasks[i];
            self.now = self.now.max(start + task.delay.as_nanos());
            let mut attempt = 0;
            let mut r = self.reply(&task.request);
            while task.retries {
                match again(attempt, &r) {
                    Some(ms) => {
                        self.now += ms as u128 * 1_000_000;
                        attempt += 1;
                        r = self.reply(&task.request);
                    }
                    None => break,
                }
            }
            end = end.max(self.now + task.hold.as_nanos());
            replies[i] = Some(r);
        }
        self.now = end;
        replies.into_iter().map(|r| r.unwrap()).collect()
    }
}

fn nanos(n: u128) -> Duration {
    Duration::saturating_from_nanos(n)
}

/// Runs a script to its end: `Ok` where it passes, and else the place of
/// the step that was not met.
fn outcome(script: Vec<Step>, fault: Fault, waits: bool) -> Result<(), usize> {
    let mut store = Store::new(fault, waits);
    let mut run = Run::new(script, Duration::from_secs(1), nanos(100_000_000));
    loop {
        assert!(!run.is_waiting());
        let next = run.step();
        let next = match next {
            Next::Ask(q) => {
                assert!(run.is_waiting() && !run.awaits_group());
                let before = store.now;
                let r = store.reply(&q);
                run.answer(r, nanos(store.now - before))
            }
            Next::Together(tasks, _) => {
                assert!(run.awaits_group());
                let replies = store.together(&tasks);
                run.answer_together(replies)
            }
            other => other,
        };
        match next {
            Next::Go => {}
            Next::Passed => return Ok(()),
            _ => return Err(run.position()),
        }
    }
}

fn passes(scripts: Vec<(&str, Vec<Step>)>) {
    for (name, script) in scripts {
        let shown: Vec<String> = script.iter().map(|s| format!("{s:?}")).collect();
        if let Err(at) = outcome(script, Fault::Sound, false) {
            panic!("{name} stops at step {at}: {}", shown[at]);
        }
    }
}

#[test]
fn atomicity_scripts_pass() {
    passes(vec![
        ("test_atomicity_failure_rollback", atomicity::test_atomicity_failure_rollback()),
        ("test_multi_operation_atomic_ack", atomicity::test_multi_operation_atomic_ack()),
        ("test_lock_released_only_on_successful_ack", atomicity::test_lock_released_only_on_successful_ack()),
        ("test_concurrent_ack_prevention", atomicity::test_concurrent_ack_prevention()),
    ]);
}

#[test]
fn bulk_deletion_scripts_pass() {
    passes(vec![
        ("test_delete_instance_bulk_filter_combinations", bulk_deletion::test_delete_instance_bulk_filter_combinations()),
        ("test_delete_instance_bulk_safety_and_limits", bulk_deletion::test_delete_instance_bulk_safety_and_limits()),
        ("test_delete_instance_bulk_completed_before_filter", bulk_deletion::test_delete_instance_bulk_completed_before_filter()),
        ("test_delete_instance_bulk_cascades_to_children", bulk_deletion::test_delete_instance_bulk_cascades_to_children()),
    ]);
}

#[test]
fn cancellation_scripts_pass() {
    passes(vec![
        ("test_fetch_returns_running_state_for_active_orchestration", cancellation::test_fetch_returns_running_state_for_active_orchestration()),
        ("test_fetch_returns_terminal_state_when_orchestration_completed", cancellation::test_fetch_returns_terminal_state_when_orchestration_completed()),
        ("test_fetch_returns_terminal_state_when_orchestration_failed", cancellation::test_fetch_returns_terminal_state_when_orchestration_failed()),
        ("test_fetch_returns_terminal_state_when_orchestration_continued_as_new", cancellation::test_fetch_returns_terminal_state_when_orchestration_continued_as_new()),
        ("test_fetch_returns_missing_state_when_instance_deleted", cancellation::test_fetch_returns_missing_state_when_instance_deleted()),
        ("test_renew_returns_running_when_orchestration_active", cancellation::test_renew_returns_running_when_orchestration_active()),
        ("test_renew_returns_terminal_when_orchestration_completed", cancellation::test_renew_returns_terminal_when_orchestration_completed()),
        ("test_renew_returns_missing_when_instance_deleted", cancellation::test_renew_returns_missing_when_instance_deleted()),
        ("test_ack_work_item_none_deletes_without_enqueue", cancellation::test_ack_work_item_none_deletes_without_enqueue()),
        ("test_cancelled_activities_deleted_from_worker_queue", cancellation::test_cancelled_activities_deleted_from_worker_queue()),
        ("test_ack_work_item_fails_when_entry_deleted", cancellation::test_ack_work_item_fails_when_entry_deleted()),
        ("test_renew_fails_when_entry_deleted", cancellation::test_renew_fails_when_entry_deleted()),
        ("test_cancelling_nonexistent_activities_is_idempotent", cancellation::test_cancelling_nonexistent_activities_is_idempotent()),
        ("test_batch_cancellation_deletes_multiple_activities", cancellation::test_batch_cancellation_deletes_multiple_activities()),
        ("test_same_activity_in_worker_items_and_cancelled_is_noop", cancellation::test_same_activity_in_worker_items_and_cancelled_is_noop()),
        ("test_orphan_activity_after_instance_force_deletion", cancellation::test_orphan_activity_after_instance_force_deletion()),
    ]);
}

#[test]
fn custom_status_scripts_pass() {
    passes(vec![
        ("test_custom_status_set", custom_status::test_custom_status_set()),
        ("test_custom_status_clear", custom_status::test_custom_status_clear()),
        ("test_custom_status_none_preserves", custom_status::test_custom_status_none_preserves()),
        ("test_custom_status_version_increments", custom_status::test_custom_status_version_increments()),
        ("test_custom_status_polling_no_change", custom_status::test_custom_status_polling_no_change()),
        ("test_custom_status_nonexistent_instance", custom_status::test_custom_status_nonexistent_instance()),
        ("test_custom_status_default_on_new_instance", custom_status::test_custom_status_default_on_new_instance()),
    ]);
}

#[test]
fn deletion_scripts_pass() {
    passes(vec![
        ("test_delete_terminal_instances", deletion::test_delete_terminal_instances()),
        ("test_delete_running_rejected_force_succeeds", deletion::test_delete_running_rejected_force_succeeds()),
        ("test_delete_nonexistent_instance", deletion::test_delete_nonexistent_instance()),
        ("test_delete_cleans_queues_and_locks", deletion::test_delete_cleans_queues_and_locks()),
        ("test_cascade_delete_hierarchy", deletion::test_cascade_delete_hierarchy()),
        ("test_force_delete_prevents_ack_recreation", deletion::test_force_delete_prevents_ack_recreation()),
        ("test_list_children", deletion::test_list_children()),
        ("test_delete_get_parent_id", deletion::test_delete_get_parent_id()),
        ("test_delete_get_instance_tree", deletion::test_delete_get_instance_tree()),
        ("test_delete_instances_atomic", deletion::test_delete_instances_atomic()),
        ("test_delete_instances_atomic_force", deletion::test_delete_instances_atomic_force()),
        ("test_delete_instances_atomic_orphan_detection", deletion::test_delete_instances_atomic_orphan_detection()),
        ("test_stale_activity_after_delete_recreate", deletion::test_stale_activity_after_delete_recreate()),
    ]);
}

#[test]
fn error_handling_scripts_pass() {
    passes(vec![
        ("test_invalid_lock_token_on_ack", error_handling::test_invalid_lock_token_on_ack()),
        ("test_duplicate_event_id_rejection", error_handling::test_duplicate_event_id_rejection()),
        ("test_missing_instance_metadata", error_handling::test_missing_instance_metadata()),
        ("test_corrupted_serialization_data", error_handling::test_corrupted_serialization_data()),
        ("test_lock_expiration_during_ack", error_handling::test_lock_expiration_during_ack()),
        ("test_read_corrupted_history_returns_error", error_handling::test_read_corrupted_history_returns_error()),
        ("test_read_with_execution_corrupted_history_returns_error", error_handling::test_read_with_execution_corrupted_history_returns_error()),
    ]);
}

#[test]
fn instance_creation_scripts_pass() {
    passes(vec![
        ("test_instance_creation_via_metadata", instance_creation::test_instance_creation_via_metadata()),
        ("test_no_instance_creation_on_enqueue", instance_creation::test_no_instance_creation_on_enqueue()),
        ("test_null_version_handling", instance_creation::test_null_version_handling()),
        ("test_sub_orchestration_instance_creation", instance_creation::test_sub_orchestration_instance_creation()),
    ]);
}

#[test]
fn instance_locking_scripts_pass() {
    passes(vec![
        ("test_exclusive_instance_lock", instance_locking::test_exclusive_instance_lock()),
        ("test_lock_token_uniqueness", instance_locking::test_lock_token_uniqueness()),
        ("test_invalid_lock_token_rejection", instance_locking::test_invalid_lock_token_rejection()),
        ("test_concurrent_instance_fetching", instance_locking::test_concurrent_instance_fetching()),
        ("test_completions_arriving_during_lock_blocked", instance_locking::test_completions_arriving_during_lock_blocked()),
        ("test_cross_instance_lock_isolation", instance_locking::test_cross_instance_lock_isolation()),
        ("test_message_tagging_during_lock", instance_locking::test_message_tagging_during_lock()),
        ("test_ack_only_affects_locked_messages", instance_locking::test_ack_only_affects_locked_messages()),
        ("test_multi_threaded_lock_contention", instance_locking::test_multi_threaded_lock_contention()),
        ("test_multi_threaded_no_duplicate_processing", instance_locking::test_multi_threaded_no_duplicate_processing()),
        ("test_multi_threaded_lock_expiration_recovery", instance_locking::test_multi_threaded_lock_expiration_recovery()),
    ]);
}

#[test]
fn lock_expiration_scripts_pass() {
    passes(vec![
        ("test_lock_expires_after_timeout", lock_expiration::test_lock_expires_after_timeout()),
        ("test_abandon_releases_lock_immediately", lock_expiration::test_abandon_releases_lock_immediately()),
        ("test_lock_renewal_on_ack", lock_expiration::test_lock_renewal_on_ack()),
        ("test_concurrent_lock_attempts_respect_expiration", lock_expiration::test_concurrent_lock_attempts_respect_expiration()),
        ("test_worker_lock_renewal_success", lock_expiration::test_worker_lock_renewal_success()),
        ("test_worker_lock_renewal_invalid_token", lock_expiration::test_worker_lock_renewal_invalid_token()),
        ("test_worker_lock_renewal_after_expiration", lock_expiration::test_worker_lock_renewal_after_expiration()),
        ("test_worker_lock_renewal_extends_timeout", lock_expiration::test_worker_lock_renewal_extends_timeout()),
        ("test_worker_lock_renewal_after_ack", lock_expiration::test_worker_lock_renewal_after_ack()),
        ("test_abandon_work_item_releases_lock", lock_expiration::test_abandon_work_item_releases_lock()),
        ("test_abandon_work_item_with_delay", lock_expiration::test_abandon_work_item_with_delay()),
        ("test_worker_ack_fails_after_lock_expiry", lock_expiration::test_worker_ack_fails_after_lock_expiry()),
        ("test_orchestration_lock_renewal_after_expiration", lock_expiration::test_orchestration_lock_renewal_after_expiration()),
    ]);
}

#[test]
fn management_scripts_pass() {
    passes(vec![
        ("test_list_instances", management::test_list_instances()),
        ("test_list_instances_by_status", management::test_list_instances_by_status()),
        ("test_list_executions", management::test_list_executions()),
        ("test_get_instance_info", management::test_get_instance_info()),
        ("test_get_execution_info", management::test_get_execution_info()),
        ("test_get_system_metrics", management::test_get_system_metrics()),
        ("test_get_queue_depths", management::test_get_queue_depths()),
        ("test_get_instance_stats_nonexistent", management::test_get_instance_stats_nonexistent()),
        ("test_get_instance_stats_history", management::test_get_instance_stats_history()),
        ("test_get_instance_stats_kv", management::test_get_instance_stats_kv()),
        ("test_get_instance_stats_carry_forward", management::test_get_instance_stats_carry_forward()),
        ("test_get_instance_stats_kv_delta_only", management::test_get_instance_stats_kv_delta_only()),
        ("test_get_instance_stats_kv_merged", management::test_get_instance_stats_kv_merged()),
    ]);
}

#[test]
fn multi_execution_scripts_pass() {
    passes(vec![
        ("test_execution_isolation", multi_execution::test_execution_isolation()),
        ("test_latest_execution_detection", multi_execution::test_latest_execution_detection()),
        ("test_execution_id_sequencing", multi_execution::test_execution_id_sequencing()),
        ("test_continue_as_new_creates_new_execution", multi_execution::test_continue_as_new_creates_new_execution()),
        ("test_execution_history_persistence", multi_execution::test_execution_history_persistence()),
    ]);
}

#[test]
fn poison_message_scripts_pass() {
    passes(vec![
        ("orchestration_attempt_count_starts_at_one", poison_message::orchestration_attempt_count_starts_at_one()),
        ("orchestration_attempt_count_increments_on_refetch", poison_message::orchestration_attempt_count_increments_on_refetch()),
        ("worker_attempt_count_starts_at_one", poison_message::worker_attempt_count_starts_at_one()),
        ("worker_attempt_count_increments_on_lock_expiry", poison_message::worker_attempt_count_increments_on_lock_expiry()),
        ("attempt_count_is_per_message", poison_message::attempt_count_is_per_message()),
        ("abandon_work_item_ignore_attempt_decrements", poison_message::abandon_work_item_ignore_attempt_decrements()),
        ("abandon_orchestration_item_ignore_attempt_decrements", poison_message::abandon_orchestration_item_ignore_attempt_decrements()),
        ("ignore_attempt_never_goes_negative", poison_message::ignore_attempt_never_goes_negative()),
        ("max_attempt_count_across_message_batch", poison_message::max_attempt_count_across_message_batch()),
    ]);
}

#[test]
fn prune_scripts_pass() {
    passes(vec![
        ("test_prune_options_combinations", prune::test_prune_options_combinations()),
        ("test_prune_safety", prune::test_prune_safety()),
        ("test_prune_bulk", prune::test_prune_bulk()),
        ("test_prune_bulk_includes_running_instances", prune::test_prune_bulk_includes_running_instances()),
    ]);
}

#[test]
fn long_polling_scripts_pass() {
    for script in [
        long_polling::test_short_poll_returns_immediately(),
        long_polling::test_short_poll_work_item_returns_immediately(),
        long_polling::test_fetch_respects_timeout_upper_bound(),
    ] {
        assert_eq!(outcome(script, Fault::Sound, false), Ok(()));
    }
    for script in [
        long_polling::test_long_poll_waits_for_timeout(),
        long_polling::test_long_poll_work_item_waits_for_timeout(),
        long_polling::test_fetch_respects_timeout_upper_bound(),
    ] {
        assert_eq!(outcome(script, Fault::Sound, true), Ok(()));
    }
}

#[test]
fn stores_that_wait_and_stores_that_do_not_are_told_apart() {
    assert!(outcome(long_polling::test_short_poll_returns_immediately(), Fault::Sound, true).is_err());
    assert!(outcome(long_polling::test_long_poll_waits_for_timeout(), Fault::Sound, false).is_err());
    assert!(
        outcome(long_polling::test_long_poll_work_item_waits_for_timeout(), Fault::Sound, false)
            .is_err()
    );
}

fn fails(script: Vec<Step>, fault: Fault) {
    assert!(outcome(script, fault, false).is_err(), "{fault:?} goes unnoticed");
}

#[test]
fn broken_stores_fail() {
    fails(atomicity::test_atomicity_failure_rollback(), Fault::AppendsBeforeChecking);
    fails(error_handling::test_duplicate_event_id_rejection(), Fault::AppendsBeforeChecking);
    fails(lock_expiration::test_lock_expires_after_timeout(), Fault::LocksForever);
    fails(error_handling::test_lock_expiration_during_ack(), Fault::LocksForever);
    fails(instance_locking::test_exclusive_instance_lock(), Fault::IgnoresLocks);
    fails(instance_locking::test_multi_threaded_lock_contention(), Fault::IgnoresLocks);
    fails(instance_locking::test_lock_token_uniqueness(), Fault::OneToken);
    fails(cancellation::test_cancelled_activities_deleted_from_worker_queue(), Fault::KeepsCancelled);
    fails(cancellation::test_batch_cancellation_deletes_multiple_activities(), Fault::KeepsCancelled);
    fails(
        cancellation::test_same_activity_in_worker_items_and_cancelled_is_noop(),
        Fault::KeepsCancelled,
    );
    fails(deletion::test_cascade_delete_hierarchy(), Fault::LeavesChildren);
    fails(poison_message::orchestration_attempt_count_starts_at_one(), Fault::CountsNoAttempts);
    fails(poison_message::worker_attempt_count_starts_at_one(), Fault::CountsNoAttempts);
    fails(multi_execution::test_execution_isolation(), Fault::MixesExecutions);
    fails(custom_status::test_custom_status_version_increments(), Fault::KeepsStatusVersion);
    fails(error_handling::test_read_corrupted_history_returns_error(), Fault::HidesCorruption);
    fails(prune::test_prune_safety(), Fault::PrunesCurrent);
}

#[test]
fn a_store_without_management_fails_where_it_is_needed() {
    fails(management::test_list_instances(), Fault::NoManagement);
    fails(deletion::test_delete_terminal_instances(), Fault::NoManagement);
    // It is asked for before anything else is done.
    for script in [
        management::test_list_instances(),
        deletion::test_stale_activity_after_delete_recreate(),
        bulk_deletion::test_delete_instance_bulk_completed_before_filter(),
        prune::test_prune_safety(),
    ] {
        assert_eq!(outcome(script, Fault::NoManagement, false), Err(0));
    }
    assert_eq!(
        outcome(atomicity::test_multi_operation_atomic_ack(), Fault::NoManagement, false),
        Ok(())
    );
}

#[test]
fn failures_are_found_at_their_step() {
    // The check that the second acknowledgement leaves the history alone.
    assert_eq!(
        outcome(
            atomicity::test_atomicity_failure_rollback(),
            Fault::AppendsBeforeChecking,
            false
        ),
        Err(12)
    );
    // The second fetch of a locked instance.
    assert_eq!(
        outcome(instance_locking::test_exclusive_instance_lock(), Fault::IgnoresLocks, false),
        Err(3)
    );
}

#[test]
fn requests_are_made_again_only_after_errors_that_allow_it() {
    let busy = |retryable| {
        Reply::Failed(ProviderError {
            message: "busy".to_string(),
            text: "ack: busy".to_string(),
            retryable,
        })
    };
    assert_eq!(again(0, &busy(true)), Some(10));
    assert_eq!(again(1, &busy(true)), Some(20));
    assert_eq!(again(2, &busy(true)), None);
    assert_eq!(again(0, &busy(false)), None);
    assert_eq!(again(0, &Reply::Done), None);
}

#[test]
fn requests_carry_what_was_prepared_and_remembered() {
    let mut run = Run::new(
        atomicity::test_multi_operation_atomic_ack(),
        Duration::from_secs(5),
        nanos(100_000_000),
    );
    assert!(matches!(run.step(), Next::Ask(q) if matches!(q.call, Call::Put(_)) && q.token.is_none()));
    assert!(matches!(run.answer(Reply::Done, Duration::zero()), Next::Go));
    match run.step() {
        Next::Ask(q) => assert_eq!(q.span.as_nanos(), 30_000_000_000),
        other => panic!("{other:?}"),
    }
    let item = OrchestrationItem {
        instance: "instance-A".to_string(),
        orchestration_name: "TestOrch".to_string(),
        execution_id: 1,
        version: "1.0.0".to_string(),
        history: Vec::new(),
        messages: Vec::new(),
    };
    assert!(matches!(
        run.answer(Reply::Turn(item, "lock-7".to_string(), 1), Duration::zero()),
        Next::Go
    ));
    loop {
        match run.step() {
            Next::Go => {}
            Next::Ask(q) => {
                assert_eq!(q.token.as_deref(), Some("lock-7"));
                assert_eq!(q.ack.events.len(), 5);
                assert_eq!(q.ack.work.len(), 3);
                assert_eq!(q.ack.messages.len(), 2);
                assert!(q.ack.cancelled.is_empty());
                break;
            }
            other => panic!("{other:?}"),
        }
    }
    // A failed acknowledgement ends the run.
    assert!(matches!(
        run.answer(permanent("ack", "no"), Duration::zero()),
        Next::Failed
    ));
}

#[test]
fn a_wrong_kind_of_item_is_not_taken() {
    let mut run = Run::new(
        atomicity::test_multi_operation_atomic_ack(),
        Duration::from_secs(5),
        nanos(100_000_000),
    );
    run.step();
    run.answer(Reply::Done, Duration::zero());
    run.step();
    assert!(matches!(run.answer(Reply::Nothing, Duration::zero()), Next::Failed));
    assert_eq!(run.position(), 1);
}

#[test]
fn tenths_of_the_lock_timeout_are_rounded_to_the_nearest_nanosecond() {
    for (lock, six) in [(13u64, 8u128), (7, 4), (1_000_000_001, 600_000_001), (5_000_000_000, 3_000_000_000)] {
        let script = vec![
            Step::Do(Call::Sleep(lock_tenths(6))),
            Step::Do(Call::Sleep(lock_tenths(4))),
        ];
        let mut run = Run::new(script, nanos(lock as u128), nanos(0));
        let mut spans = vec![];
        for _ in 0..2 {
            match run.step() {
                Next::Ask(q) => spans.push(q.span.as_nanos()),
                other => panic!("{other:?}"),
            }
            run.answer(Reply::Done, Duration::zero());
        }
        let exact = std::time::Duration::from_nanos(lock);
        assert_eq!(spans[0], six);
        assert_eq!(spans[0], exact.mul_f64(0.6).as_nanos());
        assert_eq!(spans[1], (exact - exact.mul_f64(0.6)).as_nanos());
    }
}

fn work_completed() -> WorkItem {
    WorkItem::ActivityCompleted {
        instance: "poison-test-3".to_string(),
        execution_id: 1,
        id: 1,
        result: "r".to_string(),
    }
}

#[test]
fn a_reply_put_aside_is_looked_at_after_later_requests() {
    let script = poison_message::worker_attempt_count_starts_at_one();
    let last = script.len() - 1;
    let mut run = Run::new(script, Duration::from_secs(1), nanos(0));
    assert!(matches!(run.step(), Next::Ask(q) if matches!(q.call, Call::PutWork(_))));
    run.answer(Reply::Done, Duration::zero());
    assert!(matches!(run.step(), Next::Ask(q) if matches!(q.call, Call::FetchWork(_, _))));
    run.answer(Reply::Work(work_completed(), "t".to_string(), 1), Duration::zero());
    // The count is looked at before the acknowledgement, the kind of item after it.
    assert!(matches!(run.step(), Next::Go));
    assert!(matches!(run.step(), Next::Go));
    assert!(matches!(run.step(), Next::Ask(q) if matches!(q.call, Call::AckWork(_, _))));
    run.answer(Reply::Done, Duration::zero());
    assert!(matches!(run.step(), Next::Go));
    assert!(matches!(run.step(), Next::Failed));
    assert_eq!(run.position(), last);
}

#[test]
fn both_items_are_fetched_before_their_ids_are_read() {
    let mut run =
        Run::new(poison_message::attempt_count_is_per_message(), Duration::from_secs(1), nanos(0));
    let mut asked = 0;
    loop {
        match run.step() {
            Next::Ask(_) => {
                asked += 1;
                let reply = if asked <= 2 {
                    Reply::Done
                } else {
                    Reply::Work(work_completed(), format!("t{asked}"), 1)
                };
                run.answer(reply, Duration::zero());
            }
            Next::Go => {}
            Next::Failed => break,
            other => panic!("{other:?}"),
        }
    }
    assert_eq!(asked, 4);
}

#[test]
fn the_number_pruned_is_looked_at_after_the_listing() {
    let script = prune::test_prune_safety();
    let shelved: Vec<usize> =
        (0..script.len()).filter(|i| matches!(script[*i], Step::Shelve)).collect();
    assert_eq!(shelved.len(), 3);
    for (n, at) in shelved.iter().enumerate() {
        assert!(matches!(script[at - 1], Step::Do(Call::Prune(_, _))));
        assert!(matches!(script[at + 1], Step::Do(Call::ListExecutions(_))));
        assert!(matches!(script[at + 4], Step::Pick(i) if i == n as u64));
    }
}

/// Runs the script on an orphan up to the fetch of its activity.
fn orphan_fetched(fetched: Reply) -> Run {
    let mut run = Run::new(
        cancellation::test_orphan_activity_after_instance_force_deletion(),
        Duration::from_secs(1),
        nanos(0),
    );
    let mut fetched = Some(fetched);
    loop {
        match run.step() {
            Next::Ask(q) => {
                let reply = match q.call {
                    Call::FetchTurn(_, _) => Reply::Turn(
                        OrchestrationItem {
                            instance: "inst-orphan-activity".to_string(),
                            orchestration_name: "TestOrch".to_string(),
                            execution_id: 1,
                            version: "1.0.0".to_string(),
                            history: Vec::new(),
                            messages: Vec::new(),
                        },
                        "turn".to_string(),
                        1,
                    ),
                    Call::Delete(_, _) => Reply::Deleted(DeleteInstanceResult {
                        instances_deleted: 1,
                        executions_deleted: 1,
                        events_deleted: 1,
                        queue_messages_deleted: 0,
                    }),
                    Call::InstanceInfo(_) => permanent("get_instance_info", "Instance not found"),
                    Call::FetchWork(_, _) => {
                        run.answer(fetched.take().unwrap(), Duration::zero());
                        return run;
                    }
                    _ => Reply::Done,
                };
                assert!(matches!(run.answer(reply, Duration::zero()), Next::Go));
            }
            Next::Go => {}
            other => panic!("{other:?}"),
        }
    }
}

#[test]
fn an_orphan_is_completed_only_where_one_is_handed_out() {
    let mut run = orphan_fetched(Reply::Nothing);
    assert!(matches!(run.step(), Next::Go));
    assert!(matches!(run.step(), Next::Passed));

    let item = WorkItem::ActivityExecute {
        instance: "inst-orphan-activity".to_string(),
        execution_id: 1,
        id: 1,
        name: "TestActivity".to_string(),
        input: "test-input".to_string(),
        session_id: None,
        tag: None,
    };
    let mut run = orphan_fetched(Reply::Work(item, "orphan".to_string(), 1));
    assert!(matches!(run.step(), Next::Go));
    match run.step() {
        Next::Ask(q) => {
            assert!(matches!(q.call, Call::AckWork(_, Some(_))));
            assert_eq!(q.token.as_deref(), Some("orphan"));
        }
        other => panic!("{other:?}"),
    }
    assert!(matches!(run.answer(Reply::Done, Duration::zero()), Next::Go));
    assert!(matches!(run.step(), Next::Passed));
}
