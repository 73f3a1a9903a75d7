//! The orchestration context: scheduling, status, key-value state and traces.
use crate::action::{Action, CompletionResult, ScheduleKind};
use crate::assoc;
use crate::context::{self, CancelClass, CtxInner, CtxModel, SystemStats};
use crate::error::copy_text;
use crate::event::Event;
use crate::future::{self, ContinueAsNewFuture, DurableFuture, FutureModel, Outcome, Source};
use crate::ids::{self, pending_id, SYSCALL_ACTIVITY_NEW_GUID, SYSCALL_ACTIVITY_UTC_NOW_MS};
use crate::text::{self, parse_u64_or_text, ParsedU64};
use crate::time::{self, low_u64, Duration, U64_RANGE};
use vstd::prelude::*;

verus! {

/// The context of one orchestration turn.
pub struct OrchestrationContext {
    inner: CtxInner,
}

impl View for OrchestrationContext {
    type V = CtxModel;

    closed spec fn view(&self) -> CtxModel {
        self.inner@
    }
}

/// The action that schedules an activity.
pub open spec fn activity_action(
    name: String,
    input: String,
    session_id: Option<String>,
) -> Action {
    Action::CallActivity { scheduling_event_id: 0, name, input, session_id, tag: None }
}

/// The future for an activity scheduled from state `m`.
pub open spec fn activity_future(m: CtxModel, name: String) -> FutureModel {
    FutureModel {
        token: (m.next_token + 1) as u64,
        kind: ScheduleKind::Activity { name },
        source: Source::Activity,
        completed: false,
    }
}

/// The absolute time at which a timer with a delay in nanoseconds fires: the
/// delay in whole milliseconds, kept to 64 bits, after `now_ms`, or the latest
/// time there is.
pub open spec fn fire_time(now_ms: u64, delay: nat) -> nat {
    let delay_ms = (delay / 1_000_000) % (U64_RANGE as nat);
    if now_ms + delay_ms > u64::MAX {
        u64::MAX as nat
    } else {
        now_ms as nat + delay_ms
    }
}

/// The state after a timer is scheduled.
pub open spec fn timer_scheduled(m: CtxModel, now_ms: u64, delay: nat) -> CtxModel {
    context::emitted(
        m,
        Action::CreateTimer {
            scheduling_event_id: 0,
            fire_at_ms: fire_time(now_ms, delay) as u64,
        },
    )
}

/// The future for a timer scheduled from state `m`.
pub open spec fn timer_future(m: CtxModel) -> FutureModel {
    FutureModel {
        token: (m.next_token + 1) as u64,
        kind: ScheduleKind::Timer,
        source: Source::Timer,
        completed: false,
    }
}

/// The future for a sub-orchestration scheduled from state `m`.
pub open spec fn sub_future(m: CtxModel) -> FutureModel {
    let token = (m.next_token + 1) as u64;
    FutureModel {
        token,
        kind: ScheduleKind::SubOrchestration { token },
        source: Source::SubOrchestration,
        completed: false,
    }
}

/// The state after a key is set at `now_ms`. A key written this turn is marked
/// with `u64::MAX`, so that no pruning reaches it.
pub open spec fn kv_set(m: CtxModel, key: String, value: String, now_ms: u64) -> CtxModel {
    context::emitted(
        CtxModel {
            kv: assoc::upsert(m.kv, key, value),
            kv_updated: assoc::upsert(m.kv_updated, key, u64::MAX),
            ..m
        },
        Action::SetKeyValue { key, value, last_updated_at_ms: now_ms },
    )
}

/// The state after a key is cleared.
pub open spec fn kv_cleared(m: CtxModel, key: String) -> CtxModel {
    context::emitted(
        CtxModel {
            kv: assoc::without(m.kv, key@),
            kv_updated: assoc::without(m.kv_updated, key@),
            ..m
        },
        Action::ClearKeyValue { key },
    )
}

/// The state after keys are cleared one after the other.
pub open spec fn kv_cleared_all(m: CtxModel, keys: Seq<String>) -> CtxModel
    decreases keys.len(),
{
    if keys.len() == 0 {
        m
    } else {
        kv_cleared(kv_cleared_all(m, keys.drop_last()), keys.last())
    }
}

/// The value under a key.
pub open spec fn kv_value(m: CtxModel, key: Seq<char>) -> Option<String> {
    if assoc::has_key(m.kv, key) {
        Some(m.kv[assoc::position(m.kv, key)].1)
    } else {
        None
    }
}

/// The keys last updated before `bound` that have a value, oldest first.
pub open spec fn prunable(
    updated: Seq<(String, u64)>,
    kv: Seq<(String, String)>,
    bound: u64,
) -> Seq<String>
    decreases updated.len(),
{
    if updated.len() == 0 {
        Seq::empty()
    } else {
        let rest = prunable(updated.drop_last(), kv, bound);
        if updated.last().1 < bound && assoc::has_key(kv, updated.last().0@) {
            rest.push(updated.last().0)
        } else {
            rest
        }
    }
}

impl OrchestrationContext {
    /// The invariant of a turn.
    pub closed spec fn wf(&self) -> bool {
        self.inner.wf()
    }

    /// The invariant, over the model.
    pub proof fn lemma_wf(&self)
        requires
            self.wf(),
        ensures
            context::model_wf(self@),
    {
        self.inner.lemma_wf();
    }

    /// The context of a turn that starts out replaying.
    pub fn new(
        history: Vec<Event>,
        execution_id: u64,
        instance_id: String,
        orchestration_name: String,
        orchestration_version: String,
        worker_id: Option<String>,
    ) -> (r: Self)
        ensures
            r.wf(),
            r@ == context::fresh(
                execution_id,
                instance_id,
                orchestration_name,
                orchestration_version,
            ),
    {
        OrchestrationContext {
            inner: CtxInner::new(
                history,
                execution_id,
                instance_id,
                orchestration_name,
                orchestration_version,
                worker_id,
            ),
        }
    }

    /// Whether history is being replayed.
    pub fn is_replaying(&self) -> (r: bool)
        ensures
            r == self@.is_replaying,
    {
        self.inner.is_replaying()
    }

    /// Sets whether history is being replayed.
    pub fn set_is_replaying(&mut self, is_replaying: bool)
        requires
            old(self).wf(),
        ensures
            final(self).wf(),
            final(self)@ == (CtxModel { is_replaying, ..old(self)@ }),
    {
        self.inner.set_is_replaying(is_replaying);
    }

    /// Binds a positional subscription to the next index of its name.
    pub fn bind_external_subscription(&mut self, schedule_id: u64, name: &str)
        requires
            old(self).wf(),
            context::next_index(old(self)@.external_next, name@) < usize::MAX,
        ensures
            final(self).wf(),
            exists|n: String|
                n@ == name@ && final(self)@ == #[trigger] context::external_bound(
                    old(self)@,
                    schedule_id,
                    n,
                ),
    {
        self.inner.bind_external_subscription(schedule_id, name);
    }

    /// Whether an active positional subscription to `name` still waits for an
    /// arrival.
    pub fn has_pending_subscription_slot(&self, name: &str) -> (r: bool)
        requires
            self.wf(),
        ensures
            r == context::arrivals_waiting(self@, name@),
    {
        self.inner.has_pending_subscription_slot(name)
    }

    /// Records the arrival of an external event.
    pub fn deliver_external_event(&mut self, name: String, data: String)
        requires
            old(self).wf(),
        ensures
            final(self).wf(),
            final(self)@ == (CtxModel {
                external_log: old(self)@.external_log.push((name, data)),
                ..old(self)@
            }),
    {
        self.inner.deliver_external_event(name, data);
    }

    /// Binds a queue subscription.
    pub fn bind_queue_subscription(&mut self, schedule_id: u64, name: &str)
        requires
            old(self).wf(),
        ensures
            final(self).wf(),
            exists|n: String|
                n@ == name@ && final(self)@ == (CtxModel {
                    queue_subs: #[trigger] old(self)@.queue_subs.push((schedule_id, n)),
                    ..old(self)@
                }),
    {
        self.inner.bind_queue_subscription(schedule_id, name);
    }

    /// Records the arrival of a queue message.
    pub fn deliver_queue_message(&mut self, name: String, data: String)
        requires
            old(self).wf(),
        ensures
            final(self).wf(),
            final(self)@ == (CtxModel {
                queue_log: old(self)@.queue_log.push((name, data)),
                ..old(self)@
            }),
    {
        self.inner.deliver_queue_message(name, data);
    }

    /// Binds a subscription by topic.
    pub fn bind_external_subscription2(&mut self, schedule_id: u64, name: &str, topic: &str)
        requires
            old(self).wf(),
            context::next_index(old(self)@.topic_next, (name@, topic@)) < usize::MAX,
        ensures
            final(self).wf(),
            exists|n: String, t: String|
                n@ == name@ && t@ == topic@ && final(self)@ == #[trigger] context::topic_bound(
                    old(self)@,
                    schedule_id,
                    n,
                    t,
                ),
    {
        self.inner.bind_external_subscription2(schedule_id, name, topic);
    }

    /// Records the arrival of an external event on a topic.
    pub fn deliver_external_event2(&mut self, name: String, topic: String, data: String)
        requires
            old(self).wf(),
        ensures
            final(self).wf(),
            final(self)@ == (CtxModel {
                topic_log: old(self)@.topic_log.push(((name, topic), data)),
                ..old(self)@
            }),
    {
        self.inner.deliver_external_event2(name, topic, data);
    }

    /// Marks a queue subscription as cancelled.
    pub fn mark_queue_subscription_cancelled(&mut self, schedule_id: u64)
        requires
            old(self).wf(),
        ensures
            final(self).wf(),
            final(self)@ == (CtxModel {
                queue_cancelled: old(self)@.queue_cancelled.insert(schedule_id),
                ..old(self)@
            }),
    {
        self.inner.mark_queue_subscription_cancelled(schedule_id);
    }

    /// Marks a token as cancelled.
    pub fn mark_token_cancelled(&mut self, token: u64, kind: &ScheduleKind)
        requires
            old(self).wf(),
        ensures
            final(self).wf(),
            final(self)@ == context::token_cancelled(old(self)@, token, *kind),
    {
        self.inner.mark_token_cancelled(token, kind.clone());
    }

    /// The schedule IDs of the activities cancelled this turn.
    pub fn get_cancelled_activity_ids(&self) -> (r: Vec<u64>)
        requires
            self.wf(),
        ensures
            r@ == context::cancelled_ids(
                self@.cancelled,
                self@.cancelled_kinds,
                self@.bindings,
                CancelClass::Activity,
            ),
    {
        self.inner.get_cancelled_activity_ids()
    }

    /// The schedule IDs of the waits for external events cancelled this turn.
    pub fn get_cancelled_external_wait_ids(&self) -> (r: Vec<u64>)
        requires
            self.wf(),
        ensures
            r@ == context::cancelled_ids(
                self@.cancelled,
                self@.cancelled_kinds,
                self@.bindings,
                CancelClass::ExternalWait,
            ),
    {
        self.inner.get_cancelled_external_wait_ids()
    }

    /// Marks a positional subscription as cancelled.
    pub fn mark_external_subscription_cancelled(&mut self, schedule_id: u64)
        requires
            old(self).wf(),
        ensures
            final(self).wf(),
            final(self)@ == (CtxModel {
                external_cancelled: old(self)@.external_cancelled.insert(schedule_id),
                ..old(self)@
            }),
    {
        self.inner.mark_external_subscription_cancelled(schedule_id);
    }

    /// The schedule IDs of the queue subscriptions cancelled this turn.
    pub fn get_cancelled_queue_ids(&self) -> (r: Vec<u64>)
        requires
            self.wf(),
        ensures
            r@ == context::cancelled_ids(
                self@.cancelled,
                self@.cancelled_kinds,
                self@.bindings,
                CancelClass::QueueDequeue,
            ),
    {
        self.inner.get_cancelled_queue_ids()
    }

    /// The scheduling event and instance of each sub-orchestration cancelled
    /// this turn.
    pub fn get_cancelled_sub_orchestration_cancellations(&self) -> (r: Vec<(u64, String)>)
        requires
            self.wf(),
        ensures
            r@ == context::sub_cancellations(self@, self@.cancelled.len()),
    {
        self.inner.get_cancelled_sub_orchestration_cancellations()
    }

    /// Forgets the cancelled tokens.
    pub fn clear_cancelled_tokens(&mut self)
        requires
            old(self).wf(),
        ensures
            final(self).wf(),
            final(self)@ == (CtxModel {
                cancelled: Seq::empty(),
                cancelled_kinds: Map::empty(),
                ..old(self)@
            }),
    {
        self.inner.clear_cancelled_tokens();
    }

    /// Records the instance ID of the sub-orchestration with this token.
    pub fn bind_sub_orchestration_instance(&mut self, token: u64, instance_id: String)
        requires
            old(self).wf(),
        ensures
            final(self).wf(),
            final(self)@ == (CtxModel {
                sub_instances: old(self)@.sub_instances.insert(token, instance_id),
                ..old(self)@
            }),
    {
        self.inner.bind_sub_orchestration_instance(token, instance_id);
    }

    /// Takes the emitted actions out.
    pub fn drain_emitted_actions(&mut self) -> (r: Vec<(u64, Action)>)
        requires
            old(self).wf(),
        ensures
            final(self).wf(),
            r@ == old(self)@.emitted,
            final(self)@ == (CtxModel { emitted: Seq::empty(), ..old(self)@ }),
    {
        self.inner.drain_emitted_actions()
    }

    /// A copy of the emitted actions.
    pub fn get_emitted_actions(&self) -> (r: Vec<(u64, Action)>)
        ensures
            r@ == self@.emitted,
    {
        self.inner.get_emitted_actions()
    }

    /// Binds a token to a schedule ID.
    pub fn bind_token(&mut self, token: u64, schedule_id: u64)
        requires
            old(self).wf(),
        ensures
            final(self).wf(),
            final(self)@ == (CtxModel {
                bindings: old(self)@.bindings.insert(token, schedule_id),
                ..old(self)@
            }),
    {
        self.inner.bind_token(token, schedule_id);
    }

    /// Delivers the result of the work with this schedule ID.
    pub fn deliver_result(&mut self, schedule_id: u64, result: CompletionResult)
        requires
            old(self).wf(),
        ensures
            final(self).wf(),
            context::result_delivered(old(self)@, final(self)@, schedule_id, result),
    {
        self.inner.deliver_result(schedule_id, result);
    }

    /// The instance identifier.
    pub fn instance_id(&self) -> (r: String)
        ensures
            r == self@.instance_id,
    {
        self.inner.instance_id()
    }

    /// The execution within the instance, counted from 1.
    pub fn execution_id(&self) -> (r: u64)
        ensures
            r == self@.execution_id,
    {
        self.inner.execution_id()
    }

    /// The orchestration name.
    pub fn orchestration_name(&self) -> (r: String)
        ensures
            r == self@.orchestration_name,
    {
        self.inner.orchestration_name()
    }

    /// The orchestration version.
    pub fn orchestration_version(&self) -> (r: String)
        ensures
            r == self@.orchestration_version,
    {
        self.inner.orchestration_version()
    }

    /// How many more actions can be emitted.
    pub fn tokens_left(&self) -> (r: u64)
        ensures
            r == u64::MAX - self@.next_token,
    {
        self.inner.tokens_left()
    }

    /// Whether logging is enabled for the current poll.
    pub fn is_logging_enabled(&self) -> (r: bool)
        ensures
            r == self@.logging_enabled,
    {
        self.inner.is_logging_enabled()
    }

    /// Looks for what completes the work under `token`.
    pub fn poll_source(&mut self, token: u64, source: Source) -> (r: Option<Outcome>)
        requires
            old(self).wf(),
        ensures
            final(self).wf(),
            forall|f: FutureModel|
                f.token == token && f.source == source ==> r == #[trigger] future::future_outcome(
                    f,
                    old(self)@,
                ) && final(self)@ == future::context_after_poll(f, old(self)@),
    {
        match source {
            Source::Activity => match self.inner.get_result(token) {
                Some(CompletionResult::ActivityOk(s)) => Some(Outcome::Finished(Ok(s.clone()))),
                Some(CompletionResult::ActivityErr(e)) => Some(Outcome::Finished(Err(e.clone()))),
                _ => None,
            },
            Source::Timer => match self.inner.get_result(token) {
                Some(CompletionResult::TimerFired) => Some(Outcome::Fired),
                _ => None,
            },
            Source::SubOrchestration => match self.inner.get_result(token) {
                Some(CompletionResult::SubOrchOk(s)) => Some(Outcome::Finished(Ok(s.clone()))),
                Some(CompletionResult::SubOrchErr(e)) => Some(Outcome::Finished(Err(e.clone()))),
                _ => None,
            },
            Source::External => match self.inner.get_bound_schedule_id(token) {
                Some(id) => match self.inner.get_external_event(id) {
                    Some(data) => Some(Outcome::Received(data)),
                    None => None,
                },
                None => None,
            },
            Source::Topic => match self.inner.get_bound_schedule_id(token) {
                Some(id) => match self.inner.get_external_event2(id) {
                    Some(data) => Some(Outcome::Received(data)),
                    None => None,
                },
                None => None,
            },
            Source::Queue => match self.inner.get_bound_schedule_id(token) {
                Some(id) => match self.inner.get_queue_message(id) {
                    Some(data) => Some(Outcome::Received(data)),
                    None => None,
                },
                None => None,
            },
        }
    }

    /// Sets the routing tag of an emitted activity.
    pub fn set_activity_tag(&mut self, token: u64, tag: String)
        requires
            old(self).wf(),
            future::activity_emitted(old(self)@.emitted, token),
        ensures
            final(self).wf(),
            final(self)@ == (CtxModel {
                emitted: future::tagged(old(self)@.emitted, token, tag),
                ..old(self)@
            }),
    {
        self.inner.set_activity_tag(token, tag);
    }

    /// Ends this execution: the next one starts with `input`. The future never
    /// completes, so nothing that awaits it goes on.
    pub fn continue_as_new(&mut self, input: String) -> (r: ContinueAsNewFuture)
        requires
            old(self).wf(),
            old(self)@.next_token < u64::MAX,
        ensures
            final(self).wf(),
            final(self)@ == context::emitted(
                old(self)@,
                Action::ContinueAsNew { input, version: None },
            ),
    {
        let _ = self.inner.emit_action(Action::ContinueAsNew { input, version: None });
        ContinueAsNewFuture
    }

    /// Ends this execution: the next one starts with `input` at `version`. The
    /// future never completes.
    pub fn continue_as_new_versioned(&mut self, version: String, input: String) -> (r:
        ContinueAsNewFuture)
        requires
            old(self).wf(),
            old(self)@.next_token < u64::MAX,
        ensures
            final(self).wf(),
            final(self)@ == context::emitted(
                old(self)@,
                Action::ContinueAsNew { input, version: Some(version) },
            ),
    {
        let _ = self.inner.emit_action(Action::ContinueAsNew { input, version: Some(version) });
        ContinueAsNewFuture
    }

    /// Starts an orchestration whose result nobody awaits.
    pub fn schedule_orchestration(&mut self, name: String, instance: String, input: String)
        requires
            old(self).wf(),
            old(self)@.next_token < u64::MAX,
        ensures
            final(self).wf(),
            final(self)@ == context::emitted(
                old(self)@,
                Action::StartOrchestrationDetached {
                    scheduling_event_id: 0,
                    name,
                    version: None,
                    instance,
                    input,
                },
            ),
    {
        self.schedule_orchestration_versioned(name, None, instance, input);
    }

    /// Starts a version of an orchestration whose result nobody awaits.
    pub fn schedule_orchestration_versioned(
        &mut self,
        name: String,
        version: Option<String>,
        instance: String,
        input: String,
    )
        requires
            old(self).wf(),
            old(self)@.next_token < u64::MAX,
        ensures
            final(self).wf(),
            final(self)@ == context::emitted(
                old(self)@,
                Action::StartOrchestrationDetached {
                    scheduling_event_id: 0,
                    name,
                    version,
                    instance,
                    input,
                },
            ),
    {
        let _ = self.inner.emit_action(
            Action::StartOrchestrationDetached {
                scheduling_event_id: 0,
                name,
                version,
                instance,
                input,
            },
        );
    }

    /// Sets the custom status. The last write wins.
    pub fn set_custom_status(&mut self, status: String)
        requires
            old(self).wf(),
            old(self)@.next_token < u64::MAX,
        ensures
            final(self).wf(),
            final(self)@ == status_updated(old(self)@, Some(status)),
    {
        self.inner.set_status(Some(status));
    }

    /// Clears the custom status.
    pub fn reset_custom_status(&mut self)
        requires
            old(self).wf(),
            old(self)@.next_token < u64::MAX,
        ensures
            final(self).wf(),
            final(self)@ == status_updated(old(self)@, None),
    {
        self.inner.set_status(None);
    }

    /// The custom status, if one is set.
    pub fn get_custom_status(&self) -> (r: Option<String>)
        ensures
            r == self@.custom_status,
    {
        self.inner.get_custom_status()
    }

    /// The introspection statistics of this orchestration: none on the very
    /// first turn, of which nothing was acknowledged yet, and those of the last
    /// acknowledged turn from the second turn onward.
    pub fn get_system_stats(&self) -> (r: Option<SystemStats>)
        ensures
            r == self@.system_stats,
    {
        self.inner.get_system_stats()
    }

    /// Takes over the statistics that the last acknowledged turn left.
    pub fn seed_system_stats(&mut self, stats: SystemStats)
        requires
            old(self).wf(),
        ensures
            final(self).wf(),
            final(self)@ == (CtxModel { system_stats: Some(stats), ..old(self)@ }),
    {
        self.inner.seed_system_stats(stats);
    }

    /// Takes over the custom status that earlier turns left.
    pub fn seed_custom_status(&mut self, status: Option<String>)
        requires
            old(self).wf(),
        ensures
            final(self).wf(),
            final(self)@ == (CtxModel { custom_status: status, ..old(self)@ }),
    {
        self.inner.seed_custom_status(status);
    }

    /// Takes over a key-value entry that earlier turns left.
    pub fn seed_kv_value(&mut self, key: String, value: String, last_updated_at_ms: u64)
        requires
            old(self).wf(),
        ensures
            final(self).wf(),
            final(self)@ == (CtxModel {
                kv: assoc::upsert(old(self)@.kv, key, value),
                kv_updated: assoc::upsert(old(self)@.kv_updated, key, last_updated_at_ms),
                ..old(self)@
            }),
    {
        self.inner.seed_kv_value(key, value, last_updated_at_ms);
    }

    /// Sets a key, stamped with the wall clock.
    pub fn set_kv_value(&mut self, key: String, value: String)
        requires
            old(self).wf(),
            old(self)@.next_token < u64::MAX,
        ensures
            final(self).wf(),
            exists|now_ms: u64|
                final(self)@ == #[trigger] kv_set(old(self)@, key, value, now_ms),
    {
        let now_ms: u64 = self.inner.now_ms();
        self.set_kv_value_at(key, value, now_ms);
    }

    /// Sets a key, stamped with `now_ms`.
    pub fn set_kv_value_at(&mut self, key: String, value: String, now_ms: u64)
        requires
            old(self).wf(),
            old(self)@.next_token < u64::MAX,
        ensures
            final(self).wf(),
            final(self)@ == kv_set(old(self)@, key, value, now_ms),
    {
        self.inner.seed_kv_value(key.clone(), value.clone(), u64::MAX);
        let _ = self.inner.emit_action(
            Action::SetKeyValue { key, value, last_updated_at_ms: now_ms },
        );
    }

    /// The value under a key.
    pub fn get_kv_value(&self, key: &str) -> (r: Option<String>)
        requires
            self.wf(),
        ensures
            r == kv_value(self@, key@),
    {
        self.inner.get_kv_value(key)
    }

    /// All key-value entries.
    pub fn get_kv_all_values(&self) -> (r: Vec<(String, String)>)
        requires
            self.wf(),
        ensures
            r@ == self@.kv,
    {
        self.inner.get_kv_all_values()
    }

    /// All keys.
    pub fn get_kv_all_keys(&self) -> (r: Vec<String>)
        requires
            self.wf(),
        ensures
            r@ == self@.kv.map_values(|e: (String, String)| e.0),
    {
        self.inner.get_kv_all_keys()
    }

    /// The number of keys.
    pub fn get_kv_length(&self) -> (r: usize)
        requires
            self.wf(),
        ensures
            r == self@.kv.len(),
    {
        self.inner.get_kv_length()
    }

    /// Clears a key.
    pub fn clear_kv_value(&mut self, key: String)
        requires
            old(self).wf(),
            old(self)@.next_token < u64::MAX,
        ensures
            final(self).wf(),
            final(self)@ == kv_cleared(old(self)@, key),
    {
        self.inner.remove_kv(&key);
        let _ = self.inner.emit_action(Action::ClearKeyValue { key });
    }

    /// Clears all keys.
    pub fn clear_all_kv_values(&mut self)
        requires
            old(self).wf(),
            old(self)@.next_token < u64::MAX,
        ensures
            final(self).wf(),
            final(self)@ == context::emitted(
                CtxModel { kv: Seq::empty(), kv_updated: Seq::empty(), ..old(self)@ },
                Action::ClearKeyValues,
            ),
    {
        self.inner.remove_all_kv();
        let _ = self.inner.emit_action(Action::ClearKeyValues);
    }

    /// Clears the keys last updated before `updated_before_ms`, and returns how
    /// many there were. Keys written this turn are never among them.
    pub fn prune_kv_values_updated_before(&mut self, updated_before_ms: u64) -> (r: usize)
        requires
            old(self).wf(),
            old(self)@.next_token + prunable(
                old(self)@.kv_updated,
                old(self)@.kv,
                updated_before_ms,
            ).len() <= u64::MAX,
        ensures
            final(self).wf(),
            r == prunable(old(self)@.kv_updated, old(self)@.kv, updated_before_ms).len(),
            final(self)@ == kv_cleared_all(
                old(self)@,
                prunable(old(self)@.kv_updated, old(self)@.kv, updated_before_ms),
            ),
    {
        let keys = self.inner.prunable_keys(updated_before_ms);
        let n: usize = keys.len();
        let mut i: usize = 0;
        assert(keys@.take(0) =~= Seq::empty());
        while i < n
            invariant
                self.wf(),
                i <= n,
                n == keys@.len(),
                old(self)@.next_token + n <= u64::MAX,
                self@ == kv_cleared_all(old(self)@, keys@.take(i as int)),
                self@.next_token == old(self)@.next_token + i,
            decreases n - i,
        {
            assert(keys@.take(i + 1).drop_last() =~= keys@.take(i as int));
            assert(keys@.take(i + 1).last() == keys@[i as int]);
            self.clear_kv_value(keys[i].clone());
            i += 1;
        }
        assert(keys@.take(n as int) =~= keys@);
        n
    }

    /// Schedules an activity.
    pub fn schedule_activity(&mut self, name: String, input: String) -> (r: DurableFuture)
        requires
            old(self).wf(),
            old(self)@.next_token < u64::MAX,
        ensures
            final(self).wf(),
            final(self)@ == context::emitted(old(self)@, activity_action(name, input, None)),
            r@ == activity_future(old(self)@, name),
    {
        self.schedule_activity_internal(name, input, None)
    }

    /// Schedules an activity on the worker that owns a session.
    pub fn schedule_activity_on_session(
        &mut self,
        name: String,
        input: String,
        session_id: String,
    ) -> (r: DurableFuture)
        requires
            old(self).wf(),
            old(self)@.next_token < u64::MAX,
        ensures
            final(self).wf(),
            final(self)@ == context::emitted(
                old(self)@,
                activity_action(name, input, Some(session_id)),
            ),
            r@ == activity_future(old(self)@, name),
    {
        self.schedule_activity_internal(name, input, Some(session_id))
    }

    /// Schedules an activity, on a session if one is given.
    pub fn schedule_activity_internal(
        &mut self,
        name: String,
        input: String,
        session_id: Option<String>,
    ) -> (r: DurableFuture)
        requires
            old(self).wf(),
            old(self)@.next_token < u64::MAX,
        ensures
            final(self).wf(),
            final(self)@ == context::emitted(old(self)@, activity_action(name, input, session_id)),
            r@ == activity_future(old(self)@, name),
    {
        let token: u64 = self.inner.emit_action(
            Action::CallActivity {
                scheduling_event_id: 0,
                name: name.clone(),
                input,
                session_id,
                tag: None,
            },
        );
        DurableFuture::new(token, ScheduleKind::Activity { name }, Source::Activity)
    }

    /// Schedules a timer after `delay`, from the wall clock.
    pub fn schedule_timer(&mut self, delay: Duration) -> (r: DurableFuture)
        requires
            old(self).wf(),
            old(self)@.next_token < u64::MAX,
        ensures
            final(self).wf(),
            exists|now_ms: u64|
                final(self)@ == #[trigger] timer_scheduled(old(self)@, now_ms, delay@),
            r@ == timer_future(old(self)@),
    {
        let now_ms: u64 = self.inner.now_ms();
        self.schedule_timer_at(delay, now_ms)
    }

    /// Schedules a timer after `delay`, from `now_ms`.
    pub fn schedule_timer_at(&mut self, delay: Duration, now_ms: u64) -> (r: DurableFuture)
        requires
            old(self).wf(),
            old(self)@.next_token < u64::MAX,
        ensures
            final(self).wf(),
            final(self)@ == timer_scheduled(old(self)@, now_ms, delay@),
            r@ == timer_future(old(self)@),
    {
        let delay_ms: u64 = low_u64(delay.as_millis());
        let fire_at_ms: u64 = now_ms.saturating_add(delay_ms);
        let token: u64 = self.inner.emit_action(
            Action::CreateTimer { scheduling_event_id: 0, fire_at_ms },
        );
        DurableFuture::new(token, ScheduleKind::Timer, Source::Timer)
    }

    /// Waits for an external event by name.
    pub fn schedule_wait(&mut self, name: String) -> (r: DurableFuture)
        requires
            old(self).wf(),
            old(self)@.next_token < u64::MAX,
        ensures
            final(self).wf(),
            final(self)@ == context::emitted(
                old(self)@,
                Action::WaitExternal { scheduling_event_id: 0, name },
            ),
            r@ == (FutureModel {
                token: (old(self)@.next_token + 1) as u64,
                kind: ScheduleKind::ExternalWait { event_name: name },
                source: Source::External,
                completed: false,
            }),
    {
        let token: u64 = self.inner.emit_action(
            Action::WaitExternal { scheduling_event_id: 0, name: name.clone() },
        );
        DurableFuture::new(token, ScheduleKind::ExternalWait { event_name: name }, Source::External)
    }

    /// Waits for the next message of a queue.
    pub fn dequeue_event(&mut self, queue: String) -> (r: DurableFuture)
        requires
            old(self).wf(),
            old(self)@.next_token < u64::MAX,
        ensures
            final(self).wf(),
            final(self)@ == context::emitted(
                old(self)@,
                Action::DequeueEvent { scheduling_event_id: 0, name: queue },
            ),
            r@ == (FutureModel {
                token: (old(self)@.next_token + 1) as u64,
                kind: ScheduleKind::QueueDequeue { event_name: queue },
                source: Source::Queue,
                completed: false,
            }),
    {
        let token: u64 = self.inner.emit_action(
            Action::DequeueEvent { scheduling_event_id: 0, name: queue.clone() },
        );
        DurableFuture::new(token, ScheduleKind::QueueDequeue { event_name: queue }, Source::Queue)
    }

    /// The same as [`Self::dequeue_event`].
    pub fn schedule_wait_persistent(&mut self, name: String) -> (r: DurableFuture)
        requires
            old(self).wf(),
            old(self)@.next_token < u64::MAX,
        ensures
            final(self).wf(),
            final(self)@ == context::emitted(
                old(self)@,
                Action::DequeueEvent { scheduling_event_id: 0, name },
            ),
            r@ == (FutureModel {
                token: (old(self)@.next_token + 1) as u64,
                kind: ScheduleKind::QueueDequeue { event_name: name },
                source: Source::Queue,
                completed: false,
            }),
    {
        self.dequeue_event(name)
    }

    /// Waits for an external event by name and topic.
    pub fn schedule_wait2(&mut self, name: String, topic: String) -> (r: DurableFuture)
        requires
            old(self).wf(),
            old(self)@.next_token < u64::MAX,
        ensures
            final(self).wf(),
            final(self)@ == context::emitted(
                old(self)@,
                Action::WaitExternal2 { scheduling_event_id: 0, name, topic },
            ),
            r@ == (FutureModel {
                token: (old(self)@.next_token + 1) as u64,
                kind: ScheduleKind::ExternalWait { event_name: name },
                source: Source::Topic,
                completed: false,
            }),
    {
        let token: u64 = self.inner.emit_action(
            Action::WaitExternal2 { scheduling_event_id: 0, name: name.clone(), topic },
        );
        DurableFuture::new(token, ScheduleKind::ExternalWait { event_name: name }, Source::Topic)
    }

    /// Schedules a sub-orchestration under a generated instance ID.
    pub fn schedule_sub_orchestration(&mut self, name: String, input: String) -> (r: DurableFuture)
        requires
            old(self).wf(),
            old(self)@.next_token < u64::MAX,
        ensures
            final(self).wf(),
            sub_scheduled(old(self)@, final(self)@, name, None, None, input),
            r@ == sub_future(old(self)@),
    {
        self.schedule_sub_orchestration_versioned_with_id_internal(name, None, None, input)
    }

    /// Schedules a sub-orchestration under exactly this instance ID.
    pub fn schedule_sub_orchestration_with_id(
        &mut self,
        name: String,
        instance: String,
        input: String,
    ) -> (r: DurableFuture)
        requires
            old(self).wf(),
            old(self)@.next_token < u64::MAX,
        ensures
            final(self).wf(),
            sub_scheduled(old(self)@, final(self)@, name, None, Some(instance), input),
            r@ == sub_future(old(self)@),
    {
        self.schedule_sub_orchestration_versioned_with_id_internal(
            name,
            None,
            Some(instance),
            input,
        )
    }

    /// Schedules a version of a sub-orchestration under a generated instance
    /// ID.
    pub fn schedule_sub_orchestration_versioned(
        &mut self,
        name: String,
        version: Option<String>,
        input: String,
    ) -> (r: DurableFuture)
        requires
            old(self).wf(),
            old(self)@.next_token < u64::MAX,
        ensures
            final(self).wf(),
            sub_scheduled(old(self)@, final(self)@, name, version, None, input),
            r@ == sub_future(old(self)@),
    {
        self.schedule_sub_orchestration_versioned_with_id_internal(name, version, None, input)
    }

    /// Schedules a version of a sub-orchestration under exactly this instance
    /// ID.
    pub fn schedule_sub_orchestration_versioned_with_id(
        &mut self,
        name: String,
        version: Option<String>,
        instance: String,
        input: String,
    ) -> (r: DurableFuture)
        requires
            old(self).wf(),
            old(self)@.next_token < u64::MAX,
        ensures
            final(self).wf(),
            sub_scheduled(old(self)@, final(self)@, name, version, Some(instance), input),
            r@ == sub_future(old(self)@),
    {
        self.schedule_sub_orchestration_versioned_with_id_internal(
            name,
            version,
            Some(instance),
            input,
        )
    }

    /// Schedules a sub-orchestration: under `instance` where it is given, and
    /// else under a placeholder made from the token.
    pub fn schedule_sub_orchestration_versioned_with_id_internal(
        &mut self,
        name: String,
        version: Option<String>,
        instance: Option<String>,
        input: String,
    ) -> (r: DurableFuture)
        requires
            old(self).wf(),
            old(self)@.next_token < u64::MAX,
        ensures
            final(self).wf(),
            sub_scheduled(old(self)@, final(self)@, name, version, instance, input),
            r@ == sub_future(old(self)@),
    {
        let next: u64 = self.inner.last_token() + 1;
        let action_instance: String = match instance {
            Some(explicit) => explicit,
            None => pending_id(next),
        };
        let token: u64 = self.inner.emit_action(
            Action::StartSubOrchestration {
                scheduling_event_id: 0,
                name,
                version,
                instance: action_instance,
                input,
            },
        );
        DurableFuture::new(
            token,
            ScheduleKind::SubOrchestration { token },
            Source::SubOrchestration,
        )
    }

    /// Schedules the built-in activity that makes an identifier.
    pub fn new_guid(&mut self) -> (r: DurableFuture)
        requires
            old(self).wf(),
            old(self)@.next_token < u64::MAX,
        ensures
            final(self).wf(),
            syscall_scheduled(old(self)@, final(self)@, r@, SYSCALL_ACTIVITY_NEW_GUID@, ""@),
    {
        self.schedule_activity(SYSCALL_ACTIVITY_NEW_GUID.to_string(), "".to_string())
    }

    /// Schedules the built-in activity that reads the clock. What it completes
    /// with is read by [`parse_utc_now`].
    pub fn utc_now(&mut self) -> (r: DurableFuture)
        requires
            old(self).wf(),
            old(self)@.next_token < u64::MAX,
        ensures
            final(self).wf(),
            syscall_scheduled(old(self)@, final(self)@, r@, SYSCALL_ACTIVITY_UTC_NOW_MS@, ""@),
    {
        self.schedule_activity(SYSCALL_ACTIVITY_UTC_NOW_MS.to_string(), "".to_string())
    }
}

/// The state after the custom status is set or cleared.
pub open spec fn status_updated(m: CtxModel, status: Option<String>) -> CtxModel {
    context::emitted(CtxModel { custom_status: status, ..m }, Action::UpdateCustomStatus { status })
}

/// A sub-orchestration was scheduled: under `instance` where it is given, and
/// else under the placeholder for its token.
pub open spec fn sub_scheduled(
    before: CtxModel,
    after: CtxModel,
    name: String,
    version: Option<String>,
    instance: Option<String>,
    input: String,
) -> bool {
    exists|id: String|
        (match instance {
            Some(explicit) => id == explicit,
            None => id@ == ids::pending_instance_id((before.next_token + 1) as nat),
        }) && after == #[trigger] context::emitted(
            before,
            Action::StartSubOrchestration {
                scheduling_event_id: 0,
                name,
                version,
                instance: id,
                input,
            },
        )
}

/// A built-in activity was scheduled.
pub open spec fn syscall_scheduled(
    before: CtxModel,
    after: CtxModel,
    future: FutureModel,
    name: Seq<char>,
    input: Seq<char>,
) -> bool {
    exists|n: String, i: String|
        {
            &&& n@ == name
            &&& i@ == input
            &&& after == context::emitted(before, #[trigger] activity_action(n, i, None))
            &&& future == activity_future(before, n)
        }
}

/// Reads what the clock activity completed with: milliseconds since 1970.
pub fn parse_utc_now(result: Result<String, String>) -> (r: Result<u64, String>)
    ensures
        match result {
            Ok(s) => match r {
                Ok(ms) => text::read_u64(s@) == ParsedU64::Value(ms),
                Err(e) => !(text::read_u64(s@) is Value) && e@
                    == text::parse_error_text(text::read_u64(s@)),
            },
            Err(e) => r == Err::<u64, String>(e),
        },
{
    match result {
        Ok(s) => parse_u64_or_text(s.as_str()),
        Err(e) => Err(e),
    }
}

} // verus!
