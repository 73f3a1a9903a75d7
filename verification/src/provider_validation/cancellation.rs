//! Whether activities are cancelled, and what becomes of their locks.
use crate::provider_validation::reply;
use crate::provider_validation::runner::{self, RunModel};
use crate::provider_validation::script::Call::{
    AbandonWork, Ack, AckWork, Delete, InstanceInfo, Put, PutWork, RenewWork,
};
use crate::provider_validation::script::Step::{
    AddWork, Do, Expect, SkipIfNothing, Take, TakeIfAny, Try,
};
use crate::provider_validation::script::Token::Held;
use crate::provider_validation::script::{
    activity, at_least, cancelled, completed, event, fetch_turn, fetch_work, metadata, millis,
    number_is, start_item, started, text_is, turn, work, Check, Fact, Item, Num, Step, Txt,
};
use vstd::prelude::*;

verus! {

/// The script of [`test_fetch_returns_running_state_for_active_orchestration`].
pub open spec fn fetch_returns_running_state_for_active_orchestration_steps() -> Seq<Step> {
    seq![
        Do(Put(start_item("inst-running"))),
        Take(turn(), 0),
        event(1, "inst-running", 1, started("TestOrch", "1.0")),
        AddWork(activity("inst-running", 1, "TestActivity")),
        metadata(Some("Running"), None, Some("TestOrch"), None),
        Do(Ack(Held(0), 1)),
        Do(work()),
        Expect(Check::Something),
    ]
}

/// An activity of an orchestration that runs can be fetched.
pub fn test_fetch_returns_running_state_for_active_orchestration() -> (r: Vec<Step>)
    ensures
        r@ == fetch_returns_running_state_for_active_orchestration_steps(),
{
    vec![
        Do(Put(start_item("inst-running"))),
        Take(turn(), 0),
        event(1, "inst-running", 1, started("TestOrch", "1.0")),
        AddWork(activity("inst-running", 1, "TestActivity")),
        metadata(Some("Running"), None, Some("TestOrch"), None),
        Do(Ack(Held(0), 1)),
        Do(work()),
        Expect(Check::Something),
    ]
}

/// The script of [`test_fetch_returns_terminal_state_when_orchestration_completed`].
pub open spec fn fetch_returns_terminal_state_when_orchestration_completed_steps() -> Seq<Step> {
    seq![
        Do(Put(start_item("inst-completed"))),
        Take(turn(), 0),
        event(1, "inst-completed", 1, started("TestOrch", "1.0")),
        event(2, "inst-completed", 1, Fact::Completed("done")),
        AddWork(activity("inst-completed", 1, "TestActivity")),
        metadata(Some("Completed"), Some("done"), Some("TestOrch"), None),
        Do(Ack(Held(0), 1)),
        Do(work()),
        Expect(Check::Something),
    ]
}

/// An activity of an orchestration that has completed can be fetched.
pub fn test_fetch_returns_terminal_state_when_orchestration_completed() -> (r: Vec<Step>)
    ensures
        r@ == fetch_returns_terminal_state_when_orchestration_completed_steps(),
{
    vec![
        Do(Put(start_item("inst-completed"))),
        Take(turn(), 0),
        event(1, "inst-completed", 1, started("TestOrch", "1.0")),
        event(2, "inst-completed", 1, Fact::Completed("done")),
        AddWork(activity("inst-completed", 1, "TestActivity")),
        metadata(Some("Completed"), Some("done"), Some("TestOrch"), None),
        Do(Ack(Held(0), 1)),
        Do(work()),
        Expect(Check::Something),
    ]
}

/// The script of [`test_fetch_returns_terminal_state_when_orchestration_failed`].
pub open spec fn fetch_returns_terminal_state_when_orchestration_failed_steps() -> Seq<Step> {
    seq![
        Do(Put(start_item("inst-failed"))),
        Take(turn(), 0),
        event(1, "inst-failed", 1, started("TestOrch", "1.0")),
        event(2, "inst-failed", 1, Fact::Failed("boom")),
        AddWork(activity("inst-failed", 1, "TestActivity")),
        metadata(Some("Failed"), None, Some("TestOrch"), None),
        Do(Ack(Held(0), 1)),
        Do(work()),
        Expect(Check::Something),
    ]
}

/// An activity of an orchestration that has failed can be fetched.
pub fn test_fetch_returns_terminal_state_when_orchestration_failed() -> (r: Vec<Step>)
    ensures
        r@ == fetch_returns_terminal_state_when_orchestration_failed_steps(),
{
    vec![
        Do(Put(start_item("inst-failed"))),
        Take(turn(), 0),
        event(1, "inst-failed", 1, started("TestOrch", "1.0")),
        event(2, "inst-failed", 1, Fact::Failed("boom")),
        AddWork(activity("inst-failed", 1, "TestActivity")),
        metadata(Some("Failed"), None, Some("TestOrch"), None),
        Do(Ack(Held(0), 1)),
        Do(work()),
        Expect(Check::Something),
    ]
}

/// The script of [`test_fetch_returns_terminal_state_when_orchestration_continued_as_new`].
pub open spec fn fetch_returns_terminal_state_when_orchestration_continued_as_new_steps() -> Seq<Step> {
    seq![
        Do(Put(start_item("inst-can"))),
        Take(turn(), 0),
        event(1, "inst-can", 1, started("TestOrch", "1.0")),
        event(2, "inst-can", 1, Fact::Continued("new-input")),
        AddWork(activity("inst-can", 1, "TestActivity")),
        metadata(Some("ContinuedAsNew"), Some("new-input"), Some("TestOrch"), None),
        Do(Ack(Held(0), 1)),
        Do(work()),
        Expect(Check::Something),
    ]
}

/// An activity of an execution that continued as new can be fetched.
pub fn test_fetch_returns_terminal_state_when_orchestration_continued_as_new() -> (r: Vec<Step>)
    ensures
        r@ == fetch_returns_terminal_state_when_orchestration_continued_as_new_steps(),
{
    vec![
        Do(Put(start_item("inst-can"))),
        Take(turn(), 0),
        event(1, "inst-can", 1, started("TestOrch", "1.0")),
        event(2, "inst-can", 1, Fact::Continued("new-input")),
        AddWork(activity("inst-can", 1, "TestActivity")),
        metadata(Some("ContinuedAsNew"), Some("new-input"), Some("TestOrch"), None),
        Do(Ack(Held(0), 1)),
        Do(work()),
        Expect(Check::Something),
    ]
}

/// The script of [`test_fetch_returns_missing_state_when_instance_deleted`].
pub open spec fn fetch_returns_missing_state_when_instance_deleted_steps() -> Seq<Step> {
    seq![
        Do(PutWork(activity("inst-missing", 1, "TestActivity"))),
        Do(work()),
        Expect(Check::Something),
    ]
}

/// An activity of an instance that does not exist can be fetched.
pub fn test_fetch_returns_missing_state_when_instance_deleted() -> (r: Vec<Step>)
    ensures
        r@ == fetch_returns_missing_state_when_instance_deleted_steps(),
{
    vec![
        Do(PutWork(activity("inst-missing", 1, "TestActivity"))),
        Do(work()),
        Expect(Check::Something),
    ]
}

/// The script of [`test_renew_returns_running_when_orchestration_active`].
pub open spec fn renew_returns_running_when_orchestration_active_steps() -> Seq<Step> {
    seq![
        Do(Put(start_item("inst-renew-run"))),
        Take(turn(), 0),
        event(1, "inst-renew-run", 1, started("TestOrch", "1.0")),
        AddWork(activity("inst-renew-run", 1, "TestActivity")),
        metadata(Some("Running"), None, Some("TestOrch"), None),
        Do(Ack(Held(0), 1)),
        Take(work(), 1),
        Do(RenewWork(Held(1), millis(30_000))),
    ]
}

/// The lock of an activity can be renewed while the orchestration runs.
pub fn test_renew_returns_running_when_orchestration_active() -> (r: Vec<Step>)
    ensures
        r@ == renew_returns_running_when_orchestration_active_steps(),
{
    vec![
        Do(Put(start_item("inst-renew-run"))),
        Take(turn(), 0),
        event(1, "inst-renew-run", 1, started("TestOrch", "1.0")),
        AddWork(activity("inst-renew-run", 1, "TestActivity")),
        metadata(Some("Running"), None, Some("TestOrch"), None),
        Do(Ack(Held(0), 1)),
        Take(work(), 1),
        Do(RenewWork(Held(1), millis(30_000))),
    ]
}

/// The script of [`test_renew_returns_terminal_when_orchestration_completed`].
pub open spec fn renew_returns_terminal_when_orchestration_completed_steps() -> Seq<Step> {
    seq![
        Do(Put(start_item("inst-renew-term"))),
        Take(turn(), 0),
        event(1, "inst-renew-term", 1, started("TestOrch", "1.0")),
        AddWork(activity("inst-renew-term", 1, "TestActivity")),
        metadata(Some("Running"), None, Some("TestOrch"), None),
        Do(Ack(Held(0), 1)),
        Take(work(), 1),
        Do(Put(Item::Raised("inst-renew-term", "Trigger", "{}"))),
        Take(turn(), 2),
        event(2, "inst-renew-term", 1, Fact::Completed("done")),
        metadata(Some("Completed"), Some("done"), None, None),
        Do(Ack(Held(2), 1)),
        Do(RenewWork(Held(1), millis(30_000))),
    ]
}

/// The lock of an activity can be renewed after the orchestration completed.
pub fn test_renew_returns_terminal_when_orchestration_completed() -> (r: Vec<Step>)
    ensures
        r@ == renew_returns_terminal_when_orchestration_completed_steps(),
{
    vec![
        Do(Put(start_item("inst-renew-term"))),
        Take(turn(), 0),
        event(1, "inst-renew-term", 1, started("TestOrch", "1.0")),
        AddWork(activity("inst-renew-term", 1, "TestActivity")),
        metadata(Some("Running"), None, Some("TestOrch"), None),
        Do(Ack(Held(0), 1)),
        Take(work(), 1),
        Do(Put(Item::Raised("inst-renew-term", "Trigger", "{}"))),
        Take(turn(), 2),
        event(2, "inst-renew-term", 1, Fact::Completed("done")),
        metadata(Some("Completed"), Some("done"), None, None),
        Do(Ack(Held(2), 1)),
        Do(RenewWork(Held(1), millis(30_000))),
    ]
}

/// The script of [`test_renew_returns_missing_when_instance_deleted`].
pub open spec fn renew_returns_missing_when_instance_deleted_steps() -> Seq<Step> {
    seq![
        Do(PutWork(activity("inst-renew-missing", 1, "TestActivity"))),
        Take(work(), 0),
        Do(RenewWork(Held(0), millis(30_000))),
    ]
}

/// The lock of an activity can be renewed though its instance does not exist.
pub fn test_renew_returns_missing_when_instance_deleted() -> (r: Vec<Step>)
    ensures
        r@ == renew_returns_missing_when_instance_deleted_steps(),
{
    vec![
        Do(PutWork(activity("inst-renew-missing", 1, "TestActivity"))),
        Take(work(), 0),
        Do(RenewWork(Held(0), millis(30_000))),
    ]
}

/// The script of [`test_ack_work_item_none_deletes_without_enqueue`].
pub open spec fn ack_work_item_none_deletes_without_enqueue_steps() -> Seq<Step> {
    seq![
        Do(PutWork(activity("inst-ack-none", 1, "TestActivity"))),
        Take(work(), 0),
        Do(AckWork(Held(0), None)),
        Do(fetch_work(millis(100))),
        Expect(Check::Nothing),
        Do(fetch_turn(millis(100))),
        Expect(Check::Nothing),
    ]
}

/// A work item that is acknowledged without a completion goes, and nothing is
/// enqueued for it.
pub fn test_ack_work_item_none_deletes_without_enqueue() -> (r: Vec<Step>)
    ensures
        r@ == ack_work_item_none_deletes_without_enqueue_steps(),
{
    vec![
        Do(PutWork(activity("inst-ack-none", 1, "TestActivity"))),
        Take(work(), 0),
        Do(AckWork(Held(0), None)),
        Do(fetch_work(millis(100))),
        Expect(Check::Nothing),
        Do(fetch_turn(millis(100))),
        Expect(Check::Nothing),
    ]
}

/// The script of [`test_cancelled_activities_deleted_from_worker_queue`].
pub open spec fn cancelled_activities_deleted_from_worker_queue_steps() -> Seq<Step> {
    seq![
        Do(Put(start_item("inst-cancel-delete"))),
        Take(turn(), 0),
        event(1, "inst-cancel-delete", 1, started("TestOrch", "1.0")),
        AddWork(activity("inst-cancel-delete", 1, "Activity1")),
        AddWork(activity("inst-cancel-delete", 2, "Activity2")),
        AddWork(activity("inst-cancel-delete", 3, "Activity3")),
        metadata(Some("Running"), None, Some("TestOrch"), None),
        Do(Ack(Held(0), 1)),
        Take(work(), 1),
        Do(AbandonWork(Held(1), None, false)),
        Do(Put(Item::Raised("inst-cancel-delete", "Trigger", "{}"))),
        Take(turn(), 2),
        cancelled("inst-cancel-delete", 1),
        cancelled("inst-cancel-delete", 2),
        Do(Ack(Held(2), 1)),
        Do(work()),
        number_is(Num::WorkId, 3),
        Do(fetch_work(millis(100))),
        Expect(Check::Nothing),
    ]
}

/// The activities that a turn cancels go from the queue of the worker, and no
/// others do.
pub fn test_cancelled_activities_deleted_from_worker_queue() -> (r: Vec<Step>)
    ensures
        r@ == cancelled_activities_deleted_from_worker_queue_steps(),
{
    vec![
        Do(Put(start_item("inst-cancel-delete"))),
        Take(turn(), 0),
        event(1, "inst-cancel-delete", 1, started("TestOrch", "1.0")),
        AddWork(activity("inst-cancel-delete", 1, "Activity1")),
        AddWork(activity("inst-cancel-delete", 2, "Activity2")),
        AddWork(activity("inst-cancel-delete", 3, "Activity3")),
        metadata(Some("Running"), None, Some("TestOrch"), None),
        Do(Ack(Held(0), 1)),
        Take(work(), 1),
        Do(AbandonWork(Held(1), None, false)),
        Do(Put(Item::Raised("inst-cancel-delete", "Trigger", "{}"))),
        Take(turn(), 2),
        cancelled("inst-cancel-delete", 1),
        cancelled("inst-cancel-delete", 2),
        Do(Ack(Held(2), 1)),
        Do(work()),
        number_is(Num::WorkId, 3),
        Do(fetch_work(millis(100))),
        Expect(Check::Nothing),
    ]
}

/// The script of [`test_ack_work_item_fails_when_entry_deleted`].
pub open spec fn ack_work_item_fails_when_entry_deleted_steps() -> Seq<Step> {
    seq![
        Do(PutWork(activity("inst-ack-stolen", 1, "TestActivity"))),
        Take(work(), 0),
        Do(AckWork(Held(0), None)),
        Try(AckWork(Held(0), Some(completed("inst-ack-stolen", 1, "done")))),
        Expect(Check::Failed),
        Expect(Check::Permanent),
    ]
}

/// A work item that is gone cannot be acknowledged, and trying again does not help.
pub fn test_ack_work_item_fails_when_entry_deleted() -> (r: Vec<Step>)
    ensures
        r@ == ack_work_item_fails_when_entry_deleted_steps(),
{
    vec![
        Do(PutWork(activity("inst-ack-stolen", 1, "TestActivity"))),
        Take(work(), 0),
        Do(AckWork(Held(0), None)),
        Try(AckWork(Held(0), Some(completed("inst-ack-stolen", 1, "done")))),
        Expect(Check::Failed),
        Expect(Check::Permanent),
    ]
}

/// The script of [`test_renew_fails_when_entry_deleted`].
pub open spec fn renew_fails_when_entry_deleted_steps() -> Seq<Step> {
    seq![
        Do(PutWork(activity("inst-renew-stolen", 1, "TestActivity"))),
        Take(work(), 0),
        Do(AckWork(Held(0), None)),
        Try(RenewWork(Held(0), millis(30_000))),
        Expect(Check::Failed),
    ]
}

/// The lock of a work item that is gone cannot be renewed.
pub fn test_renew_fails_when_entry_deleted() -> (r: Vec<Step>)
    ensures
        r@ == renew_fails_when_entry_deleted_steps(),
{
    vec![
        Do(PutWork(activity("inst-renew-stolen", 1, "TestActivity"))),
        Take(work(), 0),
        Do(AckWork(Held(0), None)),
        Try(RenewWork(Held(0), millis(30_000))),
        Expect(Check::Failed),
    ]
}

/// The script of [`test_cancelling_nonexistent_activities_is_idempotent`].
pub open spec fn cancelling_nonexistent_activities_is_idempotent_steps() -> Seq<Step> {
    seq![
        Do(Put(start_item("inst-cancel-idempotent"))),
        Take(turn(), 0),
        event(1, "inst-cancel-idempotent", 1, started("TestOrch", "1.0")),
        metadata(None, None, Some("TestOrch"), None),
        cancelled("inst-cancel-idempotent", 999),
        cancelled("inst-cancel-idempotent", 1),
        Do(Ack(Held(0), 1)),
    ]
}

/// A turn may cancel activities that do not exist.
pub fn test_cancelling_nonexistent_activities_is_idempotent() -> (r: Vec<Step>)
    ensures
        r@ == cancelling_nonexistent_activities_is_idempotent_steps(),
{
    vec![
        Do(Put(start_item("inst-cancel-idempotent"))),
        Take(turn(), 0),
        event(1, "inst-cancel-idempotent", 1, started("TestOrch", "1.0")),
        metadata(None, None, Some("TestOrch"), None),
        cancelled("inst-cancel-idempotent", 999),
        cancelled("inst-cancel-idempotent", 1),
        Do(Ack(Held(0), 1)),
    ]
}

/// The script of [`test_batch_cancellation_deletes_multiple_activities`].
pub open spec fn batch_cancellation_deletes_multiple_activities_steps() -> Seq<Step> {
    seq![
        Do(Put(start_item("inst-batch-cancel"))),
        Take(turn(), 0),
        event(1, "inst-batch-cancel", 1, started("TestOrch", "1.0")),
        AddWork(activity("inst-batch-cancel", 1, "Activity1")),
        AddWork(activity("inst-batch-cancel", 2, "Activity2")),
        AddWork(activity("inst-batch-cancel", 3, "Activity3")),
        AddWork(activity("inst-batch-cancel", 4, "Activity4")),
        AddWork(activity("inst-batch-cancel", 5, "Activity5")),
        metadata(Some("Running"), None, Some("TestOrch"), None),
        Do(Ack(Held(0), 1)),
        Do(Put(Item::Raised("inst-batch-cancel", "Trigger", "{}"))),
        Take(turn(), 1),
        cancelled("inst-batch-cancel", 1),
        cancelled("inst-batch-cancel", 2),
        cancelled("inst-batch-cancel", 3),
        cancelled("inst-batch-cancel", 4),
        cancelled("inst-batch-cancel", 5),
        Do(Ack(Held(1), 1)),
        Do(fetch_work(millis(100))),
        Expect(Check::Nothing),
    ]
}

/// A turn may cancel many activities at once.
pub fn test_batch_cancellation_deletes_multiple_activities() -> (r: Vec<Step>)
    ensures
        r@ == batch_cancellation_deletes_multiple_activities_steps(),
{
    vec![
        Do(Put(start_item("inst-batch-cancel"))),
        Take(turn(), 0),
        event(1, "inst-batch-cancel", 1, started("TestOrch", "1.0")),
        AddWork(activity("inst-batch-cancel", 1, "Activity1")),
        AddWork(activity("inst-batch-cancel", 2, "Activity2")),
        AddWork(activity("inst-batch-cancel", 3, "Activity3")),
        AddWork(activity("inst-batch-cancel", 4, "Activity4")),
        AddWork(activity("inst-batch-cancel", 5, "Activity5")),
        metadata(Some("Running"), None, Some("TestOrch"), None),
        Do(Ack(Held(0), 1)),
        Do(Put(Item::Raised("inst-batch-cancel", "Trigger", "{}"))),
        Take(turn(), 1),
        cancelled("inst-batch-cancel", 1),
        cancelled("inst-batch-cancel", 2),
        cancelled("inst-batch-cancel", 3),
        cancelled("inst-batch-cancel", 4),
        cancelled("inst-batch-cancel", 5),
        Do(Ack(Held(1), 1)),
        Do(fetch_work(millis(100))),
        Expect(Check::Nothing),
    ]
}

/// The script of [`test_same_activity_in_worker_items_and_cancelled_is_noop`].
pub open spec fn same_activity_in_worker_items_and_cancelled_is_noop_steps() -> Seq<Step> {
    seq![
        Do(Put(start_item("inst-schedule-then-cancel"))),
        Take(turn(), 0),
        event(1, "inst-schedule-then-cancel", 1, started("TestOrch", "1.0")),
        AddWork(activity("inst-schedule-then-cancel", 2, "DroppedActivity")),
        AddWork(activity("inst-schedule-then-cancel", 3, "NormalActivity")),
        metadata(Some("Running"), None, Some("TestOrch"), None),
        cancelled("inst-schedule-then-cancel", 2),
        Do(Ack(Held(0), 1)),
        Take(work(), 1),
        number_is(Num::WorkId, 3),
        text_is(Txt::WorkName, "NormalActivity"),
        Do(AckWork(Held(1), None)),
        Do(fetch_work(millis(100))),
        Expect(Check::Nothing),
    ]
}

/// An activity that a turn both schedules and cancels is not enqueued: what is
/// scheduled comes first, what is cancelled second.
pub fn test_same_activity_in_worker_items_and_cancelled_is_noop() -> (r: Vec<Step>)
    ensures
        r@ == same_activity_in_worker_items_and_cancelled_is_noop_steps(),
{
    vec![
        Do(Put(start_item("inst-schedule-then-cancel"))),
        Take(turn(), 0),
        event(1, "inst-schedule-then-cancel", 1, started("TestOrch", "1.0")),
        AddWork(activity("inst-schedule-then-cancel", 2, "DroppedActivity")),
        AddWork(activity("inst-schedule-then-cancel", 3, "NormalActivity")),
        metadata(Some("Running"), None, Some("TestOrch"), None),
        cancelled("inst-schedule-then-cancel", 2),
        Do(Ack(Held(0), 1)),
        Take(work(), 1),
        number_is(Num::WorkId, 3),
        text_is(Txt::WorkName, "NormalActivity"),
        Do(AckWork(Held(1), None)),
        Do(fetch_work(millis(100))),
        Expect(Check::Nothing),
    ]
}

/// The script of [`test_orphan_activity_after_instance_force_deletion`].
pub open spec fn orphan_activity_after_instance_force_deletion_steps() -> Seq<Step> {
    seq![
        Do(Put(start_item("inst-orphan-activity"))),
        Take(turn(), 0),
        event(1, "inst-orphan-activity", 1, started("TestOrch", "1.0.0")),
        AddWork(Item::Activity("inst-orphan-activity", 1, 1, "TestActivity", "test-input")),
        metadata(Some("Running"), None, Some("TestOrch"), Some("1.0.0")),
        Do(Ack(Held(0), 1)),
        Do(Delete("inst-orphan-activity", true)),
        at_least(Num::InstancesDeleted, 1),
        Try(InstanceInfo("inst-orphan-activity")),
        Expect(Check::Failed),
        TakeIfAny(fetch_work(millis(5_000)), 1),
        SkipIfNothing(1),
        Do(AckWork(Held(1), Some(completed("inst-orphan-activity", 1, "orphan-result")))),
    ]
}

/// After an instance was deleted by force, an activity of it may or may not be
/// left; where one is, it can be completed.
pub fn test_orphan_activity_after_instance_force_deletion() -> (r: Vec<Step>)
    ensures
        r@ == orphan_activity_after_instance_force_deletion_steps(),
{
    vec![
        Do(Put(start_item("inst-orphan-activity"))),
        Take(turn(), 0),
        event(1, "inst-orphan-activity", 1, started("TestOrch", "1.0.0")),
        AddWork(Item::Activity("inst-orphan-activity", 1, 1, "TestActivity", "test-input")),
        metadata(Some("Running"), None, Some("TestOrch"), Some("1.0.0")),
        Do(Ack(Held(0), 1)),
        Do(Delete("inst-orphan-activity", true)),
        at_least(Num::InstancesDeleted, 1),
        Try(InstanceInfo("inst-orphan-activity")),
        Expect(Check::Failed),
        TakeIfAny(fetch_work(millis(5_000)), 1),
        SkipIfNothing(1),
        Do(AckWork(Held(1), Some(completed("inst-orphan-activity", 1, "orphan-result")))),
    ]
}

/// A store passes only if an instance that was deleted by force is not found
/// any more, and an activity of it that is still handed out can be completed;
/// where none is handed out, there is nothing more to be done.
pub proof fn law_orphan_activities_can_be_completed(states: Seq<RunModel>)
    requires
        runner::passing(states, orphan_activity_after_instance_force_deletion_steps()),
    ensures
        runner::current(states[9]) is Failed,
        match runner::handed_out(runner::current(states[11])) {
            Some(token) => {
                &&& states.len() == 14
                &&& states[12].tokens[1] == token
                &&& reply::succeeded(runner::current(states[13]))
            },
            None => states.len() == 13 && runner::current(states[11]) is Nothing,
        },
{
    let script = orphan_activity_after_instance_force_deletion_steps();
    assert(script[9] == Expect(Check::Failed));
    assert(script[10] is TakeIfAny);
    assert(script[11] == SkipIfNothing(1));
    assert(script[12] is Do);
    runner::lemma_straight_so_far(states, script, 9);
    runner::lemma_straight_so_far(states, script, 10);
    runner::lemma_straight_so_far(states, script, 11);
    runner::lemma_one_step(states, script, 11);
    runner::lemma_one_step(states, script, 12);
    if !(runner::current(states[11]) is Nothing) {
        runner::lemma_one_step(states, script, 13);
    }
}

/// A store passes only if, after a turn cancelled the first two of three
/// activities, the third is fetched and no other.
pub proof fn law_only_cancelled_activities_go(states: Seq<RunModel>)
    requires
        runner::passing(states, cancelled_activities_deleted_from_worker_queue_steps()),
    ensures
        reply::number_of(Num::WorkId, runner::current(states[16])) == Some(3u64),
        runner::current(states[18]) is Nothing,
{
    let script = cancelled_activities_deleted_from_worker_queue_steps();
    assert(script[16] == number_is(Num::WorkId, 3));
    runner::law_a_straight_pass_meets_every_step(states, script, 16);
    assert(script[18] == Expect(Check::Nothing));
    runner::law_a_straight_pass_meets_every_step(states, script, 18);
}

/// A store passes only if nothing is left to fetch after a turn cancelled all five
/// activities.
pub proof fn law_a_batch_is_cancelled_whole(states: Seq<RunModel>)
    requires
        runner::passing(states, batch_cancellation_deletes_multiple_activities_steps()),
    ensures
        runner::current(states[19]) is Nothing,
{
    let script = batch_cancellation_deletes_multiple_activities_steps();
    assert(script[19] == Expect(Check::Nothing));
    runner::law_a_straight_pass_meets_every_step(states, script, 19);
}

/// A store passes only if the activity that was scheduled and cancelled by the same
/// turn is never fetched.
pub proof fn law_scheduled_and_cancelled_is_never_fetched(states: Seq<RunModel>)
    requires
        runner::passing(states, same_activity_in_worker_items_and_cancelled_is_noop_steps()),
    ensures
        reply::number_of(Num::WorkId, runner::current(states[9])) == Some(3u64),
        runner::current(states[13]) is Nothing,
{
    let script = same_activity_in_worker_items_and_cancelled_is_noop_steps();
    assert(script[9] == number_is(Num::WorkId, 3));
    runner::law_a_straight_pass_meets_every_step(states, script, 9);
    assert(script[13] == Expect(Check::Nothing));
    runner::law_a_straight_pass_meets_every_step(states, script, 13);
}

/// A store passes only if the lock of an activity was handed out, the
/// orchestration completed, and the lock was renewed nonetheless.
pub proof fn law_a_lock_is_renewed_after_the_end(states: Seq<RunModel>)
    requires
        runner::passing(states, renew_returns_terminal_when_orchestration_completed_steps()),
    ensures
        states.len() == 14,
        states[7].tokens.contains_key(1),
        reply::succeeded(states[12].last),
        reply::succeeded(states[13].last),
{
    let script = renew_returns_terminal_when_orchestration_completed_steps();
    assert(script[6] == Take(work(), 1));
    runner::law_a_straight_pass_meets_every_step(states, script, 6);
    assert(script[11] == Do(Ack(Held(2), 1)));
    runner::law_a_straight_pass_meets_every_step(states, script, 11);
    assert(script[12] == Do(RenewWork(Held(1), millis(30_000))));
    runner::law_a_straight_pass_meets_every_step(states, script, 12);
}

/// What the store did in a run that passes
/// [`test_fetch_returns_running_state_for_active_orchestration`].
pub proof fn law_passing_fetch_returns_running_state_for_active_orchestration(
    script: Vec<Step>,
    states: Seq<RunModel>,
)
    requires
        call_ensures(test_fetch_returns_running_state_for_active_orchestration, (), script),
        runner::passing(states, script@),
    ensures
        states.len() == 9,
        runner::passed(states, 0, Do(Put(start_item("inst-running")))),
        runner::passed(states, 1, Take(turn(), 0)),
        runner::passed(states, 5, Do(Ack(Held(0), 1))),
        runner::passed(states, 6, Do(work())),
        runner::passed(states, 7, Expect(Check::Something)),
{
    runner::lemma_passed(states, script@);
}

/// What the store did in a run that passes
/// [`test_fetch_returns_terminal_state_when_orchestration_completed`].
pub proof fn law_passing_fetch_returns_terminal_state_when_orchestration_completed(
    script: Vec<Step>,
    states: Seq<RunModel>,
)
    requires
        call_ensures(test_fetch_returns_terminal_state_when_orchestration_completed, (), script),
        runner::passing(states, script@),
    ensures
        states.len() == 10,
        runner::passed(states, 0, Do(Put(start_item("inst-completed")))),
        runner::passed(states, 1, Take(turn(), 0)),
        runner::passed(states, 6, Do(Ack(Held(0), 1))),
        runner::passed(states, 7, Do(work())),
        runner::passed(states, 8, Expect(Check::Something)),
{
    runner::lemma_passed(states, script@);
}

/// What the store did in a run that passes
/// [`test_fetch_returns_terminal_state_when_orchestration_failed`].
pub proof fn law_passing_fetch_returns_terminal_state_when_orchestration_failed(
    script: Vec<Step>,
    states: Seq<RunModel>,
)
    requires
        call_ensures(test_fetch_returns_terminal_state_when_orchestration_failed, (), script),
        runner::passing(states, script@),
    ensures
        states.len() == 10,
        runner::passed(states, 0, Do(Put(start_item("inst-failed")))),
        runner::passed(states, 1, Take(turn(), 0)),
        runner::passed(states, 6, Do(Ack(Held(0), 1))),
        runner::passed(states, 7, Do(work())),
        runner::passed(states, 8, Expect(Check::Something)),
{
    runner::lemma_passed(states, script@);
}

/// What the store did in a run that passes
/// [`test_fetch_returns_terminal_state_when_orchestration_continued_as_new`].
pub proof fn law_passing_fetch_returns_terminal_state_when_orchestration_continued_as_new(
    script: Vec<Step>,
    states: Seq<RunModel>,
)
    requires
        call_ensures(
            test_fetch_returns_terminal_state_when_orchestration_continued_as_new,
            (),
            script,
        ),
        runner::passing(states, script@),
    ensures
        states.len() == 10,
        runner::passed(states, 0, Do(Put(start_item("inst-can")))),
        runner::passed(states, 1, Take(turn(), 0)),
        runner::passed(states, 6, Do(Ack(Held(0), 1))),
        runner::passed(states, 7, Do(work())),
        runner::passed(states, 8, Expect(Check::Something)),
{
    runner::lemma_passed(states, script@);
}

/// What the store did in a run that passes
/// [`test_fetch_returns_missing_state_when_instance_deleted`].
pub proof fn law_passing_fetch_returns_missing_state_when_instance_deleted(
    script: Vec<Step>,
    states: Seq<RunModel>,
)
    requires
        call_ensures(test_fetch_returns_missing_state_when_instance_deleted, (), script),
        runner::passing(states, script@),
    ensures
        states.len() == 4,
        runner::passed(states, 0, Do(PutWork(activity("inst-missing", 1, "TestActivity")))),
        runner::passed(states, 1, Do(work())),
        runner::passed(states, 2, Expect(Check::Something)),
{
    runner::lemma_passed(states, script@);
}

/// What the store did in a run that passes
/// [`test_renew_returns_running_when_orchestration_active`].
pub proof fn law_passing_renew_returns_running_when_orchestration_active(
    script: Vec<Step>,
    states: Seq<RunModel>,
)
    requires
        call_ensures(test_renew_returns_running_when_orchestration_active, (), script),
        runner::passing(states, script@),
    ensures
        states.len() == 9,
        runner::passed(states, 0, Do(Put(start_item("inst-renew-run")))),
        runner::passed(states, 1, Take(turn(), 0)),
        runner::passed(states, 5, Do(Ack(Held(0), 1))),
        runner::passed(states, 6, Take(work(), 1)),
        runner::passed(states, 7, Do(RenewWork(Held(1), millis(30_000)))),
{
    runner::lemma_passed(states, script@);
}

/// What the store did in a run that passes
/// [`test_renew_returns_terminal_when_orchestration_completed`].
pub proof fn law_passing_renew_returns_terminal_when_orchestration_completed(
    script: Vec<Step>,
    states: Seq<RunModel>,
)
    requires
        call_ensures(test_renew_returns_terminal_when_orchestration_completed, (), script),
        runner::passing(states, script@),
    ensures
        states.len() == 14,
        runner::passed(states, 0, Do(Put(start_item("inst-renew-term")))),
        runner::passed(states, 1, Take(turn(), 0)),
        runner::passed(states, 5, Do(Ack(Held(0), 1))),
        runner::passed(states, 6, Take(work(), 1)),
        runner::passed(states, 7, Do(Put(Item::Raised("inst-renew-term", "Trigger", "{}")))),
        runner::passed(states, 8, Take(turn(), 2)),
        runner::passed(states, 11, Do(Ack(Held(2), 1))),
        runner::passed(states, 12, Do(RenewWork(Held(1), millis(30_000)))),
{
    runner::lemma_passed(states, script@);
}

/// What the store did in a run that passes [`test_renew_returns_missing_when_instance_deleted`].
pub proof fn law_passing_renew_returns_missing_when_instance_deleted(
    script: Vec<Step>,
    states: Seq<RunModel>,
)
    requires
        call_ensures(test_renew_returns_missing_when_instance_deleted, (), script),
        runner::passing(states, script@),
    ensures
        states.len() == 4,
        runner::passed(states, 0, Do(PutWork(activity("inst-renew-missing", 1, "TestActivity")))),
        runner::passed(states, 1, Take(work(), 0)),
        runner::passed(states, 2, Do(RenewWork(Held(0), millis(30_000)))),
{
    runner::lemma_passed(states, script@);
}

/// What the store did in a run that passes [`test_ack_work_item_none_deletes_without_enqueue`].
pub proof fn law_passing_ack_work_item_none_deletes_without_enqueue(
    script: Vec<Step>,
    states: Seq<RunModel>,
)
    requires
        call_ensures(test_ack_work_item_none_deletes_without_enqueue, (), script),
        runner::passing(states, script@),
    ensures
        states.len() == 8,
        runner::passed(states, 0, Do(PutWork(activity("inst-ack-none", 1, "TestActivity")))),
        runner::passed(states, 1, Take(work(), 0)),
        runner::passed(states, 2, Do(AckWork(Held(0), None))),
        runner::passed(states, 3, Do(fetch_work(millis(100)))),
        runner::passed(states, 4, Expect(Check::Nothing)),
        runner::passed(states, 5, Do(fetch_turn(millis(100)))),
        runner::passed(states, 6, Expect(Check::Nothing)),
{
    runner::lemma_passed(states, script@);
}

/// What the store did in a run that passes [`test_cancelled_activities_deleted_from_worker_queue`].
pub proof fn law_passing_cancelled_activities_deleted_from_worker_queue(
    script: Vec<Step>,
    states: Seq<RunModel>,
)
    requires
        call_ensures(test_cancelled_activities_deleted_from_worker_queue, (), script),
        runner::passing(states, script@),
    ensures
        states.len() == 20,
        runner::passed(states, 0, Do(Put(start_item("inst-cancel-delete")))),
        runner::passed(states, 1, Take(turn(), 0)),
        runner::passed(states, 7, Do(Ack(Held(0), 1))),
        runner::passed(states, 8, Take(work(), 1)),
        runner::passed(states, 9, Do(AbandonWork(Held(1), None, false))),
        runner::passed(states, 10, Do(Put(Item::Raised("inst-cancel-delete", "Trigger", "{}")))),
        runner::passed(states, 11, Take(turn(), 2)),
        runner::passed(states, 14, Do(Ack(Held(2), 1))),
        runner::passed(states, 15, Do(work())),
        runner::passed(states, 16, number_is(Num::WorkId, 3)),
        runner::passed(states, 17, Do(fetch_work(millis(100)))),
        runner::passed(states, 18, Expect(Check::Nothing)),
{
    runner::lemma_passed(states, script@);
}

/// What the store did in a run that passes [`test_ack_work_item_fails_when_entry_deleted`].
pub proof fn law_passing_ack_work_item_fails_when_entry_deleted(
    script: Vec<Step>,
    states: Seq<RunModel>,
)
    requires
        call_ensures(test_ack_work_item_fails_when_entry_deleted, (), script),
        runner::passing(states, script@),
    ensures
        states.len() == 7,
        runner::passed(states, 0, Do(PutWork(activity("inst-ack-stolen", 1, "TestActivity")))),
        runner::passed(states, 1, Take(work(), 0)),
        runner::passed(states, 2, Do(AckWork(Held(0), None))),
        runner::passed(
            states,
            3,
            Try(AckWork(Held(0), Some(completed("inst-ack-stolen", 1, "done")))),
        ),
        runner::passed(states, 4, Expect(Check::Failed)),
        runner::passed(states, 5, Expect(Check::Permanent)),
{
    runner::lemma_passed(states, script@);
}

/// What the store did in a run that passes [`test_renew_fails_when_entry_deleted`].
pub proof fn law_passing_renew_fails_when_entry_deleted(script: Vec<Step>, states: Seq<RunModel>)
    requires
        call_ensures(test_renew_fails_when_entry_deleted, (), script),
        runner::passing(states, script@),
    ensures
        states.len() == 6,
        runner::passed(states, 0, Do(PutWork(activity("inst-renew-stolen", 1, "TestActivity")))),
        runner::passed(states, 1, Take(work(), 0)),
        runner::passed(states, 2, Do(AckWork(Held(0), None))),
        runner::passed(states, 3, Try(RenewWork(Held(0), millis(30_000)))),
        runner::passed(states, 4, Expect(Check::Failed)),
{
    runner::lemma_passed(states, script@);
}

/// What the store did in a run that passes
/// [`test_cancelling_nonexistent_activities_is_idempotent`].
pub proof fn law_passing_cancelling_nonexistent_activities_is_idempotent(
    script: Vec<Step>,
    states: Seq<RunModel>,
)
    requires
        call_ensures(test_cancelling_nonexistent_activities_is_idempotent, (), script),
        runner::passing(states, script@),
    ensures
        states.len() == 8,
        runner::passed(states, 0, Do(Put(start_item("inst-cancel-idempotent")))),
        runner::passed(states, 1, Take(turn(), 0)),
        runner::passed(states, 6, Do(Ack(Held(0), 1))),
{
    runner::lemma_passed(states, script@);
}

/// What the store did in a run that passes [`test_batch_cancellation_deletes_multiple_activities`].
pub proof fn law_passing_batch_cancellation_deletes_multiple_activities(
    script: Vec<Step>,
    states: Seq<RunModel>,
)
    requires
        call_ensures(test_batch_cancellation_deletes_multiple_activities, (), script),
        runner::passing(states, script@),
    ensures
        states.len() == 21,
        runner::passed(states, 0, Do(Put(start_item("inst-batch-cancel")))),
        runner::passed(states, 1, Take(turn(), 0)),
        runner::passed(states, 9, Do(Ack(Held(0), 1))),
        runner::passed(states, 10, Do(Put(Item::Raised("inst-batch-cancel", "Trigger", "{}")))),
        runner::passed(states, 11, Take(turn(), 1)),
        runner::passed(states, 17, Do(Ack(Held(1), 1))),
        runner::passed(states, 18, Do(fetch_work(millis(100)))),
        runner::passed(states, 19, Expect(Check::Nothing)),
{
    runner::lemma_passed(states, script@);
}

/// What the store did in a run that passes
/// [`test_same_activity_in_worker_items_and_cancelled_is_noop`].
pub proof fn law_passing_same_activity_in_worker_items_and_cancelled_is_noop(
    script: Vec<Step>,
    states: Seq<RunModel>,
)
    requires
        call_ensures(test_same_activity_in_worker_items_and_cancelled_is_noop, (), script),
        runner::passing(states, script@),
    ensures
        states.len() == 15,
        runner::passed(states, 0, Do(Put(start_item("inst-schedule-then-cancel")))),
        runner::passed(states, 1, Take(turn(), 0)),
        runner::passed(states, 7, Do(Ack(Held(0), 1))),
        runner::passed(states, 8, Take(work(), 1)),
        runner::passed(states, 9, number_is(Num::WorkId, 3)),
        runner::passed(states, 10, text_is(Txt::WorkName, "NormalActivity")),
        runner::passed(states, 11, Do(AckWork(Held(1), None))),
        runner::passed(states, 12, Do(fetch_work(millis(100)))),
        runner::passed(states, 13, Expect(Check::Nothing)),
{
    runner::lemma_passed(states, script@);
}

} // verus!
