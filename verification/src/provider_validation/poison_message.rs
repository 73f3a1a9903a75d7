//! Whether it is counted how often a message was fetched.
use crate::provider_validation::runner::{self, RunModel};
use crate::provider_validation::script::Call::{
    AbandonTurn, AbandonWork, Ack, AckWork, AckWorkAs, Put, PutWork, Sleep,
};
use crate::provider_validation::script::Step::{Do, Expect, Pick, Save, Shelve, Take};
use crate::provider_validation::script::Token::Held;
use crate::provider_validation::script::{
    activity, completed, fetch_turn, fetch_work, lock, millis, number_is, start_item, Check, Num,
    Step,
};
use vstd::prelude::*;

verus! {

/// The script of [`orchestration_attempt_count_starts_at_one`].
pub open spec fn orchestration_attempt_count_starts_at_one_steps() -> Seq<Step> {
    seq![
        Do(Put(start_item("poison-test-1"))),
        Take(fetch_turn(lock()), 0),
        number_is(Num::Attempts, 1),
        Do(Ack(Held(0), 1)),
    ]
}

/// The first fetch of a turn counts as one.
pub fn orchestration_attempt_count_starts_at_one() -> (r: Vec<Step>)
    ensures
        r@ == orchestration_attempt_count_starts_at_one_steps(),
{
    vec![
        Do(Put(start_item("poison-test-1"))),
        Take(fetch_turn(lock()), 0),
        number_is(Num::Attempts, 1),
        Do(Ack(Held(0), 1)),
    ]
}

/// The script of [`orchestration_attempt_count_increments_on_refetch`].
pub open spec fn orchestration_attempt_count_increments_on_refetch_steps() -> Seq<Step> {
    seq![
        Do(Put(start_item("poison-test-2"))),
        Take(fetch_turn(lock()), 0),
        number_is(Num::Attempts, 1),
        Do(AbandonTurn(Held(0), false)),
        Take(fetch_turn(lock()), 1),
        number_is(Num::Attempts, 2),
        Do(AbandonTurn(Held(1), false)),
        Take(fetch_turn(lock()), 2),
        number_is(Num::Attempts, 3),
        Do(Ack(Held(2), 1)),
    ]
}

/// Every fetch of a turn counts.
pub fn orchestration_attempt_count_increments_on_refetch() -> (r: Vec<Step>)
    ensures
        r@ == orchestration_attempt_count_increments_on_refetch_steps(),
{
    vec![
        Do(Put(start_item("poison-test-2"))),
        Take(fetch_turn(lock()), 0),
        number_is(Num::Attempts, 1),
        Do(AbandonTurn(Held(0), false)),
        Take(fetch_turn(lock()), 1),
        number_is(Num::Attempts, 2),
        Do(AbandonTurn(Held(1), false)),
        Take(fetch_turn(lock()), 2),
        number_is(Num::Attempts, 3),
        Do(Ack(Held(2), 1)),
    ]
}

/// The script of [`worker_attempt_count_starts_at_one`].
pub open spec fn worker_attempt_count_starts_at_one_steps() -> Seq<Step> {
    seq![
        Do(PutWork(activity("poison-test-3", 1, "TestActivity"))),
        Take(fetch_work(lock()), 0),
        number_is(Num::Attempts, 1),
        Shelve,
        Do(AckWork(Held(0), Some(completed("poison-test-3", 1, "done")))),
        Pick(0),
        Expect(Check::WorkIsActivity),
    ]
}

/// The first fetch of a work item counts as one.
pub fn worker_attempt_count_starts_at_one() -> (r: Vec<Step>)
    ensures
        r@ == worker_attempt_count_starts_at_one_steps(),
{
    vec![
        Do(PutWork(activity("poison-test-3", 1, "TestActivity"))),
        Take(fetch_work(lock()), 0),
        number_is(Num::Attempts, 1),
        Shelve,
        Do(AckWork(Held(0), Some(completed("poison-test-3", 1, "done")))),
        Pick(0),
        Expect(Check::WorkIsActivity),
    ]
}

/// The script of [`worker_attempt_count_increments_on_lock_expiry`].
pub open spec fn worker_attempt_count_increments_on_lock_expiry_steps() -> Seq<Step> {
    seq![
        Do(PutWork(activity("poison-test-4", 1, "TestActivity"))),
        Take(fetch_work(millis(1_000)), 0),
        number_is(Num::Attempts, 1),
        Do(Sleep(millis(1_100))),
        Take(fetch_work(millis(1_000)), 1),
        number_is(Num::Attempts, 2),
        Do(AckWork(Held(1), Some(completed("poison-test-4", 1, "done")))),
    ]
}

/// A fetch of a work item whose lock expired counts.
pub fn worker_attempt_count_increments_on_lock_expiry() -> (r: Vec<Step>)
    ensures
        r@ == worker_attempt_count_increments_on_lock_expiry_steps(),
{
    vec![
        Do(PutWork(activity("poison-test-4", 1, "TestActivity"))),
        Take(fetch_work(millis(1_000)), 0),
        number_is(Num::Attempts, 1),
        Do(Sleep(millis(1_100))),
        Take(fetch_work(millis(1_000)), 1),
        number_is(Num::Attempts, 2),
        Do(AckWork(Held(1), Some(completed("poison-test-4", 1, "done")))),
    ]
}

/// The script of [`attempt_count_is_per_message`].
pub open spec fn attempt_count_is_per_message_steps() -> Seq<Step> {
    seq![
        Do(PutWork(activity("poison-test-5a", 1, "Activity1"))),
        Do(PutWork(activity("poison-test-5b", 2, "Activity2"))),
        Take(fetch_work(lock()), 0),
        number_is(Num::Attempts, 1),
        Shelve,
        Take(fetch_work(lock()), 1),
        number_is(Num::Attempts, 1),
        Shelve,
        Pick(0),
        Save(0, Num::WorkId),
        Pick(1),
        Save(1, Num::WorkId),
        Expect(Check::NumbersDiffer(0, 1)),
        Do(AckWorkAs(Held(0), "poison-test-5a", 1, 0, "done")),
        Do(AckWorkAs(Held(1), "poison-test-5b", 1, 1, "done")),
    ]
}

/// Each message has a count of its own.
pub fn attempt_count_is_per_message() -> (r: Vec<Step>)
    ensures
        r@ == attempt_count_is_per_message_steps(),
{
    vec![
        Do(PutWork(activity("poison-test-5a", 1, "Activity1"))),
        Do(PutWork(activity("poison-test-5b", 2, "Activity2"))),
        Take(fetch_work(lock()), 0),
        number_is(Num::Attempts, 1),
        Shelve,
        Take(fetch_work(lock()), 1),
        number_is(Num::Attempts, 1),
        Shelve,
        Pick(0),
        Save(0, Num::WorkId),
        Pick(1),
        Save(1, Num::WorkId),
        Expect(Check::NumbersDiffer(0, 1)),
        Do(AckWorkAs(Held(0), "poison-test-5a", 1, 0, "done")),
        Do(AckWorkAs(Held(1), "poison-test-5b", 1, 1, "done")),
    ]
}

/// The script of [`abandon_work_item_ignore_attempt_decrements`].
pub open spec fn abandon_work_item_ignore_attempt_decrements_steps() -> Seq<Step> {
    seq![
        Do(PutWork(activity("poison-test-ignore-1", 1, "TestActivity"))),
        Take(fetch_work(lock()), 0),
        number_is(Num::Attempts, 1),
        Do(AbandonWork(Held(0), None, false)),
        Take(fetch_work(lock()), 1),
        number_is(Num::Attempts, 2),
        Do(AbandonWork(Held(1), None, true)),
        Take(fetch_work(lock()), 2),
        number_is(Num::Attempts, 2),
        Do(AckWork(Held(2), Some(completed("poison-test-ignore-1", 1, "done")))),
    ]
}

/// A work item can be abandoned so that the attempt does not count.
pub fn abandon_work_item_ignore_attempt_decrements() -> (r: Vec<Step>)
    ensures
        r@ == abandon_work_item_ignore_attempt_decrements_steps(),
{
    vec![
        Do(PutWork(activity("poison-test-ignore-1", 1, "TestActivity"))),
        Take(fetch_work(lock()), 0),
        number_is(Num::Attempts, 1),
        Do(AbandonWork(Held(0), None, false)),
        Take(fetch_work(lock()), 1),
        number_is(Num::Attempts, 2),
        Do(AbandonWork(Held(1), None, true)),
        Take(fetch_work(lock()), 2),
        number_is(Num::Attempts, 2),
        Do(AckWork(Held(2), Some(completed("poison-test-ignore-1", 1, "done")))),
    ]
}

/// The script of [`abandon_orchestration_item_ignore_attempt_decrements`].
pub open spec fn abandon_orchestration_item_ignore_attempt_decrements_steps() -> Seq<Step> {
    seq![
        Do(Put(start_item("poison-test-ignore-2"))),
        Take(fetch_turn(lock()), 0),
        number_is(Num::Attempts, 1),
        Do(AbandonTurn(Held(0), false)),
        Take(fetch_turn(lock()), 1),
        number_is(Num::Attempts, 2),
        Do(AbandonTurn(Held(1), true)),
        Take(fetch_turn(lock()), 2),
        number_is(Num::Attempts, 2),
        Do(Ack(Held(2), 1)),
    ]
}

/// A turn can be abandoned so that the attempt does not count.
pub fn abandon_orchestration_item_ignore_attempt_decrements() -> (r: Vec<Step>)
    ensures
        r@ == abandon_orchestration_item_ignore_attempt_decrements_steps(),
{
    vec![
        Do(Put(start_item("poison-test-ignore-2"))),
        Take(fetch_turn(lock()), 0),
        number_is(Num::Attempts, 1),
        Do(AbandonTurn(Held(0), false)),
        Take(fetch_turn(lock()), 1),
        number_is(Num::Attempts, 2),
        Do(AbandonTurn(Held(1), true)),
        Take(fetch_turn(lock()), 2),
        number_is(Num::Attempts, 2),
        Do(Ack(Held(2), 1)),
    ]
}

/// The script of [`ignore_attempt_never_goes_negative`].
pub open spec fn ignore_attempt_never_goes_negative_steps() -> Seq<Step> {
    seq![
        Do(PutWork(activity("poison-test-never-neg", 1, "TestActivity"))),
        Take(fetch_work(lock()), 0),
        number_is(Num::Attempts, 1),
        Do(AbandonWork(Held(0), None, true)),
        Take(fetch_work(lock()), 1),
        number_is(Num::Attempts, 1),
        Do(AbandonWork(Held(1), None, true)),
        Take(fetch_work(lock()), 2),
        number_is(Num::Attempts, 1),
        Do(AckWork(Held(2), Some(completed("poison-test-never-neg", 1, "done")))),
    ]
}

/// Attempts that do not count never bring the count below zero.
pub fn ignore_attempt_never_goes_negative() -> (r: Vec<Step>)
    ensures
        r@ == ignore_attempt_never_goes_negative_steps(),
{
    vec![
        Do(PutWork(activity("poison-test-never-neg", 1, "TestActivity"))),
        Take(fetch_work(lock()), 0),
        number_is(Num::Attempts, 1),
        Do(AbandonWork(Held(0), None, true)),
        Take(fetch_work(lock()), 1),
        number_is(Num::Attempts, 1),
        Do(AbandonWork(Held(1), None, true)),
        Take(fetch_work(lock()), 2),
        number_is(Num::Attempts, 1),
        Do(AckWork(Held(2), Some(completed("poison-test-never-neg", 1, "done")))),
    ]
}

/// The script of [`max_attempt_count_across_message_batch`].
pub open spec fn max_attempt_count_across_message_batch_steps() -> Seq<Step> {
    seq![
        Do(Put(start_item("poison-batch-test"))),
        Take(fetch_turn(lock()), 0),
        number_is(Num::Attempts, 1),
        number_is(Num::TurnMessages, 1),
        Do(AbandonTurn(Held(0), false)),
        Take(fetch_turn(lock()), 1),
        number_is(Num::Attempts, 2),
        Do(Put(completed("poison-batch-test", 1, "activity result"))),
        Do(AbandonTurn(Held(1), false)),
        Take(fetch_turn(lock()), 2),
        number_is(Num::TurnMessages, 2),
        number_is(Num::Attempts, 3),
        Do(Ack(Held(2), 1)),
    ]
}

/// A turn counts as its message that was fetched most often.
pub fn max_attempt_count_across_message_batch() -> (r: Vec<Step>)
    ensures
        r@ == max_attempt_count_across_message_batch_steps(),
{
    vec![
        Do(Put(start_item("poison-batch-test"))),
        Take(fetch_turn(lock()), 0),
        number_is(Num::Attempts, 1),
        number_is(Num::TurnMessages, 1),
        Do(AbandonTurn(Held(0), false)),
        Take(fetch_turn(lock()), 1),
        number_is(Num::Attempts, 2),
        Do(Put(completed("poison-batch-test", 1, "activity result"))),
        Do(AbandonTurn(Held(1), false)),
        Take(fetch_turn(lock()), 2),
        number_is(Num::TurnMessages, 2),
        number_is(Num::Attempts, 3),
        Do(Ack(Held(2), 1)),
    ]
}

/// What the store did in a run that passes [`orchestration_attempt_count_starts_at_one`].
pub proof fn law_passing_orchestration_attempt_count_starts_at_one(
    script: Vec<Step>,
    states: Seq<RunModel>,
)
    requires
        call_ensures(orchestration_attempt_count_starts_at_one, (), script),
        runner::passing(states, script@),
    ensures
        states.len() == 5,
        runner::passed(states, 0, Do(Put(start_item("poison-test-1")))),
        runner::passed(states, 1, Take(fetch_turn(lock()), 0)),
        runner::passed(states, 2, number_is(Num::Attempts, 1)),
        runner::passed(states, 3, Do(Ack(Held(0), 1))),
{
    runner::lemma_passed(states, script@);
}

/// What the store did in a run that passes [`orchestration_attempt_count_increments_on_refetch`].
pub proof fn law_passing_orchestration_attempt_count_increments_on_refetch(
    script: Vec<Step>,
    states: Seq<RunModel>,
)
    requires
        call_ensures(orchestration_attempt_count_increments_on_refetch, (), script),
        runner::passing(states, script@),
    ensures
        states.len() == 11,
        runner::passed(states, 0, Do(Put(start_item("poison-test-2")))),
        runner::passed(states, 1, Take(fetch_turn(lock()), 0)),
        runner::passed(states, 2, number_is(Num::Attempts, 1)),
        runner::passed(states, 3, Do(AbandonTurn(Held(0), false))),
        runner::passed(states, 4, Take(fetch_turn(lock()), 1)),
        runner::passed(states, 5, number_is(Num::Attempts, 2)),
        runner::passed(states, 6, Do(AbandonTurn(Held(1), false))),
        runner::passed(states, 7, Take(fetch_turn(lock()), 2)),
        runner::passed(states, 8, number_is(Num::Attempts, 3)),
        runner::passed(states, 9, Do(Ack(Held(2), 1))),
{
    runner::lemma_passed(states, script@);
}

/// What the store did in a run that passes [`worker_attempt_count_starts_at_one`].
pub proof fn law_passing_worker_attempt_count_starts_at_one(
    script: Vec<Step>,
    states: Seq<RunModel>,
)
    requires
        call_ensures(worker_attempt_count_starts_at_one, (), script),
        runner::passing(states, script@),
    ensures
        states.len() == 8,
        runner::passed(states, 0, Do(PutWork(activity("poison-test-3", 1, "TestActivity")))),
        runner::passed(states, 1, Take(fetch_work(lock()), 0)),
        runner::passed(states, 2, number_is(Num::Attempts, 1)),
        runner::passed(
            states,
            4,
            Do(AckWork(Held(0), Some(completed("poison-test-3", 1, "done")))),
        ),
        runner::passed(states, 6, Expect(Check::WorkIsActivity)),
{
    runner::lemma_passed(states, script@);
}

/// What the store did in a run that passes [`worker_attempt_count_increments_on_lock_expiry`].
pub proof fn law_passing_worker_attempt_count_increments_on_lock_expiry(
    script: Vec<Step>,
    states: Seq<RunModel>,
)
    requires
        call_ensures(worker_attempt_count_increments_on_lock_expiry, (), script),
        runner::passing(states, script@),
    ensures
        states.len() == 8,
        runner::passed(states, 0, Do(PutWork(activity("poison-test-4", 1, "TestActivity")))),
        runner::passed(states, 1, Take(fetch_work(millis(1_000)), 0)),
        runner::passed(states, 2, number_is(Num::Attempts, 1)),
        runner::passed(states, 3, Do(Sleep(millis(1_100)))),
        runner::passed(states, 4, Take(fetch_work(millis(1_000)), 1)),
        runner::passed(states, 5, number_is(Num::Attempts, 2)),
        runner::passed(
            states,
            6,
            Do(AckWork(Held(1), Some(completed("poison-test-4", 1, "done")))),
        ),
{
    runner::lemma_passed(states, script@);
}

/// What the store did in a run that passes [`attempt_count_is_per_message`].
pub proof fn law_passing_attempt_count_is_per_message(script: Vec<Step>, states: Seq<RunModel>)
    requires
        call_ensures(attempt_count_is_per_message, (), script),
        runner::passing(states, script@),
    ensures
        states.len() == 16,
        runner::passed(states, 0, Do(PutWork(activity("poison-test-5a", 1, "Activity1")))),
        runner::passed(states, 1, Do(PutWork(activity("poison-test-5b", 2, "Activity2")))),
        runner::passed(states, 2, Take(fetch_work(lock()), 0)),
        runner::passed(states, 3, number_is(Num::Attempts, 1)),
        runner::passed(states, 5, Take(fetch_work(lock()), 1)),
        runner::passed(states, 6, number_is(Num::Attempts, 1)),
        runner::passed(states, 12, Expect(Check::NumbersDiffer(0, 1))),
        runner::passed(states, 13, Do(AckWorkAs(Held(0), "poison-test-5a", 1, 0, "done"))),
        runner::passed(states, 14, Do(AckWorkAs(Held(1), "poison-test-5b", 1, 1, "done"))),
{
    runner::lemma_passed(states, script@);
}

/// What the store did in a run that passes [`abandon_work_item_ignore_attempt_decrements`].
pub proof fn law_passing_abandon_work_item_ignore_attempt_decrements(
    script: Vec<Step>,
    states: Seq<RunModel>,
)
    requires
        call_ensures(abandon_work_item_ignore_attempt_decrements, (), script),
        runner::passing(states, script@),
    ensures
        states.len() == 11,
        runner::passed(states, 0, Do(PutWork(activity("poison-test-ignore-1", 1, "TestActivity")))),
        runner::passed(states, 1, Take(fetch_work(lock()), 0)),
        runner::passed(states, 2, number_is(Num::Attempts, 1)),
        runner::passed(states, 3, Do(AbandonWork(Held(0), None, false))),
        runner::passed(states, 4, Take(fetch_work(lock()), 1)),
        runner::passed(states, 5, number_is(Num::Attempts, 2)),
        runner::passed(states, 6, Do(AbandonWork(Held(1), None, true))),
        runner::passed(states, 7, Take(fetch_work(lock()), 2)),
        runner::passed(states, 8, number_is(Num::Attempts, 2)),
        runner::passed(
            states,
            9,
            Do(AckWork(Held(2), Some(completed("poison-test-ignore-1", 1, "done")))),
        ),
{
    runner::lemma_passed(states, script@);
}

/// What the store did in a run that passes
/// [`abandon_orchestration_item_ignore_attempt_decrements`].
pub proof fn law_passing_abandon_orchestration_item_ignore_attempt_decrements(
    script: Vec<Step>,
    states: Seq<RunModel>,
)
    requires
        call_ensures(abandon_orchestration_item_ignore_attempt_decrements, (), script),
        runner::passing(states, script@),
    ensures
        states.len() == 11,
        runner::passed(states, 0, Do(Put(start_item("poison-test-ignore-2")))),
        runner::passed(states, 1, Take(fetch_turn(lock()), 0)),
        runner::passed(states, 2, number_is(Num::Attempts, 1)),
        runner::passed(states, 3, Do(AbandonTurn(Held(0), false))),
        runner::passed(states, 4, Take(fetch_turn(lock()), 1)),
        runner::passed(states, 5, number_is(Num::Attempts, 2)),
        runner::passed(states, 6, Do(AbandonTurn(Held(1), true))),
        runner::passed(states, 7, Take(fetch_turn(lock()), 2)),
        runner::passed(states, 8, number_is(Num::Attempts, 2)),
        runner::passed(states, 9, Do(Ack(Held(2), 1))),
{
    runner::lemma_passed(states, script@);
}

/// What the store did in a run that passes [`ignore_attempt_never_goes_negative`].
pub proof fn law_passing_ignore_attempt_never_goes_negative(
    script: Vec<Step>,
    states: Seq<RunModel>,
)
    requires
        call_ensures(ignore_attempt_never_goes_negative, (), script),
        runner::passing(states, script@),
    ensures
        states.len() == 11,
        runner::passed(
            states,
            0,
            Do(PutWork(activity("poison-test-never-neg", 1, "TestActivity"))),
        ),
        runner::passed(states, 1, Take(fetch_work(lock()), 0)),
        runner::passed(states, 2, number_is(Num::Attempts, 1)),
        runner::passed(states, 3, Do(AbandonWork(Held(0), None, true))),
        runner::passed(states, 4, Take(fetch_work(lock()), 1)),
        runner::passed(states, 5, number_is(Num::Attempts, 1)),
        runner::passed(states, 6, Do(AbandonWork(Held(1), None, true))),
        runner::passed(states, 7, Take(fetch_work(lock()), 2)),
        runner::passed(states, 8, number_is(Num::Attempts, 1)),
        runner::passed(
            states,
            9,
            Do(AckWork(Held(2), Some(completed("poison-test-never-neg", 1, "done")))),
        ),
{
    runner::lemma_passed(states, script@);
}

/// What the store did in a run that passes [`max_attempt_count_across_message_batch`].
pub proof fn law_passing_max_attempt_count_across_message_batch(
    script: Vec<Step>,
    states: Seq<RunModel>,
)
    requires
        call_ensures(max_attempt_count_across_message_batch, (), script),
        runner::passing(states, script@),
    ensures
        states.len() == 14,
        runner::passed(states, 0, Do(Put(start_item("poison-batch-test")))),
        runner::passed(states, 1, Take(fetch_turn(lock()), 0)),
        runner::passed(states, 2, number_is(Num::Attempts, 1)),
        runner::passed(states, 3, number_is(Num::TurnMessages, 1)),
        runner::passed(states, 4, Do(AbandonTurn(Held(0), false))),
        runner::passed(states, 5, Take(fetch_turn(lock()), 1)),
        runner::passed(states, 6, number_is(Num::Attempts, 2)),
        runner::passed(states, 7, Do(Put(completed("poison-batch-test", 1, "activity result")))),
        runner::passed(states, 8, Do(AbandonTurn(Held(1), false))),
        runner::passed(states, 9, Take(fetch_turn(lock()), 2)),
        runner::passed(states, 10, number_is(Num::TurnMessages, 2)),
        runner::passed(states, 11, number_is(Num::Attempts, 3)),
        runner::passed(states, 12, Do(Ack(Held(2), 1))),
{
    runner::lemma_passed(states, script@);
}

} // verus!
