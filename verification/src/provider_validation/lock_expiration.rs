//! Whether locks expire, and are renewed and given up.
use crate::provider_validation::runner::{self, RunModel};
use crate::provider_validation::script::Call::{
    AbandonTurn, AbandonWork, Ack, AckWork, Put, PutWork, RenewTurn, RenewWork, Sleep,
};
use crate::provider_validation::script::Step::{AddWork, Do, Expect, Fork, Join, Take, Try};
use crate::provider_validation::script::Token::{Given, Held};
use crate::provider_validation::script::{
    completed, event, fetch_turn, fetch_work, lock, lock_and, lock_tenths, metadata, millis,
    number_is, rest_of_lock, start_item, started, text_is, turn, zero, Check, Item, Num, Step, Txt,
};
use vstd::prelude::*;

verus! {

/// The script of [`test_lock_expires_after_timeout`].
pub open spec fn lock_expires_after_timeout_steps() -> Seq<Step> {
    seq![
        Do(Put(start_item("instance-A"))),
        Take(fetch_turn(lock()), 0),
        Do(fetch_turn(lock())),
        Expect(Check::Nothing),
        Do(Sleep(lock_and(100))),
        Take(fetch_turn(lock()), 1),
        text_is(Txt::TurnInstance, "instance-A"),
        Expect(Check::TokensDiffer(1, 0)),
        Try(Ack(Held(0), 1)),
        Expect(Check::Failed),
    ]
}

/// A lock expires after its timeout, and its token is then of no use.
pub fn test_lock_expires_after_timeout() -> (r: Vec<Step>)
    ensures
        r@ == lock_expires_after_timeout_steps(),
{
    vec![
        Do(Put(start_item("instance-A"))),
        Take(fetch_turn(lock()), 0),
        Do(fetch_turn(lock())),
        Expect(Check::Nothing),
        Do(Sleep(lock_and(100))),
        Take(fetch_turn(lock()), 1),
        text_is(Txt::TurnInstance, "instance-A"),
        Expect(Check::TokensDiffer(1, 0)),
        Try(Ack(Held(0), 1)),
        Expect(Check::Failed),
    ]
}

/// The script of [`test_abandon_releases_lock_immediately`].
pub open spec fn abandon_releases_lock_immediately_steps() -> Seq<Step> {
    seq![
        Do(Put(start_item("instance-A"))),
        Take(fetch_turn(lock()), 0),
        Do(fetch_turn(lock())),
        Expect(Check::Nothing),
        Do(AbandonTurn(Held(0), false)),
        Take(fetch_turn(lock()), 1),
        text_is(Txt::TurnInstance, "instance-A"),
    ]
}

/// Abandoning a turn releases its lock at once.
pub fn test_abandon_releases_lock_immediately() -> (r: Vec<Step>)
    ensures
        r@ == abandon_releases_lock_immediately_steps(),
{
    vec![
        Do(Put(start_item("instance-A"))),
        Take(fetch_turn(lock()), 0),
        Do(fetch_turn(lock())),
        Expect(Check::Nothing),
        Do(AbandonTurn(Held(0), false)),
        Take(fetch_turn(lock()), 1),
        text_is(Txt::TurnInstance, "instance-A"),
    ]
}

/// The script of [`test_lock_renewal_on_ack`].
pub open spec fn lock_renewal_on_ack_steps() -> Seq<Step> {
    seq![
        Do(Put(start_item("instance-A"))),
        Take(fetch_turn(lock()), 0),
        Do(fetch_turn(lock())),
        Expect(Check::Nothing),
        Do(Put(start_item("instance-A"))),
        Do(fetch_turn(lock())),
        Expect(Check::Nothing),
        event(1, "instance-A", 1, started("TestOrch", "1.0.0")),
        Do(Ack(Held(0), 1)),
        Take(fetch_turn(lock()), 1),
        text_is(Txt::TurnInstance, "instance-A"),
    ]
}

/// Acknowledging a turn releases its lock at once.
pub fn test_lock_renewal_on_ack() -> (r: Vec<Step>)
    ensures
        r@ == lock_renewal_on_ack_steps(),
{
    vec![
        Do(Put(start_item("instance-A"))),
        Take(fetch_turn(lock()), 0),
        Do(fetch_turn(lock())),
        Expect(Check::Nothing),
        Do(Put(start_item("instance-A"))),
        Do(fetch_turn(lock())),
        Expect(Check::Nothing),
        event(1, "instance-A", 1, started("TestOrch", "1.0.0")),
        Do(Ack(Held(0), 1)),
        Take(fetch_turn(lock()), 1),
        text_is(Txt::TurnInstance, "instance-A"),
    ]
}

/// The script of [`test_concurrent_lock_attempts_respect_expiration`].
pub open spec fn concurrent_lock_attempts_respect_expiration_steps() -> Seq<Step> {
    seq![
        Do(Put(start_item("instance-A"))),
        Take(fetch_turn(lock()), 0),
        Fork(zero(), fetch_turn(lock()), zero(), false),
        Fork(millis(50), fetch_turn(lock()), zero(), false),
        Fork(millis(100), fetch_turn(lock()), zero(), false),
        Fork(millis(150), fetch_turn(lock()), zero(), false),
        Fork(millis(200), fetch_turn(lock()), zero(), false),
        Join(false),
        number_is(Num::GroupNothing, 5),
        Do(Sleep(rest_of_lock(200, 100))),
        Take(fetch_turn(lock()), 1),
        text_is(Txt::TurnInstance, "instance-A"),
    ]
}

/// Nobody gets a locked turn before the lock expires.
pub fn test_concurrent_lock_attempts_respect_expiration() -> (r: Vec<Step>)
    ensures
        r@ == concurrent_lock_attempts_respect_expiration_steps(),
{
    vec![
        Do(Put(start_item("instance-A"))),
        Take(fetch_turn(lock()), 0),
        Fork(zero(), fetch_turn(lock()), zero(), false),
        Fork(millis(50), fetch_turn(lock()), zero(), false),
        Fork(millis(100), fetch_turn(lock()), zero(), false),
        Fork(millis(150), fetch_turn(lock()), zero(), false),
        Fork(millis(200), fetch_turn(lock()), zero(), false),
        Join(false),
        number_is(Num::GroupNothing, 5),
        Do(Sleep(rest_of_lock(200, 100))),
        Take(fetch_turn(lock()), 1),
        text_is(Txt::TurnInstance, "instance-A"),
    ]
}

/// The script of [`test_worker_lock_renewal_success`].
pub open spec fn worker_lock_renewal_success_steps() -> Seq<Step> {
    seq![
        Do(PutWork(Item::Activity("test-instance", 1, 1, "TestActivity", "test"))),
        Take(fetch_work(lock()), 0),
        Do(fetch_work(lock())),
        Expect(Check::Nothing),
        Do(Sleep(millis(100))),
        Do(RenewWork(Held(0), lock())),
        Do(fetch_work(lock())),
        Expect(Check::Nothing),
    ]
}

/// The lock of a work item can be renewed while it holds.
pub fn test_worker_lock_renewal_success() -> (r: Vec<Step>)
    ensures
        r@ == worker_lock_renewal_success_steps(),
{
    vec![
        Do(PutWork(Item::Activity("test-instance", 1, 1, "TestActivity", "test"))),
        Take(fetch_work(lock()), 0),
        Do(fetch_work(lock())),
        Expect(Check::Nothing),
        Do(Sleep(millis(100))),
        Do(RenewWork(Held(0), lock())),
        Do(fetch_work(lock())),
        Expect(Check::Nothing),
    ]
}

/// The script of [`test_worker_lock_renewal_invalid_token`].
pub open spec fn worker_lock_renewal_invalid_token_steps() -> Seq<Step> {
    seq![
        Try(RenewWork(Given("invalid-token-123"), millis(30_000))),
        Expect(Check::Failed),
    ]
}

/// A made-up token renews nothing.
pub fn test_worker_lock_renewal_invalid_token() -> (r: Vec<Step>)
    ensures
        r@ == worker_lock_renewal_invalid_token_steps(),
{
    vec![
        Try(RenewWork(Given("invalid-token-123"), millis(30_000))),
        Expect(Check::Failed),
    ]
}

/// The script of [`test_worker_lock_renewal_after_expiration`].
pub open spec fn worker_lock_renewal_after_expiration_steps() -> Seq<Step> {
    seq![
        Do(PutWork(Item::Activity("test-instance", 1, 1, "TestActivity", "test"))),
        Take(fetch_work(millis(1_000)), 0),
        Do(Sleep(lock_and(100))),
        Try(RenewWork(Held(0), lock())),
        Expect(Check::Failed),
    ]
}

/// The lock of a work item cannot be renewed after it expired.
pub fn test_worker_lock_renewal_after_expiration() -> (r: Vec<Step>)
    ensures
        r@ == worker_lock_renewal_after_expiration_steps(),
{
    vec![
        Do(PutWork(Item::Activity("test-instance", 1, 1, "TestActivity", "test"))),
        Take(fetch_work(millis(1_000)), 0),
        Do(Sleep(lock_and(100))),
        Try(RenewWork(Held(0), lock())),
        Expect(Check::Failed),
    ]
}

/// The script of [`test_worker_lock_renewal_extends_timeout`].
pub open spec fn worker_lock_renewal_extends_timeout_steps() -> Seq<Step> {
    seq![
        Do(Put(start_item("test-lock-renewal-extends"))),
        Take(turn(), 0),
        event(1, "test-lock-renewal-extends", 1, started("TestOrch", "1.0.0")),
        AddWork(Item::Activity("test-lock-renewal-extends", 1, 1, "TestActivity", "test")),
        metadata(Some("Running"), None, Some("TestOrch"), None),
        Do(Ack(Held(0), 1)),
        Take(fetch_work(lock()), 1),
        Do(Sleep(lock_tenths(6))),
        Do(RenewWork(Held(1), lock())),
        Do(Sleep(lock_tenths(4))),
        Do(fetch_work(lock())),
        Expect(Check::Nothing),
    ]
}

/// A renewed lock holds for the full timeout from its renewal on.
pub fn test_worker_lock_renewal_extends_timeout() -> (r: Vec<Step>)
    ensures
        r@ == worker_lock_renewal_extends_timeout_steps(),
{
    vec![
        Do(Put(start_item("test-lock-renewal-extends"))),
        Take(turn(), 0),
        event(1, "test-lock-renewal-extends", 1, started("TestOrch", "1.0.0")),
        AddWork(Item::Activity("test-lock-renewal-extends", 1, 1, "TestActivity", "test")),
        metadata(Some("Running"), None, Some("TestOrch"), None),
        Do(Ack(Held(0), 1)),
        Take(fetch_work(lock()), 1),
        Do(Sleep(lock_tenths(6))),
        Do(RenewWork(Held(1), lock())),
        Do(Sleep(lock_tenths(4))),
        Do(fetch_work(lock())),
        Expect(Check::Nothing),
    ]
}

/// The script of [`test_worker_lock_renewal_after_ack`].
pub open spec fn worker_lock_renewal_after_ack_steps() -> Seq<Step> {
    seq![
        Do(PutWork(Item::Activity("test-instance", 1, 1, "TestActivity", "test"))),
        Take(fetch_work(lock()), 0),
        Do(AckWork(Held(0), Some(completed("test-instance", 1, "done")))),
        Try(RenewWork(Held(0), lock())),
        Expect(Check::Failed),
    ]
}

/// The lock of a work item that was acknowledged cannot be renewed.
pub fn test_worker_lock_renewal_after_ack() -> (r: Vec<Step>)
    ensures
        r@ == worker_lock_renewal_after_ack_steps(),
{
    vec![
        Do(PutWork(Item::Activity("test-instance", 1, 1, "TestActivity", "test"))),
        Take(fetch_work(lock()), 0),
        Do(AckWork(Held(0), Some(completed("test-instance", 1, "done")))),
        Try(RenewWork(Held(0), lock())),
        Expect(Check::Failed),
    ]
}

/// The script of [`test_abandon_work_item_releases_lock`].
pub open spec fn abandon_work_item_releases_lock_steps() -> Seq<Step> {
    seq![
        Do(PutWork(Item::Activity("test-abandon-work", 1, 1, "TestActivity", "test"))),
        Take(fetch_work(lock()), 0),
        Expect(Check::WorkIsActivity),
        Do(fetch_work(lock())),
        Expect(Check::Nothing),
        Do(AbandonWork(Held(0), None, false)),
        Take(fetch_work(lock()), 1),
        Expect(Check::WorkIsActivity),
        Expect(Check::TokensDiffer(0, 1)),
        Do(AckWork(Held(1), Some(completed("test-abandon-work", 1, "done")))),
    ]
}

/// Abandoning a work item releases its lock at once.
pub fn test_abandon_work_item_releases_lock() -> (r: Vec<Step>)
    ensures
        r@ == abandon_work_item_releases_lock_steps(),
{
    vec![
        Do(PutWork(Item::Activity("test-abandon-work", 1, 1, "TestActivity", "test"))),
        Take(fetch_work(lock()), 0),
        Expect(Check::WorkIsActivity),
        Do(fetch_work(lock())),
        Expect(Check::Nothing),
        Do(AbandonWork(Held(0), None, false)),
        Take(fetch_work(lock()), 1),
        Expect(Check::WorkIsActivity),
        Expect(Check::TokensDiffer(0, 1)),
        Do(AckWork(Held(1), Some(completed("test-abandon-work", 1, "done")))),
    ]
}

/// The script of [`test_abandon_work_item_with_delay`].
pub open spec fn abandon_work_item_with_delay_steps() -> Seq<Step> {
    seq![
        Do(PutWork(Item::Activity("test-abandon-delay", 1, 1, "TestActivity", "test"))),
        Take(fetch_work(lock()), 0),
        Do(AbandonWork(Held(0), Some(millis(500)), false)),
        Do(fetch_work(lock())),
        Expect(Check::Nothing),
        Do(Sleep(millis(600))),
        Take(fetch_work(lock()), 1),
        Expect(Check::WorkIsActivity),
        Do(AckWork(Held(1), Some(completed("test-abandon-delay", 1, "done")))),
    ]
}

/// A work item that is abandoned with a delay cannot be fetched before it is over.
pub fn test_abandon_work_item_with_delay() -> (r: Vec<Step>)
    ensures
        r@ == abandon_work_item_with_delay_steps(),
{
    vec![
        Do(PutWork(Item::Activity("test-abandon-delay", 1, 1, "TestActivity", "test"))),
        Take(fetch_work(lock()), 0),
        Do(AbandonWork(Held(0), Some(millis(500)), false)),
        Do(fetch_work(lock())),
        Expect(Check::Nothing),
        Do(Sleep(millis(600))),
        Take(fetch_work(lock()), 1),
        Expect(Check::WorkIsActivity),
        Do(AckWork(Held(1), Some(completed("test-abandon-delay", 1, "done")))),
    ]
}

/// The script of [`test_worker_ack_fails_after_lock_expiry`].
pub open spec fn worker_ack_fails_after_lock_expiry_steps() -> Seq<Step> {
    seq![
        Do(PutWork(Item::Activity("ack-expiry-test", 1, 1, "TestActivity", "test"))),
        Take(fetch_work(millis(1_000)), 0),
        Do(Sleep(millis(1_200))),
        Try(AckWork(Held(0), Some(completed("ack-expiry-test", 1, "done")))),
        Expect(Check::Failed),
        Do(fetch_work(millis(5_000))),
        Expect(Check::Something),
    ]
}

/// A work item cannot be acknowledged after its lock expired, and can then be
/// fetched again.
pub fn test_worker_ack_fails_after_lock_expiry() -> (r: Vec<Step>)
    ensures
        r@ == worker_ack_fails_after_lock_expiry_steps(),
{
    vec![
        Do(PutWork(Item::Activity("ack-expiry-test", 1, 1, "TestActivity", "test"))),
        Take(fetch_work(millis(1_000)), 0),
        Do(Sleep(millis(1_200))),
        Try(AckWork(Held(0), Some(completed("ack-expiry-test", 1, "done")))),
        Expect(Check::Failed),
        Do(fetch_work(millis(5_000))),
        Expect(Check::Something),
    ]
}

/// The script of [`test_orchestration_lock_renewal_after_expiration`].
pub open spec fn orchestration_lock_renewal_after_expiration_steps() -> Seq<Step> {
    seq![
        Do(Put(start_item("orch-renewal-expiry"))),
        Take(fetch_turn(lock()), 0),
        Do(Sleep(lock_and(100))),
        Try(RenewTurn(Held(0), lock())),
        Expect(Check::Failed),
    ]
}

/// The lock of a turn cannot be renewed after it expired.
pub fn test_orchestration_lock_renewal_after_expiration() -> (r: Vec<Step>)
    ensures
        r@ == orchestration_lock_renewal_after_expiration_steps(),
{
    vec![
        Do(Put(start_item("orch-renewal-expiry"))),
        Take(fetch_turn(lock()), 0),
        Do(Sleep(lock_and(100))),
        Try(RenewTurn(Held(0), lock())),
        Expect(Check::Failed),
    ]
}

/// What the store did in a run that passes [`test_lock_expires_after_timeout`].
pub proof fn law_passing_lock_expires_after_timeout(script: Vec<Step>, states: Seq<RunModel>)
    requires
        call_ensures(test_lock_expires_after_timeout, (), script),
        runner::passing(states, script@),
    ensures
        states.len() == 11,
        runner::passed(states, 0, Do(Put(start_item("instance-A")))),
        runner::passed(states, 1, Take(fetch_turn(lock()), 0)),
        runner::passed(states, 2, Do(fetch_turn(lock()))),
        runner::passed(states, 3, Expect(Check::Nothing)),
        runner::passed(states, 4, Do(Sleep(lock_and(100)))),
        runner::passed(states, 5, Take(fetch_turn(lock()), 1)),
        runner::passed(states, 6, text_is(Txt::TurnInstance, "instance-A")),
        runner::passed(states, 7, Expect(Check::TokensDiffer(1, 0))),
        runner::passed(states, 8, Try(Ack(Held(0), 1))),
        runner::passed(states, 9, Expect(Check::Failed)),
{
    runner::lemma_passed(states, script@);
}

/// What the store did in a run that passes [`test_abandon_releases_lock_immediately`].
pub proof fn law_passing_abandon_releases_lock_immediately(script: Vec<Step>, states: Seq<RunModel>)
    requires
        call_ensures(test_abandon_releases_lock_immediately, (), script),
        runner::passing(states, script@),
    ensures
        states.len() == 8,
        runner::passed(states, 0, Do(Put(start_item("instance-A")))),
        runner::passed(states, 1, Take(fetch_turn(lock()), 0)),
        runner::passed(states, 2, Do(fetch_turn(lock()))),
        runner::passed(states, 3, Expect(Check::Nothing)),
        runner::passed(states, 4, Do(AbandonTurn(Held(0), false))),
        runner::passed(states, 5, Take(fetch_turn(lock()), 1)),
        runner::passed(states, 6, text_is(Txt::TurnInstance, "instance-A")),
{
    runner::lemma_passed(states, script@);
}

/// What the store did in a run that passes [`test_lock_renewal_on_ack`].
pub proof fn law_passing_lock_renewal_on_ack(script: Vec<Step>, states: Seq<RunModel>)
    requires
        call_ensures(test_lock_renewal_on_ack, (), script),
        runner::passing(states, script@),
    ensures
        states.len() == 12,
        runner::passed(states, 0, Do(Put(start_item("instance-A")))),
        runner::passed(states, 1, Take(fetch_turn(lock()), 0)),
        runner::passed(states, 2, Do(fetch_turn(lock()))),
        runner::passed(states, 3, Expect(Check::Nothing)),
        runner::passed(states, 4, Do(Put(start_item("instance-A")))),
        runner::passed(states, 5, Do(fetch_turn(lock()))),
        runner::passed(states, 6, Expect(Check::Nothing)),
        runner::passed(states, 8, Do(Ack(Held(0), 1))),
        runner::passed(states, 9, Take(fetch_turn(lock()), 1)),
        runner::passed(states, 10, text_is(Txt::TurnInstance, "instance-A")),
{
    runner::lemma_passed(states, script@);
}

/// What the store did in a run that passes [`test_concurrent_lock_attempts_respect_expiration`].
pub proof fn law_passing_concurrent_lock_attempts_respect_expiration(
    script: Vec<Step>,
    states: Seq<RunModel>,
)
    requires
        call_ensures(test_concurrent_lock_attempts_respect_expiration, (), script),
        runner::passing(states, script@),
    ensures
        states.len() == 13,
        runner::passed(states, 0, Do(Put(start_item("instance-A")))),
        runner::passed(states, 1, Take(fetch_turn(lock()), 0)),
        runner::passed(states, 8, number_is(Num::GroupNothing, 5)),
        runner::passed(states, 9, Do(Sleep(rest_of_lock(200, 100)))),
        runner::passed(states, 10, Take(fetch_turn(lock()), 1)),
        runner::passed(states, 11, text_is(Txt::TurnInstance, "instance-A")),
{
    runner::lemma_passed(states, script@);
}

/// What the store did in a run that passes [`test_worker_lock_renewal_success`].
pub proof fn law_passing_worker_lock_renewal_success(script: Vec<Step>, states: Seq<RunModel>)
    requires
        call_ensures(test_worker_lock_renewal_success, (), script),
        runner::passing(states, script@),
    ensures
        states.len() == 9,
        runner::passed(
            states,
            0,
            Do(PutWork(Item::Activity("test-instance", 1, 1, "TestActivity", "test"))),
        ),
        runner::passed(states, 1, Take(fetch_work(lock()), 0)),
        runner::passed(states, 2, Do(fetch_work(lock()))),
        runner::passed(states, 3, Expect(Check::Nothing)),
        runner::passed(states, 4, Do(Sleep(millis(100)))),
        runner::passed(states, 5, Do(RenewWork(Held(0), lock()))),
        runner::passed(states, 6, Do(fetch_work(lock()))),
        runner::passed(states, 7, Expect(Check::Nothing)),
{
    runner::lemma_passed(states, script@);
}

/// What the store did in a run that passes [`test_worker_lock_renewal_invalid_token`].
pub proof fn law_passing_worker_lock_renewal_invalid_token(script: Vec<Step>, states: Seq<RunModel>)
    requires
        call_ensures(test_worker_lock_renewal_invalid_token, (), script),
        runner::passing(states, script@),
    ensures
        states.len() == 3,
        runner::passed(states, 0, Try(RenewWork(Given("invalid-token-123"), millis(30_000)))),
        runner::passed(states, 1, Expect(Check::Failed)),
{
    runner::lemma_passed(states, script@);
}

/// What the store did in a run that passes [`test_worker_lock_renewal_after_expiration`].
pub proof fn law_passing_worker_lock_renewal_after_expiration(
    script: Vec<Step>,
    states: Seq<RunModel>,
)
    requires
        call_ensures(test_worker_lock_renewal_after_expiration, (), script),
        runner::passing(states, script@),
    ensures
        states.len() == 6,
        runner::passed(
            states,
            0,
            Do(PutWork(Item::Activity("test-instance", 1, 1, "TestActivity", "test"))),
        ),
        runner::passed(states, 1, Take(fetch_work(millis(1_000)), 0)),
        runner::passed(states, 2, Do(Sleep(lock_and(100)))),
        runner::passed(states, 3, Try(RenewWork(Held(0), lock()))),
        runner::passed(states, 4, Expect(Check::Failed)),
{
    runner::lemma_passed(states, script@);
}

/// What the store did in a run that passes [`test_worker_lock_renewal_extends_timeout`].
pub proof fn law_passing_worker_lock_renewal_extends_timeout(
    script: Vec<Step>,
    states: Seq<RunModel>,
)
    requires
        call_ensures(test_worker_lock_renewal_extends_timeout, (), script),
        runner::passing(states, script@),
    ensures
        states.len() == 13,
        runner::passed(states, 0, Do(Put(start_item("test-lock-renewal-extends")))),
        runner::passed(states, 1, Take(turn(), 0)),
        runner::passed(states, 5, Do(Ack(Held(0), 1))),
        runner::passed(states, 6, Take(fetch_work(lock()), 1)),
        runner::passed(states, 7, Do(Sleep(lock_tenths(6)))),
        runner::passed(states, 8, Do(RenewWork(Held(1), lock()))),
        runner::passed(states, 9, Do(Sleep(lock_tenths(4)))),
        runner::passed(states, 10, Do(fetch_work(lock()))),
        runner::passed(states, 11, Expect(Check::Nothing)),
{
    runner::lemma_passed(states, script@);
}

/// What the store did in a run that passes [`test_worker_lock_renewal_after_ack`].
pub proof fn law_passing_worker_lock_renewal_after_ack(script: Vec<Step>, states: Seq<RunModel>)
    requires
        call_ensures(test_worker_lock_renewal_after_ack, (), script),
        runner::passing(states, script@),
    ensures
        states.len() == 6,
        runner::passed(
            states,
            0,
            Do(PutWork(Item::Activity("test-instance", 1, 1, "TestActivity", "test"))),
        ),
        runner::passed(states, 1, Take(fetch_work(lock()), 0)),
        runner::passed(
            states,
            2,
            Do(AckWork(Held(0), Some(completed("test-instance", 1, "done")))),
        ),
        runner::passed(states, 3, Try(RenewWork(Held(0), lock()))),
        runner::passed(states, 4, Expect(Check::Failed)),
{
    runner::lemma_passed(states, script@);
}

/// What the store did in a run that passes [`test_abandon_work_item_releases_lock`].
pub proof fn law_passing_abandon_work_item_releases_lock(script: Vec<Step>, states: Seq<RunModel>)
    requires
        call_ensures(test_abandon_work_item_releases_lock, (), script),
        runner::passing(states, script@),
    ensures
        states.len() == 11,
        runner::passed(
            states,
            0,
            Do(PutWork(Item::Activity("test-abandon-work", 1, 1, "TestActivity", "test"))),
        ),
        runner::passed(states, 1, Take(fetch_work(lock()), 0)),
        runner::passed(states, 2, Expect(Check::WorkIsActivity)),
        runner::passed(states, 3, Do(fetch_work(lock()))),
        runner::passed(states, 4, Expect(Check::Nothing)),
        runner::passed(states, 5, Do(AbandonWork(Held(0), None, false))),
        runner::passed(states, 6, Take(fetch_work(lock()), 1)),
        runner::passed(states, 7, Expect(Check::WorkIsActivity)),
        runner::passed(states, 8, Expect(Check::TokensDiffer(0, 1))),
        runner::passed(
            states,
            9,
            Do(AckWork(Held(1), Some(completed("test-abandon-work", 1, "done")))),
        ),
{
    runner::lemma_passed(states, script@);
}

/// What the store did in a run that passes [`test_abandon_work_item_with_delay`].
pub proof fn law_passing_abandon_work_item_with_delay(script: Vec<Step>, states: Seq<RunModel>)
    requires
        call_ensures(test_abandon_work_item_with_delay, (), script),
        runner::passing(states, script@),
    ensures
        states.len() == 10,
        runner::passed(
            states,
            0,
            Do(PutWork(Item::Activity("test-abandon-delay", 1, 1, "TestActivity", "test"))),
        ),
        runner::passed(states, 1, Take(fetch_work(lock()), 0)),
        runner::passed(states, 2, Do(AbandonWork(Held(0), Some(millis(500)), false))),
        runner::passed(states, 3, Do(fetch_work(lock()))),
        runner::passed(states, 4, Expect(Check::Nothing)),
        runner::passed(states, 5, Do(Sleep(millis(600)))),
        runner::passed(states, 6, Take(fetch_work(lock()), 1)),
        runner::passed(states, 7, Expect(Check::WorkIsActivity)),
        runner::passed(
            states,
            8,
            Do(AckWork(Held(1), Some(completed("test-abandon-delay", 1, "done")))),
        ),
{
    runner::lemma_passed(states, script@);
}

/// What the store did in a run that passes [`test_worker_ack_fails_after_lock_expiry`].
pub proof fn law_passing_worker_ack_fails_after_lock_expiry(
    script: Vec<Step>,
    states: Seq<RunModel>,
)
    requires
        call_ensures(test_worker_ack_fails_after_lock_expiry, (), script),
        runner::passing(states, script@),
    ensures
        states.len() == 8,
        runner::passed(
            states,
            0,
            Do(PutWork(Item::Activity("ack-expiry-test", 1, 1, "TestActivity", "test"))),
        ),
        runner::passed(states, 1, Take(fetch_work(millis(1_000)), 0)),
        runner::passed(states, 2, Do(Sleep(millis(1_200)))),
        runner::passed(
            states,
            3,
            Try(AckWork(Held(0), Some(completed("ack-expiry-test", 1, "done")))),
        ),
        runner::passed(states, 4, Expect(Check::Failed)),
        runner::passed(states, 5, Do(fetch_work(millis(5_000)))),
        runner::passed(states, 6, Expect(Check::Something)),
{
    runner::lemma_passed(states, script@);
}

/// What the store did in a run that passes [`test_orchestration_lock_renewal_after_expiration`].
pub proof fn law_passing_orchestration_lock_renewal_after_expiration(
    script: Vec<Step>,
    states: Seq<RunModel>,
)
    requires
        call_ensures(test_orchestration_lock_renewal_after_expiration, (), script),
        runner::passing(states, script@),
    ensures
        states.len() == 6,
        runner::passed(states, 0, Do(Put(start_item("orch-renewal-expiry")))),
        runner::passed(states, 1, Take(fetch_turn(lock()), 0)),
        runner::passed(states, 2, Do(Sleep(lock_and(100)))),
        runner::passed(states, 3, Try(RenewTurn(Held(0), lock()))),
        runner::passed(states, 4, Expect(Check::Failed)),
{
    runner::lemma_passed(states, script@);
}

} // verus!
