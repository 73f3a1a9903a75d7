//! Whether a lock keeps an instance to one dispatcher.
use crate::provider_validation::runner::{self, RunModel};
use crate::provider_validation::script::Call::{AbandonTurn, Ack, Put, Sleep};
use crate::provider_validation::script::Step::{Do, Expect, Fork, Join, Keep, Pick, Take, Try};
use crate::provider_validation::script::Token::{Given, Held};
use crate::provider_validation::script::{
    chain, completed, fetch_turn, lock, lock_and, metadata, millis, number_is, start_item, text_is,
    turn, zero, Check, MessageSort, Num, Operand, Rel, Step, Txt,
};
use crate::provider_validation::steps;
use vstd::prelude::*;

verus! {

/// The script of [`test_exclusive_instance_lock`].
pub open spec fn exclusive_instance_lock_steps() -> Seq<Step> {
    seq![
        Do(Put(start_item("instance-A"))),
        Take(fetch_turn(lock()), 0),
        Do(fetch_turn(lock())),
        Expect(Check::Nothing),
        Do(Sleep(lock_and(100))),
        Take(fetch_turn(lock()), 1),
        Expect(Check::TokensDiffer(1, 0)),
    ]
}

/// An instance whose turn is locked cannot be fetched until the lock expires.
pub fn test_exclusive_instance_lock() -> (r: Vec<Step>)
    ensures
        r@ == exclusive_instance_lock_steps(),
{
    vec![
        Do(Put(start_item("instance-A"))),
        Take(fetch_turn(lock()), 0),
        Do(fetch_turn(lock())),
        Expect(Check::Nothing),
        Do(Sleep(lock_and(100))),
        Take(fetch_turn(lock()), 1),
        Expect(Check::TokensDiffer(1, 0)),
    ]
}

/// The script of [`test_lock_token_uniqueness`].
pub open spec fn lock_token_uniqueness_steps() -> Seq<Step> {
    seq![
        Do(Put(start_item("inst-0"))),
        Do(Put(start_item("inst-1"))),
        Do(Put(start_item("inst-2"))),
        Do(Put(start_item("inst-3"))),
        Do(Put(start_item("inst-4"))),
        Take(turn(), 0),
        Take(turn(), 1),
        Take(turn(), 2),
        Take(turn(), 3),
        Take(turn(), 4),
        Expect(Check::TokensDistinct(5)),
    ]
}

/// Every fetch hands out a token of its own.
pub fn test_lock_token_uniqueness() -> (r: Vec<Step>)
    ensures
        r@ == lock_token_uniqueness_steps(),
{
    vec![
        Do(Put(start_item("inst-0"))),
        Do(Put(start_item("inst-1"))),
        Do(Put(start_item("inst-2"))),
        Do(Put(start_item("inst-3"))),
        Do(Put(start_item("inst-4"))),
        Take(turn(), 0),
        Take(turn(), 1),
        Take(turn(), 2),
        Take(turn(), 3),
        Take(turn(), 4),
        Expect(Check::TokensDistinct(5)),
    ]
}

/// The script of [`test_invalid_lock_token_rejection`].
pub open spec fn invalid_lock_token_rejection_steps() -> Seq<Step> {
    seq![
        Do(Put(start_item("instance-A"))),
        Take(turn(), 0),
        Try(Ack(Given("invalid-token"), 1)),
        Expect(Check::Failed),
        Try(AbandonTurn(Given("invalid-token"), false)),
        Expect(Check::Failed),
        Do(turn()),
        Expect(Check::Nothing),
    ]
}

/// A made-up token neither acknowledges nor abandons a turn.
pub fn test_invalid_lock_token_rejection() -> (r: Vec<Step>)
    ensures
        r@ == invalid_lock_token_rejection_steps(),
{
    vec![
        Do(Put(start_item("instance-A"))),
        Take(turn(), 0),
        Try(Ack(Given("invalid-token"), 1)),
        Expect(Check::Failed),
        Try(AbandonTurn(Given("invalid-token"), false)),
        Expect(Check::Failed),
        Do(turn()),
        Expect(Check::Nothing),
    ]
}

/// The script of [`test_concurrent_instance_fetching`].
pub open spec fn concurrent_instance_fetching_steps() -> Seq<Step> {
    seq![
        Do(Put(start_item("inst-0"))),
        Do(Put(start_item("inst-1"))),
        Do(Put(start_item("inst-2"))),
        Do(Put(start_item("inst-3"))),
        Do(Put(start_item("inst-4"))),
        Do(Put(start_item("inst-5"))),
        Do(Put(start_item("inst-6"))),
        Do(Put(start_item("inst-7"))),
        Do(Put(start_item("inst-8"))),
        Do(Put(start_item("inst-9"))),
        Fork(zero(), turn(), zero(), false),
        Fork(millis(30), turn(), zero(), false),
        Fork(millis(60), turn(), zero(), false),
        Fork(millis(90), turn(), zero(), false),
        Fork(millis(120), turn(), zero(), false),
        Fork(millis(150), turn(), zero(), false),
        Fork(millis(180), turn(), zero(), false),
        Fork(millis(210), turn(), zero(), false),
        Fork(millis(240), turn(), zero(), false),
        Fork(millis(270), turn(), zero(), false),
        Join(false),
        number_is(Num::GroupFailed, 0),
        number_is(Num::GroupInstances, 10),
    ]
}

/// Turns that are fetched together are of different instances.
pub fn test_concurrent_instance_fetching() -> (r: Vec<Step>)
    ensures
        r@ == concurrent_instance_fetching_steps(),
{
    vec![
        Do(Put(start_item("inst-0"))),
        Do(Put(start_item("inst-1"))),
        Do(Put(start_item("inst-2"))),
        Do(Put(start_item("inst-3"))),
        Do(Put(start_item("inst-4"))),
        Do(Put(start_item("inst-5"))),
        Do(Put(start_item("inst-6"))),
        Do(Put(start_item("inst-7"))),
        Do(Put(start_item("inst-8"))),
        Do(Put(start_item("inst-9"))),
        Fork(zero(), turn(), zero(), false),
        Fork(millis(30), turn(), zero(), false),
        Fork(millis(60), turn(), zero(), false),
        Fork(millis(90), turn(), zero(), false),
        Fork(millis(120), turn(), zero(), false),
        Fork(millis(150), turn(), zero(), false),
        Fork(millis(180), turn(), zero(), false),
        Fork(millis(210), turn(), zero(), false),
        Fork(millis(240), turn(), zero(), false),
        Fork(millis(270), turn(), zero(), false),
        Join(false),
        number_is(Num::GroupFailed, 0),
        number_is(Num::GroupInstances, 10),
    ]
}

/// The script of [`test_completions_arriving_during_lock_blocked`].
pub open spec fn completions_arriving_during_lock_blocked_steps() -> Seq<Step> {
    seq![
        Do(Put(start_item("instance-A"))),
        Take(fetch_turn(lock()), 0),
        text_is(Txt::TurnInstance, "instance-A"),
        Do(Put(completed("instance-A", 1, "result-1"))),
        Do(Put(completed("instance-A", 2, "result-2"))),
        Do(Put(completed("instance-A", 3, "result-3"))),
        Do(fetch_turn(lock())),
        Expect(Check::Nothing),
        Do(Sleep(lock_and(100))),
        Take(fetch_turn(lock()), 1),
        text_is(Txt::TurnInstance, "instance-A"),
        number_is(Num::TurnMessages, 4),
        Expect(Check::Completions(1, 3)),
    ]
}

/// Messages that arrive while an instance is locked wait until the lock expires.
pub fn test_completions_arriving_during_lock_blocked() -> (r: Vec<Step>)
    ensures
        r@ == completions_arriving_during_lock_blocked_steps(),
{
    vec![
        Do(Put(start_item("instance-A"))),
        Take(fetch_turn(lock()), 0),
        text_is(Txt::TurnInstance, "instance-A"),
        Do(Put(completed("instance-A", 1, "result-1"))),
        Do(Put(completed("instance-A", 2, "result-2"))),
        Do(Put(completed("instance-A", 3, "result-3"))),
        Do(fetch_turn(lock())),
        Expect(Check::Nothing),
        Do(Sleep(lock_and(100))),
        Take(fetch_turn(lock()), 1),
        text_is(Txt::TurnInstance, "instance-A"),
        number_is(Num::TurnMessages, 4),
        Expect(Check::Completions(1, 3)),
    ]
}

/// The script of [`test_cross_instance_lock_isolation`].
pub open spec fn cross_instance_lock_isolation_steps() -> Seq<Step> {
    steps::instance_created("instance-A")
        + steps::instance_created("instance-B") + seq![
        Do(Put(start_item("instance-A"))),
        Do(Put(start_item("instance-B"))),
        Take(turn(), 0),
        text_is(Txt::TurnInstance, "instance-A"),
        Take(turn(), 1),
        text_is(Txt::TurnInstance, "instance-B"),
        metadata(None, None, Some("TestOrch"), Some("1.0.0")),
        Do(Ack(Held(1), 1)),
        Do(Put(completed("instance-B", 1, "done"))),
        Take(turn(), 2),
        text_is(Txt::TurnInstance, "instance-B"),
    ]
}

/// The lock of an instance does not block another.
pub fn test_cross_instance_lock_isolation() -> (r: Vec<Step>)
    ensures
        r@ == cross_instance_lock_isolation_steps(),
{
    let mut steps = steps::create_instance("instance-A");
    steps = chain(steps, steps::create_instance("instance-B"));
    steps = chain(steps, vec![
        Do(Put(start_item("instance-A"))),
        Do(Put(start_item("instance-B"))),
        Take(turn(), 0),
        text_is(Txt::TurnInstance, "instance-A"),
        Take(turn(), 1),
        text_is(Txt::TurnInstance, "instance-B"),
        metadata(None, None, Some("TestOrch"), Some("1.0.0")),
        Do(Ack(Held(1), 1)),
        Do(Put(completed("instance-B", 1, "done"))),
        Take(turn(), 2),
        text_is(Txt::TurnInstance, "instance-B"),
    ]);
    steps
}

/// The script of [`test_message_tagging_during_lock`].
pub open spec fn message_tagging_during_lock_steps() -> Seq<Step> {
    steps::instance_created("instance-A") + seq![
        Do(Put(completed("instance-A", 1, "msg1"))),
        Do(Put(completed("instance-A", 2, "msg2"))),
        Take(turn(), 0),
        text_is(Txt::TurnInstance, "instance-A"),
        number_is(Num::TurnMessages, 2),
        Do(Put(completed("instance-A", 3, "msg3"))),
        Do(Ack(Held(0), 1)),
        Take(turn(), 1),
        text_is(Txt::TurnInstance, "instance-A"),
        number_is(Num::TurnMessages, 1),
        Expect(Check::MessageIs(0, MessageSort::Completed(3))),
    ]
}

/// An acknowledgement removes the messages that were fetched, and no later ones.
pub fn test_message_tagging_during_lock() -> (r: Vec<Step>)
    ensures
        r@ == message_tagging_during_lock_steps(),
{
    let mut steps = steps::create_instance("instance-A");
    steps = chain(steps, vec![
        Do(Put(completed("instance-A", 1, "msg1"))),
        Do(Put(completed("instance-A", 2, "msg2"))),
        Take(turn(), 0),
        text_is(Txt::TurnInstance, "instance-A"),
        number_is(Num::TurnMessages, 2),
        Do(Put(completed("instance-A", 3, "msg3"))),
        Do(Ack(Held(0), 1)),
        Take(turn(), 1),
        text_is(Txt::TurnInstance, "instance-A"),
        number_is(Num::TurnMessages, 1),
        Expect(Check::MessageIs(0, MessageSort::Completed(3))),
    ]);
    steps
}

/// The script of [`test_ack_only_affects_locked_messages`].
pub open spec fn ack_only_affects_locked_messages_steps() -> Seq<Step> {
    steps::instance_created("instance-A") + seq![
        Do(Put(completed("instance-A", 1, "msg1"))),
        Take(turn(), 0),
        number_is(Num::TurnMessages, 1),
        Do(Put(completed("instance-A", 2, "msg2"))),
        Do(Put(completed("instance-A", 3, "msg3"))),
        Do(turn()),
        Expect(Check::Nothing),
        Do(Ack(Held(0), 1)),
        Take(turn(), 1),
        text_is(Txt::TurnInstance, "instance-A"),
        number_is(Num::TurnMessages, 2),
        Expect(Check::Completions(2, 3)),
    ]
}

/// An acknowledgement leaves the messages that arrived under its lock.
pub fn test_ack_only_affects_locked_messages() -> (r: Vec<Step>)
    ensures
        r@ == ack_only_affects_locked_messages_steps(),
{
    let mut steps = steps::create_instance("instance-A");
    steps = chain(steps, vec![
        Do(Put(completed("instance-A", 1, "msg1"))),
        Take(turn(), 0),
        number_is(Num::TurnMessages, 1),
        Do(Put(completed("instance-A", 2, "msg2"))),
        Do(Put(completed("instance-A", 3, "msg3"))),
        Do(turn()),
        Expect(Check::Nothing),
        Do(Ack(Held(0), 1)),
        Take(turn(), 1),
        text_is(Txt::TurnInstance, "instance-A"),
        number_is(Num::TurnMessages, 2),
        Expect(Check::Completions(2, 3)),
    ]);
    steps
}

/// The script of [`test_multi_threaded_lock_contention`].
pub open spec fn multi_threaded_lock_contention_steps() -> Seq<Step> {
    seq![
        Do(Put(start_item("contention-instance"))),
        Fork(zero(), turn(), zero(), false),
        Fork(millis(5), turn(), zero(), false),
        Fork(millis(10), turn(), zero(), false),
        Fork(millis(15), turn(), zero(), false),
        Fork(millis(20), turn(), zero(), false),
        Fork(millis(25), turn(), zero(), false),
        Fork(millis(30), turn(), zero(), false),
        Fork(millis(35), turn(), zero(), false),
        Fork(millis(40), turn(), zero(), false),
        Fork(millis(45), turn(), zero(), false),
        Join(false),
        number_is(Num::GroupFailed, 0),
        number_is(Num::GroupTurns, 1),
        Expect(Check::GroupTurnsAre("contention-instance")),
        Do(turn()),
        Expect(Check::Nothing),
    ]
}

/// Of many fetches of one instance exactly one gets it.
pub fn test_multi_threaded_lock_contention() -> (r: Vec<Step>)
    ensures
        r@ == multi_threaded_lock_contention_steps(),
{
    vec![
        Do(Put(start_item("contention-instance"))),
        Fork(zero(), turn(), zero(), false),
        Fork(millis(5), turn(), zero(), false),
        Fork(millis(10), turn(), zero(), false),
        Fork(millis(15), turn(), zero(), false),
        Fork(millis(20), turn(), zero(), false),
        Fork(millis(25), turn(), zero(), false),
        Fork(millis(30), turn(), zero(), false),
        Fork(millis(35), turn(), zero(), false),
        Fork(millis(40), turn(), zero(), false),
        Fork(millis(45), turn(), zero(), false),
        Join(false),
        number_is(Num::GroupFailed, 0),
        number_is(Num::GroupTurns, 1),
        Expect(Check::GroupTurnsAre("contention-instance")),
        Do(turn()),
        Expect(Check::Nothing),
    ]
}

/// The script of [`test_multi_threaded_no_duplicate_processing`].
pub open spec fn multi_threaded_no_duplicate_processing_steps() -> Seq<Step> {
    seq![
        Do(Put(start_item("dup-test-0"))),
        Do(Put(start_item("dup-test-1"))),
        Do(Put(start_item("dup-test-2"))),
        Do(Put(start_item("dup-test-3"))),
        Do(Put(start_item("dup-test-4"))),
        Do(Put(start_item("dup-test-5"))),
        Do(Put(start_item("dup-test-6"))),
        Do(Put(start_item("dup-test-7"))),
        Do(Put(start_item("dup-test-8"))),
        Do(Put(start_item("dup-test-9"))),
        Do(Put(start_item("dup-test-10"))),
        Do(Put(start_item("dup-test-11"))),
        Do(Put(start_item("dup-test-12"))),
        Do(Put(start_item("dup-test-13"))),
        Do(Put(start_item("dup-test-14"))),
        Do(Put(start_item("dup-test-15"))),
        Do(Put(start_item("dup-test-16"))),
        Do(Put(start_item("dup-test-17"))),
        Do(Put(start_item("dup-test-18"))),
        Do(Put(start_item("dup-test-19"))),
        Fork(zero(), turn(), zero(), true),
        Fork(millis(3), turn(), zero(), true),
        Fork(millis(6), turn(), zero(), true),
        Fork(millis(9), turn(), zero(), true),
        Fork(millis(12), turn(), zero(), true),
        Fork(millis(15), turn(), zero(), true),
        Fork(millis(18), turn(), zero(), true),
        Fork(millis(21), turn(), zero(), true),
        Fork(millis(24), turn(), zero(), true),
        Fork(millis(27), turn(), zero(), true),
        Fork(millis(30), turn(), zero(), true),
        Fork(millis(33), turn(), zero(), true),
        Fork(millis(36), turn(), zero(), true),
        Fork(millis(39), turn(), zero(), true),
        Fork(millis(42), turn(), zero(), true),
        Fork(millis(45), turn(), zero(), true),
        Fork(millis(48), turn(), zero(), true),
        Fork(millis(1), turn(), zero(), true),
        Fork(millis(4), turn(), zero(), true),
        Fork(millis(7), turn(), zero(), true),
        Fork(millis(10), turn(), zero(), true),
        Fork(millis(13), turn(), zero(), true),
        Fork(millis(16), turn(), zero(), true),
        Fork(millis(19), turn(), zero(), true),
        Fork(millis(22), turn(), zero(), true),
        Fork(millis(25), turn(), zero(), true),
        Fork(millis(28), turn(), zero(), true),
        Fork(millis(31), turn(), zero(), true),
        Fork(millis(34), turn(), zero(), true),
        Fork(millis(37), turn(), zero(), true),
        Fork(millis(40), turn(), zero(), true),
        Fork(millis(43), turn(), zero(), true),
        Fork(millis(46), turn(), zero(), true),
        Fork(millis(49), turn(), zero(), true),
        Fork(millis(2), turn(), zero(), true),
        Fork(millis(5), turn(), zero(), true),
        Fork(millis(8), turn(), zero(), true),
        Fork(millis(11), turn(), zero(), true),
        Fork(millis(14), turn(), zero(), true),
        Fork(millis(17), turn(), zero(), true),
        Join(false),
        Expect(Check::Number(Num::GroupInstances, Rel::Is, Operand::Shown(Num::GroupTurns))),
        Expect(Check::Number(Num::GroupTurns, Rel::AtMost, Operand::Literal(20))),
    ]
}

/// However many fetch at once, no instance is got twice.
pub fn test_multi_threaded_no_duplicate_processing() -> (r: Vec<Step>)
    ensures
        r@ == multi_threaded_no_duplicate_processing_steps(),
{
    vec![
        Do(Put(start_item("dup-test-0"))),
        Do(Put(start_item("dup-test-1"))),
        Do(Put(start_item("dup-test-2"))),
        Do(Put(start_item("dup-test-3"))),
        Do(Put(start_item("dup-test-4"))),
        Do(Put(start_item("dup-test-5"))),
        Do(Put(start_item("dup-test-6"))),
        Do(Put(start_item("dup-test-7"))),
        Do(Put(start_item("dup-test-8"))),
        Do(Put(start_item("dup-test-9"))),
        Do(Put(start_item("dup-test-10"))),
        Do(Put(start_item("dup-test-11"))),
        Do(Put(start_item("dup-test-12"))),
        Do(Put(start_item("dup-test-13"))),
        Do(Put(start_item("dup-test-14"))),
        Do(Put(start_item("dup-test-15"))),
        Do(Put(start_item("dup-test-16"))),
        Do(Put(start_item("dup-test-17"))),
        Do(Put(start_item("dup-test-18"))),
        Do(Put(start_item("dup-test-19"))),
        Fork(zero(), turn(), zero(), true),
        Fork(millis(3), turn(), zero(), true),
        Fork(millis(6), turn(), zero(), true),
        Fork(millis(9), turn(), zero(), true),
        Fork(millis(12), turn(), zero(), true),
        Fork(millis(15), turn(), zero(), true),
        Fork(millis(18), turn(), zero(), true),
        Fork(millis(21), turn(), zero(), true),
        Fork(millis(24), turn(), zero(), true),
        Fork(millis(27), turn(), zero(), true),
        Fork(millis(30), turn(), zero(), true),
        Fork(millis(33), turn(), zero(), true),
        Fork(millis(36), turn(), zero(), true),
        Fork(millis(39), turn(), zero(), true),
        Fork(millis(42), turn(), zero(), true),
        Fork(millis(45), turn(), zero(), true),
        Fork(millis(48), turn(), zero(), true),
        Fork(millis(1), turn(), zero(), true),
        Fork(millis(4), turn(), zero(), true),
        Fork(millis(7), turn(), zero(), true),
        Fork(millis(10), turn(), zero(), true),
        Fork(millis(13), turn(), zero(), true),
        Fork(millis(16), turn(), zero(), true),
        Fork(millis(19), turn(), zero(), true),
        Fork(millis(22), turn(), zero(), true),
        Fork(millis(25), turn(), zero(), true),
        Fork(millis(28), turn(), zero(), true),
        Fork(millis(31), turn(), zero(), true),
        Fork(millis(34), turn(), zero(), true),
        Fork(millis(37), turn(), zero(), true),
        Fork(millis(40), turn(), zero(), true),
        Fork(millis(43), turn(), zero(), true),
        Fork(millis(46), turn(), zero(), true),
        Fork(millis(49), turn(), zero(), true),
        Fork(millis(2), turn(), zero(), true),
        Fork(millis(5), turn(), zero(), true),
        Fork(millis(8), turn(), zero(), true),
        Fork(millis(11), turn(), zero(), true),
        Fork(millis(14), turn(), zero(), true),
        Fork(millis(17), turn(), zero(), true),
        Join(false),
        Expect(Check::Number(Num::GroupInstances, Rel::Is, Operand::Shown(Num::GroupTurns))),
        Expect(Check::Number(Num::GroupTurns, Rel::AtMost, Operand::Literal(20))),
    ]
}

/// The script of [`test_multi_threaded_lock_expiration_recovery`].
pub open spec fn multi_threaded_lock_expiration_recovery_steps() -> Seq<Step> {
    seq![
        Do(Put(start_item("expiration-instance"))),
        Fork(zero(), fetch_turn(lock()), lock_and(200), false),
        Fork(millis(200), fetch_turn(lock()), zero(), false),
        Fork(lock_and(100), fetch_turn(lock()), zero(), false),
        Join(true),
        Pick(0),
        text_is(Txt::TurnInstance, "expiration-instance"),
        Pick(1),
        Expect(Check::Nothing),
        Pick(2),
        text_is(Txt::TurnInstance, "expiration-instance"),
        Keep(0),
        Expect(Check::TokenIsNot(0, "expired-token")),
    ]
}

/// A lock that is held keeps others out, and one that expired does not.
pub fn test_multi_threaded_lock_expiration_recovery() -> (r: Vec<Step>)
    ensures
        r@ == multi_threaded_lock_expiration_recovery_steps(),
{
    vec![
        Do(Put(start_item("expiration-instance"))),
        Fork(zero(), fetch_turn(lock()), lock_and(200), false),
        Fork(millis(200), fetch_turn(lock()), zero(), false),
        Fork(lock_and(100), fetch_turn(lock()), zero(), false),
        Join(true),
        Pick(0),
        text_is(Txt::TurnInstance, "expiration-instance"),
        Pick(1),
        Expect(Check::Nothing),
        Pick(2),
        text_is(Txt::TurnInstance, "expiration-instance"),
        Keep(0),
        Expect(Check::TokenIsNot(0, "expired-token")),
    ]
}

/// A store passes only if nothing is fetched while the lock holds, and another
/// token is handed out once it expired.
pub proof fn law_a_locked_instance_is_not_fetched(states: Seq<RunModel>)
    requires
        runner::passing(states, exclusive_instance_lock_steps()),
    ensures
        runner::current(states[3]) is Nothing,
        states[6].tokens[1]@ != states[6].tokens[0]@,
{
    let script = exclusive_instance_lock_steps();
    assert(script[3] == Expect(Check::Nothing));
    runner::law_a_straight_pass_meets_every_step(states, script, 3);
    assert(script[6] == Expect(Check::TokensDiffer(1, 0)));
    runner::law_a_straight_pass_meets_every_step(states, script, 6);
}

/// What the store did in a run that passes [`test_exclusive_instance_lock`].
pub proof fn law_passing_exclusive_instance_lock(script: Vec<Step>, states: Seq<RunModel>)
    requires
        call_ensures(test_exclusive_instance_lock, (), script),
        runner::passing(states, script@),
    ensures
        states.len() == 8,
        runner::passed(states, 0, Do(Put(start_item("instance-A")))),
        runner::passed(states, 1, Take(fetch_turn(lock()), 0)),
        runner::passed(states, 2, Do(fetch_turn(lock()))),
        runner::passed(states, 3, Expect(Check::Nothing)),
        runner::passed(states, 4, Do(Sleep(lock_and(100)))),
        runner::passed(states, 5, Take(fetch_turn(lock()), 1)),
        runner::passed(states, 6, Expect(Check::TokensDiffer(1, 0))),
{
    runner::lemma_passed(states, script@);
}

/// What the store did in a run that passes [`test_lock_token_uniqueness`].
pub proof fn law_passing_lock_token_uniqueness(script: Vec<Step>, states: Seq<RunModel>)
    requires
        call_ensures(test_lock_token_uniqueness, (), script),
        runner::passing(states, script@),
    ensures
        states.len() == 12,
        runner::passed(states, 0, Do(Put(start_item("inst-0")))),
        runner::passed(states, 1, Do(Put(start_item("inst-1")))),
        runner::passed(states, 2, Do(Put(start_item("inst-2")))),
        runner::passed(states, 3, Do(Put(start_item("inst-3")))),
        runner::passed(states, 4, Do(Put(start_item("inst-4")))),
        runner::passed(states, 5, Take(turn(), 0)),
        runner::passed(states, 6, Take(turn(), 1)),
        runner::passed(states, 7, Take(turn(), 2)),
        runner::passed(states, 8, Take(turn(), 3)),
        runner::passed(states, 9, Take(turn(), 4)),
        runner::passed(states, 10, Expect(Check::TokensDistinct(5))),
{
    runner::lemma_passed(states, script@);
}

/// What the store did in a run that passes [`test_invalid_lock_token_rejection`].
pub proof fn law_passing_invalid_lock_token_rejection(script: Vec<Step>, states: Seq<RunModel>)
    requires
        call_ensures(test_invalid_lock_token_rejection, (), script),
        runner::passing(states, script@),
    ensures
        states.len() == 9,
        runner::passed(states, 0, Do(Put(start_item("instance-A")))),
        runner::passed(states, 1, Take(turn(), 0)),
        runner::passed(states, 2, Try(Ack(Given("invalid-token"), 1))),
        runner::passed(states, 3, Expect(Check::Failed)),
        runner::passed(states, 4, Try(AbandonTurn(Given("invalid-token"), false))),
        runner::passed(states, 5, Expect(Check::Failed)),
        runner::passed(states, 6, Do(turn())),
        runner::passed(states, 7, Expect(Check::Nothing)),
{
    runner::lemma_passed(states, script@);
}

/// What the store did in a run that passes [`test_concurrent_instance_fetching`].
pub proof fn law_passing_concurrent_instance_fetching(script: Vec<Step>, states: Seq<RunModel>)
    requires
        call_ensures(test_concurrent_instance_fetching, (), script),
        runner::passing(states, script@),
    ensures
        states.len() == 24,
        runner::passed(states, 0, Do(Put(start_item("inst-0")))),
        runner::passed(states, 1, Do(Put(start_item("inst-1")))),
        runner::passed(states, 2, Do(Put(start_item("inst-2")))),
        runner::passed(states, 3, Do(Put(start_item("inst-3")))),
        runner::passed(states, 4, Do(Put(start_item("inst-4")))),
        runner::passed(states, 5, Do(Put(start_item("inst-5")))),
        runner::passed(states, 6, Do(Put(start_item("inst-6")))),
        runner::passed(states, 7, Do(Put(start_item("inst-7")))),
        runner::passed(states, 8, Do(Put(start_item("inst-8")))),
        runner::passed(states, 9, Do(Put(start_item("inst-9")))),
        runner::passed(states, 21, number_is(Num::GroupFailed, 0)),
        runner::passed(states, 22, number_is(Num::GroupInstances, 10)),
{
    runner::lemma_passed(states, script@);
}

/// What the store did in a run that passes [`test_completions_arriving_during_lock_blocked`].
pub proof fn law_passing_completions_arriving_during_lock_blocked(
    script: Vec<Step>,
    states: Seq<RunModel>,
)
    requires
        call_ensures(test_completions_arriving_during_lock_blocked, (), script),
        runner::passing(states, script@),
    ensures
        states.len() == 14,
        runner::passed(states, 0, Do(Put(start_item("instance-A")))),
        runner::passed(states, 1, Take(fetch_turn(lock()), 0)),
        runner::passed(states, 2, text_is(Txt::TurnInstance, "instance-A")),
        runner::passed(states, 3, Do(Put(completed("instance-A", 1, "result-1")))),
        runner::passed(states, 4, Do(Put(completed("instance-A", 2, "result-2")))),
        runner::passed(states, 5, Do(Put(completed("instance-A", 3, "result-3")))),
        runner::passed(states, 6, Do(fetch_turn(lock()))),
        runner::passed(states, 7, Expect(Check::Nothing)),
        runner::passed(states, 8, Do(Sleep(lock_and(100)))),
        runner::passed(states, 9, Take(fetch_turn(lock()), 1)),
        runner::passed(states, 10, text_is(Txt::TurnInstance, "instance-A")),
        runner::passed(states, 11, number_is(Num::TurnMessages, 4)),
        runner::passed(states, 12, Expect(Check::Completions(1, 3))),
{
    runner::lemma_passed(states, script@);
}

/// What the store did in a run that passes [`test_cross_instance_lock_isolation`].
pub proof fn law_passing_cross_instance_lock_isolation(script: Vec<Step>, states: Seq<RunModel>)
    requires
        call_ensures(test_cross_instance_lock_isolation, (), script),
        runner::passing(states, script@),
    ensures
        states.len() == 22,
        runner::passed(states, 10, Do(Put(start_item("instance-A")))),
        runner::passed(states, 11, Do(Put(start_item("instance-B")))),
        runner::passed(states, 12, Take(turn(), 0)),
        runner::passed(states, 13, text_is(Txt::TurnInstance, "instance-A")),
        runner::passed(states, 14, Take(turn(), 1)),
        runner::passed(states, 15, text_is(Txt::TurnInstance, "instance-B")),
        runner::passed(states, 17, Do(Ack(Held(1), 1))),
        runner::passed(states, 18, Do(Put(completed("instance-B", 1, "done")))),
        runner::passed(states, 19, Take(turn(), 2)),
        runner::passed(states, 20, text_is(Txt::TurnInstance, "instance-B")),
{
    runner::lemma_passed(states, script@);
}

/// What the store did in a run that passes [`test_message_tagging_during_lock`].
pub proof fn law_passing_message_tagging_during_lock(script: Vec<Step>, states: Seq<RunModel>)
    requires
        call_ensures(test_message_tagging_during_lock, (), script),
        runner::passing(states, script@),
    ensures
        states.len() == 17,
        runner::passed(states, 5, Do(Put(completed("instance-A", 1, "msg1")))),
        runner::passed(states, 6, Do(Put(completed("instance-A", 2, "msg2")))),
        runner::passed(states, 7, Take(turn(), 0)),
        runner::passed(states, 8, text_is(Txt::TurnInstance, "instance-A")),
        runner::passed(states, 9, number_is(Num::TurnMessages, 2)),
        runner::passed(states, 10, Do(Put(completed("instance-A", 3, "msg3")))),
        runner::passed(states, 11, Do(Ack(Held(0), 1))),
        runner::passed(states, 12, Take(turn(), 1)),
        runner::passed(states, 13, text_is(Txt::TurnInstance, "instance-A")),
        runner::passed(states, 14, number_is(Num::TurnMessages, 1)),
        runner::passed(states, 15, Expect(Check::MessageIs(0, MessageSort::Completed(3)))),
{
    runner::lemma_passed(states, script@);
}

/// What the store did in a run that passes [`test_ack_only_affects_locked_messages`].
pub proof fn law_passing_ack_only_affects_locked_messages(script: Vec<Step>, states: Seq<RunModel>)
    requires
        call_ensures(test_ack_only_affects_locked_messages, (), script),
        runner::passing(states, script@),
    ensures
        states.len() == 18,
        runner::passed(states, 5, Do(Put(completed("instance-A", 1, "msg1")))),
        runner::passed(states, 6, Take(turn(), 0)),
        runner::passed(states, 7, number_is(Num::TurnMessages, 1)),
        runner::passed(states, 8, Do(Put(completed("instance-A", 2, "msg2")))),
        runner::passed(states, 9, Do(Put(completed("instance-A", 3, "msg3")))),
        runner::passed(states, 10, Do(turn())),
        runner::passed(states, 11, Expect(Check::Nothing)),
        runner::passed(states, 12, Do(Ack(Held(0), 1))),
        runner::passed(states, 13, Take(turn(), 1)),
        runner::passed(states, 14, text_is(Txt::TurnInstance, "instance-A")),
        runner::passed(states, 15, number_is(Num::TurnMessages, 2)),
        runner::passed(states, 16, Expect(Check::Completions(2, 3))),
{
    runner::lemma_passed(states, script@);
}

/// What the store did in a run that passes [`test_multi_threaded_lock_contention`].
pub proof fn law_passing_multi_threaded_lock_contention(script: Vec<Step>, states: Seq<RunModel>)
    requires
        call_ensures(test_multi_threaded_lock_contention, (), script),
        runner::passing(states, script@),
    ensures
        states.len() == 18,
        runner::passed(states, 0, Do(Put(start_item("contention-instance")))),
        runner::passed(states, 12, number_is(Num::GroupFailed, 0)),
        runner::passed(states, 13, number_is(Num::GroupTurns, 1)),
        runner::passed(states, 14, Expect(Check::GroupTurnsAre("contention-instance"))),
        runner::passed(states, 15, Do(turn())),
        runner::passed(states, 16, Expect(Check::Nothing)),
{
    runner::lemma_passed(states, script@);
}

/// What the store did in a run that passes [`test_multi_threaded_no_duplicate_processing`].
pub proof fn law_passing_multi_threaded_no_duplicate_processing(
    script: Vec<Step>,
    states: Seq<RunModel>,
)
    requires
        call_ensures(test_multi_threaded_no_duplicate_processing, (), script),
        runner::passing(states, script@),
    ensures
        states.len() == 64,
        runner::passed(states, 0, Do(Put(start_item("dup-test-0")))),
        runner::passed(states, 1, Do(Put(start_item("dup-test-1")))),
        runner::passed(states, 2, Do(Put(start_item("dup-test-2")))),
        runner::passed(states, 3, Do(Put(start_item("dup-test-3")))),
        runner::passed(states, 4, Do(Put(start_item("dup-test-4")))),
        runner::passed(states, 5, Do(Put(start_item("dup-test-5")))),
        runner::passed(states, 6, Do(Put(start_item("dup-test-6")))),
        runner::passed(states, 7, Do(Put(start_item("dup-test-7")))),
        runner::passed(states, 8, Do(Put(start_item("dup-test-8")))),
        runner::passed(states, 9, Do(Put(start_item("dup-test-9")))),
        runner::passed(states, 10, Do(Put(start_item("dup-test-10")))),
        runner::passed(states, 11, Do(Put(start_item("dup-test-11")))),
        runner::passed(states, 12, Do(Put(start_item("dup-test-12")))),
        runner::passed(states, 13, Do(Put(start_item("dup-test-13")))),
        runner::passed(states, 14, Do(Put(start_item("dup-test-14")))),
        runner::passed(states, 15, Do(Put(start_item("dup-test-15")))),
        runner::passed(states, 16, Do(Put(start_item("dup-test-16")))),
        runner::passed(states, 17, Do(Put(start_item("dup-test-17")))),
        runner::passed(states, 18, Do(Put(start_item("dup-test-18")))),
        runner::passed(states, 19, Do(Put(start_item("dup-test-19")))),
        runner::passed(
            states,
            61,
            Expect(Check::Number(Num::GroupInstances, Rel::Is, Operand::Shown(Num::GroupTurns))),
        ),
        runner::passed(
            states,
            62,
            Expect(Check::Number(Num::GroupTurns, Rel::AtMost, Operand::Literal(20))),
        ),
{
    runner::lemma_passed(states, script@);
}

/// What the store did in a run that passes [`test_multi_threaded_lock_expiration_recovery`].
pub proof fn law_passing_multi_threaded_lock_expiration_recovery(
    script: Vec<Step>,
    states: Seq<RunModel>,
)
    requires
        call_ensures(test_multi_threaded_lock_expiration_recovery, (), script),
        runner::passing(states, script@),
    ensures
        states.len() == 14,
        runner::passed(states, 0, Do(Put(start_item("expiration-instance")))),
        runner::passed(states, 6, text_is(Txt::TurnInstance, "expiration-instance")),
        runner::passed(states, 8, Expect(Check::Nothing)),
        runner::passed(states, 10, text_is(Txt::TurnInstance, "expiration-instance")),
        runner::passed(states, 12, Expect(Check::TokenIsNot(0, "expired-token"))),
{
    runner::lemma_passed(states, script@);
}

} // verus!
