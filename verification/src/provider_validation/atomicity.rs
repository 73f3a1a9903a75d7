//! Whether acknowledgements are atomic.
use crate::provider_validation::reply;
use crate::provider_validation::runner::{self, RunModel};
use crate::provider_validation::script::Call::{Ack, Put, Read, Sleep};
use crate::provider_validation::script::Step::{
    AddMessage, AddWork, Do, Expect, Fork, Join, Take, Try,
};
use crate::provider_validation::script::Token::{Given, Held};
use crate::provider_validation::script::{
    event, fetch_turn, lock, lock_and, number_is, start_item, started, text_is, turn, work, zero,
    Check, Fact, Item, MessageSort, Num, Step, Txt,
};
use vstd::prelude::*;

verus! {

/// The script of [`test_atomicity_failure_rollback`].
pub open spec fn atomicity_failure_rollback_steps() -> Seq<Step> {
    seq![
        Do(Put(start_item("instance-A"))),
        Take(turn(), 0),
        event(1, "instance-A", 1, started("TestOrch", "1.0.0")),
        Do(Ack(Held(0), 1)),
        Try(Read("instance-A")),
        number_is(Num::History, 1),
        Do(Put(start_item("instance-A"))),
        Take(turn(), 1),
        event(1, "instance-A", 1, started("TestOrch", "1.0.0")),
        Try(Ack(Held(1), 1)),
        Expect(Check::Failed),
        Try(Read("instance-A")),
        number_is(Num::History, 1),
        Do(turn()),
        Expect(Check::Nothing),
    ]
}

/// An acknowledgement that fails changes nothing: neither the history nor the lock.
pub fn test_atomicity_failure_rollback() -> (r: Vec<Step>)
    ensures
        r@ == atomicity_failure_rollback_steps(),
{
    vec![
        Do(Put(start_item("instance-A"))),
        Take(turn(), 0),
        event(1, "instance-A", 1, started("TestOrch", "1.0.0")),
        Do(Ack(Held(0), 1)),
        Try(Read("instance-A")),
        number_is(Num::History, 1),
        Do(Put(start_item("instance-A"))),
        Take(turn(), 1),
        event(1, "instance-A", 1, started("TestOrch", "1.0.0")),
        Try(Ack(Held(1), 1)),
        Expect(Check::Failed),
        Try(Read("instance-A")),
        number_is(Num::History, 1),
        Do(turn()),
        Expect(Check::Nothing),
    ]
}

/// The script of [`test_multi_operation_atomic_ack`].
pub open spec fn multi_operation_atomic_ack_steps() -> Seq<Step> {
    seq![
        Do(Put(start_item("instance-A"))),
        Take(turn(), 0),
        event(1, "instance-A", 1, started("TestOrch", "1.0.0")),
        event(2, "instance-A", 1, Fact::Scheduled("Activity1", "input1")),
        event(3, "instance-A", 1, Fact::Scheduled("Activity2", "input2")),
        event(4, "instance-A", 1, Fact::Scheduled("Activity3", "input3")),
        event(5, "instance-A", 1, Fact::TimerCreated(1234567890)),
        AddWork(Item::Activity("instance-A", 1, 1, "Activity1", "input1")),
        AddWork(Item::Activity("instance-A", 1, 2, "Activity2", "input2")),
        AddWork(Item::Activity("instance-A", 1, 3, "Activity3", "input3")),
        AddMessage(Item::Timer("instance-A", 1, 1, 1234567890)),
        AddMessage(Item::Raised("instance-A", "TestEvent", "test-data")),
        Do(Ack(Held(0), 1)),
        Try(Read("instance-A")),
        number_is(Num::History, 5),
        Do(work()),
        Expect(Check::Something),
        Do(work()),
        Expect(Check::Something),
        Do(work()),
        Expect(Check::Something),
        Do(work()),
        Expect(Check::Nothing),
        Take(turn(), 1),
        number_is(Num::TurnMessages, 2),
        Expect(Check::MessageIs(0, MessageSort::Timer)),
        Expect(Check::MessageIs(1, MessageSort::Raised)),
    ]
}

/// An acknowledgement with events, activities and messages commits all of them.
pub fn test_multi_operation_atomic_ack() -> (r: Vec<Step>)
    ensures
        r@ == multi_operation_atomic_ack_steps(),
{
    vec![
        Do(Put(start_item("instance-A"))),
        Take(turn(), 0),
        event(1, "instance-A", 1, started("TestOrch", "1.0.0")),
        event(2, "instance-A", 1, Fact::Scheduled("Activity1", "input1")),
        event(3, "instance-A", 1, Fact::Scheduled("Activity2", "input2")),
        event(4, "instance-A", 1, Fact::Scheduled("Activity3", "input3")),
        event(5, "instance-A", 1, Fact::TimerCreated(1234567890)),
        AddWork(Item::Activity("instance-A", 1, 1, "Activity1", "input1")),
        AddWork(Item::Activity("instance-A", 1, 2, "Activity2", "input2")),
        AddWork(Item::Activity("instance-A", 1, 3, "Activity3", "input3")),
        AddMessage(Item::Timer("instance-A", 1, 1, 1234567890)),
        AddMessage(Item::Raised("instance-A", "TestEvent", "test-data")),
        Do(Ack(Held(0), 1)),
        Try(Read("instance-A")),
        number_is(Num::History, 5),
        Do(work()),
        Expect(Check::Something),
        Do(work()),
        Expect(Check::Something),
        Do(work()),
        Expect(Check::Something),
        Do(work()),
        Expect(Check::Nothing),
        Take(turn(), 1),
        number_is(Num::TurnMessages, 2),
        Expect(Check::MessageIs(0, MessageSort::Timer)),
        Expect(Check::MessageIs(1, MessageSort::Raised)),
    ]
}

/// The script of [`test_lock_released_only_on_successful_ack`].
pub open spec fn lock_released_only_on_successful_ack_steps() -> Seq<Step> {
    seq![
        Do(Put(start_item("instance-A"))),
        Take(fetch_turn(lock()), 0),
        Do(fetch_turn(lock())),
        Expect(Check::Nothing),
        event(2, "instance-A", 1, started("TestOrch", "1.0.0")),
        Try(Ack(Given("invalid-lock-token"), 1)),
        Expect(Check::Failed),
        Do(fetch_turn(lock())),
        Expect(Check::Nothing),
        Do(Sleep(lock_and(100))),
        Take(fetch_turn(lock()), 1),
        text_is(Txt::TurnInstance, "instance-A"),
    ]
}

/// A lock is released by an acknowledgement only where it succeeds, and otherwise
/// when it expires.
pub fn test_lock_released_only_on_successful_ack() -> (r: Vec<Step>)
    ensures
        r@ == lock_released_only_on_successful_ack_steps(),
{
    vec![
        Do(Put(start_item("instance-A"))),
        Take(fetch_turn(lock()), 0),
        Do(fetch_turn(lock())),
        Expect(Check::Nothing),
        event(2, "instance-A", 1, started("TestOrch", "1.0.0")),
        Try(Ack(Given("invalid-lock-token"), 1)),
        Expect(Check::Failed),
        Do(fetch_turn(lock())),
        Expect(Check::Nothing),
        Do(Sleep(lock_and(100))),
        Take(fetch_turn(lock()), 1),
        text_is(Txt::TurnInstance, "instance-A"),
    ]
}

/// The script of [`test_concurrent_ack_prevention`].
pub open spec fn concurrent_ack_prevention_steps() -> Seq<Step> {
    seq![
        Do(Put(start_item("instance-A"))),
        Take(turn(), 0),
        event(1, "instance-A", 1, started("TestOrch", "1.0.0")),
        Fork(zero(), Ack(Held(0), 1), zero(), false),
        event(1, "instance-A", 1, started("TestOrch", "1.0.0")),
        Fork(zero(), Ack(Held(0), 1), zero(), false),
        Join(false),
        number_is(Num::GroupDone, 1),
        number_is(Num::GroupFailed, 1),
    ]
}

/// Of two acknowledgements under the same token exactly one succeeds.
pub fn test_concurrent_ack_prevention() -> (r: Vec<Step>)
    ensures
        r@ == concurrent_ack_prevention_steps(),
{
    vec![
        Do(Put(start_item("instance-A"))),
        Take(turn(), 0),
        event(1, "instance-A", 1, started("TestOrch", "1.0.0")),
        Fork(zero(), Ack(Held(0), 1), zero(), false),
        event(1, "instance-A", 1, started("TestOrch", "1.0.0")),
        Fork(zero(), Ack(Held(0), 1), zero(), false),
        Join(false),
        number_is(Num::GroupDone, 1),
        number_is(Num::GroupFailed, 1),
    ]
}

/// A store passes only if the acknowledgement with a duplicate event fails, the
/// history is as it was, and the lock still holds.
pub proof fn law_a_failed_ack_leaves_no_trace(states: Seq<RunModel>)
    requires
        runner::passing(states, atomicity_failure_rollback_steps()),
    ensures
        runner::current(states[10]) is Failed,
        reply::number_of(Num::History, runner::current(states[12])) == Some(1u64),
        runner::current(states[14]) is Nothing,
{
    let script = atomicity_failure_rollback_steps();
    assert(script[10] == Expect(Check::Failed));
    runner::law_a_straight_pass_meets_every_step(states, script, 10);
    assert(script[12] == number_is(Num::History, 1));
    runner::law_a_straight_pass_meets_every_step(states, script, 12);
    assert(script[14] == Expect(Check::Nothing));
    runner::law_a_straight_pass_meets_every_step(states, script, 14);
}

/// A store passes only if all five events, all three activities and both messages
/// are there after the acknowledgement, the messages in their order.
pub proof fn law_an_ack_commits_everything(states: Seq<RunModel>)
    requires
        runner::passing(states, multi_operation_atomic_ack_steps()),
    ensures
        reply::number_of(Num::History, runner::current(states[14])) == Some(5u64),
        reply::succeeded(runner::current(states[16])),
        reply::succeeded(runner::current(states[18])),
        reply::succeeded(runner::current(states[20])),
        runner::current(states[22]) is Nothing,
        reply::number_of(Num::TurnMessages, runner::current(states[24])) == Some(2u64),
        runner::holds(states[25], Check::MessageIs(0, MessageSort::Timer)),
        runner::holds(states[26], Check::MessageIs(1, MessageSort::Raised)),
{
    let script = multi_operation_atomic_ack_steps();
    assert(script[14] == number_is(Num::History, 5));
    runner::law_a_straight_pass_meets_every_step(states, script, 14);
    assert(script[16] == Expect(Check::Something));
    runner::law_a_straight_pass_meets_every_step(states, script, 16);
    assert(script[18] == Expect(Check::Something));
    runner::law_a_straight_pass_meets_every_step(states, script, 18);
    assert(script[20] == Expect(Check::Something));
    runner::law_a_straight_pass_meets_every_step(states, script, 20);
    assert(script[22] == Expect(Check::Nothing));
    runner::law_a_straight_pass_meets_every_step(states, script, 22);
    assert(script[24] == number_is(Num::TurnMessages, 2));
    runner::law_a_straight_pass_meets_every_step(states, script, 24);
    assert(script[25] == Expect(Check::MessageIs(0, MessageSort::Timer)));
    runner::law_a_straight_pass_meets_every_step(states, script, 25);
    assert(script[26] == Expect(Check::MessageIs(1, MessageSort::Raised)));
    runner::law_a_straight_pass_meets_every_step(states, script, 26);
}

/// What the store did in a run that passes [`test_atomicity_failure_rollback`].
pub proof fn law_passing_atomicity_failure_rollback(script: Vec<Step>, states: Seq<RunModel>)
    requires
        call_ensures(test_atomicity_failure_rollback, (), script),
        runner::passing(states, script@),
    ensures
        states.len() == 16,
        runner::passed(states, 0, Do(Put(start_item("instance-A")))),
        runner::passed(states, 1, Take(turn(), 0)),
        runner::passed(states, 3, Do(Ack(Held(0), 1))),
        runner::passed(states, 4, Try(Read("instance-A"))),
        runner::passed(states, 5, number_is(Num::History, 1)),
        runner::passed(states, 6, Do(Put(start_item("instance-A")))),
        runner::passed(states, 7, Take(turn(), 1)),
        runner::passed(states, 9, Try(Ack(Held(1), 1))),
        runner::passed(states, 10, Expect(Check::Failed)),
        runner::passed(states, 11, Try(Read("instance-A"))),
        runner::passed(states, 12, number_is(Num::History, 1)),
        runner::passed(states, 13, Do(turn())),
        runner::passed(states, 14, Expect(Check::Nothing)),
{
    runner::lemma_passed(states, script@);
}

/// What the store did in a run that passes [`test_multi_operation_atomic_ack`].
pub proof fn law_passing_multi_operation_atomic_ack(script: Vec<Step>, states: Seq<RunModel>)
    requires
        call_ensures(test_multi_operation_atomic_ack, (), script),
        runner::passing(states, script@),
    ensures
        states.len() == 28,
        runner::passed(states, 0, Do(Put(start_item("instance-A")))),
        runner::passed(states, 1, Take(turn(), 0)),
        runner::passed(states, 12, Do(Ack(Held(0), 1))),
        runner::passed(states, 13, Try(Read("instance-A"))),
        runner::passed(states, 14, number_is(Num::History, 5)),
        runner::passed(states, 15, Do(work())),
        runner::passed(states, 16, Expect(Check::Something)),
        runner::passed(states, 17, Do(work())),
        runner::passed(states, 18, Expect(Check::Something)),
        runner::passed(states, 19, Do(work())),
        runner::passed(states, 20, Expect(Check::Something)),
        runner::passed(states, 21, Do(work())),
        runner::passed(states, 22, Expect(Check::Nothing)),
        runner::passed(states, 23, Take(turn(), 1)),
        runner::passed(states, 24, number_is(Num::TurnMessages, 2)),
        runner::passed(states, 25, Expect(Check::MessageIs(0, MessageSort::Timer))),
        runner::passed(states, 26, Expect(Check::MessageIs(1, MessageSort::Raised))),
{
    runner::lemma_passed(states, script@);
}

/// What the store did in a run that passes [`test_lock_released_only_on_successful_ack`].
pub proof fn law_passing_lock_released_only_on_successful_ack(
    script: Vec<Step>,
    states: Seq<RunModel>,
)
    requires
        call_ensures(test_lock_released_only_on_successful_ack, (), script),
        runner::passing(states, script@),
    ensures
        states.len() == 13,
        runner::passed(states, 0, Do(Put(start_item("instance-A")))),
        runner::passed(states, 1, Take(fetch_turn(lock()), 0)),
        runner::passed(states, 2, Do(fetch_turn(lock()))),
        runner::passed(states, 3, Expect(Check::Nothing)),
        runner::passed(states, 5, Try(Ack(Given("invalid-lock-token"), 1))),
        runner::passed(states, 6, Expect(Check::Failed)),
        runner::passed(states, 7, Do(fetch_turn(lock()))),
        runner::passed(states, 8, Expect(Check::Nothing)),
        runner::passed(states, 9, Do(Sleep(lock_and(100)))),
        runner::passed(states, 10, Take(fetch_turn(lock()), 1)),
        runner::passed(states, 11, text_is(Txt::TurnInstance, "instance-A")),
{
    runner::lemma_passed(states, script@);
}

/// What the store did in a run that passes [`test_concurrent_ack_prevention`].
pub proof fn law_passing_concurrent_ack_prevention(script: Vec<Step>, states: Seq<RunModel>)
    requires
        call_ensures(test_concurrent_ack_prevention, (), script),
        runner::passing(states, script@),
    ensures
        states.len() == 10,
        runner::passed(states, 0, Do(Put(start_item("instance-A")))),
        runner::passed(states, 1, Take(turn(), 0)),
        runner::passed(states, 7, number_is(Num::GroupDone, 1)),
        runner::passed(states, 8, number_is(Num::GroupFailed, 1)),
{
    runner::lemma_passed(states, script@);
}

} // verus!
