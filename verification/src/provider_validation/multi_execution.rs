//! Whether the executions of an instance are kept apart.
use crate::provider_validation::reply;
use crate::provider_validation::runner::{self, RunModel};
use crate::provider_validation::script::Call::{Ack, Put, Read, ReadExecution};
use crate::provider_validation::script::Step::{Do, Expect, Take, Try};
use crate::provider_validation::script::Token::Held;
use crate::provider_validation::script::{
    event, metadata, number_is, start_item_with_execution, started, text_is, turn, Check,
    EventSort, Fact, Item, Num, Step, Txt,
};
use vstd::prelude::*;

verus! {

/// The script of [`test_execution_isolation`].
pub open spec fn execution_isolation_steps() -> Seq<Step> {
    seq![
        Do(Put(start_item_with_execution("instance-A", 1))),
        Take(turn(), 0),
        event(1, "instance-A", 1, started("TestOrch", "1.0.0")),
        event(2, "instance-A", 1, Fact::Scheduled("Activity1", "input1")),
        event(3, "instance-A", 1, Fact::Completed("result1")),
        Do(Ack(Held(0), 1)),
        Do(Put(start_item_with_execution("instance-A", 2))),
        Take(turn(), 1),
        event(1, "instance-A", 2, started("TestOrch", "1.0.0")),
        event(2, "instance-A", 2, Fact::Completed("result2")),
        Do(Ack(Held(1), 2)),
        Try(ReadExecution("instance-A", 1)),
        number_is(Num::History, 3),
        Expect(Check::EventIs(0, EventSort::Started)),
        Expect(Check::EventIs(1, EventSort::Scheduled)),
        Expect(Check::EventIs(2, EventSort::Completed)),
        Try(ReadExecution("instance-A", 2)),
        number_is(Num::History, 2),
        Expect(Check::EventIs(0, EventSort::Started)),
        Expect(Check::EventIs(1, EventSort::Completed)),
        Try(Read("instance-A")),
        number_is(Num::History, 2),
        Expect(Check::EventIs(0, EventSort::Started)),
        Expect(Check::EventIs(1, EventSort::Completed)),
    ]
}

/// Each execution has a history of its own, and the latest is the one that is read.
pub fn test_execution_isolation() -> (r: Vec<Step>)
    ensures
        r@ == execution_isolation_steps(),
{
    vec![
        Do(Put(start_item_with_execution("instance-A", 1))),
        Take(turn(), 0),
        event(1, "instance-A", 1, started("TestOrch", "1.0.0")),
        event(2, "instance-A", 1, Fact::Scheduled("Activity1", "input1")),
        event(3, "instance-A", 1, Fact::Completed("result1")),
        Do(Ack(Held(0), 1)),
        Do(Put(start_item_with_execution("instance-A", 2))),
        Take(turn(), 1),
        event(1, "instance-A", 2, started("TestOrch", "1.0.0")),
        event(2, "instance-A", 2, Fact::Completed("result2")),
        Do(Ack(Held(1), 2)),
        Try(ReadExecution("instance-A", 1)),
        number_is(Num::History, 3),
        Expect(Check::EventIs(0, EventSort::Started)),
        Expect(Check::EventIs(1, EventSort::Scheduled)),
        Expect(Check::EventIs(2, EventSort::Completed)),
        Try(ReadExecution("instance-A", 2)),
        number_is(Num::History, 2),
        Expect(Check::EventIs(0, EventSort::Started)),
        Expect(Check::EventIs(1, EventSort::Completed)),
        Try(Read("instance-A")),
        number_is(Num::History, 2),
        Expect(Check::EventIs(0, EventSort::Started)),
        Expect(Check::EventIs(1, EventSort::Completed)),
    ]
}

/// The script of [`test_latest_execution_detection`].
pub open spec fn latest_execution_detection_steps() -> Seq<Step> {
    seq![
        Do(Put(start_item_with_execution("instance-A", 1))),
        Take(turn(), 0),
        event(1, "instance-A", 1, Fact::Scheduled("A", "")),
        Do(Ack(Held(0), 1)),
        Do(Put(start_item_with_execution("instance-A", 2))),
        Take(turn(), 1),
        event(1, "instance-A", 2, Fact::Scheduled("B", "")),
        Do(Ack(Held(1), 2)),
        Try(Read("instance-A")),
        number_is(Num::History, 1),
        text_is(Txt::FirstScheduled, "B"),
        Try(ReadExecution("instance-A", 1)),
        number_is(Num::History, 1),
        text_is(Txt::FirstScheduled, "A"),
    ]
}

/// The history that is read is that of the latest execution.
pub fn test_latest_execution_detection() -> (r: Vec<Step>)
    ensures
        r@ == latest_execution_detection_steps(),
{
    vec![
        Do(Put(start_item_with_execution("instance-A", 1))),
        Take(turn(), 0),
        event(1, "instance-A", 1, Fact::Scheduled("A", "")),
        Do(Ack(Held(0), 1)),
        Do(Put(start_item_with_execution("instance-A", 2))),
        Take(turn(), 1),
        event(1, "instance-A", 2, Fact::Scheduled("B", "")),
        Do(Ack(Held(1), 2)),
        Try(Read("instance-A")),
        number_is(Num::History, 1),
        text_is(Txt::FirstScheduled, "B"),
        Try(ReadExecution("instance-A", 1)),
        number_is(Num::History, 1),
        text_is(Txt::FirstScheduled, "A"),
    ]
}

/// The script of [`test_execution_id_sequencing`].
pub open spec fn execution_id_sequencing_steps() -> Seq<Step> {
    seq![
        Do(Put(start_item_with_execution("instance-A", 1))),
        Take(turn(), 0),
        number_is(Num::TurnExecution, 1),
        event(1, "instance-A", 1, started("TestOrch", "1.0.0")),
        metadata(None, None, Some("TestOrch"), Some("1.0.0")),
        Do(Ack(Held(0), 1)),
        Do(Put(start_item_with_execution("instance-A", 2))),
        Take(turn(), 1),
        event(1, "instance-A", 2, started("TestOrch", "1.0.0")),
        metadata(None, None, Some("TestOrch"), Some("1.0.0")),
        Do(Ack(Held(1), 2)),
        Do(Put(start_item_with_execution("instance-A", 3))),
        Take(turn(), 2),
        number_is(Num::TurnExecution, 2),
    ]
}

/// A turn is of the execution that was acknowledged last.
pub fn test_execution_id_sequencing() -> (r: Vec<Step>)
    ensures
        r@ == execution_id_sequencing_steps(),
{
    vec![
        Do(Put(start_item_with_execution("instance-A", 1))),
        Take(turn(), 0),
        number_is(Num::TurnExecution, 1),
        event(1, "instance-A", 1, started("TestOrch", "1.0.0")),
        metadata(None, None, Some("TestOrch"), Some("1.0.0")),
        Do(Ack(Held(0), 1)),
        Do(Put(start_item_with_execution("instance-A", 2))),
        Take(turn(), 1),
        event(1, "instance-A", 2, started("TestOrch", "1.0.0")),
        metadata(None, None, Some("TestOrch"), Some("1.0.0")),
        Do(Ack(Held(1), 2)),
        Do(Put(start_item_with_execution("instance-A", 3))),
        Take(turn(), 2),
        number_is(Num::TurnExecution, 2),
    ]
}

/// The script of [`test_continue_as_new_creates_new_execution`].
pub open spec fn continue_as_new_creates_new_execution_steps() -> Seq<Step> {
    seq![
        Do(Put(start_item_with_execution("instance-A", 1))),
        Take(turn(), 0),
        event(1, "instance-A", 1, started("TestOrch", "1.0.0")),
        Do(Ack(Held(0), 1)),
        Do(Put(Item::Continue("instance-A", "TestOrch", "new-input", "1.0.0"))),
        Take(turn(), 1),
        event(1, "instance-A", 2, Fact::Started("TestOrch", "1.0.0", "new-input", None, None)),
        Do(Ack(Held(1), 2)),
        Do(turn()),
        Expect(Check::ExecutionIfAny(2)),
    ]
}

/// Continuing as new begins the next execution.
pub fn test_continue_as_new_creates_new_execution() -> (r: Vec<Step>)
    ensures
        r@ == continue_as_new_creates_new_execution_steps(),
{
    vec![
        Do(Put(start_item_with_execution("instance-A", 1))),
        Take(turn(), 0),
        event(1, "instance-A", 1, started("TestOrch", "1.0.0")),
        Do(Ack(Held(0), 1)),
        Do(Put(Item::Continue("instance-A", "TestOrch", "new-input", "1.0.0"))),
        Take(turn(), 1),
        event(1, "instance-A", 2, Fact::Started("TestOrch", "1.0.0", "new-input", None, None)),
        Do(Ack(Held(1), 2)),
        Do(turn()),
        Expect(Check::ExecutionIfAny(2)),
    ]
}

/// The script of [`test_execution_history_persistence`].
pub open spec fn execution_history_persistence_steps() -> Seq<Step> {
    seq![
        Do(Put(start_item_with_execution("instance-A", 1))),
        Take(turn(), 0),
        event(1, "instance-A", 1, Fact::Scheduled("Activity-1", "input-1")),
        Do(Ack(Held(0), 1)),
        Do(Put(start_item_with_execution("instance-A", 2))),
        Take(turn(), 0),
        event(1, "instance-A", 2, Fact::Scheduled("Activity-2", "input-2")),
        Do(Ack(Held(0), 2)),
        Do(Put(start_item_with_execution("instance-A", 3))),
        Take(turn(), 0),
        event(1, "instance-A", 3, Fact::Scheduled("Activity-3", "input-3")),
        Do(Ack(Held(0), 3)),
        Try(ReadExecution("instance-A", 1)),
        number_is(Num::History, 1),
        text_is(Txt::FirstScheduled, "Activity-1"),
        Try(ReadExecution("instance-A", 2)),
        number_is(Num::History, 1),
        text_is(Txt::FirstScheduled, "Activity-2"),
        Try(ReadExecution("instance-A", 3)),
        number_is(Num::History, 1),
        text_is(Txt::FirstScheduled, "Activity-3"),
        Try(Read("instance-A")),
        number_is(Num::History, 1),
        text_is(Txt::FirstScheduled, "Activity-3"),
    ]
}

/// The histories of all executions are kept.
pub fn test_execution_history_persistence() -> (r: Vec<Step>)
    ensures
        r@ == execution_history_persistence_steps(),
{
    vec![
        Do(Put(start_item_with_execution("instance-A", 1))),
        Take(turn(), 0),
        event(1, "instance-A", 1, Fact::Scheduled("Activity-1", "input-1")),
        Do(Ack(Held(0), 1)),
        Do(Put(start_item_with_execution("instance-A", 2))),
        Take(turn(), 0),
        event(1, "instance-A", 2, Fact::Scheduled("Activity-2", "input-2")),
        Do(Ack(Held(0), 2)),
        Do(Put(start_item_with_execution("instance-A", 3))),
        Take(turn(), 0),
        event(1, "instance-A", 3, Fact::Scheduled("Activity-3", "input-3")),
        Do(Ack(Held(0), 3)),
        Try(ReadExecution("instance-A", 1)),
        number_is(Num::History, 1),
        text_is(Txt::FirstScheduled, "Activity-1"),
        Try(ReadExecution("instance-A", 2)),
        number_is(Num::History, 1),
        text_is(Txt::FirstScheduled, "Activity-2"),
        Try(ReadExecution("instance-A", 3)),
        number_is(Num::History, 1),
        text_is(Txt::FirstScheduled, "Activity-3"),
        Try(Read("instance-A")),
        number_is(Num::History, 1),
        text_is(Txt::FirstScheduled, "Activity-3"),
    ]
}

/// A store passes only if the first execution shows its three events, the second
/// its two, and the latest history is that of the second.
pub proof fn law_executions_do_not_mix(states: Seq<RunModel>)
    requires
        runner::passing(states, execution_isolation_steps()),
    ensures
        reply::number_of(Num::History, runner::current(states[12])) == Some(3u64),
        reply::number_of(Num::History, runner::current(states[17])) == Some(2u64),
        reply::number_of(Num::History, runner::current(states[21])) == Some(2u64),
{
    let script = execution_isolation_steps();
    assert(script[12] == number_is(Num::History, 3));
    runner::law_a_straight_pass_meets_every_step(states, script, 12);
    assert(script[17] == number_is(Num::History, 2));
    runner::law_a_straight_pass_meets_every_step(states, script, 17);
    assert(script[21] == number_is(Num::History, 2));
    runner::law_a_straight_pass_meets_every_step(states, script, 21);
}

/// What the store did in a run that passes [`test_execution_isolation`].
pub proof fn law_passing_execution_isolation(script: Vec<Step>, states: Seq<RunModel>)
    requires
        call_ensures(test_execution_isolation, (), script),
        runner::passing(states, script@),
    ensures
        states.len() == 25,
        runner::passed(states, 0, Do(Put(start_item_with_execution("instance-A", 1)))),
        runner::passed(states, 1, Take(turn(), 0)),
        runner::passed(states, 5, Do(Ack(Held(0), 1))),
        runner::passed(states, 6, Do(Put(start_item_with_execution("instance-A", 2)))),
        runner::passed(states, 7, Take(turn(), 1)),
        runner::passed(states, 10, Do(Ack(Held(1), 2))),
        runner::passed(states, 11, Try(ReadExecution("instance-A", 1))),
        runner::passed(states, 12, number_is(Num::History, 3)),
        runner::passed(states, 13, Expect(Check::EventIs(0, EventSort::Started))),
        runner::passed(states, 14, Expect(Check::EventIs(1, EventSort::Scheduled))),
        runner::passed(states, 15, Expect(Check::EventIs(2, EventSort::Completed))),
        runner::passed(states, 16, Try(ReadExecution("instance-A", 2))),
        runner::passed(states, 17, number_is(Num::History, 2)),
        runner::passed(states, 18, Expect(Check::EventIs(0, EventSort::Started))),
        runner::passed(states, 19, Expect(Check::EventIs(1, EventSort::Completed))),
        runner::passed(states, 20, Try(Read("instance-A"))),
        runner::passed(states, 21, number_is(Num::History, 2)),
        runner::passed(states, 22, Expect(Check::EventIs(0, EventSort::Started))),
        runner::passed(states, 23, Expect(Check::EventIs(1, EventSort::Completed))),
{
    runner::lemma_passed(states, script@);
}

/// What the store did in a run that passes [`test_latest_execution_detection`].
pub proof fn law_passing_latest_execution_detection(script: Vec<Step>, states: Seq<RunModel>)
    requires
        call_ensures(test_latest_execution_detection, (), script),
        runner::passing(states, script@),
    ensures
        states.len() == 15,
        runner::passed(states, 0, Do(Put(start_item_with_execution("instance-A", 1)))),
        runner::passed(states, 1, Take(turn(), 0)),
        runner::passed(states, 3, Do(Ack(Held(0), 1))),
        runner::passed(states, 4, Do(Put(start_item_with_execution("instance-A", 2)))),
        runner::passed(states, 5, Take(turn(), 1)),
        runner::passed(states, 7, Do(Ack(Held(1), 2))),
        runner::passed(states, 8, Try(Read("instance-A"))),
        runner::passed(states, 9, number_is(Num::History, 1)),
        runner::passed(states, 10, text_is(Txt::FirstScheduled, "B")),
        runner::passed(states, 11, Try(ReadExecution("instance-A", 1))),
        runner::passed(states, 12, number_is(Num::History, 1)),
        runner::passed(states, 13, text_is(Txt::FirstScheduled, "A")),
{
    runner::lemma_passed(states, script@);
}

/// What the store did in a run that passes [`test_execution_id_sequencing`].
pub proof fn law_passing_execution_id_sequencing(script: Vec<Step>, states: Seq<RunModel>)
    requires
        call_ensures(test_execution_id_sequencing, (), script),
        runner::passing(states, script@),
    ensures
        states.len() == 15,
        runner::passed(states, 0, Do(Put(start_item_with_execution("instance-A", 1)))),
        runner::passed(states, 1, Take(turn(), 0)),
        runner::passed(states, 2, number_is(Num::TurnExecution, 1)),
        runner::passed(states, 5, Do(Ack(Held(0), 1))),
        runner::passed(states, 6, Do(Put(start_item_with_execution("instance-A", 2)))),
        runner::passed(states, 7, Take(turn(), 1)),
        runner::passed(states, 10, Do(Ack(Held(1), 2))),
        runner::passed(states, 11, Do(Put(start_item_with_execution("instance-A", 3)))),
        runner::passed(states, 12, Take(turn(), 2)),
        runner::passed(states, 13, number_is(Num::TurnExecution, 2)),
{
    runner::lemma_passed(states, script@);
}

/// What the store did in a run that passes [`test_continue_as_new_creates_new_execution`].
pub proof fn law_passing_continue_as_new_creates_new_execution(
    script: Vec<Step>,
    states: Seq<RunModel>,
)
    requires
        call_ensures(test_continue_as_new_creates_new_execution, (), script),
        runner::passing(states, script@),
    ensures
        states.len() == 11,
        runner::passed(states, 0, Do(Put(start_item_with_execution("instance-A", 1)))),
        runner::passed(states, 1, Take(turn(), 0)),
        runner::passed(states, 3, Do(Ack(Held(0), 1))),
        runner::passed(
            states,
            4,
            Do(Put(Item::Continue("instance-A", "TestOrch", "new-input", "1.0.0"))),
        ),
        runner::passed(states, 5, Take(turn(), 1)),
        runner::passed(states, 7, Do(Ack(Held(1), 2))),
        runner::passed(states, 8, Do(turn())),
        runner::passed(states, 9, Expect(Check::ExecutionIfAny(2))),
{
    runner::lemma_passed(states, script@);
}

/// What the store did in a run that passes [`test_execution_history_persistence`].
pub proof fn law_passing_execution_history_persistence(script: Vec<Step>, states: Seq<RunModel>)
    requires
        call_ensures(test_execution_history_persistence, (), script),
        runner::passing(states, script@),
    ensures
        states.len() == 25,
        runner::passed(states, 0, Do(Put(start_item_with_execution("instance-A", 1)))),
        runner::passed(states, 1, Take(turn(), 0)),
        runner::passed(states, 3, Do(Ack(Held(0), 1))),
        runner::passed(states, 4, Do(Put(start_item_with_execution("instance-A", 2)))),
        runner::passed(states, 5, Take(turn(), 0)),
        runner::passed(states, 7, Do(Ack(Held(0), 2))),
        runner::passed(states, 8, Do(Put(start_item_with_execution("instance-A", 3)))),
        runner::passed(states, 9, Take(turn(), 0)),
        runner::passed(states, 11, Do(Ack(Held(0), 3))),
        runner::passed(states, 12, Try(ReadExecution("instance-A", 1))),
        runner::passed(states, 13, number_is(Num::History, 1)),
        runner::passed(states, 14, text_is(Txt::FirstScheduled, "Activity-1")),
        runner::passed(states, 15, Try(ReadExecution("instance-A", 2))),
        runner::passed(states, 16, number_is(Num::History, 1)),
        runner::passed(states, 17, text_is(Txt::FirstScheduled, "Activity-2")),
        runner::passed(states, 18, Try(ReadExecution("instance-A", 3))),
        runner::passed(states, 19, number_is(Num::History, 1)),
        runner::passed(states, 20, text_is(Txt::FirstScheduled, "Activity-3")),
        runner::passed(states, 21, Try(Read("instance-A"))),
        runner::passed(states, 22, number_is(Num::History, 1)),
        runner::passed(states, 23, text_is(Txt::FirstScheduled, "Activity-3")),
{
    runner::lemma_passed(states, script@);
}

} // verus!
