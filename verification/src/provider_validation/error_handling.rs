//! Whether errors are reported.
use crate::provider_validation::runner::{self, RunModel};
use crate::provider_validation::script::Call::{Ack, Corrupt, Put, Read, ReadExecution, Sleep};
use crate::provider_validation::script::Step::{Do, Expect, Take, Try};
use crate::provider_validation::script::Token::{Given, Held};
use crate::provider_validation::script::{
    at_least, chain, event, fetch_turn, lock, lock_and, number_is, start_item, started, turn,
    Check, EventSort, Fact, Num, Step,
};
use crate::provider_validation::steps;
use vstd::prelude::*;

verus! {

/// The script of [`test_invalid_lock_token_on_ack`].
pub open spec fn invalid_lock_token_on_ack_steps() -> Seq<Step> {
    seq![
        Try(Ack(Given("invalid-token"), 1)),
        Expect(Check::Failed),
        Expect(Check::Tells("Invalid lock token", "lock_token")),
    ]
}

/// A turn cannot be acknowledged under a made-up token.
pub fn test_invalid_lock_token_on_ack() -> (r: Vec<Step>)
    ensures
        r@ == invalid_lock_token_on_ack_steps(),
{
    vec![
        Try(Ack(Given("invalid-token"), 1)),
        Expect(Check::Failed),
        Expect(Check::Tells("Invalid lock token", "lock_token")),
    ]
}

/// The script of [`test_duplicate_event_id_rejection`].
pub open spec fn duplicate_event_id_rejection_steps() -> Seq<Step> {
    seq![
        Do(Put(start_item("instance-A"))),
        Take(turn(), 0),
        event(1, "instance-A", 1, started("TestOrch", "1.0.0")),
        Do(Ack(Held(0), 1)),
        Do(Put(start_item("instance-A"))),
        Take(turn(), 1),
        event(1, "instance-A", 1, Fact::Scheduled("Activity", "{}")),
        Try(Ack(Held(1), 1)),
        Expect(Check::Failed),
        Try(Read("instance-A")),
        number_is(Num::History, 1),
        Expect(Check::EventIs(0, EventSort::Started)),
    ]
}

/// An event cannot take the place of another.
pub fn test_duplicate_event_id_rejection() -> (r: Vec<Step>)
    ensures
        r@ == duplicate_event_id_rejection_steps(),
{
    vec![
        Do(Put(start_item("instance-A"))),
        Take(turn(), 0),
        event(1, "instance-A", 1, started("TestOrch", "1.0.0")),
        Do(Ack(Held(0), 1)),
        Do(Put(start_item("instance-A"))),
        Take(turn(), 1),
        event(1, "instance-A", 1, Fact::Scheduled("Activity", "{}")),
        Try(Ack(Held(1), 1)),
        Expect(Check::Failed),
        Try(Read("instance-A")),
        number_is(Num::History, 1),
        Expect(Check::EventIs(0, EventSort::Started)),
    ]
}

/// The script of [`test_missing_instance_metadata`].
pub open spec fn missing_instance_metadata_steps() -> Seq<Step> {
    seq![
        Try(Read("non-existent-instance")),
        number_is(Num::History, 0),
    ]
}

/// An instance that does not exist has an empty history.
pub fn test_missing_instance_metadata() -> (r: Vec<Step>)
    ensures
        r@ == missing_instance_metadata_steps(),
{
    vec![
        Try(Read("non-existent-instance")),
        number_is(Num::History, 0),
    ]
}

/// The script of [`test_corrupted_serialization_data`].
pub open spec fn corrupted_serialization_data_steps() -> Seq<Step> {
    seq![
        Do(turn()),
    ]
}

/// A fetch does not fail, whether or not there is a turn.
pub fn test_corrupted_serialization_data() -> (r: Vec<Step>)
    ensures
        r@ == corrupted_serialization_data_steps(),
{
    vec![
        Do(turn()),
    ]
}

/// The script of [`test_lock_expiration_during_ack`].
pub open spec fn lock_expiration_during_ack_steps() -> Seq<Step> {
    seq![
        Do(Put(start_item("instance-A"))),
        Take(fetch_turn(lock()), 0),
        Do(Sleep(lock_and(100))),
        event(1, "instance-A", 1, started("TestOrch", "1.0.0")),
        Try(Ack(Held(0), 1)),
        Expect(Check::Failed),
    ]
}

/// A turn cannot be acknowledged after its lock expired.
pub fn test_lock_expiration_during_ack() -> (r: Vec<Step>)
    ensures
        r@ == lock_expiration_during_ack_steps(),
{
    vec![
        Do(Put(start_item("instance-A"))),
        Take(fetch_turn(lock()), 0),
        Do(Sleep(lock_and(100))),
        event(1, "instance-A", 1, started("TestOrch", "1.0.0")),
        Try(Ack(Held(0), 1)),
        Expect(Check::Failed),
    ]
}

/// The script of [`test_read_corrupted_history_returns_error`].
pub open spec fn read_corrupted_history_returns_error_steps() -> Seq<Step> {
    steps::instance_created("inst-read-corrupt") + seq![
        Do(Read("inst-read-corrupt")),
        at_least(Num::History, 1),
        Do(Corrupt("inst-read-corrupt")),
        Try(Read("inst-read-corrupt")),
        Expect(Check::Failed),
    ]
}

/// Reading a history that cannot be read fails.
pub fn test_read_corrupted_history_returns_error() -> (r: Vec<Step>)
    ensures
        r@ == read_corrupted_history_returns_error_steps(),
{
    let mut steps = steps::create_instance("inst-read-corrupt");
    steps = chain(steps, vec![
        Do(Read("inst-read-corrupt")),
        at_least(Num::History, 1),
        Do(Corrupt("inst-read-corrupt")),
        Try(Read("inst-read-corrupt")),
        Expect(Check::Failed),
    ]);
    steps
}

/// The script of [`test_read_with_execution_corrupted_history_returns_error`].
pub open spec fn read_with_execution_corrupted_history_returns_error_steps() -> Seq<Step> {
    steps::instance_created("inst-rwe-corrupt") + seq![
        Do(ReadExecution("inst-rwe-corrupt", 1)),
        at_least(Num::History, 1),
        Do(Corrupt("inst-rwe-corrupt")),
        Try(ReadExecution("inst-rwe-corrupt", 1)),
        Expect(Check::Failed),
    ]
}

/// Reading the history of an execution that cannot be read fails.
pub fn test_read_with_execution_corrupted_history_returns_error() -> (r: Vec<Step>)
    ensures
        r@ == read_with_execution_corrupted_history_returns_error_steps(),
{
    let mut steps = steps::create_instance("inst-rwe-corrupt");
    steps = chain(steps, vec![
        Do(ReadExecution("inst-rwe-corrupt", 1)),
        at_least(Num::History, 1),
        Do(Corrupt("inst-rwe-corrupt")),
        Try(ReadExecution("inst-rwe-corrupt", 1)),
        Expect(Check::Failed),
    ]);
    steps
}

/// What the store did in a run that passes [`test_invalid_lock_token_on_ack`].
pub proof fn law_passing_invalid_lock_token_on_ack(script: Vec<Step>, states: Seq<RunModel>)
    requires
        call_ensures(test_invalid_lock_token_on_ack, (), script),
        runner::passing(states, script@),
    ensures
        states.len() == 4,
        runner::passed(states, 0, Try(Ack(Given("invalid-token"), 1))),
        runner::passed(states, 1, Expect(Check::Failed)),
        runner::passed(states, 2, Expect(Check::Tells("Invalid lock token", "lock_token"))),
{
    runner::lemma_passed(states, script@);
}

/// What the store did in a run that passes [`test_duplicate_event_id_rejection`].
pub proof fn law_passing_duplicate_event_id_rejection(script: Vec<Step>, states: Seq<RunModel>)
    requires
        call_ensures(test_duplicate_event_id_rejection, (), script),
        runner::passing(states, script@),
    ensures
        states.len() == 13,
        runner::passed(states, 0, Do(Put(start_item("instance-A")))),
        runner::passed(states, 1, Take(turn(), 0)),
        runner::passed(states, 3, Do(Ack(Held(0), 1))),
        runner::passed(states, 4, Do(Put(start_item("instance-A")))),
        runner::passed(states, 5, Take(turn(), 1)),
        runner::passed(states, 7, Try(Ack(Held(1), 1))),
        runner::passed(states, 8, Expect(Check::Failed)),
        runner::passed(states, 9, Try(Read("instance-A"))),
        runner::passed(states, 10, number_is(Num::History, 1)),
        runner::passed(states, 11, Expect(Check::EventIs(0, EventSort::Started))),
{
    runner::lemma_passed(states, script@);
}

/// What the store did in a run that passes [`test_missing_instance_metadata`].
pub proof fn law_passing_missing_instance_metadata(script: Vec<Step>, states: Seq<RunModel>)
    requires
        call_ensures(test_missing_instance_metadata, (), script),
        runner::passing(states, script@),
    ensures
        states.len() == 3,
        runner::passed(states, 0, Try(Read("non-existent-instance"))),
        runner::passed(states, 1, number_is(Num::History, 0)),
{
    runner::lemma_passed(states, script@);
}

/// What the store did in a run that passes [`test_corrupted_serialization_data`].
pub proof fn law_passing_corrupted_serialization_data(script: Vec<Step>, states: Seq<RunModel>)
    requires
        call_ensures(test_corrupted_serialization_data, (), script),
        runner::passing(states, script@),
    ensures
        states.len() == 2,
        runner::passed(states, 0, Do(turn())),
{
    runner::lemma_passed(states, script@);
}

/// What the store did in a run that passes [`test_lock_expiration_during_ack`].
pub proof fn law_passing_lock_expiration_during_ack(script: Vec<Step>, states: Seq<RunModel>)
    requires
        call_ensures(test_lock_expiration_during_ack, (), script),
        runner::passing(states, script@),
    ensures
        states.len() == 7,
        runner::passed(states, 0, Do(Put(start_item("instance-A")))),
        runner::passed(states, 1, Take(fetch_turn(lock()), 0)),
        runner::passed(states, 2, Do(Sleep(lock_and(100)))),
        runner::passed(states, 4, Try(Ack(Held(0), 1))),
        runner::passed(states, 5, Expect(Check::Failed)),
{
    runner::lemma_passed(states, script@);
}

/// What the store did in a run that passes [`test_read_corrupted_history_returns_error`].
pub proof fn law_passing_read_corrupted_history_returns_error(
    script: Vec<Step>,
    states: Seq<RunModel>,
)
    requires
        call_ensures(test_read_corrupted_history_returns_error, (), script),
        runner::passing(states, script@),
    ensures
        states.len() == 11,
        runner::passed(states, 5, Do(Read("inst-read-corrupt"))),
        runner::passed(states, 6, at_least(Num::History, 1)),
        runner::passed(states, 7, Do(Corrupt("inst-read-corrupt"))),
        runner::passed(states, 8, Try(Read("inst-read-corrupt"))),
        runner::passed(states, 9, Expect(Check::Failed)),
{
    runner::lemma_passed(states, script@);
}

/// What the store did in a run that passes
/// [`test_read_with_execution_corrupted_history_returns_error`].
pub proof fn law_passing_read_with_execution_corrupted_history_returns_error(
    script: Vec<Step>,
    states: Seq<RunModel>,
)
    requires
        call_ensures(test_read_with_execution_corrupted_history_returns_error, (), script),
        runner::passing(states, script@),
    ensures
        states.len() == 11,
        runner::passed(states, 5, Do(ReadExecution("inst-rwe-corrupt", 1))),
        runner::passed(states, 6, at_least(Num::History, 1)),
        runner::passed(states, 7, Do(Corrupt("inst-rwe-corrupt"))),
        runner::passed(states, 8, Try(ReadExecution("inst-rwe-corrupt", 1))),
        runner::passed(states, 9, Expect(Check::Failed)),
{
    runner::lemma_passed(states, script@);
}

} // verus!
