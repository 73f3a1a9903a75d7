//! When instances come into being.
use crate::provider_validation::reply;
use crate::provider_validation::runner::{self, RunModel};
use crate::provider_validation::script::Call::{Ack, Put};
use crate::provider_validation::script::Step::{AddMessage, Do, Take};
use crate::provider_validation::script::Token::Held;
use crate::provider_validation::script::{
    event, metadata, number_is, start_item, started, text_is, turn, Fact, Item, Num, Step, Txt,
};
use vstd::prelude::*;

verus! {

/// The script of [`test_instance_creation_via_metadata`].
pub open spec fn instance_creation_via_metadata_steps() -> Seq<Step> {
    seq![
        Do(Put(start_item("instance-A"))),
        Take(turn(), 0),
        text_is(Txt::TurnInstance, "instance-A"),
        text_is(Txt::TurnOrchestration, "TestOrch"),
        number_is(Num::TurnExecution, 1),
        number_is(Num::TurnHistory, 0),
        event(1, "instance-A", 1, started("TestOrch", "2.0.0")),
        metadata(None, None, Some("TestOrch"), Some("2.0.0")),
        Do(Ack(Held(0), 1)),
        Do(Put(start_item("instance-A"))),
        Take(turn(), 1),
        text_is(Txt::TurnInstance, "instance-A"),
        text_is(Txt::TurnOrchestration, "TestOrch"),
        text_is(Txt::TurnVersion, "2.0.0"),
        number_is(Num::TurnExecution, 1),
        number_is(Num::TurnHistory, 1),
        Do(Ack(Held(1), 1)),
    ]
}

/// The first acknowledgement creates an instance, with the name and version of its
/// metadata.
pub fn test_instance_creation_via_metadata() -> (r: Vec<Step>)
    ensures
        r@ == instance_creation_via_metadata_steps(),
{
    vec![
        Do(Put(start_item("instance-A"))),
        Take(turn(), 0),
        text_is(Txt::TurnInstance, "instance-A"),
        text_is(Txt::TurnOrchestration, "TestOrch"),
        number_is(Num::TurnExecution, 1),
        number_is(Num::TurnHistory, 0),
        event(1, "instance-A", 1, started("TestOrch", "2.0.0")),
        metadata(None, None, Some("TestOrch"), Some("2.0.0")),
        Do(Ack(Held(0), 1)),
        Do(Put(start_item("instance-A"))),
        Take(turn(), 1),
        text_is(Txt::TurnInstance, "instance-A"),
        text_is(Txt::TurnOrchestration, "TestOrch"),
        text_is(Txt::TurnVersion, "2.0.0"),
        number_is(Num::TurnExecution, 1),
        number_is(Num::TurnHistory, 1),
        Do(Ack(Held(1), 1)),
    ]
}

/// The script of [`test_no_instance_creation_on_enqueue`].
pub open spec fn no_instance_creation_on_enqueue_steps() -> Seq<Step> {
    seq![
        Do(Put(start_item("instance-B"))),
        Take(turn(), 0),
        text_is(Txt::TurnInstance, "instance-B"),
        event(1, "instance-B", 1, started("TestOrch", "1.0.0")),
        metadata(None, None, Some("TestOrch"), Some("1.0.0")),
        Do(Ack(Held(0), 1)),
    ]
}

/// A turn can be fetched before its instance exists.
pub fn test_no_instance_creation_on_enqueue() -> (r: Vec<Step>)
    ensures
        r@ == no_instance_creation_on_enqueue_steps(),
{
    vec![
        Do(Put(start_item("instance-B"))),
        Take(turn(), 0),
        text_is(Txt::TurnInstance, "instance-B"),
        event(1, "instance-B", 1, started("TestOrch", "1.0.0")),
        metadata(None, None, Some("TestOrch"), Some("1.0.0")),
        Do(Ack(Held(0), 1)),
    ]
}

/// The script of [`test_null_version_handling`].
pub open spec fn null_version_handling_steps() -> Seq<Step> {
    seq![
        Do(Put(Item::Start("instance-C", "TestOrch", "{}", None, None, None, 1))),
        Take(turn(), 0),
        text_is(Txt::TurnInstance, "instance-C"),
        event(1, "instance-C", 1, started("TestOrch", "3.0.0")),
        metadata(None, None, Some("TestOrch"), Some("3.0.0")),
        Do(Ack(Held(0), 1)),
        Do(Put(start_item("instance-C"))),
        Take(turn(), 1),
        text_is(Txt::TurnVersion, "3.0.0"),
        Do(Ack(Held(1), 1)),
    ]
}

/// An instance that is started without a version gets that of its metadata.
pub fn test_null_version_handling() -> (r: Vec<Step>)
    ensures
        r@ == null_version_handling_steps(),
{
    vec![
        Do(Put(Item::Start("instance-C", "TestOrch", "{}", None, None, None, 1))),
        Take(turn(), 0),
        text_is(Txt::TurnInstance, "instance-C"),
        event(1, "instance-C", 1, started("TestOrch", "3.0.0")),
        metadata(None, None, Some("TestOrch"), Some("3.0.0")),
        Do(Ack(Held(0), 1)),
        Do(Put(start_item("instance-C"))),
        Take(turn(), 1),
        text_is(Txt::TurnVersion, "3.0.0"),
        Do(Ack(Held(1), 1)),
    ]
}

/// The script of [`test_sub_orchestration_instance_creation`].
pub open spec fn sub_orchestration_instance_creation_steps() -> Seq<Step> {
    seq![
        Do(Put(start_item("parent-instance"))),
        Take(turn(), 0),
        event(1, "parent-instance", 1, started("ParentOrch", "1.0.0")),
        AddMessage(
            Item::Start(
                "parent-instance::child-instance",
                "ChildOrch",
                "{}",
                None,
                Some("parent-instance"),
                Some(1),
                1,
            ),
        ),
        metadata(None, None, Some("ParentOrch"), Some("1.0.0")),
        Do(Ack(Held(0), 1)),
        Take(turn(), 1),
        text_is(Txt::TurnInstance, "parent-instance::child-instance"),
        text_is(Txt::TurnOrchestration, "ChildOrch"),
        event(
            1,
            "parent-instance::child-instance",
            1,
            Fact::Started("ChildOrch", "1.5.0", "{}", Some("parent-instance"), Some(1)),
        ),
        metadata(None, None, Some("ChildOrch"), Some("1.5.0")),
        Do(Ack(Held(1), 1)),
        Do(
            Put(
                Item::Start(
                    "parent-instance::child-instance",
                    "ChildOrch",
                    "{}",
                    None,
                    None,
                    None,
                    1,
                ),
            ),
        ),
        Take(turn(), 2),
        text_is(Txt::TurnInstance, "parent-instance::child-instance"),
        text_is(Txt::TurnVersion, "1.5.0"),
        Do(Ack(Held(2), 1)),
    ]
}

/// A sub-orchestration is created by its first acknowledgement, not when it is
/// enqueued.
pub fn test_sub_orchestration_instance_creation() -> (r: Vec<Step>)
    ensures
        r@ == sub_orchestration_instance_creation_steps(),
{
    vec![
        Do(Put(start_item("parent-instance"))),
        Take(turn(), 0),
        event(1, "parent-instance", 1, started("ParentOrch", "1.0.0")),
        AddMessage(
            Item::Start(
                "parent-instance::child-instance",
                "ChildOrch",
                "{}",
                None,
                Some("parent-instance"),
                Some(1),
                1,
            ),
        ),
        metadata(None, None, Some("ParentOrch"), Some("1.0.0")),
        Do(Ack(Held(0), 1)),
        Take(turn(), 1),
        text_is(Txt::TurnInstance, "parent-instance::child-instance"),
        text_is(Txt::TurnOrchestration, "ChildOrch"),
        event(
            1,
            "parent-instance::child-instance",
            1,
            Fact::Started("ChildOrch", "1.5.0", "{}", Some("parent-instance"), Some(1)),
        ),
        metadata(None, None, Some("ChildOrch"), Some("1.5.0")),
        Do(Ack(Held(1), 1)),
        Do(
            Put(
                Item::Start(
                    "parent-instance::child-instance",
                    "ChildOrch",
                    "{}",
                    None,
                    None,
                    None,
                    1,
                ),
            ),
        ),
        Take(turn(), 2),
        text_is(Txt::TurnInstance, "parent-instance::child-instance"),
        text_is(Txt::TurnVersion, "1.5.0"),
        Do(Ack(Held(2), 1)),
    ]
}

/// A store passes only if the turn of the child shows its name before it exists,
/// and the version of its metadata afterwards.
pub proof fn law_a_child_is_created_by_its_first_ack(states: Seq<RunModel>)
    requires
        runner::passing(states, sub_orchestration_instance_creation_steps()),
    ensures
        reply::text_of(Txt::TurnInstance, runner::current(states[7])) == Some(
            Some("parent-instance::child-instance"@),
        ),
        reply::text_of(Txt::TurnOrchestration, runner::current(states[8])) == Some(
            Some("ChildOrch"@),
        ),
        reply::text_of(Txt::TurnInstance, runner::current(states[14])) == Some(
            Some("parent-instance::child-instance"@),
        ),
        reply::text_of(Txt::TurnVersion, runner::current(states[15])) == Some(
            Some("1.5.0"@),
        ),
{
    let script = sub_orchestration_instance_creation_steps();
    assert(script[7] == text_is(Txt::TurnInstance, "parent-instance::child-instance"));
    runner::law_a_straight_pass_meets_every_step(states, script, 7);
    assert(script[8] == text_is(Txt::TurnOrchestration, "ChildOrch"));
    runner::law_a_straight_pass_meets_every_step(states, script, 8);
    assert(script[14] == text_is(Txt::TurnInstance, "parent-instance::child-instance"));
    runner::law_a_straight_pass_meets_every_step(states, script, 14);
    assert(script[15] == text_is(Txt::TurnVersion, "1.5.0"));
    runner::law_a_straight_pass_meets_every_step(states, script, 15);
}

/// What the store did in a run that passes [`test_instance_creation_via_metadata`].
pub proof fn law_passing_instance_creation_via_metadata(script: Vec<Step>, states: Seq<RunModel>)
    requires
        call_ensures(test_instance_creation_via_metadata, (), script),
        runner::passing(states, script@),
    ensures
        states.len() == 18,
        runner::passed(states, 0, Do(Put(start_item("instance-A")))),
        runner::passed(states, 1, Take(turn(), 0)),
        runner::passed(states, 2, text_is(Txt::TurnInstance, "instance-A")),
        runner::passed(states, 3, text_is(Txt::TurnOrchestration, "TestOrch")),
        runner::passed(states, 4, number_is(Num::TurnExecution, 1)),
        runner::passed(states, 5, number_is(Num::TurnHistory, 0)),
        runner::passed(states, 8, Do(Ack(Held(0), 1))),
        runner::passed(states, 9, Do(Put(start_item("instance-A")))),
        runner::passed(states, 10, Take(turn(), 1)),
        runner::passed(states, 11, text_is(Txt::TurnInstance, "instance-A")),
        runner::passed(states, 12, text_is(Txt::TurnOrchestration, "TestOrch")),
        runner::passed(states, 13, text_is(Txt::TurnVersion, "2.0.0")),
        runner::passed(states, 14, number_is(Num::TurnExecution, 1)),
        runner::passed(states, 15, number_is(Num::TurnHistory, 1)),
        runner::passed(states, 16, Do(Ack(Held(1), 1))),
{
    runner::lemma_passed(states, script@);
}

/// What the store did in a run that passes [`test_no_instance_creation_on_enqueue`].
pub proof fn law_passing_no_instance_creation_on_enqueue(script: Vec<Step>, states: Seq<RunModel>)
    requires
        call_ensures(test_no_instance_creation_on_enqueue, (), script),
        runner::passing(states, script@),
    ensures
        states.len() == 7,
        runner::passed(states, 0, Do(Put(start_item("instance-B")))),
        runner::passed(states, 1, Take(turn(), 0)),
        runner::passed(states, 2, text_is(Txt::TurnInstance, "instance-B")),
        runner::passed(states, 5, Do(Ack(Held(0), 1))),
{
    runner::lemma_passed(states, script@);
}

/// What the store did in a run that passes [`test_null_version_handling`].
pub proof fn law_passing_null_version_handling(script: Vec<Step>, states: Seq<RunModel>)
    requires
        call_ensures(test_null_version_handling, (), script),
        runner::passing(states, script@),
    ensures
        states.len() == 11,
        runner::passed(
            states,
            0,
            Do(Put(Item::Start("instance-C", "TestOrch", "{}", None, None, None, 1))),
        ),
        runner::passed(states, 1, Take(turn(), 0)),
        runner::passed(states, 2, text_is(Txt::TurnInstance, "instance-C")),
        runner::passed(states, 5, Do(Ack(Held(0), 1))),
        runner::passed(states, 6, Do(Put(start_item("instance-C")))),
        runner::passed(states, 7, Take(turn(), 1)),
        runner::passed(states, 8, text_is(Txt::TurnVersion, "3.0.0")),
        runner::passed(states, 9, Do(Ack(Held(1), 1))),
{
    runner::lemma_passed(states, script@);
}

/// What the store did in a run that passes [`test_sub_orchestration_instance_creation`].
pub proof fn law_passing_sub_orchestration_instance_creation(
    script: Vec<Step>,
    states: Seq<RunModel>,
)
    requires
        call_ensures(test_sub_orchestration_instance_creation, (), script),
        runner::passing(states, script@),
    ensures
        states.len() == 18,
        runner::passed(states, 0, Do(Put(start_item("parent-instance")))),
        runner::passed(states, 1, Take(turn(), 0)),
        runner::passed(states, 5, Do(Ack(Held(0), 1))),
        runner::passed(states, 6, Take(turn(), 1)),
        runner::passed(states, 7, text_is(Txt::TurnInstance, "parent-instance::child-instance")),
        runner::passed(states, 8, text_is(Txt::TurnOrchestration, "ChildOrch")),
        runner::passed(states, 11, Do(Ack(Held(1), 1))),
        runner::passed(
            states,
            12,
            Do(Put(
                Item::Start("parent-instance::child-instance", "ChildOrch", "{}", None, None, None, 1),
            )),
        ),
        runner::passed(states, 13, Take(turn(), 2)),
        runner::passed(states, 14, text_is(Txt::TurnInstance, "parent-instance::child-instance")),
        runner::passed(states, 15, text_is(Txt::TurnVersion, "1.5.0")),
        runner::passed(states, 16, Do(Ack(Held(2), 1))),
{
    runner::lemma_passed(states, script@);
}

} // verus!
