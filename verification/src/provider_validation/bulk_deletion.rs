//! Whether instances are deleted in bulk.
use crate::provider_validation::runner::{self, RunModel};
use crate::provider_validation::script::Call::{
    Clock, DeleteMatching, InstanceInfo, Management, Sleep,
};
use crate::provider_validation::script::Step::{AddId, Do, Expect, Save, Try};
use crate::provider_validation::script::{at_least, chain, millis, number_is, Check, Num, Step};
use crate::provider_validation::steps;
use vstd::prelude::*;

verus! {

/// The script of [`test_delete_instance_bulk_filter_combinations`].
pub open spec fn delete_instance_bulk_filter_combinations_steps() -> Seq<Step> {
    seq![Do(Management)] + steps::completed_instance_created("bulk-del-filter-0")
        + steps::completed_instance_created("bulk-del-filter-1")
        + steps::completed_instance_created("bulk-del-filter-2")
        + steps::completed_instance_created("bulk-del-filter-3")
        + steps::completed_instance_created("bulk-del-filter-4") + seq![
        AddId("bulk-del-filter-0"),
        AddId("bulk-del-filter-1"),
        Do(DeleteMatching(true, None, None)),
        number_is(Num::InstancesDeleted, 2),
        Try(InstanceInfo("bulk-del-filter-0")),
        Expect(Check::Failed),
        Try(InstanceInfo("bulk-del-filter-1")),
        Expect(Check::Failed),
        Do(InstanceInfo("bulk-del-filter-2")),
        AddId("does-not-exist-1"),
        AddId("does-not-exist-2"),
        Do(DeleteMatching(true, None, None)),
        number_is(Num::InstancesDeleted, 0),
        Do(DeleteMatching(false, None, None)),
        at_least(Num::InstancesDeleted, 3),
        Try(InstanceInfo("bulk-del-filter-2")),
        Expect(Check::Failed),
        Try(InstanceInfo("bulk-del-filter-3")),
        Expect(Check::Failed),
        Try(InstanceInfo("bulk-del-filter-4")),
        Expect(Check::Failed),
    ]
}

/// Bulk deletion goes by the listed instances; unknown ones count for nothing, and
/// an empty filter selects every instance that has ended.
pub fn test_delete_instance_bulk_filter_combinations() -> (r: Vec<Step>)
    ensures
        r@ == delete_instance_bulk_filter_combinations_steps(),
{
    let mut steps = vec![Do(Management)];
    steps = chain(steps, steps::create_completed_instance("bulk-del-filter-0"));
    steps = chain(steps, steps::create_completed_instance("bulk-del-filter-1"));
    steps = chain(steps, steps::create_completed_instance("bulk-del-filter-2"));
    steps = chain(steps, steps::create_completed_instance("bulk-del-filter-3"));
    steps = chain(steps, steps::create_completed_instance("bulk-del-filter-4"));
    steps = chain(steps, vec![
        AddId("bulk-del-filter-0"),
        AddId("bulk-del-filter-1"),
        Do(DeleteMatching(true, None, None)),
        number_is(Num::InstancesDeleted, 2),
        Try(InstanceInfo("bulk-del-filter-0")),
        Expect(Check::Failed),
        Try(InstanceInfo("bulk-del-filter-1")),
        Expect(Check::Failed),
        Do(InstanceInfo("bulk-del-filter-2")),
        AddId("does-not-exist-1"),
        AddId("does-not-exist-2"),
        Do(DeleteMatching(true, None, None)),
        number_is(Num::InstancesDeleted, 0),
        Do(DeleteMatching(false, None, None)),
        at_least(Num::InstancesDeleted, 3),
        Try(InstanceInfo("bulk-del-filter-2")),
        Expect(Check::Failed),
        Try(InstanceInfo("bulk-del-filter-3")),
        Expect(Check::Failed),
        Try(InstanceInfo("bulk-del-filter-4")),
        Expect(Check::Failed),
    ]);
    steps
}

/// The script of [`test_delete_instance_bulk_safety_and_limits`].
pub open spec fn delete_instance_bulk_safety_and_limits_steps() -> Seq<Step> {
    seq![Do(Management)] + steps::completed_instance_created("bulk-del-safe-completed-1")
        + steps::completed_instance_created("bulk-del-safe-completed-2")
        + steps::instance_created("bulk-del-safe-running-1")
        + steps::instance_created("bulk-del-safe-running-2") + seq![
        AddId("bulk-del-safe-completed-1"),
        AddId("bulk-del-safe-completed-2"),
        AddId("bulk-del-safe-running-1"),
        AddId("bulk-del-safe-running-2"),
        Do(DeleteMatching(true, None, None)),
        number_is(Num::InstancesDeleted, 2),
        Do(InstanceInfo("bulk-del-safe-running-1")),
        Do(InstanceInfo("bulk-del-safe-running-2")),
    ] + steps::completed_instance_created("bulk-del-batch-0")
        + steps::completed_instance_created("bulk-del-batch-1")
        + steps::completed_instance_created("bulk-del-batch-2")
        + steps::completed_instance_created("bulk-del-batch-3") + seq![
        Do(DeleteMatching(false, None, Some(2))),
        number_is(Num::InstancesDeleted, 2),
        Do(DeleteMatching(false, None, Some(2))),
        number_is(Num::InstancesDeleted, 2),
        Do(DeleteMatching(false, None, Some(2))),
        number_is(Num::InstancesDeleted, 0),
    ]
}

/// Bulk deletion passes over instances that run, and keeps to its limit.
pub fn test_delete_instance_bulk_safety_and_limits() -> (r: Vec<Step>)
    ensures
        r@ == delete_instance_bulk_safety_and_limits_steps(),
{
    let mut steps = vec![Do(Management)];
    steps = chain(steps, steps::create_completed_instance("bulk-del-safe-completed-1"));
    steps = chain(steps, steps::create_completed_instance("bulk-del-safe-completed-2"));
    steps = chain(steps, steps::create_instance("bulk-del-safe-running-1"));
    steps = chain(steps, steps::create_instance("bulk-del-safe-running-2"));
    steps = chain(steps, vec![
        AddId("bulk-del-safe-completed-1"),
        AddId("bulk-del-safe-completed-2"),
        AddId("bulk-del-safe-running-1"),
        AddId("bulk-del-safe-running-2"),
        Do(DeleteMatching(true, None, None)),
        number_is(Num::InstancesDeleted, 2),
        Do(InstanceInfo("bulk-del-safe-running-1")),
        Do(InstanceInfo("bulk-del-safe-running-2")),
    ]);
    steps = chain(steps, steps::create_completed_instance("bulk-del-batch-0"));
    steps = chain(steps, steps::create_completed_instance("bulk-del-batch-1"));
    steps = chain(steps, steps::create_completed_instance("bulk-del-batch-2"));
    steps = chain(steps, steps::create_completed_instance("bulk-del-batch-3"));
    steps = chain(steps, vec![
        Do(DeleteMatching(false, None, Some(2))),
        number_is(Num::InstancesDeleted, 2),
        Do(DeleteMatching(false, None, Some(2))),
        number_is(Num::InstancesDeleted, 2),
        Do(DeleteMatching(false, None, Some(2))),
        number_is(Num::InstancesDeleted, 0),
    ]);
    steps
}

/// The script of [`test_delete_instance_bulk_completed_before_filter`].
pub open spec fn delete_instance_bulk_completed_before_filter_steps() -> Seq<Step> {
    seq![
        Do(Management),
        Do(Clock),
        Save(0, Num::Clock),
        Do(Sleep(millis(10))),
    ] + steps::completed_instance_created("bulk-del-time-1")
        + steps::completed_instance_created("bulk-del-time-2") + seq![
        Do(Sleep(millis(10))),
        Do(Clock),
        Save(1, Num::Clock),
        AddId("bulk-del-time-1"),
        AddId("bulk-del-time-2"),
        Do(DeleteMatching(true, Some(0), None)),
        number_is(Num::InstancesDeleted, 0),
        Do(InstanceInfo("bulk-del-time-1")),
        Do(InstanceInfo("bulk-del-time-2")),
        AddId("bulk-del-time-1"),
        AddId("bulk-del-time-2"),
        Do(DeleteMatching(true, Some(1), None)),
        number_is(Num::InstancesDeleted, 2),
        Try(InstanceInfo("bulk-del-time-1")),
        Expect(Check::Failed),
        Try(InstanceInfo("bulk-del-time-2")),
        Expect(Check::Failed),
    ]
}

/// Bulk deletion selects the instances that completed before a time.
pub fn test_delete_instance_bulk_completed_before_filter() -> (r: Vec<Step>)
    ensures
        r@ == delete_instance_bulk_completed_before_filter_steps(),
{
    let mut steps = vec![
        Do(Management),
        Do(Clock),
        Save(0, Num::Clock),
        Do(Sleep(millis(10))),
    ];
    steps = chain(steps, steps::create_completed_instance("bulk-del-time-1"));
    steps = chain(steps, steps::create_completed_instance("bulk-del-time-2"));
    steps = chain(steps, vec![
        Do(Sleep(millis(10))),
        Do(Clock),
        Save(1, Num::Clock),
        AddId("bulk-del-time-1"),
        AddId("bulk-del-time-2"),
        Do(DeleteMatching(true, Some(0), None)),
        number_is(Num::InstancesDeleted, 0),
        Do(InstanceInfo("bulk-del-time-1")),
        Do(InstanceInfo("bulk-del-time-2")),
        AddId("bulk-del-time-1"),
        AddId("bulk-del-time-2"),
        Do(DeleteMatching(true, Some(1), None)),
        number_is(Num::InstancesDeleted, 2),
        Try(InstanceInfo("bulk-del-time-1")),
        Expect(Check::Failed),
        Try(InstanceInfo("bulk-del-time-2")),
        Expect(Check::Failed),
    ]);
    steps
}

/// The script of [`test_delete_instance_bulk_cascades_to_children`].
pub open spec fn delete_instance_bulk_cascades_to_children_steps() -> Seq<Step> {
    seq![Do(Management)] + steps::completed_instance_created("bulk-del-cascade-parent1")
        + steps::completed_child_created("bulk-del-cascade-child1", "bulk-del-cascade-parent1")
        + steps::completed_instance_created("bulk-del-cascade-parent2")
        + steps::completed_child_created("bulk-del-cascade-child2a", "bulk-del-cascade-parent2")
        + steps::completed_child_created("bulk-del-cascade-child2b", "bulk-del-cascade-parent2")
        + steps::completed_child_created("bulk-del-cascade-child2c", "bulk-del-cascade-parent2")
        + steps::completed_instance_created("bulk-del-cascade-standalone") + seq![
        Do(InstanceInfo("bulk-del-cascade-parent1")),
        Do(InstanceInfo("bulk-del-cascade-child1")),
        Do(InstanceInfo("bulk-del-cascade-parent2")),
        Do(InstanceInfo("bulk-del-cascade-child2a")),
        Do(InstanceInfo("bulk-del-cascade-child2b")),
        Do(InstanceInfo("bulk-del-cascade-child2c")),
        Do(InstanceInfo("bulk-del-cascade-standalone")),
        AddId("bulk-del-cascade-parent1"),
        AddId("bulk-del-cascade-parent2"),
        AddId("bulk-del-cascade-standalone"),
        Do(DeleteMatching(true, None, None)),
        number_is(Num::InstancesDeleted, 7),
        Try(InstanceInfo("bulk-del-cascade-parent1")),
        Expect(Check::Failed),
        Try(InstanceInfo("bulk-del-cascade-child1")),
        Expect(Check::Failed),
        Try(InstanceInfo("bulk-del-cascade-parent2")),
        Expect(Check::Failed),
        Try(InstanceInfo("bulk-del-cascade-child2a")),
        Expect(Check::Failed),
        Try(InstanceInfo("bulk-del-cascade-child2b")),
        Expect(Check::Failed),
        Try(InstanceInfo("bulk-del-cascade-child2c")),
        Expect(Check::Failed),
        Try(InstanceInfo("bulk-del-cascade-standalone")),
        Expect(Check::Failed),
    ]
}

/// Bulk deletion takes the descendants of what it selects.
pub fn test_delete_instance_bulk_cascades_to_children() -> (r: Vec<Step>)
    ensures
        r@ == delete_instance_bulk_cascades_to_children_steps(),
{
    let mut steps = vec![Do(Management)];
    steps = chain(steps, steps::create_completed_instance("bulk-del-cascade-parent1"));
    steps = chain(steps, steps::create_completed_instance_with_parent(
                              "bulk-del-cascade-child1",
                              "bulk-del-cascade-parent1",
                          ));
    steps = chain(steps, steps::create_completed_instance("bulk-del-cascade-parent2"));
    steps = chain(steps, steps::create_completed_instance_with_parent(
                              "bulk-del-cascade-child2a",
                              "bulk-del-cascade-parent2",
                          ));
    steps = chain(steps, steps::create_completed_instance_with_parent(
                              "bulk-del-cascade-child2b",
                              "bulk-del-cascade-parent2",
                          ));
    steps = chain(steps, steps::create_completed_instance_with_parent(
                              "bulk-del-cascade-child2c",
                              "bulk-del-cascade-parent2",
                          ));
    steps = chain(steps, steps::create_completed_instance("bulk-del-cascade-standalone"));
    steps = chain(steps, vec![
        Do(InstanceInfo("bulk-del-cascade-parent1")),
        Do(InstanceInfo("bulk-del-cascade-child1")),
        Do(InstanceInfo("bulk-del-cascade-parent2")),
        Do(InstanceInfo("bulk-del-cascade-child2a")),
        Do(InstanceInfo("bulk-del-cascade-child2b")),
        Do(InstanceInfo("bulk-del-cascade-child2c")),
        Do(InstanceInfo("bulk-del-cascade-standalone")),
        AddId("bulk-del-cascade-parent1"),
        AddId("bulk-del-cascade-parent2"),
        AddId("bulk-del-cascade-standalone"),
        Do(DeleteMatching(true, None, None)),
        number_is(Num::InstancesDeleted, 7),
        Try(InstanceInfo("bulk-del-cascade-parent1")),
        Expect(Check::Failed),
        Try(InstanceInfo("bulk-del-cascade-child1")),
        Expect(Check::Failed),
        Try(InstanceInfo("bulk-del-cascade-parent2")),
        Expect(Check::Failed),
        Try(InstanceInfo("bulk-del-cascade-child2a")),
        Expect(Check::Failed),
        Try(InstanceInfo("bulk-del-cascade-child2b")),
        Expect(Check::Failed),
        Try(InstanceInfo("bulk-del-cascade-child2c")),
        Expect(Check::Failed),
        Try(InstanceInfo("bulk-del-cascade-standalone")),
        Expect(Check::Failed),
    ]);
    steps
}

/// What the store did in a run that passes [`test_delete_instance_bulk_filter_combinations`].
pub proof fn law_passing_delete_instance_bulk_filter_combinations(
    script: Vec<Step>,
    states: Seq<RunModel>,
)
    requires
        call_ensures(test_delete_instance_bulk_filter_combinations, (), script),
        runner::passing(states, script@),
    ensures
        states.len() == 48,
        runner::passed(states, 0, Do(Management)),
        runner::passed(states, 28, Do(DeleteMatching(true, None, None))),
        runner::passed(states, 29, number_is(Num::InstancesDeleted, 2)),
        runner::passed(states, 30, Try(InstanceInfo("bulk-del-filter-0"))),
        runner::passed(states, 31, Expect(Check::Failed)),
        runner::passed(states, 32, Try(InstanceInfo("bulk-del-filter-1"))),
        runner::passed(states, 33, Expect(Check::Failed)),
        runner::passed(states, 34, Do(InstanceInfo("bulk-del-filter-2"))),
        runner::passed(states, 37, Do(DeleteMatching(true, None, None))),
        runner::passed(states, 38, number_is(Num::InstancesDeleted, 0)),
        runner::passed(states, 39, Do(DeleteMatching(false, None, None))),
        runner::passed(states, 40, at_least(Num::InstancesDeleted, 3)),
        runner::passed(states, 41, Try(InstanceInfo("bulk-del-filter-2"))),
        runner::passed(states, 42, Expect(Check::Failed)),
        runner::passed(states, 43, Try(InstanceInfo("bulk-del-filter-3"))),
        runner::passed(states, 44, Expect(Check::Failed)),
        runner::passed(states, 45, Try(InstanceInfo("bulk-del-filter-4"))),
        runner::passed(states, 46, Expect(Check::Failed)),
{
    runner::lemma_passed(states, script@);
}

/// What the store did in a run that passes [`test_delete_instance_bulk_safety_and_limits`].
pub proof fn law_passing_delete_instance_bulk_safety_and_limits(
    script: Vec<Step>,
    states: Seq<RunModel>,
)
    requires
        call_ensures(test_delete_instance_bulk_safety_and_limits, (), script),
        runner::passing(states, script@),
    ensures
        states.len() == 56,
        runner::passed(states, 0, Do(Management)),
        runner::passed(states, 25, Do(DeleteMatching(true, None, None))),
        runner::passed(states, 26, number_is(Num::InstancesDeleted, 2)),
        runner::passed(states, 27, Do(InstanceInfo("bulk-del-safe-running-1"))),
        runner::passed(states, 28, Do(InstanceInfo("bulk-del-safe-running-2"))),
        runner::passed(states, 49, Do(DeleteMatching(false, None, Some(2)))),
        runner::passed(states, 50, number_is(Num::InstancesDeleted, 2)),
        runner::passed(states, 51, Do(DeleteMatching(false, None, Some(2)))),
        runner::passed(states, 52, number_is(Num::InstancesDeleted, 2)),
        runner::passed(states, 53, Do(DeleteMatching(false, None, Some(2)))),
        runner::passed(states, 54, number_is(Num::InstancesDeleted, 0)),
{
    runner::lemma_passed(states, script@);
}

/// What the store did in a run that passes [`test_delete_instance_bulk_completed_before_filter`].
pub proof fn law_passing_delete_instance_bulk_completed_before_filter(
    script: Vec<Step>,
    states: Seq<RunModel>,
)
    requires
        call_ensures(test_delete_instance_bulk_completed_before_filter, (), script),
        runner::passing(states, script@),
    ensures
        states.len() == 32,
        runner::passed(states, 0, Do(Management)),
        runner::passed(states, 1, Do(Clock)),
        runner::passed(states, 3, Do(Sleep(millis(10)))),
        runner::passed(states, 14, Do(Sleep(millis(10)))),
        runner::passed(states, 15, Do(Clock)),
        runner::passed(states, 19, Do(DeleteMatching(true, Some(0), None))),
        runner::passed(states, 20, number_is(Num::InstancesDeleted, 0)),
        runner::passed(states, 21, Do(InstanceInfo("bulk-del-time-1"))),
        runner::passed(states, 22, Do(InstanceInfo("bulk-del-time-2"))),
        runner::passed(states, 25, Do(DeleteMatching(true, Some(1), None))),
        runner::passed(states, 26, number_is(Num::InstancesDeleted, 2)),
        runner::passed(states, 27, Try(InstanceInfo("bulk-del-time-1"))),
        runner::passed(states, 28, Expect(Check::Failed)),
        runner::passed(states, 29, Try(InstanceInfo("bulk-del-time-2"))),
        runner::passed(states, 30, Expect(Check::Failed)),
{
    runner::lemma_passed(states, script@);
}

/// What the store did in a run that passes [`test_delete_instance_bulk_cascades_to_children`].
pub proof fn law_passing_delete_instance_bulk_cascades_to_children(
    script: Vec<Step>,
    states: Seq<RunModel>,
)
    requires
        call_ensures(test_delete_instance_bulk_cascades_to_children, (), script),
        runner::passing(states, script@),
    ensures
        states.len() == 63,
        runner::passed(states, 0, Do(Management)),
        runner::passed(states, 36, Do(InstanceInfo("bulk-del-cascade-parent1"))),
        runner::passed(states, 37, Do(InstanceInfo("bulk-del-cascade-child1"))),
        runner::passed(states, 38, Do(InstanceInfo("bulk-del-cascade-parent2"))),
        runner::passed(states, 39, Do(InstanceInfo("bulk-del-cascade-child2a"))),
        runner::passed(states, 40, Do(InstanceInfo("bulk-del-cascade-child2b"))),
        runner::passed(states, 41, Do(InstanceInfo("bulk-del-cascade-child2c"))),
        runner::passed(states, 42, Do(InstanceInfo("bulk-del-cascade-standalone"))),
        runner::passed(states, 46, Do(DeleteMatching(true, None, None))),
        runner::passed(states, 47, number_is(Num::InstancesDeleted, 7)),
        runner::passed(states, 48, Try(InstanceInfo("bulk-del-cascade-parent1"))),
        runner::passed(states, 49, Expect(Check::Failed)),
        runner::passed(states, 50, Try(InstanceInfo("bulk-del-cascade-child1"))),
        runner::passed(states, 51, Expect(Check::Failed)),
        runner::passed(states, 52, Try(InstanceInfo("bulk-del-cascade-parent2"))),
        runner::passed(states, 53, Expect(Check::Failed)),
        runner::passed(states, 54, Try(InstanceInfo("bulk-del-cascade-child2a"))),
        runner::passed(states, 55, Expect(Check::Failed)),
        runner::passed(states, 56, Try(InstanceInfo("bulk-del-cascade-child2b"))),
        runner::passed(states, 57, Expect(Check::Failed)),
        runner::passed(states, 58, Try(InstanceInfo("bulk-del-cascade-child2c"))),
        runner::passed(states, 59, Expect(Check::Failed)),
        runner::passed(states, 60, Try(InstanceInfo("bulk-del-cascade-standalone"))),
        runner::passed(states, 61, Expect(Check::Failed)),
{
    runner::lemma_passed(states, script@);
}

} // verus!
