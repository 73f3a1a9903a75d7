//! Whether old executions are pruned.
use crate::provider_validation::runner::{self, RunModel};
use crate::provider_validation::script::Call::{
    InstanceInfo, ListExecutions, Management, Prune, PruneListed,
};
use crate::provider_validation::script::Step::{AddId, Do, Expect, Pick, Save, Shelve, Try};
use crate::provider_validation::script::{
    at_least, chain, number_is, text_is, Check, Num, Operand, Rel, Step, Txt,
};
use crate::provider_validation::steps;
use vstd::prelude::*;

verus! {

/// The script of [`test_prune_options_combinations`].
pub open spec fn prune_options_combinations_steps() -> Seq<Step> {
    seq![Do(Management)] + steps::executions_created("prune-options-test", "TestOrch", 4, "Completed") + seq![
        Do(ListExecutions("prune-options-test")),
        number_is(Num::Executions, 4),
        Do(Prune("prune-options-test", Some(2))),
        number_is(Num::InstancesProcessed, 1),
        Do(ListExecutions("prune-options-test")),
        number_is(Num::Executions, 2),
        Expect(Check::HasExecution(3, 4)),
    ] + steps::executions_created("prune-options-empty", "TestOrch", 3, "Completed") + seq![
        Do(InstanceInfo("prune-options-empty")),
        Save(0, Num::InfoExecution),
        Do(Prune("prune-options-empty", None)),
        Do(ListExecutions("prune-options-empty")),
        number_is(Num::Executions, 1),
        Expect(Check::Number(Num::FirstExecution, Rel::Is, Operand::Saved(0))),
    ]
}

/// Pruning keeps the last executions; without options it keeps the current one
/// alone.
pub fn test_prune_options_combinations() -> (r: Vec<Step>)
    ensures
        r@ == prune_options_combinations_steps(),
{
    let mut steps = vec![Do(Management)];
    steps = chain(steps, steps::create_multi_execution_instance("prune-options-test", 4));
    steps = chain(steps, vec![
        Do(ListExecutions("prune-options-test")),
        number_is(Num::Executions, 4),
        Do(Prune("prune-options-test", Some(2))),
        number_is(Num::InstancesProcessed, 1),
        Do(ListExecutions("prune-options-test")),
        number_is(Num::Executions, 2),
        Expect(Check::HasExecution(3, 4)),
    ]);
    steps = chain(steps, steps::create_multi_execution_instance("prune-options-empty", 3));
    steps = chain(steps, vec![
        Do(InstanceInfo("prune-options-empty")),
        Save(0, Num::InfoExecution),
        Do(Prune("prune-options-empty", None)),
        Do(ListExecutions("prune-options-empty")),
        number_is(Num::Executions, 1),
        Expect(Check::Number(Num::FirstExecution, Rel::Is, Operand::Saved(0))),
    ]);
    steps
}

/// The script of [`test_prune_safety`].
pub open spec fn prune_safety_steps() -> Seq<Step> {
    seq![Do(Management)] + steps::executions_created("prune-safety-current", "TestOrch", 3, "Completed") + seq![
        Do(Prune("prune-safety-current", Some(0))),
        Do(InstanceInfo("prune-safety-current")),
        number_is(Num::InfoExecution, 3),
        Try(Prune("does-not-exist-prune", Some(1))),
        Expect(Check::Failed),
    ] + steps::executions_created("prune-terminal-none", "TestOrch", 4, "Completed") + seq![
        Do(InstanceInfo("prune-terminal-none")),
        text_is(Txt::InfoStatus, "Completed"),
        Save(0, Num::InfoExecution),
        Do(Prune("prune-terminal-none", None)),
        Shelve,
        Do(ListExecutions("prune-terminal-none")),
        number_is(Num::Executions, 1),
        Expect(Check::Number(Num::FirstExecution, Rel::Is, Operand::Saved(0))),
        Pick(0),
        at_least(Num::ExecutionsPruned, 3),
    ] + steps::executions_created("prune-terminal-some0", "TestOrch", 4, "Completed") + seq![
        Do(InstanceInfo("prune-terminal-some0")),
        text_is(Txt::InfoStatus, "Completed"),
        Save(0, Num::InfoExecution),
        Do(Prune("prune-terminal-some0", Some(0))),
        Shelve,
        Do(ListExecutions("prune-terminal-some0")),
        number_is(Num::Executions, 1),
        Expect(Check::Number(Num::FirstExecution, Rel::Is, Operand::Saved(0))),
        Pick(1),
        at_least(Num::ExecutionsPruned, 3),
    ] + steps::executions_created("prune-terminal-some1", "TestOrch", 4, "Completed") + seq![
        Do(InstanceInfo("prune-terminal-some1")),
        text_is(Txt::InfoStatus, "Completed"),
        Save(0, Num::InfoExecution),
        Do(Prune("prune-terminal-some1", Some(1))),
        Shelve,
        Do(ListExecutions("prune-terminal-some1")),
        number_is(Num::Executions, 1),
        Expect(Check::Number(Num::FirstExecution, Rel::Is, Operand::Saved(0))),
        Pick(2),
        at_least(Num::ExecutionsPruned, 3),
    ]
}

/// The current execution is never pruned, and an unknown instance cannot be.
pub fn test_prune_safety() -> (r: Vec<Step>)
    ensures
        r@ == prune_safety_steps(),
{
    let mut steps = vec![Do(Management)];
    steps = chain(steps, steps::create_multi_execution_instance("prune-safety-current", 3));
    steps = chain(steps, vec![
        Do(Prune("prune-safety-current", Some(0))),
        Do(InstanceInfo("prune-safety-current")),
        number_is(Num::InfoExecution, 3),
        Try(Prune("does-not-exist-prune", Some(1))),
        Expect(Check::Failed),
    ]);
    steps = chain(steps, steps::create_multi_execution_instance("prune-terminal-none", 4));
    steps = chain(steps, vec![
        Do(InstanceInfo("prune-terminal-none")),
        text_is(Txt::InfoStatus, "Completed"),
        Save(0, Num::InfoExecution),
        Do(Prune("prune-terminal-none", None)),
        Shelve,
        Do(ListExecutions("prune-terminal-none")),
        number_is(Num::Executions, 1),
        Expect(Check::Number(Num::FirstExecution, Rel::Is, Operand::Saved(0))),
        Pick(0),
        at_least(Num::ExecutionsPruned, 3),
    ]);
    steps = chain(steps, steps::create_multi_execution_instance("prune-terminal-some0", 4));
    steps = chain(steps, vec![
        Do(InstanceInfo("prune-terminal-some0")),
        text_is(Txt::InfoStatus, "Completed"),
        Save(0, Num::InfoExecution),
        Do(Prune("prune-terminal-some0", Some(0))),
        Shelve,
        Do(ListExecutions("prune-terminal-some0")),
        number_is(Num::Executions, 1),
        Expect(Check::Number(Num::FirstExecution, Rel::Is, Operand::Saved(0))),
        Pick(1),
        at_least(Num::ExecutionsPruned, 3),
    ]);
    steps = chain(steps, steps::create_multi_execution_instance("prune-terminal-some1", 4));
    steps = chain(steps, vec![
        Do(InstanceInfo("prune-terminal-some1")),
        text_is(Txt::InfoStatus, "Completed"),
        Save(0, Num::InfoExecution),
        Do(Prune("prune-terminal-some1", Some(1))),
        Shelve,
        Do(ListExecutions("prune-terminal-some1")),
        number_is(Num::Executions, 1),
        Expect(Check::Number(Num::FirstExecution, Rel::Is, Operand::Saved(0))),
        Pick(2),
        at_least(Num::ExecutionsPruned, 3),
    ]);
    steps
}

/// The script of [`test_prune_bulk`].
pub open spec fn prune_bulk_steps() -> Seq<Step> {
    seq![Do(Management)] + steps::executions_created("prune-bulk-0", "TestOrch", 4, "Completed")
        + steps::executions_created("prune-bulk-1", "TestOrch", 4, "Completed")
        + steps::executions_created("prune-bulk-2", "TestOrch", 4, "Completed") + seq![
        AddId("prune-bulk-0"),
        AddId("prune-bulk-1"),
        Do(PruneListed(Some(1))),
        number_is(Num::InstancesProcessed, 2),
        at_least(Num::ExecutionsPruned, 4),
        Do(ListExecutions("prune-bulk-0")),
        number_is(Num::Executions, 1),
        Do(ListExecutions("prune-bulk-1")),
        number_is(Num::Executions, 1),
        Do(ListExecutions("prune-bulk-2")),
        number_is(Num::Executions, 4),
    ]
}

/// Bulk pruning goes by the listed instances.
pub fn test_prune_bulk() -> (r: Vec<Step>)
    ensures
        r@ == prune_bulk_steps(),
{
    let mut steps = vec![Do(Management)];
    steps = chain(steps, steps::create_multi_execution_instance("prune-bulk-0", 4));
    steps = chain(steps, steps::create_multi_execution_instance("prune-bulk-1", 4));
    steps = chain(steps, steps::create_multi_execution_instance("prune-bulk-2", 4));
    steps = chain(steps, vec![
        AddId("prune-bulk-0"),
        AddId("prune-bulk-1"),
        Do(PruneListed(Some(1))),
        number_is(Num::InstancesProcessed, 2),
        at_least(Num::ExecutionsPruned, 4),
        Do(ListExecutions("prune-bulk-0")),
        number_is(Num::Executions, 1),
        Do(ListExecutions("prune-bulk-1")),
        number_is(Num::Executions, 1),
        Do(ListExecutions("prune-bulk-2")),
        number_is(Num::Executions, 4),
    ]);
    steps
}

/// The script of [`test_prune_bulk_includes_running_instances`].
pub open spec fn prune_bulk_includes_running_instances_steps() -> Seq<Step> {
    seq![Do(Management)] + steps::executions_created("prune-running-inst", "LongRunning", 3, "Running") + seq![
        Do(ListExecutions("prune-running-inst")),
        number_is(Num::Executions, 3),
        Do(InstanceInfo("prune-running-inst")),
        text_is(Txt::InfoStatus, "Running"),
        number_is(Num::InfoExecution, 3),
        AddId("prune-running-inst"),
        Do(PruneListed(Some(1))),
        number_is(Num::InstancesProcessed, 1),
        number_is(Num::ExecutionsPruned, 2),
        Do(ListExecutions("prune-running-inst")),
        number_is(Num::Executions, 1),
        number_is(Num::FirstExecution, 3),
        Do(InstanceInfo("prune-running-inst")),
        text_is(Txt::InfoStatus, "Running"),
    ]
}

/// Bulk pruning takes instances that run, and leaves their current execution.
pub fn test_prune_bulk_includes_running_instances() -> (r: Vec<Step>)
    ensures
        r@ == prune_bulk_includes_running_instances_steps(),
{
    let mut steps = vec![Do(Management)];
    steps = chain(steps, steps::create_running_multi_execution_instance("prune-running-inst", 3));
    steps = chain(steps, vec![
        Do(ListExecutions("prune-running-inst")),
        number_is(Num::Executions, 3),
        Do(InstanceInfo("prune-running-inst")),
        text_is(Txt::InfoStatus, "Running"),
        number_is(Num::InfoExecution, 3),
        AddId("prune-running-inst"),
        Do(PruneListed(Some(1))),
        number_is(Num::InstancesProcessed, 1),
        number_is(Num::ExecutionsPruned, 2),
        Do(ListExecutions("prune-running-inst")),
        number_is(Num::Executions, 1),
        number_is(Num::FirstExecution, 3),
        Do(InstanceInfo("prune-running-inst")),
        text_is(Txt::InfoStatus, "Running"),
    ]);
    steps
}

/// What the store did in a run that passes [`test_prune_options_combinations`].
pub proof fn law_passing_prune_options_combinations(script: Vec<Step>, states: Seq<RunModel>)
    requires
        call_ensures(test_prune_options_combinations, (), script),
        runner::passing(states, script@),
    ensures
        states.len() == 50,
        runner::passed(states, 0, Do(Management)),
        runner::passed(states, 21, Do(ListExecutions("prune-options-test"))),
        runner::passed(states, 22, number_is(Num::Executions, 4)),
        runner::passed(states, 23, Do(Prune("prune-options-test", Some(2)))),
        runner::passed(states, 24, number_is(Num::InstancesProcessed, 1)),
        runner::passed(states, 25, Do(ListExecutions("prune-options-test"))),
        runner::passed(states, 26, number_is(Num::Executions, 2)),
        runner::passed(states, 27, Expect(Check::HasExecution(3, 4))),
        runner::passed(states, 43, Do(InstanceInfo("prune-options-empty"))),
        runner::passed(states, 45, Do(Prune("prune-options-empty", None))),
        runner::passed(states, 46, Do(ListExecutions("prune-options-empty"))),
        runner::passed(states, 47, number_is(Num::Executions, 1)),
        runner::passed(
            states,
            48,
            Expect(Check::Number(Num::FirstExecution, Rel::Is, Operand::Saved(0))),
        ),
{
    steps::lemma_executions_created("prune-options-test", "TestOrch", 4, "Completed");
    steps::lemma_executions_created("prune-options-empty", "TestOrch", 3, "Completed");
    runner::lemma_passed(states, script@);
}

/// What the store did in a run that passes [`test_prune_safety`].
pub proof fn law_passing_prune_safety(script: Vec<Step>, states: Seq<RunModel>)
    requires
        call_ensures(test_prune_safety, (), script),
        runner::passing(states, script@),
    ensures
        states.len() == 112,
        runner::passed(states, 0, Do(Management)),
        runner::passed(states, 16, Do(Prune("prune-safety-current", Some(0)))),
        runner::passed(states, 17, Do(InstanceInfo("prune-safety-current"))),
        runner::passed(states, 18, number_is(Num::InfoExecution, 3)),
        runner::passed(states, 19, Try(Prune("does-not-exist-prune", Some(1)))),
        runner::passed(states, 20, Expect(Check::Failed)),
        runner::passed(states, 41, Do(InstanceInfo("prune-terminal-none"))),
        runner::passed(states, 42, text_is(Txt::InfoStatus, "Completed")),
        runner::passed(states, 44, Do(Prune("prune-terminal-none", None))),
        runner::passed(states, 46, Do(ListExecutions("prune-terminal-none"))),
        runner::passed(states, 47, number_is(Num::Executions, 1)),
        runner::passed(
            states,
            48,
            Expect(Check::Number(Num::FirstExecution, Rel::Is, Operand::Saved(0))),
        ),
        runner::passed(states, 50, at_least(Num::ExecutionsPruned, 3)),
        runner::passed(states, 71, Do(InstanceInfo("prune-terminal-some0"))),
        runner::passed(states, 72, text_is(Txt::InfoStatus, "Completed")),
        runner::passed(states, 74, Do(Prune("prune-terminal-some0", Some(0)))),
        runner::passed(states, 76, Do(ListExecutions("prune-terminal-some0"))),
        runner::passed(states, 77, number_is(Num::Executions, 1)),
        runner::passed(
            states,
            78,
            Expect(Check::Number(Num::FirstExecution, Rel::Is, Operand::Saved(0))),
        ),
        runner::passed(states, 80, at_least(Num::ExecutionsPruned, 3)),
        runner::passed(states, 101, Do(InstanceInfo("prune-terminal-some1"))),
        runner::passed(states, 102, text_is(Txt::InfoStatus, "Completed")),
        runner::passed(states, 104, Do(Prune("prune-terminal-some1", Some(1)))),
        runner::passed(states, 106, Do(ListExecutions("prune-terminal-some1"))),
        runner::passed(states, 107, number_is(Num::Executions, 1)),
        runner::passed(
            states,
            108,
            Expect(Check::Number(Num::FirstExecution, Rel::Is, Operand::Saved(0))),
        ),
        runner::passed(states, 110, at_least(Num::ExecutionsPruned, 3)),
{
    steps::lemma_executions_created("prune-safety-current", "TestOrch", 3, "Completed");
    steps::lemma_executions_created("prune-terminal-none", "TestOrch", 4, "Completed");
    steps::lemma_executions_created("prune-terminal-some0", "TestOrch", 4, "Completed");
    steps::lemma_executions_created("prune-terminal-some1", "TestOrch", 4, "Completed");
    runner::lemma_passed(states, script@);
}

/// What the store did in a run that passes [`test_prune_bulk`].
pub proof fn law_passing_prune_bulk(script: Vec<Step>, states: Seq<RunModel>)
    requires
        call_ensures(test_prune_bulk, (), script),
        runner::passing(states, script@),
    ensures
        states.len() == 73,
        runner::passed(states, 0, Do(Management)),
        runner::passed(states, 63, Do(PruneListed(Some(1)))),
        runner::passed(states, 64, number_is(Num::InstancesProcessed, 2)),
        runner::passed(states, 65, at_least(Num::ExecutionsPruned, 4)),
        runner::passed(states, 66, Do(ListExecutions("prune-bulk-0"))),
        runner::passed(states, 67, number_is(Num::Executions, 1)),
        runner::passed(states, 68, Do(ListExecutions("prune-bulk-1"))),
        runner::passed(states, 69, number_is(Num::Executions, 1)),
        runner::passed(states, 70, Do(ListExecutions("prune-bulk-2"))),
        runner::passed(states, 71, number_is(Num::Executions, 4)),
{
    steps::lemma_executions_created("prune-bulk-0", "TestOrch", 4, "Completed");
    steps::lemma_executions_created("prune-bulk-1", "TestOrch", 4, "Completed");
    steps::lemma_executions_created("prune-bulk-2", "TestOrch", 4, "Completed");
    runner::lemma_passed(states, script@);
}

/// What the store did in a run that passes [`test_prune_bulk_includes_running_instances`].
pub proof fn law_passing_prune_bulk_includes_running_instances(
    script: Vec<Step>,
    states: Seq<RunModel>,
)
    requires
        call_ensures(test_prune_bulk_includes_running_instances, (), script),
        runner::passing(states, script@),
    ensures
        states.len() == 31,
        runner::passed(states, 0, Do(Management)),
        runner::passed(states, 16, Do(ListExecutions("prune-running-inst"))),
        runner::passed(states, 17, number_is(Num::Executions, 3)),
        runner::passed(states, 18, Do(InstanceInfo("prune-running-inst"))),
        runner::passed(states, 19, text_is(Txt::InfoStatus, "Running")),
        runner::passed(states, 20, number_is(Num::InfoExecution, 3)),
        runner::passed(states, 22, Do(PruneListed(Some(1)))),
        runner::passed(states, 23, number_is(Num::InstancesProcessed, 1)),
        runner::passed(states, 24, number_is(Num::ExecutionsPruned, 2)),
        runner::passed(states, 25, Do(ListExecutions("prune-running-inst"))),
        runner::passed(states, 26, number_is(Num::Executions, 1)),
        runner::passed(states, 27, number_is(Num::FirstExecution, 3)),
        runner::passed(states, 28, Do(InstanceInfo("prune-running-inst"))),
        runner::passed(states, 29, text_is(Txt::InfoStatus, "Running")),
{
    steps::lemma_executions_created("prune-running-inst", "LongRunning", 3, "Running");
    runner::lemma_passed(states, script@);
}

} // verus!
