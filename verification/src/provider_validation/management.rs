//! Whether instances are listed, described and counted.
use crate::provider_validation::reply;
use crate::provider_validation::runner::{self, RunModel};
use crate::provider_validation::script::Call::{
    Ack, Depths, ExecutionInfo, InstanceInfo, ListByStatus, ListExecutions, ListInstances,
    Management, Metrics, Put, Stats,
};
use crate::provider_validation::script::Step::{Do, Expect, Save, Take};
use crate::provider_validation::script::Token::Held;
use crate::provider_validation::script::{
    at_least, chain, event, metadata, number_is, start_item, started, text_is, turn, Check, Fact,
    Item, Num, Operand, Rel, Step, Txt,
};
use crate::provider_validation::steps;
use vstd::prelude::*;

verus! {

/// The script of [`test_list_instances`].
pub open spec fn list_instances_steps() -> Seq<Step> {
    seq![Do(Management)] + steps::instance_created("mgmt-inst-0")
        + steps::instance_created("mgmt-inst-1")
        + steps::instance_created("mgmt-inst-2") + seq![
        Do(ListInstances),
        at_least(Num::Names, 3),
        Expect(Check::Has("mgmt-inst-0")),
        Expect(Check::Has("mgmt-inst-1")),
        Expect(Check::Has("mgmt-inst-2")),
    ]
}

/// All instances are listed.
pub fn test_list_instances() -> (r: Vec<Step>)
    ensures
        r@ == list_instances_steps(),
{
    let mut steps = vec![Do(Management)];
    steps = chain(steps, steps::create_instance("mgmt-inst-0"));
    steps = chain(steps, steps::create_instance("mgmt-inst-1"));
    steps = chain(steps, steps::create_instance("mgmt-inst-2"));
    steps = chain(steps, vec![
        Do(ListInstances),
        at_least(Num::Names, 3),
        Expect(Check::Has("mgmt-inst-0")),
        Expect(Check::Has("mgmt-inst-1")),
        Expect(Check::Has("mgmt-inst-2")),
    ]);
    steps
}

/// The script of [`test_list_instances_by_status`].
pub open spec fn list_instances_by_status_steps() -> Seq<Step> {
    seq![
        Do(Management),
        Do(Put(start_item("mgmt-completed"))),
        Take(turn(), 0),
        event(1, "mgmt-completed", 1, started("TestOrch", "1.0.0")),
        metadata(Some("Completed"), Some("done"), Some("TestOrch"), Some("1.0.0")),
        Do(Ack(Held(0), 1)),
        Do(ListByStatus("Completed")),
        Expect(Check::Has("mgmt-completed")),
    ]
}

/// Instances are listed by their status.
pub fn test_list_instances_by_status() -> (r: Vec<Step>)
    ensures
        r@ == list_instances_by_status_steps(),
{
    vec![
        Do(Management),
        Do(Put(start_item("mgmt-completed"))),
        Take(turn(), 0),
        event(1, "mgmt-completed", 1, started("TestOrch", "1.0.0")),
        metadata(Some("Completed"), Some("done"), Some("TestOrch"), Some("1.0.0")),
        Do(Ack(Held(0), 1)),
        Do(ListByStatus("Completed")),
        Expect(Check::Has("mgmt-completed")),
    ]
}

/// The script of [`test_list_executions`].
pub open spec fn list_executions_steps() -> Seq<Step> {
    seq![
        Do(Management),
        Do(Put(start_item("mgmt-multi-exec"))),
        Take(turn(), 0),
        event(1, "mgmt-multi-exec", 1, started("TestOrch", "1.0.0")),
        Do(Ack(Held(0), 1)),
        Do(ListExecutions("mgmt-multi-exec")),
        Expect(Check::HasExecution(1, 1)),
    ]
}

/// The executions of an instance are listed.
pub fn test_list_executions() -> (r: Vec<Step>)
    ensures
        r@ == list_executions_steps(),
{
    vec![
        Do(Management),
        Do(Put(start_item("mgmt-multi-exec"))),
        Take(turn(), 0),
        event(1, "mgmt-multi-exec", 1, started("TestOrch", "1.0.0")),
        Do(Ack(Held(0), 1)),
        Do(ListExecutions("mgmt-multi-exec")),
        Expect(Check::HasExecution(1, 1)),
    ]
}

/// The script of [`test_get_instance_info`].
pub open spec fn get_instance_info_steps() -> Seq<Step> {
    seq![
        Do(Management),
        Do(Put(start_item("mgmt-info"))),
        Take(turn(), 0),
        event(1, "mgmt-info", 1, Fact::Started("InfoOrch", "2.0.0", "test", None, None)),
        metadata(None, None, Some("InfoOrch"), Some("2.0.0")),
        Do(Ack(Held(0), 1)),
        Do(InstanceInfo("mgmt-info")),
        text_is(Txt::InfoInstance, "mgmt-info"),
        text_is(Txt::InfoOrchestration, "InfoOrch"),
        text_is(Txt::InfoVersion, "2.0.0"),
        number_is(Num::InfoExecution, 1),
    ]
}

/// An instance is described by its metadata.
pub fn test_get_instance_info() -> (r: Vec<Step>)
    ensures
        r@ == get_instance_info_steps(),
{
    vec![
        Do(Management),
        Do(Put(start_item("mgmt-info"))),
        Take(turn(), 0),
        event(1, "mgmt-info", 1, Fact::Started("InfoOrch", "2.0.0", "test", None, None)),
        metadata(None, None, Some("InfoOrch"), Some("2.0.0")),
        Do(Ack(Held(0), 1)),
        Do(InstanceInfo("mgmt-info")),
        text_is(Txt::InfoInstance, "mgmt-info"),
        text_is(Txt::InfoOrchestration, "InfoOrch"),
        text_is(Txt::InfoVersion, "2.0.0"),
        number_is(Num::InfoExecution, 1),
    ]
}

/// The script of [`test_get_execution_info`].
pub open spec fn get_execution_info_steps() -> Seq<Step> {
    seq![
        Do(Management),
        Do(Put(start_item("mgmt-exec-info"))),
        Take(turn(), 0),
        event(1, "mgmt-bulk-del", 1, started("TestOrch", "1.0.0")),
        metadata(Some("Completed"), Some("result"), None, None),
        Do(Ack(Held(0), 1)),
        Do(ExecutionInfo("mgmt-exec-info", 1)),
        number_is(Num::ExecutionId, 1),
        text_is(Txt::ExecutionStatus, "Completed"),
        text_is(Txt::ExecutionOutput, "result"),
    ]
}

/// An execution is described by its status and output.
pub fn test_get_execution_info() -> (r: Vec<Step>)
    ensures
        r@ == get_execution_info_steps(),
{
    vec![
        Do(Management),
        Do(Put(start_item("mgmt-exec-info"))),
        Take(turn(), 0),
        event(1, "mgmt-bulk-del", 1, started("TestOrch", "1.0.0")),
        metadata(Some("Completed"), Some("result"), None, None),
        Do(Ack(Held(0), 1)),
        Do(ExecutionInfo("mgmt-exec-info", 1)),
        number_is(Num::ExecutionId, 1),
        text_is(Txt::ExecutionStatus, "Completed"),
        text_is(Txt::ExecutionOutput, "result"),
    ]
}

/// The script of [`test_get_system_metrics`].
pub open spec fn get_system_metrics_steps() -> Seq<Step> {
    seq![
        Do(Metrics),
        Save(0, Num::TotalInstances),
        Do(Put(start_item("mgmt-metrics"))),
        Take(turn(), 0),
        event(1, "mgmt-cancel", 1, started("TestOrch", "1.0.0")),
        metadata(None, None, Some("TestOrch"), Some("1.0.0")),
        Do(Ack(Held(0), 1)),
        Do(Metrics),
        Expect(Check::Number(Num::TotalInstances, Rel::MoreThan, Operand::Saved(0))),
        at_least(Num::TotalEvents, 1),
    ]
}

/// A new instance shows in the metrics.
pub fn test_get_system_metrics() -> (r: Vec<Step>)
    ensures
        r@ == get_system_metrics_steps(),
{
    vec![
        Do(Metrics),
        Save(0, Num::TotalInstances),
        Do(Put(start_item("mgmt-metrics"))),
        Take(turn(), 0),
        event(1, "mgmt-cancel", 1, started("TestOrch", "1.0.0")),
        metadata(None, None, Some("TestOrch"), Some("1.0.0")),
        Do(Ack(Held(0), 1)),
        Do(Metrics),
        Expect(Check::Number(Num::TotalInstances, Rel::MoreThan, Operand::Saved(0))),
        at_least(Num::TotalEvents, 1),
    ]
}

/// The script of [`test_get_queue_depths`].
pub open spec fn get_queue_depths_steps() -> Seq<Step> {
    seq![
        Do(Depths),
        Save(0, Num::OrchestratorQueue),
        Do(Put(start_item("mgmt-queue"))),
        Do(Depths),
        Expect(Check::Number(Num::OrchestratorQueue, Rel::MoreThan, Operand::Saved(0))),
    ]
}

/// A new message shows in the depth of the queue.
pub fn test_get_queue_depths() -> (r: Vec<Step>)
    ensures
        r@ == get_queue_depths_steps(),
{
    vec![
        Do(Depths),
        Save(0, Num::OrchestratorQueue),
        Do(Put(start_item("mgmt-queue"))),
        Do(Depths),
        Expect(Check::Number(Num::OrchestratorQueue, Rel::MoreThan, Operand::Saved(0))),
    ]
}

/// The script of [`test_get_instance_stats_nonexistent`].
pub open spec fn get_instance_stats_nonexistent_steps() -> Seq<Step> {
    seq![
        Do(Stats("no-such-instance")),
        Expect(Check::Nothing),
    ]
}

/// An instance that does not exist has no statistics.
pub fn test_get_instance_stats_nonexistent() -> (r: Vec<Step>)
    ensures
        r@ == get_instance_stats_nonexistent_steps(),
{
    vec![
        Do(Stats("no-such-instance")),
        Expect(Check::Nothing),
    ]
}

/// The script of [`test_get_instance_stats_history`].
pub open spec fn get_instance_stats_history_steps() -> Seq<Step> {
    steps::instance_created("stats-hist") + seq![
        Do(Stats("stats-hist")),
        Expect(Check::Something),
        at_least(Num::StatsEvents, 1),
        at_least(Num::StatsSize, 1),
        number_is(Num::StatsKeys, 0),
        number_is(Num::StatsValueBytes, 0),
        number_is(Num::StatsPending, 0),
    ]
}

/// The statistics count the events of an instance.
pub fn test_get_instance_stats_history() -> (r: Vec<Step>)
    ensures
        r@ == get_instance_stats_history_steps(),
{
    let mut steps = steps::create_instance("stats-hist");
    steps = chain(steps, vec![
        Do(Stats("stats-hist")),
        Expect(Check::Something),
        at_least(Num::StatsEvents, 1),
        at_least(Num::StatsSize, 1),
        number_is(Num::StatsKeys, 0),
        number_is(Num::StatsValueBytes, 0),
        number_is(Num::StatsPending, 0),
    ]);
    steps
}

/// The script of [`test_get_instance_stats_kv`].
pub open spec fn get_instance_stats_kv_steps() -> Seq<Step> {
    steps::instance_created("stats-kv") + seq![
        Do(Put(Item::Raised("stats-kv", "poke", "{}"))),
        Take(turn(), 0),
        event(100, "stats-kv", 1, Fact::KeySet("k1", "aaa", 0)),
        event(101, "stats-kv", 1, Fact::KeySet("k2", "bbbbb", 0)),
        event(102, "stats-kv", 1, Fact::Completed("done")),
        metadata(Some("Completed"), Some("done"), None, None),
        Do(Ack(Held(0), 1)),
        Do(Stats("stats-kv")),
        Expect(Check::Something),
        number_is(Num::StatsKeys, 2),
        number_is(Num::StatsValueBytes, 8),
    ]
}

/// The statistics count the keys of an instance and the bytes of their values.
pub fn test_get_instance_stats_kv() -> (r: Vec<Step>)
    ensures
        r@ == get_instance_stats_kv_steps(),
{
    let mut steps = steps::create_instance("stats-kv");
    steps = chain(steps, vec![
        Do(Put(Item::Raised("stats-kv", "poke", "{}"))),
        Take(turn(), 0),
        event(100, "stats-kv", 1, Fact::KeySet("k1", "aaa", 0)),
        event(101, "stats-kv", 1, Fact::KeySet("k2", "bbbbb", 0)),
        event(102, "stats-kv", 1, Fact::Completed("done")),
        metadata(Some("Completed"), Some("done"), None, None),
        Do(Ack(Held(0), 1)),
        Do(Stats("stats-kv")),
        Expect(Check::Something),
        number_is(Num::StatsKeys, 2),
        number_is(Num::StatsValueBytes, 8),
    ]);
    steps
}

/// The script of [`test_get_instance_stats_carry_forward`].
pub open spec fn get_instance_stats_carry_forward_steps() -> Seq<Step> {
    seq![
        Do(Put(start_item("cf-stats"))),
        Take(turn(), 0),
        event(
            1,
            "cf-stats",
            1,
            Fact::StartedCarrying(
                "TestOrch",
                "1.0.0",
                "{}",
                ("raised-1", "{\"data\":\"a\"}"),
                ("raised-2", "{\"data\":\"b\"}"),
                ("raised-3", "{\"data\":\"c\"}"),
            ),
        ),
        metadata(None, None, Some("TestOrch"), Some("1.0.0")),
        Do(Ack(Held(0), 1)),
        Do(Stats("cf-stats")),
        Expect(Check::Something),
        number_is(Num::StatsPending, 3),
        at_least(Num::StatsEvents, 1),
        at_least(Num::StatsSize, 1),
        number_is(Num::StatsKeys, 0),
    ]
}

/// The statistics count the events that were carried forward.
pub fn test_get_instance_stats_carry_forward() -> (r: Vec<Step>)
    ensures
        r@ == get_instance_stats_carry_forward_steps(),
{
    vec![
        Do(Put(start_item("cf-stats"))),
        Take(turn(), 0),
        event(
            1,
            "cf-stats",
            1,
            Fact::StartedCarrying(
                "TestOrch",
                "1.0.0",
                "{}",
                ("raised-1", "{\"data\":\"a\"}"),
                ("raised-2", "{\"data\":\"b\"}"),
                ("raised-3", "{\"data\":\"c\"}"),
            ),
        ),
        metadata(None, None, Some("TestOrch"), Some("1.0.0")),
        Do(Ack(Held(0), 1)),
        Do(Stats("cf-stats")),
        Expect(Check::Something),
        number_is(Num::StatsPending, 3),
        at_least(Num::StatsEvents, 1),
        at_least(Num::StatsSize, 1),
        number_is(Num::StatsKeys, 0),
    ]
}

/// The script of [`test_get_instance_stats_kv_delta_only`].
pub open spec fn get_instance_stats_kv_delta_only_steps() -> Seq<Step> {
    steps::instance_created("kv-delta-stats") + seq![
        Do(Put(Item::Raised("kv-delta-stats", "poke", "{}"))),
        Take(turn(), 0),
        event(100, "kv-delta-stats", 1, Fact::KeySet("dk1", "xxx", 0)),
        event(101, "kv-delta-stats", 1, Fact::KeySet("dk2", "yyyyyy", 0)),
        event(102, "kv-delta-stats", 1, Fact::Scheduled("Noop", "{}")),
        Do(Ack(Held(0), 1)),
        Do(Stats("kv-delta-stats")),
        Expect(Check::Something),
        number_is(Num::StatsKeys, 2),
        number_is(Num::StatsValueBytes, 9),
        number_is(Num::StatsPending, 0),
    ]
}

/// The statistics count the keys that were written while the instance runs.
pub fn test_get_instance_stats_kv_delta_only() -> (r: Vec<Step>)
    ensures
        r@ == get_instance_stats_kv_delta_only_steps(),
{
    let mut steps = steps::create_instance("kv-delta-stats");
    steps = chain(steps, vec![
        Do(Put(Item::Raised("kv-delta-stats", "poke", "{}"))),
        Take(turn(), 0),
        event(100, "kv-delta-stats", 1, Fact::KeySet("dk1", "xxx", 0)),
        event(101, "kv-delta-stats", 1, Fact::KeySet("dk2", "yyyyyy", 0)),
        event(102, "kv-delta-stats", 1, Fact::Scheduled("Noop", "{}")),
        Do(Ack(Held(0), 1)),
        Do(Stats("kv-delta-stats")),
        Expect(Check::Something),
        number_is(Num::StatsKeys, 2),
        number_is(Num::StatsValueBytes, 9),
        number_is(Num::StatsPending, 0),
    ]);
    steps
}

/// The script of [`test_get_instance_stats_kv_merged`].
pub open spec fn get_instance_stats_kv_merged_steps() -> Seq<Step> {
    steps::instance_created("kv-merged-stats") + seq![
        Do(Put(Item::Raised("kv-merged-stats", "poke1", "{}"))),
        Take(turn(), 0),
        event(100, "kv-merged-stats", 1, Fact::KeySet("mk1", "aaa", 0)),
        event(101, "kv-merged-stats", 1, Fact::KeySet("mk2", "bb", 0)),
        event(102, "kv-merged-stats", 1, Fact::Scheduled("Noop", "{}")),
        Do(Ack(Held(0), 1)),
        Do(Stats("kv-merged-stats")),
        Expect(Check::Something),
        number_is(Num::StatsKeys, 2),
        number_is(Num::StatsValueBytes, 5),
        Do(Put(Item::Raised("kv-merged-stats", "poke2", "{}"))),
        Take(turn(), 1),
        event(200, "kv-merged-stats", 1, Fact::KeySet("mk1", "zzzzz", 1)),
        event(201, "kv-merged-stats", 1, Fact::Completed("done")),
        metadata(Some("Completed"), Some("done"), None, None),
        Do(Ack(Held(1), 1)),
        Do(Stats("kv-merged-stats")),
        Expect(Check::Something),
        number_is(Num::StatsKeys, 2),
        number_is(Num::StatsValueBytes, 7),
        number_is(Num::StatsPending, 0),
    ]
}

/// A key that is written again counts once, with its latest value, before and after
/// the instance completed.
pub fn test_get_instance_stats_kv_merged() -> (r: Vec<Step>)
    ensures
        r@ == get_instance_stats_kv_merged_steps(),
{
    let mut steps = steps::create_instance("kv-merged-stats");
    steps = chain(steps, vec![
        Do(Put(Item::Raised("kv-merged-stats", "poke1", "{}"))),
        Take(turn(), 0),
        event(100, "kv-merged-stats", 1, Fact::KeySet("mk1", "aaa", 0)),
        event(101, "kv-merged-stats", 1, Fact::KeySet("mk2", "bb", 0)),
        event(102, "kv-merged-stats", 1, Fact::Scheduled("Noop", "{}")),
        Do(Ack(Held(0), 1)),
        Do(Stats("kv-merged-stats")),
        Expect(Check::Something),
        number_is(Num::StatsKeys, 2),
        number_is(Num::StatsValueBytes, 5),
        Do(Put(Item::Raised("kv-merged-stats", "poke2", "{}"))),
        Take(turn(), 1),
        event(200, "kv-merged-stats", 1, Fact::KeySet("mk1", "zzzzz", 1)),
        event(201, "kv-merged-stats", 1, Fact::Completed("done")),
        metadata(Some("Completed"), Some("done"), None, None),
        Do(Ack(Held(1), 1)),
        Do(Stats("kv-merged-stats")),
        Expect(Check::Something),
        number_is(Num::StatsKeys, 2),
        number_is(Num::StatsValueBytes, 7),
        number_is(Num::StatsPending, 0),
    ]);
    steps
}

/// A store passes only if it counts two keys both times, with five bytes before the
/// first key was written again and seven after.
pub proof fn law_a_key_counts_once(states: Seq<RunModel>)
    requires
        runner::passing(states, get_instance_stats_kv_merged_steps()),
    ensures
        reply::number_of(Num::StatsKeys, runner::current(states[13])) == Some(2u64),
        reply::number_of(Num::StatsValueBytes, runner::current(states[14])) == Some(5u64),
        reply::number_of(Num::StatsKeys, runner::current(states[23])) == Some(2u64),
        reply::number_of(Num::StatsValueBytes, runner::current(states[24])) == Some(7u64),
{
    let script = get_instance_stats_kv_merged_steps();
    assert(script[13] == number_is(Num::StatsKeys, 2));
    runner::law_a_straight_pass_meets_every_step(states, script, 13);
    assert(script[14] == number_is(Num::StatsValueBytes, 5));
    runner::law_a_straight_pass_meets_every_step(states, script, 14);
    assert(script[23] == number_is(Num::StatsKeys, 2));
    runner::law_a_straight_pass_meets_every_step(states, script, 23);
    assert(script[24] == number_is(Num::StatsValueBytes, 7));
    runner::law_a_straight_pass_meets_every_step(states, script, 24);
}

/// What the store did in a run that passes [`test_list_instances`].
pub proof fn law_passing_list_instances(script: Vec<Step>, states: Seq<RunModel>)
    requires
        call_ensures(test_list_instances, (), script),
        runner::passing(states, script@),
    ensures
        states.len() == 22,
        runner::passed(states, 0, Do(Management)),
        runner::passed(states, 16, Do(ListInstances)),
        runner::passed(states, 17, at_least(Num::Names, 3)),
        runner::passed(states, 18, Expect(Check::Has("mgmt-inst-0"))),
        runner::passed(states, 19, Expect(Check::Has("mgmt-inst-1"))),
        runner::passed(states, 20, Expect(Check::Has("mgmt-inst-2"))),
{
    runner::lemma_passed(states, script@);
}

/// What the store did in a run that passes [`test_list_instances_by_status`].
pub proof fn law_passing_list_instances_by_status(script: Vec<Step>, states: Seq<RunModel>)
    requires
        call_ensures(test_list_instances_by_status, (), script),
        runner::passing(states, script@),
    ensures
        states.len() == 9,
        runner::passed(states, 0, Do(Management)),
        runner::passed(states, 1, Do(Put(start_item("mgmt-completed")))),
        runner::passed(states, 2, Take(turn(), 0)),
        runner::passed(states, 5, Do(Ack(Held(0), 1))),
        runner::passed(states, 6, Do(ListByStatus("Completed"))),
        runner::passed(states, 7, Expect(Check::Has("mgmt-completed"))),
{
    runner::lemma_passed(states, script@);
}

/// What the store did in a run that passes [`test_list_executions`].
pub proof fn law_passing_list_executions(script: Vec<Step>, states: Seq<RunModel>)
    requires
        call_ensures(test_list_executions, (), script),
        runner::passing(states, script@),
    ensures
        states.len() == 8,
        runner::passed(states, 0, Do(Management)),
        runner::passed(states, 1, Do(Put(start_item("mgmt-multi-exec")))),
        runner::passed(states, 2, Take(turn(), 0)),
        runner::passed(states, 4, Do(Ack(Held(0), 1))),
        runner::passed(states, 5, Do(ListExecutions("mgmt-multi-exec"))),
        runner::passed(states, 6, Expect(Check::HasExecution(1, 1))),
{
    runner::lemma_passed(states, script@);
}

/// What the store did in a run that passes [`test_get_instance_info`].
pub proof fn law_passing_get_instance_info(script: Vec<Step>, states: Seq<RunModel>)
    requires
        call_ensures(test_get_instance_info, (), script),
        runner::passing(states, script@),
    ensures
        states.len() == 12,
        runner::passed(states, 0, Do(Management)),
        runner::passed(states, 1, Do(Put(start_item("mgmt-info")))),
        runner::passed(states, 2, Take(turn(), 0)),
        runner::passed(states, 5, Do(Ack(Held(0), 1))),
        runner::passed(states, 6, Do(InstanceInfo("mgmt-info"))),
        runner::passed(states, 7, text_is(Txt::InfoInstance, "mgmt-info")),
        runner::passed(states, 8, text_is(Txt::InfoOrchestration, "InfoOrch")),
        runner::passed(states, 9, text_is(Txt::InfoVersion, "2.0.0")),
        runner::passed(states, 10, number_is(Num::InfoExecution, 1)),
{
    runner::lemma_passed(states, script@);
}

/// What the store did in a run that passes [`test_get_execution_info`].
pub proof fn law_passing_get_execution_info(script: Vec<Step>, states: Seq<RunModel>)
    requires
        call_ensures(test_get_execution_info, (), script),
        runner::passing(states, script@),
    ensures
        states.len() == 11,
        runner::passed(states, 0, Do(Management)),
        runner::passed(states, 1, Do(Put(start_item("mgmt-exec-info")))),
        runner::passed(states, 2, Take(turn(), 0)),
        runner::passed(states, 5, Do(Ack(Held(0), 1))),
        runner::passed(states, 6, Do(ExecutionInfo("mgmt-exec-info", 1))),
        runner::passed(states, 7, number_is(Num::ExecutionId, 1)),
        runner::passed(states, 8, text_is(Txt::ExecutionStatus, "Completed")),
        runner::passed(states, 9, text_is(Txt::ExecutionOutput, "result")),
{
    runner::lemma_passed(states, script@);
}

/// What the store did in a run that passes [`test_get_system_metrics`].
pub proof fn law_passing_get_system_metrics(script: Vec<Step>, states: Seq<RunModel>)
    requires
        call_ensures(test_get_system_metrics, (), script),
        runner::passing(states, script@),
    ensures
        states.len() == 11,
        runner::passed(states, 0, Do(Metrics)),
        runner::passed(states, 2, Do(Put(start_item("mgmt-metrics")))),
        runner::passed(states, 3, Take(turn(), 0)),
        runner::passed(states, 6, Do(Ack(Held(0), 1))),
        runner::passed(states, 7, Do(Metrics)),
        runner::passed(
            states,
            8,
            Expect(Check::Number(Num::TotalInstances, Rel::MoreThan, Operand::Saved(0))),
        ),
        runner::passed(states, 9, at_least(Num::TotalEvents, 1)),
{
    runner::lemma_passed(states, script@);
}

/// What the store did in a run that passes [`test_get_queue_depths`].
pub proof fn law_passing_get_queue_depths(script: Vec<Step>, states: Seq<RunModel>)
    requires
        call_ensures(test_get_queue_depths, (), script),
        runner::passing(states, script@),
    ensures
        states.len() == 6,
        runner::passed(states, 0, Do(Depths)),
        runner::passed(states, 2, Do(Put(start_item("mgmt-queue")))),
        runner::passed(states, 3, Do(Depths)),
        runner::passed(
            states,
            4,
            Expect(Check::Number(Num::OrchestratorQueue, Rel::MoreThan, Operand::Saved(0))),
        ),
{
    runner::lemma_passed(states, script@);
}

/// What the store did in a run that passes [`test_get_instance_stats_nonexistent`].
pub proof fn law_passing_get_instance_stats_nonexistent(script: Vec<Step>, states: Seq<RunModel>)
    requires
        call_ensures(test_get_instance_stats_nonexistent, (), script),
        runner::passing(states, script@),
    ensures
        states.len() == 3,
        runner::passed(states, 0, Do(Stats("no-such-instance"))),
        runner::passed(states, 1, Expect(Check::Nothing)),
{
    runner::lemma_passed(states, script@);
}

/// What the store did in a run that passes [`test_get_instance_stats_history`].
pub proof fn law_passing_get_instance_stats_history(script: Vec<Step>, states: Seq<RunModel>)
    requires
        call_ensures(test_get_instance_stats_history, (), script),
        runner::passing(states, script@),
    ensures
        states.len() == 13,
        runner::passed(states, 5, Do(Stats("stats-hist"))),
        runner::passed(states, 6, Expect(Check::Something)),
        runner::passed(states, 7, at_least(Num::StatsEvents, 1)),
        runner::passed(states, 8, at_least(Num::StatsSize, 1)),
        runner::passed(states, 9, number_is(Num::StatsKeys, 0)),
        runner::passed(states, 10, number_is(Num::StatsValueBytes, 0)),
        runner::passed(states, 11, number_is(Num::StatsPending, 0)),
{
    runner::lemma_passed(states, script@);
}

/// What the store did in a run that passes [`test_get_instance_stats_kv`].
pub proof fn law_passing_get_instance_stats_kv(script: Vec<Step>, states: Seq<RunModel>)
    requires
        call_ensures(test_get_instance_stats_kv, (), script),
        runner::passing(states, script@),
    ensures
        states.len() == 17,
        runner::passed(states, 5, Do(Put(Item::Raised("stats-kv", "poke", "{}")))),
        runner::passed(states, 6, Take(turn(), 0)),
        runner::passed(states, 11, Do(Ack(Held(0), 1))),
        runner::passed(states, 12, Do(Stats("stats-kv"))),
        runner::passed(states, 13, Expect(Check::Something)),
        runner::passed(states, 14, number_is(Num::StatsKeys, 2)),
        runner::passed(states, 15, number_is(Num::StatsValueBytes, 8)),
{
    runner::lemma_passed(states, script@);
}

/// What the store did in a run that passes [`test_get_instance_stats_carry_forward`].
pub proof fn law_passing_get_instance_stats_carry_forward(script: Vec<Step>, states: Seq<RunModel>)
    requires
        call_ensures(test_get_instance_stats_carry_forward, (), script),
        runner::passing(states, script@),
    ensures
        states.len() == 12,
        runner::passed(states, 0, Do(Put(start_item("cf-stats")))),
        runner::passed(states, 1, Take(turn(), 0)),
        runner::passed(states, 4, Do(Ack(Held(0), 1))),
        runner::passed(states, 5, Do(Stats("cf-stats"))),
        runner::passed(states, 6, Expect(Check::Something)),
        runner::passed(states, 7, number_is(Num::StatsPending, 3)),
        runner::passed(states, 8, at_least(Num::StatsEvents, 1)),
        runner::passed(states, 9, at_least(Num::StatsSize, 1)),
        runner::passed(states, 10, number_is(Num::StatsKeys, 0)),
{
    runner::lemma_passed(states, script@);
}

/// What the store did in a run that passes [`test_get_instance_stats_kv_delta_only`].
pub proof fn law_passing_get_instance_stats_kv_delta_only(script: Vec<Step>, states: Seq<RunModel>)
    requires
        call_ensures(test_get_instance_stats_kv_delta_only, (), script),
        runner::passing(states, script@),
    ensures
        states.len() == 17,
        runner::passed(states, 5, Do(Put(Item::Raised("kv-delta-stats", "poke", "{}")))),
        runner::passed(states, 6, Take(turn(), 0)),
        runner::passed(states, 10, Do(Ack(Held(0), 1))),
        runner::passed(states, 11, Do(Stats("kv-delta-stats"))),
        runner::passed(states, 12, Expect(Check::Something)),
        runner::passed(states, 13, number_is(Num::StatsKeys, 2)),
        runner::passed(states, 14, number_is(Num::StatsValueBytes, 9)),
        runner::passed(states, 15, number_is(Num::StatsPending, 0)),
{
    runner::lemma_passed(states, script@);
}

/// What the store did in a run that passes [`test_get_instance_stats_kv_merged`].
pub proof fn law_passing_get_instance_stats_kv_merged(script: Vec<Step>, states: Seq<RunModel>)
    requires
        call_ensures(test_get_instance_stats_kv_merged, (), script),
        runner::passing(states, script@),
    ensures
        states.len() == 27,
        runner::passed(states, 5, Do(Put(Item::Raised("kv-merged-stats", "poke1", "{}")))),
        runner::passed(states, 6, Take(turn(), 0)),
        runner::passed(states, 10, Do(Ack(Held(0), 1))),
        runner::passed(states, 11, Do(Stats("kv-merged-stats"))),
        runner::passed(states, 12, Expect(Check::Something)),
        runner::passed(states, 13, number_is(Num::StatsKeys, 2)),
        runner::passed(states, 14, number_is(Num::StatsValueBytes, 5)),
        runner::passed(states, 15, Do(Put(Item::Raised("kv-merged-stats", "poke2", "{}")))),
        runner::passed(states, 16, Take(turn(), 1)),
        runner::passed(states, 20, Do(Ack(Held(1), 1))),
        runner::passed(states, 21, Do(Stats("kv-merged-stats"))),
        runner::passed(states, 22, Expect(Check::Something)),
        runner::passed(states, 23, number_is(Num::StatsKeys, 2)),
        runner::passed(states, 24, number_is(Num::StatsValueBytes, 7)),
        runner::passed(states, 25, number_is(Num::StatsPending, 0)),
{
    runner::lemma_passed(states, script@);
}

} // verus!
