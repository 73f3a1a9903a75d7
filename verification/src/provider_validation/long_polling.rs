//! How long a fetch waits where there is nothing.
use crate::provider_validation::runner::{self, RunModel};
use crate::provider_validation::script::Call::{FetchTurn, FetchWork};
use crate::provider_validation::script::Step::{Do, Expect};
use crate::provider_validation::script::{millis, short_poll, Check, Step};
use vstd::prelude::*;

verus! {

/// The script of [`test_short_poll_returns_immediately`].
pub open spec fn short_poll_returns_immediately_steps() -> Seq<Step> {
    seq![
        Do(FetchTurn(millis(30_000), millis(500))),
        Expect(Check::Nothing),
        Expect(Check::Faster(short_poll())),
    ]
}

/// A store that does not wait for work answers a fetch of a turn within its
/// threshold.
pub fn test_short_poll_returns_immediately() -> (r: Vec<Step>)
    ensures
        r@ == short_poll_returns_immediately_steps(),
{
    vec![
        Do(FetchTurn(millis(30_000), millis(500))),
        Expect(Check::Nothing),
        Expect(Check::Faster(short_poll())),
    ]
}

/// The script of [`test_long_poll_waits_for_timeout`].
pub open spec fn long_poll_waits_for_timeout_steps() -> Seq<Step> {
    seq![
        Do(FetchTurn(millis(30_000), millis(500))),
        Expect(Check::Nothing),
        Expect(Check::NotFaster(millis(500))),
    ]
}

/// A store that waits for work does so for the whole poll timeout.
pub fn test_long_poll_waits_for_timeout() -> (r: Vec<Step>)
    ensures
        r@ == long_poll_waits_for_timeout_steps(),
{
    vec![
        Do(FetchTurn(millis(30_000), millis(500))),
        Expect(Check::Nothing),
        Expect(Check::NotFaster(millis(500))),
    ]
}

/// The script of [`test_fetch_respects_timeout_upper_bound`].
pub open spec fn fetch_respects_timeout_upper_bound_steps() -> Seq<Step> {
    seq![
        Do(FetchTurn(millis(30_000), millis(300))),
        Expect(Check::Nothing),
        Expect(Check::Faster(millis(500))),
    ]
}

/// No store waits much longer than the poll timeout.
pub fn test_fetch_respects_timeout_upper_bound() -> (r: Vec<Step>)
    ensures
        r@ == fetch_respects_timeout_upper_bound_steps(),
{
    vec![
        Do(FetchTurn(millis(30_000), millis(300))),
        Expect(Check::Nothing),
        Expect(Check::Faster(millis(500))),
    ]
}

/// The script of [`test_short_poll_work_item_returns_immediately`].
pub open spec fn short_poll_work_item_returns_immediately_steps() -> Seq<Step> {
    seq![
        Do(FetchWork(millis(30_000), millis(500))),
        Expect(Check::Nothing),
        Expect(Check::Faster(short_poll())),
    ]
}

/// A store that does not wait for work answers a fetch of a work item within its
/// threshold.
pub fn test_short_poll_work_item_returns_immediately() -> (r: Vec<Step>)
    ensures
        r@ == short_poll_work_item_returns_immediately_steps(),
{
    vec![
        Do(FetchWork(millis(30_000), millis(500))),
        Expect(Check::Nothing),
        Expect(Check::Faster(short_poll())),
    ]
}

/// The script of [`test_long_poll_work_item_waits_for_timeout`].
pub open spec fn long_poll_work_item_waits_for_timeout_steps() -> Seq<Step> {
    seq![
        Do(FetchWork(millis(30_000), millis(500))),
        Expect(Check::Nothing),
        Expect(Check::NotFaster(millis(500))),
    ]
}

/// A store that waits for work does so for the whole poll timeout, for a work item
/// too.
pub fn test_long_poll_work_item_waits_for_timeout() -> (r: Vec<Step>)
    ensures
        r@ == long_poll_work_item_waits_for_timeout_steps(),
{
    vec![
        Do(FetchWork(millis(30_000), millis(500))),
        Expect(Check::Nothing),
        Expect(Check::NotFaster(millis(500))),
    ]
}

/// What the store did in a run that passes [`test_short_poll_returns_immediately`].
pub proof fn law_passing_short_poll_returns_immediately(script: Vec<Step>, states: Seq<RunModel>)
    requires
        call_ensures(test_short_poll_returns_immediately, (), script),
        runner::passing(states, script@),
    ensures
        states.len() == 4,
        runner::passed(states, 0, Do(FetchTurn(millis(30_000), millis(500)))),
        runner::passed(states, 1, Expect(Check::Nothing)),
        runner::passed(states, 2, Expect(Check::Faster(short_poll()))),
{
    runner::lemma_passed(states, script@);
}

/// What the store did in a run that passes [`test_long_poll_waits_for_timeout`].
pub proof fn law_passing_long_poll_waits_for_timeout(script: Vec<Step>, states: Seq<RunModel>)
    requires
        call_ensures(test_long_poll_waits_for_timeout, (), script),
        runner::passing(states, script@),
    ensures
        states.len() == 4,
        runner::passed(states, 0, Do(FetchTurn(millis(30_000), millis(500)))),
        runner::passed(states, 1, Expect(Check::Nothing)),
        runner::passed(states, 2, Expect(Check::NotFaster(millis(500)))),
{
    runner::lemma_passed(states, script@);
}

/// What the store did in a run that passes [`test_fetch_respects_timeout_upper_bound`].
pub proof fn law_passing_fetch_respects_timeout_upper_bound(
    script: Vec<Step>,
    states: Seq<RunModel>,
)
    requires
        call_ensures(test_fetch_respects_timeout_upper_bound, (), script),
        runner::passing(states, script@),
    ensures
        states.len() == 4,
        runner::passed(states, 0, Do(FetchTurn(millis(30_000), millis(300)))),
        runner::passed(states, 1, Expect(Check::Nothing)),
        runner::passed(states, 2, Expect(Check::Faster(millis(500)))),
{
    runner::lemma_passed(states, script@);
}

/// What the store did in a run that passes [`test_short_poll_work_item_returns_immediately`].
pub proof fn law_passing_short_poll_work_item_returns_immediately(
    script: Vec<Step>,
    states: Seq<RunModel>,
)
    requires
        call_ensures(test_short_poll_work_item_returns_immediately, (), script),
        runner::passing(states, script@),
    ensures
        states.len() == 4,
        runner::passed(states, 0, Do(FetchWork(millis(30_000), millis(500)))),
        runner::passed(states, 1, Expect(Check::Nothing)),
        runner::passed(states, 2, Expect(Check::Faster(short_poll()))),
{
    runner::lemma_passed(states, script@);
}

/// What the store did in a run that passes [`test_long_poll_work_item_waits_for_timeout`].
pub proof fn law_passing_long_poll_work_item_waits_for_timeout(
    script: Vec<Step>,
    states: Seq<RunModel>,
)
    requires
        call_ensures(test_long_poll_work_item_waits_for_timeout, (), script),
        runner::passing(states, script@),
    ensures
        states.len() == 4,
        runner::passed(states, 0, Do(FetchWork(millis(30_000), millis(500)))),
        runner::passed(states, 1, Expect(Check::Nothing)),
        runner::passed(states, 2, Expect(Check::NotFaster(millis(500)))),
{
    runner::lemma_passed(states, script@);
}

} // verus!
