//! Whether the custom status is kept and versioned.
use crate::provider_validation::runner::{self, RunModel};
use crate::provider_validation::script::Call::{Ack, CustomStatus, Put};
use crate::provider_validation::script::Step::{Do, Expect, Take};
use crate::provider_validation::script::Token::Held;
use crate::provider_validation::script::{
    chain, number_is, poke_item, text_is, turn, Check, Num, Step, Txt,
};
use crate::provider_validation::steps;
use vstd::prelude::*;

verus! {

/// The script of [`test_custom_status_set`].
pub open spec fn custom_status_set_steps() -> Seq<Step> {
    steps::instance_created("cs-set")
        + steps::status_turn("cs-set", 100, Some("progress")) + seq![
        Do(CustomStatus("cs-set", 0)),
        Expect(Check::Something),
        text_is(Txt::CustomStatus, "progress"),
        number_is(Num::StatusVersion, 1),
    ]
}

/// Setting the custom status writes it and moves its version on.
pub fn test_custom_status_set() -> (r: Vec<Step>)
    ensures
        r@ == custom_status_set_steps(),
{
    let mut steps = steps::create_instance("cs-set");
    steps = chain(steps, steps::take_status_turn("cs-set", 100, Some("progress")));
    steps = chain(steps, vec![
        Do(CustomStatus("cs-set", 0)),
        Expect(Check::Something),
        text_is(Txt::CustomStatus, "progress"),
        number_is(Num::StatusVersion, 1),
    ]);
    steps
}

/// The script of [`test_custom_status_clear`].
pub open spec fn custom_status_clear_steps() -> Seq<Step> {
    steps::instance_created("cs-clear")
        + steps::status_turn("cs-clear", 100, Some("temp")) + seq![
        Do(CustomStatus("cs-clear", 0)),
        text_is(Txt::CustomStatus, "temp"),
    ] + steps::status_turn("cs-clear", 101, None) + seq![
        Do(CustomStatus("cs-clear", 0)),
        Expect(Check::Something),
        Expect(Check::NoText(Txt::CustomStatus)),
        number_is(Num::StatusVersion, 2),
    ]
}

/// Clearing the custom status removes it and moves its version on.
pub fn test_custom_status_clear() -> (r: Vec<Step>)
    ensures
        r@ == custom_status_clear_steps(),
{
    let mut steps = steps::create_instance("cs-clear");
    steps = chain(steps, steps::take_status_turn("cs-clear", 100, Some("temp")));
    steps = chain(steps, vec![
        Do(CustomStatus("cs-clear", 0)),
        text_is(Txt::CustomStatus, "temp"),
    ]);
    steps = chain(steps, steps::take_status_turn("cs-clear", 101, None));
    steps = chain(steps, vec![
        Do(CustomStatus("cs-clear", 0)),
        Expect(Check::Something),
        Expect(Check::NoText(Txt::CustomStatus)),
        number_is(Num::StatusVersion, 2),
    ]);
    steps
}

/// The script of [`test_custom_status_none_preserves`].
pub open spec fn custom_status_none_preserves_steps() -> Seq<Step> {
    steps::instance_created("cs-noop")
        + steps::status_turn("cs-noop", 100, Some("keep-me")) + seq![
        Do(Put(poke_item("cs-noop"))),
        Take(turn(), 0),
        Do(Ack(Held(0), 1)),
        Do(CustomStatus("cs-noop", 0)),
        text_is(Txt::CustomStatus, "keep-me"),
        number_is(Num::StatusVersion, 1),
    ]
}

/// A turn that does not touch the custom status keeps it and its version.
pub fn test_custom_status_none_preserves() -> (r: Vec<Step>)
    ensures
        r@ == custom_status_none_preserves_steps(),
{
    let mut steps = steps::create_instance("cs-noop");
    steps = chain(steps, steps::take_status_turn("cs-noop", 100, Some("keep-me")));
    steps = chain(steps, vec![
        Do(Put(poke_item("cs-noop"))),
        Take(turn(), 0),
        Do(Ack(Held(0), 1)),
        Do(CustomStatus("cs-noop", 0)),
        text_is(Txt::CustomStatus, "keep-me"),
        number_is(Num::StatusVersion, 1),
    ]);
    steps
}

/// The script of [`test_custom_status_version_increments`].
pub open spec fn custom_status_version_increments_steps() -> Seq<Step> {
    steps::instance_created("cs-ver")
        + steps::status_turn("cs-ver", 100, Some("a")) + seq![
        Do(CustomStatus("cs-ver", 0)),
        number_is(Num::StatusVersion, 1),
    ] + steps::status_turn("cs-ver", 101, Some("b")) + seq![
        Do(CustomStatus("cs-ver", 0)),
        number_is(Num::StatusVersion, 2),
    ] + steps::status_turn("cs-ver", 102, None) + seq![
        Do(CustomStatus("cs-ver", 0)),
        number_is(Num::StatusVersion, 3),
        Expect(Check::NoText(Txt::CustomStatus)),
    ]
}

/// Each change of the custom status moves its version on by one.
pub fn test_custom_status_version_increments() -> (r: Vec<Step>)
    ensures
        r@ == custom_status_version_increments_steps(),
{
    let mut steps = steps::create_instance("cs-ver");
    steps = chain(steps, steps::take_status_turn("cs-ver", 100, Some("a")));
    steps = chain(steps, vec![
        Do(CustomStatus("cs-ver", 0)),
        number_is(Num::StatusVersion, 1),
    ]);
    steps = chain(steps, steps::take_status_turn("cs-ver", 101, Some("b")));
    steps = chain(steps, vec![
        Do(CustomStatus("cs-ver", 0)),
        number_is(Num::StatusVersion, 2),
    ]);
    steps = chain(steps, steps::take_status_turn("cs-ver", 102, None));
    steps = chain(steps, vec![
        Do(CustomStatus("cs-ver", 0)),
        number_is(Num::StatusVersion, 3),
        Expect(Check::NoText(Txt::CustomStatus)),
    ]);
    steps
}

/// The script of [`test_custom_status_polling_no_change`].
pub open spec fn custom_status_polling_no_change_steps() -> Seq<Step> {
    steps::instance_created("cs-poll")
        + steps::status_turn("cs-poll", 100, Some("v1")) + seq![
        Do(CustomStatus("cs-poll", 1)),
        Expect(Check::Nothing),
        Do(CustomStatus("cs-poll", 0)),
        Expect(Check::Something),
    ]
}

/// A custom status is shown only to those who have not seen its version.
pub fn test_custom_status_polling_no_change() -> (r: Vec<Step>)
    ensures
        r@ == custom_status_polling_no_change_steps(),
{
    let mut steps = steps::create_instance("cs-poll");
    steps = chain(steps, steps::take_status_turn("cs-poll", 100, Some("v1")));
    steps = chain(steps, vec![
        Do(CustomStatus("cs-poll", 1)),
        Expect(Check::Nothing),
        Do(CustomStatus("cs-poll", 0)),
        Expect(Check::Something),
    ]);
    steps
}

/// The script of [`test_custom_status_nonexistent_instance`].
pub open spec fn custom_status_nonexistent_instance_steps() -> Seq<Step> {
    seq![
        Do(CustomStatus("does-not-exist", 0)),
        Expect(Check::Nothing),
    ]
}

/// An instance that does not exist has no custom status.
pub fn test_custom_status_nonexistent_instance() -> (r: Vec<Step>)
    ensures
        r@ == custom_status_nonexistent_instance_steps(),
{
    vec![
        Do(CustomStatus("does-not-exist", 0)),
        Expect(Check::Nothing),
    ]
}

/// The script of [`test_custom_status_default_on_new_instance`].
pub open spec fn custom_status_default_on_new_instance_steps() -> Seq<Step> {
    steps::instance_created("cs-default") + seq![
        Do(CustomStatus("cs-default", 0)),
        Expect(Check::Nothing),
    ]
}

/// A new instance has no custom status.
pub fn test_custom_status_default_on_new_instance() -> (r: Vec<Step>)
    ensures
        r@ == custom_status_default_on_new_instance_steps(),
{
    let mut steps = steps::create_instance("cs-default");
    steps = chain(steps, vec![
        Do(CustomStatus("cs-default", 0)),
        Expect(Check::Nothing),
    ]);
    steps
}

/// What the store did in a run that passes [`test_custom_status_set`].
pub proof fn law_passing_custom_status_set(script: Vec<Step>, states: Seq<RunModel>)
    requires
        call_ensures(test_custom_status_set, (), script),
        runner::passing(states, script@),
    ensures
        states.len() == 14,
        runner::passed(states, 9, Do(CustomStatus("cs-set", 0))),
        runner::passed(states, 10, Expect(Check::Something)),
        runner::passed(states, 11, text_is(Txt::CustomStatus, "progress")),
        runner::passed(states, 12, number_is(Num::StatusVersion, 1)),
{
    runner::lemma_passed(states, script@);
}

/// What the store did in a run that passes [`test_custom_status_clear`].
pub proof fn law_passing_custom_status_clear(script: Vec<Step>, states: Seq<RunModel>)
    requires
        call_ensures(test_custom_status_clear, (), script),
        runner::passing(states, script@),
    ensures
        states.len() == 20,
        runner::passed(states, 9, Do(CustomStatus("cs-clear", 0))),
        runner::passed(states, 10, text_is(Txt::CustomStatus, "temp")),
        runner::passed(states, 15, Do(CustomStatus("cs-clear", 0))),
        runner::passed(states, 16, Expect(Check::Something)),
        runner::passed(states, 17, Expect(Check::NoText(Txt::CustomStatus))),
        runner::passed(states, 18, number_is(Num::StatusVersion, 2)),
{
    runner::lemma_passed(states, script@);
}

/// What the store did in a run that passes [`test_custom_status_none_preserves`].
pub proof fn law_passing_custom_status_none_preserves(script: Vec<Step>, states: Seq<RunModel>)
    requires
        call_ensures(test_custom_status_none_preserves, (), script),
        runner::passing(states, script@),
    ensures
        states.len() == 16,
        runner::passed(states, 9, Do(Put(poke_item("cs-noop")))),
        runner::passed(states, 10, Take(turn(), 0)),
        runner::passed(states, 11, Do(Ack(Held(0), 1))),
        runner::passed(states, 12, Do(CustomStatus("cs-noop", 0))),
        runner::passed(states, 13, text_is(Txt::CustomStatus, "keep-me")),
        runner::passed(states, 14, number_is(Num::StatusVersion, 1)),
{
    runner::lemma_passed(states, script@);
}

/// What the store did in a run that passes [`test_custom_status_version_increments`].
pub proof fn law_passing_custom_status_version_increments(script: Vec<Step>, states: Seq<RunModel>)
    requires
        call_ensures(test_custom_status_version_increments, (), script),
        runner::passing(states, script@),
    ensures
        states.len() == 25,
        runner::passed(states, 9, Do(CustomStatus("cs-ver", 0))),
        runner::passed(states, 10, number_is(Num::StatusVersion, 1)),
        runner::passed(states, 15, Do(CustomStatus("cs-ver", 0))),
        runner::passed(states, 16, number_is(Num::StatusVersion, 2)),
        runner::passed(states, 21, Do(CustomStatus("cs-ver", 0))),
        runner::passed(states, 22, number_is(Num::StatusVersion, 3)),
        runner::passed(states, 23, Expect(Check::NoText(Txt::CustomStatus))),
{
    runner::lemma_passed(states, script@);
}

/// What the store did in a run that passes [`test_custom_status_polling_no_change`].
pub proof fn law_passing_custom_status_polling_no_change(script: Vec<Step>, states: Seq<RunModel>)
    requires
        call_ensures(test_custom_status_polling_no_change, (), script),
        runner::passing(states, script@),
    ensures
        states.len() == 14,
        runner::passed(states, 9, Do(CustomStatus("cs-poll", 1))),
        runner::passed(states, 10, Expect(Check::Nothing)),
        runner::passed(states, 11, Do(CustomStatus("cs-poll", 0))),
        runner::passed(states, 12, Expect(Check::Something)),
{
    runner::lemma_passed(states, script@);
}

/// What the store did in a run that passes [`test_custom_status_nonexistent_instance`].
pub proof fn law_passing_custom_status_nonexistent_instance(
    script: Vec<Step>,
    states: Seq<RunModel>,
)
    requires
        call_ensures(test_custom_status_nonexistent_instance, (), script),
        runner::passing(states, script@),
    ensures
        states.len() == 3,
        runner::passed(states, 0, Do(CustomStatus("does-not-exist", 0))),
        runner::passed(states, 1, Expect(Check::Nothing)),
{
    runner::lemma_passed(states, script@);
}

/// What the store did in a run that passes [`test_custom_status_default_on_new_instance`].
pub proof fn law_passing_custom_status_default_on_new_instance(
    script: Vec<Step>,
    states: Seq<RunModel>,
)
    requires
        call_ensures(test_custom_status_default_on_new_instance, (), script),
        runner::passing(states, script@),
    ensures
        states.len() == 8,
        runner::passed(states, 5, Do(CustomStatus("cs-default", 0))),
        runner::passed(states, 6, Expect(Check::Nothing)),
{
    runner::lemma_passed(states, script@);
}

} // verus!
