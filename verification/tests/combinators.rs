//! Joins, races and mapped futures.
use duroxide::action::CompletionResult;
use duroxide::either::{Either2, Either3};
use duroxide::future::{settle, Outcome, Pollable};
use duroxide::{DurableFuture, OrchestrationContext};

fn s(text: &str) -> String {
    text.to_string()
}

fn ctx() -> OrchestrationContext {
    OrchestrationContext::new(vec![], 1, s("inst"), s("Orch"), s("1"), None)
}

/// Schedules an activity and binds its token to the same number.
fn activity(ctx: &mut OrchestrationContext, name: &str) -> DurableFuture {
    let f = ctx.schedule_activity(s(name), s(""));
    ctx.bind_token(f.token(), f.token());
    f
}

fn finish(ctx: &mut OrchestrationContext, id: u64, result: &str) {
    ctx.deliver_result(id, CompletionResult::ActivityOk(s(result)));
}

fn done(text: &str) -> Outcome {
    Outcome::Finished(Ok(s(text)))
}

#[test]
fn a_join_keeps_the_order_of_its_futures() {
    let mut ctx = ctx();
    let a = activity(&mut ctx, "A");
    let b = activity(&mut ctx, "B");
    let c = activity(&mut ctx, "C");
    let mut join = ctx.join(vec![a, b, c]);
    finish(&mut ctx, 3, "c");
    assert_eq!(join.poll(&mut ctx), None);
    finish(&mut ctx, 1, "a");
    assert_eq!(join.poll(&mut ctx), None);
    finish(&mut ctx, 2, "b");
    assert_eq!(join.poll(&mut ctx), Some(vec![done("a"), done("b"), done("c")]));
    assert!(ctx.get_cancelled_activity_ids().is_empty());
}

#[test]
fn a_join_of_nothing_is_ready() {
    let mut ctx = ctx();
    let mut join = ctx.join::<DurableFuture>(vec![]);
    assert_eq!(join.poll(&mut ctx), Some(vec![]));
}

#[test]
fn giving_a_join_up_cancels_what_still_runs() {
    let mut ctx = ctx();
    let a = activity(&mut ctx, "A");
    let b = activity(&mut ctx, "B");
    let mut join = ctx.join(vec![a, b]);
    finish(&mut ctx, 1, "a");
    assert_eq!(join.poll(&mut ctx), None);
    join.dispose(&mut ctx);
    assert_eq!(ctx.get_cancelled_activity_ids(), vec![2]);
}

#[test]
fn joins_of_two_and_three_wait_for_all() {
    let mut ctx = ctx();
    let a = activity(&mut ctx, "A");
    let b = activity(&mut ctx, "B");
    let mut two = ctx.join2(a, b);
    finish(&mut ctx, 2, "b");
    assert_eq!(two.poll(&mut ctx), None);
    finish(&mut ctx, 1, "a");
    assert_eq!(two.poll(&mut ctx), Some((done("a"), done("b"))));
    let c = activity(&mut ctx, "C");
    let d = activity(&mut ctx, "D");
    let e = activity(&mut ctx, "E");
    let mut three = ctx.join3(c, d, e);
    finish(&mut ctx, 5, "e");
    finish(&mut ctx, 3, "c");
    assert_eq!(three.poll(&mut ctx), None);
    finish(&mut ctx, 4, "d");
    assert_eq!(three.poll(&mut ctx), Some((done("c"), done("d"), done("e"))));
}

#[test]
fn a_race_takes_the_first_that_is_ready_and_cancels_the_other() {
    let mut ctx = ctx();
    let a = activity(&mut ctx, "A");
    let b = activity(&mut ctx, "B");
    let mut race = ctx.select2(a, b);
    assert!(race.poll(&mut ctx).is_none());
    finish(&mut ctx, 2, "b");
    assert_eq!(race.poll(&mut ctx), Some(Either2::Second(done("b"))));
    race.dispose(&mut ctx);
    assert_eq!(ctx.get_cancelled_activity_ids(), vec![1]);
}

#[test]
fn a_race_prefers_the_first_where_both_are_ready() {
    let mut ctx = ctx();
    let a = activity(&mut ctx, "A");
    let b = activity(&mut ctx, "B");
    finish(&mut ctx, 2, "b");
    finish(&mut ctx, 1, "a");
    let mut race = ctx.select2(a, b);
    assert_eq!(race.poll(&mut ctx), Some(Either2::First(done("a"))));
}

#[test]
fn a_race_of_three() {
    let mut ctx = ctx();
    let a = activity(&mut ctx, "A");
    let b = activity(&mut ctx, "B");
    let c = activity(&mut ctx, "C");
    let mut race = ctx.select3(a, b, c);
    finish(&mut ctx, 3, "c");
    let won = race.poll(&mut ctx).unwrap();
    assert_eq!(won, Either3::Third(done("c")));
    assert_eq!(won.index(), 2);
    race.dispose(&mut ctx);
    assert_eq!(ctx.get_cancelled_activity_ids(), vec![1, 2]);
}

#[test]
fn a_mapped_future_gives_the_image_and_keeps_the_identity() {
    let mut ctx = ctx();
    let a = activity(&mut ctx, "A");
    let b = activity(&mut ctx, "B");
    let length = |o: Outcome| match o {
        Outcome::Finished(Ok(t)) => t.len(),
        _ => 0,
    };
    let mut mapped = a.map(length);
    assert_eq!(mapped.poll(&mut ctx), None);
    finish(&mut ctx, 1, "four");
    assert_eq!(mapped.poll(&mut ctx), Some(4));
    let mapped = b.map(length);
    mapped.dispose(&mut ctx);
    assert_eq!(ctx.get_cancelled_activity_ids(), vec![2]);
}

#[test]
fn settling_hands_back_what_is_not_ready() {
    let mut ctx = ctx();
    let a = activity(&mut ctx, "A");
    let a = match settle(a, &mut ctx) {
        Err(a) => a,
        Ok(o) => panic!("{o:?}"),
    };
    finish(&mut ctx, 1, "a");
    match settle(a, &mut ctx) {
        Ok(o) => assert_eq!(o, done("a")),
        Err(_) => panic!("still pending"),
    }
}

#[test]
fn eithers_name_the_winner() {
    let first: Either2<u8, u8> = Either2::First(7);
    let second: Either2<u8, u8> = Either2::Second(8);
    assert!(first.is_first() && !first.is_second());
    assert!(second.is_second() && !second.is_first());
    assert_eq!((first.index(), second.index()), (0, 1));
    assert_eq!((first.into_tuple(), second.into_tuple()), ((0, 7), (1, 8)));
    let third: Either3<u8, u8, u8> = Either3::Third(9);
    assert_eq!(third.into_tuple(), (2, 9));
}
