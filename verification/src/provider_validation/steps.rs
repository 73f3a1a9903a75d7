//! Rows of steps that many scripts share.
use crate::provider_validation::script::Call::{Ack, Put};
use crate::provider_validation::script::Step::{Do, SetMetadata, Take};
use crate::provider_validation::script::Token::Held;
use crate::provider_validation::script::{
    chain, event, fetch_turn, metadata, millis, poke_item, start_child, start_item, started, turn,
    Call, ExecutionMetadata, Fact, Item, Step,
};
use vstd::prelude::*;

verus! {

/// A turn that starts `instance` and leaves it with this metadata.
pub open spec fn instance_made(
    item: Item,
    fetch: Call,
    instance: &'static str,
    fact: Fact,
    meta: ExecutionMetadata,
) -> Seq<Step> {
    seq![
        Do(Put(item)),
        Take(fetch, 9),
        event(1, instance, 1, fact),
        SetMetadata(meta),
        Do(Ack(Held(9), 1)),
    ]
}

/// A turn that starts `instance` and leaves it with this metadata.
pub fn make_instance(
    item: Item,
    fetch: Call,
    instance: &'static str,
    fact: Fact,
    meta: ExecutionMetadata,
) -> (r: Vec<Step>)
    ensures
        r@ == instance_made(item, fetch, instance, fact, meta),
{
    vec![
        Do(Put(item)),
        Take(fetch, 9),
        event(1, instance, 1, fact),
        SetMetadata(meta),
        Do(Ack(Held(9), 1)),
    ]
}

/// The metadata of `TestOrch` with this status and output.
#[verifier::allow_in_spec]
pub fn test_metadata(status: Option<&'static str>, output: Option<&'static str>) -> ExecutionMetadata
    returns
        (ExecutionMetadata {
            status,
            output,
            orchestration_name: Some("TestOrch"),
            orchestration_version: Some("1.0.0"),
            parent_instance_id: None,
        }),
{
    ExecutionMetadata {
        status,
        output,
        orchestration_name: Some("TestOrch"),
        orchestration_version: Some("1.0.0"),
        parent_instance_id: None,
    }
}

/// The metadata of a completed child.
#[verifier::allow_in_spec]
pub fn child_metadata(name: &'static str, parent: &'static str) -> ExecutionMetadata
    returns
        (ExecutionMetadata {
            status: Some("Completed"),
            output: Some("done"),
            orchestration_name: Some(name),
            orchestration_version: Some("1.0.0"),
            parent_instance_id: Some(parent),
        }),
{
    ExecutionMetadata {
        status: Some("Completed"),
        output: Some("done"),
        orchestration_name: Some(name),
        orchestration_version: Some("1.0.0"),
        parent_instance_id: Some(parent),
    }
}

/// An instance that was created and runs.
pub open spec fn instance_created(instance: &'static str) -> Seq<Step> {
    instance_made(
        start_item(instance),
        turn(),
        instance,
        started("TestOrch", "1.0.0"),
        test_metadata(None, None),
    )
}

/// Creates an instance that runs.
pub fn create_instance(instance: &'static str) -> (r: Vec<Step>)
    ensures
        r@ == instance_created(instance),
{
    make_instance(
        start_item(instance),
        turn(),
        instance,
        started("TestOrch", "1.0.0"),
        test_metadata(None, None),
    )
}

/// Enqueues the start of an instance under a parent.
#[verifier::allow_in_spec]
pub fn create_instance_with_parent(instance: &'static str, parent: &'static str) -> Item
    returns
        start_child(instance, parent, None),
{
    start_child(instance, parent, None)
}

/// An instance that was created and completed.
pub open spec fn completed_instance_created(instance: &'static str) -> Seq<Step> {
    instance_made(
        start_item(instance),
        turn(),
        instance,
        started("TestOrch", "1.0.0"),
        test_metadata(Some("Completed"), Some("done")),
    )
}

/// Creates a completed instance.
pub fn create_completed_instance(instance: &'static str) -> (r: Vec<Step>)
    ensures
        r@ == completed_instance_created(instance),
{
    make_instance(
        start_item(instance),
        turn(),
        instance,
        started("TestOrch", "1.0.0"),
        test_metadata(Some("Completed"), Some("done")),
    )
}

/// An instance that was created under a parent and completed.
pub open spec fn completed_child_created(instance: &'static str, parent: &'static str) -> Seq<
    Step,
> {
    instance_made(
        start_child(instance, parent, Some(1)),
        turn(),
        instance,
        Fact::Started("TestOrch", "1.0.0", "{}", Some(parent), Some(1)),
        child_metadata("TestOrch", parent),
    )
}

/// Creates a completed instance under a parent.
pub fn create_completed_instance_with_parent(
    instance: &'static str,
    parent: &'static str,
) -> (r: Vec<Step>)
    ensures
        r@ == completed_child_created(instance, parent),
{
    make_instance(
        start_child(instance, parent, Some(1)),
        turn(),
        instance,
        Fact::Started("TestOrch", "1.0.0", "{}", Some(parent), Some(1)),
        child_metadata("TestOrch", parent),
    )
}

/// An instance that was created and failed with an output.
pub open spec fn failed_instance_created(instance: &'static str, output: &'static str) -> Seq<
    Step,
> {
    instance_made(
        start_item(instance),
        turn(),
        instance,
        started("TestOrch", "1.0.0"),
        test_metadata(Some("Failed"), Some(output)),
    )
}

/// Creates a failed instance.
pub fn create_failed_instance(instance: &'static str) -> (r: Vec<Step>)
    ensures
        r@ == failed_instance_created(instance, "error: something went wrong"),
{
    make_instance(
        start_item(instance),
        turn(),
        instance,
        started("TestOrch", "1.0.0"),
        test_metadata(Some("Failed"), Some("error: something went wrong")),
    )
}

/// Creates a cancelled instance, which counts as failed.
pub fn create_cancelled_instance(instance: &'static str) -> (r: Vec<Step>)
    ensures
        r@ == failed_instance_created(instance, "cancelled: user requested cancellation"),
{
    make_instance(
        start_item(instance),
        turn(),
        instance,
        started("TestOrch", "1.0.0"),
        test_metadata(Some("Failed"), Some("cancelled: user requested cancellation")),
    )
}

/// A child orchestration that was created and completed.
pub open spec fn child_instance_created(instance: &'static str, parent: &'static str) -> Seq<Step> {
    instance_made(
        create_instance_with_parent(instance, parent),
        fetch_turn(millis(5_000)),
        instance,
        Fact::Started("ChildOrch", "1.0.0", "{}", Some(parent), None),
        child_metadata("ChildOrch", parent),
    )
}

/// Creates a completed child orchestration.
pub fn create_child_instance(instance: &'static str, parent: &'static str) -> (r: Vec<Step>)
    ensures
        r@ == child_instance_created(instance, parent),
{
    make_instance(
        create_instance_with_parent(instance, parent),
        fetch_turn(millis(5_000)),
        instance,
        Fact::Started("ChildOrch", "1.0.0", "{}", Some(parent), None),
        child_metadata("ChildOrch", parent),
    )
}

/// A turn that sets or clears the custom status.
pub open spec fn status_turn(
    instance: &'static str,
    event_id: u64,
    status: Option<&'static str>,
) -> Seq<Step> {
    seq![
        Do(Put(poke_item(instance))),
        Take(turn(), 9),
        event(event_id, instance, 1, Fact::StatusUpdated(status)),
        Do(Ack(Held(9), 1)),
    ]
}

/// Takes a turn that sets or clears the custom status.
pub fn take_status_turn(
    instance: &'static str,
    event_id: u64,
    status: Option<&'static str>,
) -> (r: Vec<Step>)
    ensures
        r@ == status_turn(instance, event_id, status),
{
    vec![
        Do(Put(poke_item(instance))),
        Take(turn(), 9),
        event(event_id, instance, 1, Fact::StatusUpdated(status)),
        Do(Ack(Held(9), 1)),
    ]
}

/// The message that begins an execution: a start for the first, and the
/// continuation of the one before for any other.
#[verifier::allow_in_spec]
pub fn execution_item(
    instance: &'static str,
    orchestration: &'static str,
    execution_id: u64,
) -> Item
    returns
        (if execution_id == 1 {
            start_item(instance)
        } else {
            Item::Continue(instance, orchestration, "{}", "1.0.0")
        }),
{
    if execution_id == 1 {
        start_item(instance)
    } else {
        Item::Continue(instance, orchestration, "{}", "1.0.0")
    }
}

/// The turn that begins an execution and leaves it with a status.
pub open spec fn execution_turn(
    instance: &'static str,
    orchestration: &'static str,
    execution_id: u64,
    status: &'static str,
) -> Seq<Step> {
    seq![
        Do(Put(execution_item(instance, orchestration, execution_id))),
        Take(turn(), 9),
        event(1, instance, execution_id, started(orchestration, "1.0.0")),
        metadata(Some(status), None, Some(orchestration), Some("1.0.0")),
        Do(Ack(Held(9), execution_id)),
    ]
}

fn take_execution_turn(
    instance: &'static str,
    orchestration: &'static str,
    execution_id: u64,
    status: &'static str,
) -> (r: Vec<Step>)
    ensures
        r@ == execution_turn(instance, orchestration, execution_id, status),
{
    vec![
        Do(Put(execution_item(instance, orchestration, execution_id))),
        Take(turn(), 9),
        event(1, instance, execution_id, started(orchestration, "1.0.0")),
        metadata(Some(status), None, Some(orchestration), Some("1.0.0")),
        Do(Ack(Held(9), execution_id)),
    ]
}

/// The turns of the first `n` executions, each of which continued as new.
pub open spec fn continued_turns(
    instance: &'static str,
    orchestration: &'static str,
    n: nat,
) -> Seq<Step>
    decreases n,
{
    if n == 0 {
        Seq::empty()
    } else {
        continued_turns(instance, orchestration, (n - 1) as nat) + execution_turn(
            instance,
            orchestration,
            n as u64,
            "ContinuedAsNew",
        )
    }
}

/// An instance with `n` executions, of which all but the last continued as new
/// and the last has a status.
pub open spec fn executions_created(
    instance: &'static str,
    orchestration: &'static str,
    n: nat,
    status: &'static str,
) -> Seq<Step> {
    if n == 0 {
        Seq::empty()
    } else {
        continued_turns(instance, orchestration, (n - 1) as nat) + execution_turn(
            instance,
            orchestration,
            n as u64,
            status,
        )
    }
}

fn create_executions(
    instance: &'static str,
    orchestration: &'static str,
    num_executions: u64,
    status: &'static str,
) -> (r: Vec<Step>)
    ensures
        r@ == executions_created(instance, orchestration, num_executions as nat, status),
{
    let mut steps: Vec<Step> = Vec::new();
    if num_executions == 0 {
        return steps;
    }
    let mut execution_id: u64 = 1;
    while execution_id < num_executions
        invariant
            1 <= execution_id <= num_executions,
            steps@ == continued_turns(instance, orchestration, (execution_id - 1) as nat),
        decreases num_executions - execution_id,
    {
        let more = take_execution_turn(instance, orchestration, execution_id, "ContinuedAsNew");
        steps = chain(steps, more);
        execution_id += 1;
    }
    let last = take_execution_turn(instance, orchestration, num_executions, status);
    chain(steps, last)
}

/// Creates an instance with executions that continued as new, the last of which
/// completed.
pub fn create_multi_execution_instance(instance: &'static str, num_executions: u64) -> (r: Vec<
    Step,
>)
    ensures
        r@ == executions_created(instance, "TestOrch", num_executions as nat, "Completed"),
{
    create_executions(instance, "TestOrch", num_executions, "Completed")
}

/// Creates an instance with executions that continued as new, the last of which
/// runs.
pub fn create_running_multi_execution_instance(
    instance: &'static str,
    num_executions: u64,
) -> (r: Vec<Step>)
    ensures
        r@ == executions_created(instance, "LongRunning", num_executions as nat, "Running"),
{
    create_executions(instance, "LongRunning", num_executions, "Running")
}

proof fn lemma_continued_turns(instance: &'static str, orchestration: &'static str, n: nat)
    ensures
        continued_turns(instance, orchestration, n).len() == 5 * n,
        forall|i: int|
            0 <= i < 5 * n ==> !((#[trigger] continued_turns(instance, orchestration, n)[i])
                is SkipIfNothing),
    decreases n,
{
    if n > 0 {
        lemma_continued_turns(instance, orchestration, (n - 1) as nat);
    }
}

/// An execution takes five steps, none of which skips others.
pub proof fn lemma_executions_created(
    instance: &'static str,
    orchestration: &'static str,
    n: nat,
    status: &'static str,
)
    ensures
        executions_created(instance, orchestration, n, status).len() == 5 * n,
        forall|i: int|
            0 <= i < 5 * n ==> !((#[trigger] executions_created(
                instance,
                orchestration,
                n,
                status,
            )[i]) is SkipIfNothing),
{
    if n > 0 {
        lemma_continued_turns(instance, orchestration, (n - 1) as nat);
    }
}

/// An instance is made by putting its first message, taking the turn for it, and
/// acknowledging that turn with the start of the orchestration and the metadata.
pub proof fn law_an_instance_is_made_in_one_turn(
    item: Item,
    fetch: Call,
    instance: &'static str,
    fact: Fact,
    meta: ExecutionMetadata,
    script: Vec<Step>,
)
    requires
        call_ensures(make_instance, (item, fetch, instance, fact, meta), script),
    ensures
        script@.len() == 5,
        script@[0] == Do(Put(item)),
        script@[1] == Take(fetch, 9),
        script@[2] == event(1, instance, 1, fact),
        script@[3] == SetMetadata(meta),
        script@[4] == Do(Ack(Held(9), 1)),
{
}

/// The instances that scripts begin with differ in the status and output that their only
/// turn leaves them with, and in the parent that they are started under.
pub proof fn law_instances_are_left_as_their_names_say(
    instance: &'static str,
    parent: &'static str,
    running: Vec<Step>,
    completed: Vec<Step>,
    failed: Vec<Step>,
    cancelled: Vec<Step>,
    child: Vec<Step>,
    completed_child: Vec<Step>,
)
    requires
        call_ensures(create_instance, (instance,), running),
        call_ensures(create_completed_instance, (instance,), completed),
        call_ensures(create_failed_instance, (instance,), failed),
        call_ensures(create_cancelled_instance, (instance,), cancelled),
        call_ensures(create_child_instance, (instance, parent), child),
        call_ensures(create_completed_instance_with_parent, (instance, parent), completed_child),
    ensures
        leaves(running@, instance, None, None, None),
        leaves(completed@, instance, Some("Completed"), Some("done"), None),
        leaves(failed@, instance, Some("Failed"), Some("error: something went wrong"), None),
        leaves(
            cancelled@,
            instance,
            Some("Failed"),
            Some("cancelled: user requested cancellation"),
            None,
        ),
        leaves(child@, instance, Some("Completed"), Some("done"), Some(parent)),
        leaves(completed_child@, instance, Some("Completed"), Some("done"), Some(parent)),
{
}

/// A script that starts an instance, under a parent or as a root, and leaves it with this
/// status and output.
pub open spec fn leaves(
    script: Seq<Step>,
    instance: &'static str,
    status: Option<&'static str>,
    output: Option<&'static str>,
    parent: Option<&'static str>,
) -> bool {
    &&& script.len() == 5
    &&& script[0] matches Do(Put(Item::Start(i, _, _, _, p, _, e))) && i == instance && p == parent
        && e == 1
    &&& script[3] matches SetMetadata(meta) && meta.status == status && meta.output == output
        && meta.parent_instance_id == parent
    &&& script[4] == Do(Ack(Held(9), 1))
}

proof fn lemma_continued_turn_at(
    instance: &'static str,
    orchestration: &'static str,
    n: nat,
    i: nat,
    k: int,
)
    requires
        1 <= i <= n,
        0 <= k < 5,
    ensures
        continued_turns(instance, orchestration, n)[5 * (i - 1) + k] == execution_turn(
            instance,
            orchestration,
            i as u64,
            "ContinuedAsNew",
        )[k],
    decreases n,
{
    lemma_continued_turns(instance, orchestration, (n - 1) as nat);
    if i < n {
        lemma_continued_turn_at(instance, orchestration, (n - 1) as nat, i, k);
    }
}

/// A script that begins the execution `e` at its place `at` and leaves it with a status: the
/// first one is started, and any other one continues the one before.
pub open spec fn executes(
    script: Seq<Step>,
    at: int,
    instance: &'static str,
    orchestration: &'static str,
    e: u64,
    status: &'static str,
) -> bool {
    &&& e == 1 ==> (script[at] matches Do(Put(Item::Start(i, _, _, _, None, None, x))) && i
        == instance && x == 1)
    &&& e != 1 ==> (script[at] matches Do(Put(Item::Continue(i, o, _, _))) && i == instance && o
        == orchestration)
    &&& script[at + 2] == event(1, instance, e, started(orchestration, "1.0.0"))
    &&& script[at + 3] == metadata(Some(status), None, Some(orchestration), Some("1.0.0"))
    &&& script[at + 4] == Do(Ack(Held(9), e))
}

/// An instance with several executions has as many as were asked for, in their order: all
/// but the last continued as new, and the last completed, or runs.
pub proof fn law_executions_follow_one_another(
    instance: &'static str,
    n: u64,
    e: u64,
    completed: Vec<Step>,
    running: Vec<Step>,
)
    requires
        call_ensures(create_multi_execution_instance, (instance, n), completed),
        call_ensures(create_running_multi_execution_instance, (instance, n), running),
        1 <= e <= n,
    ensures
        completed@.len() == 5 * n && running@.len() == 5 * n,
        executes(
            completed@,
            5 * (e - 1),
            instance,
            "TestOrch",
            e,
            if e < n {
                "ContinuedAsNew"
            } else {
                "Completed"
            },
        ),
        executes(
            running@,
            5 * (e - 1),
            instance,
            "LongRunning",
            e,
            if e < n {
                "ContinuedAsNew"
            } else {
                "Running"
            },
        ),
{
    lemma_executions_created(instance, "TestOrch", n as nat, "Completed");
    lemma_executions_created(instance, "LongRunning", n as nat, "Running");
    lemma_continued_turns(instance, "TestOrch", (n - 1) as nat);
    lemma_continued_turns(instance, "LongRunning", (n - 1) as nat);
    if e < n {
        assert forall|k: int| 0 <= k < 5 implies #[trigger] completed@[5 * (e - 1) + k]
            == execution_turn(instance, "TestOrch", e, "ContinuedAsNew")[k] by {
            lemma_continued_turn_at(instance, "TestOrch", (n - 1) as nat, e as nat, k);
        }
        assert forall|k: int| 0 <= k < 5 implies #[trigger] running@[5 * (e - 1) + k]
            == execution_turn(instance, "LongRunning", e, "ContinuedAsNew")[k] by {
            lemma_continued_turn_at(instance, "LongRunning", (n - 1) as nat, e as nat, k);
        }
    } else {
        assert forall|k: int| 0 <= k < 5 implies #[trigger] completed@[5 * (e - 1) + k]
            == execution_turn(instance, "TestOrch", e, "Completed")[k] by {}
        assert forall|k: int| 0 <= k < 5 implies #[trigger] running@[5 * (e - 1) + k]
            == execution_turn(instance, "LongRunning", e, "Running")[k] by {}
    }
    assert(completed@[5 * (e - 1) + 0] == completed@[5 * (e - 1)]);
    assert(running@[5 * (e - 1) + 0] == running@[5 * (e - 1)]);
}

/// A turn for the status puts a message that makes the instance take it, and acknowledges it
/// with the one change.
pub proof fn law_a_status_turn_sets_the_status(
    instance: &'static str,
    event_id: u64,
    status: Option<&'static str>,
    script: Vec<Step>,
)
    requires
        call_ensures(take_status_turn, (instance, event_id, status), script),
    ensures
        script@.len() == 4,
        script@[0] == Do(Put(Item::Raised(instance, "poke", "{}"))),
        script@[1] == Take(turn(), 9),
        script@[2] == event(event_id, instance, 1, Fact::StatusUpdated(status)),
        script@[3] == Do(Ack(Held(9), 1)),
{
}

} // verus!
