//! Whether instances are deleted, with all that belongs to them.
use crate::provider_validation::reply::{self, Reply};
use crate::provider_validation::runner::{self, RunModel};
use crate::provider_validation::script::Call::{
    Ack, AckWork, Delete, DeleteListed, InstanceInfo, ListChildren, Management, ParentOf, Put,
    PutWork, Tree,
};
use crate::provider_validation::script::Step::{AddEvent, AddId, AddWork, Do, Expect, Take, Try};
use crate::provider_validation::script::Token::Held;
use crate::provider_validation::script::{
    activity, at_least, chain, completed, event, metadata, number_is, start_item, started, text_is,
    turn, work, Check, Fact, Item, Num, ScriptEvent, Step, Txt,
};
use crate::provider_validation::steps;
use vstd::prelude::*;

verus! {

/// The script of [`test_delete_terminal_instances`].
pub open spec fn delete_terminal_instances_steps() -> Seq<Step> {
    seq![Do(Management)] + steps::completed_instance_created("delete-term-completed")
        + steps::failed_instance_created("delete-term-failed", "error: something went wrong")
        + steps::failed_instance_created(
              "delete-term-cancelled",
              "cancelled: user requested cancellation",
          ) + seq![
        Do(InstanceInfo("delete-term-completed")),
        Do(InstanceInfo("delete-term-failed")),
        Do(InstanceInfo("delete-term-cancelled")),
        Do(Delete("delete-term-completed", false)),
        at_least(Num::InstancesDeleted, 1),
        at_least(Num::ExecutionsDeleted, 1),
        at_least(Num::EventsDeleted, 1),
        Try(InstanceInfo("delete-term-completed")),
        Expect(Check::Failed),
        Do(Delete("delete-term-failed", false)),
        at_least(Num::InstancesDeleted, 1),
        Try(InstanceInfo("delete-term-failed")),
        Expect(Check::Failed),
        Do(Delete("delete-term-cancelled", false)),
        at_least(Num::InstancesDeleted, 1),
        Try(InstanceInfo("delete-term-cancelled")),
        Expect(Check::Failed),
    ]
}

/// Instances that completed, failed or were cancelled can be deleted.
pub fn test_delete_terminal_instances() -> (r: Vec<Step>)
    ensures
        r@ == delete_terminal_instances_steps(),
{
    let mut steps = vec![Do(Management)];
    steps = chain(steps, steps::create_completed_instance("delete-term-completed"));
    steps = chain(steps, steps::create_failed_instance("delete-term-failed"));
    steps = chain(steps, steps::create_cancelled_instance("delete-term-cancelled"));
    steps = chain(steps, vec![
        Do(InstanceInfo("delete-term-completed")),
        Do(InstanceInfo("delete-term-failed")),
        Do(InstanceInfo("delete-term-cancelled")),
        Do(Delete("delete-term-completed", false)),
        at_least(Num::InstancesDeleted, 1),
        at_least(Num::ExecutionsDeleted, 1),
        at_least(Num::EventsDeleted, 1),
        Try(InstanceInfo("delete-term-completed")),
        Expect(Check::Failed),
        Do(Delete("delete-term-failed", false)),
        at_least(Num::InstancesDeleted, 1),
        Try(InstanceInfo("delete-term-failed")),
        Expect(Check::Failed),
        Do(Delete("delete-term-cancelled", false)),
        at_least(Num::InstancesDeleted, 1),
        Try(InstanceInfo("delete-term-cancelled")),
        Expect(Check::Failed),
    ]);
    steps
}

/// The script of [`test_delete_running_rejected_force_succeeds`].
pub open spec fn delete_running_rejected_force_succeeds_steps() -> Seq<Step> {
    seq![Do(Management)] + steps::instance_created("delete-running-force") + seq![
        Try(Delete("delete-running-force", false)),
        Expect(Check::Failed),
        Expect(Check::Permanent),
        Expect(Check::Says("running", "running", "running")),
        Do(InstanceInfo("delete-running-force")),
        Do(Delete("delete-running-force", true)),
        at_least(Num::InstancesDeleted, 1),
        Try(InstanceInfo("delete-running-force")),
        Expect(Check::Failed),
    ]
}

/// An instance that runs is deleted only by force.
pub fn test_delete_running_rejected_force_succeeds() -> (r: Vec<Step>)
    ensures
        r@ == delete_running_rejected_force_succeeds_steps(),
{
    let mut steps = vec![Do(Management)];
    steps = chain(steps, steps::create_instance("delete-running-force"));
    steps = chain(steps, vec![
        Try(Delete("delete-running-force", false)),
        Expect(Check::Failed),
        Expect(Check::Permanent),
        Expect(Check::Says("running", "running", "running")),
        Do(InstanceInfo("delete-running-force")),
        Do(Delete("delete-running-force", true)),
        at_least(Num::InstancesDeleted, 1),
        Try(InstanceInfo("delete-running-force")),
        Expect(Check::Failed),
    ]);
    steps
}

/// The script of [`test_delete_nonexistent_instance`].
pub open spec fn delete_nonexistent_instance_steps() -> Seq<Step> {
    seq![
        Try(Delete("does-not-exist-12345", false)),
        Expect(Check::Failed),
        Expect(Check::Permanent),
        Expect(Check::Says("not found", "not found", "not found")),
    ]
}

/// An instance that does not exist cannot be deleted.
pub fn test_delete_nonexistent_instance() -> (r: Vec<Step>)
    ensures
        r@ == delete_nonexistent_instance_steps(),
{
    vec![
        Try(Delete("does-not-exist-12345", false)),
        Expect(Check::Failed),
        Expect(Check::Permanent),
        Expect(Check::Says("not found", "not found", "not found")),
    ]
}

/// The script of [`test_delete_cleans_queues_and_locks`].
pub open spec fn delete_cleans_queues_and_locks_steps() -> Seq<Step> {
    seq![
        Do(Management),
        Do(Put(start_item("delete-queues-locks"))),
        Do(PutWork(activity("delete-queues-locks", 1, "TestActivity"))),
        Take(turn(), 0),
        event(1, "delete-queues-locks", 1, started("TestOrch", "1.0.0")),
        metadata(Some("Completed"), None, Some("TestOrch"), Some("1.0.0")),
        Do(Ack(Held(0), 1)),
        Do(Delete("delete-queues-locks", false)),
        at_least(Num::QueueMessagesDeleted, 1),
        Do(
            Put(
                Item::Start(
                    "delete-queues-locks",
                    "ReusedOrch",
                    "{\"reused\": true}",
                    Some("2.0.0"),
                    None,
                    None,
                    1,
                ),
            ),
        ),
        Take(turn(), 1),
        text_is(Txt::TurnOrchestration, "ReusedOrch"),
        event(
            1,
            "delete-queues-locks",
            1,
            Fact::Started("ReusedOrch", "2.0.0", "{\"reused\": true}", None, None),
        ),
        metadata(None, None, Some("ReusedOrch"), Some("2.0.0")),
        Do(Ack(Held(1), 1)),
        Do(InstanceInfo("delete-queues-locks")),
        text_is(Txt::InfoOrchestration, "ReusedOrch"),
        Do(Delete("delete-queues-locks", true)),
    ]
}

/// With an instance go its messages and locks, so that its ID can be used again.
pub fn test_delete_cleans_queues_and_locks() -> (r: Vec<Step>)
    ensures
        r@ == delete_cleans_queues_and_locks_steps(),
{
    vec![
        Do(Management),
        Do(Put(start_item("delete-queues-locks"))),
        Do(PutWork(activity("delete-queues-locks", 1, "TestActivity"))),
        Take(turn(), 0),
        event(1, "delete-queues-locks", 1, started("TestOrch", "1.0.0")),
        metadata(Some("Completed"), None, Some("TestOrch"), Some("1.0.0")),
        Do(Ack(Held(0), 1)),
        Do(Delete("delete-queues-locks", false)),
        at_least(Num::QueueMessagesDeleted, 1),
        Do(
            Put(
                Item::Start(
                    "delete-queues-locks",
                    "ReusedOrch",
                    "{\"reused\": true}",
                    Some("2.0.0"),
                    None,
                    None,
                    1,
                ),
            ),
        ),
        Take(turn(), 1),
        text_is(Txt::TurnOrchestration, "ReusedOrch"),
        event(
            1,
            "delete-queues-locks",
            1,
            Fact::Started("ReusedOrch", "2.0.0", "{\"reused\": true}", None, None),
        ),
        metadata(None, None, Some("ReusedOrch"), Some("2.0.0")),
        Do(Ack(Held(1), 1)),
        Do(InstanceInfo("delete-queues-locks")),
        text_is(Txt::InfoOrchestration, "ReusedOrch"),
        Do(Delete("delete-queues-locks", true)),
    ]
}

/// The script of [`test_cascade_delete_hierarchy`].
pub open spec fn cascade_delete_hierarchy_steps() -> Seq<Step> {
    seq![Do(Management)] + steps::completed_instance_created("cascade-root")
        + steps::completed_child_created("cascade-child1", "cascade-root")
        + steps::completed_child_created("cascade-child2", "cascade-root")
        + steps::completed_child_created("cascade-grandchild", "cascade-child1") + seq![
        Do(InstanceInfo("cascade-root")),
        Do(InstanceInfo("cascade-child1")),
        Do(InstanceInfo("cascade-child2")),
        Do(InstanceInfo("cascade-grandchild")),
        Try(Delete("cascade-child1", false)),
        Expect(Check::Failed),
        Expect(Check::Says("sub-orchestration", "root", "parent")),
        Try(Delete("cascade-child1", true)),
        Expect(Check::Failed),
        Try(Delete("cascade-grandchild", false)),
        Expect(Check::Failed),
        Do(Delete("cascade-root", false)),
        at_least(Num::InstancesDeleted, 1),
        at_least(Num::ExecutionsDeleted, 4),
        Try(InstanceInfo("cascade-root")),
        Expect(Check::Failed),
        Try(InstanceInfo("cascade-child1")),
        Expect(Check::Failed),
        Try(InstanceInfo("cascade-child2")),
        Expect(Check::Failed),
        Try(InstanceInfo("cascade-grandchild")),
        Expect(Check::Failed),
    ]
}

/// A sub-orchestration goes only with its root, and with a root go all its
/// descendants.
pub fn test_cascade_delete_hierarchy() -> (r: Vec<Step>)
    ensures
        r@ == cascade_delete_hierarchy_steps(),
{
    let mut steps = vec![Do(Management)];
    steps = chain(steps, steps::create_completed_instance("cascade-root"));
    steps = chain(steps, steps::create_completed_instance_with_parent(
                              "cascade-child1",
                              "cascade-root",
                          ));
    steps = chain(steps, steps::create_completed_instance_with_parent(
                              "cascade-child2",
                              "cascade-root",
                          ));
    steps = chain(steps, steps::create_completed_instance_with_parent(
                              "cascade-grandchild",
                              "cascade-child1",
                          ));
    steps = chain(steps, vec![
        Do(InstanceInfo("cascade-root")),
        Do(InstanceInfo("cascade-child1")),
        Do(InstanceInfo("cascade-child2")),
        Do(InstanceInfo("cascade-grandchild")),
        Try(Delete("cascade-child1", false)),
        Expect(Check::Failed),
        Expect(Check::Says("sub-orchestration", "root", "parent")),
        Try(Delete("cascade-child1", true)),
        Expect(Check::Failed),
        Try(Delete("cascade-grandchild", false)),
        Expect(Check::Failed),
        Do(Delete("cascade-root", false)),
        at_least(Num::InstancesDeleted, 1),
        at_least(Num::ExecutionsDeleted, 4),
        Try(InstanceInfo("cascade-root")),
        Expect(Check::Failed),
        Try(InstanceInfo("cascade-child1")),
        Expect(Check::Failed),
        Try(InstanceInfo("cascade-child2")),
        Expect(Check::Failed),
        Try(InstanceInfo("cascade-grandchild")),
        Expect(Check::Failed),
    ]);
    steps
}

/// The script of [`test_force_delete_prevents_ack_recreation`].
pub open spec fn force_delete_prevents_ack_recreation_steps() -> Seq<Step> {
    seq![
        Do(Management),
        Do(Put(start_item("zombie-prevention"))),
        Take(turn(), 0),
        event(1, "zombie-prevention", 1, started("TestOrch", "1.0.0")),
        metadata(None, None, Some("TestOrch"), Some("1.0.0")),
        Do(Ack(Held(0), 1)),
        Do(Put(Item::Raised("zombie-prevention", "test-event", "{}"))),
        Take(turn(), 1),
        Do(Delete("zombie-prevention", true)),
        at_least(Num::InstancesDeleted, 1),
        event(2, "zombie-prevention", 1, Fact::External("test-event", "{}")),
        Try(Ack(Held(1), 1)),
        Expect(Check::Failed),
        Try(InstanceInfo("zombie-prevention")),
        Expect(Check::Failed),
    ]
}

/// A turn that was under way when its instance was deleted by force cannot be
/// acknowledged, and does not bring the instance back.
pub fn test_force_delete_prevents_ack_recreation() -> (r: Vec<Step>)
    ensures
        r@ == force_delete_prevents_ack_recreation_steps(),
{
    vec![
        Do(Management),
        Do(Put(start_item("zombie-prevention"))),
        Take(turn(), 0),
        event(1, "zombie-prevention", 1, started("TestOrch", "1.0.0")),
        metadata(None, None, Some("TestOrch"), Some("1.0.0")),
        Do(Ack(Held(0), 1)),
        Do(Put(Item::Raised("zombie-prevention", "test-event", "{}"))),
        Take(turn(), 1),
        Do(Delete("zombie-prevention", true)),
        at_least(Num::InstancesDeleted, 1),
        event(2, "zombie-prevention", 1, Fact::External("test-event", "{}")),
        Try(Ack(Held(1), 1)),
        Expect(Check::Failed),
        Try(InstanceInfo("zombie-prevention")),
        Expect(Check::Failed),
    ]
}

/// The script of [`test_list_children`].
pub open spec fn list_children_steps() -> Seq<Step> {
    seq![Do(Management)] + steps::completed_instance_created("list-children-root")
        + steps::child_instance_created("list-children-root::sub::2", "list-children-root")
        + steps::child_instance_created("list-children-root::sub::3", "list-children-root")
        + steps::child_instance_created(
              "list-children-root::sub::3::sub::4",
              "list-children-root::sub::3",
          ) + seq![
        Do(ListChildren("list-children-root")),
        number_is(Num::Names, 2),
        Expect(Check::Has("list-children-root::sub::2")),
        Expect(Check::Has("list-children-root::sub::3")),
        Expect(Check::Lacks("list-children-root::sub::3::sub::4")),
        Do(ListChildren("list-children-root::sub::3")),
        number_is(Num::Names, 1),
        Expect(Check::Has("list-children-root::sub::3::sub::4")),
        Do(ListChildren("list-children-root::sub::3::sub::4")),
        number_is(Num::Names, 0),
        Do(ListChildren("non-existent")),
        number_is(Num::Names, 0),
        Do(Delete("list-children-root", true)),
    ]
}

/// The children of an instance are its direct ones; a leaf and an unknown instance
/// have none.
pub fn test_list_children() -> (r: Vec<Step>)
    ensures
        r@ == list_children_steps(),
{
    let mut steps = vec![Do(Management)];
    steps = chain(steps, steps::create_completed_instance("list-children-root"));
    steps = chain(steps, steps::create_child_instance(
                              "list-children-root::sub::2",
                              "list-children-root",
                          ));
    steps = chain(steps, steps::create_child_instance(
                              "list-children-root::sub::3",
                              "list-children-root",
                          ));
    steps = chain(steps, steps::create_child_instance(
                              "list-children-root::sub::3::sub::4",
                              "list-children-root::sub::3",
                          ));
    steps = chain(steps, vec![
        Do(ListChildren("list-children-root")),
        number_is(Num::Names, 2),
        Expect(Check::Has("list-children-root::sub::2")),
        Expect(Check::Has("list-children-root::sub::3")),
        Expect(Check::Lacks("list-children-root::sub::3::sub::4")),
        Do(ListChildren("list-children-root::sub::3")),
        number_is(Num::Names, 1),
        Expect(Check::Has("list-children-root::sub::3::sub::4")),
        Do(ListChildren("list-children-root::sub::3::sub::4")),
        number_is(Num::Names, 0),
        Do(ListChildren("non-existent")),
        number_is(Num::Names, 0),
        Do(Delete("list-children-root", true)),
    ]);
    steps
}

/// The script of [`test_delete_get_parent_id`].
pub open spec fn delete_get_parent_id_steps() -> Seq<Step> {
    seq![Do(Management)] + steps::completed_instance_created("parent-id-root")
        + steps::child_instance_created("parent-id-root::sub::2", "parent-id-root") + seq![
        Do(ParentOf("parent-id-root")),
        Expect(Check::NoText(Txt::Parent)),
        Do(ParentOf("parent-id-root::sub::2")),
        text_is(Txt::Parent, "parent-id-root"),
        Try(ParentOf("non-existent")),
        Expect(Check::Failed),
        Do(Delete("parent-id-root", true)),
    ]
}

/// A root has no parent, a child has its parent, and asking for an unknown instance
/// fails.
pub fn test_delete_get_parent_id() -> (r: Vec<Step>)
    ensures
        r@ == delete_get_parent_id_steps(),
{
    let mut steps = vec![Do(Management)];
    steps = chain(steps, steps::create_completed_instance("parent-id-root"));
    steps = chain(steps, steps::create_child_instance("parent-id-root::sub::2", "parent-id-root"));
    steps = chain(steps, vec![
        Do(ParentOf("parent-id-root")),
        Expect(Check::NoText(Txt::Parent)),
        Do(ParentOf("parent-id-root::sub::2")),
        text_is(Txt::Parent, "parent-id-root"),
        Try(ParentOf("non-existent")),
        Expect(Check::Failed),
        Do(Delete("parent-id-root", true)),
    ]);
    steps
}

/// The script of [`test_delete_get_instance_tree`].
pub open spec fn delete_get_instance_tree_steps() -> Seq<Step> {
    seq![Do(Management)] + steps::completed_instance_created("tree-root")
        + steps::child_instance_created("tree-root::sub::2", "tree-root")
        + steps::child_instance_created("tree-root::sub::3", "tree-root")
        + steps::child_instance_created("tree-root::sub::3::sub::4", "tree-root::sub::3") + seq![
        Do(Tree("tree-root")),
        text_is(Txt::TreeRoot, "tree-root"),
        number_is(Num::TreeSize, 4),
        Expect(Check::RootOnly(false)),
        Expect(Check::Has("tree-root")),
        Expect(Check::Has("tree-root::sub::2")),
        Expect(Check::Has("tree-root::sub::3")),
        Expect(Check::Has("tree-root::sub::3::sub::4")),
        Do(Tree("tree-root::sub::3::sub::4")),
        number_is(Num::TreeSize, 1),
        Expect(Check::RootOnly(true)),
        Do(Delete("tree-root", true)),
    ]
}

/// The tree of an instance holds it and all its descendants.
pub fn test_delete_get_instance_tree() -> (r: Vec<Step>)
    ensures
        r@ == delete_get_instance_tree_steps(),
{
    let mut steps = vec![Do(Management)];
    steps = chain(steps, steps::create_completed_instance("tree-root"));
    steps = chain(steps, steps::create_child_instance("tree-root::sub::2", "tree-root"));
    steps = chain(steps, steps::create_child_instance("tree-root::sub::3", "tree-root"));
    steps = chain(steps, steps::create_child_instance(
                              "tree-root::sub::3::sub::4",
                              "tree-root::sub::3",
                          ));
    steps = chain(steps, vec![
        Do(Tree("tree-root")),
        text_is(Txt::TreeRoot, "tree-root"),
        number_is(Num::TreeSize, 4),
        Expect(Check::RootOnly(false)),
        Expect(Check::Has("tree-root")),
        Expect(Check::Has("tree-root::sub::2")),
        Expect(Check::Has("tree-root::sub::3")),
        Expect(Check::Has("tree-root::sub::3::sub::4")),
        Do(Tree("tree-root::sub::3::sub::4")),
        number_is(Num::TreeSize, 1),
        Expect(Check::RootOnly(true)),
        Do(Delete("tree-root", true)),
    ]);
    steps
}

/// The script of [`test_delete_instances_atomic`].
pub open spec fn delete_instances_atomic_steps() -> Seq<Step> {
    seq![Do(Management)] + steps::completed_instance_created("atomic-del-1")
        + steps::completed_instance_created("atomic-del-2")
        + steps::completed_instance_created("atomic-del-3") + seq![
        Do(InstanceInfo("atomic-del-1")),
        Do(InstanceInfo("atomic-del-2")),
        Do(InstanceInfo("atomic-del-3")),
        AddId("atomic-del-1"),
        AddId("atomic-del-2"),
        AddId("atomic-del-3"),
        Do(DeleteListed(false)),
        at_least(Num::InstancesDeleted, 1),
        at_least(Num::ExecutionsDeleted, 3),
        Try(InstanceInfo("atomic-del-1")),
        Expect(Check::Failed),
        Try(InstanceInfo("atomic-del-2")),
        Expect(Check::Failed),
        Try(InstanceInfo("atomic-del-3")),
        Expect(Check::Failed),
    ]
}

/// Listed instances are deleted together.
pub fn test_delete_instances_atomic() -> (r: Vec<Step>)
    ensures
        r@ == delete_instances_atomic_steps(),
{
    let mut steps = vec![Do(Management)];
    steps = chain(steps, steps::create_completed_instance("atomic-del-1"));
    steps = chain(steps, steps::create_completed_instance("atomic-del-2"));
    steps = chain(steps, steps::create_completed_instance("atomic-del-3"));
    steps = chain(steps, vec![
        Do(InstanceInfo("atomic-del-1")),
        Do(InstanceInfo("atomic-del-2")),
        Do(InstanceInfo("atomic-del-3")),
        AddId("atomic-del-1"),
        AddId("atomic-del-2"),
        AddId("atomic-del-3"),
        Do(DeleteListed(false)),
        at_least(Num::InstancesDeleted, 1),
        at_least(Num::ExecutionsDeleted, 3),
        Try(InstanceInfo("atomic-del-1")),
        Expect(Check::Failed),
        Try(InstanceInfo("atomic-del-2")),
        Expect(Check::Failed),
        Try(InstanceInfo("atomic-del-3")),
        Expect(Check::Failed),
    ]);
    steps
}

/// The script of [`test_delete_instances_atomic_force`].
pub open spec fn delete_instances_atomic_force_steps() -> Seq<Step> {
    seq![Do(Management)] + steps::completed_instance_created("atomic-force-completed")
        + steps::instance_created("atomic-force-running") + seq![
        AddId("atomic-force-completed"),
        AddId("atomic-force-running"),
        Try(DeleteListed(false)),
        Expect(Check::Failed),
        Do(InstanceInfo("atomic-force-completed")),
        Do(InstanceInfo("atomic-force-running")),
        AddId("atomic-force-completed"),
        AddId("atomic-force-running"),
        Do(DeleteListed(true)),
        at_least(Num::InstancesDeleted, 1),
        Try(InstanceInfo("atomic-force-completed")),
        Expect(Check::Failed),
        Try(InstanceInfo("atomic-force-running")),
        Expect(Check::Failed),
    ]
}

/// Where one of the listed instances runs, none is deleted but by force.
pub fn test_delete_instances_atomic_force() -> (r: Vec<Step>)
    ensures
        r@ == delete_instances_atomic_force_steps(),
{
    let mut steps = vec![Do(Management)];
    steps = chain(steps, steps::create_completed_instance("atomic-force-completed"));
    steps = chain(steps, steps::create_instance("atomic-force-running"));
    steps = chain(steps, vec![
        AddId("atomic-force-completed"),
        AddId("atomic-force-running"),
        Try(DeleteListed(false)),
        Expect(Check::Failed),
        Do(InstanceInfo("atomic-force-completed")),
        Do(InstanceInfo("atomic-force-running")),
        AddId("atomic-force-completed"),
        AddId("atomic-force-running"),
        Do(DeleteListed(true)),
        at_least(Num::InstancesDeleted, 1),
        Try(InstanceInfo("atomic-force-completed")),
        Expect(Check::Failed),
        Try(InstanceInfo("atomic-force-running")),
        Expect(Check::Failed),
    ]);
    steps
}

/// The script of [`test_delete_instances_atomic_orphan_detection`].
pub open spec fn delete_instances_atomic_orphan_detection_steps() -> Seq<Step> {
    seq![Do(Management)] + steps::completed_instance_created("orphan-detect-root")
        + steps::child_instance_created("orphan-detect-root::sub::2", "orphan-detect-root")
        + seq![
        Do(InstanceInfo("orphan-detect-root")),
        Do(InstanceInfo("orphan-detect-root::sub::2")),
        AddId("orphan-detect-root"),
        Try(DeleteListed(false)),
        Expect(Check::Failed),
        Expect(Check::Says("child", "orphan", "tree")),
        Do(InstanceInfo("orphan-detect-root")),
        Do(InstanceInfo("orphan-detect-root::sub::2")),
        AddId("orphan-detect-root"),
        AddId("orphan-detect-root::sub::2"),
        Do(DeleteListed(false)),
        Try(InstanceInfo("orphan-detect-root")),
        Expect(Check::Failed),
        Try(InstanceInfo("orphan-detect-root::sub::2")),
        Expect(Check::Failed),
    ]
}

/// Where the deletion of the listed instances would leave a child without its
/// parent, nothing is deleted.
pub fn test_delete_instances_atomic_orphan_detection() -> (r: Vec<Step>)
    ensures
        r@ == delete_instances_atomic_orphan_detection_steps(),
{
    let mut steps = vec![Do(Management)];
    steps = chain(steps, steps::create_completed_instance("orphan-detect-root"));
    steps = chain(steps, steps::create_child_instance(
                              "orphan-detect-root::sub::2",
                              "orphan-detect-root",
                          ));
    steps = chain(steps, vec![
        Do(InstanceInfo("orphan-detect-root")),
        Do(InstanceInfo("orphan-detect-root::sub::2")),
        AddId("orphan-detect-root"),
        Try(DeleteListed(false)),
        Expect(Check::Failed),
        Expect(Check::Says("child", "orphan", "tree")),
        Do(InstanceInfo("orphan-detect-root")),
        Do(InstanceInfo("orphan-detect-root::sub::2")),
        AddId("orphan-detect-root"),
        AddId("orphan-detect-root::sub::2"),
        Do(DeleteListed(false)),
        Try(InstanceInfo("orphan-detect-root")),
        Expect(Check::Failed),
        Try(InstanceInfo("orphan-detect-root::sub::2")),
        Expect(Check::Failed),
    ]);
    steps
}

/// The script of [`test_stale_activity_after_delete_recreate`].
pub open spec fn stale_activity_after_delete_recreate_steps() -> Seq<Step> {
    seq![
        Do(Management),
        Do(Put(start_item("stale-activity-recreate"))),
        Take(turn(), 0),
        event(1, "stale-activity-recreate", 1, started("TestOrch", "1.0.0")),
        AddEvent(
            ScriptEvent {
                event_id: 2,
                instance: "stale-activity-recreate",
                execution_id: 1,
                source_event_id: Some(2),
                fact: Fact::Scheduled("OldActivity", "old-input"),
            },
        ),
        AddWork(Item::Activity("stale-activity-recreate", 1, 2, "OldActivity", "old-input")),
        metadata(None, None, Some("TestOrch"), Some("1.0.0")),
        Do(Ack(Held(0), 1)),
        Take(work(), 1),
        Do(Delete("stale-activity-recreate", true)),
        at_least(Num::InstancesDeleted, 1),
        Try(InstanceInfo("stale-activity-recreate")),
        Expect(Check::Failed),
        Do(Put(start_item("stale-activity-recreate"))),
        Take(turn(), 2),
        event(1, "stale-activity-recreate", 1, started("TestOrch", "1.0.0")),
        metadata(None, None, Some("TestOrch"), Some("1.0.0")),
        Do(Ack(Held(2), 1)),
        Do(InstanceInfo("stale-activity-recreate")),
        text_is(Txt::InfoOrchestration, "TestOrch"),
        Try(
            AckWork(
                Held(1),
                Some(completed("stale-activity-recreate", 2, "stale-result-from-old-instance")),
            ),
        ),
        Expect(Check::Failed),
        Do(Put(Item::Raised("stale-activity-recreate", "probe-event", "{}"))),
        Take(turn(), 3),
        Expect(Check::NoCompletionSaying("stale-result")),
        metadata(Some("Completed"), None, None, None),
        Try(Ack(Held(3), 1)),
        Try(Delete("stale-activity-recreate", true)),
    ]
}

/// An activity that was under way when its instance was deleted by force and
/// created again can no longer complete, and the new instance sees nothing of it.
pub fn test_stale_activity_after_delete_recreate() -> (r: Vec<Step>)
    ensures
        r@ == stale_activity_after_delete_recreate_steps(),
{
    vec![
        Do(Management),
        Do(Put(start_item("stale-activity-recreate"))),
        Take(turn(), 0),
        event(1, "stale-activity-recreate", 1, started("TestOrch", "1.0.0")),
        AddEvent(
            ScriptEvent {
                event_id: 2,
                instance: "stale-activity-recreate",
                execution_id: 1,
                source_event_id: Some(2),
                fact: Fact::Scheduled("OldActivity", "old-input"),
            },
        ),
        AddWork(Item::Activity("stale-activity-recreate", 1, 2, "OldActivity", "old-input")),
        metadata(None, None, Some("TestOrch"), Some("1.0.0")),
        Do(Ack(Held(0), 1)),
        Take(work(), 1),
        Do(Delete("stale-activity-recreate", true)),
        at_least(Num::InstancesDeleted, 1),
        Try(InstanceInfo("stale-activity-recreate")),
        Expect(Check::Failed),
        Do(Put(start_item("stale-activity-recreate"))),
        Take(turn(), 2),
        event(1, "stale-activity-recreate", 1, started("TestOrch", "1.0.0")),
        metadata(None, None, Some("TestOrch"), Some("1.0.0")),
        Do(Ack(Held(2), 1)),
        Do(InstanceInfo("stale-activity-recreate")),
        text_is(Txt::InfoOrchestration, "TestOrch"),
        Try(
            AckWork(
                Held(1),
                Some(completed("stale-activity-recreate", 2, "stale-result-from-old-instance")),
            ),
        ),
        Expect(Check::Failed),
        Do(Put(Item::Raised("stale-activity-recreate", "probe-event", "{}"))),
        Take(turn(), 3),
        Expect(Check::NoCompletionSaying("stale-result")),
        metadata(Some("Completed"), None, None, None),
        Try(Ack(Held(3), 1)),
        Try(Delete("stale-activity-recreate", true)),
    ]
}

/// A store passes only if the completion of an activity of a deleted instance
/// fails, and the instance that was created in its place gets no message of it.
pub proof fn law_a_stale_completion_is_refused(states: Seq<RunModel>)
    requires
        runner::passing(states, stale_activity_after_delete_recreate_steps()),
    ensures
        runner::current(states[12]) is Failed,
        reply::text_of(Txt::InfoOrchestration, runner::current(states[19])) == Some(
            Some("TestOrch"@),
        ),
        runner::current(states[21]) is Failed,
        (runner::current(states[24]) matches Reply::Turn(item, _, _) && !reply::completes_saying(
            item.messages@,
            "stale-result"@,
        )),
{
    let script = stale_activity_after_delete_recreate_steps();
    assert(script[12] == Expect(Check::Failed));
    runner::law_a_straight_pass_meets_every_step(states, script, 12);
    assert(script[19] == text_is(Txt::InfoOrchestration, "TestOrch"));
    runner::law_a_straight_pass_meets_every_step(states, script, 19);
    assert(script[21] == Expect(Check::Failed));
    runner::law_a_straight_pass_meets_every_step(states, script, 21);
    assert(script[24] == Expect(Check::NoCompletionSaying("stale-result")));
    runner::law_a_straight_pass_meets_every_step(states, script, 24);
}

/// A store passes only if a turn of an instance that was deleted by force cannot be
/// acknowledged, and the instance stays unknown.
pub proof fn law_a_deleted_instance_does_not_come_back(states: Seq<RunModel>)
    requires
        runner::passing(states, force_delete_prevents_ack_recreation_steps()),
    ensures
        runner::current(states[12]) is Failed,
        runner::current(states[14]) is Failed,
{
    let script = force_delete_prevents_ack_recreation_steps();
    assert(script[12] == Expect(Check::Failed));
    runner::law_a_straight_pass_meets_every_step(states, script, 12);
    assert(script[14] == Expect(Check::Failed));
    runner::law_a_straight_pass_meets_every_step(states, script, 14);
}

/// A store passes only if an ID that is used again shows the new orchestration,
/// both in its turn and in its description.
pub proof fn law_a_reused_id_is_a_new_instance(states: Seq<RunModel>)
    requires
        runner::passing(states, delete_cleans_queues_and_locks_steps()),
    ensures
        reply::text_of(Txt::TurnOrchestration, runner::current(states[11])) == Some(
            Some("ReusedOrch"@),
        ),
        reply::text_of(Txt::InfoOrchestration, runner::current(states[16])) == Some(
            Some("ReusedOrch"@),
        ),
{
    let script = delete_cleans_queues_and_locks_steps();
    assert(script[11] == text_is(Txt::TurnOrchestration, "ReusedOrch"));
    runner::law_a_straight_pass_meets_every_step(states, script, 11);
    assert(script[16] == text_is(Txt::InfoOrchestration, "ReusedOrch"));
    runner::law_a_straight_pass_meets_every_step(states, script, 16);
}

/// A store passes only if sub-orchestrations cannot be deleted, by force or not,
/// and all four instances are unknown after the root was deleted.
pub proof fn law_children_go_only_with_their_root(states: Seq<RunModel>)
    requires
        runner::passing(states, cascade_delete_hierarchy_steps()),
    ensures
        runner::current(states[26]) is Failed,
        runner::current(states[29]) is Failed,
        runner::current(states[31]) is Failed,
        runner::current(states[36]) is Failed,
        runner::current(states[38]) is Failed,
        runner::current(states[40]) is Failed,
        runner::current(states[42]) is Failed,
{
    let script = cascade_delete_hierarchy_steps();
    assert(script[26] == Expect(Check::Failed));
    runner::law_a_straight_pass_meets_every_step(states, script, 26);
    assert(script[29] == Expect(Check::Failed));
    runner::law_a_straight_pass_meets_every_step(states, script, 29);
    assert(script[31] == Expect(Check::Failed));
    runner::law_a_straight_pass_meets_every_step(states, script, 31);
    assert(script[36] == Expect(Check::Failed));
    runner::law_a_straight_pass_meets_every_step(states, script, 36);
    assert(script[38] == Expect(Check::Failed));
    runner::law_a_straight_pass_meets_every_step(states, script, 38);
    assert(script[40] == Expect(Check::Failed));
    runner::law_a_straight_pass_meets_every_step(states, script, 40);
    assert(script[42] == Expect(Check::Failed));
    runner::law_a_straight_pass_meets_every_step(states, script, 42);
}

/// What the store did in a run that passes [`test_delete_terminal_instances`].
pub proof fn law_passing_delete_terminal_instances(script: Vec<Step>, states: Seq<RunModel>)
    requires
        call_ensures(test_delete_terminal_instances, (), script),
        runner::passing(states, script@),
    ensures
        states.len() == 34,
        runner::passed(states, 0, Do(Management)),
        runner::passed(states, 16, Do(InstanceInfo("delete-term-completed"))),
        runner::passed(states, 17, Do(InstanceInfo("delete-term-failed"))),
        runner::passed(states, 18, Do(InstanceInfo("delete-term-cancelled"))),
        runner::passed(states, 19, Do(Delete("delete-term-completed", false))),
        runner::passed(states, 20, at_least(Num::InstancesDeleted, 1)),
        runner::passed(states, 21, at_least(Num::ExecutionsDeleted, 1)),
        runner::passed(states, 22, at_least(Num::EventsDeleted, 1)),
        runner::passed(states, 23, Try(InstanceInfo("delete-term-completed"))),
        runner::passed(states, 24, Expect(Check::Failed)),
        runner::passed(states, 25, Do(Delete("delete-term-failed", false))),
        runner::passed(states, 26, at_least(Num::InstancesDeleted, 1)),
        runner::passed(states, 27, Try(InstanceInfo("delete-term-failed"))),
        runner::passed(states, 28, Expect(Check::Failed)),
        runner::passed(states, 29, Do(Delete("delete-term-cancelled", false))),
        runner::passed(states, 30, at_least(Num::InstancesDeleted, 1)),
        runner::passed(states, 31, Try(InstanceInfo("delete-term-cancelled"))),
        runner::passed(states, 32, Expect(Check::Failed)),
{
    runner::lemma_passed(states, script@);
}

/// What the store did in a run that passes [`test_delete_running_rejected_force_succeeds`].
pub proof fn law_passing_delete_running_rejected_force_succeeds(
    script: Vec<Step>,
    states: Seq<RunModel>,
)
    requires
        call_ensures(test_delete_running_rejected_force_succeeds, (), script),
        runner::passing(states, script@),
    ensures
        states.len() == 16,
        runner::passed(states, 0, Do(Management)),
        runner::passed(states, 6, Try(Delete("delete-running-force", false))),
        runner::passed(states, 7, Expect(Check::Failed)),
        runner::passed(states, 8, Expect(Check::Permanent)),
        runner::passed(states, 9, Expect(Check::Says("running", "running", "running"))),
        runner::passed(states, 10, Do(InstanceInfo("delete-running-force"))),
        runner::passed(states, 11, Do(Delete("delete-running-force", true))),
        runner::passed(states, 12, at_least(Num::InstancesDeleted, 1)),
        runner::passed(states, 13, Try(InstanceInfo("delete-running-force"))),
        runner::passed(states, 14, Expect(Check::Failed)),
{
    runner::lemma_passed(states, script@);
}

/// What the store did in a run that passes [`test_delete_nonexistent_instance`].
pub proof fn law_passing_delete_nonexistent_instance(script: Vec<Step>, states: Seq<RunModel>)
    requires
        call_ensures(test_delete_nonexistent_instance, (), script),
        runner::passing(states, script@),
    ensures
        states.len() == 5,
        runner::passed(states, 0, Try(Delete("does-not-exist-12345", false))),
        runner::passed(states, 1, Expect(Check::Failed)),
        runner::passed(states, 2, Expect(Check::Permanent)),
        runner::passed(states, 3, Expect(Check::Says("not found", "not found", "not found"))),
{
    runner::lemma_passed(states, script@);
}

/// What the store did in a run that passes [`test_delete_cleans_queues_and_locks`].
pub proof fn law_passing_delete_cleans_queues_and_locks(script: Vec<Step>, states: Seq<RunModel>)
    requires
        call_ensures(test_delete_cleans_queues_and_locks, (), script),
        runner::passing(states, script@),
    ensures
        states.len() == 19,
        runner::passed(states, 0, Do(Management)),
        runner::passed(states, 1, Do(Put(start_item("delete-queues-locks")))),
        runner::passed(states, 2, Do(PutWork(activity("delete-queues-locks", 1, "TestActivity")))),
        runner::passed(states, 3, Take(turn(), 0)),
        runner::passed(states, 6, Do(Ack(Held(0), 1))),
        runner::passed(states, 7, Do(Delete("delete-queues-locks", false))),
        runner::passed(states, 8, at_least(Num::QueueMessagesDeleted, 1)),
        runner::passed(
            states,
            9,
            Do(Put(
                Item::Start("delete-queues-locks", "ReusedOrch", "{\"reused\": true}", Some("2.0.0"), None, None, 1),
            )),
        ),
        runner::passed(states, 10, Take(turn(), 1)),
        runner::passed(states, 11, text_is(Txt::TurnOrchestration, "ReusedOrch")),
        runner::passed(states, 14, Do(Ack(Held(1), 1))),
        runner::passed(states, 15, Do(InstanceInfo("delete-queues-locks"))),
        runner::passed(states, 16, text_is(Txt::InfoOrchestration, "ReusedOrch")),
        runner::passed(states, 17, Do(Delete("delete-queues-locks", true))),
{
    runner::lemma_passed(states, script@);
}

/// What the store did in a run that passes [`test_cascade_delete_hierarchy`].
pub proof fn law_passing_cascade_delete_hierarchy(script: Vec<Step>, states: Seq<RunModel>)
    requires
        call_ensures(test_cascade_delete_hierarchy, (), script),
        runner::passing(states, script@),
    ensures
        states.len() == 44,
        runner::passed(states, 0, Do(Management)),
        runner::passed(states, 21, Do(InstanceInfo("cascade-root"))),
        runner::passed(states, 22, Do(InstanceInfo("cascade-child1"))),
        runner::passed(states, 23, Do(InstanceInfo("cascade-child2"))),
        runner::passed(states, 24, Do(InstanceInfo("cascade-grandchild"))),
        runner::passed(states, 25, Try(Delete("cascade-child1", false))),
        runner::passed(states, 26, Expect(Check::Failed)),
        runner::passed(states, 27, Expect(Check::Says("sub-orchestration", "root", "parent"))),
        runner::passed(states, 28, Try(Delete("cascade-child1", true))),
        runner::passed(states, 29, Expect(Check::Failed)),
        runner::passed(states, 30, Try(Delete("cascade-grandchild", false))),
        runner::passed(states, 31, Expect(Check::Failed)),
        runner::passed(states, 32, Do(Delete("cascade-root", false))),
        runner::passed(states, 33, at_least(Num::InstancesDeleted, 1)),
        runner::passed(states, 34, at_least(Num::ExecutionsDeleted, 4)),
        runner::passed(states, 35, Try(InstanceInfo("cascade-root"))),
        runner::passed(states, 36, Expect(Check::Failed)),
        runner::passed(states, 37, Try(InstanceInfo("cascade-child1"))),
        runner::passed(states, 38, Expect(Check::Failed)),
        runner::passed(states, 39, Try(InstanceInfo("cascade-child2"))),
        runner::passed(states, 40, Expect(Check::Failed)),
        runner::passed(states, 41, Try(InstanceInfo("cascade-grandchild"))),
        runner::passed(states, 42, Expect(Check::Failed)),
{
    runner::lemma_passed(states, script@);
}

/// What the store did in a run that passes [`test_force_delete_prevents_ack_recreation`].
pub proof fn law_passing_force_delete_prevents_ack_recreation(
    script: Vec<Step>,
    states: Seq<RunModel>,
)
    requires
        call_ensures(test_force_delete_prevents_ack_recreation, (), script),
        runner::passing(states, script@),
    ensures
        states.len() == 16,
        runner::passed(states, 0, Do(Management)),
        runner::passed(states, 1, Do(Put(start_item("zombie-prevention")))),
        runner::passed(states, 2, Take(turn(), 0)),
        runner::passed(states, 5, Do(Ack(Held(0), 1))),
        runner::passed(states, 6, Do(Put(Item::Raised("zombie-prevention", "test-event", "{}")))),
        runner::passed(states, 7, Take(turn(), 1)),
        runner::passed(states, 8, Do(Delete("zombie-prevention", true))),
        runner::passed(states, 9, at_least(Num::InstancesDeleted, 1)),
        runner::passed(states, 11, Try(Ack(Held(1), 1))),
        runner::passed(states, 12, Expect(Check::Failed)),
        runner::passed(states, 13, Try(InstanceInfo("zombie-prevention"))),
        runner::passed(states, 14, Expect(Check::Failed)),
{
    runner::lemma_passed(states, script@);
}

/// What the store did in a run that passes [`test_list_children`].
pub proof fn law_passing_list_children(script: Vec<Step>, states: Seq<RunModel>)
    requires
        call_ensures(test_list_children, (), script),
        runner::passing(states, script@),
    ensures
        states.len() == 35,
        runner::passed(states, 0, Do(Management)),
        runner::passed(states, 21, Do(ListChildren("list-children-root"))),
        runner::passed(states, 22, number_is(Num::Names, 2)),
        runner::passed(states, 23, Expect(Check::Has("list-children-root::sub::2"))),
        runner::passed(states, 24, Expect(Check::Has("list-children-root::sub::3"))),
        runner::passed(states, 25, Expect(Check::Lacks("list-children-root::sub::3::sub::4"))),
        runner::passed(states, 26, Do(ListChildren("list-children-root::sub::3"))),
        runner::passed(states, 27, number_is(Num::Names, 1)),
        runner::passed(states, 28, Expect(Check::Has("list-children-root::sub::3::sub::4"))),
        runner::passed(states, 29, Do(ListChildren("list-children-root::sub::3::sub::4"))),
        runner::passed(states, 30, number_is(Num::Names, 0)),
        runner::passed(states, 31, Do(ListChildren("non-existent"))),
        runner::passed(states, 32, number_is(Num::Names, 0)),
        runner::passed(states, 33, Do(Delete("list-children-root", true))),
{
    runner::lemma_passed(states, script@);
}

/// What the store did in a run that passes [`test_delete_get_parent_id`].
pub proof fn law_passing_delete_get_parent_id(script: Vec<Step>, states: Seq<RunModel>)
    requires
        call_ensures(test_delete_get_parent_id, (), script),
        runner::passing(states, script@),
    ensures
        states.len() == 19,
        runner::passed(states, 0, Do(Management)),
        runner::passed(states, 11, Do(ParentOf("parent-id-root"))),
        runner::passed(states, 12, Expect(Check::NoText(Txt::Parent))),
        runner::passed(states, 13, Do(ParentOf("parent-id-root::sub::2"))),
        runner::passed(states, 14, text_is(Txt::Parent, "parent-id-root")),
        runner::passed(states, 15, Try(ParentOf("non-existent"))),
        runner::passed(states, 16, Expect(Check::Failed)),
        runner::passed(states, 17, Do(Delete("parent-id-root", true))),
{
    runner::lemma_passed(states, script@);
}

/// What the store did in a run that passes [`test_delete_get_instance_tree`].
pub proof fn law_passing_delete_get_instance_tree(script: Vec<Step>, states: Seq<RunModel>)
    requires
        call_ensures(test_delete_get_instance_tree, (), script),
        runner::passing(states, script@),
    ensures
        states.len() == 34,
        runner::passed(states, 0, Do(Management)),
        runner::passed(states, 21, Do(Tree("tree-root"))),
        runner::passed(states, 22, text_is(Txt::TreeRoot, "tree-root")),
        runner::passed(states, 23, number_is(Num::TreeSize, 4)),
        runner::passed(states, 24, Expect(Check::RootOnly(false))),
        runner::passed(states, 25, Expect(Check::Has("tree-root"))),
        runner::passed(states, 26, Expect(Check::Has("tree-root::sub::2"))),
        runner::passed(states, 27, Expect(Check::Has("tree-root::sub::3"))),
        runner::passed(states, 28, Expect(Check::Has("tree-root::sub::3::sub::4"))),
        runner::passed(states, 29, Do(Tree("tree-root::sub::3::sub::4"))),
        runner::passed(states, 30, number_is(Num::TreeSize, 1)),
        runner::passed(states, 31, Expect(Check::RootOnly(true))),
        runner::passed(states, 32, Do(Delete("tree-root", true))),
{
    runner::lemma_passed(states, script@);
}

/// What the store did in a run that passes [`test_delete_instances_atomic`].
pub proof fn law_passing_delete_instances_atomic(script: Vec<Step>, states: Seq<RunModel>)
    requires
        call_ensures(test_delete_instances_atomic, (), script),
        runner::passing(states, script@),
    ensures
        states.len() == 32,
        runner::passed(states, 0, Do(Management)),
        runner::passed(states, 16, Do(InstanceInfo("atomic-del-1"))),
        runner::passed(states, 17, Do(InstanceInfo("atomic-del-2"))),
        runner::passed(states, 18, Do(InstanceInfo("atomic-del-3"))),
        runner::passed(states, 22, Do(DeleteListed(false))),
        runner::passed(states, 23, at_least(Num::InstancesDeleted, 1)),
        runner::passed(states, 24, at_least(Num::ExecutionsDeleted, 3)),
        runner::passed(states, 25, Try(InstanceInfo("atomic-del-1"))),
        runner::passed(states, 26, Expect(Check::Failed)),
        runner::passed(states, 27, Try(InstanceInfo("atomic-del-2"))),
        runner::passed(states, 28, Expect(Check::Failed)),
        runner::passed(states, 29, Try(InstanceInfo("atomic-del-3"))),
        runner::passed(states, 30, Expect(Check::Failed)),
{
    runner::lemma_passed(states, script@);
}

/// What the store did in a run that passes [`test_delete_instances_atomic_force`].
pub proof fn law_passing_delete_instances_atomic_force(script: Vec<Step>, states: Seq<RunModel>)
    requires
        call_ensures(test_delete_instances_atomic_force, (), script),
        runner::passing(states, script@),
    ensures
        states.len() == 26,
        runner::passed(states, 0, Do(Management)),
        runner::passed(states, 13, Try(DeleteListed(false))),
        runner::passed(states, 14, Expect(Check::Failed)),
        runner::passed(states, 15, Do(InstanceInfo("atomic-force-completed"))),
        runner::passed(states, 16, Do(InstanceInfo("atomic-force-running"))),
        runner::passed(states, 19, Do(DeleteListed(true))),
        runner::passed(states, 20, at_least(Num::InstancesDeleted, 1)),
        runner::passed(states, 21, Try(InstanceInfo("atomic-force-completed"))),
        runner::passed(states, 22, Expect(Check::Failed)),
        runner::passed(states, 23, Try(InstanceInfo("atomic-force-running"))),
        runner::passed(states, 24, Expect(Check::Failed)),
{
    runner::lemma_passed(states, script@);
}

/// What the store did in a run that passes [`test_delete_instances_atomic_orphan_detection`].
pub proof fn law_passing_delete_instances_atomic_orphan_detection(
    script: Vec<Step>,
    states: Seq<RunModel>,
)
    requires
        call_ensures(test_delete_instances_atomic_orphan_detection, (), script),
        runner::passing(states, script@),
    ensures
        states.len() == 27,
        runner::passed(states, 0, Do(Management)),
        runner::passed(states, 11, Do(InstanceInfo("orphan-detect-root"))),
        runner::passed(states, 12, Do(InstanceInfo("orphan-detect-root::sub::2"))),
        runner::passed(states, 14, Try(DeleteListed(false))),
        runner::passed(states, 15, Expect(Check::Failed)),
        runner::passed(states, 16, Expect(Check::Says("child", "orphan", "tree"))),
        runner::passed(states, 17, Do(InstanceInfo("orphan-detect-root"))),
        runner::passed(states, 18, Do(InstanceInfo("orphan-detect-root::sub::2"))),
        runner::passed(states, 21, Do(DeleteListed(false))),
        runner::passed(states, 22, Try(InstanceInfo("orphan-detect-root"))),
        runner::passed(states, 23, Expect(Check::Failed)),
        runner::passed(states, 24, Try(InstanceInfo("orphan-detect-root::sub::2"))),
        runner::passed(states, 25, Expect(Check::Failed)),
{
    runner::lemma_passed(states, script@);
}

/// What the store did in a run that passes [`test_stale_activity_after_delete_recreate`].
pub proof fn law_passing_stale_activity_after_delete_recreate(
    script: Vec<Step>,
    states: Seq<RunModel>,
)
    requires
        call_ensures(test_stale_activity_after_delete_recreate, (), script),
        runner::passing(states, script@),
    ensures
        states.len() == 29,
        runner::passed(states, 0, Do(Management)),
        runner::passed(states, 1, Do(Put(start_item("stale-activity-recreate")))),
        runner::passed(states, 2, Take(turn(), 0)),
        runner::passed(states, 7, Do(Ack(Held(0), 1))),
        runner::passed(states, 8, Take(work(), 1)),
        runner::passed(states, 9, Do(Delete("stale-activity-recreate", true))),
        runner::passed(states, 10, at_least(Num::InstancesDeleted, 1)),
        runner::passed(states, 11, Try(InstanceInfo("stale-activity-recreate"))),
        runner::passed(states, 12, Expect(Check::Failed)),
        runner::passed(states, 13, Do(Put(start_item("stale-activity-recreate")))),
        runner::passed(states, 14, Take(turn(), 2)),
        runner::passed(states, 17, Do(Ack(Held(2), 1))),
        runner::passed(states, 18, Do(InstanceInfo("stale-activity-recreate"))),
        runner::passed(states, 19, text_is(Txt::InfoOrchestration, "TestOrch")),
        runner::passed(
            states,
            20,
            Try(AckWork(
                Held(1), Some(completed("stale-activity-recreate", 2, "stale-result-from-old-instance")),
            )),
        ),
        runner::passed(states, 21, Expect(Check::Failed)),
        runner::passed(
            states,
            22,
            Do(Put(Item::Raised("stale-activity-recreate", "probe-event", "{}"))),
        ),
        runner::passed(states, 23, Take(turn(), 3)),
        runner::passed(states, 24, Expect(Check::NoCompletionSaying("stale-result"))),
        runner::passed(states, 26, Try(Ack(Held(3), 1))),
        runner::passed(states, 27, Try(Delete("stale-activity-recreate", true))),
{
    runner::lemma_passed(states, script@);
}

} // verus!
