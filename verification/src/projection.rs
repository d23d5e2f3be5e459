//! The projection of a snapshot for presentation: its items as tasks.

use vstd::prelude::*;

use crate::item::{Item, ItemView};
use crate::snapshot::{SyncSnapshot, SyncSnapshotView};

verus! {

/// A task to present: today, the item as it was decoded.
#[derive(Debug, PartialEq, Eq)]
pub struct Task {
    pub item: Item,
}

/// The model of a [`Task`].
pub struct TaskView {
    pub item: ItemView,
}

impl DeepView for Task {
    type V = TaskView;

    open spec fn deep_view(&self) -> TaskView {
        TaskView { item: self.item.deep_view() }
    }
}

impl From<Item> for Task {
    fn from(item: Item) -> (task: Task) {
        Task { item }
    }
}

impl vstd::std_specs::convert::FromSpecImpl<Item> for Task {
    open spec fn obeys_from_spec() -> bool {
        true
    }

    open spec fn from_spec(item: Item) -> Task {
        Task { item }
    }
}

/// What is presented of an account: its tasks.
#[derive(Debug, PartialEq, Eq)]
pub struct User {
    pub tasks: Vec<Task>,
}

/// The model of a [`User`].
pub struct UserView {
    pub tasks: Seq<TaskView>,
}

impl DeepView for User {
    type V = UserView;

    open spec fn deep_view(&self) -> UserView {
        UserView { tasks: self.tasks.deep_view() }
    }
}

/// The tasks of a sequence of items: one for each item, in the same order.
pub open spec fn tasks_of(items: Seq<ItemView>) -> Seq<TaskView> {
    Seq::new(items.len(), |i: int| TaskView { item: items[i] })
}

/// What is presented of a snapshot.
pub open spec fn projected(snapshot: SyncSnapshotView) -> UserView {
    UserView { tasks: tasks_of(snapshot.items) }
}

impl From<SyncSnapshot> for User {
    fn from(snapshot: SyncSnapshot) -> (user: User)
        ensures
            user.tasks@.len() == snapshot.items@.len(),
            forall|i: int| 0 <= i < user.tasks@.len() ==> user.tasks@[i].item == snapshot.items@[i],
            user.deep_view() == projected(snapshot.deep_view()),
    {
        let ghost source = snapshot.items@;
        let mut tasks: Vec<Task> = Vec::new();
        for item in items: snapshot.items
            invariant
                items.seq() == source,
                tasks@.len() == items.index(),
                forall|i: int| 0 <= i < tasks@.len() ==> tasks@[i].item == source[i],
        {
            tasks.push(Task::from(item));
        }
        let user = User { tasks };
        assert(user.deep_view().tasks =~= tasks_of(snapshot.deep_view().items));
        user
    }
}

impl vstd::std_specs::convert::FromSpecImpl<SyncSnapshot> for User {
    open spec fn obeys_from_spec() -> bool {
        false
    }

    open spec fn from_spec(snapshot: SyncSnapshot) -> User {
        arbitrary()
    }
}

/// A projection has as many tasks as the snapshot has items, and its task at
/// each place is that of the item at the same place.
pub proof fn lemma_projection_keeps_order(snapshot: SyncSnapshotView)
    ensures
        projected(snapshot).tasks.len() == snapshot.items.len(),
        forall|i: int|
            0 <= i < snapshot.items.len() ==> (#[trigger] projected(snapshot).tasks[i]).item
                == snapshot.items[i],
{
}

} // verus!
