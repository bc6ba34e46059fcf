//! What holds of the operations on every collection, stated over the
//! model and proved.

use vstd::prelude::*;
use crate::model::added;
use crate::model::completed;
use crate::model::deleted;
use crate::model::first;
use crate::model::first_at;
use crate::model::holds;
use crate::model::lemma_first_exists;
use crate::task::TaskView;

verus! {

/// The collection after a task was added for each of `descriptions`, in
/// their order, to `start`.
pub open spec fn added_all(start: Seq<TaskView>, descriptions: Seq<Seq<char>>) -> Seq<TaskView>
    decreases descriptions.len(),
{
    if descriptions.len() == 0 {
        start
    } else {
        added(added_all(start, descriptions.drop_last()), descriptions.last())
    }
}

/// Additions only append: after them the collection begins with the tasks
/// it had, and behind these stands one task for each description, in
/// their order, each carrying its place (counted from 1) as its id and not
/// done.
pub proof fn lemma_additions_append(start: Seq<TaskView>, descriptions: Seq<Seq<char>>)
    ensures
        added_all(start, descriptions).len() == start.len() + descriptions.len(),
        forall|i: int| 0 <= i < start.len() ==> added_all(start, descriptions)[i] == start[i],
        forall|i: int|
            start.len() <= i < start.len() + descriptions.len() ==> added_all(start, descriptions)[i]
                == (TaskView {
                id: (i + 1) as nat,
                description: descriptions[i - start.len()],
                completed: false,
            }),
    decreases descriptions.len(),
{
    if descriptions.len() > 0 {
        lemma_additions_append(start, descriptions.drop_last());
    }
}

/// Starting from the empty collection, after `n` additions the collection
/// has `n` tasks, and the task added at turn `n` carries the id `n`: the
/// ids are 1, 2, 3 and so on, in the collection's order.
pub proof fn lemma_additions_number_from_one(descriptions: Seq<Seq<char>>)
    ensures
        added_all(Seq::empty(), descriptions).len() == descriptions.len(),
        forall|i: int|
            0 <= i < descriptions.len() ==> added_all(Seq::empty(), descriptions)[i] == (TaskView {
                id: (i + 1) as nat,
                description: descriptions[i],
                completed: false,
            }),
        descriptions.len() > 0 ==> added_all(Seq::empty(), descriptions).last().id
            == descriptions.len(),
{
    lemma_additions_append(Seq::empty(), descriptions);
}

/// Completing an id that some task carries keeps the length, marks the
/// first task that carries it as done, with its id and description as
/// they were, and leaves every other task as it was.
pub proof fn lemma_complete_present(tasks: Seq<TaskView>, id: nat)
    requires
        holds(tasks, id),
    ensures
        completed(tasks, id).len() == tasks.len(),
        first_at(tasks, id, first(tasks, id)),
        completed(tasks, id)[first(tasks, id)].completed,
        completed(tasks, id)[first(tasks, id)].id == id,
        completed(tasks, id)[first(tasks, id)].description == tasks[first(tasks, id)].description,
        forall|j: int|
            0 <= j < tasks.len() && j != first(tasks, id) ==> completed(tasks, id)[j] == tasks[j],
{
    lemma_first_exists(tasks, id);
}

/// Completing an id that no task carries leaves the collection as it was.
pub proof fn lemma_complete_absent(tasks: Seq<TaskView>, id: nat)
    requires
        !holds(tasks, id),
    ensures
        completed(tasks, id) == tasks,
{
}

/// Deleting an id that some task carries shortens the collection by one:
/// the first task that carries it leaves, the tasks before it keep their
/// places, and those behind it move up by one place, in their order.
pub proof fn lemma_delete_present(tasks: Seq<TaskView>, id: nat)
    requires
        holds(tasks, id),
    ensures
        deleted(tasks, id).len() == tasks.len() - 1,
        first_at(tasks, id, first(tasks, id)),
        forall|j: int| 0 <= j < first(tasks, id) ==> deleted(tasks, id)[j] == tasks[j],
        forall|j: int|
            first(tasks, id) <= j < tasks.len() - 1 ==> deleted(tasks, id)[j] == tasks[j + 1],
{
    lemma_first_exists(tasks, id);
}

/// Deleting an id that no task carries leaves the collection as it was.
pub proof fn lemma_delete_absent(tasks: Seq<TaskView>, id: nat)
    requires
        !holds(tasks, id),
    ensures
        deleted(tasks, id) == tasks,
{
}

} // verus!
