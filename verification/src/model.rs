//! The collection as a sequence of plain values, and what each operation
//! makes of it.

use vstd::prelude::*;
use crate::task::TaskView;
use crate::text::added_message;
use crate::text::completed_message;
use crate::text::deleted_message;
use crate::text::no_tasks_message;
use crate::text::not_found_message;
use crate::text::task_line;

verus! {

/// Some task of the collection carries `id`.
pub open spec fn holds(tasks: Seq<TaskView>, id: nat) -> bool {
    exists|i: int| 0 <= i < tasks.len() && tasks[i].id == id
}

/// The task at place `i` carries `id`, and no task before it does.
pub open spec fn first_at(tasks: Seq<TaskView>, id: nat, i: int) -> bool {
    &&& 0 <= i < tasks.len()
    &&& tasks[i].id == id
    &&& forall|j: int| 0 <= j < i ==> tasks[j].id != id
}

/// The place of the first task that carries `id`.
pub open spec fn first(tasks: Seq<TaskView>, id: nat) -> int
    recommends
        holds(tasks, id),
{
    choose|i: int| first_at(tasks, id, i)
}

/// The task that `add` appends: numbered one past the count of the tasks
/// that are there, and not done.
pub open spec fn fresh(tasks: Seq<TaskView>, description: Seq<char>) -> TaskView {
    TaskView { id: tasks.len() + 1, description, completed: false }
}

/// The collection after a task with `description` was added.
pub open spec fn added(tasks: Seq<TaskView>, description: Seq<char>) -> Seq<TaskView> {
    tasks.push(fresh(tasks, description))
}

/// The same task, done.
pub open spec fn done(task: TaskView) -> TaskView {
    TaskView { completed: true, ..task }
}

/// The collection after the first task that carries `id` was marked as
/// done; the same collection where no task carries it.
pub open spec fn completed(tasks: Seq<TaskView>, id: nat) -> Seq<TaskView> {
    if holds(tasks, id) {
        tasks.update(first(tasks, id), done(tasks[first(tasks, id)]))
    } else {
        tasks
    }
}

/// The collection after the first task that carries `id` was taken out;
/// the same collection where no task carries it.
pub open spec fn deleted(tasks: Seq<TaskView>, id: nat) -> Seq<TaskView> {
    if holds(tasks, id) {
        tasks.remove(first(tasks, id))
    } else {
        tasks
    }
}

/// What listing shows: one line per task, in the collection's order, or a
/// single line that says that there is none.
pub open spec fn listing(tasks: Seq<TaskView>) -> Seq<Seq<char>> {
    if tasks.len() == 0 {
        seq![no_tasks_message()]
    } else {
        Seq::new(tasks.len(), |i: int| task_line(tasks[i]))
    }
}

/// What completing shows: that the task was marked, or that no task
/// carries `id`.
pub open spec fn complete_report(tasks: Seq<TaskView>, id: nat) -> Seq<Seq<char>> {
    if holds(tasks, id) {
        seq![completed_message(id)]
    } else {
        seq![not_found_message(id)]
    }
}

/// What deleting shows: that the task was removed, or that no task
/// carries `id`.
pub open spec fn delete_report(tasks: Seq<TaskView>, id: nat) -> Seq<Seq<char>> {
    if holds(tasks, id) {
        seq![deleted_message(id)]
    } else {
        seq![not_found_message(id)]
    }
}

/// What adding shows.
pub open spec fn add_report() -> Seq<Seq<char>> {
    seq![added_message()]
}

/// A place that holds the first task with `id` is the place that `first`
/// names, and some task then carries `id`.
pub proof fn lemma_first_is_unique(tasks: Seq<TaskView>, id: nat, i: int)
    requires
        first_at(tasks, id, i),
    ensures
        holds(tasks, id),
        first(tasks, id) == i,
{
    let k = first(tasks, id);
    assert(first_at(tasks, id, k));
}

/// Where some task carries `id`, `first` names the place of the first.
pub proof fn lemma_first_exists(tasks: Seq<TaskView>, id: nat)
    requires
        holds(tasks, id),
    ensures
        first_at(tasks, id, first(tasks, id)),
{
    let w = choose|i: int| 0 <= i < tasks.len() && tasks[i].id == id;
    lemma_first_before(tasks, id, w);
}

/// Where the task at place `w` carries `id`, some place up to `w` holds
/// the first task that does.
proof fn lemma_first_before(tasks: Seq<TaskView>, id: nat, w: int)
    requires
        0 <= w < tasks.len(),
        tasks[w].id == id,
    ensures
        exists|i: int| first_at(tasks, id, i),
    decreases w,
{
    if exists|j: int| 0 <= j < w && tasks[j].id == id {
        let j = choose|j: int| 0 <= j < w && tasks[j].id == id;
        lemma_first_before(tasks, id, j);
    } else {
        assert(first_at(tasks, id, w));
    }
}

} // verus!
