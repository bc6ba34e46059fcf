//! The four operations. Each works on the collection in memory and says
//! what is to be shown and whether the collection has to be written back.

use vstd::prelude::*;
use vstd::string::StringExecFns;
use crate::model::add_report;
use crate::model::added;
use crate::model::complete_report;
use crate::model::completed;
use crate::model::delete_report;
use crate::model::deleted;
use crate::model::first;
use crate::model::first_at;
use crate::model::holds;
use crate::model::listing;
use crate::model::lemma_first_is_unique;
use crate::task::Task;
use crate::text::completed_text;
use crate::text::deleted_text;
use crate::text::not_found_text;
use crate::text::render_task;

verus! {

/// What an operation leaves to its caller.
#[derive(Debug, Clone, PartialEq, Eq)]
pub struct Outcome {
    /// Whether the collection was changed and has to be written back.
    pub save: bool,
    /// The lines to show, in order.
    pub lines: Vec<String>,
}

/// The place of the first task that carries `id`, if there is one.
pub fn find_task(tasks: &Vec<Task>, id: usize) -> (place: Option<usize>)
    ensures
        place is Some <==> holds(tasks.deep_view(), id as nat),
        place matches Some(i) ==> first_at(tasks.deep_view(), id as nat, i as int),
        place matches Some(i) ==> i == first(tasks.deep_view(), id as nat),
{
    let mut i: usize = 0;
    while i < tasks.len()
        invariant
            i <= tasks.len(),
            forall|j: int| 0 <= j < i ==> tasks.deep_view()[j].id != id as nat,
        decreases tasks.len() - i,
    {
        if tasks[i].id == id {
            proof {
                lemma_first_is_unique(tasks.deep_view(), id as nat, i as int);
            }
            return Some(i);
        }
        i += 1;
    }
    None
}

/// Appends a task with `description`, numbered one past the count of the
/// tasks that are there.
pub fn add_task(tasks: &mut Vec<Task>, description: String) -> (outcome: Outcome)
    requires
        old(tasks).len() < usize::MAX,
    ensures
        final(tasks).deep_view() == added(old(tasks).deep_view(), description@),
        outcome.save,
        outcome.lines.deep_view() == add_report(),
{
    let id: usize = tasks.len() + 1;
    tasks.push(Task { id, description, completed: false });
    let mut lines: Vec<String> = Vec::new();
    lines.push(String::from_str("Task added successfully."));
    Outcome { save: true, lines }
}

/// Shows the collection: one line per task, in order, or the report that
/// there is none. Changes nothing.
pub fn list_tasks(tasks: &Vec<Task>) -> (outcome: Outcome)
    ensures
        !outcome.save,
        outcome.lines.deep_view() == listing(tasks.deep_view()),
{
    let mut lines: Vec<String> = Vec::new();
    if tasks.is_empty() {
        lines.push(String::from_str("No tasks available."));
    } else {
        let mut i: usize = 0;
        while i < tasks.len()
            invariant
                i <= tasks.len(),
                lines.len() == i,
                forall|j: int| 0 <= j < i ==> #[trigger] lines[j]@ == listing(tasks.deep_view())[j],
            decreases tasks.len() - i,
        {
            lines.push(render_task(&tasks[i]));
            i += 1;
        }
    }
    Outcome { save: false, lines }
}

/// Marks the first task that carries `id` as done. Where no task carries
/// it, the collection stays as it is and is not written back.
pub fn complete_task(tasks: &mut Vec<Task>, id: usize) -> (outcome: Outcome)
    ensures
        final(tasks).deep_view() == completed(old(tasks).deep_view(), id as nat),
        !holds(old(tasks).deep_view(), id as nat) ==> *final(tasks) == *old(tasks),
        outcome.save == holds(old(tasks).deep_view(), id as nat),
        outcome.lines.deep_view() == complete_report(old(tasks).deep_view(), id as nat),
{
    let mut lines: Vec<String> = Vec::new();
    match find_task(tasks, id) {
        Some(i) => {
            tasks[i].completed = true;
            lines.push(completed_text(id));
            Outcome { save: true, lines }
        },
        None => {
            lines.push(not_found_text(id));
            Outcome { save: false, lines }
        },
    }
}

/// Takes out the first task that carries `id`; the others keep their
/// order. Where no task carries it, the collection stays as it is and is
/// not written back.
pub fn delete_task(tasks: &mut Vec<Task>, id: usize) -> (outcome: Outcome)
    ensures
        final(tasks).deep_view() == deleted(old(tasks).deep_view(), id as nat),
        !holds(old(tasks).deep_view(), id as nat) ==> *final(tasks) == *old(tasks),
        outcome.save == holds(old(tasks).deep_view(), id as nat),
        outcome.lines.deep_view() == delete_report(old(tasks).deep_view(), id as nat),
{
    let mut lines: Vec<String> = Vec::new();
    match find_task(tasks, id) {
        Some(i) => {
            tasks.remove(i);
            lines.push(deleted_text(id));
            Outcome { save: true, lines }
        },
        None => {
            lines.push(not_found_text(id));
            Outcome { save: false, lines }
        },
    }
}

} // verus!
