//! The request of one invocation, and the operation that answers it.

use vstd::prelude::*;
use crate::model::add_report;
use crate::model::added;
use crate::model::complete_report;
use crate::model::completed;
use crate::model::delete_report;
use crate::model::deleted;
use crate::model::holds;
use crate::model::listing;
use crate::ops::add_task;
use crate::ops::complete_task;
use crate::ops::delete_task;
use crate::ops::list_tasks;
use crate::ops::Outcome;
use crate::task::Task;
use crate::task::TaskView;

verus! {

/// What one invocation asks for.
#[derive(Debug, Clone, PartialEq, Eq)]
pub enum Command {
    /// Add a task with this description.
    Add { description: String },
    /// Show the tasks.
    List,
    /// Mark the task with this id as done.
    Complete { id: usize },
    /// Take out the task with this id.
    Delete { id: usize },
}

/// A request as a plain mathematical value.
pub ghost enum CommandView {
    Add { description: Seq<char> },
    List,
    Complete { id: nat },
    Delete { id: nat },
}

impl View for Command {
    type V = CommandView;

    open spec fn view(&self) -> CommandView {
        match *self {
            Command::Add { description } => CommandView::Add { description: description@ },
            Command::List => CommandView::List,
            Command::Complete { id } => CommandView::Complete { id: id as nat },
            Command::Delete { id } => CommandView::Delete { id: id as nat },
        }
    }
}

/// The collection after `command`.
pub open spec fn next(tasks: Seq<TaskView>, command: CommandView) -> Seq<TaskView> {
    match command {
        CommandView::Add { description } => added(tasks, description),
        CommandView::List => tasks,
        CommandView::Complete { id } => completed(tasks, id),
        CommandView::Delete { id } => deleted(tasks, id),
    }
}

/// Whether `command` changes the collection, so that it has to be written
/// back: adding always, listing never, completing and deleting where some
/// task carries the id.
pub open spec fn changes(tasks: Seq<TaskView>, command: CommandView) -> bool {
    match command {
        CommandView::Add { .. } => true,
        CommandView::List => false,
        CommandView::Complete { id } => holds(tasks, id),
        CommandView::Delete { id } => holds(tasks, id),
    }
}

/// What `command` shows.
pub open spec fn report(tasks: Seq<TaskView>, command: CommandView) -> Seq<Seq<char>> {
    match command {
        CommandView::Add { .. } => add_report(),
        CommandView::List => listing(tasks),
        CommandView::Complete { id } => complete_report(tasks, id),
        CommandView::Delete { id } => delete_report(tasks, id),
    }
}

/// Carries out `command` on the collection, and says what is to be shown
/// and whether the collection has to be written back.
pub fn run(command: Command, tasks: &mut Vec<Task>) -> (outcome: Outcome)
    requires
        command is Add ==> old(tasks).len() < usize::MAX,
    ensures
        final(tasks).deep_view() == next(old(tasks).deep_view(), command@),
        !changes(old(tasks).deep_view(), command@) ==> *final(tasks) == *old(tasks),
        outcome.save == changes(old(tasks).deep_view(), command@),
        outcome.lines.deep_view() == report(old(tasks).deep_view(), command@),
{
    match command {
        Command::Add { description } => add_task(tasks, description),
        Command::List => list_tasks(tasks),
        Command::Complete { id } => complete_task(tasks, id),
        Command::Delete { id } => delete_task(tasks, id),
    }
}

} // verus!
