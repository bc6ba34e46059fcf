//! The task, and the mathematical value that stands for it in contracts.

use vstd::prelude::*;

verus! {

/// A single item of the collection.
#[derive(Debug, Clone, PartialEq, Eq)]
pub struct Task {
    /// The number by which the task is addressed.
    pub id: usize,
    /// What is to be done.
    pub description: String,
    /// Whether it has been done.
    pub completed: bool,
}

/// What a task is, as a plain mathematical value.
pub ghost struct TaskView {
    pub id: nat,
    pub description: Seq<char>,
    pub completed: bool,
}

impl View for Task {
    type V = TaskView;

    open spec fn view(&self) -> TaskView {
        TaskView { id: self.id as nat, description: self.description@, completed: self.completed }
    }
}

impl DeepView for Task {
    type V = TaskView;

    open spec fn deep_view(&self) -> TaskView {
        self@
    }
}

} // verus!
