//! What is found where the collection is kept, and the collection that an
//! operation starts from.

use vstd::prelude::*;
use crate::task::Task;

verus! {

/// What was found where the collection is kept.
#[derive(Debug, Clone, PartialEq, Eq)]
pub enum Stored {
    /// Nothing is kept there.
    Absent,
    /// What is kept there cannot be read as a collection.
    Unreadable,
    /// The collection that is kept there.
    Tasks(Vec<Task>),
}

impl Stored {
    /// The tasks that can be had from what was found: those that are
    /// kept, in their order; none where nothing is kept or it cannot be
    /// read.
    pub open spec fn tasks(self) -> Seq<Task> {
        match self {
            Stored::Tasks(kept) => kept@,
            _ => Seq::empty(),
        }
    }
}

/// The collection that an operation starts from: the one that is kept,
/// as it is; the empty one where none is kept or it cannot be read.
pub fn load_tasks(stored: Stored) -> (tasks: Vec<Task>)
    ensures
        tasks@ == stored.tasks(),
{
    match stored {
        Stored::Tasks(kept) => kept,
        _ => Vec::new(),
    }
}

} // verus!
