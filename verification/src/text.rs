//! The text that the tracker shows: numbers in decimal, one line per task,
//! and the reports of the operations.

use vstd::prelude::*;
use vstd::string::StringExecFns;
use crate::task::Task;
use crate::task::TaskView;

verus! {

/// The character that stands for the decimal digit `d`.
pub open spec fn digit(d: nat) -> char
    recommends
        d < 10,
{
    if d == 0 {
        '0'
    } else if d == 1 {
        '1'
    } else if d == 2 {
        '2'
    } else if d == 3 {
        '3'
    } else if d == 4 {
        '4'
    } else if d == 5 {
        '5'
    } else if d == 6 {
        '6'
    } else if d == 7 {
        '7'
    } else if d == 8 {
        '8'
    } else {
        '9'
    }
}

/// The number `n` written in decimal, without leading zeros.
pub open spec fn decimal(n: nat) -> Seq<char>
    decreases n,
{
    if n < 10 {
        seq![digit(n)]
    } else {
        decimal(n / 10).push(digit(n % 10))
    }
}

/// The mark that shows whether a task is done.
pub open spec fn mark(completed: bool) -> Seq<char> {
    if completed {
        "x"@
    } else {
        " "@
    }
}

/// The line that shows one task: its mark in brackets, its id, a dash
/// and its description.
pub open spec fn task_line(task: TaskView) -> Seq<char> {
    "["@ + mark(task.completed) + "] "@ + decimal(task.id) + " - "@ + task.description
}

/// The report of an empty collection.
pub open spec fn no_tasks_message() -> Seq<char> {
    "No tasks available."@
}

/// The report of a task that was added.
pub open spec fn added_message() -> Seq<char> {
    "Task added successfully."@
}

/// The report of a task that was marked as done.
pub open spec fn completed_message(id: nat) -> Seq<char> {
    "Task "@ + decimal(id) + " marked as completed."@
}

/// The report of a task that was removed.
pub open spec fn deleted_message(id: nat) -> Seq<char> {
    "Task "@ + decimal(id) + " deleted successfully."@
}

/// The report of an id that no task carries.
pub open spec fn not_found_message(id: nat) -> Seq<char> {
    "Task with ID "@ + decimal(id) + " not found."@
}

/// One decimal digit as text.
fn digit_text(d: usize) -> (text: &'static str)
    requires
        d < 10,
    ensures
        text@ == seq![digit(d as nat)],
{
    proof {
        reveal_strlit("0");
        reveal_strlit("1");
        reveal_strlit("2");
        reveal_strlit("3");
        reveal_strlit("4");
        reveal_strlit("5");
        reveal_strlit("6");
        reveal_strlit("7");
        reveal_strlit("8");
        reveal_strlit("9");
    }
    if d == 0 {
        "0"
    } else if d == 1 {
        "1"
    } else if d == 2 {
        "2"
    } else if d == 3 {
        "3"
    } else if d == 4 {
        "4"
    } else if d == 5 {
        "5"
    } else if d == 6 {
        "6"
    } else if d == 7 {
        "7"
    } else if d == 8 {
        "8"
    } else {
        "9"
    }
}

/// Writes `n` in decimal.
pub fn decimal_string(n: usize) -> (text: String)
    ensures
        text@ == decimal(n as nat),
    decreases n,
{
    if n < 10 {
        String::from_str(digit_text(n))
    } else {
        let mut text = decimal_string(n / 10);
        text.append(digit_text(n % 10));
        text
    }
}

/// Writes the line that shows `task`.
pub fn render_task(task: &Task) -> (line: String)
    ensures
        line@ == task_line(task@),
{
    let mut line = String::from_str("[");
    line.append(if task.completed { "x" } else { " " });
    line.append("] ");
    line.append(decimal_string(task.id).as_str());
    line.append(" - ");
    line.append(task.description.as_str());
    line
}

/// Writes the report of a task that was marked as done.
pub fn completed_text(id: usize) -> (text: String)
    ensures
        text@ == completed_message(id as nat),
{
    let mut text = String::from_str("Task ");
    text.append(decimal_string(id).as_str());
    text.append(" marked as completed.");
    text
}

/// Writes the report of a task that was removed.
pub fn deleted_text(id: usize) -> (text: String)
    ensures
        text@ == deleted_message(id as nat),
{
    let mut text = String::from_str("Task ");
    text.append(decimal_string(id).as_str());
    text.append(" deleted successfully.");
    text
}

/// Writes the report of an id that no task carries.
pub fn not_found_text(id: usize) -> (text: String)
    ensures
        text@ == not_found_message(id as nat),
{
    let mut text = String::from_str("Task with ID ");
    text.append(decimal_string(id).as_str());
    text.append(" not found.");
    text
}

} // verus!
