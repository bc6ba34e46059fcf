use task_tracker::command::{run, Command};
use task_tracker::ops::Outcome;
use task_tracker::store::{load_tasks, Stored};
use task_tracker::task::Task;

fn task(id: usize, description: &str, completed: bool) -> Task {
    Task { id, description: description.to_string(), completed }
}

#[test]
fn load_of_nothing_is_empty() {
    assert_eq!(load_tasks(Stored::Absent), Vec::new());
}

#[test]
fn load_of_what_cannot_be_read_is_empty() {
    assert_eq!(load_tasks(Stored::Unreadable), Vec::new());
}

#[test]
fn load_hands_on_what_is_kept() {
    let kept = vec![task(2, "walk dog", true), task(1, "buy milk", false), task(2, "again", false)];
    assert_eq!(load_tasks(Stored::Tasks(kept.clone())), kept);
    assert_eq!(load_tasks(Stored::Tasks(Vec::new())), Vec::new());
}

#[test]
fn load_then_load_again_gives_the_same_collection() {
    let kept = vec![task(1, "buy milk", false), task(2, "walk dog", true)];
    let first = load_tasks(Stored::Tasks(kept.clone()));
    let second = load_tasks(Stored::Tasks(first.clone()));
    assert_eq!(first, kept);
    assert_eq!(second, kept);
}

#[test]
fn run_add_on_what_was_loaded_from_nothing() {
    let mut tasks = load_tasks(Stored::Absent);
    let outcome = run(Command::Add { description: "buy milk".to_string() }, &mut tasks);
    assert_eq!(tasks, vec![task(1, "buy milk", false)]);
    assert_eq!(outcome, Outcome { save: true, lines: vec!["Task added successfully.".to_string()] });
}

#[test]
fn run_list_changes_nothing() {
    let mut tasks = vec![task(1, "buy milk", false), task(2, "walk dog", true)];
    let outcome = run(Command::List, &mut tasks);
    assert_eq!(tasks, vec![task(1, "buy milk", false), task(2, "walk dog", true)]);
    assert_eq!(
        outcome,
        Outcome {
            save: false,
            lines: vec!["[ ] 1 - buy milk".to_string(), "[x] 2 - walk dog".to_string()],
        }
    );
    let mut none: Vec<Task> = Vec::new();
    let outcome = run(Command::List, &mut none);
    assert!(none.is_empty());
    assert_eq!(outcome, Outcome { save: false, lines: vec!["No tasks available.".to_string()] });
}

#[test]
fn run_complete_marks_or_reports() {
    let mut tasks = vec![task(1, "buy milk", false), task(2, "walk dog", false)];
    let outcome = run(Command::Complete { id: 2 }, &mut tasks);
    assert_eq!(tasks, vec![task(1, "buy milk", false), task(2, "walk dog", true)]);
    assert_eq!(
        outcome,
        Outcome { save: true, lines: vec!["Task 2 marked as completed.".to_string()] }
    );
    let outcome = run(Command::Complete { id: 99 }, &mut tasks);
    assert_eq!(tasks, vec![task(1, "buy milk", false), task(2, "walk dog", true)]);
    assert_eq!(
        outcome,
        Outcome { save: false, lines: vec!["Task with ID 99 not found.".to_string()] }
    );
}

#[test]
fn run_delete_removes_or_reports() {
    let mut tasks = vec![task(1, "buy milk", false), task(2, "walk dog", false)];
    let outcome = run(Command::Delete { id: 1 }, &mut tasks);
    assert_eq!(tasks, vec![task(2, "walk dog", false)]);
    assert_eq!(
        outcome,
        Outcome { save: true, lines: vec!["Task 1 deleted successfully.".to_string()] }
    );
    let outcome = run(Command::Delete { id: 1 }, &mut tasks);
    assert_eq!(tasks, vec![task(2, "walk dog", false)]);
    assert_eq!(
        outcome,
        Outcome { save: false, lines: vec!["Task with ID 1 not found.".to_string()] }
    );
}
