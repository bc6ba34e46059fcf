use task_tracker::task::Task;
use task_tracker::text::{completed_text, decimal_string, deleted_text, not_found_text, render_task};

#[test]
fn decimal_of_single_digits() {
    let expected = ["0", "1", "2", "3", "4", "5", "6", "7", "8", "9"];
    for (n, text) in expected.iter().enumerate() {
        assert_eq!(decimal_string(n), text.to_string());
    }
}

#[test]
fn decimal_of_longer_numbers() {
    assert_eq!(decimal_string(10), "10");
    assert_eq!(decimal_string(99), "99");
    assert_eq!(decimal_string(100), "100");
    assert_eq!(decimal_string(1024), "1024");
    assert_eq!(decimal_string(9876543210), "9876543210");
    assert_eq!(decimal_string(usize::MAX), format!("{}", usize::MAX));
}

#[test]
fn decimal_agrees_with_the_standard_rendering() {
    let mut n: usize = 0;
    while n < 3000 {
        assert_eq!(decimal_string(n), format!("{}", n));
        n += 1;
    }
    let mut m: usize = 1;
    while m < usize::MAX / 7 {
        assert_eq!(decimal_string(m), format!("{}", m));
        m = m * 7 + 3;
    }
}

#[test]
fn line_of_an_open_task() {
    let task = Task { id: 2, description: "walk dog".to_string(), completed: false };
    assert_eq!(render_task(&task), "[ ] 2 - walk dog");
}

#[test]
fn line_of_a_completed_task() {
    let task = Task { id: 17, description: "buy milk".to_string(), completed: true };
    assert_eq!(render_task(&task), "[x] 17 - buy milk");
}

#[test]
fn line_keeps_the_description_as_it_is() {
    let task = Task { id: 1, description: "  caf\u{e9} \u{2014} [x] ".to_string(), completed: false };
    assert_eq!(render_task(&task), "[ ] 1 -   caf\u{e9} \u{2014} [x] ");
    let empty = Task { id: 3, description: String::new(), completed: true };
    assert_eq!(render_task(&empty), "[x] 3 - ");
}

#[test]
fn reports_name_the_id() {
    assert_eq!(completed_text(1), "Task 1 marked as completed.");
    assert_eq!(deleted_text(12), "Task 12 deleted successfully.");
    assert_eq!(not_found_text(99), "Task with ID 99 not found.");
    assert_eq!(not_found_text(0), "Task with ID 0 not found.");
}
