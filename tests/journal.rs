use http_server::journal::{remove_task, JournalError, Task};

fn tasks() -> Vec<Task> {
    vec![
        Task { text: "a".to_string(), created_at: 1 },
        Task { text: "b".to_string(), created_at: 2 },
        Task { text: "c".to_string(), created_at: 3 },
    ]
}

#[test]
fn new_task_keeps_text() {
    let t = Task::new("buy milk".to_string());
    assert_eq!(t.text, "buy milk");
    assert!(t.created_at > 0);
}

#[test]
fn remove_middle_task() {
    let mut ts = tasks();
    let t = remove_task(&mut ts, 2).ok().unwrap();
    assert_eq!(t.text, "b");
    let texts: Vec<&str> = ts.iter().map(|t| t.text.as_str()).collect();
    assert_eq!(texts, vec!["a", "c"]);
}

#[test]
fn remove_last_task() {
    let mut ts = tasks();
    let t = remove_task(&mut ts, 3).ok().unwrap();
    assert_eq!(t.created_at, 3);
    assert_eq!(ts.len(), 2);
}

#[test]
fn position_zero_is_refused() {
    let mut ts = tasks();
    assert!(matches!(remove_task(&mut ts, 0), Err(JournalError::InvalidTaskId)));
    assert_eq!(ts.len(), 3);
}

#[test]
fn position_past_end_is_refused() {
    let mut ts = tasks();
    assert!(matches!(remove_task(&mut ts, 4), Err(JournalError::InvalidTaskId)));
    let mut empty: Vec<Task> = Vec::new();
    assert!(matches!(remove_task(&mut empty, 1), Err(JournalError::InvalidTaskId)));
}
