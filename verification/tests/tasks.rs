use meridian::tasks::{NewReminder, NewTask, Reminder, Task};

fn req(priority: Option<&str>) -> NewTask {
    NewTask {
        title: "Write report".to_string(),
        description: Some("Q3 numbers".to_string()),
        due_at: None,
        priority: priority.map(|p| p.to_string()),
        source_url: Some("https://example.com".to_string()),
    }
}

#[test]
fn task_from_request_defaults() {
    let t = Task::from_request(req(None), "id-1".to_string(), "2024-01-01T09:00:00+00:00".to_string());
    assert_eq!(t.id, "id-1");
    assert_eq!(t.title, "Write report");
    assert_eq!(t.priority, "medium");
    assert!(!t.completed);
    assert!(t.recurrence_rule.is_none());
    assert_eq!(t.created_at, t.updated_at);
    assert_eq!(t.source_url.as_deref(), Some("https://example.com"));
}

#[test]
fn task_keeps_requested_priority() {
    let t = Task::new(req(Some("high")));
    assert_eq!(t.priority, "high");
    assert_eq!(t.id.len(), 36);
    assert_eq!(&t.id[8..9], "-");
    assert_eq!(t.created_at, t.updated_at);
}

#[test]
fn new_tasks_get_distinct_ids() {
    let a = Task::new(req(None));
    let b = Task::new(req(None));
    assert_ne!(a.id, b.id);
}

#[test]
fn reminder_from_request() {
    let r = Reminder::new(NewReminder {
        task_id: Some("t".to_string()),
        fire_at: "2024-01-01T10:00:00Z".to_string(),
        message: "Standup".to_string(),
    });
    assert!(!r.fired);
    assert_eq!(r.message, "Standup");
    assert_eq!(r.task_id.as_deref(), Some("t"));
    assert_eq!(r.id.len(), 36);
}
