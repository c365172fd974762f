use rusttodo_tui::todo::{Color, Priority, Timestamp, TodoItem};

fn item(id: usize, title: &str, completed: bool) -> TodoItem {
    TodoItem {
        id,
        title: title.to_string(),
        description: String::new(),
        completed,
        created_at: Timestamp { secs: 0, nanos: 0 },
        priority: Priority::Medium,
    }
}

#[test]
fn priority_names() {
    assert_eq!(Priority::Low.as_str(), "Low");
    assert_eq!(Priority::Medium.as_str(), "Medium");
    assert_eq!(Priority::High.as_str(), "High");
}

#[test]
fn priority_colors() {
    assert_eq!(Priority::Low.color(), Color::Green);
    assert_eq!(Priority::Medium.color(), Color::Yellow);
    assert_eq!(Priority::High.color(), Color::Red);
}

#[test]
fn priority_icons() {
    assert_eq!(Priority::High.icon(), "⬤");
    assert_eq!(Priority::Medium.icon(), "◉");
    assert_eq!(Priority::Low.icon(), "○");
}

#[test]
fn new_todo_starts_active() {
    let at = Timestamp { secs: 1_700_000_000, nanos: 5 };
    let t = TodoItem::new(7, "Buy milk".to_string(), "2 litres".to_string(), Priority::High, at);
    assert_eq!(t.id, 7);
    assert_eq!(t.title, "Buy milk");
    assert_eq!(t.description, "2 litres");
    assert!(!t.completed);
    assert_eq!(t.priority, Priority::High);
    assert_eq!(t.created_at, at);
}

#[test]
fn created_display_formats_in_utc() {
    let mut t = item(1, "a", false);
    assert_eq!(t.created_display(), Some("1970-01-01 00:00".to_string()));
    t.created_at = Timestamp { secs: 1_700_000_000, nanos: 123 };
    assert_eq!(t.created_display(), Some("2023-11-14 22:13".to_string()));
    t.created_at = Timestamp { secs: -86_400, nanos: 0 };
    assert_eq!(t.created_display(), Some("1969-12-31 00:00".to_string()));
    t.created_at = Timestamp { secs: i64::MAX, nanos: 0 };
    assert_eq!(t.created_display(), None);
    t.created_at = Timestamp { secs: 0, nanos: 2_000_000_000 };
    assert_eq!(t.created_display(), None);
}

#[test]
fn toggle_twice_restores_completion() {
    let mut t = item(1, "a", false);
    t.toggle();
    assert!(t.completed);
    assert_eq!(t.title, "a");
    assert_eq!(t.id, 1);
    t.toggle();
    assert!(!t.completed);
}

#[test]
fn status_mark_and_label() {
    let done = item(1, "a", true);
    let open = item(2, "b", false);
    assert_eq!(done.status_mark(), "✓");
    assert_eq!(open.status_mark(), "·");
    assert_eq!(done.status_label(), "Completed");
    assert_eq!(open.status_label(), "Active");
}

#[test]
fn description_placeholder() {
    let mut t = item(1, "a", false);
    assert_eq!(t.description_text(), "No description");
    t.description = "details".to_string();
    assert_eq!(t.description_text(), "details");
}
