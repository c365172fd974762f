use rusttodo_tui::app::{help_text, priority_for_index, AddingField, App, InputMode, Tab};
use rusttodo_tui::todo::{Priority, Timestamp, TodoItem};
use std::path::PathBuf;

const NOW: Timestamp = Timestamp { secs: 1_700_000_000, nanos: 0 };

fn item(id: usize, title: &str, completed: bool) -> TodoItem {
    TodoItem {
        id,
        title: title.to_string(),
        description: String::new(),
        completed,
        created_at: Timestamp { secs: 0, nanos: 0 },
        priority: Priority::Low,
    }
}

fn app_with(todos: Vec<TodoItem>) -> App {
    let mut app = App::new(PathBuf::from("todos.json"));
    app.load(todos);
    app
}

fn titles(app: &App) -> Vec<String> {
    app.filtered_todos().iter().map(|t| t.title.clone()).collect()
}

fn all_titles(app: &App) -> Vec<String> {
    app.todos.iter().map(|t| t.title.clone()).collect()
}

#[test]
fn tab_cycles_back_after_three_steps() {
    assert_eq!(Tab::All.next(), Tab::Active);
    assert_eq!(Tab::Active.next(), Tab::Completed);
    assert_eq!(Tab::Completed.next(), Tab::All);
    for t in [Tab::All, Tab::Active, Tab::Completed] {
        assert_eq!(t.next().next().next(), t);
    }
}

#[test]
fn tab_positions() {
    assert_eq!(Tab::All.index(), 0);
    assert_eq!(Tab::Active.index(), 1);
    assert_eq!(Tab::Completed.index(), 2);
}

#[test]
fn priority_index_is_clamped() {
    assert_eq!(priority_for_index(0), Priority::Low);
    assert_eq!(priority_for_index(1), Priority::Medium);
    assert_eq!(priority_for_index(2), Priority::High);
    assert_eq!(priority_for_index(9), Priority::High);
}

#[test]
fn new_app_is_empty() {
    let app = App::new(PathBuf::from("x.json"));
    assert!(app.todos.is_empty());
    assert_eq!(app.selected, 0);
    assert_eq!(app.tab, Tab::All);
    assert_eq!(app.input_mode, InputMode::Normal);
    assert_eq!(app.input_buffer, "");
    assert_eq!(app.description_buffer, "");
    assert_eq!(app.priority_index, 1);
    assert!(!app.should_quit);
    assert_eq!(app.next_id, 0);
    assert_eq!(app.storage_path, PathBuf::from("x.json"));
}

#[test]
fn filtered_todos_follow_the_tab() {
    let mut app = app_with(vec![item(0, "a", false), item(1, "b", true), item(2, "c", false)]);
    assert_eq!(titles(&app), vec!["a", "b", "c"]);
    app.tab = Tab::Active;
    assert_eq!(titles(&app), vec!["a", "c"]);
    app.tab = Tab::Completed;
    assert_eq!(titles(&app), vec!["b"]);
}

#[test]
fn active_and_completed_split_the_list() {
    let mut app = app_with(vec![item(0, "a", false), item(1, "b", true), item(2, "c", false), item(3, "d", true), item(4, "e", true)]);
    assert_eq!(app.status_counts(), (5, 2, 3));
    app.tab = Tab::Active;
    let active = app.filtered_todos().len();
    app.tab = Tab::Completed;
    let completed = app.filtered_todos().len();
    assert_eq!(active + completed, app.todos.len());
    assert_eq!(App::new(PathBuf::from("y")).status_counts(), (0, 0, 0));
}

#[test]
fn add_with_empty_title_does_nothing() {
    let mut app = app_with(vec![item(0, "a", false)]);
    app.description_buffer = "only a description".to_string();
    assert!(!app.add_todo(NOW));
    assert_eq!(app.todos.len(), 1);
    assert_eq!(app.next_id, 1);
    assert_eq!(app.description_buffer, "only a description");
}

#[test]
fn add_appends_with_next_id_and_resets_form() {
    let mut app = app_with(vec![item(4, "a", false)]);
    app.input_buffer = "write report".to_string();
    app.description_buffer = "by friday".to_string();
    app.priority_index = 0;
    assert!(app.add_todo(NOW));
    assert_eq!(app.todos.len(), 2);
    let t = &app.todos[1];
    assert_eq!(t.id, 5);
    assert_eq!(t.title, "write report");
    assert_eq!(t.description, "by friday");
    assert!(!t.completed);
    assert_eq!(t.priority, Priority::Low);
    assert_eq!(t.created_at, NOW);
    assert_eq!(app.next_id, 6);
    assert_eq!(app.input_buffer, "");
    assert_eq!(app.description_buffer, "");
    assert_eq!(app.priority_index, 1);
}

#[test]
fn add_with_large_priority_index_gives_high() {
    let mut app = App::new(PathBuf::from("z"));
    app.input_buffer = "x".to_string();
    app.priority_index = 7;
    assert!(app.add_todo(NOW));
    assert_eq!(app.todos[0].priority, Priority::High);
    assert_eq!(app.todos[0].id, 0);
}

#[test]
fn delete_removes_selected_and_clamps() {
    let mut app = app_with(vec![item(0, "a", false), item(1, "b", false), item(2, "c", false)]);
    app.selected = 2;
    assert!(app.delete_selected());
    assert_eq!(all_titles(&app), vec!["a", "b"]);
    assert_eq!(app.selected, 1);
    app.selected = 0;
    assert!(app.delete_selected());
    assert_eq!(all_titles(&app), vec!["b"]);
    assert_eq!(app.selected, 0);
    assert!(app.delete_selected());
    assert!(app.todos.is_empty());
    assert_eq!(app.selected, 0);
    assert!(!app.delete_selected());
}

#[test]
fn delete_with_selection_outside_list_does_nothing() {
    let mut app = app_with(vec![item(0, "a", false), item(1, "b", true)]);
    app.tab = Tab::Completed;
    app.selected = 1;
    assert!(!app.delete_selected());
    assert_eq!(app.todos.len(), 2);
    assert_eq!(app.selected, 1);
}

#[test]
fn delete_in_filtered_tab_removes_the_shown_todo() {
    let mut app = app_with(vec![item(0, "a", true), item(1, "b", false), item(2, "c", true)]);
    app.tab = Tab::Completed;
    app.selected = 1;
    assert!(app.delete_selected());
    assert_eq!(all_titles(&app), vec!["a", "b"]);
    assert_eq!(app.selected, 0);
}

#[test]
fn delete_removes_every_todo_sharing_the_id() {
    let mut app = app_with(vec![item(3, "a", false), item(1, "b", false), item(3, "c", false)]);
    app.selected = 0;
    assert!(app.delete_selected());
    assert_eq!(all_titles(&app), vec!["b"]);
}

#[test]
fn toggle_flips_selected_todo() {
    let mut app = app_with(vec![item(0, "a", false), item(1, "b", false)]);
    app.selected = 1;
    assert!(app.toggle_selected());
    assert!(app.todos[1].completed);
    assert!(!app.todos[0].completed);
    app.tab = Tab::Active;
    assert_eq!(titles(&app), vec!["a"]);
    // The selection is not pulled back after the toggled todo left the view.
    assert_eq!(app.selected, 1);
    assert!(!app.toggle_selected());
}

#[test]
fn toggle_flips_only_the_first_todo_with_the_id() {
    let mut app = app_with(vec![item(0, "a", false), item(5, "b", false), item(5, "c", false)]);
    app.selected = 2;
    assert!(app.toggle_selected());
    assert!(app.todos[1].completed);
    assert!(!app.todos[2].completed);
}

#[test]
fn toggle_twice_on_all_restores_list() {
    let mut app = app_with(vec![item(0, "a", false), item(1, "b", true)]);
    app.selected = 1;
    assert!(app.toggle_selected());
    assert!(app.toggle_selected());
    assert!(!app.todos[0].completed);
    assert!(app.todos[1].completed);
}

#[test]
fn moving_wraps_around() {
    let mut app = app_with(vec![item(0, "a", false), item(1, "b", false), item(2, "c", false)]);
    app.next_item();
    assert_eq!(app.selected, 1);
    app.next_item();
    app.next_item();
    assert_eq!(app.selected, 0);
    app.previous_item();
    assert_eq!(app.selected, 2);
    app.previous_item();
    assert_eq!(app.selected, 1);
}

#[test]
fn next_then_previous_returns() {
    let mut app = app_with(vec![item(0, "a", false), item(1, "b", false), item(2, "c", false)]);
    for start in 0..3 {
        app.selected = start;
        app.next_item();
        app.previous_item();
        assert_eq!(app.selected, start);
        app.previous_item();
        app.next_item();
        assert_eq!(app.selected, start);
    }
}

#[test]
fn moving_in_empty_view_does_nothing() {
    let mut app = app_with(vec![item(0, "a", false)]);
    app.tab = Tab::Completed;
    app.selected = 4;
    app.next_item();
    assert_eq!(app.selected, 4);
    app.previous_item();
    assert_eq!(app.selected, 4);
}

#[test]
fn moving_from_outside_the_view() {
    let mut app = app_with(vec![item(0, "a", false), item(1, "b", false)]);
    app.selected = 5;
    app.next_item();
    assert_eq!(app.selected, 0);
    app.selected = 5;
    app.previous_item();
    assert_eq!(app.selected, 4);
}

#[test]
fn next_tab_resets_selection() {
    let mut app = app_with(vec![item(0, "a", false), item(1, "b", false)]);
    app.selected = 1;
    app.next_tab();
    assert_eq!(app.tab, Tab::Active);
    assert_eq!(app.selected, 0);
    app.next_tab();
    app.next_tab();
    assert_eq!(app.tab, Tab::All);
}

#[test]
fn load_sets_next_id_past_largest() {
    let app = app_with(vec![item(3, "a", false), item(9, "b", false), item(2, "c", false)]);
    assert_eq!(app.next_id, 10);
    assert!(app.todos.iter().all(|t| t.id < app.next_id));
    let empty = app_with(vec![]);
    assert_eq!(empty.next_id, 0);
}

#[test]
fn load_keeps_the_form() {
    let mut app = App::new(PathBuf::from("p"));
    app.input_buffer = "typing".to_string();
    app.selected = 3;
    app.load(vec![item(0, "a", false)]);
    assert_eq!(app.input_buffer, "typing");
    assert_eq!(app.selected, 3);
    assert_eq!(app.todos.len(), 1);
}

#[test]
fn added_ids_stay_distinct_after_load() {
    let mut app = app_with(vec![item(0, "a", false), item(4, "b", false)]);
    for name in ["x", "y", "z"] {
        app.input_buffer = name.to_string();
        assert!(app.add_todo(NOW));
    }
    let ids: Vec<usize> = app.todos.iter().map(|t| t.id).collect();
    assert_eq!(ids, vec![0, 4, 5, 6, 7]);
}

#[test]
fn help_text_per_mode() {
    assert_eq!(
        help_text(&InputMode::Normal),
        " a:Add   d:Delete   Space:Toggle   Enter:Details   Tab:Filter   q:Quit "
    );
    assert_eq!(help_text(&InputMode::ViewingDetails), " Esc:Back ");
    assert_eq!(
        help_text(&InputMode::Adding(AddingField::Description)),
        " Tab:Switch   ↑↓:Priority   Enter:Save   Esc:Cancel "
    );
    assert_eq!(help_text(&InputMode::Editing), "");
}

#[test]
fn start_edit_fills_the_form() {
    let mut app = app_with(vec![item(0, "a", false), item(1, "b", true)]);
    app.todos[1].description = "details".to_string();
    app.todos[1].priority = Priority::High;
    app.selected = 1;
    app.start_edit();
    assert_eq!(app.input_mode, InputMode::Editing);
    assert_eq!(app.input_buffer, "b");
    assert_eq!(app.description_buffer, "details");
    assert_eq!(app.priority_index, 2);
    assert_eq!(app.todos.len(), 2);
}

#[test]
fn start_edit_without_selection_does_nothing() {
    let mut app = app_with(vec![item(0, "a", false)]);
    app.selected = 3;
    app.start_edit();
    assert_eq!(app.input_mode, InputMode::Normal);
    assert_eq!(app.input_buffer, "");
}

#[test]
fn save_edit_rewrites_selected_todo() {
    let mut app = app_with(vec![item(0, "a", false), item(1, "b", true)]);
    app.todos[1].created_at = Timestamp { secs: 42, nanos: 7 };
    app.selected = 1;
    app.start_edit();
    app.input_buffer = "renamed".to_string();
    app.description_buffer = "new text".to_string();
    app.priority_index = 0;
    assert!(app.save_edit());
    let t = &app.todos[1];
    assert_eq!(t.id, 1);
    assert!(t.completed);
    assert_eq!(t.created_at, Timestamp { secs: 42, nanos: 7 });
    assert_eq!(t.title, "renamed");
    assert_eq!(t.description, "new text");
    assert_eq!(t.priority, Priority::Low);
    assert_eq!(app.todos[0].title, "a");
    assert_eq!(app.input_buffer, "");
    assert_eq!(app.description_buffer, "");
    assert_eq!(app.priority_index, 1);
    assert_eq!(app.next_id, 2);
}

#[test]
fn save_edit_with_empty_title_does_nothing() {
    let mut app = app_with(vec![item(0, "a", false)]);
    app.start_edit();
    app.input_buffer.clear();
    assert!(!app.save_edit());
    assert_eq!(app.todos[0].title, "a");
}

#[test]
fn untouched_edit_keeps_the_todo() {
    let mut app = app_with(vec![item(0, "a", false), item(1, "b", false)]);
    app.todos[0].description = "d".to_string();
    app.todos[0].priority = Priority::High;
    app.start_edit();
    assert!(app.save_edit());
    assert_eq!(app.todos[0].title, "a");
    assert_eq!(app.todos[0].description, "d");
    assert_eq!(app.todos[0].priority, Priority::High);
    assert_eq!(app.todos[1].title, "b");
}
