use todo_list::config::{Config, Key};
use todo_list::events::handle_events;
use todo_list::utils;
use todo_list::{App, InputMode, Task};

fn app_with(titles: &[&str], selected: Option<usize>) -> App {
    let tasks: Vec<Task> = titles.iter().map(|t| Task::new((*t).to_string())).collect();
    App {
        input: String::new(),
        input_mode: InputMode::Normal,
        task: tasks,
        should_exit: false,
        selected_task: selected,
        config: Config::default(),
    }
}

fn titles_of(app: &App) -> Vec<String> {
    app.task.iter().map(|t| t.title.clone()).collect()
}

#[test]
fn delete_tie_break_keeps_index() {
    let mut app = app_with(&["A", "B", "C"], Some(1));
    utils::delete_task(&mut app);
    assert_eq!(titles_of(&app), vec!["A".to_string(), "C".to_string()]);
    assert_eq!(app.selected_task, Some(1));
}

#[test]
fn delete_last_moves_selection_back() {
    let mut app = app_with(&["A", "B", "C"], Some(2));
    utils::delete_task(&mut app);
    assert_eq!(titles_of(&app), vec!["A".to_string(), "B".to_string()]);
    assert_eq!(app.selected_task, Some(1));
}

#[test]
fn delete_only_task_clears_selection() {
    let mut app = app_with(&["A"], Some(0));
    utils::delete_task(&mut app);
    assert!(app.task.is_empty());
    assert_eq!(app.selected_task, None);
}

#[test]
fn move_up_at_first_entry_is_a_no_op() {
    let mut app = app_with(&["A", "B"], Some(0));
    utils::list_up(&mut app);
    assert_eq!(app.selected_task, Some(0));
}

#[test]
fn move_down_at_last_entry_is_a_no_op() {
    let mut app = app_with(&["A", "B"], Some(1));
    utils::list_down(&mut app);
    assert_eq!(app.selected_task, Some(1));
}

#[test]
fn navigation_moves_one_step() {
    let mut app = app_with(&["A", "B", "C"], Some(1));
    utils::list_up(&mut app);
    assert_eq!(app.selected_task, Some(0));
    utils::list_down(&mut app);
    utils::list_down(&mut app);
    assert_eq!(app.selected_task, Some(2));
}

#[test]
fn toggle_flips_and_restores() {
    let mut app = app_with(&["A"], Some(0));
    utils::check_and_uncheck_task(&mut app);
    assert!(app.task[0].completed);
    utils::check_and_uncheck_task(&mut app);
    assert!(!app.task[0].completed);
}

#[test]
fn compose_cancel_discards_buffer() {
    let mut app = app_with(&["A"], Some(0));
    handle_events(Key::Char('n'), &mut app);
    assert!(matches!(app.input_mode, InputMode::Adding));
    assert_eq!(app.selected_task, None);
    handle_events(Key::Char('a'), &mut app);
    handle_events(Key::Char('b'), &mut app);
    handle_events(Key::Char('c'), &mut app);
    assert_eq!(app.input, "abc");
    handle_events(Key::Esc, &mut app);
    assert_eq!(titles_of(&app), vec!["A".to_string()]);
    assert_eq!(app.input, "");
    assert!(matches!(app.input_mode, InputMode::Normal));
    assert_eq!(app.selected_task, Some(0));
}

#[test]
fn compose_commit_with_blank_buffer_is_a_no_op() {
    let mut app = app_with(&[], None);
    handle_events(Key::Char('n'), &mut app);
    handle_events(Key::Char(' '), &mut app);
    handle_events(Key::Char(' '), &mut app);
    handle_events(Key::Char(' '), &mut app);
    handle_events(Key::Enter, &mut app);
    assert!(matches!(app.input_mode, InputMode::Adding));
    assert!(app.task.is_empty());
    assert_eq!(app.input, "   ");
}

#[test]
fn compose_commit_appends_and_returns_to_browsing() {
    let mut app = app_with(&["A"], Some(0));
    handle_events(Key::Char('n'), &mut app);
    handle_events(Key::Char('h'), &mut app);
    handle_events(Key::Char('i'), &mut app);
    handle_events(Key::Enter, &mut app);
    assert_eq!(titles_of(&app), vec!["A".to_string(), "hi".to_string()]);
    assert!(!app.task[1].completed);
    assert_eq!(app.input, "");
    assert!(matches!(app.input_mode, InputMode::Normal));
    assert_eq!(app.selected_task, Some(0));
}

#[test]
fn confirm_exit_round_trip_leaves_state_alone() {
    let mut app = app_with(&["A", "B"], Some(1));
    handle_events(Key::Esc, &mut app);
    assert!(matches!(app.input_mode, InputMode::ConfirmQuit));
    handle_events(Key::Char('x'), &mut app);
    assert!(matches!(app.input_mode, InputMode::ConfirmQuit));
    handle_events(Key::Char('n'), &mut app);
    assert!(matches!(app.input_mode, InputMode::Normal));
    assert_eq!(titles_of(&app), vec!["A".to_string(), "B".to_string()]);
    assert_eq!(app.selected_task, Some(1));
    assert!(!app.should_exit);
}

#[test]
fn confirm_exit_enter_sets_exit_flag() {
    let mut app = app_with(&[], None);
    handle_events(Key::Esc, &mut app);
    handle_events(Key::Enter, &mut app);
    assert!(app.should_exit);
}

#[test]
fn backspace_edits_buffer_and_is_safe_on_empty() {
    let mut app = app_with(&[], None);
    handle_events(Key::Char('n'), &mut app);
    handle_events(Key::Backspace, &mut app);
    assert_eq!(app.input, "");
    handle_events(Key::Char('h'), &mut app);
    handle_events(Key::Char('i'), &mut app);
    handle_events(Key::Backspace, &mut app);
    assert_eq!(app.input, "h");
}

#[test]
fn unbound_keys_are_ignored_in_browsing() {
    let mut app = app_with(&["A"], Some(0));
    handle_events(Key::F(5), &mut app);
    handle_events(Key::Char('q'), &mut app);
    assert!(matches!(app.input_mode, InputMode::Normal));
    assert_eq!(titles_of(&app), vec!["A".to_string()]);
    assert_eq!(app.selected_task, Some(0));
}

#[test]
fn selection_invariant_holds_along_a_session() {
    // The cursor is None exactly when the collection is empty or the mode
    // is Adding; otherwise it is in bounds.
    let mut app = App::new(&[], Config::default());
    assert_eq!(app.selected_task, None);
    handle_events(Key::Char('n'), &mut app);
    assert_eq!(app.selected_task, None);
    handle_events(Key::Char('a'), &mut app);
    handle_events(Key::Enter, &mut app);
    assert_eq!(app.selected_task, Some(0));
    assert!(app.selected_task.unwrap() < app.task.len());
    handle_events(Key::Delete, &mut app);
    assert_eq!(app.selected_task, None);
    assert!(app.task.is_empty());
}

#[test]
fn app_new_selects_first_task_when_any() {
    let tasks = vec![Task::new("A".to_string()), Task::new("B".to_string())];
    let app = App::new(&tasks, Config::default());
    assert_eq!(app.selected_task, Some(0));
    assert_eq!(titles_of(&app), vec!["A".to_string(), "B".to_string()]);
    assert!(!app.should_exit);
    assert_eq!(app.input, "");
}

#[test]
fn delete_and_toggle_without_selection_are_no_ops() {
    let mut app = app_with(&[], None);
    utils::delete_task(&mut app);
    utils::check_and_uncheck_task(&mut app);
    utils::list_up(&mut app);
    utils::list_down(&mut app);
    assert!(app.task.is_empty());
    assert_eq!(app.selected_task, None);
}
