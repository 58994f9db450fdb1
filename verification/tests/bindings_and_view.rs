use todo_list::config::{keycode_to_string, Action, Config, Key, KeyBindings};
use todo_list::view::project;
use todo_list::{App, InputMode, Task};

#[test]
fn default_bindings_are_the_documented_keys() {
    let kb = KeyBindings::default();
    assert_eq!(kb.exit_app, Key::Esc);
    assert_eq!(kb.new_task, Key::Char('n'));
    assert_eq!(kb.check_and_uncheck_task, Key::Enter);
    assert_eq!(kb.list_up, Key::Up);
    assert_eq!(kb.list_down, Key::Down);
    assert_eq!(kb.delete_task, Key::Delete);
    assert_eq!(kb.exit_adding, Key::Esc);
    assert_eq!(kb.save_task, Key::Enter);
}

#[test]
fn key_names_are_the_documented_labels() {
    assert_eq!(keycode_to_string(Key::Enter), "Enter");
    assert_eq!(keycode_to_string(Key::Esc), "Esc");
    assert_eq!(keycode_to_string(Key::Backspace), "Backspace");
    assert_eq!(keycode_to_string(Key::Up), "\u{2191}");
    assert_eq!(keycode_to_string(Key::Down), "\u{2193}");
    assert_eq!(keycode_to_string(Key::Left), "\u{2190}");
    assert_eq!(keycode_to_string(Key::Right), "\u{2192}");
    assert_eq!(keycode_to_string(Key::Delete), "Delete");
    assert_eq!(keycode_to_string(Key::PageUp), "Page Up");
    assert_eq!(keycode_to_string(Key::Char('x')), "x");
    assert_eq!(keycode_to_string(Key::F(1)), "F1");
    assert_eq!(keycode_to_string(Key::F(12)), "F12");
    assert_eq!(keycode_to_string(Key::F(255)), "F255");
}

#[test]
fn every_key_has_a_non_empty_name() {
    let keys = [
        Key::Backspace,
        Key::Enter,
        Key::Left,
        Key::Right,
        Key::Up,
        Key::Down,
        Key::Home,
        Key::End,
        Key::PageUp,
        Key::PageDown,
        Key::Tab,
        Key::BackTab,
        Key::Delete,
        Key::Insert,
        Key::F(0),
        Key::Char(' '),
        Key::Null,
        Key::Esc,
    ];
    for k in keys {
        assert!(!keycode_to_string(k).is_empty());
    }
}

#[test]
fn resolve_follows_mode_and_table() {
    let kb = KeyBindings::default();
    assert_eq!(kb.resolve(InputMode::Normal, Key::Esc), Some(Action::ExitApp));
    assert_eq!(kb.resolve(InputMode::Normal, Key::Char('n')), Some(Action::NewTask));
    assert_eq!(kb.resolve(InputMode::Normal, Key::Up), Some(Action::ListUp));
    assert_eq!(kb.resolve(InputMode::Normal, Key::F(3)), None);
    assert_eq!(kb.resolve(InputMode::Adding, Key::Enter), Some(Action::SaveTask));
    assert_eq!(kb.resolve(InputMode::Adding, Key::Esc), Some(Action::ExitAdding));
    assert_eq!(
        kb.resolve(InputMode::Adding, Key::Char('q')),
        Some(Action::InputChar('q'))
    );
    assert_eq!(
        kb.resolve(InputMode::Adding, Key::Backspace),
        Some(Action::InputBackspace)
    );
    assert_eq!(kb.resolve(InputMode::ConfirmQuit, Key::Enter), Some(Action::ConfirmExit));
    assert_eq!(
        kb.resolve(InputMode::ConfirmQuit, Key::Char('n')),
        Some(Action::DeclineExit)
    );
    assert_eq!(kb.resolve(InputMode::ConfirmQuit, Key::Esc), None);
}

#[test]
fn bound_character_is_consumed_as_control_while_composing() {
    // A character key that collides with an explicit binding acts as that
    // binding, not as buffer input.
    let mut kb = KeyBindings::default();
    kb.exit_adding = Key::Char('x');
    assert_eq!(kb.resolve(InputMode::Adding, Key::Char('x')), Some(Action::ExitAdding));
    assert_eq!(
        kb.resolve(InputMode::Adding, Key::Char('y')),
        Some(Action::InputChar('y'))
    );
}

fn sample_app() -> App {
    let mut done = Task::new("B".to_string());
    done.completed = true;
    App {
        input: "typing".to_string(),
        input_mode: InputMode::Normal,
        task: vec![Task::new("A".to_string()), done],
        should_exit: false,
        selected_task: Some(1),
        config: Config::default(),
    }
}

#[test]
fn projection_reports_rows_buffer_mode_and_help() {
    let app = sample_app();
    let vm = project(&app);
    assert_eq!(vm.tasks.len(), 2);
    assert_eq!(vm.tasks[0].title, "A");
    assert!(!vm.tasks[0].completed);
    assert!(!vm.tasks[0].selected);
    assert_eq!(vm.tasks[1].title, "B");
    assert!(vm.tasks[1].completed);
    assert!(vm.tasks[1].selected);
    assert_eq!(vm.input, "typing");
    assert!(matches!(vm.mode, InputMode::Normal));
    assert_eq!(
        vm.help_text,
        "Esc exit | n new task | Enter check/uncheck task | \u{2191}/\u{2193} navigate list | Delete delete task"
    );
}

#[test]
fn projection_twice_yields_identical_output() {
    let app = sample_app();
    let vm1 = project(&app);
    let vm2 = project(&app);
    assert_eq!(vm1.tasks.len(), vm2.tasks.len());
    for (a, b) in vm1.tasks.iter().zip(vm2.tasks.iter()) {
        assert_eq!(a.title, b.title);
        assert_eq!(a.completed, b.completed);
        assert_eq!(a.selected, b.selected);
    }
    assert_eq!(vm1.input, vm2.input);
    assert!(matches!(
        (vm1.mode, vm2.mode),
        (InputMode::Normal, InputMode::Normal)
    ));
    assert_eq!(vm1.help_text, vm2.help_text);
}

#[test]
fn help_text_follows_the_mode() {
    let mut app = sample_app();
    app.input_mode = InputMode::Adding;
    let vm = project(&app);
    assert_eq!(vm.help_text, "Esc stop adding | Enter save task");
    app.input_mode = InputMode::ConfirmQuit;
    let vm = project(&app);
    assert_eq!(vm.help_text, "Press Enter to confirm quitting, 'n' to cancel");
}

#[test]
fn no_selection_marks_no_row() {
    let mut app = sample_app();
    app.selected_task = None;
    let vm = project(&app);
    assert!(vm.tasks.iter().all(|r| !r.selected));
}
