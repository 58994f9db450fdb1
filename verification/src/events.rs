//! The input dispatcher and the mode state machine.
//!
//! `spec_step` is the single transition function: it resolves a raw key
//! against the binding table in the current mode and applies the resolved
//! action. `handle_events` is its executable counterpart and the sole entry
//! point for key events; every branch has a defined no-op fallback, and
//! every step preserves the selection-cursor invariant.

use vstd::prelude::*;

use crate::config::{spec_resolve, Action, Key, KeyBindings};
use crate::text::{is_blank, str_is_blank};
use crate::utils;
use crate::{App, AppV, InputMode, TaskV};

verus! {

/// The state after one resolved action is applied. Mode gating is done by
/// resolution; the one further gate is that committing with a blank
/// (all-whitespace) buffer is silently ignored.
pub open spec fn spec_apply(s: AppV, a: Action) -> AppV {
    match a {
        Action::NewTask => AppV {
            input_mode: InputMode::Adding,
            selected_task: None,
            ..s
        },
        Action::ExitApp => AppV { input_mode: InputMode::ConfirmQuit, ..s },
        Action::ListUp => AppV { selected_task: utils::spec_move_up(s.selected_task), ..s },
        Action::ListDown => AppV {
            selected_task: utils::spec_move_down(s.selected_task, s.tasks.len()),
            ..s
        },
        Action::ToggleTask => AppV {
            tasks: utils::spec_toggle(s.tasks, s.selected_task),
            ..s
        },
        Action::DeleteTask => AppV {
            tasks: utils::spec_delete(s.tasks, s.selected_task).0,
            selected_task: utils::spec_delete(s.tasks, s.selected_task).1,
            ..s
        },
        Action::SaveTask => if is_blank(s.input) {
            s
        } else {
            AppV {
                tasks: s.tasks.push(TaskV { title: s.input, completed: false }),
                input: Seq::<char>::empty(),
                input_mode: InputMode::Normal,
                selected_task: Some(0usize),
                ..s
            }
        },
        Action::ExitAdding => AppV {
            input_mode: InputMode::Normal,
            input: Seq::<char>::empty(),
            selected_task: if s.tasks.len() > 0 {
                Some(0usize)
            } else {
                None
            },
            ..s
        },
        Action::InputChar(c) => AppV { input: s.input.push(c), ..s },
        Action::InputBackspace => AppV {
            input: if s.input.len() > 0 {
                s.input.drop_last()
            } else {
                s.input
            },
            ..s
        },
        Action::ConfirmExit => AppV { should_exit: true, ..s },
        Action::DeclineExit => AppV { input_mode: InputMode::Normal, ..s },
    }
}

/// The transition function of the whole state machine: one key event in,
/// the next state out. An unresolved key changes nothing.
pub open spec fn spec_step(s: AppV, kb: KeyBindings, key: Key) -> AppV {
    match spec_resolve(kb, s.input_mode, key) {
        Some(a) => spec_apply(s, a),
        None => s,
    }
}

/// Every state reachable from a state satisfying the selection-cursor
/// invariant satisfies it again after one step, whatever the bindings and
/// whatever the key.
pub proof fn lemma_step_preserves_inv(s: AppV, kb: KeyBindings, key: Key)
    requires
        s.inv(),
    ensures
        spec_step(s, kb, key).inv(),
{
}

/// Dispatch while browsing the list.
fn handle_normal_events(app: &mut App, keycode: Key)
    requires
        old(app)@.inv(),
        old(app)@.input_mode == InputMode::Normal,
    ensures
        final(app)@ == spec_step(old(app)@, old(app).config.keybindings, keycode),
        final(app).config == old(app).config,
{
    match app.config.keybindings.resolve(InputMode::Normal, keycode) {
        Some(Action::NewTask) => utils::new_task(app),
        Some(Action::ExitApp) => utils::exit_app(app),
        Some(Action::ListUp) => utils::list_up(app),
        Some(Action::ListDown) => utils::list_down(app),
        Some(Action::ToggleTask) => utils::check_and_uncheck_task(app),
        Some(Action::DeleteTask) => utils::delete_task(app),
        _ => {},
    }
}

/// Dispatch while composing a new task.
fn handle_adding_events(app: &mut App, keycode: Key)
    requires
        old(app)@.input_mode == InputMode::Adding,
    ensures
        final(app)@ == spec_step(old(app)@, old(app).config.keybindings, keycode),
        final(app).config == old(app).config,
{
    match app.config.keybindings.resolve(InputMode::Adding, keycode) {
        Some(Action::SaveTask) => {
            if !str_is_blank(app.input.as_str()) {
                utils::save_task(app);
                app.input_mode = InputMode::Normal;
                app.selected_task = Some(0);
            }
        },
        Some(Action::ExitAdding) => utils::exit_adding_mode(app),
        Some(Action::InputChar(c)) => utils::input_add_char(app, c),
        Some(Action::InputBackspace) => utils::input_del_char(app),
        _ => {},
    }
}

/// Dispatch while the confirmation prompt is shown.
fn handle_confirm_quit_events(app: &mut App, keycode: Key)
    requires
        old(app)@.input_mode == InputMode::ConfirmQuit,
    ensures
        final(app)@ == spec_step(old(app)@, old(app).config.keybindings, keycode),
        final(app).config == old(app).config,
{
    match app.config.keybindings.resolve(InputMode::ConfirmQuit, keycode) {
        Some(Action::ConfirmExit) => app.should_exit = true,
        Some(Action::DeclineExit) => app.input_mode = InputMode::Normal,
        _ => {},
    }
}

/// The sole entry point for key events: performs exactly one step of the
/// state machine and keeps the selection-cursor invariant.
pub fn handle_events(event: Key, app: &mut App)
    requires
        old(app)@.inv(),
    ensures
        final(app)@ == spec_step(old(app)@, old(app).config.keybindings, event),
        final(app).config == old(app).config,
        final(app)@.inv(),
{
    match app.input_mode {
        InputMode::Normal => handle_normal_events(app, event),
        InputMode::Adding => handle_adding_events(app, event),
        InputMode::ConfirmQuit => handle_confirm_quit_events(app, event),
    }
    proof {
        lemma_step_preserves_inv(old(app)@, old(app).config.keybindings, event);
    }
}

} // verus!
