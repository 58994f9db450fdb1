//! The read-only view-model projection.
//!
//! `project` is a pure function of the application state: it yields the
//! rows to draw (title, completion, selection), the input buffer, the mode
//! and the help text derived from the binding table's display names. It
//! mutates nothing and the same state always projects to the same view.

use vstd::prelude::*;
use vstd::string::StringExecFns;

use crate::config::{keycode_to_string, spec_key_name, KeyBindings};
use crate::{App, AppV, InputMode};

verus! {

/// One row of the rendered list.
pub struct TaskRow {
    pub title: String,
    pub completed: bool,
    pub selected: bool,
}

/// The mathematical value of a row.
#[verifier::ext_equal]
pub ghost struct RowV {
    pub title: Seq<char>,
    pub completed: bool,
    pub selected: bool,
}

impl View for TaskRow {
    type V = RowV;

    open spec fn view(&self) -> RowV {
        RowV { title: self.title@, completed: self.completed, selected: self.selected }
    }
}

/// What the renderer consumes each frame.
pub struct ViewModel {
    pub tasks: Vec<TaskRow>,
    pub input: String,
    pub mode: InputMode,
    pub help_text: String,
}

/// The mathematical value of a view model.
#[verifier::ext_equal]
pub ghost struct ViewModelV {
    pub tasks: Seq<RowV>,
    pub input: Seq<char>,
    pub mode: InputMode,
    pub help_text: Seq<char>,
}

impl View for ViewModel {
    type V = ViewModelV;

    open spec fn view(&self) -> ViewModelV {
        ViewModelV {
            tasks: self.tasks@.map_values(|r: TaskRow| r@),
            input: self.input@,
            mode: self.mode,
            help_text: self.help_text@,
        }
    }
}

/// The help line for a mode, from the binding table's display names.
pub open spec fn spec_help_text(mode: InputMode, kb: KeyBindings) -> Seq<char> {
    match mode {
        InputMode::Normal => spec_key_name(kb.exit_app) + " exit | "@ + spec_key_name(
            kb.new_task,
        ) + " new task | "@ + spec_key_name(kb.check_and_uncheck_task) + " check/uncheck task | "@
            + spec_key_name(kb.list_up) + "/"@ + spec_key_name(kb.list_down)
            + " navigate list | "@ + spec_key_name(kb.delete_task) + " delete task"@,
        InputMode::Adding => spec_key_name(kb.exit_adding) + " stop adding | "@ + spec_key_name(
            kb.save_task,
        ) + " save task"@,
        InputMode::ConfirmQuit => "Press Enter to confirm quitting, 'n' to cancel"@,
    }
}

/// The projection itself: each task becomes a row whose selection flag says
/// whether the cursor names its index; buffer and mode pass through; the
/// help text follows the mode.
pub open spec fn spec_project(s: AppV, kb: KeyBindings) -> ViewModelV {
    ViewModelV {
        tasks: Seq::new(
            s.tasks.len(),
            |i: int|
                RowV {
                    title: s.tasks[i].title,
                    completed: s.tasks[i].completed,
                    selected: s.selected_task == Some(i as usize),
                },
        ),
        input: s.input,
        mode: s.input_mode,
        help_text: spec_help_text(s.input_mode, kb),
    }
}

/// Builds the help line for a mode.
fn help_text(mode: InputMode, kb: &KeyBindings) -> (r: String)
    ensures
        r@ == spec_help_text(mode, *kb),
{
    match mode {
        InputMode::Normal => {
            let mut s = keycode_to_string(kb.exit_app);
            s.append(" exit | ");
            let k1 = keycode_to_string(kb.new_task);
            s.append(k1.as_str());
            s.append(" new task | ");
            let k2 = keycode_to_string(kb.check_and_uncheck_task);
            s.append(k2.as_str());
            s.append(" check/uncheck task | ");
            let k3 = keycode_to_string(kb.list_up);
            s.append(k3.as_str());
            s.append("/");
            let k4 = keycode_to_string(kb.list_down);
            s.append(k4.as_str());
            s.append(" navigate list | ");
            let k5 = keycode_to_string(kb.delete_task);
            s.append(k5.as_str());
            s.append(" delete task");
            s
        },
        InputMode::Adding => {
            let mut s = keycode_to_string(kb.exit_adding);
            s.append(" stop adding | ");
            let k1 = keycode_to_string(kb.save_task);
            s.append(k1.as_str());
            s.append(" save task");
            s
        },
        InputMode::ConfirmQuit => "Press Enter to confirm quitting, 'n' to cancel".to_owned(),
    }
}

/// Projects the application state into the view model the renderer draws.
pub fn project(app: &App) -> (vm: ViewModel)
    ensures
        vm@ == spec_project(app@, app.config.keybindings),
{
    let ghost s = app@;
    let mut rows: Vec<TaskRow> = Vec::new();
    let n = app.task.len();
    proof {
        assert(s.tasks.len() == app.task@.len());
    }
    let mut i: usize = 0;
    while i < n
        invariant
            i <= n,
            n == app.task@.len(),
            s == app@,
            s.tasks.len() == n,
            rows@.len() == i,
            forall|k: int| 0 <= k < i ==> rows@[k]@ == spec_project(
                s,
                app.config.keybindings,
            ).tasks[k],
        decreases n - i,
    {
        let selected = match app.selected_task {
            Some(sel) => sel == i,
            None => false,
        };
        rows.push(
            TaskRow { title: app.task[i].title.clone(), completed: app.task[i].completed, selected },
        );
        i = i + 1;
    }
    let vm = ViewModel {
        tasks: rows,
        input: app.input.clone(),
        mode: app.input_mode,
        help_text: help_text(app.input_mode, &app.config.keybindings),
    };
    proof {
        assert(vm@.tasks =~= spec_project(s, app.config.keybindings).tasks);
        assert(vm@ =~= spec_project(s, app.config.keybindings));
    }
    vm
}

/// Projection is a pure function of the state: any two projections of the
/// same state, under the same bindings, are identical.
pub proof fn lemma_project_idempotent(s: AppV, kb: KeyBindings, vm1: ViewModelV, vm2: ViewModelV)
    requires
        vm1 == spec_project(s, kb),
        vm2 == spec_project(s, kb),
    ensures
        vm1 == vm2,
{
}

} // verus!
