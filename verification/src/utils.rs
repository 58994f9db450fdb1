//! The task-store mutations and buffer edits, one function per logical
//! action. Each contract states exactly how the new application state
//! relates to the old one; the dispatcher in `events` glues them to keys.

use vstd::prelude::*;

use crate::text::{pop_char, push_char};
use crate::{tasks_view, App, AppV, InputMode, Task, TaskV};

verus! {

/// Where the cursor lands on a move up: one step toward the front,
/// stopping (without wrapping) at the first entry.
pub open spec fn spec_move_up(sel: Option<usize>) -> Option<usize> {
    match sel {
        Some(i) => if i > 0 {
            Some((i - 1) as usize)
        } else {
            Some(i)
        },
        None => None,
    }
}

/// Where the cursor lands on a move down: one step toward the back,
/// stopping (without wrapping) at the last entry.
pub open spec fn spec_move_down(sel: Option<usize>, len: nat) -> Option<usize> {
    match sel {
        Some(i) => if i + 1 < len {
            Some((i + 1) as usize)
        } else {
            Some(i)
        },
        None => None,
    }
}

/// The collection after toggling the completion flag at the cursor; without
/// a cursor nothing changes.
pub open spec fn spec_toggle(tasks: Seq<TaskV>, sel: Option<usize>) -> Seq<TaskV> {
    match sel {
        None => tasks,
        Some(i) => tasks.update(
            i as int,
            TaskV { title: tasks[i as int].title, completed: !tasks[i as int].completed },
        ),
    }
}

/// The collection and cursor after deleting the task at the cursor: later
/// tasks shift down one slot; then the cursor is `None` on an empty
/// collection, moves to the new last entry when the removed index was the
/// last one, and otherwise keeps its numeric value (now naming the task
/// that shifted into the vacated slot).
pub open spec fn spec_delete(tasks: Seq<TaskV>, sel: Option<usize>) -> (Seq<TaskV>, Option<
    usize,
>) {
    match sel {
        None => (tasks, sel),
        Some(i) => {
            let rest = tasks.remove(i as int);
            let nsel = if rest.len() == 0 {
                None
            } else if i == rest.len() {
                Some((i - 1) as usize)
            } else {
                Some(i)
            };
            (rest, nsel)
        },
    }
}

/// Enters composing mode; the cursor is suspended while composing.
pub fn new_task(app: &mut App)
    ensures
        final(app)@ == (AppV {
            input_mode: InputMode::Adding,
            selected_task: None::<usize>,
            ..old(app)@
        }),
        final(app).config == old(app).config,
{
    app.input_mode = InputMode::Adding;
    app.selected_task = None;
}

/// Asks for confirmation before exiting.
pub fn exit_app(app: &mut App)
    ensures
        final(app)@ == (AppV { input_mode: InputMode::ConfirmQuit, ..old(app)@ }),
        final(app).config == old(app).config,
{
    app.input_mode = InputMode::ConfirmQuit;
}

/// Moves the cursor one entry up, if possible.
pub fn list_up(app: &mut App)
    ensures
        final(app)@ == (AppV {
            selected_task: spec_move_up(old(app)@.selected_task),
            ..old(app)@
        }),
        final(app).config == old(app).config,
{
    if let Some(index) = app.selected_task {
        if index > 0 {
            app.selected_task = Some(index - 1);
        }
    }
}

/// Moves the cursor one entry down, if possible. The cursor must be a
/// currently-valid index, as it is in every reachable state.
pub fn list_down(app: &mut App)
    requires
        old(app)@.selected_task matches Some(i) ==> i < old(app)@.tasks.len(),
    ensures
        final(app)@ == (AppV {
            selected_task: spec_move_down(old(app)@.selected_task, old(app)@.tasks.len()),
            ..old(app)@
        }),
        final(app).config == old(app).config,
{
    proof {
        assert(tasks_view(app.task@).len() == app.task@.len());
    }
    if let Some(index) = app.selected_task {
        let n = app.task.len();
        if index + 1 < n {
            app.selected_task = Some(index + 1);
        }
    }
}

/// Flips the completion flag of the task at the cursor; a missing cursor is
/// a no-op. The cursor must be a currently-valid index.
pub fn check_and_uncheck_task(app: &mut App)
    requires
        old(app)@.selected_task matches Some(i) ==> i < old(app)@.tasks.len(),
    ensures
        final(app)@ == (AppV {
            tasks: spec_toggle(old(app)@.tasks, old(app)@.selected_task),
            ..old(app)@
        }),
        final(app).config == old(app).config,
{
    proof {
        assert(tasks_view(app.task@).len() == app.task@.len());
    }
    if let Some(index) = app.selected_task {
        let flipped = !app.task[index].completed;
        app.task[index].completed = flipped;
        proof {
            assert(tasks_view(app.task@) =~= spec_toggle(
                tasks_view(old(app).task@),
                Some(index),
            ));
        }
    }
}

/// Removes the task at the cursor and re-establishes a valid cursor per the
/// deletion rule; a missing cursor is a no-op.
pub fn delete_task(app: &mut App)
    requires
        old(app)@.selected_task matches Some(i) ==> i < old(app)@.tasks.len(),
    ensures
        final(app)@ == (AppV {
            tasks: spec_delete(old(app)@.tasks, old(app)@.selected_task).0,
            selected_task: spec_delete(old(app)@.tasks, old(app)@.selected_task).1,
            ..old(app)@
        }),
        final(app).config == old(app).config,
{
    proof {
        assert(tasks_view(app.task@).len() == app.task@.len());
    }
    if let Some(index) = app.selected_task {
        app.task.remove(index);
        proof {
            assert(tasks_view(app.task@) =~= tasks_view(old(app).task@).remove(index as int));
        }
        if app.task.len() == 0 {
            app.selected_task = None;
        } else if index == app.task.len() {
            app.selected_task = Some(app.task.len() - 1);
        }
    }
}

/// Appends a new (not completed) task whose title is the whole input
/// buffer, and consumes the buffer. Callers reject blank titles first.
pub fn save_task(app: &mut App)
    ensures
        final(app)@ == (AppV {
            tasks: old(app)@.tasks.push(
                TaskV { title: old(app)@.input, completed: false },
            ),
            input: Seq::<char>::empty(),
            ..old(app)@
        }),
        final(app).config == old(app).config,
{
    let title = app.input.clone();
    app.input = String::new();
    let t = Task::new(title);
    app.task.push(t);
    proof {
        assert(tasks_view(app.task@) =~= old(app)@.tasks.push(
            TaskV { title: old(app)@.input, completed: false },
        ));
    }
}

/// Leaves composing mode without saving: the buffer is discarded and the
/// cursor returns to the first entry, when there is one.
pub fn exit_adding_mode(app: &mut App)
    ensures
        final(app)@ == (AppV {
            input_mode: InputMode::Normal,
            input: Seq::<char>::empty(),
            selected_task: (if old(app)@.tasks.len() > 0 {
                Some(0usize)
            } else {
                None::<usize>
            }),
            ..old(app)@
        }),
        final(app).config == old(app).config,
{
    proof {
        assert(tasks_view(app.task@).len() == app.task@.len());
    }
    app.input_mode = InputMode::Normal;
    app.input = String::new();
    if app.task.len() > 0 {
        app.selected_task = Some(0);
    } else {
        app.selected_task = None;
    }
}

/// Appends one character to the input buffer.
pub fn input_add_char(app: &mut App, c: char)
    ensures
        final(app)@ == (AppV { input: old(app)@.input.push(c), ..old(app)@ }),
        final(app).config == old(app).config,
{
    push_char(&mut app.input, c);
}

/// Removes the last character of the input buffer; a no-op on an empty
/// buffer.
pub fn input_del_char(app: &mut App)
    ensures
        final(app)@ == (AppV {
            input: (if old(app)@.input.len() > 0 {
                old(app)@.input.drop_last()
            } else {
                old(app)@.input
            }),
            ..old(app)@
        }),
        final(app).config == old(app).config,
{
    let _ = pop_char(&mut app.input);
}

} // verus!
