//! Core of an interactive terminal task manager: the task store, the
//! key-binding table, the mode state machine, the input dispatcher, the
//! read-only view-model projection and the on-disk storage codec.
//!
//! Terminal setup, drawing and file access are external collaborators; this
//! crate holds the state-transition logic and its invariants.

pub mod config;
pub mod events;
pub mod storage;
pub mod text;
pub mod view;
pub mod utils;

use vstd::prelude::*;

use crate::config::Config;

verus! {

/// A single task: a title and a completion flag.
pub struct Task {
    pub title: String,
    pub completed: bool,
}

/// The mathematical value of a task: the title's characters and the flag.
#[verifier::ext_equal]
pub ghost struct TaskV {
    pub title: Seq<char>,
    pub completed: bool,
}

impl View for Task {
    type V = TaskV;

    open spec fn view(&self) -> TaskV {
        TaskV { title: self.title@, completed: self.completed }
    }
}

impl Clone for Task {
    fn clone(&self) -> (t: Task)
        ensures
            t@ == self@,
    {
        Task { title: self.title.clone(), completed: self.completed }
    }
}

impl Task {
    /// A new task starts out not completed.
    pub fn new(title: String) -> (t: Task)
        ensures
            t@ == (TaskV { title: title@, completed: false }),
    {
        Task { title, completed: false }
    }
}

/// The values of a sequence of tasks.
pub open spec fn tasks_view(tasks: Seq<Task>) -> Seq<TaskV> {
    tasks.map_values(|t: Task| t@)
}

/// The ordered task collection, insertion order = display order.
pub struct TaskList {
    pub task: Vec<Task>,
}

impl View for TaskList {
    type V = Seq<TaskV>;

    open spec fn view(&self) -> Seq<TaskV> {
        tasks_view(self.task@)
    }
}

impl TaskList {
    /// Copies the given tasks into a fresh list, order preserved.
    pub fn new(task: &[Task]) -> (l: TaskList)
        ensures
            l@ == tasks_view(task@),
    {
        let mut v: Vec<Task> = Vec::new();
        let n = task.len();
        let mut i: usize = 0;
        while i < n
            invariant
                i <= n,
                n == task@.len(),
                v@.len() == i,
                forall|k: int| 0 <= k < i ==> v@[k]@ == task@[k]@,
            decreases n - i,
        {
            v.push(task[i].clone());
            i = i + 1;
        }
        proof {
            assert(tasks_view(v@) =~= tasks_view(task@));
        }
        TaskList { task: v }
    }
}

/// The interaction mode: exactly one is active at a time.
#[derive(Clone, Copy, PartialEq, Eq, Structural, Debug)]
pub enum InputMode {
    /// Browsing the task list.
    Normal,
    /// Composing a new task in the input buffer.
    Adding,
    /// Asking the user to confirm quitting.
    ConfirmQuit,
}

/// The whole application state: input buffer, mode, task collection,
/// exit flag, selection cursor and configuration.
pub struct App {
    /// Buffer for user input while composing a new task.
    pub input: String,
    /// Current interaction mode.
    pub input_mode: InputMode,
    /// The task collection.
    pub task: Vec<Task>,
    /// Set once the user confirms quitting.
    pub should_exit: bool,
    /// Index of the selected task, if any.
    pub selected_task: Option<usize>,
    /// Colours and key bindings.
    pub config: Config,
}

/// The mathematical value of the application state (the configuration is
/// plain immutable data and is kept beside it).
#[verifier::ext_equal]
pub ghost struct AppV {
    pub input: Seq<char>,
    pub input_mode: InputMode,
    pub tasks: Seq<TaskV>,
    pub should_exit: bool,
    pub selected_task: Option<usize>,
}

impl View for App {
    type V = AppV;

    open spec fn view(&self) -> AppV {
        AppV {
            input: self.input@,
            input_mode: self.input_mode,
            tasks: tasks_view(self.task@),
            should_exit: self.should_exit,
            selected_task: self.selected_task,
        }
    }
}

impl AppV {
    /// The selection-cursor invariant: the cursor is `None` exactly when the
    /// collection is empty or the mode is `Adding`; otherwise it is an
    /// in-bounds index. Holds in every reachable state.
    pub open spec fn inv(self) -> bool {
        &&& (self.selected_task is None <==> (self.tasks.len() == 0
            || self.input_mode is Adding))
        &&& (self.selected_task matches Some(i) ==> i < self.tasks.len())
    }
}

impl App {
    /// The initial state over a loaded task collection: browsing, empty
    /// buffer, the first task selected when there is one.
    pub fn new(task: &[Task], config: Config) -> (app: App)
        ensures
            app@.tasks == tasks_view(task@),
            app@.input_mode == InputMode::Normal,
            app@.input.len() == 0,
            app@.should_exit == false,
            app@.selected_task == (if task@.len() > 0 {
                Some(0usize)
            } else {
                None::<usize>
            }),
            app.config == config,
            app@.inv(),
    {
        let list = TaskList::new(task);
        proof {
            assert(tasks_view(list.task@).len() == list.task@.len());
            assert(tasks_view(task@).len() == task@.len());
        }
        let selected: Option<usize> = if list.task.len() > 0 { Some(0) } else { None };
        App {
            task: list.task,
            selected_task: selected,
            input: String::new(),
            input_mode: InputMode::Normal,
            should_exit: false,
            config,
        }
    }
}

} // verus!
