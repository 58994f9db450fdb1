//! Colour and key-binding configuration.
//!
//! The binding table maps each logical action to a key identifier. It is
//! loaded once at startup (defaults are supplied here) and stays immutable
//! for the lifetime of the process.

use vstd::prelude::*;

use crate::text::chars_to_string;
use crate::InputMode;

verus! {

/// A key identifier: the closed set of keys the application can recognise
/// and bind actions to.
#[derive(Clone, Copy, PartialEq, Eq, Structural, Debug)]
pub enum Key {
    Backspace,
    Enter,
    Left,
    Right,
    Up,
    Down,
    Home,
    End,
    PageUp,
    PageDown,
    Tab,
    BackTab,
    Delete,
    Insert,
    F(u8),
    Char(char),
    Null,
    Esc,
}

/// An RGB colour.
#[derive(Clone, Copy, PartialEq, Eq, Structural, Debug)]
pub struct Rgb {
    pub red: u8,
    pub green: u8,
    pub blue: u8,
}

/// The six colour slots of the user interface.
#[derive(Clone, Copy, PartialEq, Eq, Structural, Debug)]
pub struct Colors {
    pub foreground: Rgb,
    pub background: Rgb,
    pub selection_fg: Rgb,
    pub selection_bg: Rgb,
    pub check_sign: Rgb,
    pub welcome_message: Rgb,
}

impl Colors {
    /// The default palette.
    pub open spec fn spec_default() -> Colors {
        Colors {
            foreground: (Rgb { red: 242, green: 60, blue: 147 }),
            background: (Rgb { red: 0, green: 0, blue: 0 }),
            selection_fg: (Rgb { red: 255, green: 255, blue: 255 }),
            selection_bg: (Rgb { red: 0, green: 128, blue: 128 }),
            check_sign: (Rgb { red: 217, green: 200, blue: 25 }),
            welcome_message: (Rgb { red: 242, green: 60, blue: 147 }),
        }
    }
}

impl Default for Colors {
    fn default() -> (c: Colors)
        ensures
            c == Colors::spec_default(),
    {
        Colors {
            foreground: Rgb { red: 242, green: 60, blue: 147 },
            background: Rgb { red: 0, green: 0, blue: 0 },
            selection_fg: Rgb { red: 255, green: 255, blue: 255 },
            selection_bg: Rgb { red: 0, green: 128, blue: 128 },
            check_sign: Rgb { red: 217, green: 200, blue: 25 },
            welcome_message: Rgb { red: 242, green: 60, blue: 147 },
        }
    }
}

/// The binding table: one key identifier per logical action.
#[derive(Clone, Copy, PartialEq, Eq, Structural, Debug)]
pub struct KeyBindings {
    pub exit_app: Key,
    pub new_task: Key,
    pub check_and_uncheck_task: Key,
    pub list_up: Key,
    pub list_down: Key,
    pub delete_task: Key,
    pub exit_adding: Key,
    pub save_task: Key,
}

impl KeyBindings {
    /// The default bindings.
    pub open spec fn spec_default() -> KeyBindings {
        KeyBindings {
            exit_app: Key::Esc,
            new_task: Key::Char('n'),
            check_and_uncheck_task: Key::Enter,
            list_up: Key::Up,
            list_down: Key::Down,
            delete_task: Key::Delete,
            exit_adding: Key::Esc,
            save_task: Key::Enter,
        }
    }
}

impl Default for KeyBindings {
    fn default() -> (k: KeyBindings)
        ensures
            k == KeyBindings::spec_default(),
    {
        KeyBindings {
            exit_app: Key::Esc,
            new_task: Key::Char('n'),
            check_and_uncheck_task: Key::Enter,
            list_up: Key::Up,
            list_down: Key::Down,
            delete_task: Key::Delete,
            exit_adding: Key::Esc,
            save_task: Key::Enter,
        }
    }
}

/// The character of one decimal digit.
pub open spec fn spec_digit_char(d: int) -> char {
    if d == 0 {
        '0'
    } else if d == 1 {
        '1'
    } else if d == 2 {
        '2'
    } else if d == 3 {
        '3'
    } else if d == 4 {
        '4'
    } else if d == 5 {
        '5'
    } else if d == 6 {
        '6'
    } else if d == 7 {
        '7'
    } else if d == 8 {
        '8'
    } else {
        '9'
    }
}

/// The decimal digits of a function-key number, no leading zeros.
pub open spec fn spec_f_digits(n: u8) -> Seq<char> {
    if n < 10 {
        seq![spec_digit_char(n as int)]
    } else if n < 100 {
        seq![spec_digit_char(n as int / 10), spec_digit_char(n as int % 10)]
    } else {
        seq![
            spec_digit_char(n as int / 100),
            spec_digit_char((n as int / 10) % 10),
            spec_digit_char(n as int % 10),
        ]
    }
}

/// The display name of a key: named keys by their name, arrows as glyphs,
/// a function key as `F` and its number, a character key as that character.
/// Every key has a non-empty name.
pub open spec fn spec_key_name(k: Key) -> Seq<char> {
    match k {
        Key::Backspace => "Backspace"@,
        Key::Enter => "Enter"@,
        Key::Left => "\u{2190}"@,
        Key::Right => "\u{2192}"@,
        Key::Up => "\u{2191}"@,
        Key::Down => "\u{2193}"@,
        Key::Home => "Home"@,
        Key::End => "End"@,
        Key::PageUp => "Page Up"@,
        Key::PageDown => "Page Down"@,
        Key::Tab => "Tab"@,
        Key::BackTab => "Back Tab"@,
        Key::Delete => "Delete"@,
        Key::Insert => "Insert"@,
        Key::F(n) => seq!['F'] + spec_f_digits(n),
        Key::Char(c) => seq![c],
        Key::Null => "Null"@,
        Key::Esc => "Esc"@,
    }
}

/// One decimal digit as a character.
fn digit_char(d: u8) -> (c: char)
    requires
        d < 10,
    ensures
        c == spec_digit_char(d as int),
{
    if d == 0 {
        '0'
    } else if d == 1 {
        '1'
    } else if d == 2 {
        '2'
    } else if d == 3 {
        '3'
    } else if d == 4 {
        '4'
    } else if d == 5 {
        '5'
    } else if d == 6 {
        '6'
    } else if d == 7 {
        '7'
    } else if d == 8 {
        '8'
    } else {
        '9'
    }
}

/// The human-readable label of a key identifier, for help-text display.
/// Total: every key maps to some non-empty text.
pub fn keycode_to_string(keycode: Key) -> (r: String)
    ensures
        r@ == spec_key_name(keycode),
        r@.len() > 0,
{
    match keycode {
        Key::Backspace => {
            proof {
                reveal_strlit("Backspace");
            }
            "Backspace".to_owned()
        },
        Key::Enter => {
            proof {
                reveal_strlit("Enter");
            }
            "Enter".to_owned()
        },
        Key::Left => {
            proof {
                reveal_strlit("\u{2190}");
            }
            "\u{2190}".to_owned()
        },
        Key::Right => {
            proof {
                reveal_strlit("\u{2192}");
            }
            "\u{2192}".to_owned()
        },
        Key::Up => {
            proof {
                reveal_strlit("\u{2191}");
            }
            "\u{2191}".to_owned()
        },
        Key::Down => {
            proof {
                reveal_strlit("\u{2193}");
            }
            "\u{2193}".to_owned()
        },
        Key::Home => {
            proof {
                reveal_strlit("Home");
            }
            "Home".to_owned()
        },
        Key::End => {
            proof {
                reveal_strlit("End");
            }
            "End".to_owned()
        },
        Key::PageUp => {
            proof {
                reveal_strlit("Page Up");
            }
            "Page Up".to_owned()
        },
        Key::PageDown => {
            proof {
                reveal_strlit("Page Down");
            }
            "Page Down".to_owned()
        },
        Key::Tab => {
            proof {
                reveal_strlit("Tab");
            }
            "Tab".to_owned()
        },
        Key::BackTab => {
            proof {
                reveal_strlit("Back Tab");
            }
            "Back Tab".to_owned()
        },
        Key::Delete => {
            proof {
                reveal_strlit("Delete");
            }
            "Delete".to_owned()
        },
        Key::Insert => {
            proof {
                reveal_strlit("Insert");
            }
            "Insert".to_owned()
        },
        Key::F(n) => {
            let mut v: Vec<char> = Vec::new();
            v.push('F');
            if n < 10 {
                v.push(digit_char(n));
            } else if n < 100 {
                v.push(digit_char(n / 10));
                v.push(digit_char(n % 10));
            } else {
                v.push(digit_char(n / 100));
                v.push(digit_char((n / 10) % 10));
                v.push(digit_char(n % 10));
            }
            proof {
                assert(v@ =~= seq!['F'] + spec_f_digits(n));
            }
            chars_to_string(&v)
        },
        Key::Char(c) => {
            let mut v: Vec<char> = Vec::new();
            v.push(c);
            proof {
                assert(v@ =~= seq![c]);
            }
            chars_to_string(&v)
        },
        Key::Null => {
            proof {
                reveal_strlit("Null");
            }
            "Null".to_owned()
        },
        Key::Esc => {
            proof {
                reveal_strlit("Esc");
            }
            "Esc".to_owned()
        },
    }
}

/// A logical, mode-independent action, resolved from a raw key by the
/// binding table.
#[derive(Clone, Copy, PartialEq, Eq, Structural, Debug)]
pub enum Action {
    /// Begin composing a new task.
    NewTask,
    /// Ask for confirmation before exiting.
    ExitApp,
    /// Move the selection cursor one entry up.
    ListUp,
    /// Move the selection cursor one entry down.
    ListDown,
    /// Flip the completion flag of the selected task.
    ToggleTask,
    /// Delete the selected task.
    DeleteTask,
    /// Commit the composed task.
    SaveTask,
    /// Leave composing mode, discarding the buffer.
    ExitAdding,
    /// Append a character to the input buffer.
    InputChar(char),
    /// Remove the last character of the input buffer.
    InputBackspace,
    /// Confirm quitting.
    ConfirmExit,
    /// Decline quitting and return to browsing.
    DeclineExit,
}

/// The action a key resolves to in a given mode: explicit bindings are
/// checked first and in a fixed order, then (while composing) a printable
/// character falls back to buffer input and backspace to buffer deletion;
/// the confirmation prompt answers to its two fixed keys alone. Any other
/// key resolves to no action at all.
pub open spec fn spec_resolve(kb: KeyBindings, mode: InputMode, key: Key) -> Option<Action> {
    match mode {
        InputMode::Normal => if key == kb.new_task {
            Some(Action::NewTask)
        } else if key == kb.exit_app {
            Some(Action::ExitApp)
        } else if key == kb.list_up {
            Some(Action::ListUp)
        } else if key == kb.list_down {
            Some(Action::ListDown)
        } else if key == kb.check_and_uncheck_task {
            Some(Action::ToggleTask)
        } else if key == kb.delete_task {
            Some(Action::DeleteTask)
        } else {
            None
        },
        InputMode::Adding => if key == kb.save_task {
            Some(Action::SaveTask)
        } else if key == kb.exit_adding {
            Some(Action::ExitAdding)
        } else {
            match key {
                Key::Char(c) => Some(Action::InputChar(c)),
                Key::Backspace => Some(Action::InputBackspace),
                _ => None,
            }
        },
        InputMode::ConfirmQuit => if key == Key::Enter {
            Some(Action::ConfirmExit)
        } else if key == Key::Char('n') {
            Some(Action::DeclineExit)
        } else {
            None
        },
    }
}

impl KeyBindings {
    /// Pure lookup of a key in the table for the given mode; an
    /// unrecognised key yields no action.
    pub fn resolve(&self, mode: InputMode, key: Key) -> (a: Option<Action>)
        ensures
            a == spec_resolve(*self, mode, key),
    {
        match mode {
            InputMode::Normal => if key == self.new_task {
                Some(Action::NewTask)
            } else if key == self.exit_app {
                Some(Action::ExitApp)
            } else if key == self.list_up {
                Some(Action::ListUp)
            } else if key == self.list_down {
                Some(Action::ListDown)
            } else if key == self.check_and_uncheck_task {
                Some(Action::ToggleTask)
            } else if key == self.delete_task {
                Some(Action::DeleteTask)
            } else {
                None
            },
            InputMode::Adding => if key == self.save_task {
                Some(Action::SaveTask)
            } else if key == self.exit_adding {
                Some(Action::ExitAdding)
            } else {
                match key {
                    Key::Char(c) => Some(Action::InputChar(c)),
                    Key::Backspace => Some(Action::InputBackspace),
                    _ => None,
                }
            },
            InputMode::ConfirmQuit => if key == Key::Enter {
                Some(Action::ConfirmExit)
            } else if key == Key::Char('n') {
                Some(Action::DeclineExit)
            } else {
                None
            },
        }
    }
}

/// Colour settings and key bindings together.
#[derive(Clone, Copy, PartialEq, Eq, Structural, Debug)]
pub struct Config {
    pub colors: Colors,
    pub keybindings: KeyBindings,
}

impl Default for Config {
    fn default() -> (c: Config)
        ensures
            c.colors == Colors::spec_default(),
            c.keybindings == KeyBindings::spec_default(),
    {
        Config { colors: Colors::default(), keybindings: KeyBindings::default() }
    }
}

} // verus!
