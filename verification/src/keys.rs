//! Key presses as the controller sees them, the tabs, and what a key press
//! may ask of the host.

use vstd::prelude::*;

verus! {

/// A key press, reduced to what the application tells apart.
#[derive(Clone, Copy, Debug, PartialEq, Eq)]
pub enum Key {
    /// A character key, space included.
    Char(char),
    Backspace,
    Left,
    Right,
    Up,
    Down,
    Enter,
    Esc,
    Tab,
    /// Any key without a meaning here.
    Other,
}

/// The top-level views. Exactly one of them is shown at a time.
#[derive(Clone, Copy, Debug, PartialEq, Eq, Structural)]
pub enum Tab {
    Status,
    Inbox,
    Workspaces,
    Todos,
}

impl Tab {
    /// The tab that the Tab key leads to: the next one in the row, and the
    /// first one after the last.
    pub open spec fn following(self) -> Tab {
        match self {
            Tab::Status => Tab::Inbox,
            Tab::Inbox => Tab::Workspaces,
            Tab::Workspaces => Tab::Todos,
            Tab::Todos => Tab::Status,
        }
    }

    /// The tab that a digit key leads to: `1` to `4` in the order of the
    /// row. No other character names a tab.
    pub open spec fn of_digit(c: char) -> Option<Tab> {
        if c == '1' {
            Some(Tab::Status)
        } else if c == '2' {
            Some(Tab::Inbox)
        } else if c == '3' {
            Some(Tab::Workspaces)
        } else if c == '4' {
            Some(Tab::Todos)
        } else {
            None
        }
    }

    /// Whether the tab shows the task list.
    pub open spec fn shows_tasks(self) -> bool {
        self == Tab::Inbox || self == Tab::Todos
    }

    /// The tab that the Tab key leads to.
    pub fn next(self) -> (tab: Tab)
        ensures
            tab == self.following(),
    {
        match self {
            Tab::Status => Tab::Inbox,
            Tab::Inbox => Tab::Workspaces,
            Tab::Workspaces => Tab::Todos,
            Tab::Todos => Tab::Status,
        }
    }

    /// The tab that the digit key `c` leads to, if it names one.
    pub fn from_digit(c: char) -> (tab: Option<Tab>)
        ensures
            tab == Tab::of_digit(c),
    {
        if c == '1' {
            Some(Tab::Status)
        } else if c == '2' {
            Some(Tab::Inbox)
        } else if c == '3' {
            Some(Tab::Workspaces)
        } else if c == '4' {
            Some(Tab::Todos)
        } else {
            None
        }
    }
}

/// What a key asks for while no modal is open.
#[derive(Clone, Copy, Debug, PartialEq, Eq, Structural)]
pub enum Command {
    /// End the session.
    Quit,
    /// Show the following tab.
    NextTab,
    /// Show the given tab.
    GoTo(Tab),
    /// Open the input overlay of the current tab.
    OpenModal,
    /// Move the selection of the current list forward.
    SelectNext,
    /// Move the selection of the current list back.
    SelectPrevious,
    /// Remove the selected item of the current list.
    DeleteSelected,
    /// Flip the completion mark of the selected task.
    ToggleSelected,
    /// The key has no meaning.
    Nothing,
}

/// The key bindings outside a modal: `q` quits, the Tab key and the digits
/// `1` to `4` change the tab, `n` and `a` open the input overlay, `j` and
/// Down move the selection forward, `k` and Up move it back, `d` deletes,
/// and the space bar toggles.
pub open spec fn command_of(key: Key) -> Command {
    match key {
        Key::Tab => Command::NextTab,
        Key::Down => Command::SelectNext,
        Key::Up => Command::SelectPrevious,
        Key::Char(c) => if c == 'q' {
            Command::Quit
        } else if Tab::of_digit(c) is Some {
            Command::GoTo(Tab::of_digit(c)->0)
        } else if c == 'n' || c == 'a' {
            Command::OpenModal
        } else if c == 'j' {
            Command::SelectNext
        } else if c == 'k' {
            Command::SelectPrevious
        } else if c == 'd' {
            Command::DeleteSelected
        } else if c == ' ' {
            Command::ToggleSelected
        } else {
            Command::Nothing
        },
        _ => Command::Nothing,
    }
}

/// Looks the key up in the key bindings.
pub fn command_for(key: Key) -> (command: Command)
    ensures
        command == command_of(key),
{
    match key {
        Key::Tab => Command::NextTab,
        Key::Down => Command::SelectNext,
        Key::Up => Command::SelectPrevious,
        Key::Char(c) => {
            if c == 'q' {
                return Command::Quit;
            }
            if let Some(tab) = Tab::from_digit(c) {
                return Command::GoTo(tab);
            }
            if c == 'n' || c == 'a' {
                Command::OpenModal
            } else if c == 'j' {
                Command::SelectNext
            } else if c == 'k' {
                Command::SelectPrevious
            } else if c == 'd' {
                Command::DeleteSelected
            } else if c == ' ' {
                Command::ToggleSelected
            } else {
                Command::Nothing
            }
        },
        _ => Command::Nothing,
    }
}

/// What the host has to do after a key press.
#[derive(Clone, Copy, Debug, PartialEq, Eq, Structural)]
pub enum Effect {
    /// Nothing beyond drawing the new state.
    Redraw,
    /// Write the tasks to their file.
    SaveTasks,
    /// Write the workspaces to their file.
    SaveWorkspaces,
    /// End the session.
    Quit,
}

/// A short message for the user. It is shown until the next key press.
#[derive(Clone, Copy, Debug, PartialEq, Eq, Structural)]
pub enum Notice {
    /// Nothing to report.
    Quiet,
    /// The last write to disk failed; the data in memory is still complete.
    SaveFailed,
    /// The new record was not added because no id is left for it.
    IdsExhausted,
}

} // verus!
