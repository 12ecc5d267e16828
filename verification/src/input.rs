//! Input modes, keys, and the actions that keys stand for in each mode.

use vstd::prelude::*;

verus! {

/// What the keyboard currently controls.
#[derive(Debug, Clone, Copy, PartialEq, Eq, Structural)]
pub enum InputMode {
    /// The dashboard itself.
    Browsing,
    /// The search for another ticker.
    SearchingTicker,
    /// The root menu of the settings.
    SettingsRoot,
    /// The menu of indicators.
    SettingsIndicators,
    /// The menu of timeframes.
    SettingsTimeframe,
    /// The menu of intervals.
    SettingsInterval,
}

impl InputMode {
    /// Whether the mode is a menu or the search, which hold back background
    /// refreshes.
    pub open spec fn modal(self) -> bool {
        self != InputMode::Browsing
    }

    /// Decides whether the mode is a menu or the search.
    pub fn is_modal(self) -> (modal: bool)
        ensures
            modal == self.modal(),
    {
        match self {
            InputMode::Browsing => false,
            _ => true,
        }
    }
}

/// A key press as the terminal reports it.
#[derive(Debug, Clone, Copy, PartialEq, Eq, Structural)]
pub enum Key {
    /// A character without the control key.
    Char(char),
    /// A character together with the control key. Upper and lower case
    /// mean the same.
    Ctrl(char),
    Enter,
    Esc,
    Backspace,
    Up,
    Down,
    Left,
    Right,
    /// Any key that has no meaning here.
    Other,
}

/// What the user asks for.
#[derive(Debug, Clone, Copy, PartialEq, Eq, Structural)]
pub enum Action {
    /// End the program.
    Quit,
    /// Show or hide the pre-market part of the session.
    TogglePreMarket,
    /// Show or hide the help.
    ToggleHelp,
    /// Start the search for another ticker.
    OpenSearch,
    /// Open the settings.
    OpenSettings,
    /// Type a character into the search buffer.
    Insert(char),
    /// Delete the character before the cursor of the search buffer.
    DeleteBack,
    /// Move the cursor of the search buffer one character to the left.
    CursorLeft,
    /// Move the cursor of the search buffer one character to the right.
    CursorRight,
    /// Move the selection of the current list one entry up.
    SelectPrevious,
    /// Move the selection of the current list one entry down.
    SelectNext,
    /// Accept the selection.
    Confirm,
    /// Leave the current mode for the one above it.
    Cancel,
    /// Nothing.
    Ignore,
}

/// The action that a key stands for in a mode.
pub open spec fn bound_action(mode: InputMode, key: Key) -> Action {
    match mode {
        InputMode::Browsing => match key {
            Key::Char(c) => if c == 'q' {
                Action::Quit
            } else if c == '/' {
                Action::OpenSearch
            } else if c == 's' {
                Action::OpenSettings
            } else {
                Action::Ignore
            },
            Key::Ctrl(c) => if c == 'q' || c == 'Q' {
                Action::Quit
            } else if c == 'p' || c == 'P' {
                Action::TogglePreMarket
            } else if c == 'h' || c == 'H' {
                Action::ToggleHelp
            } else {
                Action::Ignore
            },
            Key::Esc => Action::Quit,
            _ => Action::Ignore,
        },
        InputMode::SearchingTicker => match key {
            Key::Char(c) => Action::Insert(c),
            Key::Ctrl(c) => if c == 'q' || c == 'Q' {
                Action::Quit
            } else {
                Action::Ignore
            },
            Key::Enter => Action::Confirm,
            Key::Esc => Action::Cancel,
            Key::Backspace => Action::DeleteBack,
            Key::Up => Action::SelectPrevious,
            Key::Down => Action::SelectNext,
            Key::Left => Action::CursorLeft,
            Key::Right => Action::CursorRight,
            Key::Other => Action::Ignore,
        },
        _ => match key {
            Key::Ctrl(c) => if c == 'q' || c == 'Q' {
                Action::Quit
            } else {
                Action::Ignore
            },
            Key::Enter => Action::Confirm,
            Key::Esc => Action::Cancel,
            Key::Up => Action::SelectPrevious,
            Key::Down => Action::SelectNext,
            _ => Action::Ignore,
        },
    }
}

/// Looks up the action that a key stands for in a mode.
pub fn action_for(mode: InputMode, key: Key) -> (action: Action)
    ensures
        action == bound_action(mode, key),
{
    match mode {
        InputMode::Browsing => match key {
            Key::Char(c) => if c == 'q' {
                Action::Quit
            } else if c == '/' {
                Action::OpenSearch
            } else if c == 's' {
                Action::OpenSettings
            } else {
                Action::Ignore
            },
            Key::Ctrl(c) => if c == 'q' || c == 'Q' {
                Action::Quit
            } else if c == 'p' || c == 'P' {
                Action::TogglePreMarket
            } else if c == 'h' || c == 'H' {
                Action::ToggleHelp
            } else {
                Action::Ignore
            },
            Key::Esc => Action::Quit,
            _ => Action::Ignore,
        },
        InputMode::SearchingTicker => match key {
            Key::Char(c) => Action::Insert(c),
            Key::Ctrl(c) => if c == 'q' || c == 'Q' {
                Action::Quit
            } else {
                Action::Ignore
            },
            Key::Enter => Action::Confirm,
            Key::Esc => Action::Cancel,
            Key::Backspace => Action::DeleteBack,
            Key::Up => Action::SelectPrevious,
            Key::Down => Action::SelectNext,
            Key::Left => Action::CursorLeft,
            Key::Right => Action::CursorRight,
            Key::Other => Action::Ignore,
        },
        _ => match key {
            Key::Ctrl(c) => if c == 'q' || c == 'Q' {
                Action::Quit
            } else {
                Action::Ignore
            },
            Key::Enter => Action::Confirm,
            Key::Esc => Action::Cancel,
            Key::Up => Action::SelectPrevious,
            Key::Down => Action::SelectNext,
            _ => Action::Ignore,
        },
    }
}

} // verus!
