//! The input dispatcher: from one terminal event to the action it stands for.

use vstd::prelude::*;

verus! {

/// The key of a key event, as far as the console tells keys apart.
#[derive(Clone, Copy, Debug, PartialEq, Eq, Structural)]
pub enum KeyCode {
    /// A character key, with the character it produces.
    Char(char),
    /// The backspace key.
    Backspace,
    /// Any other key: enter, arrows, function keys and the like.
    Other,
}

/// One key event: the key, and whether Control was held.
#[derive(Clone, Copy, Debug, PartialEq, Eq, Structural)]
pub struct KeyEvent {
    pub code: KeyCode,
    pub control: bool,
}

/// One terminal input event.
#[derive(Clone, Copy, Debug, PartialEq, Eq, Structural)]
pub enum InputEvent {
    /// A key event.
    Key(KeyEvent),
    /// Anything else: a resize, a mouse or focus event, pasted text.
    Other,
}

/// What one input event asks the session to do.
#[derive(Clone, Copy, Debug, PartialEq, Eq, Structural)]
pub enum Action {
    /// Leave the session.
    Quit,
    /// Submit the input buffer as a user turn.
    Send,
    /// Empty the message log.
    ClearHistory,
    /// Remove the last character of the input buffer.
    DeleteChar,
    /// Append this character to the input buffer.
    AppendChar(char),
    /// Change nothing.
    Ignore,
}

/// The action of a key event. The chords Ctrl+Q, Ctrl+S and Ctrl+N come
/// first, then backspace, then any character key; every other key is ignored.
pub open spec fn key_action(key: KeyEvent) -> Action {
    match key.code {
        KeyCode::Char(c) => if key.control && c == 'q' {
            Action::Quit
        } else if key.control && c == 's' {
            Action::Send
        } else if key.control && c == 'n' {
            Action::ClearHistory
        } else {
            Action::AppendChar(c)
        },
        KeyCode::Backspace => Action::DeleteChar,
        KeyCode::Other => Action::Ignore,
    }
}

/// The action of an input event: that of its key, and `Ignore` for an event
/// that is no key event.
pub open spec fn event_action(event: InputEvent) -> Action {
    match event {
        InputEvent::Key(key) => key_action(key),
        InputEvent::Other => Action::Ignore,
    }
}

/// Classifies one input event. Every event has exactly one action, and the
/// same event always has the same one.
pub fn classify(event: &InputEvent) -> (action: Action)
    ensures
        action == event_action(*event),
{
    match event {
        InputEvent::Key(key) => match key.code {
            KeyCode::Char(c) => {
                if key.control && c == 'q' {
                    Action::Quit
                } else if key.control && c == 's' {
                    Action::Send
                } else if key.control && c == 'n' {
                    Action::ClearHistory
                } else {
                    Action::AppendChar(c)
                }
            },
            KeyCode::Backspace => Action::DeleteChar,
            KeyCode::Other => Action::Ignore,
        },
        InputEvent::Other => Action::Ignore,
    }
}

} // verus!
