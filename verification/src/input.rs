//! Logical input events, and the keys that stand for them.

use vstd::prelude::*;

verus! {

/// One decoded user action. The engine consumes nothing else.
#[derive(Debug, Clone, Copy, PartialEq, Eq, Structural)]
pub enum InputEvent {
    /// Leave the panel.
    Quit,
    /// Select the setting below the current one.
    MoveNext,
    /// Select the setting above the current one.
    MovePrevious,
    /// Switch the selected setting off.
    SetLow,
    /// Switch the selected setting on.
    SetHigh,
    /// Flip the selected setting.
    Confirm,
    /// Nothing the panel reacts to.
    Ignore,
}

/// The key of a keyboard event, as far as the panel tells keys apart.
#[derive(Debug, Clone, Copy, PartialEq, Eq, Structural)]
pub enum KeyCode {
    Char(char),
    Esc,
    Up,
    Down,
    Left,
    Right,
    Enter,
    /// Any other key.
    Other,
}

/// What happened to the key.
#[derive(Debug, Clone, Copy, PartialEq, Eq, Structural)]
pub enum KeyKind {
    Press,
    Repeat,
    Release,
}

/// One keyboard event in plain values.
#[derive(Debug, Clone, Copy, PartialEq, Eq, Structural)]
pub struct KeyPress {
    pub code: KeyCode,
    pub kind: KeyKind,
    /// Whether the control key was held.
    pub control: bool,
}

/// The key map of the panel. Only presses count. `q`, escape and control-c
/// quit; up and down move the selection; left and right switch the selected
/// setting off and on; enter flips it. Every other key is ignored.
pub open spec fn decoded(key: KeyPress) -> InputEvent {
    if key.kind != KeyKind::Press {
        InputEvent::Ignore
    } else {
        match key.code {
            KeyCode::Char(c) => if c == 'q' || (c == 'c' && key.control) {
                InputEvent::Quit
            } else {
                InputEvent::Ignore
            },
            KeyCode::Esc => InputEvent::Quit,
            KeyCode::Up => InputEvent::MovePrevious,
            KeyCode::Down => InputEvent::MoveNext,
            KeyCode::Left => InputEvent::SetLow,
            KeyCode::Right => InputEvent::SetHigh,
            KeyCode::Enter => InputEvent::Confirm,
            KeyCode::Other => InputEvent::Ignore,
        }
    }
}

/// Decodes one keyboard event into the logical event that the engine
/// consumes.
pub fn decode_key(key: KeyPress) -> (event: InputEvent)
    ensures
        event == decoded(key),
{
    match key.kind {
        KeyKind::Press => match key.code {
            KeyCode::Char('q') => InputEvent::Quit,
            KeyCode::Esc => InputEvent::Quit,
            KeyCode::Char('c') => if key.control {
                InputEvent::Quit
            } else {
                InputEvent::Ignore
            },
            KeyCode::Up => InputEvent::MovePrevious,
            KeyCode::Down => InputEvent::MoveNext,
            KeyCode::Left => InputEvent::SetLow,
            KeyCode::Right => InputEvent::SetHigh,
            KeyCode::Enter => InputEvent::Confirm,
            _ => InputEvent::Ignore,
        },
        _ => InputEvent::Ignore,
    }
}

/// Decodes what one wait for the keyboard gave: a keyboard event, or nothing
/// where the wait ran out or something other than a key arrived.
pub fn decode_poll(polled: Option<KeyPress>) -> (event: InputEvent)
    ensures
        event == match polled {
            Some(key) => decoded(key),
            None => InputEvent::Ignore,
        },
{
    match polled {
        Some(key) => decode_key(key),
        None => InputEvent::Ignore,
    }
}

} // verus!
