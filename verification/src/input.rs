//! Terminal input events and the filter that turns them into key presses.

use vstd::prelude::*;

verus! {

/// The key a keyboard event names.
#[derive(Clone, Copy, Debug, PartialEq, Eq, Structural)]
pub enum KeyCode {
    Up,
    Down,
    Enter,
    Esc,
    Backspace,
    Char(char),
    Other,
}

/// Whether a key went down, is being held, or came up.
#[derive(Clone, Copy, Debug, PartialEq, Eq, Structural)]
pub enum KeyKind {
    Press,
    Repeat,
    Release,
}

/// A key together with the modifier state it was pressed under.
#[derive(Clone, Copy, Debug, PartialEq, Eq, Structural)]
pub struct Key {
    pub code: KeyCode,
    /// Whether Control is held. No other modifier is looked at.
    pub ctrl: bool,
}

/// One event as the terminal reports it.
#[derive(Clone, Copy, Debug, PartialEq, Eq, Structural)]
pub enum Event {
    Key { key: Key, kind: KeyKind },
    Resize { width: u16, height: u16 },
    Other,
}

/// What is left of an event once repeats, releases and foreign events are dropped.
#[derive(Clone, Copy, Debug, PartialEq, Eq, Structural)]
pub enum Input {
    Press(Key),
    Resize { width: u16, height: u16 },
    Nothing,
}

impl Key {
    /// A key pressed without modifiers.
    pub fn plain(code: KeyCode) -> (k: Key)
        ensures
            k == (Key { code, ctrl: false }),
    {
        Key { code, ctrl: false }
    }

    /// A key pressed while Control is held.
    pub fn with_ctrl(code: KeyCode) -> (k: Key)
        ensures
            k == (Key { code, ctrl: true }),
    {
        Key { code, ctrl: true }
    }

    /// Escape, or Control together with `c`.
    pub open spec fn cancels(self) -> bool {
        self.code == KeyCode::Esc || (self.code == KeyCode::Char('c') && self.ctrl)
    }

    /// Control together with `c`: the forced quit.
    pub open spec fn force_quits(self) -> bool {
        self.code == KeyCode::Char('c') && self.ctrl
    }

    pub fn is_cancel(&self) -> (b: bool)
        ensures
            b == self.cancels(),
    {
        match self.code {
            KeyCode::Esc => true,
            KeyCode::Char(c) => c == 'c' && self.ctrl,
            _ => false,
        }
    }

    pub fn is_force_quit(&self) -> (b: bool)
        ensures
            b == self.force_quits(),
    {
        match self.code {
            KeyCode::Char(c) => c == 'c' && self.ctrl,
            _ => false,
        }
    }

    /// The digit a key stands for, if it is one of `0` to `9`.
    pub open spec fn digit_value(self) -> Option<u8> {
        match self.code {
            KeyCode::Char(c) => if '0' <= c && c <= '9' {
                Some((c as u8 - '0' as u8) as u8)
            } else {
                None
            },
            _ => None,
        }
    }

    pub fn digit(&self) -> (d: Option<u8>)
        ensures
            d == self.digit_value(),
            d matches Some(v) ==> v <= 9,
    {
        match self.code {
            KeyCode::Char(c) => {
                if '0' <= c && c <= '9' {
                    Some(c as u8 - '0' as u8)
                } else {
                    None
                }
            },
            _ => None,
        }
    }
}

/// What an event means to a widget: presses pass, resizes pass, the rest is dropped.
pub open spec fn filtered(event: Event) -> Input {
    match event {
        Event::Key { key, kind } => if kind == KeyKind::Press {
            Input::Press(key)
        } else {
            Input::Nothing
        },
        Event::Resize { width, height } => Input::Resize { width, height },
        Event::Other => Input::Nothing,
    }
}

/// Drops key repeats, key releases and events that are neither a key nor a resize.
pub fn filter_event(event: Event) -> (input: Input)
    ensures
        input == filtered(event),
{
    match event {
        Event::Key { key, kind } => {
            match kind {
                KeyKind::Press => Input::Press(key),
                _ => Input::Nothing,
            }
        },
        Event::Resize { width, height } => Input::Resize { width, height },
        Event::Other => Input::Nothing,
    }
}

} // verus!
