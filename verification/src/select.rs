//! The selection primitive: a cursor over a fixed list, with wraparound,
//! direct jumps by digit, confirmation and cancellation.

use vstd::prelude::*;
use crate::input::{Event, Input, Key, KeyCode, filter_event, filtered};

verus! {

/// The largest list that digits can jump into.
pub const JUMP_LIMIT: usize = 9;

/// A cursor over `len` options. The labels themselves stay with the caller.
#[derive(Clone, Copy, Debug, PartialEq, Eq, Structural)]
pub struct MenuState {
    pub len: usize,
    pub cursor: usize,
}

/// What the surrounding loop has to do after a key reached a menu.
#[derive(Clone, Copy, Debug, PartialEq, Eq, Structural)]
pub enum MenuAction {
    /// Nothing changed: read the next event.
    Stay,
    /// The cursor moved: erase the list and draw it again.
    Redraw,
    /// Enter: the prompt resolves to this index.
    Confirm(usize),
    /// Escape or Control-c: the prompt is abandoned.
    Cancel,
}

/// One option as a menu draws it.
#[derive(Clone, Copy, Debug, PartialEq, Eq, Structural)]
pub struct MenuRow {
    /// The place of the option in the list.
    pub index: usize,
    /// Whether the cursor is on it.
    pub highlighted: bool,
}

/// How a run over a finite stretch of input ended.
#[derive(Debug, PartialEq, Eq, Structural)]
pub enum Outcome<T> {
    Resolved(T),
    Cancelled,
    /// The input ran out before the prompt resolved.
    Pending,
}

/// The cursor after Up: one back, or the last index from the first.
pub open spec fn cursor_up(len: usize, cursor: usize) -> usize {
    if cursor == 0 {
        (len - 1) as usize
    } else {
        (cursor - 1) as usize
    }
}

/// The cursor after Down: one on, or the first index from the last.
pub open spec fn cursor_down(len: usize, cursor: usize) -> usize {
    if cursor == len - 1 {
        0
    } else {
        (cursor + 1) as usize
    }
}

/// Whether digit `d` names an option of a list of `len` that digits can reach.
pub open spec fn jump_applies(len: usize, d: u8) -> bool {
    1 <= d && d <= len && len <= JUMP_LIMIT
}

impl MenuState {
    /// A valid menu has at least one option and a cursor on one of them.
    pub open spec fn wf(self) -> bool {
        self.len >= 1 && self.cursor < self.len
    }

    /// The menu with its cursor put elsewhere.
    pub open spec fn at(self, cursor: usize) -> MenuState {
        MenuState { len: self.len, cursor }
    }

    /// The menu after one key.
    pub open spec fn after(self, key: Key) -> MenuState {
        if key.cancels() {
            self
        } else {
            match key.code {
                KeyCode::Up => self.at(cursor_up(self.len, self.cursor)),
                KeyCode::Down => self.at(cursor_down(self.len, self.cursor)),
                _ => match key.digit_value() {
                    Some(d) => if jump_applies(self.len, d) {
                        self.at((d - 1) as usize)
                    } else {
                        self
                    },
                    None => self,
                },
            }
        }
    }

    /// The action that one key asks for.
    pub open spec fn action(self, key: Key) -> MenuAction {
        if key.cancels() {
            MenuAction::Cancel
        } else if key.code == KeyCode::Enter {
            MenuAction::Confirm(self.cursor)
        } else if self.after(key).cursor != self.cursor {
            MenuAction::Redraw
        } else {
            MenuAction::Stay
        }
    }

    /// The menu after a whole sequence of keys, confirmations and cancellations ignored.
    pub open spec fn after_all(self, keys: Seq<Key>) -> MenuState
        decreases keys.len(),
    {
        if keys.len() == 0 {
            self
        } else {
            self.after(keys[0]).after_all(keys.skip(1))
        }
    }

    /// How a run over `events` from this state ends.
    pub open spec fn outcome(self, events: Seq<Event>) -> Outcome<usize>
        decreases events.len(),
    {
        if events.len() == 0 {
            Outcome::Pending
        } else {
            match filtered(events[0]) {
                Input::Press(key) => match self.action(key) {
                    MenuAction::Confirm(i) => Outcome::Resolved(i),
                    MenuAction::Cancel => Outcome::Cancelled,
                    _ => self.after(key).outcome(events.skip(1)),
                },
                _ => self.outcome(events.skip(1)),
            }
        }
    }

    /// A fresh menu over `len` options, cursor on the first; none for an empty list.
    pub fn new(len: usize) -> (m: Option<MenuState>)
        ensures
            len == 0 <==> m is None,
            m matches Some(s) ==> s == (MenuState { len, cursor: 0 }) && s.wf(),
    {
        if len == 0 {
            None
        } else {
            Some(MenuState { len, cursor: 0 })
        }
    }

    /// A menu over `len` options with its cursor on option `cursor`; none
    /// where the list has no such option.
    pub fn starting_at(len: usize, cursor: usize) -> (m: Option<MenuState>)
        ensures
            m is Some <==> cursor < len,
            m matches Some(s) ==> s == (MenuState { len, cursor }) && s.wf(),
    {
        if cursor < len {
            Some(MenuState { len, cursor })
        } else {
            None
        }
    }

    /// A fresh menu over a list of items, one option for each; none for an
    /// empty list.
    pub fn over<T>(items: &Vec<T>) -> (m: Option<MenuState>)
        ensures
            m is Some <==> items@.len() > 0,
            m matches Some(s) ==> s.len == items@.len() && s.cursor == 0 && s.wf(),
    {
        MenuState::new(items.len())
    }

    /// Whether this is a valid menu.
    pub fn is_valid(&self) -> (b: bool)
        ensures
            b == self.wf(),
    {
        self.len >= 1 && self.cursor < self.len
    }

    /// The options as they are drawn: one row each, in order, the one under
    /// the cursor marked.
    pub fn rows(&self) -> (rows: Vec<MenuRow>)
        ensures
            rows@.len() == self.len,
            forall|i: int|
                0 <= i < rows@.len() ==> #[trigger] rows@[i] == (MenuRow {
                    index: i as usize,
                    highlighted: i == self.cursor,
                }),
    {
        let mut rows: Vec<MenuRow> = Vec::new();
        let mut i: usize = 0;
        while i < self.len
            invariant
                i <= self.len,
                rows@.len() == i,
                forall|j: int|
                    0 <= j < i ==> #[trigger] rows@[j] == (MenuRow {
                        index: j as usize,
                        highlighted: j == self.cursor,
                    }),
            decreases self.len - i,
        {
            rows.push(MenuRow { index: i, highlighted: i == self.cursor });
            i = i + 1;
        }
        rows
    }

    /// Up: one option back, wrapping from the first to the last.
    pub fn move_up(&mut self)
        requires
            old(self).wf(),
        ensures
            final(self).wf(),
            *final(self) == old(self).at(cursor_up(old(self).len, old(self).cursor)),
            old(self).cursor == 0 ==> final(self).cursor == old(self).len - 1,
            old(self).cursor > 0 ==> final(self).cursor == old(self).cursor - 1,
    {
        if self.cursor > 0 {
            self.cursor = self.cursor - 1;
        } else {
            self.cursor = self.len - 1;
        }
    }

    /// Down: one option on, wrapping from the last to the first.
    pub fn move_down(&mut self)
        requires
            old(self).wf(),
        ensures
            final(self).wf(),
            *final(self) == old(self).at(cursor_down(old(self).len, old(self).cursor)),
            old(self).cursor == old(self).len - 1 ==> final(self).cursor == 0,
            old(self).cursor < old(self).len - 1 ==> final(self).cursor == old(self).cursor + 1,
    {
        if self.cursor < self.len - 1 {
            self.cursor = self.cursor + 1;
        } else {
            self.cursor = 0;
        }
    }

    /// Digit `d` puts the cursor on option `d - 1` where the list has one and
    /// is short enough for digits; returns whether it did.
    pub fn jump(&mut self, d: u8) -> (jumped: bool)
        requires
            old(self).wf(),
        ensures
            final(self).wf(),
            jumped == jump_applies(old(self).len, d),
            jumped ==> *final(self) == old(self).at((d - 1) as usize),
            !jumped ==> *final(self) == *old(self),
    {
        if 1 <= d && (d as usize) <= self.len && self.len <= JUMP_LIMIT {
            self.cursor = (d - 1) as usize;
            true
        } else {
            false
        }
    }

    /// Feeds one key press to the menu.
    pub fn press(&mut self, key: Key) -> (action: MenuAction)
        requires
            old(self).wf(),
        ensures
            final(self).wf(),
            *final(self) == old(self).after(key),
            action == old(self).action(key),
    {
        if key.is_cancel() {
            return MenuAction::Cancel;
        }
        let before: usize = self.cursor;
        match key.code {
            KeyCode::Up => self.move_up(),
            KeyCode::Down => self.move_down(),
            KeyCode::Enter => {
                return MenuAction::Confirm(self.cursor);
            },
            _ => {
                match key.digit() {
                    Some(d) => {
                        self.jump(d);
                    },
                    None => {},
                }
            },
        }
        if self.cursor != before {
            MenuAction::Redraw
        } else {
            MenuAction::Stay
        }
    }

    /// Runs the menu over `events` until it resolves or the events run out.
    pub fn run(self, events: &Vec<Event>) -> (out: Outcome<usize>)
        requires
            self.wf(),
        ensures
            out == self.outcome(events@),
            out matches Outcome::Resolved(i) ==> i < self.len,
    {
        let mut state = self;
        let mut i: usize = 0;
        assert(events@.skip(0) =~= events@);
        while i < events.len()
            invariant
                i <= events.len(),
                state.wf(),
                state.len == self.len,
                self.outcome(events@) == state.outcome(events@.skip(i as int)),
            decreases events.len() - i,
        {
            let ghost rest = events@.skip(i as int);
            assert(rest[0] == events@[i as int]);
            assert(rest.skip(1) =~= events@.skip(i + 1));
            match filter_event(events[i]) {
                Input::Press(key) => {
                    match state.press(key) {
                        MenuAction::Confirm(choice) => {
                            return Outcome::Resolved(choice);
                        },
                        MenuAction::Cancel => {
                            return Outcome::Cancelled;
                        },
                        _ => {},
                    }
                },
                _ => {},
            }
            i = i + 1;
        }
        Outcome::Pending
    }
}

/// Navigation never leaves the list: whatever keys arrive, the cursor stays
/// on one of the options.
pub proof fn lemma_keys_keep_cursor_in_range(state: MenuState, keys: Seq<Key>)
    requires
        state.wf(),
    ensures
        state.after_all(keys).wf(),
        state.after_all(keys).len == state.len,
    decreases keys.len(),
{
    if keys.len() > 0 {
        lemma_keys_keep_cursor_in_range(state.after(keys[0]), keys.skip(1));
    }
}

/// Up on the first option lands on the last, and Down on the last lands on
/// the first, whatever modifier is held.
pub proof fn lemma_wraparound(state: MenuState, ctrl: bool)
    requires
        state.wf(),
    ensures
        state.cursor == 0 ==> state.after(Key { code: KeyCode::Up, ctrl }).cursor == state.len - 1,
        state.cursor == state.len - 1 ==> state.after(Key { code: KeyCode::Down, ctrl }).cursor
            == 0,
        state.cursor > 0 ==> state.after(Key { code: KeyCode::Up, ctrl }).cursor == state.cursor
            - 1,
        state.cursor < state.len - 1 ==> state.after(Key { code: KeyCode::Down, ctrl }).cursor
            == state.cursor + 1,
{
}

/// Up and Down undo each other.
pub proof fn lemma_up_down_inverse(state: MenuState, ctrl: bool)
    requires
        state.wf(),
    ensures
        state.after(Key { code: KeyCode::Up, ctrl }).after(Key { code: KeyCode::Down, ctrl })
            == state,
        state.after(Key { code: KeyCode::Down, ctrl }).after(Key { code: KeyCode::Up, ctrl })
            == state,
{
}

/// In a list of at most nine options, digit `d` between one and the list's
/// length puts the cursor on option `d - 1`, wherever it stood before.
pub proof fn lemma_direct_jump(state: MenuState, c: char, ctrl: bool)
    requires
        state.wf(),
        state.len <= JUMP_LIMIT,
        '1' <= c && c <= '9',
        (c as u8 - '0' as u8) <= state.len,
    ensures
        state.after(Key { code: KeyCode::Char(c), ctrl }).cursor == (c as u8 - '0' as u8) - 1,
        state.after(Key { code: KeyCode::Char(c), ctrl }).wf(),
{
}

} // verus!
