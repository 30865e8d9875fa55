//! The text entry primitive: a one-line buffer of digits that resolves to a
//! bounded number.

use vstd::prelude::*;
use vstd::string::StrSliceExecFns;
use crate::input::{Event, Input, Key, KeyCode, filter_event, filtered};
use crate::select::Outcome;
use crate::text::{
    all_digits, digit_char, digits_value, is_digit, only_digits, parse_clamped, push_char,
};

verus! {

/// Why a buffer could not be read as a number.
#[derive(Clone, Copy, Debug, PartialEq, Eq, Structural)]
pub enum ParseError {
    /// There is nothing to read.
    Empty,
    /// Something other than a digit stands in the text.
    NotANumber,
}

impl ParseError {
    /// The error in words.
    pub fn message(&self) -> (text: &'static str)
        ensures
            text@ == match self {
                ParseError::Empty => "cannot parse integer from empty string"@,
                ParseError::NotANumber => "invalid digit found in string"@,
            },
    {
        match self {
            ParseError::Empty => "cannot parse integer from empty string",
            ParseError::NotANumber => "invalid digit found in string",
        }
    }
}

/// The digits typed so far and the largest number the entry may resolve to.
#[derive(Clone, Debug, PartialEq, Eq)]
pub struct TextEntryState {
    pub buffer: Vec<char>,
    pub max: u8,
}

/// The mathematical content of a [`TextEntryState`].
pub struct TextEntry {
    pub buffer: Seq<char>,
    pub max: u8,
}

/// What the surrounding loop has to do after a key reached a text entry.
#[derive(Clone, Copy, Debug, PartialEq, Eq, Structural)]
pub enum TextAction {
    /// Nothing changed: read the next event.
    Stay,
    /// The buffer was edited: clear the line and print it again.
    Redraw,
    /// Enter: the entry resolves to this number.
    Submit(u8),
    /// Enter on a buffer that spells no number.
    Reject(ParseError),
    /// Escape or Control-c: the prompt is abandoned.
    Cancel,
}

/// The number a buffer resolves to: what it spells, or `max` where it spells more.
pub open spec fn clamped_value(buffer: Seq<char>, max: u8) -> u8 {
    if digits_value(buffer) <= max {
        digits_value(buffer) as u8
    } else {
        max
    }
}

/// What Enter makes of a buffer: an error where it is empty or holds
/// anything but digits, else the number it spells, no more than `max`.
pub open spec fn submitted(buffer: Seq<char>, max: u8) -> Result<u8, ParseError> {
    if buffer.len() == 0 {
        Err(ParseError::Empty)
    } else if !all_digits(buffer) {
        Err(ParseError::NotANumber)
    } else {
        Ok(clamped_value(buffer, max))
    }
}

/// A buffer after Backspace: its last character gone, or still empty.
pub open spec fn erased(buffer: Seq<char>) -> Seq<char> {
    if buffer.len() == 0 {
        buffer
    } else {
        buffer.drop_last()
    }
}

/// A buffer after `n` Backspaces in a row.
pub open spec fn erased_times(buffer: Seq<char>, n: nat) -> Seq<char>
    decreases n,
{
    if n == 0 {
        buffer
    } else {
        erased_times(erased(buffer), (n - 1) as nat)
    }
}

/// Reads `text` as a count: the number it spells, or `max` where it spells
/// more; an error where it is empty or holds anything but digits.
pub fn parse_count(text: &Vec<char>, max: u8) -> (r: Result<u8, ParseError>)
    ensures
        r == submitted(text@, max),
        r matches Ok(n) ==> n <= max,
        r == Err::<u8, ParseError>(ParseError::Empty) <==> text@.len() == 0,
        r == Err::<u8, ParseError>(ParseError::NotANumber) <==> text@.len() > 0 && !all_digits(
            text@,
        ),
{
    if text.len() == 0 {
        Err(ParseError::Empty)
    } else if !only_digits(text) {
        Err(ParseError::NotANumber)
    } else {
        Ok(parse_clamped(text, max))
    }
}

impl TextEntry {
    pub open spec fn wf(self) -> bool {
        all_digits(self.buffer)
    }

    /// The entry after one key.
    pub open spec fn after(self, key: Key) -> TextEntry {
        if key.cancels() {
            self
        } else if key.code == KeyCode::Backspace {
            TextEntry { buffer: erased(self.buffer), max: self.max }
        } else {
            match key.digit_value() {
                Some(d) => TextEntry { buffer: self.buffer.push(digit_char(d as nat)), max: self.max },
                None => self,
            }
        }
    }

    /// The action that one key asks for.
    pub open spec fn action(self, key: Key) -> TextAction {
        if key.cancels() {
            TextAction::Cancel
        } else if key.code == KeyCode::Enter {
            match submitted(self.buffer, self.max) {
                Ok(n) => TextAction::Submit(n),
                Err(e) => TextAction::Reject(e),
            }
        } else if key.code == KeyCode::Backspace || key.digit_value() is Some {
            TextAction::Redraw
        } else {
            TextAction::Stay
        }
    }

    /// How a run over `events` from this state ends.
    pub open spec fn outcome(self, events: Seq<Event>) -> Outcome<Result<u8, ParseError>>
        decreases events.len(),
    {
        if events.len() == 0 {
            Outcome::Pending
        } else {
            match filtered(events[0]) {
                Input::Press(key) => match self.action(key) {
                    TextAction::Submit(n) => Outcome::Resolved(Ok(n)),
                    TextAction::Reject(e) => Outcome::Resolved(Err(e)),
                    TextAction::Cancel => Outcome::Cancelled,
                    _ => self.after(key).outcome(events.skip(1)),
                },
                _ => self.outcome(events.skip(1)),
            }
        }
    }
}

impl View for TextEntryState {
    type V = TextEntry;

    open spec fn view(&self) -> TextEntry {
        TextEntry { buffer: self.buffer@, max: self.max }
    }
}

impl TextEntryState {
    pub open spec fn wf(&self) -> bool {
        self@.wf()
    }

    /// An entry that starts out with `initial` typed in; none where `initial`
    /// holds anything but digits.
    pub fn new(initial: &str, max: u8) -> (e: Option<TextEntryState>)
        ensures
            e is Some <==> all_digits(initial@),
            e matches Some(s) ==> s.wf() && s.buffer@ == initial@ && s.max == max,
    {
        let n: usize = initial.unicode_len();
        let mut buffer: Vec<char> = Vec::new();
        let mut i: usize = 0;
        while i < n
            invariant
                i <= n,
                n == initial@.len(),
                buffer@ == initial@.take(i as int),
                all_digits(buffer@),
            decreases n - i,
        {
            let c: char = initial.get_char(i);
            if !('0' <= c && c <= '9') {
                assert(!is_digit(initial@[i as int]));
                return None;
            }
            buffer.push(c);
            assert(buffer@ =~= initial@.take(i + 1));
            i = i + 1;
        }
        assert(initial@.take(n as int) =~= initial@);
        Some(TextEntryState { buffer, max })
    }

    /// Whether the buffer holds digits only.
    pub fn is_valid(&self) -> (b: bool)
        ensures
            b == self.wf(),
    {
        only_digits(&self.buffer)
    }

    /// The buffer as text, for the line that shows it.
    pub fn text(&self) -> (s: String)
        ensures
            s@ == self.buffer@,
    {
        let mut s = String::new();
        let mut i: usize = 0;
        while i < self.buffer.len()
            invariant
                i <= self.buffer.len(),
                s@ == self.buffer@.take(i as int),
            decreases self.buffer.len() - i,
        {
            push_char(&mut s, self.buffer[i]);
            assert(s@ =~= self.buffer@.take(i + 1));
            i = i + 1;
        }
        assert(self.buffer@.take(i as int) =~= self.buffer@);
        s
    }

    /// Backspace: the last character goes; an empty buffer stays empty.
    pub fn backspace(&mut self)
        requires
            old(self).wf(),
        ensures
            final(self).wf(),
            final(self).max == old(self).max,
            final(self).buffer@ == erased(old(self).buffer@),
            old(self).buffer@.len() == 0 ==> final(self).buffer@.len() == 0,
    {
        if self.buffer.len() > 0 {
            self.buffer.pop();
        }
    }

    /// What Enter makes of the buffer: the number it spells, no more than the
    /// maximum, or an error where it spells none.
    pub fn submit(&self) -> (r: Result<u8, ParseError>)
        ensures
            r == submitted(self.buffer@, self.max),
            r matches Ok(n) ==> n <= self.max,
            self.wf() ==> (r is Err <==> self.buffer@.len() == 0),
    {
        parse_count(&self.buffer, self.max)
    }

    /// Feeds one key press to the entry.
    pub fn press(&mut self, key: Key) -> (action: TextAction)
        requires
            old(self).wf(),
        ensures
            final(self).wf(),
            final(self)@ == old(self)@.after(key),
            action == old(self)@.action(key),
    {
        if key.is_cancel() {
            return TextAction::Cancel;
        }
        match key.code {
            KeyCode::Enter => {
                match self.submit() {
                    Ok(n) => TextAction::Submit(n),
                    Err(e) => TextAction::Reject(e),
                }
            },
            KeyCode::Backspace => {
                self.backspace();
                TextAction::Redraw
            },
            KeyCode::Char(c) => {
                if '0' <= c && c <= '9' {
                    self.buffer.push(c);
                    assert(c == digit_char(key.digit_value().unwrap() as nat));
                    TextAction::Redraw
                } else {
                    TextAction::Stay
                }
            },
            _ => TextAction::Stay,
        }
    }

    /// Runs the entry over `events` until it resolves or the events run out.
    pub fn run(self, events: &Vec<Event>) -> (out: Outcome<Result<u8, ParseError>>)
        requires
            self.wf(),
        ensures
            out == self@.outcome(events@),
            out matches Outcome::Resolved(Ok(n)) ==> n <= self.max,
    {
        let mut state = self;
        let mut i: usize = 0;
        assert(events@.skip(0) =~= events@);
        while i < events.len()
            invariant
                i <= events.len(),
                state.wf(),
                state.max == self.max,
                self@.outcome(events@) == state@.outcome(events@.skip(i as int)),
            decreases events.len() - i,
        {
            let ghost rest = events@.skip(i as int);
            assert(rest[0] == events@[i as int]);
            assert(rest.skip(1) =~= events@.skip(i + 1));
            match filter_event(events[i]) {
                Input::Press(key) => {
                    match state.press(key) {
                        TextAction::Submit(n) => {
                            return Outcome::Resolved(Ok(n));
                        },
                        TextAction::Reject(e) => {
                            return Outcome::Resolved(Err(e));
                        },
                        TextAction::Cancel => {
                            return Outcome::Cancelled;
                        },
                        _ => {},
                    }
                },
                _ => {},
            }
            i = i + 1;
        }
        Outcome::Pending
    }
}

/// However often Backspace is pressed on an empty buffer, the buffer stays
/// empty.
pub proof fn lemma_backspace_floor(n: nat)
    ensures
        erased_times(Seq::<char>::empty(), n) == Seq::<char>::empty(),
    decreases n,
{
    if n > 0 {
        lemma_backspace_floor((n - 1) as nat);
    }
}

/// Backspace on an empty entry changes nothing and asks for no more than a redraw.
pub proof fn lemma_backspace_on_empty(state: TextEntry, ctrl: bool)
    requires
        state.wf(),
        state.buffer.len() == 0,
    ensures
        state.after(Key { code: KeyCode::Backspace, ctrl }) == state,
        state.action(Key { code: KeyCode::Backspace, ctrl }) == TextAction::Redraw,
{
}

/// Whatever was typed, a submitted number never exceeds the maximum.
pub proof fn lemma_submission_is_clamped(buffer: Seq<char>, max: u8)
    ensures
        clamped_value(buffer, max) <= max,
        digits_value(buffer) >= max ==> clamped_value(buffer, max) == max,
{
}

} // verus!
