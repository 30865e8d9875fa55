//! The multi-select overlay: a menu whose options can each be ticked.

use vstd::prelude::*;
use crate::input::{Event, Input, Key, KeyCode, KeyKind, filter_event, filtered};
use crate::select::{MenuAction, MenuState, Outcome};

verus! {

/// A menu together with the ticked options, in the order they were ticked.
#[derive(Clone, Debug, PartialEq, Eq)]
pub struct MultiSelectState {
    pub menu: MenuState,
    pub selected: Vec<usize>,
}

/// The mathematical content of a [`MultiSelectState`].
pub struct MultiSelect {
    pub menu: MenuState,
    pub selected: Seq<usize>,
}

/// One option as a checklist draws it.
#[derive(Clone, Copy, Debug, PartialEq, Eq, Structural)]
pub struct CheckRow {
    /// The place of the option in the list.
    pub index: usize,
    /// Whether the cursor is on it.
    pub highlighted: bool,
    /// Whether its marker is filled.
    pub ticked: bool,
}

/// What the surrounding loop has to do after a key reached a checklist.
#[derive(Clone, Copy, Debug, PartialEq, Eq, Structural)]
pub enum MultiAction {
    /// Nothing changed: read the next event.
    Stay,
    /// The cursor moved or an option was ticked or cleared: draw again.
    Redraw,
    /// Enter: the prompt resolves to the options ticked now.
    Confirm,
    /// Escape or Control-c: the prompt is abandoned.
    Cancel,
}

/// The ticked options after the option at `index` changed sides: taken out
/// where it was in, put last where it was not.
pub open spec fn toggled(selected: Seq<usize>, index: usize) -> Seq<usize> {
    if selected.contains(index) {
        selected.remove(selected.index_of(index))
    } else {
        selected.push(index)
    }
}

/// Every ticked option exists, and none is ticked twice.
pub open spec fn valid_selection(selected: Seq<usize>, len: usize) -> bool {
    &&& selected.no_duplicates()
    &&& forall|k: int| 0 <= k < selected.len() ==> #[trigger] selected[k] < len
}

pub open spec fn is_space(key: Key) -> bool {
    key.code == KeyCode::Char(' ')
}

impl MultiSelect {
    pub open spec fn wf(self) -> bool {
        self.menu.wf() && valid_selection(self.selected, self.menu.len)
    }

    /// The checklist after one key.
    pub open spec fn after(self, key: Key) -> MultiSelect {
        if key.cancels() || key.code == KeyCode::Enter {
            self
        } else if is_space(key) {
            MultiSelect { menu: self.menu, selected: toggled(self.selected, self.menu.cursor) }
        } else {
            MultiSelect { menu: self.menu.after(key), selected: self.selected }
        }
    }

    /// The action that one key asks for.
    pub open spec fn action(self, key: Key) -> MultiAction {
        if key.cancels() {
            MultiAction::Cancel
        } else if key.code == KeyCode::Enter {
            MultiAction::Confirm
        } else if is_space(key) {
            MultiAction::Redraw
        } else if self.menu.after(key).cursor != self.menu.cursor {
            MultiAction::Redraw
        } else {
            MultiAction::Stay
        }
    }

    /// How a run over `events` from this state ends.
    pub open spec fn outcome(self, events: Seq<Event>) -> Outcome<Seq<usize>>
        decreases events.len(),
    {
        if events.len() == 0 {
            Outcome::Pending
        } else {
            match filtered(events[0]) {
                Input::Press(key) => match self.action(key) {
                    MultiAction::Confirm => Outcome::Resolved(self.selected),
                    MultiAction::Cancel => Outcome::Cancelled,
                    _ => self.after(key).outcome(events.skip(1)),
                },
                _ => self.outcome(events.skip(1)),
            }
        }
    }
}

impl View for MultiSelectState {
    type V = MultiSelect;

    open spec fn view(&self) -> MultiSelect {
        MultiSelect { menu: self.menu, selected: self.selected@ }
    }
}

/// The place of `x` in `v`, if it is there.
fn find(v: &Vec<usize>, x: usize) -> (r: Option<usize>)
    ensures
        r is Some <==> v@.contains(x),
        r matches Some(k) ==> k < v@.len() && v@[k as int] == x,
{
    let mut i: usize = 0;
    while i < v.len()
        invariant
            i <= v.len(),
            forall|j: int| 0 <= j < i ==> v@[j] != x,
        decreases v.len() - i,
    {
        if v[i] == x {
            return Some(i);
        }
        i = i + 1;
    }
    None
}

impl MultiSelectState {
    pub open spec fn wf(&self) -> bool {
        self@.wf()
    }

    /// A fresh checklist over `len` options, nothing ticked; none for an empty list.
    pub fn new(len: usize) -> (m: Option<MultiSelectState>)
        ensures
            len == 0 <==> m is None,
            m matches Some(s) ==> s.wf() && s.menu == (MenuState { len, cursor: 0 })
                && s.selected@ == Seq::<usize>::empty(),
    {
        match MenuState::new(len) {
            Some(menu) => Some(MultiSelectState { menu, selected: Vec::new() }),
            None => None,
        }
    }

    /// A fresh checklist over a list of items, one option for each; none
    /// for an empty list.
    pub fn over<T>(items: &Vec<T>) -> (m: Option<MultiSelectState>)
        ensures
            m is Some <==> items@.len() > 0,
            m matches Some(s) ==> s.wf() && s.menu == (MenuState {
                len: items@.len() as usize,
                cursor: 0,
            }) && s.selected@ == Seq::<usize>::empty(),
    {
        MultiSelectState::new(items.len())
    }

    /// Whether this is a valid checklist.
    pub fn is_valid(&self) -> (b: bool)
        ensures
            b == self.wf(),
    {
        if !self.menu.is_valid() {
            return false;
        }
        let mut i: usize = 0;
        while i < self.selected.len()
            invariant
                i <= self.selected.len(),
                forall|a: int| 0 <= a < i ==> self.selected@[a] < self.menu.len,
                forall|a: int, b: int| 0 <= a < b < i ==> self.selected@[a] != self.selected@[b],
            decreases self.selected.len() - i,
        {
            if self.selected[i] >= self.menu.len {
                return false;
            }
            let mut j: usize = 0;
            while j < i
                invariant
                    j <= i,
                    i < self.selected.len(),
                    forall|a: int| 0 <= a < j ==> self.selected@[a] != self.selected@[i as int],
                decreases i - j,
            {
                if self.selected[j] == self.selected[i] {
                    return false;
                }
                j = j + 1;
            }
            i = i + 1;
        }
        true
    }

    /// Whether the option at `index` is ticked.
    pub fn is_selected(&self, index: usize) -> (b: bool)
        ensures
            b == self.selected@.contains(index),
    {
        find(&self.selected, index).is_some()
    }

    /// The options as they are drawn: one row each, in order, with the mark
    /// of the cursor and the marker of the tick.
    pub fn rows(&self) -> (rows: Vec<CheckRow>)
        ensures
            rows@.len() == self.menu.len,
            forall|i: int|
                0 <= i < rows@.len() ==> #[trigger] rows@[i] == (CheckRow {
                    index: i as usize,
                    highlighted: i == self.menu.cursor,
                    ticked: self.selected@.contains(i as usize),
                }),
    {
        let mut rows: Vec<CheckRow> = Vec::new();
        let mut i: usize = 0;
        while i < self.menu.len
            invariant
                i <= self.menu.len,
                rows@.len() == i,
                forall|j: int|
                    0 <= j < i ==> #[trigger] rows@[j] == (CheckRow {
                        index: j as usize,
                        highlighted: j == self.menu.cursor,
                        ticked: self.selected@.contains(j as usize),
                    }),
            decreases self.menu.len - i,
        {
            let ticked = self.is_selected(i);
            rows.push(CheckRow { index: i, highlighted: i == self.menu.cursor, ticked });
            i = i + 1;
        }
        rows
    }

    /// Ticks the option under the cursor, or clears it where it was ticked.
    /// The cursor stays.
    pub fn toggle(&mut self)
        requires
            old(self).wf(),
        ensures
            final(self).wf(),
            final(self).menu == old(self).menu,
            final(self).selected@ == toggled(old(self).selected@, old(self).menu.cursor),
    {
        let target: usize = self.menu.cursor;
        proof {
            lemma_toggle(self.selected@, target, self.menu.len);
        }
        match find(&self.selected, target) {
            Some(k) => {
                self.selected.remove(k);
            },
            None => {
                self.selected.push(target);
            },
        }
    }

    /// Feeds one key press to the checklist.
    pub fn press(&mut self, key: Key) -> (action: MultiAction)
        requires
            old(self).wf(),
        ensures
            final(self).wf(),
            final(self)@ == old(self)@.after(key),
            action == old(self)@.action(key),
    {
        if key.is_cancel() {
            return MultiAction::Cancel;
        }
        match key.code {
            KeyCode::Enter => MultiAction::Confirm,
            KeyCode::Char(' ') => {
                self.toggle();
                MultiAction::Redraw
            },
            _ => {
                match self.menu.press(key) {
                    MenuAction::Redraw => MultiAction::Redraw,
                    _ => MultiAction::Stay,
                }
            },
        }
    }

    /// Runs the checklist over `events` until it resolves or the events run out.
    pub fn run(self, events: &Vec<Event>) -> (out: Outcome<Vec<usize>>)
        requires
            self.wf(),
        ensures
            match out {
                Outcome::Resolved(v) => self@.outcome(events@) == Outcome::Resolved(v@)
                    && valid_selection(v@, self.menu.len),
                Outcome::Cancelled => self@.outcome(events@) == Outcome::<Seq<usize>>::Cancelled,
                Outcome::Pending => self@.outcome(events@) == Outcome::<Seq<usize>>::Pending,
            },
    {
        let mut state = self;
        let mut i: usize = 0;
        assert(events@.skip(0) =~= events@);
        while i < events.len()
            invariant
                i <= events.len(),
                state.wf(),
                state.menu.len == self.menu.len,
                self@.outcome(events@) == state@.outcome(events@.skip(i as int)),
            decreases events.len() - i,
        {
            let ghost rest = events@.skip(i as int);
            assert(rest[0] == events@[i as int]);
            assert(rest.skip(1) =~= events@.skip(i + 1));
            match filter_event(events[i]) {
                Input::Press(key) => {
                    match state.press(key) {
                        MultiAction::Confirm => {
                            return Outcome::Resolved(state.selected);
                        },
                        MultiAction::Cancel => {
                            return Outcome::Cancelled;
                        },
                        _ => {},
                    }
                },
                _ => {},
            }
            i = i + 1;
        }
        Outcome::Pending
    }
}

/// Toggling keeps a selection valid, flips the membership of the toggled
/// option and leaves every other option as it was.
pub proof fn lemma_toggle(selected: Seq<usize>, index: usize, len: usize)
    requires
        valid_selection(selected, len),
        index < len,
    ensures
        valid_selection(toggled(selected, index), len),
        toggled(selected, index).contains(index) == !selected.contains(index),
        forall|x: usize|
            x != index ==> (#[trigger] toggled(selected, index).contains(x)
                == selected.contains(x)),
        selected.contains(index) ==> 0 <= selected.index_of(index) < selected.len()
            && selected[selected.index_of(index)] == index
            && forall|j: int| 0 <= j < selected.len() && selected[j] == index
                ==> j == selected.index_of(index),
{
    let r = toggled(selected, index);
    if selected.contains(index) {
        let k = selected.index_of(index);
        selected.remove_ensures(k);
        assert forall|a: int, b: int| 0 <= a < r.len() && 0 <= b < r.len() && a != b implies r[a]
            != r[b] by {
            let sa = if a < k { a } else { a + 1 };
            let sb = if b < k { b } else { b + 1 };
            assert(r[a] == selected[sa]);
            assert(r[b] == selected[sb]);
        }
        assert forall|a: int| 0 <= a < r.len() implies #[trigger] r[a] < len && r[a] != index by {
            let sa = if a < k { a } else { a + 1 };
            assert(r[a] == selected[sa]);
        }
        assert forall|x: usize| x != index implies (#[trigger] r.contains(x)
            == selected.contains(x)) by {
            if selected.contains(x) {
                let j = choose|j: int| 0 <= j < selected.len() && selected[j] == x;
                let a = if j < k { j } else { j - 1 };
                assert(r[a] == x);
            }
            if r.contains(x) {
                let a = choose|a: int| 0 <= a < r.len() && r[a] == x;
                let sa = if a < k { a } else { a + 1 };
                assert(selected[sa] == x);
            }
        }
    } else {
        assert(r[selected.len() as int] == index);
        assert forall|x: usize| x != index implies (#[trigger] r.contains(x)
            == selected.contains(x)) by {
            if selected.contains(x) {
                let j = choose|j: int| 0 <= j < selected.len() && selected[j] == x;
                assert(r[j] == x);
            }
            if r.contains(x) {
                let a = choose|a: int| 0 <= a < r.len() && r[a] == x;
                assert(selected[a] == x);
            }
        }
    }
}

/// Toggling an option that was not ticked, twice, gives back the very same
/// selection, order included.
pub proof fn lemma_toggle_twice_restores(selected: Seq<usize>, index: usize, len: usize)
    requires
        valid_selection(selected, len),
        index < len,
        !selected.contains(index),
    ensures
        toggled(toggled(selected, index), index) == selected,
{
    let once = selected.push(index);
    lemma_toggle(selected, index, len);
    lemma_toggle(once, index, len);
    assert(once[selected.len() as int] == index);
    assert(once.index_of(index) == selected.len());
    assert(once.remove(selected.len() as int) =~= selected);
}

/// Toggling any option twice leaves the set of ticked options as it was.
pub proof fn lemma_toggle_twice_same_set(selected: Seq<usize>, index: usize, len: usize)
    requires
        valid_selection(selected, len),
        index < len,
    ensures
        toggled(toggled(selected, index), index).to_set() == selected.to_set(),
        valid_selection(toggled(toggled(selected, index), index), len),
{
    let once = toggled(selected, index);
    let twice = toggled(once, index);
    lemma_toggle(selected, index, len);
    lemma_toggle(once, index, len);
    assert forall|x: usize| twice.to_set().contains(x) == selected.to_set().contains(x) by {
        if x != index {
            assert(twice.contains(x) == once.contains(x));
            assert(once.contains(x) == selected.contains(x));
        }
    }
    assert(twice.to_set() =~= selected.to_set());
}

/// Space pressed twice in a row on an option that was not ticked leaves the
/// whole checklist as it was.
pub proof fn lemma_space_twice_restores(state: MultiSelect, ctrl: bool)
    requires
        state.wf(),
        !state.selected.contains(state.menu.cursor),
    ensures
        state.after(Key { code: KeyCode::Char(' '), ctrl }).after(
            Key { code: KeyCode::Char(' '), ctrl },
        ) == state,
{
    lemma_toggle_twice_restores(state.selected, state.menu.cursor, state.menu.len);
}

/// Enter on a checklist with nothing ticked resolves to the empty selection:
/// it is a confirmation, not a cancellation.
pub proof fn lemma_empty_confirmation(state: MultiSelect, events: Seq<Event>, ctrl: bool)
    requires
        state.wf(),
        state.selected.len() == 0,
        events.len() > 0,
        events[0] == (Event::Key {
            key: Key { code: KeyCode::Enter, ctrl },
            kind: KeyKind::Press,
        }),
    ensures
        state.outcome(events) == Outcome::Resolved(Seq::<usize>::empty()),
{
    assert(state.selected =~= Seq::<usize>::empty());
}

/// Whether an event is a press of Space.
pub open spec fn presses_space(event: Event) -> bool {
    match filtered(event) {
        Input::Press(key) => is_space(key),
        _ => false,
    }
}

/// A run in which Space is never pressed resolves, if it resolves, to the
/// selection it started with: moving about ticks nothing.
pub proof fn lemma_selection_stays_without_space(state: MultiSelect, events: Seq<Event>)
    requires
        forall|i: int| 0 <= i < events.len() ==> !presses_space(#[trigger] events[i]),
    ensures
        state.outcome(events) matches Outcome::Resolved(chosen) ==> chosen == state.selected,
    decreases events.len(),
{
    if events.len() > 0 {
        let rest = events.skip(1);
        assert(!presses_space(events[0]));
        assert forall|i: int| 0 <= i < rest.len() implies !presses_space(#[trigger] rest[i]) by {
            assert(rest[i] == events[i + 1]);
        }
        match filtered(events[0]) {
            Input::Press(key) => {
                lemma_selection_stays_without_space(state.after(key), rest);
            },
            _ => {
                lemma_selection_stays_without_space(state, rest);
            },
        }
    }
}

} // verus!
