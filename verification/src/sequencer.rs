//! The prompt sequencer: category, then extras, then count, each asked once
//! and in this order, with no way back.

use vstd::prelude::*;
use crate::discover::{Discovery, Extra};
use crate::entry::{ParseError, TextAction, TextEntry, TextEntryState};
use crate::input::{Event, Input, Key, KeyCode, filter_event, filtered};
use crate::redraw::{
    Directive, RedrawController, before_drawing, collapse_height, erasure, line_collapse,
    line_count, line_redraw, list_lines,
};
use crate::multi::{MultiAction, MultiSelect, MultiSelectState, is_space, lemma_toggle};
use crate::select::{MenuAction, MenuState, Outcome};
use crate::text::{all_digits, digit_char, is_digit};

verus! {

/// The largest count a query may ask for.
pub const MAX_COUNT: u8 = 255;

/// The lines a question takes above its prompt.
pub const QUESTION_LINES: u16 = 1;

/// What the prompts resolve to: the finished description of a search.
#[derive(Clone, Debug, PartialEq, Eq)]
pub struct QuerySpec {
    pub category: Discovery,
    pub modifiers: Vec<Extra>,
    pub count: u8,
}

/// The mathematical content of a [`QuerySpec`].
pub struct Query {
    pub category: Discovery,
    pub modifiers: Seq<Extra>,
    pub count: u8,
}

impl View for QuerySpec {
    type V = Query;

    open spec fn view(&self) -> Query {
        Query { category: self.category, modifiers: self.modifiers@, count: self.count }
    }
}

/// Where the sequence of prompts stands.
#[derive(Clone, Debug, PartialEq, Eq)]
pub enum Sequencer {
    /// Asking for the category.
    Category(MenuState),
    /// The category is settled; asking for the extras.
    Modifiers(Discovery, MultiSelectState),
    /// Category and extras are settled; asking for the count.
    Count(Discovery, Vec<Extra>, TextEntryState),
    /// All three are settled.
    Done(QuerySpec),
    /// A prompt was abandoned.
    Cancelled,
    /// The count could not be read.
    Failed(ParseError),
}

/// The mathematical content of a [`Sequencer`].
pub enum Prompts {
    Category(MenuState),
    Modifiers(Discovery, MultiSelect),
    Count(Discovery, Seq<Extra>, TextEntry),
    Done(Query),
    Cancelled,
    Failed(ParseError),
}

/// What the surrounding loop has to do after a key reached the sequencer.
#[derive(Clone, Copy, Debug, PartialEq, Eq, Structural)]
pub enum SequencerAction {
    /// Nothing changed: read the next event.
    Stay,
    /// The prompt on screen changed: draw it again.
    Redraw,
    /// A prompt resolved: collapse it to its summary line and draw the next.
    Advance,
    /// The last prompt resolved: collapse it; the query is ready.
    Finish,
    /// A prompt was abandoned: clean up and leave.
    Cancel,
    /// The count could not be read: report it and leave.
    Fail,
}

/// The extras at the ticked places of the checklist, in the order they were ticked.
pub open spec fn extras_of(indices: Seq<usize>) -> Seq<Extra> {
    Seq::new(indices.len(), |i: int| Extra::of_index(indices[i]))
}

/// The category prompt as it starts out.
pub open spec fn first_menu() -> MenuState {
    MenuState { len: Discovery::VARIANT_COUNT, cursor: 0 }
}

/// The extras prompt as it starts out.
pub open spec fn first_checklist() -> MultiSelect {
    MultiSelect {
        menu: MenuState { len: Extra::VARIANT_COUNT, cursor: 0 },
        selected: Seq::<usize>::empty(),
    }
}

/// The count prompt as it starts out: five typed in.
pub open spec fn first_entry() -> TextEntry {
    TextEntry { buffer: seq!['5'], max: MAX_COUNT }
}

impl Prompts {
    pub open spec fn wf(self) -> bool {
        match self {
            Prompts::Category(menu) => menu.wf() && menu.len == Discovery::VARIANT_COUNT,
            Prompts::Modifiers(_, list) => list.wf() && list.menu.len == Extra::VARIANT_COUNT,
            Prompts::Count(_, _, entry) => entry.wf(),
            _ => true,
        }
    }

    /// Whether a prompt is on screen.
    pub open spec fn is_active(self) -> bool {
        self is Category || self is Modifiers || self is Count
    }

    /// The sequence after one key.
    pub open spec fn after(self, key: Key) -> Prompts {
        match self {
            Prompts::Category(menu) => match menu.action(key) {
                MenuAction::Confirm(i) => Prompts::Modifiers(
                    Discovery::of_index(i),
                    first_checklist(),
                ),
                MenuAction::Cancel => Prompts::Cancelled,
                _ => Prompts::Category(menu.after(key)),
            },
            Prompts::Modifiers(category, list) => match list.action(key) {
                MultiAction::Confirm => Prompts::Count(
                    category,
                    extras_of(list.selected),
                    first_entry(),
                ),
                MultiAction::Cancel => Prompts::Cancelled,
                _ => Prompts::Modifiers(category, list.after(key)),
            },
            Prompts::Count(category, modifiers, entry) => match entry.action(key) {
                TextAction::Submit(count) => Prompts::Done(Query { category, modifiers, count }),
                TextAction::Reject(e) => Prompts::Failed(e),
                TextAction::Cancel => Prompts::Cancelled,
                _ => Prompts::Count(category, modifiers, entry.after(key)),
            },
            _ => self,
        }
    }

    /// The action that one key asks for.
    pub open spec fn action(self, key: Key) -> SequencerAction {
        match self {
            Prompts::Category(menu) => match menu.action(key) {
                MenuAction::Confirm(_) => SequencerAction::Advance,
                MenuAction::Cancel => SequencerAction::Cancel,
                MenuAction::Redraw => SequencerAction::Redraw,
                MenuAction::Stay => SequencerAction::Stay,
            },
            Prompts::Modifiers(_, list) => match list.action(key) {
                MultiAction::Confirm => SequencerAction::Advance,
                MultiAction::Cancel => SequencerAction::Cancel,
                MultiAction::Redraw => SequencerAction::Redraw,
                MultiAction::Stay => SequencerAction::Stay,
            },
            Prompts::Count(_, _, entry) => match entry.action(key) {
                TextAction::Submit(_) => SequencerAction::Finish,
                TextAction::Reject(_) => SequencerAction::Fail,
                TextAction::Cancel => SequencerAction::Cancel,
                TextAction::Redraw => SequencerAction::Redraw,
                TextAction::Stay => SequencerAction::Stay,
            },
            _ => SequencerAction::Stay,
        }
    }

    /// The sequence after one terminal event: only key presses count.
    pub open spec fn after_event(self, event: Event) -> Prompts {
        match filtered(event) {
            Input::Press(key) => self.after(key),
            _ => self,
        }
    }

    /// The sequence after a stretch of terminal events.
    pub open spec fn after_events(self, events: Seq<Event>) -> Prompts
        decreases events.len(),
    {
        if events.len() == 0 {
            self
        } else {
            self.after_event(events[0]).after_events(events.skip(1))
        }
    }
}

impl View for Sequencer {
    type V = Prompts;

    open spec fn view(&self) -> Prompts {
        match self {
            Sequencer::Category(menu) => Prompts::Category(*menu),
            Sequencer::Modifiers(category, list) => Prompts::Modifiers(*category, list@),
            Sequencer::Count(category, modifiers, entry) => Prompts::Count(
                *category,
                modifiers@,
                entry@,
            ),
            Sequencer::Done(query) => Prompts::Done(query@),
            Sequencer::Cancelled => Prompts::Cancelled,
            Sequencer::Failed(e) => Prompts::Failed(*e),
        }
    }
}

/// The extras at the ticked places.
pub fn extras_from(indices: &Vec<usize>) -> (extras: Vec<Extra>)
    requires
        forall|k: int| 0 <= k < indices@.len() ==> indices@[k] < Extra::VARIANT_COUNT,
    ensures
        extras@ == extras_of(indices@),
{
    let mut extras: Vec<Extra> = Vec::new();
    let mut i: usize = 0;
    while i < indices.len()
        invariant
            i <= indices.len(),
            forall|k: int| 0 <= k < indices@.len() ==> indices@[k] < Extra::VARIANT_COUNT,
            extras@.len() == i,
            forall|j: int| 0 <= j < i ==> extras@[j] == Extra::of_index(indices@[j]),
        decreases indices.len() - i,
    {
        extras.push(Extra::from_index(indices[i]));
        i = i + 1;
    }
    assert(extras@ =~= extras_of(indices@));
    extras
}

impl Sequencer {
    pub open spec fn wf(&self) -> bool {
        self@.wf()
    }

    /// The sequence at its start: the category prompt, cursor on the first category.
    pub fn new() -> (s: Sequencer)
        ensures
            s@ == Prompts::Category(first_menu()),
            s.wf(),
    {
        Sequencer::Category(MenuState { len: Discovery::VARIANT_COUNT, cursor: 0 })
    }

    /// Whether the prompt on screen is a valid one of its kind.
    pub fn is_valid(&self) -> (b: bool)
        ensures
            b == self.wf(),
    {
        match self {
            Sequencer::Category(menu) => menu.is_valid() && menu.len == Discovery::VARIANT_COUNT,
            Sequencer::Modifiers(_, list) => list.is_valid() && list.menu.len
                == Extra::VARIANT_COUNT,
            Sequencer::Count(_, _, entry) => entry.is_valid(),
            _ => true,
        }
    }

    /// To be called before the prompt on screen is drawn: gives the
    /// instructions that take back its last drawing. A list is erased as
    /// many lines up as it had options; the entry line is cleared in place.
    pub fn begin_drawing(&self, controller: &mut RedrawController) -> (directives: Vec<Directive>)
        ensures
            match self@ {
                Prompts::Category(menu) => directives@ == before_drawing(old(controller).drawn)
                    && final(controller).drawn == Some(line_count(menu.len as nat)),
                Prompts::Modifiers(_, list) => directives@ == before_drawing(
                    old(controller).drawn,
                ) && final(controller).drawn == Some(line_count(list.menu.len as nat)),
                Prompts::Count(_, _, _) => directives@ == (if old(controller).drawn is None {
                    Seq::<Directive>::empty()
                } else {
                    line_redraw()
                }) && final(controller).drawn == Some(1u16),
                _ => directives@.len() == 0 && *final(controller) == *old(controller),
            },
    {
        match self {
            Sequencer::Category(menu) => controller.begin(list_lines(menu.len)),
            Sequencer::Modifiers(_, list) => controller.begin(list_lines(list.menu.len)),
            Sequencer::Count(_, _, _) => controller.begin_line(),
            _ => Vec::new(),
        }
    }

    /// To be called after a key that resolved a prompt, on the state that
    /// the key led to: gives the instructions that take the resolved prompt
    /// and its question off the screen, so that one line with question and
    /// answer can take their place.
    pub fn collapse_resolved(&self, controller: &mut RedrawController) -> (directives: Vec<
        Directive,
    >)
        ensures
            match self@ {
                Prompts::Modifiers(_, _) => directives@ == erasure(
                    collapse_height(old(controller).drawn, QUESTION_LINES),
                ) && final(controller).drawn is None,
                Prompts::Count(_, _, _) => directives@ == erasure(
                    collapse_height(old(controller).drawn, QUESTION_LINES),
                ) && final(controller).drawn is None,
                Prompts::Done(_) => directives@ == line_collapse() && final(controller).drawn
                    is None,
                _ => directives@.len() == 0 && *final(controller) == *old(controller),
            },
    {
        match self {
            Sequencer::Modifiers(_, _) => controller.collapse(QUESTION_LINES),
            Sequencer::Count(_, _, _) => controller.collapse(QUESTION_LINES),
            Sequencer::Done(_) => controller.collapse_line(),
            _ => Vec::new(),
        }
    }

    /// The finished query, once all three prompts have resolved.
    pub fn query(&self) -> (q: Option<&QuerySpec>)
        ensures
            q is Some <==> self@ is Done,
            q matches Some(spec) ==> self@ == Prompts::Done(spec@),
    {
        match self {
            Sequencer::Done(spec) => Some(spec),
            _ => None,
        }
    }

    /// Feeds one key press to the prompt on screen. A confirmation moves on
    /// to the next prompt; a cancellation ends the sequence there and then.
    pub fn step(self, key: Key) -> (r: (Sequencer, SequencerAction))
        requires
            self.wf(),
        ensures
            r.0.wf(),
            r.0@ == self@.after(key),
            r.1 == self@.action(key),
    {
        match self {
            Sequencer::Category(menu) => {
                let mut menu = menu;
                match menu.press(key) {
                    MenuAction::Confirm(i) => {
                        let list = MultiSelectState {
                            menu: MenuState { len: Extra::VARIANT_COUNT, cursor: 0 },
                            selected: Vec::new(),
                        };
                        assert(list@ == first_checklist());
                        (
                            Sequencer::Modifiers(Discovery::from_index(i), list),
                            SequencerAction::Advance,
                        )
                    },
                    MenuAction::Cancel => (Sequencer::Cancelled, SequencerAction::Cancel),
                    MenuAction::Redraw => (Sequencer::Category(menu), SequencerAction::Redraw),
                    MenuAction::Stay => (Sequencer::Category(menu), SequencerAction::Stay),
                }
            },
            Sequencer::Modifiers(category, list) => {
                let mut list = list;
                match list.press(key) {
                    MultiAction::Confirm => {
                        let modifiers = extras_from(&list.selected);
                        let mut buffer: Vec<char> = Vec::new();
                        buffer.push('5');
                        assert(buffer@ =~= seq!['5']);
                        let entry = TextEntryState { buffer, max: MAX_COUNT };
                        assert(all_digits(entry.buffer@));
                        (Sequencer::Count(category, modifiers, entry), SequencerAction::Advance)
                    },
                    MultiAction::Cancel => (Sequencer::Cancelled, SequencerAction::Cancel),
                    MultiAction::Redraw => (
                        Sequencer::Modifiers(category, list),
                        SequencerAction::Redraw,
                    ),
                    MultiAction::Stay => (Sequencer::Modifiers(category, list), SequencerAction::Stay),
                }
            },
            Sequencer::Count(category, modifiers, entry) => {
                let mut entry = entry;
                match entry.press(key) {
                    TextAction::Submit(count) => (
                        Sequencer::Done(QuerySpec { category, modifiers, count }),
                        SequencerAction::Finish,
                    ),
                    TextAction::Reject(e) => (Sequencer::Failed(e), SequencerAction::Fail),
                    TextAction::Cancel => (Sequencer::Cancelled, SequencerAction::Cancel),
                    TextAction::Redraw => (
                        Sequencer::Count(category, modifiers, entry),
                        SequencerAction::Redraw,
                    ),
                    TextAction::Stay => (
                        Sequencer::Count(category, modifiers, entry),
                        SequencerAction::Stay,
                    ),
                }
            },
            Sequencer::Done(query) => (Sequencer::Done(query), SequencerAction::Stay),
            Sequencer::Cancelled => (Sequencer::Cancelled, SequencerAction::Stay),
            Sequencer::Failed(e) => (Sequencer::Failed(e), SequencerAction::Stay),
        }
    }

    /// Filters one terminal event and feeds what is left to the sequence.
    pub fn on_event(self, event: Event) -> (r: (Sequencer, SequencerAction))
        requires
            self.wf(),
        ensures
            r.0.wf(),
            r.0@ == self@.after_event(event),
            r.1 == match filtered(event) {
                Input::Press(key) => self@.action(key),
                _ => SequencerAction::Stay,
            },
    {
        match filter_event(event) {
            Input::Press(key) => self.step(key),
            _ => (self, SequencerAction::Stay),
        }
    }

    /// Feeds a stretch of terminal events to the sequence, one after the other.
    pub fn run(self, events: &Vec<Event>) -> (end: Sequencer)
        requires
            self.wf(),
        ensures
            end.wf(),
            end@ == self@.after_events(events@),
    {
        let ghost start = self@;
        let mut state = self;
        let mut i: usize = 0;
        assert(events@.skip(0) =~= events@);
        while i < events.len()
            invariant
                i <= events.len(),
                state.wf(),
                start.after_events(events@) == state@.after_events(events@.skip(i as int)),
            decreases events.len() - i,
        {
            let ghost rest = events@.skip(i as int);
            assert(rest[0] == events@[i as int]);
            assert(rest.skip(1) =~= events@.skip(i + 1));
            let (next, _) = state.on_event(events[i]);
            state = next;
            i = i + 1;
        }
        state
    }
}

/// Escape or Control-c on any prompt ends the sequence as cancelled.
pub proof fn lemma_cancel_abandons(state: Prompts, key: Key)
    requires
        state.is_active(),
        key.cancels(),
    ensures
        state.after(key) == Prompts::Cancelled,
        state.action(key) == SequencerAction::Cancel,
{
}

/// A cancelled sequence stays cancelled whatever arrives: it reaches no
/// later prompt and never gives a query.
pub proof fn lemma_cancelled_is_final(events: Seq<Event>)
    ensures
        Prompts::Cancelled.after_events(events) == Prompts::Cancelled,
    decreases events.len(),
{
    if events.len() > 0 {
        lemma_cancelled_is_final(events.skip(1));
    }
}

/// Once Escape or Control-c has been pressed on a prompt, nothing that
/// follows brings up a later prompt or a query.
pub proof fn lemma_cancel_short_circuits(state: Prompts, key: Key, later: Seq<Event>)
    requires
        state.is_active(),
        key.cancels(),
    ensures
        state.after(key).after_events(later) == Prompts::Cancelled,
        !(state.after(key).after_events(later) is Done),
{
    lemma_cancelled_is_final(later);
}

/// A category menu that a stretch of events cancels cancels the whole
/// sequence, and one that the events leave waiting leaves the sequence at
/// the category prompt: no later prompt comes up.
pub proof fn lemma_category_prompt_holds(menu: MenuState, events: Seq<Event>)
    ensures
        menu.outcome(events) is Cancelled ==> Prompts::Category(menu).after_events(events)
            == Prompts::Cancelled,
        menu.outcome(events) is Pending ==> Prompts::Category(menu).after_events(events)
            is Category,
    decreases events.len(),
{
    if events.len() > 0 {
        match filtered(events[0]) {
            Input::Press(key) => match menu.action(key) {
                MenuAction::Confirm(_) => {},
                MenuAction::Cancel => {
                    lemma_cancelled_is_final(events.skip(1));
                },
                _ => {
                    lemma_category_prompt_holds(menu.after(key), events.skip(1));
                },
            },
            _ => {
                lemma_category_prompt_holds(menu, events.skip(1));
            },
        }
    }
}

/// The same of the extras prompt: cancelled there, the sequence is
/// cancelled; left waiting there, the count prompt has not come up.
pub proof fn lemma_extras_prompt_holds(category: Discovery, list: MultiSelect, events: Seq<Event>)
    ensures
        list.outcome(events) is Cancelled ==> Prompts::Modifiers(category, list).after_events(
            events,
        ) == Prompts::Cancelled,
        list.outcome(events) is Pending ==> Prompts::Modifiers(category, list).after_events(
            events,
        ) is Modifiers,
    decreases events.len(),
{
    if events.len() > 0 {
        match filtered(events[0]) {
            Input::Press(key) => match list.action(key) {
                MultiAction::Confirm => {},
                MultiAction::Cancel => {
                    lemma_cancelled_is_final(events.skip(1));
                },
                _ => {
                    lemma_extras_prompt_holds(category, list.after(key), events.skip(1));
                },
            },
            _ => {
                lemma_extras_prompt_holds(category, list, events.skip(1));
            },
        }
    }
}

/// The same of the count prompt, and more: the sequence ends with a query
/// exactly when the entry resolves to a number, and the query then holds
/// that number beside the category and the extras settled before.
pub proof fn lemma_count_prompt_holds(
    category: Discovery,
    modifiers: Seq<Extra>,
    entry: TextEntry,
    events: Seq<Event>,
)
    ensures
        entry.outcome(events) is Cancelled ==> Prompts::Count(
            category,
            modifiers,
            entry,
        ).after_events(events) == Prompts::Cancelled,
        entry.outcome(events) is Pending ==> Prompts::Count(
            category,
            modifiers,
            entry,
        ).after_events(events) is Count,
        entry.outcome(events) matches Outcome::Resolved(Ok(count)) ==> Prompts::Count(
            category,
            modifiers,
            entry,
        ).after_events(events) == Prompts::Done(Query { category, modifiers, count }),
        entry.outcome(events) matches Outcome::Resolved(Err(e)) ==> Prompts::Count(
            category,
            modifiers,
            entry,
        ).after_events(events) == Prompts::Failed(e),
    decreases events.len(),
{
    if events.len() > 0 {
        match filtered(events[0]) {
            Input::Press(key) => match entry.action(key) {
                TextAction::Submit(count) => {
                    lemma_done_is_final(Query { category, modifiers, count }, events.skip(1));
                },
                TextAction::Reject(e) => {
                    lemma_failed_is_final(e, events.skip(1));
                },
                TextAction::Cancel => {
                    lemma_cancelled_is_final(events.skip(1));
                },
                _ => {
                    lemma_count_prompt_holds(category, modifiers, entry.after(key), events.skip(1));
                },
            },
            _ => {
                lemma_count_prompt_holds(category, modifiers, entry, events.skip(1));
            },
        }
    }
}

/// A failed sequence stays failed.
pub proof fn lemma_failed_is_final(e: ParseError, events: Seq<Event>)
    ensures
        Prompts::Failed(e).after_events(events) == Prompts::Failed(e),
    decreases events.len(),
{
    if events.len() > 0 {
        lemma_failed_is_final(e, events.skip(1));
    }
}

/// A finished query is final too: later input changes nothing of it.
pub proof fn lemma_done_is_final(query: Query, events: Seq<Event>)
    ensures
        Prompts::Done(query).after_events(events) == Prompts::Done(query),
    decreases events.len(),
{
    if events.len() > 0 {
        lemma_done_is_final(query, events.skip(1));
    }
}

/// The prompts come in order: one key takes the sequence at most one prompt on.
pub proof fn lemma_no_prompt_is_skipped(state: Prompts, key: Key)
    requires
        state.wf(),
    ensures
        state.after(key).wf(),
        state is Category ==> !(state.after(key) is Count) && !(state.after(key) is Done),
        state is Modifiers ==> !(state.after(key) is Category) && !(state.after(key) is Done),
        state is Count ==> !(state.after(key) is Category) && !(state.after(key) is Modifiers),
{
    match state {
        Prompts::Modifiers(_, list) => {
            if !key.cancels() && key.code != KeyCode::Enter && is_space(key) {
                lemma_toggle(list.selected, list.menu.cursor, list.menu.len);
            }
        },
        Prompts::Count(_, _, entry) => {
            if key.digit_value() is Some {
                let d = key.digit_value().unwrap();
                assert(is_digit(digit_char(d as nat)));
            }
        },
        _ => {},
    }
}

} // verus!
