//! The three questions of a session, each run over a stretch of terminal
//! events, and the answers as their summary lines show them.

use vstd::prelude::*;
use vstd::string::StringExecFns;
use crate::discover::{Discovery, Extra};
use crate::entry::{ParseError, TextEntryState};
use crate::input::Event;
use crate::multi::MultiSelectState;
use crate::select::{MenuState, Outcome};
use crate::sequencer::{MAX_COUNT, extras_from, extras_of, first_checklist, first_entry, first_menu};
use crate::text::{all_digits, decimal, decimal_string};

verus! {

pub const CATEGORY_QUESTION: &'static str = "What discovery type would you like to use?";

pub const EXTRAS_QUESTION: &'static str = "Which extras would you like to enable?";

pub const COUNT_QUESTION: &'static str = "How many results would you like to search for?";

/// The category that a run of the category menu over `events` resolves to.
pub open spec fn category_outcome(events: Seq<Event>) -> Outcome<Discovery> {
    match first_menu().outcome(events) {
        Outcome::Resolved(i) => Outcome::Resolved(Discovery::of_index(i)),
        Outcome::Cancelled => Outcome::Cancelled,
        Outcome::Pending => Outcome::Pending,
    }
}

/// The extras that a run of the extras checklist over `events` resolves to.
pub open spec fn extras_outcome(events: Seq<Event>) -> Outcome<Seq<Extra>> {
    match first_checklist().outcome(events) {
        Outcome::Resolved(indices) => Outcome::Resolved(extras_of(indices)),
        Outcome::Cancelled => Outcome::Cancelled,
        Outcome::Pending => Outcome::Pending,
    }
}

/// Asks for the category: the menu of categories, run over `events`.
pub fn discovery_type(events: &Vec<Event>) -> (out: Outcome<Discovery>)
    ensures
        out == category_outcome(events@),
{
    let menu = MenuState { len: Discovery::VARIANT_COUNT, cursor: 0 };
    match menu.run(events) {
        Outcome::Resolved(i) => Outcome::Resolved(Discovery::from_index(i)),
        Outcome::Cancelled => Outcome::Cancelled,
        Outcome::Pending => Outcome::Pending,
    }
}

/// Asks for the extras: the checklist of extras, run over `events`. The
/// extras come in the order they were ticked; none ticked is an answer too.
pub fn extras_list(events: &Vec<Event>) -> (out: Outcome<Vec<Extra>>)
    ensures
        match out {
            Outcome::Resolved(extras) => extras_outcome(events@) == Outcome::Resolved(extras@),
            Outcome::Cancelled => extras_outcome(events@) == Outcome::<Seq<Extra>>::Cancelled,
            Outcome::Pending => extras_outcome(events@) == Outcome::<Seq<Extra>>::Pending,
        },
{
    let list = MultiSelectState {
        menu: MenuState { len: Extra::VARIANT_COUNT, cursor: 0 },
        selected: Vec::new(),
    };
    assert(list@ == first_checklist());
    match list.run(events) {
        Outcome::Resolved(indices) => Outcome::Resolved(extras_from(&indices)),
        Outcome::Cancelled => Outcome::Cancelled,
        Outcome::Pending => Outcome::Pending,
    }
}

/// Asks for the count: the entry line with five typed in, run over
/// `events`. The count is at most the largest a query may ask for.
pub fn result_count(events: &Vec<Event>) -> (out: Outcome<Result<u8, ParseError>>)
    ensures
        out == first_entry().outcome(events@),
{
    let mut buffer: Vec<char> = Vec::new();
    buffer.push('5');
    assert(buffer@ =~= seq!['5']);
    let entry = TextEntryState { buffer, max: MAX_COUNT };
    assert(all_digits(entry.buffer@));
    assert(entry@ == first_entry());
    entry.run(events)
}

/// The names of a list of extras, a comma and a blank between each two.
pub open spec fn joined_labels(extras: Seq<Extra>) -> Seq<char>
    decreases extras.len(),
{
    if extras.len() == 0 {
        Seq::<char>::empty()
    } else if extras.len() == 1 {
        extras[0].label_text()
    } else {
        joined_labels(extras.drop_last()) + ", "@ + extras.last().label_text()
    }
}

/// The answer shown for a list of extras.
pub open spec fn extras_answer_text(extras: Seq<Extra>) -> Seq<char> {
    if extras.len() == 0 {
        "None"@
    } else {
        joined_labels(extras)
    }
}

/// The answer that the summary line of the category question shows.
pub fn category_answer(category: Discovery) -> (answer: &'static str)
    ensures
        answer@ == category.label_text(),
{
    category.label()
}

/// The answer that the summary line of the extras question shows: their
/// names in order, or a word for none.
pub fn extras_answer(extras: &Vec<Extra>) -> (answer: String)
    ensures
        answer@ == extras_answer_text(extras@),
{
    if extras.len() == 0 {
        return String::from_str("None");
    }
    let mut answer = String::from_str(extras[0].label());
    let mut i: usize = 1;
    assert(extras@.take(1).len() == 1);
    assert(extras@.take(1)[0] == extras@[0]);
    while i < extras.len()
        invariant
            1 <= i <= extras.len(),
            answer@ == joined_labels(extras@.take(i as int)),
        decreases extras.len() - i,
    {
        answer.append(", ");
        answer.append(extras[i].label());
        proof {
            let next = extras@.take(i + 1);
            assert(next.drop_last() =~= extras@.take(i as int));
            assert(next.last() == extras@[i as int]);
            assert(answer@ =~= joined_labels(next));
        }
        i = i + 1;
    }
    assert(extras@.take(i as int) =~= extras@);
    answer
}

/// The answer that the summary line of the count question shows.
pub fn count_answer(count: u8) -> (answer: String)
    ensures
        answer@ == decimal(count as nat),
{
    decimal_string(count as u64)
}

} // verus!
