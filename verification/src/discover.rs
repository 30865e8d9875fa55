//! The discovery categories, the extras, and the search query they make.

use vstd::prelude::*;
use vstd::string::StringExecFns;
use rand::seq::SliceRandom;
use crate::clock::{CalendarDate, today};
use crate::text::{padded_decimal, push_char, push_padded_decimal, push_signed_decimal, signed_decimal};

verus! {

/// The kind of recording to look for.
#[derive(Clone, Copy, Debug, PartialEq, Eq, Structural)]
pub enum Discovery {
    Webcam,
    Pc,
    SmartPhone,
    Misc,
}

/// A refinement of the search.
#[derive(Clone, Copy, Debug, PartialEq, Eq, Structural)]
pub enum Extra {
    Date,
    Other,
    Other2,
}

/// The texts of a list of string slices.
pub open spec fn texts(items: Seq<&'static str>) -> Seq<Seq<char>> {
    Seq::new(items.len(), |i: int| items[i]@)
}

impl Discovery {
    pub const VARIANT_COUNT: usize = 4;

    /// The category at a place of the menu.
    pub open spec fn of_index(n: usize) -> Discovery
        recommends
            n < 4,
    {
        if n == 0 {
            Discovery::Webcam
        } else if n == 1 {
            Discovery::Pc
        } else if n == 2 {
            Discovery::SmartPhone
        } else {
            Discovery::Misc
        }
    }

    /// The place of a category in the menu.
    pub open spec fn index(self) -> usize {
        match self {
            Discovery::Webcam => 0,
            Discovery::Pc => 1,
            Discovery::SmartPhone => 2,
            Discovery::Misc => 3,
        }
    }

    /// The name a category is shown under.
    pub open spec fn label_text(self) -> Seq<char> {
        match self {
            Discovery::Webcam => "Webcam"@,
            Discovery::Pc => "Pc"@,
            Discovery::SmartPhone => "Smartphone"@,
            Discovery::Misc => "Misc"@,
        }
    }

    /// The file-name fragments that recordings of a category tend to carry.
    pub open spec fn option_texts(self) -> Seq<Seq<char>> {
        match self {
            Discovery::Webcam => seq!["WIN"@, "VID"@],
            Discovery::Pc => seq![
                ".MP4"@,
                ".3GP"@,
                ".MOV"@,
                ".AVI"@,
                ".WMV"@,
                ".MKV"@,
                ".MPEG"@,
                ".FLV"@,
            ],
            Discovery::SmartPhone => seq!["IMG"@, "MVI"@, "WhatsApp Video"@],
            Discovery::Misc => seq!["FullSizeRender"@, "My Movie"@],
        }
    }

    /// The category at place `n`.
    pub fn from_index(n: usize) -> (d: Discovery)
        requires
            n < Discovery::VARIANT_COUNT,
        ensures
            d == Discovery::of_index(n),
            d.index() == n,
    {
        if n == 0 {
            Discovery::Webcam
        } else if n == 1 {
            Discovery::Pc
        } else if n == 2 {
            Discovery::SmartPhone
        } else {
            Discovery::Misc
        }
    }

    /// The category at place `n`, or none where the menu has no such place.
    pub fn try_from_index(n: usize) -> (d: Option<Discovery>)
        ensures
            d is Some <==> n < Discovery::VARIANT_COUNT,
            d matches Some(v) ==> v == Discovery::of_index(n) && v.index() == n,
    {
        if n < Discovery::VARIANT_COUNT {
            Some(Discovery::from_index(n))
        } else {
            None
        }
    }

    /// The place of this category.
    pub fn to_index(self) -> (n: usize)
        ensures
            n == self.index(),
            n < Discovery::VARIANT_COUNT,
            Discovery::of_index(n) == self,
    {
        match self {
            Discovery::Webcam => 0,
            Discovery::Pc => 1,
            Discovery::SmartPhone => 2,
            Discovery::Misc => 3,
        }
    }

    /// The name this category is shown under.
    pub fn label(self) -> (s: &'static str)
        ensures
            s@ == self.label_text(),
    {
        match self {
            Discovery::Webcam => "Webcam",
            Discovery::Pc => "Pc",
            Discovery::SmartPhone => "Smartphone",
            Discovery::Misc => "Misc",
        }
    }

    /// The fragments one of which opens the search query.
    pub fn query_options(self) -> (options: Vec<&'static str>)
        ensures
            texts(options@) == self.option_texts(),
            options@.len() >= 2,
    {
        let options = match self {
            Discovery::Webcam => vec!["WIN", "VID"],
            Discovery::Pc => vec![".MP4", ".3GP", ".MOV", ".AVI", ".WMV", ".MKV", ".MPEG", ".FLV"],
            Discovery::SmartPhone => vec!["IMG", "MVI", "WhatsApp Video"],
            Discovery::Misc => vec!["FullSizeRender", "My Movie"],
        };
        assert(texts(options@) =~= self.option_texts());
        options
    }
}

impl Extra {
    pub const VARIANT_COUNT: usize = 3;

    /// The extra at a place of the checklist.
    pub open spec fn of_index(n: usize) -> Extra
        recommends
            n < 3,
    {
        if n == 0 {
            Extra::Date
        } else if n == 1 {
            Extra::Other
        } else {
            Extra::Other2
        }
    }

    /// The place of an extra in the checklist.
    pub open spec fn index(self) -> usize {
        match self {
            Extra::Date => 0,
            Extra::Other => 1,
            Extra::Other2 => 2,
        }
    }

    /// The name an extra is shown under.
    pub open spec fn label_text(self) -> Seq<char> {
        match self {
            Extra::Date => "Date"@,
            Extra::Other => "Other"@,
            Extra::Other2 => "Other2"@,
        }
    }

    /// What an extra adds to a query on a given day: the date extra a blank
    /// and the day as year, month and day run together; the others nothing.
    pub open spec fn suffix(self, date: CalendarDate) -> Seq<char> {
        match self {
            Extra::Date => seq![' '] + signed_decimal(date.year as int) + padded_decimal(
                date.month as nat,
            ) + padded_decimal(date.day as nat),
            _ => Seq::<char>::empty(),
        }
    }

    /// The extra at place `n`.
    pub fn from_index(n: usize) -> (e: Extra)
        requires
            n < Extra::VARIANT_COUNT,
        ensures
            e == Extra::of_index(n),
            e.index() == n,
    {
        if n == 0 {
            Extra::Date
        } else if n == 1 {
            Extra::Other
        } else {
            Extra::Other2
        }
    }

    /// The extra at place `n`, or none where the checklist has no such place.
    pub fn try_from_index(n: usize) -> (e: Option<Extra>)
        ensures
            e is Some <==> n < Extra::VARIANT_COUNT,
            e matches Some(v) ==> v == Extra::of_index(n) && v.index() == n,
    {
        if n < Extra::VARIANT_COUNT {
            Some(Extra::from_index(n))
        } else {
            None
        }
    }

    /// The place of this extra.
    pub fn to_index(self) -> (n: usize)
        ensures
            n == self.index(),
            n < Extra::VARIANT_COUNT,
            Extra::of_index(n) == self,
    {
        match self {
            Extra::Date => 0,
            Extra::Other => 1,
            Extra::Other2 => 2,
        }
    }

    /// The name this extra is shown under.
    pub fn label(self) -> (s: &'static str)
        ensures
            s@ == self.label_text(),
    {
        match self {
            Extra::Date => "Date",
            Extra::Other => "Other",
            Extra::Other2 => "Other2",
        }
    }

    /// Adds to `query` what this extra asks for on the day `date`.
    pub fn apply(&self, query: &mut String, date: CalendarDate)
        ensures
            final(query)@ == old(query)@ + self.suffix(date),
    {
        match self {
            Extra::Date => {
                push_char(query, ' ');
                push_signed_decimal(query, date.year as i64);
                push_padded_decimal(query, date.month);
                push_padded_decimal(query, date.day);
                assert(final(query)@ =~= old(query)@ + self.suffix(date));
            },
            _ => {
                assert(final(query)@ =~= old(query)@ + self.suffix(date));
            },
        }
    }
}

/// What a list of extras adds to a query, one after the other.
pub open spec fn suffixes(extras: Seq<Extra>, date: CalendarDate) -> Seq<char>
    decreases extras.len(),
{
    if extras.len() == 0 {
        Seq::<char>::empty()
    } else {
        suffixes(extras.drop_last(), date) + extras.last().suffix(date)
    }
}

/// The query for an opening fragment and a list of extras.
pub open spec fn query_text(option: Seq<char>, extras: Seq<Extra>, date: CalendarDate) -> Seq<char> {
    option + suffixes(extras, date)
}

/// Builds the query that opens with `option` and carries what each of
/// `extras` adds on the day `date`.
pub fn compose_query(option: &str, extras: &Vec<Extra>, date: CalendarDate) -> (query: String)
    ensures
        query@ == query_text(option@, extras@, date),
{
    let mut query = String::from_str(option);
    let mut i: usize = 0;
    assert(extras@.take(0) =~= Seq::<Extra>::empty());
    assert(query@ =~= query_text(option@, extras@.take(0), date));
    while i < extras.len()
        invariant
            i <= extras.len(),
            query@ == query_text(option@, extras@.take(i as int), date),
        decreases extras.len() - i,
    {
        let ghost before = query@;
        extras[i].apply(&mut query, date);
        proof {
            let next = extras@.take(i + 1);
            assert(next.drop_last() =~= extras@.take(i as int));
            assert(next.last() == extras@[i as int]);
            assert(query@ =~= query_text(option@, next, date));
        }
        i = i + 1;
    }
    assert(extras@.take(i as int) =~= extras@);
    query
}

/// `SliceRandom::choose` of rand, on the generator that `rand::thread_rng`
/// hands out: one of the options, with nothing claimed of which; none
/// where there is no option.
#[verifier::external_body]
fn choose_option(options: &Vec<&'static str>) -> (picked: Option<&'static str>)
    ensures
        options@.len() == 0 <==> picked is None,
        picked matches Some(option) ==> options@.contains(option),
{
    options.choose(&mut rand::thread_rng()).copied()
}

/// What gets searched for: the query, how many results to ask for, and that
/// the newest come first.
#[derive(Clone, Debug, PartialEq, Eq)]
pub struct SearchRequest {
    pub query: String,
    pub max_results: u8,
    pub newest_first: bool,
}

/// Whether `query` is one that a category and a list of extras can give on
/// some day: one of the category's fragments, then what the extras add.
pub open spec fn is_query_for(query: Seq<char>, discovery: Discovery, extras: Seq<Extra>) -> bool {
    exists|k: int, date: CalendarDate|
        0 <= k < discovery.option_texts().len() && date.wf() && query == #[trigger] query_text(
            discovery.option_texts()[k],
            extras,
            date,
        )
}

/// Whether the date extra is among `extras`.
pub fn asks_for_date(extras: &Vec<Extra>) -> (b: bool)
    ensures
        b == extras@.contains(Extra::Date),
{
    let mut i: usize = 0;
    while i < extras.len()
        invariant
            i <= extras.len(),
            forall|k: int| 0 <= k < i ==> extras@[k] != Extra::Date,
        decreases extras.len() - i,
    {
        match extras[i] {
            Extra::Date => {
                return true;
            },
            _ => {},
        }
        i = i + 1;
    }
    false
}

/// Draws one of the category's fragments at random, reads today's date
/// where an extra asks for it, and builds the request for the search backend.
pub fn search_request(discovery: Discovery, extras: &Vec<Extra>, results: u8) -> (request:
    SearchRequest)
    ensures
        is_query_for(request.query@, discovery, extras@),
        request.max_results == results,
        request.newest_first,
{
    let options = discovery.query_options();
    let date = if asks_for_date(extras) {
        today()
    } else {
        CalendarDate { year: 1970, month: 1, day: 1 }
    };
    let picked = choose_option(&options);
    let option = picked.unwrap();
    let query = compose_query(option, extras, date);
    proof {
        let k = choose|k: int| 0 <= k < options@.len() && options@[k] == option;
        assert(texts(options@)[k] == option@);
        assert(query@ == query_text(discovery.option_texts()[k], extras@, date));
    }
    SearchRequest { query, max_results: results, newest_first: true }
}

} // verus!
