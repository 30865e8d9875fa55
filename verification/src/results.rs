//! The results browser: a cursor over the records a search brought back,
//! with an action that opens the record under the cursor.

use vstd::prelude::*;
use vstd::string::{StrSliceExecFns, StringExecFns};
use crate::clock::unix_now;
use crate::input::{Event, Input, Key, KeyCode, KeyKind, filter_event, filtered};
use crate::select::{cursor_down, cursor_up};
use crate::text::{push_char, push_signed_decimal, signed_decimal};

verus! {

/// Lists shorter than this can be jumped into by digit.
pub const DIGIT_JUMP_BOUND: usize = 9;

/// The columns kept free to the right of a title.
pub const TITLE_MARGIN: u16 = 6;

/// The screen lines one record takes: a blank line, the title, the details.
pub const LINES_PER_RESULT: usize = 3;

/// One record of a search, as far as the browser shows it.
#[derive(Clone, Debug, PartialEq, Eq)]
pub struct ResultRecord {
    pub title: Option<String>,
    pub channel: Option<String>,
    /// When the video was published, in seconds since the Unix epoch.
    pub published_at: Option<i64>,
    /// The handle by which the video is opened.
    pub external_id: String,
}

/// The records and the cursor over them. The order of the records is the
/// order they are shown in and never changes.
#[derive(Clone, Debug, PartialEq, Eq)]
pub struct ResultsBrowser {
    pub results: Vec<ResultRecord>,
    pub cursor: usize,
}

/// What the surrounding loop has to do after an input reached the browser.
#[derive(Clone, Debug, PartialEq, Eq)]
pub enum BrowserAction {
    /// Nothing changed: read the next event.
    Stay,
    /// The cursor moved or the terminal was resized: draw the list again.
    Redraw,
    /// Enter: open this address; the browser goes on afterwards.
    Open(String),
    /// Escape: browsing is over.
    Exit,
    /// Control-c: leave at once, through the terminal cleanup.
    Quit,
}

/// The mathematical content of a [`BrowserAction`].
pub enum BrowserEffect {
    Stay,
    Redraw,
    Open(Seq<char>),
    Exit,
    Quit,
}

impl View for BrowserAction {
    type V = BrowserEffect;

    open spec fn view(&self) -> BrowserEffect {
        match self {
            BrowserAction::Stay => BrowserEffect::Stay,
            BrowserAction::Redraw => BrowserEffect::Redraw,
            BrowserAction::Open(url) => BrowserEffect::Open(url@),
            BrowserAction::Exit => BrowserEffect::Exit,
            BrowserAction::Quit => BrowserEffect::Quit,
        }
    }
}

/// What follows an attempt to open a record.
#[derive(Clone, Copy, Debug, PartialEq, Eq, Structural)]
pub enum OpenFollowup {
    /// The record opened: go on browsing.
    Continue,
    /// Opening failed: say so, and go on browsing.
    ReportAndContinue,
}

/// The address under which a video is opened.
pub open spec fn url_text(id: Seq<char>) -> Seq<char> {
    "https://youtu.be/"@ + id
}

/// Division that rounds towards zero.
pub open spec fn quotient_towards_zero(a: int, b: int) -> int
    recommends
        b > 0,
{
    if a >= 0 {
        a / b
    } else {
        -((-a) / b)
    }
}

/// An age in words: in minutes under an hour, in hours under a day, in days
/// from there on.
pub open spec fn age_text(seconds: int) -> Seq<char> {
    if quotient_towards_zero(seconds, 60) < 60 {
        signed_decimal(quotient_towards_zero(seconds, 60)) + " minutes"@
    } else if quotient_towards_zero(seconds, 3600) < 24 {
        signed_decimal(quotient_towards_zero(seconds, 3600)) + " hours"@
    } else {
        signed_decimal(quotient_towards_zero(seconds, 86400)) + " days"@
    }
}

/// The seconds from `then` to `now`, held to what sixty-four bits can say.
pub open spec fn elapsed(now: i64, then: i64) -> i64 {
    if now - then > i64::MAX {
        i64::MAX
    } else if now - then < i64::MIN {
        i64::MIN
    } else {
        (now - then) as i64
    }
}

/// The title as shown in a terminal `width` columns wide: cut to leave the
/// margin free, or a stand-in where there is none.
pub open spec fn shown_title(title: Option<String>, width: u16) -> Seq<char> {
    match title {
        Some(t) => {
            let room = if width >= TITLE_MARGIN { width - TITLE_MARGIN } else { 0 };
            if t@.len() <= room { t@ } else { t@.take(room) }
        },
        None => "Untitled"@,
    }
}

/// The age of a record at the time `now`, or a stand-in where its date is unknown.
pub open spec fn shown_age(published_at: Option<i64>, now: i64) -> Seq<char> {
    match published_at {
        Some(then) => age_text(elapsed(now, then) as int),
        None => "unknown"@,
    }
}

pub open spec fn shown_channel(channel: Option<String>) -> Seq<char> {
    match channel {
        Some(c) => c@,
        None => "anonymous"@,
    }
}

/// The line of details under a title.
pub open spec fn shown_info(record: ResultRecord, now: i64) -> Seq<char> {
    "Age: "@ + shown_age(record.published_at, now) + " • Channel: "@ + shown_channel(
        record.channel,
    )
}

/// The address under which the video with handle `id` is opened.
pub fn video_url(id: &str) -> (url: String)
    ensures
        url@ == url_text(id@),
{
    let mut url = String::from_str("https://youtu.be/");
    url.append(id);
    url
}

fn divide_towards_zero(a: i64, b: i64) -> (q: i64)
    requires
        b > 1,
    ensures
        q == quotient_towards_zero(a as int, b as int),
{
    if a >= 0 {
        a / b
    } else {
        let magnitude: i128 = -(a as i128);
        let q: i128 = magnitude / (b as i128);
        assert(0 <= q <= magnitude) by (nonlinear_arith)
            requires
                magnitude >= 0,
                b >= 1,
                q == (magnitude as int) / (b as int),
        ;
        (-q) as i64
    }
}

/// An age of `seconds` in words.
pub fn age_label(seconds: i64) -> (label: String)
    ensures
        label@ == age_text(seconds as int),
{
    let mut label = String::new();
    let minutes = divide_towards_zero(seconds, 60);
    if minutes < 60 {
        push_signed_decimal(&mut label, minutes);
        label.append(" minutes");
    } else {
        let hours = divide_towards_zero(seconds, 3600);
        if hours < 24 {
            push_signed_decimal(&mut label, hours);
            label.append(" hours");
        } else {
            push_signed_decimal(&mut label, divide_towards_zero(seconds, 86400));
            label.append(" days");
        }
    }
    assert(label@ =~= age_text(seconds as int));
    label
}

/// The seconds from `then` to `now`, held to the range of the type.
pub fn elapsed_seconds(now: i64, then: i64) -> (d: i64)
    ensures
        d == elapsed(now, then),
{
    let wide: i128 = now as i128 - then as i128;
    if wide > i64::MAX as i128 {
        i64::MAX
    } else if wide < i64::MIN as i128 {
        i64::MIN
    } else {
        wide as i64
    }
}

/// The age in words of a video published at `published_at`, by the clock of
/// this machine: for some reading `now` of the clock it is the age from
/// `published_at` to `now`.
pub fn video_age(published_at: i64) -> (label: String)
    ensures
        exists|now: i64| label@ == #[trigger] age_text(elapsed(now, published_at) as int),
{
    let now = unix_now();
    age_label(elapsed_seconds(now, published_at))
}

/// The first `room` characters of `text`, or all of it where it has no more.
pub fn truncate_chars(text: &str, room: usize) -> (cut: String)
    ensures
        cut@ == if text@.len() <= room { text@ } else { text@.take(room as int) },
{
    let n: usize = text.unicode_len();
    let end: usize = if n <= room { n } else { room };
    let mut cut = String::new();
    let mut i: usize = 0;
    assert(text@.take(0) =~= Seq::<char>::empty());
    assert(cut@ =~= text@.take(0));
    while i < end
        invariant
            i <= end,
            end <= n,
            n == text@.len(),
            cut@ == text@.take(i as int),
        decreases end - i,
    {
        push_char(&mut cut, text.get_char(i));
        assert(cut@ =~= text@.take(i + 1));
        i = i + 1;
    }
    assert(text@.take(n as int) =~= text@);
    cut
}

impl ResultRecord {
    /// The title as shown in a terminal `width` columns wide.
    pub fn title_line(&self, width: u16) -> (line: String)
        ensures
            line@ == shown_title(self.title, width),
    {
        match &self.title {
            Some(t) => {
                let room: u16 = if width >= TITLE_MARGIN { width - TITLE_MARGIN } else { 0 };
                truncate_chars(t.as_str(), room as usize)
            },
            None => String::from_str("Untitled"),
        }
    }

    /// The line of details as shown at the time `now`.
    pub fn info_line(&self, now: i64) -> (line: String)
        ensures
            line@ == shown_info(*self, now),
    {
        let mut line = String::from_str("Age: ");
        match self.published_at {
            Some(then) => {
                let age = age_label(elapsed_seconds(now, then));
                line.append(age.as_str());
            },
            None => {
                line.append("unknown");
            },
        }
        line.append(" • Channel: ");
        match &self.channel {
            Some(c) => {
                line.append(c.as_str());
            },
            None => {
                line.append("anonymous");
            },
        }
        assert(line@ =~= shown_info(*self, now));
        line
    }

    /// The channel's name, or a stand-in where it is unknown.
    pub fn channel_name(&self) -> (name: String)
        ensures
            name@ == shown_channel(self.channel),
    {
        match &self.channel {
            Some(c) => c.clone(),
            None => String::from_str("anonymous"),
        }
    }

    /// The title in full, or the stand-in the dashboard uses where there is none.
    pub fn full_title(&self) -> (title: String)
        ensures
            title@ == match self.title {
                Some(t) => t@,
                None => "Unnamed"@,
            },
    {
        match &self.title {
            Some(t) => t.clone(),
            None => String::from_str("Unnamed"),
        }
    }

    /// The address under which this record is opened.
    pub fn url(&self) -> (url: String)
        ensures
            url@ == url_text(self.external_id@),
    {
        video_url(self.external_id.as_str())
    }
}

/// One record as the browser draws it.
#[derive(Clone, Debug, PartialEq, Eq)]
pub struct ResultRow {
    pub title: String,
    pub info: String,
    /// Whether the cursor is on this record.
    pub highlighted: bool,
}

/// Whether `rows` is what a browser over `results` draws in a terminal
/// `width` columns wide at the time `now`: one row for each record, in
/// order, with the record's title and details, the one under the cursor marked.
pub open spec fn drawn(
    rows: Seq<ResultRow>,
    results: Seq<ResultRecord>,
    cursor: usize,
    width: u16,
    now: i64,
) -> bool {
    &&& rows.len() == results.len()
    &&& forall|i: int|
        0 <= i < rows.len() ==> {
            &&& (#[trigger] rows[i]).title@ == shown_title(results[i].title, width)
            &&& rows[i].info@ == shown_info(results[i], now)
            &&& rows[i].highlighted == (i == cursor)
        }
}

/// The cursor after an input reached a browser over `len` records.
pub open spec fn cursor_after(len: usize, cursor: usize, input: Input) -> usize {
    match input {
        Input::Press(key) => if key.code == KeyCode::Esc || key.force_quits() || len == 0 {
            cursor
        } else {
            match key.code {
                KeyCode::Up => cursor_up(len, cursor),
                KeyCode::Down => cursor_down(len, cursor),
                _ => match key.digit_value() {
                    Some(d) => if 1 <= d && len < DIGIT_JUMP_BOUND {
                        if d - 1 < len - 1 {
                            (d - 1) as usize
                        } else {
                            (len - 1) as usize
                        }
                    } else {
                        cursor
                    },
                    None => cursor,
                },
            }
        },
        _ => cursor,
    }
}

/// What an input asks of the loop round a browser over `results`.
pub open spec fn effect_of(results: Seq<ResultRecord>, cursor: usize, input: Input) -> BrowserEffect {
    match input {
        Input::Resize { width, height } => BrowserEffect::Redraw,
        Input::Nothing => BrowserEffect::Stay,
        Input::Press(key) => if key.code == KeyCode::Esc {
            BrowserEffect::Exit
        } else if key.force_quits() {
            BrowserEffect::Quit
        } else if key.code == KeyCode::Enter {
            if cursor < results.len() {
                BrowserEffect::Open(url_text(results[cursor as int].external_id@))
            } else {
                BrowserEffect::Stay
            }
        } else if cursor_after(results.len() as usize, cursor, input) != cursor {
            BrowserEffect::Redraw
        } else {
            BrowserEffect::Stay
        },
    }
}

impl ResultsBrowser {
    /// The cursor is on a record, or on nothing where there is no record.
    pub open spec fn wf(&self) -> bool {
        if self.results@.len() == 0 {
            self.cursor == 0
        } else {
            self.cursor < self.results@.len()
        }
    }

    /// A browser over `results`, cursor on the first.
    pub fn new(results: Vec<ResultRecord>) -> (b: ResultsBrowser)
        ensures
            b.wf(),
            b.results == results,
            b.cursor == 0,
    {
        ResultsBrowser { results, cursor: 0 }
    }

    /// Whether the cursor is where a cursor may be.
    pub fn is_valid(&self) -> (b: bool)
        ensures
            b == self.wf(),
    {
        if self.results.len() == 0 {
            self.cursor == 0
        } else {
            self.cursor < self.results.len()
        }
    }

    /// The screen lines the list takes, as far as a cursor movement can count.
    pub open spec fn height(&self) -> u16 {
        if LINES_PER_RESULT * self.results@.len() > u16::MAX {
            u16::MAX
        } else {
            (LINES_PER_RESULT * self.results@.len()) as u16
        }
    }

    /// The screen lines the list takes: three for each record.
    pub fn lines(&self) -> (n: u16)
        ensures
            n == self.height(),
    {
        let len: usize = self.results.len();
        if len > 21845 {
            u16::MAX
        } else {
            (LINES_PER_RESULT * len) as u16
        }
    }

    /// Feeds one input to the browser. Opening a record leaves the browser
    /// as it is: only Escape and Control-c end the browsing.
    pub fn handle(&mut self, input: Input) -> (action: BrowserAction)
        requires
            old(self).wf(),
        ensures
            final(self).wf(),
            final(self).results == old(self).results,
            final(self).cursor == cursor_after(
                old(self).results@.len() as usize,
                old(self).cursor,
                input,
            ),
            action@ == effect_of(old(self).results@, old(self).cursor, input),
    {
        let key: Key = match input {
            Input::Resize { width, height } => {
                return BrowserAction::Redraw;
            },
            Input::Nothing => {
                return BrowserAction::Stay;
            },
            Input::Press(key) => key,
        };
        let len: usize = self.results.len();
        let before: usize = self.cursor;
        match key.code {
            KeyCode::Esc => {
                return BrowserAction::Exit;
            },
            _ => {},
        }
        if key.is_force_quit() {
            return BrowserAction::Quit;
        }
        match key.code {
            KeyCode::Enter => {
                if len > 0 {
                    return BrowserAction::Open(self.results[before].url());
                } else {
                    return BrowserAction::Stay;
                }
            },
            _ => {},
        }
        if len == 0 {
            return BrowserAction::Stay;
        }
        match key.code {
            KeyCode::Up => {
                self.cursor = if before == 0 { len - 1 } else { before - 1 };
            },
            KeyCode::Down => {
                self.cursor = if before == len - 1 { 0 } else { before + 1 };
            },
            _ => {
                match key.digit() {
                    Some(d) => {
                        if 1 <= d && len < DIGIT_JUMP_BOUND {
                            let target: usize = (d - 1) as usize;
                            self.cursor = if target < len - 1 { target } else { len - 1 };
                        }
                    },
                    None => {},
                }
            },
        }
        if self.cursor != before {
            BrowserAction::Redraw
        } else {
            BrowserAction::Stay
        }
    }

    /// Filters one terminal event and feeds what is left to the browser.
    pub fn on_event(&mut self, event: Event) -> (action: BrowserAction)
        requires
            old(self).wf(),
        ensures
            final(self).wf(),
            final(self).results == old(self).results,
            final(self).cursor == cursor_after(
                old(self).results@.len() as usize,
                old(self).cursor,
                filtered(event),
            ),
            action@ == effect_of(old(self).results@, old(self).cursor, filtered(event)),
    {
        self.handle(filter_event(event))
    }

    /// The records as they are drawn in a terminal `width` columns wide at
    /// the time `now`, in their order, the one under the cursor marked.
    pub fn rows(&self, width: u16, now: i64) -> (rows: Vec<ResultRow>)
        ensures
            drawn(rows@, self.results@, self.cursor, width, now),
    {
        let mut rows: Vec<ResultRow> = Vec::new();
        let mut i: usize = 0;
        while i < self.results.len()
            invariant
                i <= self.results.len(),
                rows@.len() == i,
                forall|j: int|
                    0 <= j < i ==> {
                        &&& (#[trigger] rows@[j]).title@ == shown_title(
                            self.results@[j].title,
                            width,
                        )
                        &&& rows@[j].info@ == shown_info(self.results@[j], now)
                        &&& rows@[j].highlighted == (j == self.cursor)
                    },
            decreases self.results.len() - i,
        {
            let record = &self.results[i];
            rows.push(
                ResultRow {
                    title: record.title_line(width),
                    info: record.info_line(now),
                    highlighted: i == self.cursor,
                },
            );
            i = i + 1;
        }
        rows
    }

    /// The records as they are drawn now, by the clock of this machine.
    pub fn rows_now(&self, width: u16) -> (rows: Vec<ResultRow>)
        ensures
            exists|now: i64| #[trigger] drawn(rows@, self.results@, self.cursor, width, now),
    {
        self.rows(width, unix_now())
    }
}

/// How a stretch of browsing ended.
#[derive(Clone, Copy, Debug, PartialEq, Eq, Structural)]
pub enum BrowseEnd {
    /// Escape: the user is done.
    Exited,
    /// Control-c: the forced way out.
    Quit,
    /// The events ran out: the browser waits for more.
    Active,
}

/// What a stretch of browsing did: the addresses it opened, in order, and
/// how it ended.
#[derive(Clone, Debug, PartialEq, Eq)]
pub struct Browsing {
    pub opened: Vec<String>,
    pub end: BrowseEnd,
}

/// The texts of a list of strings.
pub open spec fn string_texts(items: Seq<String>) -> Seq<Seq<char>> {
    Seq::new(items.len(), |i: int| items[i]@)
}

/// The addresses that browsing over `events` opens, in order: one for
/// each Enter before the first Escape or Control-c.
pub open spec fn opened_by(results: Seq<ResultRecord>, cursor: usize, events: Seq<Event>) -> Seq<
    Seq<char>,
>
    decreases events.len(),
{
    if events.len() == 0 {
        Seq::<Seq<char>>::empty()
    } else {
        let next = cursor_after(results.len() as usize, cursor, filtered(events[0]));
        match effect_of(results, cursor, filtered(events[0])) {
            BrowserEffect::Exit => Seq::<Seq<char>>::empty(),
            BrowserEffect::Quit => Seq::<Seq<char>>::empty(),
            BrowserEffect::Open(url) => seq![url] + opened_by(results, next, events.skip(1)),
            _ => opened_by(results, next, events.skip(1)),
        }
    }
}

/// How browsing over `events` ends.
pub open spec fn end_of(results: Seq<ResultRecord>, cursor: usize, events: Seq<Event>) -> BrowseEnd
    decreases events.len(),
{
    if events.len() == 0 {
        BrowseEnd::Active
    } else {
        let next = cursor_after(results.len() as usize, cursor, filtered(events[0]));
        match effect_of(results, cursor, filtered(events[0])) {
            BrowserEffect::Exit => BrowseEnd::Exited,
            BrowserEffect::Quit => BrowseEnd::Quit,
            _ => end_of(results, next, events.skip(1)),
        }
    }
}

/// Browses `results` over a stretch of terminal events, from the first
/// record on. Opening a record does not end the browsing.
pub fn results_interface(results: Vec<ResultRecord>, events: &Vec<Event>) -> (done: Browsing)
    ensures
        string_texts(done.opened@) == opened_by(results@, 0, events@),
        done.end == end_of(results@, 0, events@),
{
    let mut browser = ResultsBrowser::new(results);
    let mut opened: Vec<String> = Vec::new();
    let mut i: usize = 0;
    assert(events@.skip(0) =~= events@);
    assert(string_texts(opened@) =~= Seq::<Seq<char>>::empty());
    while i < events.len()
        invariant
            i <= events.len(),
            browser.wf(),
            browser.results == results,
            opened_by(results@, 0, events@) == string_texts(opened@) + opened_by(
                results@,
                browser.cursor,
                events@.skip(i as int),
            ),
            end_of(results@, 0, events@) == end_of(
                results@,
                browser.cursor,
                events@.skip(i as int),
            ),
        decreases events.len() - i,
    {
        let ghost rest = events@.skip(i as int);
        let ghost logged = string_texts(opened@);
        assert(rest[0] == events@[i as int]);
        assert(rest.skip(1) =~= events@.skip(i + 1));
        match browser.on_event(events[i]) {
            BrowserAction::Exit => {
                assert(logged + Seq::<Seq<char>>::empty() =~= logged);
                return Browsing { opened, end: BrowseEnd::Exited };
            },
            BrowserAction::Quit => {
                assert(logged + Seq::<Seq<char>>::empty() =~= logged);
                return Browsing { opened, end: BrowseEnd::Quit };
            },
            BrowserAction::Open(url) => {
                let ghost text = url@;
                opened.push(url);
                assert(string_texts(opened@) =~= logged + seq![text]);
                assert((logged + seq![text]) + opened_by(
                    results@,
                    browser.cursor,
                    events@.skip(i + 1),
                ) =~= logged + (seq![text] + opened_by(
                    results@,
                    browser.cursor,
                    events@.skip(i + 1),
                )));
            },
            _ => {},
        }
        i = i + 1;
    }
    assert(string_texts(opened@) + Seq::<Seq<char>>::empty() =~= string_texts(opened@));
    Browsing { opened, end: BrowseEnd::Active }
}

/// What follows an attempt to open a record: a failure is reported, and
/// browsing goes on either way.
pub fn after_open(opened: bool) -> (followup: OpenFollowup)
    ensures
        opened ==> followup == OpenFollowup::Continue,
        !opened ==> followup == OpenFollowup::ReportAndContinue,
{
    if opened {
        OpenFollowup::Continue
    } else {
        OpenFollowup::ReportAndContinue
    }
}

/// Whatever reaches the browser, the cursor stays on a record.
pub proof fn lemma_browser_cursor_in_range(len: usize, cursor: usize, input: Input)
    requires
        0 < len,
        cursor < len,
    ensures
        cursor_after(len, cursor, input) < len,
{
}

/// One Enter opens the record under the cursor exactly once, and the
/// browsing goes on.
pub proof fn lemma_enter_opens_once(results: Seq<ResultRecord>, cursor: usize, ctrl: bool)
    requires
        cursor < results.len(),
        results.len() <= usize::MAX,
    ensures
        opened_by(
            results,
            cursor,
            seq![
                Event::Key {
                    key: Key { code: KeyCode::Enter, ctrl },
                    kind: KeyKind::Press,
                },
            ],
        ) == seq![url_text(results[cursor as int].external_id@)],
        end_of(
            results,
            cursor,
            seq![
                Event::Key {
                    key: Key { code: KeyCode::Enter, ctrl },
                    kind: KeyKind::Press,
                },
            ],
        ) == BrowseEnd::Active,
{
    let enter = Event::Key {
        key: Key { code: KeyCode::Enter, ctrl },
        kind: KeyKind::Press,
    };
    let events = seq![enter];
    let url = url_text(results[cursor as int].external_id@);
    assert(events[0] == enter);
    assert(events.skip(1).len() == 0);
    assert(opened_by(results, cursor, events.skip(1)) == Seq::<Seq<char>>::empty());
    assert(end_of(results, cursor, events.skip(1)) == BrowseEnd::Active);
    assert(seq![url] + Seq::<Seq<char>>::empty() =~= seq![url]);
}

/// Enter opens the record under the cursor and moves nothing: the browser
/// is ready for the next input.
pub proof fn lemma_activation_keeps_browsing(
    results: Seq<ResultRecord>,
    cursor: usize,
    ctrl: bool,
)
    requires
        cursor < results.len(),
        results.len() <= usize::MAX,
    ensures
        effect_of(results, cursor, Input::Press(Key { code: KeyCode::Enter, ctrl }))
            == BrowserEffect::Open(url_text(results[cursor as int].external_id@)),
        cursor_after(
            results.len() as usize,
            cursor,
            Input::Press(Key { code: KeyCode::Enter, ctrl }),
        ) == cursor,
{
}

} // verus!
