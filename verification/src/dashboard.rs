//! The state of the tabbed dashboard: which category tab is open and
//! whether a search is on its way.

use vstd::prelude::*;
use crate::config::Config;
use crate::discover::Discovery;
use crate::input::{Key, KeyCode};
use crate::results::ResultRecord;

verus! {

/// The dashboard: its settings, the open tab, the results shown, and
/// whether a search is running in the background.
#[derive(Clone, Debug, PartialEq, Eq)]
pub struct App {
    pub config: Config,
    pub tab: usize,
    pub results: Vec<ResultRecord>,
    pub fetching: bool,
}

/// What the surrounding loop has to do after a key reached the dashboard.
#[derive(Clone, Copy, Debug, PartialEq, Eq, Structural)]
pub enum AppAction {
    /// Nothing to do but draw and read on.
    Stay,
    /// Start a search for this category in the background.
    Fetch(Discovery),
    /// A search is still running: the new one is turned down.
    Busy,
    /// Leave the dashboard.
    Quit,
}

/// How a piece of the footer is set.
#[derive(Clone, Copy, Debug, PartialEq, Eq, Structural)]
pub enum FooterStyle {
    /// The name of a key: bold and dimmed.
    KeyName,
    /// The blank between a key and what it does.
    Plain,
    /// What a key does, and the dots between the entries: dimmed.
    Dim,
}

/// One piece of the footer line.
#[derive(Clone, Copy, Debug, PartialEq, Eq)]
pub struct FooterSpan {
    pub text: &'static str,
    pub style: FooterStyle,
}

/// The pieces for one key and what it does.
pub open spec fn entry_spans(bind: (&'static str, &'static str)) -> Seq<FooterSpan> {
    seq![
        FooterSpan { text: bind.0, style: FooterStyle::KeyName },
        FooterSpan { text: " ", style: FooterStyle::Plain },
        FooterSpan { text: bind.1, style: FooterStyle::Dim },
    ]
}

/// The pieces of a footer: each key with what it does, a dot between each two.
pub open spec fn footer_of(binds: Seq<(&'static str, &'static str)>) -> Seq<FooterSpan>
    decreases binds.len(),
{
    if binds.len() == 0 {
        Seq::<FooterSpan>::empty()
    } else if binds.len() == 1 {
        entry_spans(binds[0])
    } else {
        footer_of(binds.drop_last()) + seq![FooterSpan { text: " • ", style: FooterStyle::Dim }]
            + entry_spans(binds.last())
    }
}

/// The keys the dashboard answers to, with what each does.
pub fn keybinds() -> (binds: Vec<(&'static str, &'static str)>)
    ensures
        binds@ == seq![
            ("1/2/3/4", "select discovery"),
            ("r", "refresh"),
            ("k", "api key"),
            ("esc", "close app"),
        ],
{
    let binds = vec![
        ("1/2/3/4", "select discovery"),
        ("r", "refresh"),
        ("k", "api key"),
        ("esc", "close app"),
    ];
    assert(binds@ =~= seq![
        ("1/2/3/4", "select discovery"),
        ("r", "refresh"),
        ("k", "api key"),
        ("esc", "close app"),
    ]);
    binds
}

/// Lays out the footer line for a list of keys.
pub fn footer_spans(binds: &Vec<(&'static str, &'static str)>) -> (spans: Vec<FooterSpan>)
    ensures
        spans@ == footer_of(binds@),
{
    let mut spans: Vec<FooterSpan> = Vec::new();
    let mut i: usize = 0;
    assert(binds@.take(0) =~= Seq::<(&'static str, &'static str)>::empty());
    while i < binds.len()
        invariant
            i <= binds.len(),
            spans@ == footer_of(binds@.take(i as int)),
        decreases binds.len() - i,
    {
        let ghost before = spans@;
        if i > 0 {
            spans.push(FooterSpan { text: " • ", style: FooterStyle::Dim });
        }
        let bind = binds[i];
        spans.push(FooterSpan { text: bind.0, style: FooterStyle::KeyName });
        spans.push(FooterSpan { text: " ", style: FooterStyle::Plain });
        spans.push(FooterSpan { text: bind.1, style: FooterStyle::Dim });
        proof {
            let next = binds@.take(i + 1);
            assert(next.drop_last() =~= binds@.take(i as int));
            assert(next.last() == bind);
            if i == 0 {
                assert(spans@ =~= entry_spans(bind));
            } else {
                assert(spans@ =~= before + seq![FooterSpan { text: " • ", style: FooterStyle::Dim }]
                    + entry_spans(bind));
            }
        }
        i = i + 1;
    }
    assert(binds@.take(i as int) =~= binds@);
    spans
}

/// Whether a key that arrives between two drawings leaves the dashboard.
pub fn quits_between_drawings(key: Key) -> (b: bool)
    ensures
        b == (key.code == KeyCode::Char('q')),
{
    match key.code {
        KeyCode::Char(c) => c == 'q',
        _ => false,
    }
}

/// The tab a key opens, if it opens one.
pub open spec fn tab_of(key: Key) -> Option<usize> {
    match key.digit_value() {
        Some(d) => if 1 <= d && d <= Discovery::VARIANT_COUNT {
            Some((d - 1) as usize)
        } else {
            None
        },
        None => None,
    }
}

/// Whether a key leaves the dashboard.
pub open spec fn quits(key: Key) -> bool {
    key.code == KeyCode::Esc || key.code == KeyCode::Char('q')
}

impl App {
    /// The open tab is one of the categories.
    pub open spec fn wf(&self) -> bool {
        self.tab < Discovery::VARIANT_COUNT
    }

    /// The tab after a key.
    pub open spec fn tab_after(&self, key: Key) -> usize {
        if quits(key) {
            self.tab
        } else {
            match tab_of(key) {
                Some(tab) => tab,
                None => self.tab,
            }
        }
    }

    /// The action a key asks for: at most one search runs at a time.
    pub open spec fn action(&self, key: Key) -> AppAction {
        if quits(key) {
            AppAction::Quit
        } else {
            match tab_of(key) {
                Some(tab) => if self.fetching {
                    AppAction::Busy
                } else {
                    AppAction::Fetch(Discovery::of_index(tab))
                },
                None => AppAction::Stay,
            }
        }
    }

    /// Whether the open tab is one of the categories.
    pub fn is_valid(&self) -> (b: bool)
        ensures
            b == self.wf(),
    {
        self.tab < Discovery::VARIANT_COUNT
    }

    /// A dashboard with these settings: first tab, no results, no search running.
    pub fn new(config: Config) -> (app: App)
        ensures
            app.wf(),
            app.config == config,
            app.tab == 0,
            app.results@.len() == 0,
            !app.fetching,
    {
        App { config, tab: 0, results: Vec::new(), fetching: false }
    }

    /// Feeds one key to the dashboard. A digit opens its tab and starts a
    /// search for its category, unless one is running already.
    pub fn on_key(&mut self, key: Key) -> (action: AppAction)
        requires
            old(self).wf(),
        ensures
            final(self).wf(),
            final(self).tab == old(self).tab_after(key),
            action == old(self).action(key),
            final(self).fetching == (old(self).fetching || action is Fetch),
            final(self).config == old(self).config,
            final(self).results == old(self).results,
    {
        match key.code {
            KeyCode::Esc => {
                return AppAction::Quit;
            },
            KeyCode::Char(c) => {
                if c == 'q' {
                    return AppAction::Quit;
                }
            },
            _ => {},
        }
        match key.digit() {
            Some(d) => {
                if 1 <= d && (d as usize) <= Discovery::VARIANT_COUNT {
                    let tab: usize = (d - 1) as usize;
                    self.tab = tab;
                    if self.fetching {
                        AppAction::Busy
                    } else {
                        self.fetching = true;
                        AppAction::Fetch(Discovery::from_index(tab))
                    }
                } else {
                    AppAction::Stay
                }
            },
            None => AppAction::Stay,
        }
    }

    /// The background search has failed: what is shown stays, and the next
    /// search may start.
    pub fn fetch_failed(&mut self)
        ensures
            final(self).results == old(self).results,
            !final(self).fetching,
            final(self).tab == old(self).tab,
            final(self).config == old(self).config,
    {
        self.fetching = false;
    }

    /// The background search has ended with these records: they are added
    /// after the ones shown, and the next search may start.
    pub fn fetch_finished(&mut self, found: Vec<ResultRecord>)
        ensures
            final(self).results@ == old(self).results@ + found@,
            !final(self).fetching,
            final(self).tab == old(self).tab,
            final(self).config == old(self).config,
    {
        let mut found = found;
        self.results.append(&mut found);
        self.fetching = false;
    }
}

/// While a search is running, no key starts another.
pub proof fn lemma_single_flight(app: App, key: Key)
    requires
        app.fetching,
    ensures
        !(app.action(key) is Fetch),
{
}

} // verus!
