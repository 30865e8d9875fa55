use undiscovered_yt::config::Config;
use undiscovered_yt::dashboard::{App, AppAction};
use undiscovered_yt::discover::{Discovery, Extra};
use undiscovered_yt::entry::ParseError;
use undiscovered_yt::input::{Event, Key, KeyCode, KeyKind};
use undiscovered_yt::redraw::{entry_collapse, entry_redraw, list_lines, Directive, RedrawController};
use undiscovered_yt::results::ResultRecord;
use undiscovered_yt::sequencer::{extras_from, QuerySpec, Sequencer, SequencerAction};

fn press(code: KeyCode) -> Event {
    Event::Key { key: Key::plain(code), kind: KeyKind::Press }
}

#[test]
fn three_prompts_make_a_query() {
    let events = vec![
        press(KeyCode::Down),
        press(KeyCode::Down),
        press(KeyCode::Enter),
        press(KeyCode::Char(' ')),
        press(KeyCode::Enter),
        press(KeyCode::Backspace),
        press(KeyCode::Char('2')),
        press(KeyCode::Char('0')),
        press(KeyCode::Enter),
    ];
    let end = Sequencer::new().run(&events);
    let expected = QuerySpec {
        category: Discovery::SmartPhone,
        modifiers: vec![Extra::Date],
        count: 20,
    };
    assert_eq!(end.query(), Some(&expected));
    assert_eq!(end, Sequencer::Done(expected));
}

#[test]
fn sequencer_reports_each_step() {
    let s = Sequencer::new();
    assert_eq!(s.query(), None);
    let (s, a) = s.step(Key::plain(KeyCode::Down));
    assert_eq!(a, SequencerAction::Redraw);
    let (s, a) = s.step(Key::plain(KeyCode::Char('x')));
    assert_eq!(a, SequencerAction::Stay);
    let (s, a) = s.step(Key::plain(KeyCode::Enter));
    assert_eq!(a, SequencerAction::Advance);
    assert!(matches!(s, Sequencer::Modifiers(Discovery::Pc, _)));
    let (s, a) = s.step(Key::plain(KeyCode::Enter));
    assert_eq!(a, SequencerAction::Advance);
    assert!(matches!(s, Sequencer::Count(Discovery::Pc, _, _)));
    let (s, a) = s.step(Key::plain(KeyCode::Enter));
    assert_eq!(a, SequencerAction::Finish);
    assert_eq!(
        s,
        Sequencer::Done(QuerySpec { category: Discovery::Pc, modifiers: Vec::new(), count: 5 })
    );
    let (s, a) = s.step(Key::plain(KeyCode::Esc));
    assert_eq!(a, SequencerAction::Stay);
    assert!(s.query().is_some());
}

#[test]
fn cancelling_any_prompt_ends_the_sequence() {
    let cancels = vec![Key::plain(KeyCode::Esc), Key::with_ctrl(KeyCode::Char('c'))];
    for cancel in cancels {
        for confirmed in 0..3usize {
            let mut s = Sequencer::new();
            for _ in 0..confirmed {
                s = s.step(Key::plain(KeyCode::Enter)).0;
            }
            let (s, a) = s.step(cancel);
            assert_eq!(a, SequencerAction::Cancel);
            assert_eq!(s, Sequencer::Cancelled);
            let later = vec![press(KeyCode::Enter), press(KeyCode::Enter), press(KeyCode::Enter)];
            let end = s.run(&later);
            assert_eq!(end, Sequencer::Cancelled);
            assert_eq!(end.query(), None);
        }
    }
}

#[test]
fn empty_count_fails_the_sequence() {
    let events = vec![
        press(KeyCode::Enter),
        press(KeyCode::Enter),
        press(KeyCode::Backspace),
        press(KeyCode::Enter),
        press(KeyCode::Char('3')),
        press(KeyCode::Enter),
    ];
    let end = Sequencer::new().run(&events);
    assert_eq!(end, Sequencer::Failed(ParseError::Empty));
    let (end, action) = Sequencer::new()
        .run(&events[..3].to_vec())
        .on_event(press(KeyCode::Enter));
    assert_eq!(action, SequencerAction::Fail);
    assert_eq!(end.query(), None);
}

#[test]
fn sequencer_ignores_what_is_no_press() {
    let (s, a) = Sequencer::new().on_event(Event::Resize { width: 1, height: 1 });
    assert_eq!(a, SequencerAction::Stay);
    let (s, a) = s.on_event(Event::Key { key: Key::plain(KeyCode::Enter), kind: KeyKind::Release });
    assert_eq!(a, SequencerAction::Stay);
    assert_eq!(s, Sequencer::new());
}

#[test]
fn sequencer_plans_its_drawings() {
    let mut controller = RedrawController::new();
    let s = Sequencer::new();
    assert_eq!(s.begin_drawing(&mut controller), Vec::new());
    assert_eq!(controller.drawn, Some(4));
    let (s, _) = s.step(Key::plain(KeyCode::Down));
    assert_eq!(
        s.begin_drawing(&mut controller),
        vec![Directive::MoveUp(4), Directive::ClearBelow]
    );
    let (s, _) = s.step(Key::plain(KeyCode::Enter));
    assert_eq!(
        s.collapse_resolved(&mut controller),
        vec![Directive::MoveUp(5), Directive::ClearBelow]
    );
    assert_eq!(controller.drawn, None);
    assert_eq!(s.begin_drawing(&mut controller), Vec::new());
    assert_eq!(controller.drawn, Some(3));
    let (s, _) = s.step(Key::plain(KeyCode::Enter));
    assert_eq!(
        s.collapse_resolved(&mut controller),
        vec![Directive::MoveUp(4), Directive::ClearBelow]
    );
    assert_eq!(s.begin_drawing(&mut controller), Vec::new());
    assert_eq!(controller.drawn, Some(1));
    let (s, _) = s.step(Key::plain(KeyCode::Char('1')));
    assert_eq!(
        s.begin_drawing(&mut controller),
        vec![Directive::SavePosition, Directive::ClearLine, Directive::MoveLeft(100)]
    );
    let (s, _) = s.step(Key::plain(KeyCode::Enter));
    assert_eq!(
        s.collapse_resolved(&mut controller),
        vec![
            Directive::HideCursor,
            Directive::MoveLeft(100),
            Directive::MoveUp(1),
            Directive::ClearBelow
        ]
    );
    assert_eq!(controller.drawn, None);
    assert_eq!(s.begin_drawing(&mut controller), Vec::new());
    assert_eq!(Sequencer::Cancelled.collapse_resolved(&mut controller), Vec::new());
    assert_eq!(controller.drawn, None);
}

#[test]
fn parse_errors_in_words() {
    assert_eq!(ParseError::Empty.message(), "cannot parse integer from empty string");
    assert_eq!(ParseError::NotANumber.message(), "invalid digit found in string");
}

#[test]
fn extras_follow_their_places() {
    assert_eq!(extras_from(&vec![2, 0, 1]), vec![Extra::Other2, Extra::Date, Extra::Other]);
    assert_eq!(extras_from(&Vec::new()), Vec::new());
}

#[test]
fn first_drawing_erases_nothing() {
    let mut controller = RedrawController::new();
    assert_eq!(controller.begin(4), Vec::new());
    assert_eq!(controller.begin(4), vec![Directive::MoveUp(4), Directive::ClearBelow]);
    assert_eq!(controller.begin(9), vec![Directive::MoveUp(4), Directive::ClearBelow]);
    assert_eq!(controller.begin(9), vec![Directive::MoveUp(9), Directive::ClearBelow]);
}

#[test]
fn collapse_takes_the_question_too() {
    let mut controller = RedrawController::new();
    controller.begin(list_lines(4));
    assert_eq!(controller.collapse(1), vec![Directive::MoveUp(5), Directive::ClearBelow]);
    assert_eq!(controller.drawn, None);
    assert_eq!(controller.begin(3), Vec::new());
    let mut tall = RedrawController { drawn: Some(65535) };
    assert_eq!(tall.collapse(1), vec![Directive::MoveUp(65535), Directive::ClearBelow]);
    let mut fresh = RedrawController::new();
    assert_eq!(fresh.collapse(1), vec![Directive::MoveUp(1), Directive::ClearBelow]);
}

#[test]
fn list_lines_count_the_options() {
    assert_eq!(list_lines(0), 0);
    assert_eq!(list_lines(4), 4);
    assert_eq!(list_lines(65535), 65535);
    assert_eq!(list_lines(70000), 65535);
}

#[test]
fn entry_line_is_cleared_from_the_second_drawing_on() {
    let mut controller = RedrawController::new();
    assert_eq!(controller.begin_line(), Vec::new());
    assert_eq!(controller.drawn, Some(1));
    assert_eq!(
        controller.begin_line(),
        vec![Directive::SavePosition, Directive::ClearLine, Directive::MoveLeft(100)]
    );
    assert_eq!(
        controller.collapse_line(),
        vec![
            Directive::HideCursor,
            Directive::MoveLeft(100),
            Directive::MoveUp(1),
            Directive::ClearBelow
        ]
    );
    assert_eq!(controller.drawn, None);
}

#[test]
fn entry_line_is_redrawn_in_place() {
    assert_eq!(
        entry_redraw(),
        vec![Directive::SavePosition, Directive::ClearLine, Directive::MoveLeft(100)]
    );
    assert_eq!(
        entry_collapse(),
        vec![
            Directive::HideCursor,
            Directive::MoveLeft(100),
            Directive::MoveUp(1),
            Directive::ClearBelow
        ]
    );
}

#[test]
fn config_defaults() {
    let config = Config::default();
    assert_eq!(config.api_key, "");
    assert!(config.title_text);
    assert!(!config.has_api_key());
    let keyed = config.with_api_key("abc".to_string());
    assert_eq!(keyed.api_key, "abc");
    assert!(keyed.title_text);
    assert!(keyed.has_api_key());
}

#[test]
fn dashboard_runs_one_search_at_a_time() {
    let mut app = App::new(Config::default());
    assert_eq!(app.tab, 0);
    assert!(!app.fetching);
    assert_eq!(app.on_key(Key::plain(KeyCode::Char('3'))), AppAction::Fetch(Discovery::SmartPhone));
    assert_eq!(app.tab, 2);
    assert!(app.fetching);
    assert_eq!(app.on_key(Key::plain(KeyCode::Char('1'))), AppAction::Busy);
    assert_eq!(app.tab, 0);
    assert!(app.fetching);
    let found = vec![ResultRecord {
        title: None,
        channel: None,
        published_at: None,
        external_id: "x".to_string(),
    }];
    app.fetch_finished(found.clone());
    assert!(!app.fetching);
    assert_eq!(app.results, found);
    assert_eq!(app.on_key(Key::plain(KeyCode::Char('4'))), AppAction::Fetch(Discovery::Misc));
    app.fetch_finished(found.clone());
    assert_eq!(app.results.len(), 2);
}

#[test]
fn failed_search_frees_the_dashboard() {
    let mut app = App::new(Config::default());
    assert!(app.is_valid());
    app.on_key(Key::plain(KeyCode::Char('2')));
    assert!(app.fetching);
    app.fetch_failed();
    assert!(!app.fetching);
    assert!(app.results.is_empty());
    assert_eq!(app.tab, 1);
    app.tab = 4;
    assert!(!app.is_valid());
}

#[test]
fn sequencer_validity_is_checked() {
    assert!(Sequencer::new().is_valid());
    assert!(Sequencer::Cancelled.is_valid());
    assert!(!Sequencer::Category(undiscovered_yt::select::MenuState { len: 5, cursor: 0 }).is_valid());
    let (s, _) = Sequencer::new().step(Key::plain(KeyCode::Enter));
    assert!(s.is_valid());
    let (s, _) = s.step(Key::plain(KeyCode::Enter));
    assert!(s.is_valid());
}

#[test]
fn dashboard_quits_and_ignores() {
    let mut app = App::new(Config::default());
    assert_eq!(app.on_key(Key::plain(KeyCode::Char('q'))), AppAction::Quit);
    assert_eq!(app.on_key(Key::plain(KeyCode::Esc)), AppAction::Quit);
    assert_eq!(app.on_key(Key::plain(KeyCode::Char('5'))), AppAction::Stay);
    assert_eq!(app.on_key(Key::plain(KeyCode::Char('0'))), AppAction::Stay);
    assert_eq!(app.on_key(Key::plain(KeyCode::Up)), AppAction::Stay);
    assert_eq!(app.tab, 0);
    assert!(!app.fetching);
}
