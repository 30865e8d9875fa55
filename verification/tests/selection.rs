use undiscovered_yt::input::{filter_event, Event, Input, Key, KeyCode, KeyKind};
use undiscovered_yt::questions::discovery_type;
use undiscovered_yt::discover::Discovery;
use undiscovered_yt::select::{MenuAction, MenuState, Outcome};

fn press(code: KeyCode) -> Event {
    Event::Key { key: Key::plain(code), kind: KeyKind::Press }
}

#[test]
fn menu_needs_an_option() {
    assert_eq!(MenuState::new(0), None);
    assert_eq!(MenuState::new(3), Some(MenuState { len: 3, cursor: 0 }));
}

#[test]
fn up_on_first_wraps_to_last() {
    let mut menu = MenuState::new(4).unwrap();
    assert_eq!(menu.press(Key::plain(KeyCode::Up)), MenuAction::Redraw);
    assert_eq!(menu.cursor, 3);
}

#[test]
fn down_on_last_wraps_to_first() {
    let mut menu = MenuState { len: 4, cursor: 3 };
    assert_eq!(menu.press(Key::plain(KeyCode::Down)), MenuAction::Redraw);
    assert_eq!(menu.cursor, 0);
}

#[test]
fn cursor_stays_in_range_over_long_walks() {
    for len in 1..7usize {
        let mut menu = MenuState::new(len).unwrap();
        for step in 0..50usize {
            let code = if step % 3 == 0 { KeyCode::Up } else { KeyCode::Down };
            menu.press(Key::plain(code));
            assert!(menu.cursor < len);
            assert_eq!(menu.len, len);
        }
    }
}

#[test]
fn single_option_never_redraws() {
    let mut menu = MenuState::new(1).unwrap();
    assert_eq!(menu.press(Key::plain(KeyCode::Up)), MenuAction::Stay);
    assert_eq!(menu.press(Key::plain(KeyCode::Down)), MenuAction::Stay);
    assert_eq!(menu.cursor, 0);
}

#[test]
fn digit_jumps_wherever_the_cursor_was() {
    for start in 0..4usize {
        for d in 1..=4u8 {
            let mut menu = MenuState { len: 4, cursor: start };
            menu.press(Key::plain(KeyCode::Char((b'0' + d) as char)));
            assert_eq!(menu.cursor, (d - 1) as usize);
        }
    }
}

#[test]
fn digit_beyond_the_list_is_ignored() {
    let mut menu = MenuState { len: 4, cursor: 2 };
    assert_eq!(menu.press(Key::plain(KeyCode::Char('5'))), MenuAction::Stay);
    assert_eq!(menu.cursor, 2);
    assert_eq!(menu.press(Key::plain(KeyCode::Char('0'))), MenuAction::Stay);
    assert_eq!(menu.cursor, 2);
}

#[test]
fn digits_are_ignored_in_long_lists() {
    let mut menu = MenuState { len: 10, cursor: 4 };
    assert_eq!(menu.press(Key::plain(KeyCode::Char('2'))), MenuAction::Stay);
    assert_eq!(menu.cursor, 4);
    assert!(!menu.jump(2));
    let mut nine = MenuState { len: 9, cursor: 4 };
    assert!(nine.jump(9));
    assert_eq!(nine.cursor, 8);
}

#[test]
fn jump_to_current_option_does_not_redraw() {
    let mut menu = MenuState { len: 4, cursor: 0 };
    assert_eq!(menu.press(Key::plain(KeyCode::Char('1'))), MenuAction::Stay);
}

#[test]
fn enter_confirms_the_cursor() {
    let mut menu = MenuState { len: 4, cursor: 1 };
    assert_eq!(menu.press(Key::plain(KeyCode::Enter)), MenuAction::Confirm(1));
    assert_eq!(menu.cursor, 1);
}

#[test]
fn escape_and_control_c_cancel() {
    let mut menu = MenuState { len: 4, cursor: 1 };
    assert_eq!(menu.press(Key::plain(KeyCode::Esc)), MenuAction::Cancel);
    assert_eq!(menu.press(Key::with_ctrl(KeyCode::Char('c'))), MenuAction::Cancel);
    assert_eq!(menu.press(Key::plain(KeyCode::Char('c'))), MenuAction::Stay);
    assert_eq!(menu.cursor, 1);
}

#[test]
fn other_keys_do_nothing() {
    let mut menu = MenuState { len: 4, cursor: 1 };
    assert_eq!(menu.press(Key::plain(KeyCode::Other)), MenuAction::Stay);
    assert_eq!(menu.press(Key::plain(KeyCode::Backspace)), MenuAction::Stay);
    assert_eq!(menu.press(Key::plain(KeyCode::Char('x'))), MenuAction::Stay);
    assert_eq!(menu.cursor, 1);
}

#[test]
fn repeats_and_releases_are_filtered() {
    let key = Key::plain(KeyCode::Down);
    assert_eq!(filter_event(Event::Key { key, kind: KeyKind::Press }), Input::Press(key));
    assert_eq!(filter_event(Event::Key { key, kind: KeyKind::Repeat }), Input::Nothing);
    assert_eq!(filter_event(Event::Key { key, kind: KeyKind::Release }), Input::Nothing);
    assert_eq!(filter_event(Event::Other), Input::Nothing);
    assert_eq!(
        filter_event(Event::Resize { width: 80, height: 24 }),
        Input::Resize { width: 80, height: 24 }
    );
}

#[test]
fn key_digit_reads_only_digits() {
    assert_eq!(Key::plain(KeyCode::Char('0')).digit(), Some(0));
    assert_eq!(Key::plain(KeyCode::Char('9')).digit(), Some(9));
    assert_eq!(Key::plain(KeyCode::Char('a')).digit(), None);
    assert_eq!(Key::plain(KeyCode::Enter).digit(), None);
    assert!(Key::plain(KeyCode::Esc).is_cancel());
    assert!(Key::with_ctrl(KeyCode::Char('c')).is_force_quit());
    assert!(!Key::plain(KeyCode::Esc).is_force_quit());
}

#[test]
fn menu_over_items_and_starting_places() {
    assert_eq!(MenuState::over(&Vec::<String>::new()), None);
    assert_eq!(MenuState::over(&vec!["a", "b"]), Some(MenuState { len: 2, cursor: 0 }));
    assert_eq!(MenuState::starting_at(3, 2), Some(MenuState { len: 3, cursor: 2 }));
    assert_eq!(MenuState::starting_at(3, 3), None);
    assert_eq!(MenuState::starting_at(0, 0), None);
    assert!(MenuState { len: 3, cursor: 2 }.is_valid());
    assert!(!MenuState { len: 3, cursor: 3 }.is_valid());
    assert!(!MenuState { len: 0, cursor: 0 }.is_valid());
}

#[test]
fn down_down_enter_picks_smartphone() {
    let items = vec!["Webcam", "Pc", "Smartphone", "Misc"];
    let events = vec![press(KeyCode::Down), press(KeyCode::Down), press(KeyCode::Enter)];
    assert_eq!(MenuState::over(&items).unwrap().run(&events), Outcome::Resolved(2));
    assert_eq!(items[2], "Smartphone");
    assert_eq!(MenuState::new(4).unwrap().run(&events), Outcome::Resolved(2));
    assert_eq!(discovery_type(&events), Outcome::Resolved(Discovery::SmartPhone));
    assert_eq!(Discovery::SmartPhone.label(), "Smartphone");
}

#[test]
fn menu_run_ignores_releases_and_resizes() {
    let down = Key::plain(KeyCode::Down);
    let events = vec![
        Event::Key { key: down, kind: KeyKind::Release },
        Event::Resize { width: 10, height: 10 },
        press(KeyCode::Down),
        Event::Key { key: down, kind: KeyKind::Repeat },
        press(KeyCode::Enter),
    ];
    assert_eq!(MenuState::new(4).unwrap().run(&events), Outcome::Resolved(1));
}

#[test]
fn menu_run_cancels_and_runs_dry() {
    let events = vec![press(KeyCode::Down), press(KeyCode::Esc), press(KeyCode::Enter)];
    assert_eq!(MenuState::new(4).unwrap().run(&events), Outcome::Cancelled);
    assert_eq!(discovery_type(&events), Outcome::Cancelled);
    let dry = vec![press(KeyCode::Down)];
    assert_eq!(MenuState::new(4).unwrap().run(&dry), Outcome::Pending);
    assert_eq!(discovery_type(&Vec::new()), Outcome::Pending);
}
