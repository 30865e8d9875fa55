use undiscovered_yt::discover::Extra;
use undiscovered_yt::input::{Event, Key, KeyCode, KeyKind};
use undiscovered_yt::multi::{MultiAction, MultiSelectState};
use undiscovered_yt::questions::{extras_answer, extras_list};
use undiscovered_yt::select::Outcome;

fn press(code: KeyCode) -> Event {
    Event::Key { key: Key::plain(code), kind: KeyKind::Press }
}

#[test]
fn checklist_starts_empty() {
    assert_eq!(MultiSelectState::new(0), None);
    let list = MultiSelectState::new(3).unwrap();
    assert_eq!(list.menu.cursor, 0);
    assert_eq!(list.menu.len, 3);
    assert!(list.selected.is_empty());
}

#[test]
fn space_ticks_without_moving() {
    let mut list = MultiSelectState::new(3).unwrap();
    list.press(Key::plain(KeyCode::Down));
    assert_eq!(list.press(Key::plain(KeyCode::Char(' '))), MultiAction::Redraw);
    assert_eq!(list.selected, vec![1]);
    assert_eq!(list.menu.cursor, 1);
    assert!(list.is_selected(1));
    assert!(!list.is_selected(0));
}

#[test]
fn space_twice_restores_selection() {
    for cursor in 0..3usize {
        let mut list = MultiSelectState::new(3).unwrap();
        list.menu.cursor = cursor;
        let before = list.clone();
        list.press(Key::plain(KeyCode::Char(' ')));
        assert_ne!(list, before);
        list.press(Key::plain(KeyCode::Char(' ')));
        assert_eq!(list, before);
    }
}

#[test]
fn ticks_keep_their_order() {
    let mut list = MultiSelectState::new(3).unwrap();
    list.press(Key::plain(KeyCode::Up));
    list.press(Key::plain(KeyCode::Char(' ')));
    list.press(Key::plain(KeyCode::Char('1')));
    list.press(Key::plain(KeyCode::Char(' ')));
    list.press(Key::plain(KeyCode::Down));
    list.press(Key::plain(KeyCode::Char(' ')));
    assert_eq!(list.selected, vec![2, 0, 1]);
    list.press(Key::plain(KeyCode::Up));
    list.press(Key::plain(KeyCode::Char(' ')));
    assert_eq!(list.selected, vec![2, 1]);
}

#[test]
fn enter_with_nothing_ticked_is_an_answer() {
    let events = vec![press(KeyCode::Enter)];
    assert_eq!(MultiSelectState::new(3).unwrap().run(&events), Outcome::Resolved(Vec::new()));
    assert_eq!(extras_list(&events), Outcome::Resolved(Vec::new()));
    let walked = vec![press(KeyCode::Down), press(KeyCode::Up), press(KeyCode::Enter)];
    assert_eq!(extras_list(&walked), Outcome::Resolved(Vec::new()));
}

#[test]
fn checklist_validity_is_checked() {
    let mut list = MultiSelectState::new(3).unwrap();
    assert!(list.is_valid());
    list.selected = vec![2, 0];
    assert!(list.is_valid());
    list.selected = vec![2, 0, 2];
    assert!(!list.is_valid());
    list.selected = vec![3];
    assert!(!list.is_valid());
    list.selected = Vec::new();
    list.menu.cursor = 3;
    assert!(!list.is_valid());
    assert_eq!(MultiSelectState::over(&Vec::<u8>::new()), None);
}

#[test]
fn space_then_enter_on_one_item() {
    let events = vec![press(KeyCode::Char(' ')), press(KeyCode::Enter)];
    assert_eq!(MultiSelectState::over(&vec!["Date"]).unwrap().run(&events), Outcome::Resolved(vec![0]));
    assert_eq!(MultiSelectState::new(1).unwrap().run(&events), Outcome::Resolved(vec![0]));
    assert_eq!(extras_list(&events), Outcome::Resolved(vec![Extra::Date]));
}

#[test]
fn checklist_cancels() {
    let events = vec![press(KeyCode::Char(' ')), press(KeyCode::Esc), press(KeyCode::Enter)];
    assert_eq!(extras_list(&events), Outcome::Cancelled);
    let ctrl_c = vec![Event::Key {
        key: Key::with_ctrl(KeyCode::Char('c')),
        kind: KeyKind::Press,
    }];
    assert_eq!(extras_list(&ctrl_c), Outcome::Cancelled);
    assert_eq!(extras_list(&vec![press(KeyCode::Char(' '))]), Outcome::Pending);
}

#[test]
fn checklist_digit_jump_and_wrap() {
    let mut list = MultiSelectState::new(3).unwrap();
    assert_eq!(list.press(Key::plain(KeyCode::Char('3'))), MultiAction::Redraw);
    assert_eq!(list.menu.cursor, 2);
    assert_eq!(list.press(Key::plain(KeyCode::Down)), MultiAction::Redraw);
    assert_eq!(list.menu.cursor, 0);
    assert_eq!(list.press(Key::plain(KeyCode::Char('1'))), MultiAction::Stay);
    assert_eq!(list.press(Key::plain(KeyCode::Enter)), MultiAction::Confirm);
    assert_eq!(list.press(Key::plain(KeyCode::Esc)), MultiAction::Cancel);
}

#[test]
fn extras_answer_joins_names() {
    assert_eq!(extras_answer(&Vec::new()), "None");
    assert_eq!(extras_answer(&vec![Extra::Date]), "Date");
    assert_eq!(extras_answer(&vec![Extra::Other2, Extra::Date, Extra::Other]), "Other2, Date, Other");
}
