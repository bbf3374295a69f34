use nitidus::account_config::{AccountConfig, AccountSlot};
use nitidus::composite::Node;
use nitidus::dispatch::DispatchLoop;
use nitidus::fields::TextField;
use nitidus::key::{KeyCode, KeyEvent, KeyEventKind};
use nitidus::slots::FocusPolicy;
use nitidus::surface::{Rect, Scene};

fn running() -> DispatchLoop<AccountConfig> {
    DispatchLoop::new(AccountConfig::with_mail_directory(
        FocusPolicy::BoundedCycling,
        "/home/me/Mail".to_string(),
    ))
}

fn account_name(app: &DispatchLoop<AccountConfig>) -> String {
    match app.root().as_composite().slot(0).node() {
        Node::Text(field) => field.value().to_string(),
        _ => panic!("slot 0 holds the account name"),
    }
}

#[test]
fn the_loop_starts_running_with_the_root_in_focus() {
    let app = running();
    assert!(app.is_running());
    assert!(app.root().as_composite().is_focused());
    assert_eq!(app.root().focused_slot(), Some(AccountSlot::AccountName));
}

#[test]
fn a_press_goes_to_the_root() {
    let mut app = running();
    app.handle_key_event(KeyEvent::press(KeyCode::Char('w')));
    app.handle_key_event(KeyEvent::press(KeyCode::Char('k')));
    assert_eq!(account_name(&app), "wk");
    app.handle_key_event(KeyEvent::press(KeyCode::Tab));
    assert_eq!(app.root().focused_slot(), Some(AccountSlot::Email));
    assert!(app.is_running());
}

#[test]
fn releases_and_repeats_are_not_dispatched() {
    let mut app = running();
    for kind in [KeyEventKind::Release, KeyEventKind::Repeat] {
        app.handle_key_event(KeyEvent::new(KeyCode::Char('w'), kind));
        app.handle_key_event(KeyEvent::new(KeyCode::Tab, kind));
        app.handle_key_event(KeyEvent::new(KeyCode::Esc, kind));
    }
    assert_eq!(account_name(&app), "");
    assert_eq!(app.root().focused_slot(), Some(AccountSlot::AccountName));
    assert!(app.is_running());
}

#[test]
fn an_unconsumed_key_is_dropped_at_the_top() {
    let mut app = running();
    let before = format!("{:?}", app.root());
    app.handle_key_event(KeyEvent::press(KeyCode::Other));
    app.handle_key_event(KeyEvent::press(KeyCode::Enter));
    assert_eq!(format!("{:?}", app.root()), before);
    assert!(app.is_running());
}

#[test]
fn the_quit_key_ends_the_loop_for_good() {
    let mut app = running();
    app.handle_key_event(KeyEvent::press(KeyCode::Char('a')));
    app.handle_key_event(KeyEvent::press(KeyCode::Esc));
    assert!(!app.is_running());
    assert_eq!(account_name(&app), "a");
    app.handle_key_event(KeyEvent::press(KeyCode::Esc));
    app.handle_key_event(KeyEvent::new(KeyCode::Tab, KeyEventKind::Release));
    assert!(!app.is_running());
    assert_eq!(account_name(&app), "a");
    assert_eq!(app.root().focused_slot(), Some(AccountSlot::AccountName));
}

#[test]
fn a_press_reaches_the_root_whatever_the_state_of_the_loop() {
    let mut app = running();
    app.quit();
    app.handle_key_event(KeyEvent::press(KeyCode::Char('b')));
    app.handle_key_event(KeyEvent::press(KeyCode::Tab));
    assert!(!app.is_running());
    assert_eq!(account_name(&app), "b");
    assert_eq!(app.root().focused_slot(), Some(AccountSlot::Email));
}

#[test]
fn quit_ends_the_loop() {
    let mut app = running();
    app.quit();
    assert!(!app.is_running());
}

#[test]
fn the_loop_renders_its_root() {
    let app = running();
    let area = Rect::new(0, 0, 80, 24);
    match app.render(area) {
        Scene::Panel { area: shown, title, rows } => {
            assert_eq!(shown, area);
            assert_eq!(title, "Configure Account");
            assert_eq!(rows.len(), 5);
        }
        Scene::Line { .. } => panic!("the form is a panel"),
    }
}

#[test]
fn the_loop_drives_any_control() {
    let mut app = DispatchLoop::new(TextField::new("Search"));
    assert!(app.root().is_focused());
    app.handle_key_event(KeyEvent::press(KeyCode::Char('x')));
    app.handle_key_event(KeyEvent::press(KeyCode::Tab));
    assert_eq!(app.root().value(), "x");
    app.handle_key_event(KeyEvent::press(KeyCode::Esc));
    assert!(!app.is_running());
}
