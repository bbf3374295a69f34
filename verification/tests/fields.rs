use nitidus::control::Control;
use nitidus::fields::{SelectField, TextField};
use nitidus::key::{KeyCode, KeyEvent, KeyEventKind};
use nitidus::surface::{Emphasis, Rect, Scene, Span};
use std::ops::ControlFlow;

fn press(code: KeyCode) -> KeyEvent {
    KeyEvent::press(code)
}

fn span(content: &str, emphasis: Emphasis) -> Span {
    Span::new(content.to_string(), emphasis)
}

fn protocol() -> SelectField {
    SelectField::new("Protocol", vec!["SSL/TLS", "STARTTLS", "None"])
}

#[test]
fn text_field_starts_empty_and_unfocused() {
    let field = TextField::new("Host");
    assert_eq!(field.name(), "Host");
    assert_eq!(field.value(), "");
    assert!(!field.is_focused());
}

#[test]
fn text_field_keeps_its_default_value() {
    let field = TextField::with_default_value("Maildir directory", "/home/me/Mail".to_string());
    assert_eq!(field.value(), "/home/me/Mail");
    assert!(!field.is_focused());
}

#[test]
fn text_field_appends_then_erases() {
    let mut field = TextField::new("Host");
    for c in "abc".chars() {
        assert_eq!(field.handle_key_event(press(KeyCode::Char(c))), ControlFlow::Break(()));
    }
    assert_eq!(field.value(), "abc");
    assert_eq!(field.handle_key_event(press(KeyCode::Backspace)), ControlFlow::Break(()));
    assert_eq!(field.value(), "ab");
}

#[test]
fn text_field_erase_on_empty_is_consumed() {
    let mut field = TextField::new("Host");
    assert_eq!(field.handle_key_event(press(KeyCode::Backspace)), ControlFlow::Break(()));
    assert_eq!(field.value(), "");
}

#[test]
fn text_field_erases_a_whole_character() {
    let mut field = TextField::new("Name");
    field.handle_key_event(press(KeyCode::Char('é')));
    field.handle_key_event(press(KeyCode::Char('ß')));
    field.handle_key_event(press(KeyCode::Backspace));
    assert_eq!(field.value(), "é");
}

#[test]
fn text_field_hands_other_keys_back() {
    let mut field = TextField::with_default_value("Host", "mail".to_string());
    for code in [
        KeyCode::Left,
        KeyCode::Right,
        KeyCode::Up,
        KeyCode::Down,
        KeyCode::Tab,
        KeyCode::BackTab,
        KeyCode::Esc,
        KeyCode::Enter,
        KeyCode::Other,
    ] {
        assert_eq!(field.handle_key_event(press(code)), ControlFlow::Continue(()));
        assert_eq!(field.value(), "mail");
    }
}

#[test]
fn text_field_focus_and_blur_set_the_flag() {
    let mut field = TextField::new("Host");
    field.focus();
    assert!(field.is_focused());
    field.focus();
    assert!(field.is_focused());
    field.blur();
    assert!(!field.is_focused());
}

#[test]
fn text_field_renders_label_and_value() {
    let mut field = TextField::with_default_value("Host", "imap.example.org".to_string());
    let area = Rect::new(3, 4, 30, 1);
    assert_eq!(
        field.render(area),
        Scene::Line {
            area,
            spans: vec![
                span("Host: ", Emphasis::Normal),
                span("imap.example.org", Emphasis::Normal)
            ],
        }
    );
    field.focus();
    assert_eq!(
        field.render(area),
        Scene::Line {
            area,
            spans: vec![span("Host: ", Emphasis::Bold), span("imap.example.org", Emphasis::Normal)],
        }
    );
}

#[test]
fn select_field_starts_on_its_first_option() {
    let field = protocol();
    assert_eq!(field.name(), "Protocol");
    assert_eq!(field.selected(), Some("SSL/TLS"));
    assert_eq!(field.selected_index(), 0);
    assert_eq!(field.option_count(), 3);
    assert!(!field.is_focused());
}

#[test]
fn select_field_previous_wraps_to_the_last_option() {
    let mut field = protocol();
    assert_eq!(field.handle_key_event(press(KeyCode::Left)), ControlFlow::Break(()));
    assert_eq!(field.selected(), Some("None"));
    assert_eq!(field.handle_key_event(press(KeyCode::Left)), ControlFlow::Break(()));
    assert_eq!(field.selected(), Some("STARTTLS"));
}

#[test]
fn select_field_next_wraps_to_the_first_option() {
    let mut field = protocol();
    assert_eq!(field.handle_key_event(press(KeyCode::Right)), ControlFlow::Break(()));
    assert_eq!(field.selected(), Some("STARTTLS"));
    field.handle_key_event(press(KeyCode::Right));
    assert_eq!(field.selected(), Some("None"));
    field.handle_key_event(press(KeyCode::Right));
    assert_eq!(field.selected(), Some("SSL/TLS"));
}

#[test]
fn select_field_with_one_option_stays_on_it() {
    let mut field = SelectField::new("Only", vec!["one"]);
    assert_eq!(field.handle_key_event(press(KeyCode::Left)), ControlFlow::Break(()));
    assert_eq!(field.selected(), Some("one"));
    assert_eq!(field.handle_key_event(press(KeyCode::Right)), ControlFlow::Break(()));
    assert_eq!(field.selected(), Some("one"));
}

#[test]
fn select_field_hands_other_keys_back() {
    let mut field = protocol();
    for code in [
        KeyCode::Char('x'),
        KeyCode::Backspace,
        KeyCode::Up,
        KeyCode::Down,
        KeyCode::Tab,
        KeyCode::BackTab,
        KeyCode::Other,
    ] {
        assert_eq!(field.handle_key_event(press(code)), ControlFlow::Continue(()));
        assert_eq!(field.selected_index(), 0);
    }
}

#[test]
fn select_field_select_takes_only_options_that_exist() {
    let mut field = protocol();
    assert!(field.select(2));
    assert_eq!(field.selected(), Some("None"));
    assert!(!field.select(3));
    assert_eq!(field.selected(), Some("None"));
}

#[test]
fn select_field_renders_options_with_the_chosen_one_underlined() {
    let mut field = protocol();
    field.handle_key_event(press(KeyCode::Right));
    field.focus();
    let area = Rect::new(0, 2, 40, 1);
    assert_eq!(
        field.render(area),
        Scene::Line {
            area,
            spans: vec![
                span("Protocol:", Emphasis::Bold),
                span(" ", Emphasis::Normal),
                span("SSL/TLS", Emphasis::Normal),
                span(" ", Emphasis::Normal),
                span("STARTTLS", Emphasis::Underlined),
                span(" ", Emphasis::Normal),
                span("None", Emphasis::Normal),
            ],
        }
    );
}

#[test]
fn fields_do_not_look_at_the_kind_of_event() {
    let mut field = TextField::new("Host");
    let release = KeyEvent::new(KeyCode::Char('a'), KeyEventKind::Release);
    assert_eq!(field.handle_key_event(release), ControlFlow::Break(()));
    assert_eq!(field.value(), "a");
}

#[test]
fn key_event_tells_a_press() {
    assert!(KeyEvent::press(KeyCode::Tab).is_press());
    assert!(!KeyEvent::new(KeyCode::Tab, KeyEventKind::Release).is_press());
    assert!(!KeyEvent::new(KeyCode::Tab, KeyEventKind::Repeat).is_press());
    assert!(KeyCode::Tab.is_advance() && KeyCode::Down.is_advance());
    assert!(KeyCode::BackTab.is_retreat() && KeyCode::Up.is_retreat());
    assert!(!KeyCode::Left.is_advance() && !KeyCode::Right.is_retreat());
}
