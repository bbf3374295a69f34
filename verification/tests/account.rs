use nitidus::account_config::{
    AccountConfig, AccountConfigView, AccountSlot, ImapConfig, ImapSlot, MaildirConfig,
};
use nitidus::composite::{Composite, Node};
use nitidus::control::Control;
use nitidus::key::{KeyCode, KeyEvent};
use nitidus::slots::FocusPolicy;
use nitidus::surface::{Emphasis, Rect, Scene, Span};
use std::ops::ControlFlow;
use std::path::PathBuf;

fn press(code: KeyCode) -> KeyEvent {
    KeyEvent::press(code)
}

fn span(content: &str, emphasis: Emphasis) -> Span {
    Span::new(content.to_string(), emphasis)
}

fn account() -> AccountConfig {
    AccountConfig::with_mail_directory(FocusPolicy::BoundedCycling, "/home/me/Mail".to_string())
}

fn focused_leaves(node: &Node) -> usize {
    match node {
        Node::Text(field) => usize::from(field.is_focused()),
        Node::Select(field) => usize::from(field.is_focused()),
        Node::Group(group) => focused_in(group),
    }
}

fn focused_in(group: &Composite) -> usize {
    (0..group.slot_count()).map(|i| focused_leaves(group.slot(i).node())).sum()
}

fn text_value(group: &Composite, slot: usize) -> String {
    match group.slot(slot).node() {
        Node::Text(field) => field.value().to_string(),
        _ => panic!("slot {slot} holds no text field"),
    }
}

fn panel(group: &Composite, slot: usize) -> &Composite {
    match group.slot(slot).node() {
        Node::Group(panel) => panel,
        _ => panic!("slot {slot} holds no panel"),
    }
}

fn rows_of(scene: &Scene) -> &Vec<Scene> {
    match scene {
        Scene::Panel { rows, .. } => rows,
        Scene::Line { .. } => panic!("a line has no rows"),
    }
}

fn area_of(scene: &Scene) -> Rect {
    scene.area()
}

#[test]
fn slot_numbers_go_both_ways() {
    assert_eq!(ImapSlot::COUNT, 5);
    for index in 0..ImapSlot::COUNT {
        assert_eq!(ImapSlot::from_repr(index).unwrap().repr(), index);
    }
    assert_eq!(ImapSlot::from_repr(5), None);
    assert_eq!(ImapSlot::from_repr(1), Some(ImapSlot::Protocol));
    assert_eq!(AccountSlot::COUNT, 6);
    for index in 0..AccountSlot::COUNT {
        assert_eq!(AccountSlot::from_repr(index).unwrap().repr(), index);
    }
    assert_eq!(AccountSlot::from_repr(6), None);
    assert_eq!(AccountSlot::from_repr(3), Some(AccountSlot::Backend));
}

#[test]
fn imap_config_has_five_slots_and_hands_back_at_its_ends_by_default() {
    let mut imap = ImapConfig::default();
    assert_eq!(imap.as_composite().title(), "IMAP Config");
    assert_eq!(imap.as_composite().policy(), FocusPolicy::ClampedDelegation);
    assert_eq!(imap.as_composite().slot_count(), 5);
    assert_eq!(imap.focused_slot(), Some(ImapSlot::Host));
    imap.focus();
    assert_eq!(imap.handle_key_event(press(KeyCode::BackTab)), ControlFlow::Continue(()));
    assert_eq!(imap.focused_slot(), Some(ImapSlot::Host));
    let mut seen = Vec::new();
    for _ in 0..4 {
        assert_eq!(imap.handle_key_event(press(KeyCode::Tab)), ControlFlow::Break(()));
        seen.push(imap.focused_slot().unwrap());
    }
    assert_eq!(
        seen,
        vec![ImapSlot::Protocol, ImapSlot::Port, ImapSlot::Username, ImapSlot::Password]
    );
    assert_eq!(imap.handle_key_event(press(KeyCode::Tab)), ControlFlow::Continue(()));
    assert_eq!(imap.focused_slot(), Some(ImapSlot::Password));
    assert_eq!(focused_in(imap.as_composite()), 1);
}

#[test]
fn imap_config_under_bounded_cycling_comes_round_in_five_advances() {
    let mut imap = ImapConfig::new(FocusPolicy::BoundedCycling);
    imap.focus();
    imap.handle_key_event(press(KeyCode::Tab));
    assert_eq!(imap.focused_slot(), Some(ImapSlot::Protocol));
    for _ in 0..5 {
        assert_eq!(imap.handle_key_event(press(KeyCode::Tab)), ControlFlow::Break(()));
    }
    assert_eq!(imap.focused_slot(), Some(ImapSlot::Protocol));
    assert_eq!(imap.handle_key_event(press(KeyCode::BackTab)), ControlFlow::Break(()));
    assert_eq!(imap.handle_key_event(press(KeyCode::BackTab)), ControlFlow::Break(()));
    assert_eq!(imap.focused_slot(), Some(ImapSlot::Password));
}

#[test]
fn imap_protocol_cycles_through_its_options() {
    let mut imap = ImapConfig::default();
    imap.focus();
    imap.handle_key_event(press(KeyCode::Down));
    assert_eq!(imap.handle_key_event(press(KeyCode::Left)), ControlFlow::Break(()));
    match imap.as_composite().slot(1).node() {
        Node::Select(field) => assert_eq!(field.selected(), Some("None")),
        _ => panic!("slot 1 holds the protocol"),
    }
    imap.handle_key_event(press(KeyCode::Left));
    match imap.as_composite().slot(1).node() {
        Node::Select(field) => assert_eq!(field.selected(), Some("STARTTLS")),
        _ => panic!("slot 1 holds the protocol"),
    }
}

#[test]
fn maildir_config_holds_the_directory_and_passes_the_focus_keys_on() {
    let mut maildir = MaildirConfig::with_directory("/var/mail/me".to_string());
    assert_eq!(maildir.as_composite().title(), "Maildir Config");
    assert_eq!(text_value(maildir.as_composite(), 0), "/var/mail/me");
    maildir.focus();
    assert_eq!(focused_in(maildir.as_composite()), 1);
    assert_eq!(maildir.handle_key_event(press(KeyCode::Char('x'))), ControlFlow::Break(()));
    assert_eq!(text_value(maildir.as_composite(), 0), "/var/mail/mex");
    for code in [KeyCode::Tab, KeyCode::BackTab, KeyCode::Up, KeyCode::Down] {
        assert_eq!(maildir.handle_key_event(press(code)), ControlFlow::Continue(()));
    }
    assert_eq!(focused_in(maildir.as_composite()), 1);
}

#[test]
fn the_suggested_directory_is_mail_below_the_home_directory() {
    assert_eq!(MaildirConfig::directory_for(Some(PathBuf::from("/home/me"))), "/home/me/Mail");
    assert_eq!(MaildirConfig::directory_for(Some(PathBuf::from("/home/me/"))), "/home/me/Mail");
    assert_eq!(MaildirConfig::directory_for(Some(PathBuf::from("/"))), "/Mail");
    assert_eq!(MaildirConfig::directory_for(Some(PathBuf::new())), "Mail");
    assert_eq!(MaildirConfig::directory_for(None), "");
}

#[test]
fn maildir_config_suggests_mail_in_the_home_directory() {
    let suggested = MaildirConfig::suggested_directory();
    assert!(suggested.is_empty() || suggested.ends_with("Mail"));
    let maildir = MaildirConfig::default();
    assert_eq!(text_value(maildir.as_composite(), 0), suggested);
    assert_eq!(maildir.as_composite().policy(), FocusPolicy::ClampedDelegation);
}

#[test]
fn account_config_starts_with_the_imap_backend() {
    let form = account();
    let slots = form.as_composite();
    assert_eq!(slots.title(), "Configure Account");
    assert_eq!(slots.policy(), FocusPolicy::BoundedCycling);
    assert_eq!(slots.mask(), vec![true, true, true, true, true, false]);
    assert_eq!(form.focused_slot(), Some(AccountSlot::AccountName));
    assert_eq!(focused_in(slots), 0);
    match slots.slot(3).node() {
        Node::Select(field) => {
            assert_eq!(field.name(), "Backend");
            assert_eq!(field.selected(), Some("IMAP"));
            assert_eq!(field.option_count(), 3);
        }
        _ => panic!("slot 3 holds the backend"),
    }
    assert_eq!(text_value(panel(slots, 5), 0), "/home/me/Mail");
}

#[test]
fn account_config_by_default_cycles_and_suggests_a_directory() {
    let form = AccountConfig::default();
    assert_eq!(form.as_composite().policy(), FocusPolicy::BoundedCycling);
    assert_eq!(form.as_composite().slot_count(), 6);
    assert_eq!(
        text_value(panel(form.as_composite(), 5), 0),
        MaildirConfig::suggested_directory()
    );
}

#[test]
fn account_config_blurs_the_panels_it_is_given() {
    let mut imap = ImapConfig::default();
    imap.focus();
    let mut maildir = MaildirConfig::with_directory(String::new());
    maildir.focus();
    let form = AccountConfig::new(FocusPolicy::BoundedCycling, imap, maildir);
    assert_eq!(focused_in(form.as_composite()), 0);
}

#[test]
fn account_config_tabs_through_fields_and_the_imap_panel_and_round() {
    let mut form = account();
    form.focus();
    let mut path = Vec::new();
    for _ in 0..9 {
        path.push((form.focused_slot().unwrap(), panel(form.as_composite(), 4).focus_index()));
        assert_eq!(form.handle_key_event(press(KeyCode::Tab)), ControlFlow::Break(()));
        assert_eq!(focused_in(form.as_composite()), 1);
    }
    assert_eq!(
        path,
        vec![
            (AccountSlot::AccountName, 0),
            (AccountSlot::Email, 0),
            (AccountSlot::DisplayName, 0),
            (AccountSlot::Backend, 0),
            (AccountSlot::ImapConfig, 0),
            (AccountSlot::ImapConfig, 1),
            (AccountSlot::ImapConfig, 2),
            (AccountSlot::ImapConfig, 3),
            (AccountSlot::ImapConfig, 4),
        ]
    );
    assert_eq!(form.focused_slot(), Some(AccountSlot::AccountName));
}

#[test]
fn account_config_without_backend_has_four_slots() {
    let mut form = account();
    assert!(form.select_backend(2));
    form.focus();
    assert_eq!(form.as_composite().shown_count(), 4);
    for _ in 0..4 {
        assert_eq!(form.handle_key_event(press(KeyCode::Tab)), ControlFlow::Break(()));
    }
    assert_eq!(form.focused_slot(), Some(AccountSlot::AccountName));
    assert_eq!(form.handle_key_event(press(KeyCode::BackTab)), ControlFlow::Break(()));
    assert_eq!(form.focused_slot(), Some(AccountSlot::Backend));
    assert!(!form.select_backend(3));
}

#[test]
fn the_backend_field_decides_which_panel_takes_the_focus() {
    let mut form = account();
    form.focus();
    for _ in 0..3 {
        form.handle_key_event(press(KeyCode::Down));
    }
    assert_eq!(form.focused_slot(), Some(AccountSlot::Backend));
    assert_eq!(form.handle_key_event(press(KeyCode::Right)), ControlFlow::Break(()));
    assert_eq!(form.as_composite().mask(), vec![true, true, true, true, false, true]);
    assert_eq!(form.handle_key_event(press(KeyCode::Tab)), ControlFlow::Break(()));
    assert_eq!(form.focused_slot(), Some(AccountSlot::MaildirConfig));
    assert_eq!(form.handle_key_event(press(KeyCode::Backspace)), ControlFlow::Break(()));
    assert_eq!(text_value(panel(form.as_composite(), 5), 0), "/home/me/Mai");
    assert_eq!(form.handle_key_event(press(KeyCode::Tab)), ControlFlow::Break(()));
    assert_eq!(form.focused_slot(), Some(AccountSlot::AccountName));
}

#[test]
fn changing_the_backend_while_focus_is_in_the_imap_panel_relocates_the_focus() {
    let mut form = account();
    form.focus();
    for _ in 0..6 {
        form.handle_key_event(press(KeyCode::Tab));
    }
    assert_eq!(form.focused_slot(), Some(AccountSlot::ImapConfig));
    assert_eq!(panel(form.as_composite(), 4).focus_index(), 2);

    assert!(form.select_backend(1));
    assert!(!form.as_composite().is_shown(4));
    form.repair_focus();
    assert_eq!(form.focused_slot(), Some(AccountSlot::Backend));
    assert!(form.as_composite().is_shown(form.as_composite().focus_index()));
    assert_eq!(focused_in(form.as_composite()), 1);
    assert_eq!(focused_in(panel(form.as_composite(), 4)), 0);
    match form.as_composite().slot(3).node() {
        Node::Select(field) => {
            assert!(field.is_focused());
            assert_eq!(field.selected(), Some("Maildir"));
        }
        _ => panic!("slot 3 holds the backend"),
    }
    assert_eq!(form.handle_key_event(press(KeyCode::Tab)), ControlFlow::Break(()));
    assert_eq!(form.focused_slot(), Some(AccountSlot::MaildirConfig));
}

#[test]
fn an_unhandled_key_comes_back_from_the_root() {
    let mut form = account();
    form.focus();
    for _ in 0..4 {
        form.handle_key_event(press(KeyCode::Tab));
    }
    let before = format!("{form:?}");
    for code in [KeyCode::Other, KeyCode::Enter, KeyCode::Esc, KeyCode::Left] {
        assert_eq!(form.handle_key_event(press(code)), ControlFlow::Continue(()));
        assert_eq!(format!("{form:?}"), before);
    }
}

#[test]
fn imap_config_renders_a_panel_with_one_row_for_each_field() {
    let mut imap = ImapConfig::default();
    imap.focus();
    let area = Rect::new(0, 0, 40, 7);
    let scene = imap.render(area);
    match &scene {
        Scene::Panel { area: shown, title, rows } => {
            assert_eq!(*shown, area);
            assert_eq!(title, "IMAP Config");
            assert_eq!(rows.len(), 5);
        }
        Scene::Line { .. } => panic!("a composite is a panel"),
    }
    let rows = rows_of(&scene);
    for (i, row) in rows.iter().enumerate() {
        assert_eq!(area_of(row), Rect::new(1, 1 + i as u16, 38, 1));
    }
    assert_eq!(
        rows[0],
        Scene::Line {
            area: Rect::new(1, 1, 38, 1),
            spans: vec![span("Host: ", Emphasis::Bold), span("", Emphasis::Normal)],
        }
    );
    assert_eq!(
        rows[1],
        Scene::Line {
            area: Rect::new(1, 2, 38, 1),
            spans: vec![
                span("Protocol:", Emphasis::Normal),
                span(" ", Emphasis::Normal),
                span("SSL/TLS", Emphasis::Underlined),
                span(" ", Emphasis::Normal),
                span("STARTTLS", Emphasis::Normal),
                span(" ", Emphasis::Normal),
                span("None", Emphasis::Normal),
            ],
        }
    );
}

#[test]
fn rendering_changes_nothing() {
    let mut form = account();
    form.focus();
    let before = format!("{form:?}");
    let first = form.render(Rect::new(0, 0, 80, 24));
    let second = form.render(Rect::new(0, 0, 80, 24));
    assert_eq!(first, second);
    assert_eq!(format!("{form:?}"), before);
}

#[test]
fn account_config_renders_the_panel_of_the_chosen_backend() {
    let mut form = account();
    form.focus();
    let area = Rect::new(2, 1, 60, 20);
    let scene = form.render(area);
    let rows = rows_of(&scene);
    assert_eq!(rows.len(), 5);
    let areas: Vec<Rect> = rows.iter().map(area_of).collect();
    assert_eq!(
        areas,
        vec![
            Rect::new(3, 2, 58, 1),
            Rect::new(3, 3, 58, 1),
            Rect::new(3, 4, 58, 1),
            Rect::new(3, 5, 58, 1),
            Rect::new(3, 6, 58, 7),
        ]
    );
    match &rows[4] {
        Scene::Panel { title, rows, .. } => {
            assert_eq!(title, "IMAP Config");
            let inner: Vec<Rect> = rows.iter().map(area_of).collect();
            assert_eq!(
                inner,
                vec![
                    Rect::new(4, 7, 56, 1),
                    Rect::new(4, 8, 56, 1),
                    Rect::new(4, 9, 56, 1),
                    Rect::new(4, 10, 56, 1),
                    Rect::new(4, 11, 56, 1),
                ]
            );
        }
        Scene::Line { .. } => panic!("the backend panel is a panel"),
    }

    assert!(form.select_backend(1));
    let scene = form.render(area);
    let rows = rows_of(&scene);
    assert_eq!(rows.len(), 5);
    assert_eq!(area_of(&rows[4]), Rect::new(3, 6, 58, 3));
    match &rows[4] {
        Scene::Panel { title, rows, .. } => {
            assert_eq!(title, "Maildir Config");
            assert_eq!(
                rows[0],
                Scene::Line {
                    area: Rect::new(4, 7, 56, 1),
                    spans: vec![
                        span("Maildir directory: ", Emphasis::Normal),
                        span("/home/me/Mail", Emphasis::Normal)
                    ],
                }
            );
        }
        Scene::Line { .. } => panic!("the backend panel is a panel"),
    }

    assert!(form.select_backend(2));
    assert_eq!(rows_of(&form.render(area)).len(), 4);
}

#[test]
fn every_row_stays_inside_the_border_however_small_the_area() {
    let mut form = account();
    form.focus();
    for (width, height) in [(0u16, 0u16), (1, 1), (2, 2), (3, 3), (10, 4), (5, 30)] {
        let area = Rect::new(65530, 65533, width, height);
        let scene = form.render(area);
        assert_eq!(area_of(&scene), area);
        let left = if width >= 1 { 65531 } else { 65530 };
        let top = if height >= 1 { 65534 } else { 65533 };
        for row in rows_of(&scene) {
            let band = area_of(row);
            assert_eq!(band.x, left);
            assert_eq!(band.width, width.saturating_sub(2));
            assert!(band.y >= top);
            assert!(
                u32::from(band.y) + u32::from(band.height)
                    <= u32::from(top) + u32::from(height.saturating_sub(2))
            );
        }
    }
}

#[test]
fn the_border_does_not_leave_the_coordinate_range() {
    let imap = ImapConfig::default();
    let scene = imap.render(Rect::new(65535, 65535, 9, 9));
    for row in rows_of(&scene) {
        assert_eq!(area_of(row).x, 65535);
        assert_eq!(area_of(row).width, 7);
        assert_eq!(area_of(row).y, 65535);
        assert_eq!(area_of(row).height, 0);
    }
}

fn screen() -> AccountConfigView {
    AccountConfigView::with_mail_directory("/home/me/Mail".to_string())
}

fn focused_fields(view: &AccountConfigView) -> Vec<bool> {
    (0..4).map(|i| focused_leaves(view.fields().slot(i).node()) == 1).collect()
}

#[test]
fn the_view_starts_with_focus_on_the_account_name() {
    let view = screen();
    assert_eq!(view.fields().slot_count(), 4);
    assert_eq!(view.fields().policy(), FocusPolicy::BoundedCycling);
    assert_eq!(view.focused_slot(), AccountSlot::AccountName);
    assert_eq!(focused_fields(&view), vec![true, false, false, false]);
    assert_eq!(view.backend(), 0);
    assert_eq!(focused_in(view.imap_config().as_composite()), 0);
    assert_eq!(focused_in(view.maildir_config().as_composite()), 0);
}

#[test]
fn the_default_view_holds_the_focus() {
    let view = AccountConfigView::default();
    assert_eq!(view.focused_slot(), AccountSlot::AccountName);
    assert_eq!(focused_fields(&view), vec![true, false, false, false]);
    assert_eq!(
        text_value(view.maildir_config().as_composite(), 0),
        MaildirConfig::suggested_directory()
    );
}

#[test]
fn a_back_tab_on_the_first_field_of_the_view_wraps_to_the_backend() {
    let mut view = AccountConfigView::default();
    view.handle_key_event(press(KeyCode::BackTab));
    assert_eq!(view.focused_slot(), AccountSlot::Backend);
    assert_eq!(focused_fields(&view), vec![false, false, false, true]);
    view.handle_key_event(press(KeyCode::Up));
    assert_eq!(view.focused_slot(), AccountSlot::DisplayName);
    assert_eq!(focused_fields(&view), vec![false, false, true, false]);
}

#[test]
fn four_tabs_bring_the_view_back_to_the_account_name() {
    let mut view = AccountConfigView::default();
    let mut seen = Vec::new();
    for _ in 0..4 {
        view.handle_key_event(press(KeyCode::Tab));
        seen.push(view.focused_slot());
        assert_eq!(focused_fields(&view).iter().filter(|focused| **focused).count(), 1);
    }
    assert_eq!(
        seen,
        vec![
            AccountSlot::Email,
            AccountSlot::DisplayName,
            AccountSlot::Backend,
            AccountSlot::AccountName
        ]
    );
    assert_eq!(focused_fields(&view), vec![true, false, false, false]);
    for _ in 0..4 {
        view.handle_key_event(press(KeyCode::Down));
    }
    assert_eq!(view.focused_slot(), AccountSlot::AccountName);
}

#[test]
fn the_field_in_focus_is_the_one_that_takes_the_keys() {
    let mut view = screen();
    view.handle_key_event(press(KeyCode::Char('w')));
    view.handle_key_event(press(KeyCode::Tab));
    view.handle_key_event(press(KeyCode::Char('m')));
    view.handle_key_event(press(KeyCode::Other));
    view.handle_key_event(press(KeyCode::Backspace));
    view.handle_key_event(press(KeyCode::Char('n')));
    assert_eq!(text_value(view.fields(), 0), "w");
    assert_eq!(text_value(view.fields(), 1), "n");
    assert_eq!(text_value(view.fields(), 2), "");
    assert_eq!(view.focused_slot(), AccountSlot::Email);
    assert_eq!(focused_fields(&view), vec![false, true, false, false]);
}

#[test]
fn no_key_reaches_the_panels_of_the_view() {
    let mut view = screen();
    let imap = format!("{:?}", view.imap_config());
    let maildir = format!("{:?}", view.maildir_config());
    let keys = [
        KeyCode::Tab,
        KeyCode::Tab,
        KeyCode::Tab,
        KeyCode::Tab,
        KeyCode::Char('x'),
        KeyCode::BackTab,
        KeyCode::Right,
        KeyCode::Tab,
        KeyCode::Char('y'),
        KeyCode::Down,
        KeyCode::Down,
        KeyCode::Down,
        KeyCode::Left,
        KeyCode::Left,
        KeyCode::Backspace,
        KeyCode::Enter,
        KeyCode::Esc,
        KeyCode::Other,
    ];
    for round in 0..3 {
        for code in keys {
            view.handle_key_event(press(code));
            assert_eq!(format!("{:?}", view.imap_config()), imap, "round {round}, {code:?}");
            assert_eq!(format!("{:?}", view.maildir_config()), maildir);
            assert_eq!(focused_fields(&view).iter().filter(|focused| **focused).count(), 1);
            assert_eq!(focused_in(view.fields()), 1);
        }
    }
}

#[test]
fn the_backend_field_of_the_view_chooses_the_panel_that_is_shown() {
    let mut view = screen();
    for _ in 0..3 {
        view.handle_key_event(press(KeyCode::Tab));
    }
    assert_eq!(view.backend(), 0);
    view.handle_key_event(press(KeyCode::Right));
    assert_eq!(view.backend(), 1);
    view.handle_key_event(press(KeyCode::Right));
    assert_eq!(view.backend(), 2);
    view.handle_key_event(press(KeyCode::Tab));
    assert_eq!(view.focused_slot(), AccountSlot::AccountName);
}

#[test]
fn the_view_renders_heading_fields_and_the_chosen_panel() {
    let mut view = screen();
    let scenes = view.render(Rect::new(0, 0, 50, 16));
    assert_eq!(scenes.len(), 6);
    assert_eq!(
        scenes[0],
        Scene::Line {
            area: Rect::new(0, 0, 50, 1),
            spans: vec![span("Configure Account", Emphasis::Normal)],
        }
    );
    assert_eq!(
        scenes[1],
        Scene::Line {
            area: Rect::new(0, 1, 50, 1),
            spans: vec![span("Account Name: ", Emphasis::Bold), span("", Emphasis::Normal)],
        }
    );
    assert_eq!(
        scenes[2],
        Scene::Line {
            area: Rect::new(0, 2, 50, 1),
            spans: vec![span("Email: ", Emphasis::Normal), span("", Emphasis::Normal)],
        }
    );
    assert_eq!(area_of(&scenes[3]), Rect::new(0, 3, 50, 1));
    assert_eq!(
        scenes[4],
        Scene::Line {
            area: Rect::new(0, 4, 50, 1),
            spans: vec![
                span("Backend:", Emphasis::Normal),
                span(" ", Emphasis::Normal),
                span("IMAP", Emphasis::Underlined),
                span(" ", Emphasis::Normal),
                span("Maildir", Emphasis::Normal),
                span(" ", Emphasis::Normal),
                span("None", Emphasis::Normal),
            ],
        }
    );
    assert_eq!(area_of(&scenes[5]), Rect::new(0, 5, 50, 11));
    match &scenes[5] {
        Scene::Panel { title, rows, .. } => {
            assert_eq!(title, "IMAP Config");
            assert_eq!(rows.len(), 5);
            assert_eq!(
                rows[0],
                Scene::Line {
                    area: Rect::new(1, 6, 48, 1),
                    spans: vec![span("Host: ", Emphasis::Normal), span("", Emphasis::Normal)],
                }
            );
        }
        Scene::Line { .. } => panic!("the backend panel is a panel"),
    }

    for _ in 0..3 {
        view.handle_key_event(press(KeyCode::Tab));
    }
    view.handle_key_event(press(KeyCode::Right));
    let scenes = view.render(Rect::new(0, 0, 50, 16));
    assert_eq!(scenes.len(), 6);
    match &scenes[5] {
        Scene::Panel { area, title, rows } => {
            assert_eq!(*area, Rect::new(0, 5, 50, 11));
            assert_eq!(title, "Maildir Config");
            assert_eq!(
                rows[0],
                Scene::Line {
                    area: Rect::new(1, 6, 48, 1),
                    spans: vec![
                        span("Maildir directory: ", Emphasis::Normal),
                        span("/home/me/Mail", Emphasis::Normal)
                    ],
                }
            );
        }
        Scene::Line { .. } => panic!("the backend panel is a panel"),
    }

    view.handle_key_event(press(KeyCode::Right));
    let scenes = view.render(Rect::new(0, 0, 50, 16));
    assert_eq!(scenes.len(), 5);
    assert_eq!(area_of(&scenes[4]), Rect::new(0, 4, 50, 1));
}

#[test]
fn the_rows_of_the_view_stay_inside_a_small_area() {
    let view = screen();
    for height in 0..6u16 {
        let area = Rect::new(4, 65533, 20, height);
        for scene in view.render(area) {
            let band = area_of(&scene);
            assert_eq!((band.x, band.width), (4, 20));
            assert!(band.y >= 65533);
            assert!(u32::from(band.y) + u32::from(band.height) <= 65533 + u32::from(height));
        }
    }
}
