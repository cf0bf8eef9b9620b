//! Tests for the global keys: panel cycling, the method picker, the
//! URL entry, the history toggle, quitting and the send key.

use postsmith::app::{ActiveBlock, AppEffect, AppState};
use postsmith::keys::Key;
use postsmith::method::HttpMethod;
use postsmith::overlay::OverlayState;

fn type_text(app: &mut AppState, text: &str) {
    for c in text.chars() {
        app.handle_key_event(Key::Char(c));
    }
}

#[test]
fn tab_cycles_panels_in_fixed_order() {
    let mut app = AppState::new();
    assert_eq!(app.active_block, ActiveBlock::Method);
    app.handle_key_event(Key::Tab);
    assert_eq!(app.active_block, ActiveBlock::Input);
    app.handle_key_event(Key::Tab);
    assert_eq!(app.active_block, ActiveBlock::Request);
    app.handle_key_event(Key::Tab);
    assert_eq!(app.active_block, ActiveBlock::Message);
    app.handle_key_event(Key::Tab);
    assert_eq!(app.active_block, ActiveBlock::Method);
    app.handle_key_event(Key::BackTab);
    assert_eq!(app.active_block, ActiveBlock::Message);
    app.handle_key_event(Key::BackTab);
    assert_eq!(app.active_block, ActiveBlock::Request);
}

#[test]
fn method_picker_commits_highlighted_method() {
    let mut app = AppState::new();
    app.handle_key_event(Key::Enter);
    assert!(matches!(app.overlay, OverlayState::MethodPicker(0)));
    app.handle_key_event(Key::Down);
    app.handle_key_event(Key::Down);
    assert!(matches!(app.overlay, OverlayState::MethodPicker(2)));
    app.handle_key_event(Key::Enter);
    assert!(matches!(app.overlay, OverlayState::Closed));
    assert_eq!(app.method, HttpMethod::PUT);
}

#[test]
fn method_picker_wraps_both_directions() {
    let mut app = AppState::new();
    app.handle_key_event(Key::Enter);
    app.handle_key_event(Key::Up);
    assert!(matches!(app.overlay, OverlayState::MethodPicker(6)));
    app.handle_key_event(Key::Down);
    assert!(matches!(app.overlay, OverlayState::MethodPicker(0)));
    // Seven forward moves return to the start.
    for _ in 0..7 {
        app.handle_key_event(Key::Down);
    }
    assert!(matches!(app.overlay, OverlayState::MethodPicker(0)));
    app.handle_key_event(Key::Esc);
    assert_eq!(app.method, HttpMethod::GET);
}

#[test]
fn url_entry_commits_on_enter() {
    let mut app = AppState::new();
    app.handle_key_event(Key::Tab);
    assert_eq!(app.active_block, ActiveBlock::Input);
    app.handle_key_event(Key::Enter);
    assert!(matches!(app.overlay, OverlayState::UrlEntry(_)));
    type_text(&mut app, "http://localhost/x");
    app.handle_key_event(Key::Backspace);
    app.handle_key_event(Key::Enter);
    assert!(matches!(app.overlay, OverlayState::Closed));
    assert_eq!(app.url, "http://localhost/");
    assert_eq!(app.active_block, ActiveBlock::Input);
}

#[test]
fn url_entry_is_seeded_with_current_url() {
    let mut app = AppState::new();
    app.url = "http://a".to_string();
    app.active_block = ActiveBlock::Input;
    app.handle_key_event(Key::Char('e'));
    match &app.overlay {
        OverlayState::UrlEntry(t) => assert_eq!(t, "http://a"),
        _ => panic!("expected the URL entry to be open"),
    }
    type_text(&mut app, "bc");
    app.handle_key_event(Key::Esc);
    assert_eq!(app.url, "http://a");
}

#[test]
fn quit_key_quits_outside_text_entry() {
    let mut app = AppState::new();
    assert_eq!(app.handle_key_event(Key::Char('q')), AppEffect::Quit);

    // Still quits while the delete confirmation is open.
    let mut app = AppState::new();
    app.active_block = ActiveBlock::Request;
    app.request_component.show_body = false;
    app.handle_key_event(Key::Char('d'));
    assert_eq!(app.handle_key_event(Key::Char('q')), AppEffect::Quit);
}

#[test]
fn quit_key_is_typed_inside_text_entry() {
    let mut app = AppState::new();
    app.active_block = ActiveBlock::Input;
    app.handle_key_event(Key::Enter);
    assert_eq!(app.handle_key_event(Key::Char('q')), AppEffect::Handled);
    match &app.overlay {
        OverlayState::UrlEntry(t) => assert_eq!(t, "q"),
        _ => panic!("expected the URL entry to be open"),
    }

    let mut app = AppState::new();
    app.active_block = ActiveBlock::Request;
    app.request_component.show_body = false;
    app.handle_key_event(Key::Char('a'));
    assert_eq!(app.handle_key_event(Key::Char('q')), AppEffect::Handled);
    match &app.overlay {
        OverlayState::AddHeaderForm(form) => assert_eq!(form.key, "q"),
        _ => panic!("expected the add-header form to be open"),
    }
}

#[test]
fn history_key_snapshots_and_escape_returns() {
    let mut app = AppState::new();
    app.active_block = ActiveBlock::Message;
    assert_eq!(app.handle_key_event(Key::Char('H')), AppEffect::FetchHistory);
    assert_eq!(app.active_block, ActiveBlock::History);
    // The event loop would now fill the panel from the persisted log.
    app.history_component.history = "one\ntwo\n".to_string();

    // Pressing the history key again only scrolls; Escape returns to
    // the method panel.
    assert_eq!(app.handle_key_event(Key::Char('H')), AppEffect::Handled);
    assert_eq!(app.handle_key_event(Key::Esc), AppEffect::Handled);
    assert_eq!(app.active_block, ActiveBlock::Method);
}

#[test]
fn history_key_is_ignored_while_overlay_open() {
    let mut app = AppState::new();
    app.active_block = ActiveBlock::Request;
    app.request_component.show_body = false;
    app.handle_key_event(Key::Char('a'));
    app.handle_key_event(Key::Char('H'));
    assert_eq!(app.active_block, ActiveBlock::Request);
    match &app.overlay {
        OverlayState::AddHeaderForm(form) => assert_eq!(form.key, "H"),
        _ => panic!("expected the add-header form to be open"),
    }
}

#[test]
fn send_key_fires_only_on_url_panel() {
    let mut app = AppState::new();
    assert_eq!(app.handle_key_event(Key::Char('g')), AppEffect::Handled);
    app.active_block = ActiveBlock::Input;
    assert_eq!(app.handle_key_event(Key::Char('g')), AppEffect::SendRequest);
}

#[test]
fn editor_key_fires_on_response_panel() {
    let mut app = AppState::new();
    app.active_block = ActiveBlock::Message;
    assert_eq!(app.handle_key_event(Key::Char('e')), AppEffect::OpenEditor);
}

#[test]
fn tab_cycling_is_disabled_from_history() {
    let mut app = AppState::new();
    app.active_block = ActiveBlock::History;
    app.handle_key_event(Key::Tab);
    assert_eq!(app.active_block, ActiveBlock::History);
    app.handle_key_event(Key::BackTab);
    assert_eq!(app.active_block, ActiveBlock::History);
}
