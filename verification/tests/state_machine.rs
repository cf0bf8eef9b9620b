//! Scenario tests driving the whole application state machine
//! through `handle_key_event`, one key at a time.

use postsmith::app::{ActiveBlock, AppEffect, AppState};
use postsmith::body::BodyContentStore;
use postsmith::editor::RequestEditorController;
use postsmith::headers::HeaderList;
use postsmith::keys::Key;
use postsmith::method::HttpMethod;
use postsmith::overlay::OverlayState;
use postsmith::tabs::RequestHeaders;

/// An application focused on the request editor, with an empty header
/// list, showing the header-list view.
fn app_on_empty_header_list() -> AppState {
    let mut app = AppState::new();
    app.active_block = ActiveBlock::Request;
    app.request_component = RequestEditorController {
        headers: HeaderList::new(),
        store: BodyContentStore::new(),
        show_body: false,
        active_tab: RequestHeaders::NoBody,
        loaded: String::new(),
    };
    app
}

/// An application focused on the request editor, in the body view,
/// with the given tab active.
fn app_on_body_view(tab: RequestHeaders) -> AppState {
    let mut app = AppState::new();
    app.active_block = ActiveBlock::Request;
    app.request_component.show_body = true;
    app.request_component.active_tab = tab;
    app
}

fn type_text(app: &mut AppState, text: &str) {
    for c in text.chars() {
        assert_eq!(app.handle_key_event(Key::Char(c)), AppEffect::Handled);
    }
}

#[test]
fn scenario_add_header_to_empty_list() {
    let mut app = app_on_empty_header_list();
    assert_eq!(app.handle_key_event(Key::Char('a')), AppEffect::Handled);
    assert!(matches!(app.overlay, OverlayState::AddHeaderForm(_)));
    type_text(&mut app, "X-Test");
    app.handle_key_event(Key::Tab);
    type_text(&mut app, "1");
    app.handle_key_event(Key::Tab);
    app.handle_key_event(Key::Enter);

    assert!(matches!(app.overlay, OverlayState::Closed));
    let headers = &app.request_component.headers;
    assert_eq!(headers.len(), 1);
    assert_eq!(headers.selected(), 0);
    let entry = headers.get(0);
    assert_eq!(entry.key, "X-Test");
    assert_eq!(entry.value, "1");
    assert_eq!(entry.previous_value, "");
}

#[test]
fn scenario_delete_with_two_headers() {
    let mut app = AppState::new();
    app.active_block = ActiveBlock::Request;
    app.request_component.show_body = false;
    assert_eq!(app.request_component.headers.len(), 2);
    assert_eq!(app.request_component.headers.selected(), 0);

    app.handle_key_event(Key::Char('d'));
    assert!(matches!(app.overlay, OverlayState::DeleteConfirm));
    app.handle_key_event(Key::Enter);

    assert!(matches!(app.overlay, OverlayState::Closed));
    assert_eq!(app.request_component.headers.len(), 1);
    assert_eq!(app.request_component.headers.selected(), 0);
    assert_eq!(app.request_component.headers.get(0).key, "Authorization");
}

#[test]
fn scenario_body_commit_advances_tab() {
    let mut app = app_on_body_view(RequestHeaders::Raw);
    app.handle_key_event(Key::Enter);
    assert!(matches!(app.overlay, OverlayState::BodyEditor(_)));
    type_text(&mut app, "hello");
    app.handle_key_event(Key::Enter);

    assert!(matches!(app.overlay, OverlayState::Closed));
    assert_eq!(app.request_component.store.load(RequestHeaders::Raw), "hello");
    assert_eq!(app.request_component.active_tab, RequestHeaders::Binary);
}

#[test]
fn scenario_tab_does_not_cycle_while_form_open() {
    let mut app = app_on_empty_header_list();
    app.handle_key_event(Key::Char('a'));
    assert!(matches!(app.overlay, OverlayState::AddHeaderForm(_)));

    app.handle_key_event(Key::Tab);
    assert_eq!(app.active_block, ActiveBlock::Request);
    assert!(matches!(app.overlay, OverlayState::AddHeaderForm(_)));
}

#[test]
fn tab_inside_form_moves_between_fields() {
    let mut app = app_on_empty_header_list();
    app.handle_key_event(Key::Char('a'));
    type_text(&mut app, "k");
    app.handle_key_event(Key::Tab);
    type_text(&mut app, "v");
    app.handle_key_event(Key::Tab);
    type_text(&mut app, "p");
    match &app.overlay {
        OverlayState::AddHeaderForm(form) => {
            assert_eq!(form.key, "k");
            assert_eq!(form.value, "v");
            assert_eq!(form.previous_value, "p");
        }
        _ => panic!("expected the add-header form to be open"),
    }
    app.handle_key_event(Key::BackTab);
    type_text(&mut app, "v");
    match &app.overlay {
        OverlayState::AddHeaderForm(form) => assert_eq!(form.value, "vv"),
        _ => panic!("expected the add-header form to be open"),
    }
}

#[test]
fn enter_walks_form_fields_before_committing() {
    let mut app = app_on_empty_header_list();
    app.handle_key_event(Key::Char('a'));
    type_text(&mut app, "k");
    app.handle_key_event(Key::Enter);
    type_text(&mut app, "v");
    app.handle_key_event(Key::Enter);
    type_text(&mut app, "p");
    app.handle_key_event(Key::Enter);
    assert!(matches!(app.overlay, OverlayState::Closed));
    assert_eq!(app.request_component.headers.len(), 1);
    assert_eq!(app.request_component.headers.get(0).value, "v");
    assert_eq!(app.request_component.headers.get(0).previous_value, "p");
}

#[test]
fn edit_header_form_overwrites_selected() {
    let mut app = AppState::new();
    app.active_block = ActiveBlock::Request;
    app.request_component.show_body = false;

    app.handle_key_event(Key::Enter);
    match &app.overlay {
        OverlayState::EditHeaderForm(form) => {
            assert_eq!(form.key, "Content-Type");
            assert_eq!(form.value, "application/json");
        }
        _ => panic!("expected the edit-header form to be open"),
    }
    app.handle_key_event(Key::Backspace);
    type_text(&mut app, "X");
    app.handle_key_event(Key::Tab);
    app.handle_key_event(Key::Tab);
    app.handle_key_event(Key::Enter);

    assert!(matches!(app.overlay, OverlayState::Closed));
    assert_eq!(app.request_component.headers.len(), 2);
    assert_eq!(app.request_component.headers.get(0).key, "Content-TypX");
    assert_eq!(app.request_component.headers.get(0).value, "application/json");
    assert_eq!(app.request_component.headers.selected(), 0);
}

#[test]
fn edit_is_a_no_op_on_empty_list() {
    let mut app = app_on_empty_header_list();
    app.handle_key_event(Key::Enter);
    assert!(matches!(app.overlay, OverlayState::Closed));
    assert_eq!(app.request_component.headers.len(), 0);
}

#[test]
fn delete_is_a_no_op_on_empty_list() {
    let mut app = app_on_empty_header_list();
    app.handle_key_event(Key::Char('d'));
    assert!(matches!(app.overlay, OverlayState::Closed));
}

#[test]
fn cancelling_each_overlay_restores_data() {
    // Add-header form.
    let mut app = AppState::new();
    app.active_block = ActiveBlock::Request;
    app.request_component.show_body = false;
    app.handle_key_event(Key::Char('a'));
    type_text(&mut app, "discarded");
    app.handle_key_event(Key::Esc);
    assert!(matches!(app.overlay, OverlayState::Closed));
    assert_eq!(app.request_component.headers.len(), 2);
    assert_eq!(app.request_component.headers.get(0).key, "Content-Type");

    // Edit-header form.
    app.handle_key_event(Key::Enter);
    type_text(&mut app, "discarded");
    app.handle_key_event(Key::Esc);
    assert_eq!(app.request_component.headers.get(0).key, "Content-Type");

    // Delete confirmation.
    app.handle_key_event(Key::Char('d'));
    app.handle_key_event(Key::Esc);
    assert_eq!(app.request_component.headers.len(), 2);

    // Body editor.
    app.handle_key_event(Key::Char(']'));
    app.handle_key_event(Key::Right);
    app.handle_key_event(Key::Enter);
    type_text(&mut app, "discarded");
    app.handle_key_event(Key::Esc);
    assert_eq!(
        app.request_component.store.load(RequestHeaders::FormData),
        ""
    );

    // Method picker.
    app.active_block = ActiveBlock::Method;
    app.request_component.show_body = false;
    app.handle_key_event(Key::Enter);
    app.handle_key_event(Key::Down);
    app.handle_key_event(Key::Esc);
    assert_eq!(app.method, HttpMethod::GET);

    // URL entry.
    app.active_block = ActiveBlock::Input;
    app.handle_key_event(Key::Enter);
    type_text(&mut app, "discarded");
    app.handle_key_event(Key::Esc);
    assert_eq!(app.url, "");
}

#[test]
fn selection_cycles_back_after_full_loop() {
    let mut app = AppState::new();
    app.active_block = ActiveBlock::Request;
    app.request_component.show_body = false;
    assert_eq!(app.request_component.headers.selected(), 0);
    app.handle_key_event(Key::Down);
    assert_eq!(app.request_component.headers.selected(), 1);
    app.handle_key_event(Key::Down);
    assert_eq!(app.request_component.headers.selected(), 0);
    app.handle_key_event(Key::Up);
    assert_eq!(app.request_component.headers.selected(), 1);
    app.handle_key_event(Key::Up);
    assert_eq!(app.request_component.headers.selected(), 0);
}

#[test]
fn body_tabs_cycle_back_after_full_loop() {
    let mut app = app_on_body_view(RequestHeaders::Raw);
    for _ in 0..6 {
        app.handle_key_event(Key::Right);
    }
    assert_eq!(app.request_component.active_tab, RequestHeaders::Raw);
    app.handle_key_event(Key::Left);
    assert_eq!(app.request_component.active_tab, RequestHeaders::Xwwwformundeclored);
    app.handle_key_event(Key::Right);
    assert_eq!(app.request_component.active_tab, RequestHeaders::Raw);
}

#[test]
fn body_content_round_trips_across_tab_switches() {
    let mut app = app_on_body_view(RequestHeaders::Raw);
    app.handle_key_event(Key::Enter);
    type_text(&mut app, "payload");
    app.handle_key_event(Key::Enter);

    // Walk all the way around the tabs and back to Raw.
    for _ in 0..6 {
        app.handle_key_event(Key::Right);
    }
    assert_eq!(app.request_component.active_tab, RequestHeaders::Binary);
    app.handle_key_event(Key::Left);
    assert_eq!(app.request_component.active_tab, RequestHeaders::Raw);
    assert_eq!(app.request_component.loaded, "payload");
    assert_eq!(app.request_component.store.load(RequestHeaders::Raw), "payload");
}

#[test]
fn enter_is_a_no_op_on_the_none_tab() {
    let mut app = app_on_body_view(RequestHeaders::NoBody);
    app.handle_key_event(Key::Enter);
    assert!(matches!(app.overlay, OverlayState::Closed));
}

#[test]
fn body_editor_escape_reloads_committed_content() {
    let mut app = app_on_body_view(RequestHeaders::Raw);
    app.handle_key_event(Key::Enter);
    type_text(&mut app, "kept");
    app.handle_key_event(Key::Enter);

    // The commit advanced to Binary; step back to Raw, edit again,
    // then discard.
    app.handle_key_event(Key::Left);
    assert_eq!(app.request_component.active_tab, RequestHeaders::Raw);
    assert_eq!(app.request_component.loaded, "kept");
    app.handle_key_event(Key::Enter);
    type_text(&mut app, "-discarded");
    app.handle_key_event(Key::Esc);
    assert_eq!(app.request_component.store.load(RequestHeaders::Raw), "kept");
    assert_eq!(app.request_component.loaded, "kept");
}

#[test]
fn form_field_navigation_wraps_at_both_ends() {
    let mut app = app_on_empty_header_list();
    app.handle_key_event(Key::Char('a'));
    // Backwards from the first field lands on the last.
    app.handle_key_event(Key::BackTab);
    type_text(&mut app, "p");
    // Forwards from the last field lands on the first.
    app.handle_key_event(Key::Tab);
    type_text(&mut app, "k");
    match &app.overlay {
        OverlayState::AddHeaderForm(form) => {
            assert_eq!(form.key, "k");
            assert_eq!(form.previous_value, "p");
        }
        _ => panic!("expected the add-header form to be open"),
    }
}

#[test]
fn entering_body_view_loads_the_active_tab() {
    let mut app = app_on_body_view(RequestHeaders::Raw);
    app.request_component.store.commit(RequestHeaders::Raw, "stored".to_string());
    app.request_component.show_body = false;
    app.handle_key_event(Key::Char(']'));
    assert!(app.request_component.show_body);
    assert_eq!(app.request_component.loaded, "stored");
    app.handle_key_event(Key::Char('['));
    assert!(!app.request_component.show_body);
}

#[test]
fn duplicate_header_keys_are_allowed() {
    let mut app = app_on_empty_header_list();
    for _ in 0..2 {
        app.handle_key_event(Key::Char('a'));
        type_text(&mut app, "X");
        app.handle_key_event(Key::Tab);
        type_text(&mut app, "1");
        app.handle_key_event(Key::Tab);
        app.handle_key_event(Key::Enter);
    }
    assert_eq!(app.request_component.headers.len(), 2);
    assert_eq!(app.request_component.headers.get(0).key, "X");
    assert_eq!(app.request_component.headers.get(1).key, "X");
    assert_eq!(app.request_component.headers.selected(), 1);
}
