use faultnote::app::AppState;
use faultnote::events::{handle_editing_mode, handle_normal_mode, Key};

#[test]
fn test_app_state_for_events() {
    let app = AppState::new();
    assert!(app.is_running());
}

#[test]
fn test_app_quit() {
    let mut app = AppState::new();
    assert!(app.is_running());
    app.quit();
    assert!(!app.is_running());
}

#[test]
fn test_normal_mode_quit() {
    let mut app = AppState::new();
    assert!(app.is_running());

    handle_normal_mode(&mut app, Key::Char('q'), false);

    assert!(!app.is_running());
}

#[test]
fn test_normal_mode_toggle_focus() {
    let mut app = AppState::new();
    assert!(app.is_page_list_focused());

    handle_normal_mode(&mut app, Key::Tab, false);

    assert!(app.is_input_section_focused());
}

#[test]
fn test_editing_mode_add_char() {
    let mut app = AppState::new();
    app.enter_edit_mode();

    handle_editing_mode(&mut app, Key::Char('H'));

    assert_eq!(app.get_active_input(), "H");
}

#[test]
fn test_editing_mode_backspace() {
    let mut app = AppState::new();
    app.error_input = "Hello".to_string();
    app.enter_edit_mode();

    handle_editing_mode(&mut app, Key::Backspace);

    assert_eq!(app.get_active_input(), "Hell");
}

#[test]
fn test_editing_mode_escape() {
    let mut app = AppState::new();
    app.toggle_focus();
    app.enter_edit_mode();
    assert!(app.is_editing());

    handle_editing_mode(&mut app, Key::Esc);

    assert!(app.is_normal_mode());
}
