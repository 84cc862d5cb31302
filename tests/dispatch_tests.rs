use faultnote::app::{AppState, InputMode, PageInfo};
use faultnote::events::{finish_submission, handle_key_event, Action, Key, RemoteError};

fn page(id: &str, title: &str) -> PageInfo {
    PageInfo { id: id.to_string(), title: title.to_string() }
}

fn type_text(app: &mut AppState, text: &str) {
    for c in text.chars() {
        let action = handle_key_event(app, Key::Char(c), true);
        assert!(matches!(action, Action::Nothing));
    }
}

#[test]
fn full_entry_is_submitted_and_cleared() {
    let mut app = AppState::new();
    app.set_pages(vec![page("target-1", "Errors")]);

    handle_key_event(&mut app, Key::Tab, true);
    handle_key_event(&mut app, Key::Char('e'), true);
    assert!(app.is_editing());
    type_text(&mut app, "NullPointerException");
    handle_key_event(&mut app, Key::Tab, true);
    assert_eq!(app.active_input_field, 1);
    assert!(app.is_editing());
    type_text(&mut app, "crash on null");
    handle_key_event(&mut app, Key::Tab, true);
    assert_eq!(app.active_input_field, 2);
    type_text(&mut app, "added null check");

    let (id, entry) = app.get_submission_data().unwrap();
    assert_eq!(id, "target-1");
    assert_eq!(entry.error, "NullPointerException");
    assert_eq!(entry.problem, "crash on null");
    assert_eq!(entry.solution, "added null check");
    assert_eq!(entry.code, None);

    handle_key_event(&mut app, Key::Esc, true);
    assert!(app.is_normal_mode());
    let action = handle_key_event(&mut app, Key::Enter, true);
    match action {
        Action::Submit { page_id, entry } => {
            assert_eq!(page_id, "target-1");
            assert_eq!(entry.error, "NullPointerException");
            assert_eq!(entry.problem, "crash on null");
            assert_eq!(entry.solution, "added null check");
            assert_eq!(entry.code, None);
        }
        Action::Nothing => panic!("expected a submission"),
    }
    assert!(app.is_loading);
    assert_eq!(app.status_message, Some("Submitting...".to_string()));

    finish_submission(&mut app, Ok(()));
    assert!(app.error_input.is_empty());
    assert!(app.problem_input.is_empty());
    assert!(app.solution_input.is_empty());
    assert!(app.code_input.is_empty());
    assert_eq!(app.active_input_field, 0);
    assert!(!app.is_loading);
    assert_eq!(app.status_message, Some("✓ Entry saved to Notion".to_string()));
}

#[test]
fn submit_with_empty_fields_is_rejected() {
    let mut app = AppState::new();
    app.set_pages(vec![page("t", "T")]);
    let action = handle_key_event(&mut app, Key::Enter, true);
    assert!(matches!(action, Action::Nothing));
    assert_eq!(
        app.status_message,
        Some("✗ Fill in Error, Problem, and Solution fields first".to_string())
    );
    assert!(!app.is_loading);
}

#[test]
fn submit_without_remote_is_rejected() {
    let mut app = AppState::new();
    app.set_pages(vec![page("t", "T")]);
    app.error_input = "e".to_string();
    app.problem_input = "p".to_string();
    app.solution_input = "s".to_string();
    let action = handle_key_event(&mut app, Key::Enter, false);
    assert!(matches!(action, Action::Nothing));
    assert_eq!(app.status_message, Some("✗ Not connected to Notion".to_string()));
    assert!(!app.is_loading);
    assert_eq!(app.error_input, "e");
}

#[test]
fn failed_submission_keeps_fields() {
    let mut app = AppState::new();
    app.set_pages(vec![page("t", "T")]);
    app.error_input = "e".to_string();
    app.problem_input = "p".to_string();
    app.solution_input = "s".to_string();
    app.code_input = "c".to_string();
    let action = handle_key_event(&mut app, Key::Enter, true);
    assert!(matches!(action, Action::Submit { .. }));
    finish_submission(&mut app, Err(RemoteError::NotFound));
    assert_eq!(app.status_message, Some("✗ Failed to save: page not found".to_string()));
    assert!(!app.is_loading);
    assert_eq!(app.error_input, "e");
    assert_eq!(app.problem_input, "p");
    assert_eq!(app.solution_input, "s");
    assert_eq!(app.code_input, "c");
}

#[test]
fn remote_errors_are_classified_and_described() {
    assert_eq!(RemoteError::from_failure(true, Some(404)), RemoteError::Timeout);
    assert_eq!(RemoteError::from_failure(false, Some(401)), RemoteError::Auth);
    assert_eq!(RemoteError::from_failure(false, Some(403)), RemoteError::Auth);
    assert_eq!(RemoteError::from_failure(false, Some(404)), RemoteError::NotFound);
    assert_eq!(RemoteError::from_failure(false, Some(500)), RemoteError::Network);
    assert_eq!(RemoteError::from_failure(false, None), RemoteError::Network);
    assert_eq!(RemoteError::Network.describe(), "network error");
    assert_eq!(RemoteError::Auth.describe(), "authentication failed");
    assert_eq!(RemoteError::Timeout.describe(), "request timed out");
}

#[test]
fn previous_page_from_top_wraps_to_last() {
    let mut app = AppState::new();
    app.set_pages(vec![page("1", "A"), page("2", "B"), page("3", "C")]);
    assert_eq!(app.selected_page_index, 0);
    handle_key_event(&mut app, Key::Up, false);
    assert_eq!(app.selected_page_index, 2);
    app.set_pages(vec![page("1", "A"), page("2", "B"), page("3", "C")]);
    app.previous_page();
    assert_eq!(app.selected_page_index, 2);
}

#[test]
fn editing_arrows_leave_edit_mode_but_tab_does_not() {
    let mut app = AppState::new();
    handle_key_event(&mut app, Key::Tab, false);
    handle_key_event(&mut app, Key::Char('i'), false);
    assert!(app.is_editing());
    handle_key_event(&mut app, Key::Down, false);
    assert_eq!(app.active_input_field, 1);
    assert!(app.is_normal_mode());
    handle_key_event(&mut app, Key::Char('e'), false);
    handle_key_event(&mut app, Key::Up, false);
    assert_eq!(app.active_input_field, 0);
    assert!(app.is_normal_mode());
    handle_key_event(&mut app, Key::Char('e'), false);
    handle_key_event(&mut app, Key::Tab, false);
    assert_eq!(app.active_input_field, 1);
    assert!(app.is_editing());
    handle_key_event(&mut app, Key::Enter, false);
    handle_key_event(&mut app, Key::Char('q'), false);
    assert_eq!(app.problem_input, "\nq");
    assert!(app.is_running());
}

#[test]
fn normal_mode_keys() {
    let mut app = AppState::new();
    app.set_pages(vec![page("1", "A"), page("2", "B")]);
    handle_key_event(&mut app, Key::Char('j'), false);
    assert_eq!(app.selected_page_index, 1);
    handle_key_event(&mut app, Key::Char('k'), false);
    assert_eq!(app.selected_page_index, 0);
    handle_key_event(&mut app, Key::Char('e'), false);
    assert!(app.is_normal_mode());
    app.error_input = "x".to_string();
    handle_key_event(&mut app, Key::Char('c'), false);
    assert!(app.error_input.is_empty());
    assert_eq!(app.status_message, Some("Inputs cleared".to_string()));
    handle_key_event(&mut app, Key::Esc, false);
    assert!(app.status_message.is_none());
    handle_key_event(&mut app, Key::Other, false);
    handle_key_event(&mut app, Key::Char('z'), false);
    assert_eq!(app.selected_page_index, 0);
    assert!(app.is_running());
    handle_key_event(&mut app, Key::Char('Q'), false);
    assert!(!app.is_running());
}

#[test]
fn leaving_inputs_while_editing_ends_editing() {
    let mut app = AppState::new();
    app.toggle_focus();
    app.enter_edit_mode();
    assert_eq!(app.input_mode, InputMode::Editing);
    app.toggle_focus();
    assert_eq!(app.input_mode, InputMode::Normal);
    app.enter_edit_mode();
    assert_eq!(app.input_mode, InputMode::Normal);
}
