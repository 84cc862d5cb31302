use faultnote::app::{AppState, PageInfo};

fn pages(n: usize) -> Vec<PageInfo> {
    (0..n).map(|i| PageInfo { id: format!("id{}", i), title: format!("Page {}", i) }).collect()
}

#[test]
fn next_page_n_times_returns_to_start() {
    for n in 1..6 {
        for start in 0..n {
            let mut app = AppState::new();
            app.set_pages(pages(n));
            for _ in 0..start {
                app.next_page();
            }
            assert_eq!(app.selected_page_index, start);
            for _ in 0..n {
                app.next_page();
            }
            assert_eq!(app.selected_page_index, start);
        }
    }
}

#[test]
fn navigation_on_empty_list_and_fields_stays_in_range() {
    let mut app = AppState::new();
    for _ in 0..9 {
        app.previous_page();
        app.next_page();
        app.handle_up();
        assert_eq!(app.selected_page_index, 0);
    }
    for k in 0..9 {
        app.previous_input();
        assert!(app.active_input_field < 4);
        app.next_input();
        app.next_input();
        assert!(app.active_input_field < 4);
        assert_eq!(app.active_input_field, (k + 1) % 4);
    }
    assert_eq!(app.page_count(), 0);
    assert!(app.get_selected_page().is_none());
    assert!(app.get_selected_page_id().is_none());
}

#[test]
fn can_submit_truth_table() {
    for mask in 0..16u32 {
        let mut app = AppState::new();
        let error_set = mask & 1 != 0;
        let problem_set = mask & 2 != 0;
        let solution_set = mask & 4 != 0;
        let target = mask & 8 != 0;
        app.error_input = if error_set { " bug ".to_string() } else { " \t".to_string() };
        app.problem_input = if problem_set { "why".to_string() } else { String::new() };
        app.solution_input = if solution_set { "fix\n".to_string() } else { "\n\n".to_string() };
        app.code_input = "   ".to_string();
        if target {
            app.set_pages(pages(1));
        }
        assert_eq!(app.can_submit(), mask == 15, "row {}", mask);
        assert_eq!(app.get_submission_data().is_some(), mask == 15, "row {}", mask);
    }
}

#[test]
fn submission_trims_code_and_drops_blank_code() {
    let mut app = AppState::new();
    app.set_pages(pages(2));
    app.next_page();
    app.error_input = "e".to_string();
    app.problem_input = "p".to_string();
    app.solution_input = " s ".to_string();
    app.code_input = "\n  let x = 1;\n".to_string();
    let (id, entry) = app.get_submission_data().unwrap();
    assert_eq!(id, "id1");
    assert_eq!(entry.solution, " s ");
    assert_eq!(entry.code, Some("let x = 1;".to_string()));
    app.code_input = " \t ".to_string();
    assert_eq!(app.get_submission_data().unwrap().1.code, None);
    assert_eq!(app.code_input, " \t ");
}

#[test]
fn clear_resets_from_any_field() {
    for field in 0..4 {
        let mut app = AppState::new();
        app.error_input = "a".to_string();
        app.problem_input = "b".to_string();
        app.solution_input = "c".to_string();
        app.code_input = "d".to_string();
        app.active_input_field = field;
        app.clear_inputs();
        for i in 0..4 {
            assert!(app.get_input_by_index(i).is_empty());
        }
        assert_eq!(app.active_input_field, 0);
    }
}

#[test]
fn delete_on_empty_buffer_is_harmless() {
    let mut app = AppState::new();
    app.delete_char();
    assert!(app.error_input.is_empty());
    app.next_input();
    app.next_input();
    app.next_input();
    app.add_char('é');
    app.add_char('x');
    app.delete_char();
    assert_eq!(app.code_input, "é");
    assert_eq!(app.get_active_input_name(), "Code");
    assert!(app.is_input_active(3));
    app.get_active_input_mut().push('!');
    assert_eq!(app.code_input, "é!");
}

#[test]
fn status_and_loading() {
    let mut app = AppState::new();
    assert!(!app.has_status());
    app.start_loading();
    assert!(app.is_loading);
    assert_eq!(app.get_status(), Some(&"Submitting...".to_string()));
    app.set_success("done");
    assert!(!app.is_loading);
    assert_eq!(app.status_message, Some("✓ done".to_string()));
    app.start_loading();
    app.set_error("bad");
    assert!(!app.is_loading);
    assert_eq!(app.status_message, Some("✗ bad".to_string()));
    app.start_loading();
    app.finish_loading();
    assert!(!app.is_loading);
    app.start_loading();
    app.set_pages(pages(3));
    assert!(!app.is_loading);
    assert_eq!(app.selected_page_index, 0);
    assert_eq!(app.get_selected_page().unwrap().title, "Page 0");
    assert_eq!(app.get_selected_page_id(), Some("id0"));
}

#[test]
fn default_matches_new() {
    let app = AppState::default();
    assert!(app.running);
    assert!(app.is_page_list_focused());
    assert!(app.is_normal_mode());
    assert_eq!(app.page_count(), 0);
}
