//! Key dispatch: the normal-mode and editing-mode key tables, and the
//! submission sequence around the one remote call.
use vstd::prelude::*;
use crate::app::{error_text, success_text, submitting_text, AppState, AppView, FaultLogEntry};

verus! {

/// A key press, as far as the dispatcher distinguishes keys.
#[derive(Debug, Clone, Copy, PartialEq, Eq, Structural)]
pub enum Key {
    Char(char),
    Tab,
    Up,
    Down,
    Enter,
    Esc,
    Backspace,
    /// Any key that neither table binds.
    Other,
}

/// Why the remote append failed.
#[derive(Debug, Clone, Copy, PartialEq, Eq, Structural)]
pub enum RemoteError {
    Network,
    Auth,
    NotFound,
    Timeout,
}

/// Human-readable description of a failure kind.
pub open spec fn remote_error_text(e: RemoteError) -> Seq<char> {
    match e {
        RemoteError::Network => "network error"@,
        RemoteError::Auth => "authentication failed"@,
        RemoteError::NotFound => "page not found"@,
        RemoteError::Timeout => "request timed out"@,
    }
}

impl RemoteError {
    /// Classify a failed request: a timeout first, then 401/403 as an
    /// authentication failure, 404 as a missing page, anything else as a
    /// network error.
    pub fn from_failure(timed_out: bool, status: Option<u16>) -> (r: RemoteError)
        ensures
            timed_out ==> r == RemoteError::Timeout,
            !timed_out && (status == Some(401u16) || status == Some(403u16)) ==> r
                == RemoteError::Auth,
            !timed_out && status == Some(404u16) ==> r == RemoteError::NotFound,
            !timed_out && status != Some(401u16) && status != Some(403u16) && status != Some(
                404u16,
            ) ==> r == RemoteError::Network,
    {
        if timed_out {
            return RemoteError::Timeout;
        }
        match status {
            Some(401) | Some(403) => RemoteError::Auth,
            Some(404) => RemoteError::NotFound,
            _ => RemoteError::Network,
        }
    }

    /// Human-readable description of the failure kind.
    pub fn describe(&self) -> (r: &'static str)
        ensures
            r@ == remote_error_text(*self),
    {
        match self {
            RemoteError::Network => "network error",
            RemoteError::Auth => "authentication failed",
            RemoteError::NotFound => "page not found",
            RemoteError::Timeout => "request timed out",
        }
    }
}

/// What the caller has to do after a key was dispatched.
#[derive(Debug)]
pub enum Action {
    Nothing,
    /// Append `entry` to page `page_id`, then report the outcome with
    /// `finish_submission`.
    Submit { page_id: String, entry: FaultLogEntry },
}

/// Status text after the clear key.
pub open spec fn cleared_text() -> Seq<char> {
    "Inputs cleared"@
}

/// Error text when required fields are missing.
pub open spec fn fill_fields_text() -> Seq<char> {
    "Fill in Error, Problem, and Solution fields first"@
}

/// Error text when no remote is configured.
pub open spec fn not_connected_text() -> Seq<char> {
    "Not connected to Notion"@
}

/// Success text after an entry was appended.
pub open spec fn saved_text() -> Seq<char> {
    "Entry saved to Notion"@
}

/// Error text after a failed append.
pub open spec fn save_failed_text(e: RemoteError) -> Seq<char> {
    "Failed to save: "@ + remote_error_text(e)
}

/// The state after the submit key: rejected with an error message, or
/// loading while the append is outstanding.
pub open spec fn after_submit_key(v: AppView, connected: bool) -> AppView {
    if !v.submittable() {
        AppView { status: Some(error_text(fill_fields_text())), loading: false, ..v }
    } else if !connected {
        AppView { status: Some(error_text(not_connected_text())), loading: false, ..v }
    } else {
        AppView { status: Some(submitting_text()), loading: true, ..v }
    }
}

/// The normal-mode key table.
pub open spec fn normal_step(v: AppView, key: Key, connected: bool) -> AppView {
    match key {
        Key::Char(c) => {
            if c == 'q' || c == 'Q' {
                AppView { running: false, ..v }
            } else if c == 'k' {
                v.after_up()
            } else if c == 'j' {
                v.after_down()
            } else if c == 'e' || c == 'i' {
                v.after_enter_edit()
            } else if c == 'c' {
                v.after_clear_inputs().with_status(Some(cleared_text()))
            } else {
                v
            }
        },
        Key::Tab => v.after_toggle_focus(),
        Key::Up => v.after_up(),
        Key::Down => v.after_down(),
        Key::Enter => after_submit_key(v, connected),
        Key::Esc => v.with_status(None),
        _ => v,
    }
}

/// The editing-mode key table.
pub open spec fn editing_step(v: AppView, key: Key) -> AppView {
    match key {
        Key::Esc => v.after_exit_edit(),
        Key::Char(c) => v.with_active_input(v.inputs[v.active as int].push(c)),
        Key::Backspace => {
            if v.inputs[v.active as int].len() == 0 {
                v
            } else {
                v.with_active_input(v.inputs[v.active as int].drop_last())
            }
        },
        Key::Enter => v.with_active_input(v.inputs[v.active as int].push('\n')),
        Key::Tab => v.after_exit_edit().after_next_input().after_enter_edit(),
        Key::Up => v.after_exit_edit().after_previous_input(),
        Key::Down => v.after_exit_edit().after_next_input(),
        Key::Other => v,
    }
}

/// The submit key starts a remote append exactly when the fields can be
/// submitted and a remote is configured.
pub open spec fn starts_submission(v: AppView, key: Key, connected: bool) -> bool {
    key == Key::Enter && v.submittable() && connected
}

/// `a` is the action that the submit key yields in state `v`.
pub open spec fn submit_action_of(v: AppView, a: Action) -> bool {
    match a {
        Action::Nothing => false,
        Action::Submit { page_id, entry } => page_id@ == v.pages[v.selected as int].id && entry@
            == v.entry(),
    }
}

/// Dispatch one key press by the current mode. `connected` tells whether a
/// remote is configured.
pub fn handle_key_event(app: &mut AppState, key: Key, connected: bool) -> (r: Action)
    requires
        old(app).wf(),
    ensures
        final(app).wf(),
        old(app)@.mode == crate::app::InputMode::Editing ==> final(app)@ == editing_step(
            old(app)@,
            key,
        ) && r is Nothing,
        old(app)@.mode == crate::app::InputMode::Normal ==> final(app)@ == normal_step(
            old(app)@,
            key,
            connected,
        ) && (r is Submit <==> starts_submission(old(app)@, key, connected)) && (r is Submit
            ==> submit_action_of(old(app)@, r)),
{
    if app.is_editing() {
        handle_editing_mode(app, key);
        Action::Nothing
    } else {
        handle_normal_mode(app, key, connected)
    }
}

/// Normal mode: navigate, toggle focus, start editing, submit, clear, quit.
pub fn handle_normal_mode(app: &mut AppState, key: Key, connected: bool) -> (r: Action)
    requires
        old(app).wf(),
    ensures
        final(app).wf(),
        final(app)@ == normal_step(old(app)@, key, connected),
        r is Submit <==> starts_submission(old(app)@, key, connected),
        r is Submit ==> submit_action_of(old(app)@, r),
{
    match key {
        Key::Char('q') | Key::Char('Q') => {
            app.quit();
        },
        Key::Tab => {
            app.toggle_focus();
        },
        Key::Up | Key::Char('k') => {
            app.handle_up();
        },
        Key::Down | Key::Char('j') => {
            app.handle_down();
        },
        Key::Char('e') | Key::Char('i') => {
            app.enter_edit_mode();
        },
        Key::Enter => {
            return start_submission(app, connected);
        },
        Key::Char('c') => {
            app.clear_inputs();
            app.set_status("Inputs cleared");
        },
        Key::Esc => {
            app.clear_status();
        },
        _ => {},
    }
    Action::Nothing
}

/// The submission sequence up to the remote call: validate, confirm that a
/// remote is configured, snapshot the entry and mark loading.
fn start_submission(app: &mut AppState, connected: bool) -> (r: Action)
    requires
        old(app).wf(),
    ensures
        final(app).wf(),
        final(app)@ == after_submit_key(old(app)@, connected),
        r is Submit <==> old(app)@.submittable() && connected,
        r is Submit ==> submit_action_of(old(app)@, r),
{
    if !app.can_submit() {
        app.set_error("Fill in Error, Problem, and Solution fields first");
        return Action::Nothing;
    }
    if !connected {
        app.set_error("Not connected to Notion");
        return Action::Nothing;
    }
    match app.get_submission_data() {
        Some((page_id, entry)) => {
            app.start_loading();
            Action::Submit { page_id, entry }
        },
        None => {
            app.set_error("Nothing to submit");
            Action::Nothing
        },
    }
}

/// Fold the outcome of the remote append back into the state: on success
/// the fields are cleared; on failure they are kept so the user can retry.
pub fn finish_submission(app: &mut AppState, outcome: Result<(), RemoteError>)
    requires
        old(app).wf(),
    ensures
        final(app).wf(),
        outcome is Ok ==> final(app)@ == (AppView {
            status: Some(success_text(saved_text())),
            loading: false,
            ..old(app)@.after_clear_inputs()
        }),
        outcome matches Err(e) ==> final(app)@ == (AppView {
            status: Some(error_text(save_failed_text(e))),
            loading: false,
            ..old(app)@
        }),
{
    match outcome {
        Ok(()) => {
            app.set_success("Entry saved to Notion");
            app.clear_inputs();
        },
        Err(e) => {
            let mut message = "Failed to save: ".to_string();
            message.append(e.describe());
            app.set_error(message.as_str());
        },
    }
}

/// Editing mode: type into the active field, move between fields, leave.
/// Tab re-enters editing on the next field; Up and Down do not.
pub fn handle_editing_mode(app: &mut AppState, key: Key)
    requires
        old(app).wf(),
    ensures
        final(app).wf(),
        final(app)@ == editing_step(old(app)@, key),
{
    match key {
        Key::Esc => {
            app.exit_edit_mode();
        },
        Key::Char(c) => {
            app.add_char(c);
        },
        Key::Backspace => {
            app.delete_char();
        },
        Key::Enter => {
            app.add_newline();
        },
        Key::Tab => {
            app.exit_edit_mode();
            app.next_input();
            app.enter_edit_mode();
        },
        Key::Up => {
            app.exit_edit_mode();
            app.previous_input();
        },
        Key::Down => {
            app.exit_edit_mode();
            app.next_input();
        },
        Key::Other => {},
    }
}

} // verus!
