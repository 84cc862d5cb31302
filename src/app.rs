//! The application state model: focus, edit mode, the page list, the four
//! input buffers and the status line.
use vstd::prelude::*;
use crate::text::{is_blank, lemma_trim_empty_iff_blank, pop_char, push_char, trim, trim_seq};

verus! {

/// Number of input fields: Error, Problem, Solution, Code.
pub const MAX_INPUTS: usize = 4;

/// Which major section of the screen has focus.
#[derive(Debug, Clone, Copy, PartialEq, Eq, Structural, Default)]
pub enum FocusArea {
    /// The page list on the left.
    #[default]
    PageList,
    /// The input fields on the right.
    InputSection,
}

/// Whether keys navigate or type into the active field.
#[derive(Debug, Clone, Copy, PartialEq, Eq, Structural, Default)]
pub enum InputMode {
    #[default]
    Normal,
    Editing,
}

/// A remote page that an entry can be filed into.
#[derive(Debug, Clone)]
pub struct PageInfo {
    /// Opaque page identifier.
    pub id: String,
    /// Display name.
    pub title: String,
}

/// Abstract value of a page reference.
pub struct PageView {
    pub id: Seq<char>,
    pub title: Seq<char>,
}

impl View for PageInfo {
    type V = PageView;

    open spec fn view(&self) -> PageView {
        PageView { id: self.id@, title: self.title@ }
    }
}

/// The record sent to the remote document when an entry is submitted.
#[derive(Debug, Clone)]
pub struct FaultLogEntry {
    pub error: String,
    pub problem: String,
    pub solution: String,
    pub code: Option<String>,
}

/// Abstract value of an entry.
pub struct EntryView {
    pub error: Seq<char>,
    pub problem: Seq<char>,
    pub solution: Seq<char>,
    pub code: Option<Seq<char>>,
}

/// The character sequence of an optional string.
pub open spec fn opt_str_view(o: Option<String>) -> Option<Seq<char>> {
    match o {
        Some(s) => Some(s@),
        None => None,
    }
}

impl View for FaultLogEntry {
    type V = EntryView;

    open spec fn view(&self) -> EntryView {
        EntryView {
            error: self.error@,
            problem: self.problem@,
            solution: self.solution@,
            code: opt_str_view(self.code),
        }
    }
}

/// The whole application state.
#[derive(Debug)]
pub struct AppState {
    /// Cleared to stop the main loop.
    pub running: bool,
    pub current_focus: FocusArea,
    pub input_mode: InputMode,
    /// Pages that entries can be filed into, in the order they were listed.
    pub notion_pages: Vec<PageInfo>,
    /// Index of the highlighted page.
    pub selected_page_index: usize,
    /// 0 = Error, 1 = Problem, 2 = Solution, 3 = Code.
    pub active_input_field: usize,
    pub error_input: String,
    pub problem_input: String,
    pub solution_input: String,
    pub code_input: String,
    /// Feedback line; success and error messages carry a leading glyph.
    pub status_message: Option<String>,
    /// True while a submission is outstanding.
    pub is_loading: bool,
}

/// Abstract value of the application state.
pub struct AppView {
    pub running: bool,
    pub focus: FocusArea,
    pub mode: InputMode,
    pub pages: Seq<PageView>,
    pub selected: nat,
    pub active: nat,
    /// The four buffers, indexed like `active`.
    pub inputs: Seq<Seq<char>>,
    pub status: Option<Seq<char>>,
    pub loading: bool,
}

/// Text shown while a submission is outstanding.
pub open spec fn submitting_text() -> Seq<char> {
    "Submitting..."@
}

/// A status line announcing success.
pub open spec fn success_text(message: Seq<char>) -> Seq<char> {
    "✓ "@ + message
}

/// A status line announcing failure.
pub open spec fn error_text(message: Seq<char>) -> Seq<char> {
    "✗ "@ + message
}

/// Display name of input field `i`.
pub open spec fn field_name(i: nat) -> Seq<char> {
    if i == 0 {
        "Error"@
    } else if i == 1 {
        "Problem"@
    } else if i == 2 {
        "Solution"@
    } else {
        "Code"@
    }
}

/// A buffer holds something other than whitespace.
pub open spec fn has_text(s: Seq<char>) -> bool {
    trim_seq(s).len() > 0
}

/// The optional code field of an entry: the trimmed buffer, absent when that
/// is empty.
pub open spec fn code_of(s: Seq<char>) -> Option<Seq<char>> {
    if has_text(s) {
        Some(trim_seq(s))
    } else {
        None
    }
}

impl AppView {
    /// The state at start-up: running, page list focused, normal mode, no
    /// pages, empty fields with Error active, no status, not loading.
    pub open spec fn initial() -> AppView {
        AppView {
            running: true,
            focus: FocusArea::PageList,
            mode: InputMode::Normal,
            pages: Seq::empty(),
            selected: 0,
            active: 0,
            inputs: seq![Seq::empty(), Seq::empty(), Seq::empty(), Seq::empty()],
            status: None,
            loading: false,
        }
    }

    /// The invariants that every mutator preserves.
    pub open spec fn wf(self) -> bool {
        &&& self.inputs.len() == 4
        &&& self.active < 4
        &&& self.pages.len() == 0 ==> self.selected == 0
        &&& self.pages.len() > 0 ==> self.selected < self.pages.len()
        &&& self.mode == InputMode::Editing ==> self.focus == FocusArea::InputSection
    }

    /// Selection moved one page down, wrapping to the top.
    pub open spec fn after_next_page(self) -> AppView {
        if self.pages.len() == 0 {
            self
        } else {
            AppView { selected: ((self.selected + 1) % self.pages.len()) as nat, ..self }
        }
    }

    /// Selection moved one page up, wrapping to the bottom.
    pub open spec fn after_previous_page(self) -> AppView {
        if self.pages.len() == 0 {
            self
        } else {
            AppView {
                selected: ((self.selected + self.pages.len() - 1) % (self.pages.len() as int)) as nat,
                ..self
            }
        }
    }

    /// Active field moved one forward, wrapping from Code to Error.
    pub open spec fn after_next_input(self) -> AppView {
        AppView { active: ((self.active + 1) % 4) as nat, ..self }
    }

    /// Active field moved one back, wrapping from Error to Code.
    pub open spec fn after_previous_input(self) -> AppView {
        AppView { active: ((self.active + 3) % 4) as nat, ..self }
    }

    /// Focus flipped; leaving the input section ends editing.
    pub open spec fn after_toggle_focus(self) -> AppView {
        if self.focus == FocusArea::PageList {
            AppView { focus: FocusArea::InputSection, ..self }
        } else {
            AppView { focus: FocusArea::PageList, mode: InputMode::Normal, ..self }
        }
    }

    /// Editing starts, but only while the input section has focus.
    pub open spec fn after_enter_edit(self) -> AppView {
        if self.focus == FocusArea::InputSection {
            AppView { mode: InputMode::Editing, ..self }
        } else {
            self
        }
    }

    /// Editing ends.
    pub open spec fn after_exit_edit(self) -> AppView {
        AppView { mode: InputMode::Normal, ..self }
    }

    /// Up: previous page or previous field, by focus.
    pub open spec fn after_up(self) -> AppView {
        if self.focus == FocusArea::PageList {
            self.after_previous_page()
        } else {
            self.after_previous_input()
        }
    }

    /// Down: next page or next field, by focus.
    pub open spec fn after_down(self) -> AppView {
        if self.focus == FocusArea::PageList {
            self.after_next_page()
        } else {
            self.after_next_input()
        }
    }

    /// The active buffer replaced by `s`.
    pub open spec fn with_active_input(self, s: Seq<char>) -> AppView {
        AppView { inputs: self.inputs.update(self.active as int, s), ..self }
    }

    /// All four buffers empty and the first field active.
    pub open spec fn after_clear_inputs(self) -> AppView {
        AppView { inputs: seq![Seq::empty(), Seq::empty(), Seq::empty(), Seq::empty()], active: 0, ..self }
    }

    /// The page list replaced; selection back at the top, loading over.
    pub open spec fn after_set_pages(self, pages: Seq<PageView>) -> AppView {
        AppView { pages, selected: 0, loading: false, ..self }
    }

    /// The status line replaced.
    pub open spec fn with_status(self, status: Option<Seq<char>>) -> AppView {
        AppView { status, ..self }
    }

    /// Error, Problem and Solution hold text and there is a page to file into.
    pub open spec fn submittable(self) -> bool {
        &&& has_text(self.inputs[0])
        &&& has_text(self.inputs[1])
        &&& has_text(self.inputs[2])
        &&& self.pages.len() > 0
    }

    /// The entry assembled from the buffers.
    pub open spec fn entry(self) -> EntryView {
        EntryView {
            error: self.inputs[0],
            problem: self.inputs[1],
            solution: self.inputs[2],
            code: code_of(self.inputs[3]),
        }
    }
}

/// The selection after `k` presses of "next page".
pub open spec fn repeat_next_page(v: AppView, k: nat) -> AppView
    decreases k,
{
    if k == 0 {
        v
    } else {
        repeat_next_page(v, (k - 1) as nat).after_next_page()
    }
}

proof fn lemma_repeat_next_page_index(v: AppView, k: nat)
    requires
        v.wf(),
        v.pages.len() > 0,
    ensures
        repeat_next_page(v, k) == (AppView {
            selected: (((v.selected + k) as int) % (v.pages.len() as int)) as nat,
            ..v
        }),
    decreases k,
{
    let n = v.pages.len() as int;
    if k == 0 {
        vstd::arithmetic::div_mod::lemma_small_mod(v.selected, n as nat);
    } else {
        lemma_repeat_next_page_index(v, (k - 1) as nat);
        let prev = (v.selected + k - 1) % n;
        vstd::arithmetic::div_mod::lemma_add_mod_noop(v.selected + k - 1, 1, n);
        assert(0 <= prev < n) by {
            vstd::arithmetic::div_mod::lemma_mod_bound(v.selected + k - 1, n);
        }
        vstd::arithmetic::div_mod::lemma_mod_bound(prev + 1, n);
        if n == 1 {
            assert((prev + 1) % n == 0);
            assert(((v.selected + k) as int) % n == 0);
        } else {
            vstd::arithmetic::div_mod::lemma_small_mod(1, n as nat);
        }
    }
}

/// Pressing "next page" once per page brings the selection back to where it
/// started, for any non-empty page list.
pub proof fn lemma_next_page_wraps_around(v: AppView)
    requires
        v.wf(),
        v.pages.len() >= 1,
    ensures
        repeat_next_page(v, v.pages.len()) == v,
{
    lemma_repeat_next_page_index(v, v.pages.len());
    let n = v.pages.len() as int;
    vstd::arithmetic::div_mod::lemma_mod_add_multiples_vanish(v.selected as int, n);
    vstd::arithmetic::div_mod::lemma_small_mod(v.selected, n as nat);
}

/// Page and field navigation keep the selection inside the page list (at 0
/// when it is empty) and the active field among the four, whatever the
/// buffers hold.
pub proof fn lemma_navigation_keeps_invariants(v: AppView)
    requires
        v.wf(),
    ensures
        v.after_next_page().wf(),
        v.after_previous_page().wf(),
        v.after_next_input().wf(),
        v.after_previous_input().wf(),
        v.after_up().wf(),
        v.after_down().wf(),
        v.pages.len() == 0 ==> v.after_next_page() == v && v.after_previous_page() == v,
{
}

/// Submission is possible exactly when Error, Problem and Solution each hold
/// a non-whitespace character and the page list is non-empty; the Code
/// field plays no part.
pub proof fn lemma_submittable_exactly(v: AppView, code: Seq<char>)
    requires
        v.wf(),
    ensures
        v.submittable() <==> (!is_blank(v.inputs[0]) && !is_blank(v.inputs[1]) && !is_blank(
            v.inputs[2],
        ) && v.pages.len() > 0),
        (AppView { inputs: v.inputs.update(3, code), ..v }).submittable() == v.submittable(),
{
    lemma_trim_empty_iff_blank(v.inputs[0]);
    lemma_trim_empty_iff_blank(v.inputs[1]);
    lemma_trim_empty_iff_blank(v.inputs[2]);
    let w = AppView { inputs: v.inputs.update(3, code), ..v };
    assert(w.inputs[0] == v.inputs[0]);
    assert(w.inputs[1] == v.inputs[1]);
    assert(w.inputs[2] == v.inputs[2]);
}

impl View for AppState {
    type V = AppView;

    open spec fn view(&self) -> AppView {
        AppView {
            running: self.running,
            focus: self.current_focus,
            mode: self.input_mode,
            pages: self.notion_pages@.map_values(|p: PageInfo| p@),
            selected: self.selected_page_index as nat,
            active: self.active_input_field as nat,
            inputs: seq![self.error_input@, self.problem_input@, self.solution_input@, self.code_input@],
            status: opt_str_view(self.status_message),
            loading: self.is_loading,
        }
    }
}

impl AppState {
    /// The state invariants hold.
    pub open spec fn wf(&self) -> bool {
        self@.wf()
    }

    /// The state with buffer `i` replaced by `s`.
    pub open spec fn with_buffer(self, i: usize, s: String) -> AppState {
        if i == 0 {
            AppState { error_input: s, ..self }
        } else if i == 1 {
            AppState { problem_input: s, ..self }
        } else if i == 2 {
            AppState { solution_input: s, ..self }
        } else {
            AppState { code_input: s, ..self }
        }
    }

    /// A fresh state: nothing typed, no pages, page list focused, normal mode.
    pub fn new() -> (r: Self)
        ensures
            r.wf(),
            r@ == AppView::initial(),
    {
        let r = Self {
            running: true,
            current_focus: FocusArea::PageList,
            input_mode: InputMode::Normal,
            notion_pages: Vec::new(),
            selected_page_index: 0,
            active_input_field: 0,
            error_input: String::new(),
            problem_input: String::new(),
            solution_input: String::new(),
            code_input: String::new(),
            status_message: None,
            is_loading: false,
        };
        assert(r@.pages =~= Seq::<PageView>::empty());
        r
    }

    /// Ask the main loop to stop.
    pub fn quit(&mut self)
        ensures
            final(self)@ == (AppView { running: false, ..old(self)@ }),
    {
        self.running = false;
    }

    /// Whether the main loop should keep going.
    pub fn is_running(&self) -> (r: bool)
        ensures
            r == self@.running,
    {
        self.running
    }

    /// Switch focus between the page list and the input section; leaving the
    /// input section always ends editing.
    pub fn toggle_focus(&mut self)
        requires
            old(self).wf(),
        ensures
            final(self).wf(),
            final(self)@ == old(self)@.after_toggle_focus(),
            old(self)@.mode == InputMode::Editing ==> final(self)@.mode == InputMode::Normal,
    {
        match self.current_focus {
            FocusArea::PageList => {
                self.current_focus = FocusArea::InputSection;
            },
            FocusArea::InputSection => {
                self.current_focus = FocusArea::PageList;
                self.input_mode = InputMode::Normal;
            },
        }
    }

    /// Whether the page list has focus.
    pub fn is_page_list_focused(&self) -> (r: bool)
        ensures
            r == (self@.focus == FocusArea::PageList),
    {
        matches!(self.current_focus, FocusArea::PageList)
    }

    /// Whether the input section has focus.
    pub fn is_input_section_focused(&self) -> (r: bool)
        ensures
            r == (self@.focus == FocusArea::InputSection),
    {
        matches!(self.current_focus, FocusArea::InputSection)
    }

    /// Move the page selection down, wrapping from the last page to the first.
    /// Nothing happens while the list is empty.
    pub fn next_page(&mut self)
        requires
            old(self).wf(),
        ensures
            final(self).wf(),
            final(self)@ == old(self)@.after_next_page(),
    {
        if self.notion_pages.is_empty() {
            return;
        }
        let total = self.notion_pages.len();
        self.selected_page_index = (self.selected_page_index + 1) % total;
    }

    /// Move the page selection up, wrapping from the first page to the last.
    /// Nothing happens while the list is empty.
    pub fn previous_page(&mut self)
        requires
            old(self).wf(),
        ensures
            final(self).wf(),
            final(self)@ == old(self)@.after_previous_page(),
    {
        if self.notion_pages.is_empty() {
            return;
        }
        let total = self.notion_pages.len();
        if self.selected_page_index == 0 {
            self.selected_page_index = total - 1;
        } else {
            self.selected_page_index -= 1;
        }
        proof {
            let n = total as int;
            let i = old(self).selected_page_index as int;
            if i == 0 {
                assert((i + n - 1) % n == n - 1) by (nonlinear_arith)
                    requires n > 0, i == 0;
            } else {
                assert((i + n - 1) % n == i - 1) by {
                    vstd::arithmetic::div_mod::lemma_mod_add_multiples_vanish(i - 1, n);
                    vstd::arithmetic::div_mod::lemma_small_mod((i - 1) as nat, n as nat);
                }
            }
        }
    }

    /// The highlighted page, if the list is non-empty.
    pub fn get_selected_page(&self) -> (r: Option<&PageInfo>)
        ensures
            r is Some <==> self.selected_page_index < self.notion_pages.len(),
            r is Some ==> *r->0 == self.notion_pages@[self.selected_page_index as int],
    {
        if self.selected_page_index < self.notion_pages.len() {
            Some(&self.notion_pages[self.selected_page_index])
        } else {
            None
        }
    }

    /// The identifier of the highlighted page, if the list is non-empty.
    pub fn get_selected_page_id(&self) -> (r: Option<&str>)
        ensures
            r is Some <==> self.selected_page_index < self.notion_pages.len(),
            r is Some ==> r->0@ == self@.pages[self.selected_page_index as int].id,
    {
        match self.get_selected_page() {
            Some(p) => Some(p.id.as_str()),
            None => None,
        }
    }

    /// Replace the page list; the selection returns to the first page and
    /// any loading indicator is cleared.
    pub fn set_pages(&mut self, pages: Vec<PageInfo>)
        requires
            old(self).wf(),
        ensures
            final(self).wf(),
            final(self).notion_pages@ == pages@,
            final(self)@ == old(self)@.after_set_pages(pages@.map_values(|p: PageInfo| p@)),
    {
        self.notion_pages = pages;
        self.selected_page_index = 0;
        self.is_loading = false;
    }

    /// Number of pages in the list.
    pub fn page_count(&self) -> (r: usize)
        ensures
            r == self@.pages.len(),
    {
        self.notion_pages.len()
    }

    /// Make the next field active (Error, Problem, Solution, Code, Error, ...).
    pub fn next_input(&mut self)
        requires
            old(self).wf(),
        ensures
            final(self).wf(),
            final(self)@ == old(self)@.after_next_input(),
    {
        self.active_input_field = (self.active_input_field + 1) % MAX_INPUTS;
    }

    /// Make the previous field active, wrapping from Error to Code.
    pub fn previous_input(&mut self)
        requires
            old(self).wf(),
        ensures
            final(self).wf(),
            final(self)@ == old(self)@.after_previous_input(),
    {
        if self.active_input_field == 0 {
            self.active_input_field = MAX_INPUTS - 1;
        } else {
            self.active_input_field -= 1;
        }
    }

    /// Whether field `index` is the active one.
    pub fn is_input_active(&self, index: usize) -> (r: bool)
        ensures
            r == (self.active_input_field == index),
    {
        self.active_input_field == index
    }

    /// Display name of the active field.
    pub fn get_active_input_name(&self) -> (r: &'static str)
        requires
            self.wf(),
        ensures
            r@ == field_name(self@.active),
    {
        match self.active_input_field {
            0 => "Error",
            1 => "Problem",
            2 => "Solution",
            _ => "Code",
        }
    }

    /// Start editing the active field; only possible while the input section
    /// has focus, otherwise nothing happens.
    pub fn enter_edit_mode(&mut self)
        requires
            old(self).wf(),
        ensures
            final(self).wf(),
            final(self)@ == old(self)@.after_enter_edit(),
            old(self)@.focus == FocusArea::PageList ==> final(self)@ == old(self)@,
    {
        if self.is_input_section_focused() {
            self.input_mode = InputMode::Editing;
        }
    }

    /// Return to normal (navigation) mode.
    pub fn exit_edit_mode(&mut self)
        requires
            old(self).wf(),
        ensures
            final(self).wf(),
            final(self)@ == old(self)@.after_exit_edit(),
    {
        self.input_mode = InputMode::Normal;
    }

    /// Whether keys are typed into the active field.
    pub fn is_editing(&self) -> (r: bool)
        ensures
            r == (self@.mode == InputMode::Editing),
    {
        matches!(self.input_mode, InputMode::Editing)
    }

    /// Whether keys navigate.
    pub fn is_normal_mode(&self) -> (r: bool)
        ensures
            r == (self@.mode == InputMode::Normal),
    {
        matches!(self.input_mode, InputMode::Normal)
    }

    /// The active field's buffer.
    pub fn get_active_input(&self) -> (r: &String)
        requires
            self.wf(),
        ensures
            r@ == self@.inputs[self@.active as int],
    {
        self.get_input_by_index(self.active_input_field)
    }

    /// Mutable access to the active field's buffer; whatever is written
    /// through it becomes that buffer and nothing else changes.
    pub fn get_active_input_mut(&mut self) -> (r: &mut String)
        requires
            old(self).wf(),
        ensures
            r@ == old(self)@.inputs[old(self)@.active as int],
            *final(self) == old(self).with_buffer(old(self).active_input_field, *final(r)),
    {
        match self.active_input_field {
            0 => &mut self.error_input,
            1 => &mut self.problem_input,
            2 => &mut self.solution_input,
            _ => &mut self.code_input,
        }
    }

    /// Append a character to the active field.
    pub fn add_char(&mut self, c: char)
        requires
            old(self).wf(),
        ensures
            final(self).wf(),
            final(self)@ == old(self)@.with_active_input(
                old(self)@.inputs[old(self)@.active as int].push(c),
            ),
    {
        let buf = self.get_active_input_mut();
        push_char(buf, c);
        assert(self@.inputs =~= old(self)@.inputs.update(
            old(self)@.active as int,
            old(self)@.inputs[old(self)@.active as int].push(c),
        ));
    }

    /// Remove the last character of the active field; an empty field stays
    /// empty.
    pub fn delete_char(&mut self)
        requires
            old(self).wf(),
        ensures
            final(self).wf(),
            old(self)@.inputs[old(self)@.active as int].len() == 0 ==> final(self)@ == old(self)@,
            old(self)@.inputs[old(self)@.active as int].len() > 0 ==> final(self)@
                == old(self)@.with_active_input(
                old(self)@.inputs[old(self)@.active as int].drop_last(),
            ),
    {
        let buf = self.get_active_input_mut();
        let _ = pop_char(buf);
        proof {
            let v = old(self)@;
            if v.inputs[v.active as int].len() == 0 {
                assert(self@.inputs =~= v.inputs);
            } else {
                assert(self@.inputs =~= v.inputs.update(
                    v.active as int,
                    v.inputs[v.active as int].drop_last(),
                ));
            }
        }
    }

    /// Append a line break to the active field.
    pub fn add_newline(&mut self)
        requires
            old(self).wf(),
        ensures
            final(self).wf(),
            final(self)@ == old(self)@.with_active_input(
                old(self)@.inputs[old(self)@.active as int].push('\n'),
            ),
    {
        self.add_char('\n');
    }

    /// Empty all four fields and make the first one active.
    pub fn clear_inputs(&mut self)
        requires
            old(self).wf(),
        ensures
            final(self).wf(),
            final(self)@ == old(self)@.after_clear_inputs(),
            forall|i: int| 0 <= i < 4 ==> (#[trigger] final(self)@.inputs[i]).len() == 0,
            final(self)@.active == 0,
    {
        self.error_input = String::new();
        self.problem_input = String::new();
        self.solution_input = String::new();
        self.code_input = String::new();
        self.active_input_field = 0;
        assert(self@.inputs =~= seq![Seq::<char>::empty(), Seq::<char>::empty(), Seq::<char>::empty(), Seq::<char>::empty()]);
    }

    /// The buffer of field `index` (0 = Error, 1 = Problem, 2 = Solution,
    /// 3 = Code).
    pub fn get_input_by_index(&self, index: usize) -> (r: &String)
        requires
            index < MAX_INPUTS,
        ensures
            r@ == self@.inputs[index as int],
    {
        match index {
            0 => &self.error_input,
            1 => &self.problem_input,
            2 => &self.solution_input,
            _ => &self.code_input,
        }
    }

    /// Whether an entry can be submitted: Error, Problem and Solution each
    /// hold something besides whitespace, and there is at least one page.
    /// The Code field does not matter.
    pub fn can_submit(&self) -> (r: bool)
        ensures
            r == self@.submittable(),
    {
        let has_error = !trim(self.error_input.as_str()).is_empty();
        let has_problem = !trim(self.problem_input.as_str()).is_empty();
        let has_solution = !trim(self.solution_input.as_str()).is_empty();
        let has_page = !self.notion_pages.is_empty();
        has_error && has_problem && has_solution && has_page
    }

    /// The selected page's identifier and a snapshot of the fields, when an
    /// entry can be submitted. The Code field is sent trimmed, and left out
    /// when it holds only whitespace. Nothing is changed.
    pub fn get_submission_data(&self) -> (r: Option<(String, FaultLogEntry)>)
        requires
            self.wf(),
        ensures
            r is None <==> !self@.submittable(),
            r matches Some((id, entry)) ==> id@ == self@.pages[self@.selected as int].id
                && entry@ == self@.entry(),
    {
        if !self.can_submit() {
            return None;
        }
        let page = match self.get_selected_page() {
            Some(p) => p,
            None => return None,
        };
        let page_id = page.id.clone();
        let code = trim(self.code_input.as_str());
        let entry = FaultLogEntry {
            error: self.error_input.clone(),
            problem: self.problem_input.clone(),
            solution: self.solution_input.clone(),
            code: if code.is_empty() {
                None
            } else {
                Some(code.to_string())
            },
        };
        Some((page_id, entry))
    }

    /// Mark a submission as outstanding.
    pub fn start_loading(&mut self)
        requires
            old(self).wf(),
        ensures
            final(self).wf(),
            final(self)@ == (AppView { loading: true, status: Some(submitting_text()), ..old(self)@ }),
    {
        self.is_loading = true;
        self.status_message = Some("Submitting...".to_string());
    }

    /// Mark the outstanding submission as finished.
    pub fn finish_loading(&mut self)
        requires
            old(self).wf(),
        ensures
            final(self).wf(),
            final(self)@ == (AppView { loading: false, ..old(self)@ }),
    {
        self.is_loading = false;
    }

    /// Show a plain informational message.
    pub fn set_status(&mut self, message: &str)
        requires
            old(self).wf(),
        ensures
            final(self).wf(),
            final(self)@ == old(self)@.with_status(Some(message@)),
    {
        self.status_message = Some(message.to_string());
    }

    /// Show a success message (prefixed with a check mark); ends loading.
    pub fn set_success(&mut self, message: &str)
        requires
            old(self).wf(),
        ensures
            final(self).wf(),
            final(self)@ == (AppView {
                status: Some(success_text(message@)),
                loading: false,
                ..old(self)@
            }),
    {
        let mut text = "✓ ".to_string();
        text.append(message);
        self.status_message = Some(text);
        self.is_loading = false;
    }

    /// Show an error message (prefixed with a cross); ends loading.
    pub fn set_error(&mut self, message: &str)
        requires
            old(self).wf(),
        ensures
            final(self).wf(),
            final(self)@ == (AppView {
                status: Some(error_text(message@)),
                loading: false,
                ..old(self)@
            }),
    {
        let mut text = "✗ ".to_string();
        text.append(message);
        self.status_message = Some(text);
        self.is_loading = false;
    }

    /// Remove the status message.
    pub fn clear_status(&mut self)
        requires
            old(self).wf(),
        ensures
            final(self).wf(),
            final(self)@ == old(self)@.with_status(None),
    {
        self.status_message = None;
    }

    /// The status message, if any.
    pub fn get_status(&self) -> (r: Option<&String>)
        ensures
            r is Some <==> self@.status is Some,
            r is Some ==> r->0@ == self@.status->0,
    {
        self.status_message.as_ref()
    }

    /// Whether a status message is shown.
    pub fn has_status(&self) -> (r: bool)
        ensures
            r == self@.status is Some,
    {
        self.status_message.is_some()
    }

    /// Up arrow in normal mode: previous page while the list has focus,
    /// previous field otherwise.
    pub fn handle_up(&mut self)
        requires
            old(self).wf(),
        ensures
            final(self).wf(),
            final(self)@ == old(self)@.after_up(),
    {
        match self.current_focus {
            FocusArea::PageList => self.previous_page(),
            FocusArea::InputSection => self.previous_input(),
        }
    }

    /// Down arrow in normal mode: next page while the list has focus, next
    /// field otherwise.
    pub fn handle_down(&mut self)
        requires
            old(self).wf(),
        ensures
            final(self).wf(),
            final(self)@ == old(self)@.after_down(),
    {
        match self.current_focus {
            FocusArea::PageList => self.next_page(),
            FocusArea::InputSection => self.next_input(),
        }
    }
}

impl Default for AppState {
    fn default() -> (r: Self)
        ensures
            r.wf(),
            r@ == AppView::initial(),
    {
        Self::new()
    }
}

} // verus!
