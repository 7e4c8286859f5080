//! Key handling of the dashboard: what each key does to the dashboard's state, and
//! which outside work (store, clipboard, repository, network, installer) it asks the
//! event loop to perform.
use vstd::prelude::*;
use crate::commands::init::AVAILABLE_TEMPLATES;
use crate::text::{pop_char, push_char, trim};
use crate::tui::app::{
    App, AppView, InputMode, PomodoroState, Tab, exited, needs_git_load, next_tab_of, phase_seconds,
    prev_tab_of, selected, ticked, with_tab, LONG_BREAK_SECONDS, SHORT_BREAK_SECONDS, WORK_SECONDS,
};

verus! {

/// A key the dashboard reacts to.
#[derive(Debug, Clone, Copy, PartialEq, Eq)]
pub enum Key {
    Char(char),
    Enter,
    Backspace,
    Esc,
    Left,
    Right,
    Up,
    Down,
    /// Any other key.
    Other,
}

/// Outside work that a key asks for.
#[derive(Debug, PartialEq, Eq)]
pub enum Action {
    /// Nothing to do.
    Nothing,
    /// Read the repository and hand it to `App::load_git_data`.
    LoadGitData,
    /// Store a task with this title, then reload the data.
    AddTask(String),
    /// Toggle the stored task with this id, then reload the data.
    ToggleTask(i64),
    /// Delete the stored task with this id, then hand the reloaded data to `App::task_deleted`.
    DeleteTask(i64),
    /// Delete the stored snippet with this name, then hand the reloaded data to `App::snippet_deleted`.
    DeleteSnippet(String),
    /// Put this code on the clipboard.
    CopySnippet(String),
    /// Scaffold this template, under this name if one is given, and hand the outcome to
    /// `App::finish_scaffold`.
    Scaffold(String, Option<String>),
    /// Read the clipboard and hand it to `App::save_snippet_from_clipboard`.
    SaveSnippetFromClipboard,
    /// Delete these local branches, then reload the Git data.
    CleanGitBranches(Vec<String>),
    /// Search skills.sh for this query (all skills when empty) and hand the outcome to
    /// `App::finish_skills_search`.
    SearchSkills(String),
    /// Run the interactive installer for the skill at this install path.
    InstallSkill(String),
}

/// An action with its texts by their characters.
pub enum ActionView {
    Nothing,
    LoadGitData,
    AddTask(Seq<char>),
    ToggleTask(i64),
    DeleteTask(i64),
    DeleteSnippet(Seq<char>),
    CopySnippet(Seq<char>),
    Scaffold(Seq<char>, Option<Seq<char>>),
    SaveSnippetFromClipboard,
    CleanGitBranches(Seq<Seq<char>>),
    SearchSkills(Seq<char>),
    InstallSkill(Seq<char>),
}

impl View for Action {
    type V = ActionView;

    open spec fn view(&self) -> ActionView {
        match self {
            Action::Nothing => ActionView::Nothing,
            Action::LoadGitData => ActionView::LoadGitData,
            Action::AddTask(t) => ActionView::AddTask(t@),
            Action::ToggleTask(id) => ActionView::ToggleTask(*id),
            Action::DeleteTask(id) => ActionView::DeleteTask(*id),
            Action::DeleteSnippet(n) => ActionView::DeleteSnippet(n@),
            Action::CopySnippet(c) => ActionView::CopySnippet(c@),
            Action::Scaffold(t, n) => ActionView::Scaffold(
                t@,
                match n {
                    Some(n) => Some(n@),
                    None => None,
                },
            ),
            Action::SaveSnippetFromClipboard => ActionView::SaveSnippetFromClipboard,
            Action::CleanGitBranches(b) => ActionView::CleanGitBranches(b@.map_values(|s: String| s@)),
            Action::SearchSkills(q) => ActionView::SearchSkills(q@),
            Action::InstallSkill(p) => ActionView::InstallSkill(p@),
        }
    }
}

// ───────────────────────────── Models ─────────────────────────────

/// One step down a list of `len` items: stops at the last item.
pub open spec fn nav_down_of(index: usize, len: nat) -> usize {
    if len == 0 {
        index
    } else if index + 1 < len {
        (index + 1) as usize
    } else {
        (len - 1) as usize
    }
}

/// One step up a list: stops at the first item.
pub open spec fn nav_up_of(index: usize) -> usize {
    if index > 0 {
        (index - 1) as usize
    } else {
        index
    }
}

/// Down (↓ or j) in the list of the current tab.
pub open spec fn nav_down_step(a: AppView) -> AppView {
    match a.active_tab {
        Tab::Tasks => AppView { selected_task_index: nav_down_of(a.selected_task_index, a.tasks.len()), ..a },
        Tab::Scaffold => AppView {
            selected_template_index: nav_down_of(a.selected_template_index, 5),
            ..a
        },
        Tab::Snippets => AppView {
            selected_snippet_index: nav_down_of(a.selected_snippet_index, a.snippets.len()),
            ..a
        },
        Tab::Skills => AppView {
            selected_skill_index: nav_down_of(a.selected_skill_index, a.skills_results.len()),
            ..a
        },
        _ => a,
    }
}

/// Up (↑ or k) in the list of the current tab.
pub open spec fn nav_up_step(a: AppView) -> AppView {
    match a.active_tab {
        Tab::Tasks => AppView { selected_task_index: nav_up_of(a.selected_task_index), ..a },
        Tab::Scaffold => AppView { selected_template_index: nav_up_of(a.selected_template_index), ..a },
        Tab::Snippets => AppView { selected_snippet_index: nav_up_of(a.selected_snippet_index), ..a },
        Tab::Skills => AppView { selected_skill_index: nav_up_of(a.selected_skill_index), ..a },
        _ => a,
    }
}

/// The state after asking for text input of kind `mode`.
pub open spec fn entered(a: AppView, mode: InputMode) -> AppView {
    AppView { input_mode: mode, input_buffer: Seq::empty(), ..a }
}

/// The state after starting a skills search with the trimmed buffer as query.
pub open spec fn search_begun(a: AppView) -> AppView {
    AppView {
        skills_search_query: trim(a.input_buffer),
        skills_loading: true,
        skills_install_logs: None,
        ..a
    }
}

/// What a key does while text is being entered.
pub open spec fn input_step(a: AppView, key: Key) -> (AppView, ActionView) {
    let buf = a.input_buffer;
    let d = a.new_snippet_draft;
    match key {
        Key::Enter => match a.input_mode {
            InputMode::TaskAdd => (
                exited(a),
                if trim(buf).len() > 0 {
                    ActionView::AddTask(trim(buf))
                } else {
                    ActionView::Nothing
                },
            ),
            InputMode::ProjectName => (
                a,
                ActionView::Scaffold(
                    AVAILABLE_TEMPLATES@[a.selected_template_index as int]@,
                    if trim(buf).len() > 0 {
                        Some(trim(buf))
                    } else {
                        None
                    },
                ),
            ),
            InputMode::SnippetTitle => (
                entered(AppView { new_snippet_draft: (buf, d.1, d.2), ..a }, InputMode::SnippetLanguage),
                ActionView::Nothing,
            ),
            InputMode::SnippetLanguage => (
                entered(AppView { new_snippet_draft: (d.0, buf, d.2), ..a }, InputMode::SnippetDescription),
                ActionView::Nothing,
            ),
            InputMode::SnippetDescription => (
                AppView { new_snippet_draft: (d.0, d.1, buf), ..a },
                ActionView::SaveSnippetFromClipboard,
            ),
            InputMode::SkillSearch => (search_begun(a), ActionView::SearchSkills(trim(buf))),
            InputMode::Normal => (exited(a), ActionView::Nothing),
        },
        Key::Char(c) => (AppView { input_buffer: buf.push(c), ..a }, ActionView::Nothing),
        Key::Backspace => (
            AppView { input_buffer: if buf.len() > 0 { buf.drop_last() } else { buf }, ..a },
            ActionView::Nothing,
        ),
        Key::Esc => (exited(a), ActionView::Nothing),
        _ => (a, ActionView::Nothing),
    }
}

/// The task action of the selected task, when it is stored.
pub open spec fn task_action(a: AppView, delete: bool) -> ActionView {
    match selected(a.tasks, a.selected_task_index) {
        Some(t) => match t.id {
            Some(id) => if delete {
                ActionView::DeleteTask(id)
            } else {
                ActionView::ToggleTask(id)
            },
            None => ActionView::Nothing,
        },
        None => ActionView::Nothing,
    }
}

/// What a character key does on the dashboard.
pub open spec fn char_step(a: AppView, c: char) -> (AppView, ActionView) {
    let tab = a.active_tab;
    if c == 'q' {
        (AppView { should_quit: true, ..a }, ActionView::Nothing)
    } else if c == 'j' {
        (nav_down_step(a), ActionView::Nothing)
    } else if c == 'k' {
        (nav_up_step(a), ActionView::Nothing)
    } else if c == 'a' && tab == Tab::Tasks {
        (entered(a, InputMode::TaskAdd), ActionView::Nothing)
    } else if c == 'd' && tab == Tab::Tasks {
        (a, task_action(a, true))
    } else if c == 'x' && tab == Tab::Tasks {
        (a, task_action(a, false))
    } else if c == 's' && tab == Tab::Pomodoro {
        (AppView { pomodoro_running: !a.pomodoro_running, ..a }, ActionView::Nothing)
    } else if c == 'r' && tab == Tab::Pomodoro {
        (
            AppView {
                pomodoro_running: false,
                pomodoro: PomodoroState::Work,
                pomodoro_timer: WORK_SECONDS,
                ..a
            },
            ActionView::Nothing,
        )
    } else if c == 'a' && tab == Tab::Snippets {
        (entered(a, InputMode::SnippetTitle), ActionView::Nothing)
    } else if c == 'd' && tab == Tab::Snippets {
        (
            a,
            match selected(a.snippets, a.selected_snippet_index) {
                Some(s) => ActionView::DeleteSnippet(s.name@),
                None => ActionView::Nothing,
            },
        )
    } else if c == 'c' && tab == Tab::Snippets {
        (
            a,
            match selected(a.snippets, a.selected_snippet_index) {
                Some(s) => ActionView::CopySnippet(s.code@),
                None => ActionView::Nothing,
            },
        )
    } else if c == 'c' && tab == Tab::Git {
        (
            a,
            match a.git_merged_branches {
                Some(b) => ActionView::CleanGitBranches(b),
                None => ActionView::Nothing,
            },
        )
    } else if c == 's' && tab == Tab::Skills {
        (entered(a, InputMode::SkillSearch), ActionView::Nothing)
    } else if c == 'l' && tab == Tab::Skills {
        (search_begun(AppView { input_buffer: Seq::empty(), ..a }), ActionView::SearchSkills(Seq::empty()))
    } else {
        (a, ActionView::Nothing)
    }
}

/// What a key does on the dashboard when no text is being entered.
pub open spec fn normal_step(a: AppView, key: Key) -> (AppView, ActionView) {
    match key {
        Key::Char(c) => char_step(a, c),
        Key::Right => {
            let b = with_tab(a, next_tab_of(a.active_tab));
            (b, if needs_git_load(b) { ActionView::LoadGitData } else { ActionView::Nothing })
        },
        Key::Left => {
            let b = with_tab(a, prev_tab_of(a.active_tab));
            (b, if needs_git_load(b) { ActionView::LoadGitData } else { ActionView::Nothing })
        },
        Key::Down => (nav_down_step(a), ActionView::Nothing),
        Key::Up => (nav_up_step(a), ActionView::Nothing),
        Key::Enter => if a.active_tab == Tab::Scaffold {
            (entered(a, InputMode::ProjectName), ActionView::Nothing)
        } else if a.active_tab == Tab::Skills {
            (
                a,
                match selected(a.skills_results, a.selected_skill_index) {
                    Some(s) => ActionView::InstallSkill(s.3),
                    None => ActionView::Nothing,
                },
            )
        } else {
            (a, ActionView::Nothing)
        },
        _ => (a, ActionView::Nothing),
    }
}

/// What a key press does: Ctrl+C always quits; otherwise the key goes to the text
/// input when one is open, and to the dashboard when not.
pub open spec fn key_step(a: AppView, key: Key, ctrl: bool) -> (AppView, ActionView) {
    if ctrl && key == Key::Char('c') {
        (AppView { should_quit: true, ..a }, ActionView::Nothing)
    } else if a.input_mode != InputMode::Normal {
        input_step(a, key)
    } else {
        normal_step(a, key)
    }
}

// ───────────────────────────── Laws ─────────────────────────────

/// Ctrl+C quits, whatever the state.
pub proof fn lemma_ctrl_c_quits(a: AppView)
    ensures
        key_step(a, Key::Char('c'), true).0.should_quit,
{
}

/// While text is entered, typing a character and erasing it leaves the state as it was.
pub proof fn lemma_type_then_erase(a: AppView, c: char)
    requires
        a.input_mode != InputMode::Normal,
    ensures
        key_step(key_step(a, Key::Char(c), false).0, Key::Backspace, false).0 == a,
{
    assert(a.input_buffer.push(c).drop_last() =~= a.input_buffer);
}

/// Esc closes the text input and empties its buffer.
pub proof fn lemma_escape_closes_input(a: AppView)
    requires
        a.input_mode != InputMode::Normal,
    ensures
        key_step(a, Key::Esc, false).0 == exited(a),
{
}

/// Right then Left, with no text input, comes back to the same tab.
pub proof fn lemma_right_then_left(a: AppView)
    requires
        a.input_mode == InputMode::Normal,
    ensures
        key_step(key_step(a, Key::Right, false).0, Key::Left, false).0.active_tab == a.active_tab,
{
}

/// Moving down keeps the selection inside a non-empty list, and up then returns to
/// where it was unless the selection was already on the last item.
pub proof fn lemma_nav_down_up(index: usize, len: nat)
    requires
        0 < len <= usize::MAX,
    ensures
        nav_down_of(index, len) < len,
        index + 1 < len ==> nav_up_of(nav_down_of(index, len)) == index,
        nav_up_of(index) <= index,
{
}

/// Every key keeps the selected template in the catalog.
pub proof fn lemma_template_selection_stays_in_catalog(a: AppView, key: Key, ctrl: bool)
    requires
        a.selected_template_index < 5,
    ensures
        key_step(a, key, ctrl).0.selected_template_index < 5,
{
}

/// No key makes the timer show more than the length of the current phase.
pub proof fn lemma_keys_keep_timer_within_phase(a: AppView, key: Key, ctrl: bool)
    requires
        a.pomodoro_timer <= phase_seconds(a.pomodoro),
    ensures
        key_step(a, key, ctrl).0.pomodoro_timer <= phase_seconds(key_step(a, key, ctrl).0.pomodoro),
{
}

/// Up (↑ or k) and Down (↓ or j), with no text input, move the selection of the list
/// of the current tab by one: Up stops at the first item, Down at the last; the other
/// selections do not move.
pub proof fn lemma_up_down_move_selection(a: AppView, key: Key)
    requires
        a.input_mode == InputMode::Normal,
        key == Key::Up || key == Key::Char('k') || key == Key::Down || key == Key::Char('j'),
        a.tasks.len() <= usize::MAX,
        a.snippets.len() <= usize::MAX,
        a.skills_results.len() <= usize::MAX,
    ensures
        ({
            let b = key_step(a, key, false).0;
            let up = key == Key::Up || key == Key::Char('k');
            let moved = |i: usize, len: nat|
                if up {
                    if i > 0 { i - 1 } else { i as int }
                } else if i + 1 < len {
                    i + 1
                } else if len > 0 {
                    len - 1
                } else {
                    i as int
                };
            &&& b.selected_task_index == if a.active_tab == Tab::Tasks {
                moved(a.selected_task_index, a.tasks.len())
            } else {
                a.selected_task_index as int
            }
            &&& b.selected_template_index == if a.active_tab == Tab::Scaffold {
                moved(a.selected_template_index, 5)
            } else {
                a.selected_template_index as int
            }
            &&& b.selected_snippet_index == if a.active_tab == Tab::Snippets {
                moved(a.selected_snippet_index, a.snippets.len())
            } else {
                a.selected_snippet_index as int
            }
            &&& b.selected_skill_index == if a.active_tab == Tab::Skills {
                moved(a.selected_skill_index, a.skills_results.len())
            } else {
                a.selected_skill_index as int
            }
            &&& b.active_tab == a.active_tab
            &&& b.tasks == a.tasks
            &&& b.input_mode == a.input_mode
        }),
{
}

/// `n` ticks of the timer.
pub open spec fn ticks(a: AppView, n: nat) -> AppView
    decreases n,
{
    if n == 0 {
        a
    } else {
        ticked(ticks(a, (n - 1) as nat))
    }
}

/// One phase run to its end: started with `s`, then ticked until the timer stops.
pub open spec fn phase_run(a: AppView) -> AppView {
    let started = key_step(a, Key::Char('s'), false).0;
    ticks(started, started.pomodoro_timer as nat + 1)
}

/// `n` phases run one after the other, each to its end.
pub open spec fn phases_run(a: AppView, n: nat) -> AppView
    decreases n,
{
    if n == 0 {
        a
    } else {
        phase_run(phases_run(a, (n - 1) as nat))
    }
}

/// How many work phases have ended once `n` phases have run from a work phase: work
/// and breaks alternate.
pub open spec fn work_phases_ended(n: nat) -> nat {
    (n + 1) / 2
}

proof fn lemma_countdown(b: AppView, k: nat)
    requires
        b.pomodoro_running,
        k <= b.pomodoro_timer,
    ensures
        ticks(b, k) == (AppView { pomodoro_timer: (b.pomodoro_timer - k) as u64, ..b }),
    decreases k,
{
    if k > 0 {
        lemma_countdown(b, (k - 1) as nat);
    }
}

proof fn lemma_start_key(a: AppView)
    requires
        a.active_tab == Tab::Pomodoro,
        a.input_mode == InputMode::Normal,
    ensures
        key_step(a, Key::Char('s'), false).0 == (AppView { pomodoro_running: !a.pomodoro_running, ..a }),
{
}

/// The whole Pomodoro run: from a stopped, full work phase with nothing completed, on
/// the Pomodoro tab, running `n` phases each to its end (started with `s`, never reset)
/// counts exactly the work phases that ended; a work phase is followed by a short
/// break, or by the long 15-minute one when it is the fourth, eighth, … to end; a
/// break is followed by a full work phase.
pub proof fn lemma_pomodoro_whole_run(a: AppView, n: nat)
    requires
        a.active_tab == Tab::Pomodoro,
        a.input_mode == InputMode::Normal,
        !a.pomodoro_running,
        a.pomodoro == PomodoroState::Work,
        a.pomodoro_timer == WORK_SECONDS,
        a.pomodoros_completed == 0,
        work_phases_ended(n) <= u32::MAX,
    ensures
        ({
            let r = phases_run(a, n);
            &&& r.pomodoros_completed == work_phases_ended(n)
            &&& !r.pomodoro_running
            &&& r.active_tab == Tab::Pomodoro
            &&& r.input_mode == InputMode::Normal
            &&& n % 2 == 0 ==> r.pomodoro == PomodoroState::Work && r.pomodoro_timer == WORK_SECONDS
            &&& n % 2 == 1 && r.pomodoros_completed % 4 == 0 ==> r.pomodoro == PomodoroState::LongBreak
                && r.pomodoro_timer == LONG_BREAK_SECONDS
            &&& n % 2 == 1 && r.pomodoros_completed % 4 != 0 ==> r.pomodoro == PomodoroState::ShortBreak
                && r.pomodoro_timer == SHORT_BREAK_SECONDS
        }),
    decreases n,
{
    if n > 0 {
        let m = (n - 1) as nat;
        lemma_pomodoro_whole_run(a, m);
        let prev = phases_run(a, m);
        lemma_start_key(prev);
        let started = key_step(prev, Key::Char('s'), false).0;
        lemma_countdown(started, started.pomodoro_timer as nat);
        assert(ticks(started, started.pomodoro_timer as nat + 1) == ticked(
            ticks(started, started.pomodoro_timer as nat),
        ));
        assert(phases_run(a, n) == phase_run(prev));
    }
}

// ───────────────────────────── Functions ─────────────────────────────

fn nav_down(index: usize, len: usize) -> (r: usize)
    ensures
        r == nav_down_of(index, len as nat),
{
    if len == 0 {
        index
    } else if index < len - 1 {
        index + 1
    } else {
        len - 1
    }
}

fn nav_up(index: usize) -> (r: usize)
    ensures
        r == nav_up_of(index),
{
    if index > 0 {
        index - 1
    } else {
        index
    }
}

/// Down (↓ or j) in the list of the current tab.
pub fn handle_nav_down(app: &mut App)
    ensures
        final(app)@ == nav_down_step(old(app)@),
{
    match app.active_tab {
        Tab::Tasks => {
            app.selected_task_index = nav_down(app.selected_task_index, app.tasks.len());
        },
        Tab::Scaffold => {
            app.selected_template_index = nav_down(app.selected_template_index, 5);
        },
        Tab::Snippets => {
            app.selected_snippet_index = nav_down(app.selected_snippet_index, app.snippets.len());
        },
        Tab::Skills => {
            app.selected_skill_index = nav_down(app.selected_skill_index, app.skills_results.len());
        },
        _ => {},
    }
}

/// Up (↑ or k) in the list of the current tab.
pub fn handle_nav_up(app: &mut App)
    ensures
        final(app)@ == nav_up_step(old(app)@),
{
    match app.active_tab {
        Tab::Tasks => {
            app.selected_task_index = nav_up(app.selected_task_index);
        },
        Tab::Scaffold => {
            app.selected_template_index = nav_up(app.selected_template_index);
        },
        Tab::Snippets => {
            app.selected_snippet_index = nav_up(app.selected_snippet_index);
        },
        Tab::Skills => {
            app.selected_skill_index = nav_up(app.selected_skill_index);
        },
        _ => {},
    }
}

/// A key while text is being entered.
pub fn handle_input_mode(app: &mut App, key: Key) -> (action: Action)
    requires
        old(app).selected_template_index < 5,
    ensures
        (final(app)@, action@) == input_step(old(app)@, key),
{
    match key {
        Key::Enter => match app.input_mode {
            InputMode::TaskAdd => match app.add_task() {
                Some(title) => Action::AddTask(title),
                None => Action::Nothing,
            },
            InputMode::ProjectName => {
                let (template, name) = app.execute_scaffold();
                Action::Scaffold(template, name)
            },
            InputMode::SnippetTitle => {
                app.new_snippet_draft.0 = app.input_buffer.clone();
                app.enter_input_mode(InputMode::SnippetLanguage);
                Action::Nothing
            },
            InputMode::SnippetLanguage => {
                app.new_snippet_draft.1 = app.input_buffer.clone();
                app.enter_input_mode(InputMode::SnippetDescription);
                Action::Nothing
            },
            InputMode::SnippetDescription => {
                app.new_snippet_draft.2 = app.input_buffer.clone();
                Action::SaveSnippetFromClipboard
            },
            InputMode::SkillSearch => {
                let query = app.search_skills();
                Action::SearchSkills(query)
            },
            InputMode::Normal => {
                app.exit_input_mode();
                Action::Nothing
            },
        },
        Key::Char(c) => {
            push_char(&mut app.input_buffer, c);
            Action::Nothing
        },
        Key::Backspace => {
            pop_char(&mut app.input_buffer);
            Action::Nothing
        },
        Key::Esc => {
            app.exit_input_mode();
            Action::Nothing
        },
        _ => Action::Nothing,
    }
}

/// A character key on the dashboard.
fn handle_char(app: &mut App, c: char) -> (action: Action)
    ensures
        (final(app)@, action@) == char_step(old(app)@, c),
{
    let tab = app.active_tab;
    if c == 'q' {
        app.should_quit = true;
        Action::Nothing
    } else if c == 'j' {
        handle_nav_down(app);
        Action::Nothing
    } else if c == 'k' {
        handle_nav_up(app);
        Action::Nothing
    } else if c == 'a' && tab == Tab::Tasks {
        app.enter_input_mode(InputMode::TaskAdd);
        Action::Nothing
    } else if (c == 'd' || c == 'x') && tab == Tab::Tasks {
        if c == 'd' {
            match app.delete_task() {
                Some(id) => Action::DeleteTask(id),
                None => Action::Nothing,
            }
        } else {
            match app.toggle_task() {
                Some(id) => Action::ToggleTask(id),
                None => Action::Nothing,
            }
        }
    } else if c == 's' && tab == Tab::Pomodoro {
        app.toggle_pomodoro();
        Action::Nothing
    } else if c == 'r' && tab == Tab::Pomodoro {
        app.reset_pomodoro();
        Action::Nothing
    } else if c == 'a' && tab == Tab::Snippets {
        app.enter_input_mode(InputMode::SnippetTitle);
        Action::Nothing
    } else if c == 'd' && tab == Tab::Snippets {
        match app.delete_snippet() {
            Some(name) => Action::DeleteSnippet(name),
            None => Action::Nothing,
        }
    } else if c == 'c' && tab == Tab::Snippets {
        match app.copy_snippet() {
            Some(code) => Action::CopySnippet(code),
            None => Action::Nothing,
        }
    } else if c == 'c' && tab == Tab::Git {
        match app.clean_git_branches() {
            Some(branches) => Action::CleanGitBranches(branches),
            None => Action::Nothing,
        }
    } else if c == 's' && tab == Tab::Skills {
        app.enter_input_mode(InputMode::SkillSearch);
        Action::Nothing
    } else if c == 'l' && tab == Tab::Skills {
        app.input_buffer = String::new();
        let query = app.search_skills();
        Action::SearchSkills(query)
    } else {
        Action::Nothing
    }
}

/// A key on the dashboard when no text is being entered.
pub fn handle_normal_mode(app: &mut App, key: Key) -> (action: Action)
    ensures
        (final(app)@, action@) == normal_step(old(app)@, key),
{
    match key {
        Key::Char(c) => handle_char(app, c),
        Key::Right => {
            if app.next_tab() {
                Action::LoadGitData
            } else {
                Action::Nothing
            }
        },
        Key::Left => {
            if app.prev_tab() {
                Action::LoadGitData
            } else {
                Action::Nothing
            }
        },
        Key::Down => {
            handle_nav_down(app);
            Action::Nothing
        },
        Key::Up => {
            handle_nav_up(app);
            Action::Nothing
        },
        Key::Enter => {
            if app.active_tab == Tab::Scaffold {
                app.enter_input_mode(InputMode::ProjectName);
                Action::Nothing
            } else if app.active_tab == Tab::Skills {
                if app.selected_skill_index < app.skills_results.len() {
                    Action::InstallSkill(app.skills_results[app.selected_skill_index].install_path.clone())
                } else {
                    Action::Nothing
                }
            } else {
                Action::Nothing
            }
        },
        _ => Action::Nothing,
    }
}

/// A key press: Ctrl+C quits; otherwise the key goes to the open text input, or to
/// the dashboard.
pub fn handle_key(app: &mut App, key: Key, ctrl: bool) -> (action: Action)
    requires
        old(app).selected_template_index < 5,
    ensures
        (final(app)@, action@) == key_step(old(app)@, key, ctrl),
        final(app).selected_template_index < 5,
{
    let is_c = match key {
        Key::Char(c) => c == 'c',
        _ => false,
    };
    let action = if ctrl && is_c {
        app.should_quit = true;
        Action::Nothing
    } else if app.input_mode != InputMode::Normal {
        handle_input_mode(app, key)
    } else {
        handle_normal_mode(app, key)
    };
    proof {
        lemma_template_selection_stays_in_catalog(old(app)@, key, ctrl);
    }
    action
}

} // verus!
