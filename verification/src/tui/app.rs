//! State of the dashboard: tabs, text input, tasks, the Pomodoro timer, the scaffold,
//! snippets, Git data and skills. The methods here make every decision of the
//! dashboard; the outside work they ask for (the store, the clipboard, the
//! repository, the network) is done by the caller, which hands the results back.
use vstd::prelude::*;
use crate::commands::git_utils::{ChangelogEntry, GitStats};
use crate::commands::init::AVAILABLE_TEMPLATES;
use crate::commands::skills::{Skill, skills_view};
use crate::db::storage::{Snippet, Task};
use crate::error::{GitError, ScaffoldError, SkillsError};
use crate::text::{concat2, concat3, decimal, decimal_string, owned, push_char, trim, trim_str};

verus! {

/// The tabs of the dashboard, in display order.
#[derive(Debug, Clone, Copy, PartialEq, Eq, Structural)]
pub enum Tab {
    Overview,
    Tasks,
    Pomodoro,
    Scaffold,
    Snippets,
    Git,
    Skills,
}

/// The text inputs the dashboard can ask for.
#[derive(Debug, Clone, Copy, PartialEq, Eq, Structural)]
pub enum InputMode {
    /// No text input: keys act on the dashboard.
    Normal,
    TaskAdd,
    ProjectName,
    SnippetTitle,
    SnippetLanguage,
    SnippetDescription,
    SkillSearch,
}

/// The phases of the Pomodoro timer.
#[derive(Debug, Clone, Copy, PartialEq, Eq, Structural)]
pub enum PomodoroState {
    Work,
    ShortBreak,
    LongBreak,
}

/// Length of a work phase, in seconds.
pub const WORK_SECONDS: u64 = 1500;

/// Length of a short break, in seconds.
pub const SHORT_BREAK_SECONDS: u64 = 300;

/// Length of a long break, in seconds.
pub const LONG_BREAK_SECONDS: u64 = 900;

/// The state of the dashboard.
pub struct App {
    pub active_tab: Tab,
    pub should_quit: bool,
    pub input_mode: InputMode,
    pub input_buffer: String,
    // ── Overview ──
    pub project_name: String,
    pub _file_count: usize,
    // ── Tasks ──
    pub tasks: Vec<Task>,
    pub selected_task_index: usize,
    // ── Pomodoro ──
    pub pomodoro: PomodoroState,
    /// Seconds left in the current phase.
    pub pomodoro_timer: u64,
    pub pomodoro_running: bool,
    pub pomodoros_completed: u32,
    // ── Scaffold ──
    pub selected_template_index: usize,
    pub scaffold_logs: Option<Vec<String>>,
    // ── Snippets ──
    pub snippets: Vec<Snippet>,
    pub selected_snippet_index: usize,
    /// (name, language, description) of the snippet being entered.
    pub new_snippet_draft: (String, String, String),
    // ── Git ──
    pub git_stats: Option<GitStats>,
    pub git_changelog: Option<Vec<ChangelogEntry>>,
    pub git_merged_branches: Option<Vec<String>>,
    pub git_error: Option<String>,
    // ── Skills ──
    pub skills_results: Vec<Skill>,
    pub selected_skill_index: usize,
    pub skills_search_query: String,
    pub skills_status: Option<String>,
    pub skills_install_logs: Option<Vec<String>>,
    pub skills_loading: bool,
}

/// A snippet to store: name, code, language, description.
pub struct NewSnippet {
    pub name: String,
    pub code: String,
    pub language: String,
    pub description: String,
}

/// The abstract state of the dashboard: every text by its characters.
pub struct AppView {
    pub active_tab: Tab,
    pub should_quit: bool,
    pub input_mode: InputMode,
    pub input_buffer: Seq<char>,
    pub project_name: Seq<char>,
    pub file_count: usize,
    pub tasks: Seq<Task>,
    pub selected_task_index: usize,
    pub pomodoro: PomodoroState,
    pub pomodoro_timer: u64,
    pub pomodoro_running: bool,
    pub pomodoros_completed: u32,
    pub selected_template_index: usize,
    pub scaffold_logs: Option<Seq<Seq<char>>>,
    pub snippets: Seq<Snippet>,
    pub selected_snippet_index: usize,
    pub new_snippet_draft: (Seq<char>, Seq<char>, Seq<char>),
    pub git_stats: Option<(u64, Seq<(Seq<char>, u64)>, usize, usize)>,
    pub git_changelog: Option<Seq<(Seq<char>, Seq<Seq<char>>)>>,
    pub git_merged_branches: Option<Seq<Seq<char>>>,
    pub git_error: Option<Seq<char>>,
    pub skills_results: Seq<(usize, Seq<char>, Seq<char>, Seq<char>, Seq<char>)>,
    pub selected_skill_index: usize,
    pub skills_search_query: Seq<char>,
    pub skills_status: Option<Seq<char>>,
    pub skills_install_logs: Option<Seq<Seq<char>>>,
    pub skills_loading: bool,
}

pub open spec fn strs(v: Seq<String>) -> Seq<Seq<char>> {
    v.map_values(|s: String| s@)
}

pub open spec fn opt_strs(o: Option<Vec<String>>) -> Option<Seq<Seq<char>>> {
    match o {
        Some(v) => Some(strs(v@)),
        None => None,
    }
}

pub open spec fn opt_str(o: Option<String>) -> Option<Seq<char>> {
    match o {
        Some(s) => Some(s@),
        None => None,
    }
}

pub open spec fn opt_changelog(o: Option<Vec<ChangelogEntry>>) -> Option<Seq<(Seq<char>, Seq<Seq<char>>)>> {
    match o {
        Some(v) => Some(v@.map_values(|e: ChangelogEntry| e@)),
        None => None,
    }
}

impl View for App {
    type V = AppView;

    open spec fn view(&self) -> AppView {
        AppView {
            active_tab: self.active_tab,
            should_quit: self.should_quit,
            input_mode: self.input_mode,
            input_buffer: self.input_buffer@,
            project_name: self.project_name@,
            file_count: self._file_count,
            tasks: self.tasks@,
            selected_task_index: self.selected_task_index,
            pomodoro: self.pomodoro,
            pomodoro_timer: self.pomodoro_timer,
            pomodoro_running: self.pomodoro_running,
            pomodoros_completed: self.pomodoros_completed,
            selected_template_index: self.selected_template_index,
            scaffold_logs: opt_strs(self.scaffold_logs),
            snippets: self.snippets@,
            selected_snippet_index: self.selected_snippet_index,
            new_snippet_draft: (
                self.new_snippet_draft.0@,
                self.new_snippet_draft.1@,
                self.new_snippet_draft.2@,
            ),
            git_stats: match self.git_stats {
                Some(s) => Some(s@),
                None => None,
            },
            git_changelog: opt_changelog(self.git_changelog),
            git_merged_branches: opt_strs(self.git_merged_branches),
            git_error: opt_str(self.git_error),
            skills_results: skills_view(self.skills_results@),
            selected_skill_index: self.selected_skill_index,
            skills_search_query: self.skills_search_query@,
            skills_status: opt_str(self.skills_status),
            skills_install_logs: opt_strs(self.skills_install_logs),
            skills_loading: self.skills_loading,
        }
    }
}

// ───────────────────────────── Models ─────────────────────────────

/// The tab after `t`, wrapping around.
pub open spec fn next_tab_of(t: Tab) -> Tab {
    match t {
        Tab::Overview => Tab::Tasks,
        Tab::Tasks => Tab::Pomodoro,
        Tab::Pomodoro => Tab::Scaffold,
        Tab::Scaffold => Tab::Snippets,
        Tab::Snippets => Tab::Git,
        Tab::Git => Tab::Skills,
        Tab::Skills => Tab::Overview,
    }
}

/// The tab before `t`, wrapping around.
pub open spec fn prev_tab_of(t: Tab) -> Tab {
    match t {
        Tab::Overview => Tab::Skills,
        Tab::Tasks => Tab::Overview,
        Tab::Pomodoro => Tab::Tasks,
        Tab::Scaffold => Tab::Pomodoro,
        Tab::Snippets => Tab::Scaffold,
        Tab::Git => Tab::Snippets,
        Tab::Skills => Tab::Git,
    }
}

/// The state after leaving text input: no input mode, empty buffer.
pub open spec fn exited(a: AppView) -> AppView {
    AppView { input_mode: InputMode::Normal, input_buffer: Seq::empty(), ..a }
}

/// The state after switching to `t`.
pub open spec fn with_tab(a: AppView, t: Tab) -> AppView {
    AppView { active_tab: t, ..a }
}

/// Git data is loaded lazily, the first time the Git tab is shown.
pub open spec fn needs_git_load(a: AppView) -> bool {
    a.active_tab == Tab::Git && a.git_stats is None
}

/// One second of the Pomodoro timer: while running, the timer counts down; at zero
/// the timer stops and the next phase is set: a finished work phase is counted and
/// followed by a break (the long one after every fourth work phase), a finished break
/// by a full work phase.
pub open spec fn ticked(a: AppView) -> AppView {
    if !a.pomodoro_running {
        a
    } else if a.pomodoro_timer > 0 {
        AppView { pomodoro_timer: (a.pomodoro_timer - 1) as u64, ..a }
    } else {
        match a.pomodoro {
            PomodoroState::Work => {
                let completed = (a.pomodoros_completed + 1) as u32;
                let (phase, secs) = if completed % 4 == 0 {
                    (PomodoroState::LongBreak, LONG_BREAK_SECONDS)
                } else {
                    (PomodoroState::ShortBreak, SHORT_BREAK_SECONDS)
                };
                AppView {
                    pomodoro_running: false,
                    pomodoros_completed: completed,
                    pomodoro: phase,
                    pomodoro_timer: secs,
                    ..a
                }
            },
            _ => AppView {
                pomodoro_running: false,
                pomodoro: PomodoroState::Work,
                pomodoro_timer: WORK_SECONDS,
                ..a
            },
        }
    }
}

/// A tick that ends a work phase counts it; such a tick needs room in the count.
pub open spec fn ends_work_phase(a: AppView) -> bool {
    a.pomodoro_running && a.pomodoro_timer == 0 && a.pomodoro == PomodoroState::Work
}

/// The item to act on in a list: the selected one, when the selection is in the list.
pub open spec fn selected<T>(items: Seq<T>, index: usize) -> Option<T> {
    if index < items.len() {
        Some(items[index as int])
    } else {
        None
    }
}

/// After a deletion and a reload, the selection steps back by one when it fell off the end.
pub open spec fn clamped(index: usize, len: nat) -> usize {
    if index >= len && index > 0 {
        (index - 1) as usize
    } else {
        index
    }
}

/// The status line after a skills search for `query` that found `n` skills.
pub open spec fn search_status(query: Seq<char>, n: nat) -> Seq<char> {
    if query.len() == 0 {
        "✅ "@ + decimal(n) + " skills encontradas"@
    } else if n == 0 {
        "❓ 0 skills para '"@ + query + "'. Presiona 'l' para leaderboard"@
    } else {
        "✅ "@ + decimal(n) + " skills para '"@ + query + "'"@
    }
}

/// The state after a skills search for `query` ended with `result`.
pub open spec fn searched(
    a: AppView,
    query: Seq<char>,
    result: Result<Seq<(usize, Seq<char>, Seq<char>, Seq<char>, Seq<char>)>, Seq<char>>,
) -> AppView {
    match result {
        Ok(skills) => exited(
            AppView {
                skills_status: Some(search_status(query, skills.len())),
                skills_results: skills,
                selected_skill_index: 0,
                skills_loading: false,
                ..a
            },
        ),
        Err(message) => exited(
            AppView {
                skills_status: Some("❌ Error: "@ + message),
                skills_results: Seq::empty(),
                skills_loading: false,
                ..a
            },
        ),
    }
}

/// A number shown with at least two digits.
pub open spec fn two_digits(n: nat) -> Seq<char> {
    if n < 10 {
        seq!['0'] + decimal(n)
    } else {
        decimal(n)
    }
}

/// The timer as minutes and seconds, `mm:ss`.
pub open spec fn clock_text(secs: u64) -> Seq<char> {
    two_digits((secs / 60) as nat) + ":"@ + two_digits((secs % 60) as nat)
}

/// How many of the tasks are done.
pub open spec fn done_count(tasks: Seq<Task>) -> nat
    decreases tasks.len(),
{
    if tasks.len() == 0 {
        0
    } else {
        done_count(tasks.drop_last()) + if tasks.last().completed { 1nat } else { 0nat }
    }
}

// ───────────────────────────── Laws ─────────────────────────────

/// Going to the next tab and back returns to the same tab, and the other way round.
pub proof fn lemma_tabs_round_trip(t: Tab)
    ensures
        prev_tab_of(next_tab_of(t)) == t,
        next_tab_of(prev_tab_of(t)) == t,
{
}

/// Seven steps to the next tab visit every tab once and come back.
pub proof fn lemma_tabs_cycle(t: Tab)
    ensures
        next_tab_of(next_tab_of(next_tab_of(next_tab_of(next_tab_of(next_tab_of(next_tab_of(t)))))))
            == t,
        next_tab_of(t) != t,
{
}

/// A finished work phase is counted and leads to a break, the long one after every
/// fourth work phase; a finished break leads to a full work phase and is not counted.
pub proof fn lemma_pomodoro_cycle(a: AppView)
    requires
        a.pomodoro_running,
        a.pomodoro_timer == 0,
        a.pomodoro == PomodoroState::Work ==> a.pomodoros_completed < u32::MAX,
    ensures
        !ticked(a).pomodoro_running,
        a.pomodoro == PomodoroState::Work ==> ticked(a).pomodoros_completed == a.pomodoros_completed + 1,
        a.pomodoro == PomodoroState::Work ==> ticked(a).pomodoro != PomodoroState::Work,
        a.pomodoro == PomodoroState::Work ==> (ticked(a).pomodoro == PomodoroState::LongBreak
            <==> (a.pomodoros_completed + 1) % 4 == 0),
        a.pomodoro == PomodoroState::Work && (a.pomodoros_completed + 1) % 4 == 0
            ==> ticked(a).pomodoro_timer == LONG_BREAK_SECONDS,
        a.pomodoro != PomodoroState::Work ==> ticked(a).pomodoro == PomodoroState::Work
            && ticked(a).pomodoro_timer == WORK_SECONDS && ticked(a).pomodoros_completed
            == a.pomodoros_completed,
{
}

/// A paused timer does not move.
pub proof fn lemma_paused_timer_stays(a: AppView)
    requires
        !a.pomodoro_running,
    ensures
        ticked(a) == a,
{
}

/// Deleting the selected item (so that the reloaded list is at most one shorter)
/// keeps the selection inside the list, moved back by at most one.
pub proof fn lemma_deletion_keeps_selection_in_list(index: usize, old_len: nat, new_len: nat)
    requires
        index < old_len,
        old_len <= new_len + 1,
    ensures
        new_len == 0 || clamped(index, new_len) < new_len,
        clamped(index, new_len) <= index,
        index <= clamped(index, new_len) + 1,
{
}

/// The state after a task was deleted and the data reloaded: the reloaded lists, and
/// the selection stepped back when it fell off the end.
pub open spec fn after_task_deletion(a: AppView, tasks: Seq<Task>, snippets: Seq<Snippet>) -> AppView {
    AppView {
        tasks: tasks,
        snippets: snippets,
        selected_task_index: clamped(a.selected_task_index, tasks.len()),
        ..a
    }
}

/// Deleting the selected task `d`: when the store drops exactly that task (ids being
/// unique in the store), the reloaded list no longer holds its id, and the selection
/// stays in the list, moved back by at most one.
pub proof fn lemma_task_deletion(a: AppView, tasks: Seq<Task>, snippets: Seq<Snippet>, d: i64)
    requires
        a.selected_task_index < a.tasks.len(),
        a.tasks[a.selected_task_index as int].id == Some(d),
        forall|i: int, j: int|
            0 <= i < j < a.tasks.len() ==> (#[trigger] a.tasks[i]).id != (#[trigger] a.tasks[j]).id,
        tasks == a.tasks.remove(a.selected_task_index as int),
    ensures
        ({
            let b = after_task_deletion(a, tasks, snippets);
            &&& b.tasks.len() == 0 || b.selected_task_index < b.tasks.len()
            &&& b.selected_task_index <= a.selected_task_index <= b.selected_task_index + 1
            &&& forall|k: int| 0 <= k < b.tasks.len() ==> (#[trigger] b.tasks[k]).id != Some(d)
        }),
{
    let s = a.selected_task_index as int;
    assert forall|k: int| 0 <= k < tasks.len() implies (#[trigger] tasks[k]).id != Some(d) by {
        if k < s {
            assert(tasks[k] == a.tasks[k]);
            assert(a.tasks[k].id != a.tasks[s].id);
        } else {
            assert(tasks[k] == a.tasks[k + 1]);
            assert(a.tasks[s].id != a.tasks[k + 1].id);
        }
    }
}

/// The length of a Pomodoro phase, in seconds.
pub open spec fn phase_seconds(p: PomodoroState) -> u64 {
    match p {
        PomodoroState::Work => WORK_SECONDS,
        PomodoroState::ShortBreak => SHORT_BREAK_SECONDS,
        PomodoroState::LongBreak => LONG_BREAK_SECONDS,
    }
}

/// The timer never shows more than the length of the current phase: a tick keeps it so.
pub proof fn lemma_tick_keeps_timer_within_phase(a: AppView)
    requires
        a.pomodoro_timer <= phase_seconds(a.pomodoro),
    ensures
        ticked(a).pomodoro_timer <= phase_seconds(ticked(a).pomodoro),
{
}

// ───────────────────────────── Functions ─────────────────────────────

impl App {
    /// The dashboard at start: Overview tab, no input, a stopped 25-minute work phase,
    /// nothing loaded.
    pub fn new(project_name: String, file_count: usize) -> (app: App)
        ensures
            app@ == (AppView {
                active_tab: Tab::Overview,
                should_quit: false,
                input_mode: InputMode::Normal,
                input_buffer: Seq::empty(),
                project_name: project_name@,
                file_count: file_count,
                tasks: Seq::empty(),
                selected_task_index: 0,
                pomodoro: PomodoroState::Work,
                pomodoro_timer: WORK_SECONDS,
                pomodoro_running: false,
                pomodoros_completed: 0,
                selected_template_index: 0,
                scaffold_logs: None,
                snippets: Seq::empty(),
                selected_snippet_index: 0,
                new_snippet_draft: (Seq::empty(), Seq::empty(), Seq::empty()),
                git_stats: None,
                git_changelog: None,
                git_merged_branches: None,
                git_error: None,
                skills_results: Seq::empty(),
                selected_skill_index: 0,
                skills_search_query: Seq::empty(),
                skills_status: None,
                skills_install_logs: None,
                skills_loading: false,
            }),
    {
        let app = App {
            active_tab: Tab::Overview,
            should_quit: false,
            input_mode: InputMode::Normal,
            input_buffer: String::new(),
            project_name,
            _file_count: file_count,
            tasks: Vec::new(),
            selected_task_index: 0,
            pomodoro: PomodoroState::Work,
            pomodoro_timer: WORK_SECONDS,
            pomodoro_running: false,
            pomodoros_completed: 0,
            selected_template_index: 0,
            scaffold_logs: None,
            snippets: Vec::new(),
            selected_snippet_index: 0,
            new_snippet_draft: (String::new(), String::new(), String::new()),
            git_stats: None,
            git_changelog: None,
            git_merged_branches: None,
            git_error: None,
            skills_results: Vec::new(),
            selected_skill_index: 0,
            skills_search_query: String::new(),
            skills_status: None,
            skills_install_logs: None,
            skills_loading: false,
        };
        assert(app@.skills_results =~= Seq::empty());
        app
    }

    /// Asks for text input of kind `mode`, with an empty buffer.
    pub fn enter_input_mode(&mut self, mode: InputMode)
        ensures
            final(self)@ == (AppView { input_mode: mode, input_buffer: Seq::empty(), ..old(self)@ }),
    {
        self.input_mode = mode;
        self.input_buffer = String::new();
    }

    /// Leaves text input, emptying the buffer.
    pub fn exit_input_mode(&mut self)
        ensures
            final(self)@ == exited(old(self)@),
    {
        self.input_mode = InputMode::Normal;
        self.input_buffer = String::new();
    }

    /// Takes freshly loaded tasks and snippets.
    pub fn refresh_data(&mut self, tasks: Vec<Task>, snippets: Vec<Snippet>)
        ensures
            final(self)@ == (AppView { tasks: tasks@, snippets: snippets@, ..old(self)@ }),
    {
        self.tasks = tasks;
        self.snippets = snippets;
    }

    /// Takes what was read from the repository: on failure to read its statistics the
    /// error's text is kept and nothing else changes; otherwise the statistics, and the
    /// changelog and merged branches where they could be read.
    pub fn load_git_data(
        &mut self,
        stats: Result<GitStats, GitError>,
        changelog: Option<Vec<ChangelogEntry>>,
        merged_branches: Option<Vec<String>>,
    )
        ensures
            match stats {
                Err(e) => final(self)@ == (AppView { git_error: Some(e.spec_message()), ..old(self)@ }),
                Ok(s) => final(self)@ == (AppView {
                    git_stats: Some(s@),
                    git_changelog: match changelog {
                        Some(c) => opt_changelog(Some(c)),
                        None => old(self)@.git_changelog,
                    },
                    git_merged_branches: match merged_branches {
                        Some(b) => opt_strs(Some(b)),
                        None => old(self)@.git_merged_branches,
                    },
                    ..old(self)@
                }),
            },
    {
        match stats {
            Err(e) => {
                self.git_error = Some(e.message());
            },
            Ok(s) => {
                self.git_stats = Some(s);
                match changelog {
                    Some(c) => {
                        self.git_changelog = Some(c);
                    },
                    None => {},
                }
                match merged_branches {
                    Some(b) => {
                        self.git_merged_branches = Some(b);
                    },
                    None => {},
                }
            },
        }
    }

    /// Advances the Pomodoro timer by one second.
    pub fn on_tick(&mut self)
        requires
            ends_work_phase(old(self)@) ==> old(self).pomodoros_completed < u32::MAX,
        ensures
            final(self)@ == ticked(old(self)@),
    {
        if self.pomodoro_running {
            if self.pomodoro_timer > 0 {
                self.pomodoro_timer = self.pomodoro_timer - 1;
            } else {
                self.pomodoro_running = false;
                match self.pomodoro {
                    PomodoroState::Work => {
                        self.pomodoros_completed = self.pomodoros_completed + 1;
                        if self.pomodoros_completed % 4 == 0 {
                            self.pomodoro = PomodoroState::LongBreak;
                            self.pomodoro_timer = LONG_BREAK_SECONDS;
                        } else {
                            self.pomodoro = PomodoroState::ShortBreak;
                            self.pomodoro_timer = SHORT_BREAK_SECONDS;
                        }
                    },
                    _ => {
                        self.pomodoro = PomodoroState::Work;
                        self.pomodoro_timer = WORK_SECONDS;
                    },
                }
            }
        }
    }

    /// Starts or pauses the timer.
    pub fn toggle_pomodoro(&mut self)
        ensures
            final(self)@ == (AppView { pomodoro_running: !old(self)@.pomodoro_running, ..old(self)@ }),
    {
        self.pomodoro_running = !self.pomodoro_running;
    }

    /// Stops the timer and restarts a full work phase.
    pub fn reset_pomodoro(&mut self)
        ensures
            final(self)@ == (AppView {
                pomodoro_running: false,
                pomodoro: PomodoroState::Work,
                pomodoro_timer: WORK_SECONDS,
                ..old(self)@
            }),
    {
        self.pomodoro_running = false;
        self.pomodoro = PomodoroState::Work;
        self.pomodoro_timer = WORK_SECONDS;
    }

    /// Moves to the next tab; tells whether the Git data must now be loaded.
    pub fn next_tab(&mut self) -> (load_git: bool)
        ensures
            final(self)@ == with_tab(old(self)@, next_tab_of(old(self)@.active_tab)),
            load_git == needs_git_load(final(self)@),
    {
        self.active_tab = match self.active_tab {
            Tab::Overview => Tab::Tasks,
            Tab::Tasks => Tab::Pomodoro,
            Tab::Pomodoro => Tab::Scaffold,
            Tab::Scaffold => Tab::Snippets,
            Tab::Snippets => Tab::Git,
            Tab::Git => Tab::Skills,
            Tab::Skills => Tab::Overview,
        };
        self.active_tab == Tab::Git && self.git_stats.is_none()
    }

    /// Moves to the previous tab; tells whether the Git data must now be loaded.
    pub fn prev_tab(&mut self) -> (load_git: bool)
        ensures
            final(self)@ == with_tab(old(self)@, prev_tab_of(old(self)@.active_tab)),
            load_git == needs_git_load(final(self)@),
    {
        self.active_tab = match self.active_tab {
            Tab::Overview => Tab::Skills,
            Tab::Tasks => Tab::Overview,
            Tab::Pomodoro => Tab::Tasks,
            Tab::Scaffold => Tab::Pomodoro,
            Tab::Snippets => Tab::Scaffold,
            Tab::Git => Tab::Snippets,
            Tab::Skills => Tab::Git,
        };
        self.active_tab == Tab::Git && self.git_stats.is_none()
    }

    /// Ends the task input: gives the trimmed title to store, if it is not empty.
    pub fn add_task(&mut self) -> (title: Option<String>)
        ensures
            final(self)@ == exited(old(self)@),
            match title {
                Some(t) => t@ == trim(old(self)@.input_buffer) && t@.len() > 0,
                None => trim(old(self)@.input_buffer).len() == 0,
            },
    {
        let desc = trim_str(self.input_buffer.as_str());
        let empty = desc.as_str().unicode_len() == 0;
        self.exit_input_mode();
        if empty {
            None
        } else {
            Some(desc)
        }
    }

    /// The id of the selected task, when one is selected and stored.
    fn selected_task_id(&self) -> (id: Option<i64>)
        ensures
            id == match selected(self@.tasks, self@.selected_task_index) {
                Some(t) => t.id,
                None => None,
            },
    {
        if self.selected_task_index < self.tasks.len() {
            self.tasks[self.selected_task_index].id
        } else {
            None
        }
    }

    /// The task to toggle in the store: the selected one, when it is stored.
    pub fn toggle_task(&self) -> (id: Option<i64>)
        ensures
            id == match selected(self@.tasks, self@.selected_task_index) {
                Some(t) => t.id,
                None => None,
            },
    {
        self.selected_task_id()
    }

    /// The task to delete from the store: the selected one, when it is stored. The
    /// reloaded data then goes to `task_deleted`.
    pub fn delete_task(&self) -> (id: Option<i64>)
        ensures
            id == match selected(self@.tasks, self@.selected_task_index) {
                Some(t) => t.id,
                None => None,
            },
    {
        self.selected_task_id()
    }

    /// Takes the reloaded data after a task was deleted, keeping the selection in the list.
    pub fn task_deleted(&mut self, tasks: Vec<Task>, snippets: Vec<Snippet>)
        ensures
            final(self)@ == after_task_deletion(old(self)@, tasks@, snippets@),
    {
        self.refresh_data(tasks, snippets);
        if self.selected_task_index >= self.tasks.len() && self.selected_task_index > 0 {
            self.selected_task_index = self.selected_task_index - 1;
        }
    }

    /// The snippet to delete from the store: the name of the selected one, when one is
    /// selected. The reloaded data then goes to `snippet_deleted`.
    pub fn delete_snippet(&self) -> (name: Option<String>)
        ensures
            match selected(self@.snippets, self@.selected_snippet_index) {
                Some(s) => name matches Some(n) && n@ == s.name@,
                None => name is None,
            },
    {
        if self.selected_snippet_index < self.snippets.len() {
            Some(self.snippets[self.selected_snippet_index].name.clone())
        } else {
            None
        }
    }

    /// The code to put on the clipboard: that of the selected snippet, when one is selected.
    pub fn copy_snippet(&self) -> (code: Option<String>)
        ensures
            match selected(self@.snippets, self@.selected_snippet_index) {
                Some(s) => code matches Some(c) && c@ == s.code@,
                None => code is None,
            },
    {
        if self.selected_snippet_index < self.snippets.len() {
            Some(self.snippets[self.selected_snippet_index].code.clone())
        } else {
            None
        }
    }

    /// Takes the reloaded data after a snippet was deleted, keeping the selection in the list.
    pub fn snippet_deleted(&mut self, tasks: Vec<Task>, snippets: Vec<Snippet>)
        ensures
            final(self)@ == (AppView {
                tasks: tasks@,
                snippets: snippets@,
                selected_snippet_index: clamped(old(self)@.selected_snippet_index, snippets@.len()),
                ..old(self)@
            }),
    {
        self.refresh_data(tasks, snippets);
        if self.selected_snippet_index >= self.snippets.len() && self.selected_snippet_index > 0 {
            self.selected_snippet_index = self.selected_snippet_index - 1;
        }
    }

    /// The template and the project name to scaffold: the selected template, and the
    /// trimmed input unless it is empty. The outcome then goes to `finish_scaffold`.
    pub fn execute_scaffold(&self) -> (r: (String, Option<String>))
        requires
            self.selected_template_index < 5,
        ensures
            r.0@ == AVAILABLE_TEMPLATES@[self.selected_template_index as int]@,
            match r.1 {
                Some(n) => n@ == trim(self@.input_buffer) && n@.len() > 0,
                None => trim(self@.input_buffer).len() == 0,
            },
    {
        let template = owned(AVAILABLE_TEMPLATES[self.selected_template_index]);
        let name = trim_str(self.input_buffer.as_str());
        if name.as_str().unicode_len() == 0 {
            (template, None)
        } else {
            (template, Some(name))
        }
    }

    /// Ends the project-name input with the scaffold's outcome: its report, or a
    /// single line with the error.
    pub fn finish_scaffold(&mut self, result: Result<Vec<String>, ScaffoldError>)
        ensures
            final(self)@ == exited(
                AppView {
                    scaffold_logs: Some(
                        match result {
                            Ok(logs) => strs(logs@),
                            Err(e) => seq!["❌ Error: "@ + e.spec_message()],
                        },
                    ),
                    ..old(self)@
                },
            ),
    {
        match result {
            Ok(logs) => {
                self.scaffold_logs = Some(logs);
            },
            Err(e) => {
                let mut lines: Vec<String> = Vec::new();
                let msg = e.message();
                lines.push(concat2("❌ Error: ", msg.as_str()));
                assert(strs(lines@) =~= seq!["❌ Error: "@ + e.spec_message()]);
                self.scaffold_logs = Some(lines);
            },
        }
        self.exit_input_mode();
    }

    /// Ends the snippet input with the code read from the clipboard: gives the snippet
    /// to store (name, language and description from the draft), unless the code is empty.
    pub fn save_snippet_from_clipboard(&mut self, code: String) -> (r: Option<NewSnippet>)
        ensures
            final(self)@ == exited(old(self)@),
            match r {
                Some(s) => code@.len() > 0 && s.code@ == code@ && s.name@ == old(self)@.new_snippet_draft.0
                    && s.language@ == old(self)@.new_snippet_draft.1 && s.description@ == old(
                    self,
                )@.new_snippet_draft.2,
                None => code@.len() == 0,
            },
    {
        let empty = code.as_str().unicode_len() == 0;
        self.exit_input_mode();
        if empty {
            return None;
        }
        Some(
            NewSnippet {
                name: self.new_snippet_draft.0.clone(),
                code,
                language: self.new_snippet_draft.1.clone(),
                description: self.new_snippet_draft.2.clone(),
            },
        )
    }

    /// The merged branches to delete, when they are known.
    pub fn clean_git_branches(&self) -> (r: Option<Vec<String>>)
        ensures
            opt_strs(r) == self@.git_merged_branches,
    {
        match &self.git_merged_branches {
            Some(b) => {
                let mut out: Vec<String> = Vec::new();
                let mut i: usize = 0;
                while i < b.len()
                    invariant
                        i <= b.len(),
                        strs(out@) == strs(b@).take(i as int),
                    decreases b.len() - i,
                {
                    let ghost before = out@;
                    let item = b[i].clone();
                    assert(item@ == b@[i as int]@);
                    out.push(item);
                    assert(strs(out@) =~= strs(before).push(item@));
                    assert(strs(b@).take(i + 1) =~= strs(b@).take(i as int).push(b@[i as int]@));
                    i += 1;
                }
                assert(strs(b@).take(b.len() as int) =~= strs(b@));
                Some(out)
            },
            None => None,
        }
    }

    /// Starts a skills search with the trimmed input as query, and gives the query. The
    /// outcome then goes to `finish_skills_search`.
    pub fn search_skills(&mut self) -> (query: String)
        ensures
            query@ == trim(old(self)@.input_buffer),
            final(self)@ == (AppView {
                skills_search_query: query@,
                skills_loading: true,
                skills_install_logs: None,
                ..old(self)@
            }),
    {
        let query = trim_str(self.input_buffer.as_str());
        self.skills_search_query = query.clone();
        self.skills_loading = true;
        self.skills_install_logs = None;
        query
    }

    /// Ends a skills search for `query` with its outcome: the skills found and a status
    /// line, or the error; leaves text input.
    pub fn finish_skills_search(&mut self, query: &str, result: Result<Vec<Skill>, SkillsError>)
        ensures
            final(self)@ == searched(
                old(self)@,
                query@,
                match result {
                    Ok(v) => Ok(skills_view(v@)),
                    Err(e) => Err(e.spec_message()),
                },
            ),
    {
        match result {
            Ok(skills) => {
                let n = skills.len();
                let status = if query.unicode_len() == 0 {
                    let mut s = concat2("✅ ", decimal_string(n as u64).as_str());
                    s.append(" skills encontradas");
                    s
                } else if n == 0 {
                    concat3("❓ 0 skills para '", query, "'. Presiona 'l' para leaderboard")
                } else {
                    let mut s = concat2("✅ ", decimal_string(n as u64).as_str());
                    s.append(" skills para '");
                    s.append(query);
                    s.append("'");
                    s
                };
                self.skills_status = Some(status);
                self.skills_results = skills;
                self.selected_skill_index = 0;
            },
            Err(e) => {
                let msg = e.message();
                self.skills_status = Some(concat2("❌ Error: ", msg.as_str()));
                self.skills_results = Vec::new();
                assert(skills_view(self.skills_results@) =~= Seq::empty());
            },
        }
        self.skills_loading = false;
        self.exit_input_mode();
    }
    /// The Pomodoro timer as `mm:ss`.
    pub fn pomodoro_clock(&self) -> (r: String)
        ensures
            r@ == clock_text(self.pomodoro_timer),
    {
        let mins = self.pomodoro_timer / 60;
        let secs = self.pomodoro_timer % 60;
        let mut r = two_digit_string(mins);
        r.append(":");
        let s = two_digit_string(secs);
        r.append(s.as_str());
        r
    }

    /// How many tasks are done.
    pub fn completed_task_count(&self) -> (n: usize)
        ensures
            n == done_count(self@.tasks),
    {
        let mut n: usize = 0;
        let mut i: usize = 0;
        while i < self.tasks.len()
            invariant
                i <= self.tasks.len(),
                n == done_count(self.tasks@.take(i as int)),
                n <= i,
            decreases self.tasks.len() - i,
        {
            assert(self.tasks@.take(i + 1).drop_last() =~= self.tasks@.take(i as int));
            if self.tasks[i].completed {
                n += 1;
            }
            i += 1;
        }
        assert(self.tasks@.take(self.tasks.len() as int) =~= self.tasks@);
        n
    }
}

/// `n` with at least two digits.
fn two_digit_string(n: u64) -> (r: String)
    ensures
        r@ == two_digits(n as nat),
{
    let d = decimal_string(n);
    if n < 10 {
        let mut r = String::new();
        push_char(&mut r, '0');
        r.append(d.as_str());
        r
    } else {
        d
    }
}

} // verus!
