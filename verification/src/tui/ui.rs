//! What the dashboard shows, as text: the titles, labels and lines that the drawing
//! code lays out on the screen.
use vstd::prelude::*;
use crate::commands::skills::Skill;
use crate::db::storage::{Snippet, Task};
use crate::text::{chars_of, concat3, decimal, decimal_string, owned, push_char};
use crate::tui::app::{InputMode, PomodoroState, Tab};

verus! {

/// The titles of the tab bar, in display order.
pub const TAB_TITLES: [&'static str; 7] = [
    "General",
    "Tareas",
    "Pomodoro",
    "Scaffold",
    "Snippets",
    "Git",
    "Skills",
];

/// The longest contributor bar, in blocks.
pub const MAX_BAR: u64 = 20;

/// How many contributors the Git panel lists.
pub const TOP_CONTRIBUTORS: usize = 5;

/// The width to which a contributor's name is padded.
pub const NAME_WIDTH: usize = 15;

/// One contributor line of the Git panel, in its four styled pieces.
pub struct ContributorLine {
    /// The place, as `"  1. "`.
    pub rank: String,
    /// The name, padded with spaces to fifteen characters, then a space.
    pub name: String,
    /// The number of commits.
    pub count: String,
    /// The bar of `contributor_bar`.
    pub bar: String,
}

impl View for ContributorLine {
    type V = (Seq<char>, Seq<char>, Seq<char>, Seq<char>);

    open spec fn view(&self) -> (Seq<char>, Seq<char>, Seq<char>, Seq<char>) {
        (self.rank@, self.name@, self.count@, self.bar@)
    }
}

// ───────────────────────────── Models ─────────────────────────────

/// Where a tab stands in the tab bar.
pub open spec fn tab_position(t: Tab) -> int {
    match t {
        Tab::Overview => 0,
        Tab::Tasks => 1,
        Tab::Pomodoro => 2,
        Tab::Scaffold => 3,
        Tab::Snippets => 4,
        Tab::Git => 5,
        Tab::Skills => 6,
    }
}

/// A task in the task list: a check mark when done, a box when not, then the title.
pub open spec fn task_line(t: Task) -> Seq<char> {
    (if t.completed {
        "✅ "@
    } else {
        "☐ "@
    }) + t.title@
}

/// A snippet in the snippet list: its language in brackets, then its name.
pub open spec fn snippet_line(s: Snippet) -> Seq<char> {
    " ["@ + s.language@ + "] "@ + s.name@
}

/// The name of a Pomodoro phase.
pub open spec fn phase_name(p: PomodoroState) -> Seq<char> {
    match p {
        PomodoroState::Work => "Enfoque"@,
        PomodoroState::ShortBreak => "Descanso Corto"@,
        PomodoroState::LongBreak => "Descanso Largo"@,
    }
}

/// The title of the Pomodoro panel.
pub open spec fn timer_title_of(running: bool) -> Seq<char> {
    if running {
        "Corriendo "@
    } else {
        "Pausado (s: start/stop) "@
    }
}

/// A contributor's bar: one block per commit, at most twenty.
pub open spec fn bar_of(count: u64) -> Seq<char> {
    Seq::new(if count < MAX_BAR { count as nat } else { MAX_BAR as nat }, |i: int| '█')
}

/// `s` padded on the right with spaces to `width` characters.
pub open spec fn padded(s: Seq<char>, width: nat) -> Seq<char> {
    if s.len() < width {
        s + Seq::new((width - s.len()) as nat, |i: int| ' ')
    } else {
        s
    }
}

/// The line of the contributor in place `i` (from 0) with `name` and `count` commits.
pub open spec fn contributor_line_of(i: int, name: Seq<char>, count: u64) -> (
    Seq<char>,
    Seq<char>,
    Seq<char>,
    Seq<char>,
) {
    (
        "  "@ + decimal((i + 1) as nat) + ". "@,
        padded(name, NAME_WIDTH as nat) + " "@,
        decimal(count as nat),
        bar_of(count),
    )
}

/// `s` padded on the left with spaces to `width` characters.
pub open spec fn left_padded(s: Seq<char>, width: nat) -> Seq<char> {
    if s.len() < width {
        Seq::new((width - s.len()) as nat, |i: int| ' ') + s
    } else {
        s
    }
}

/// A template in the template list.
pub open spec fn template_line(name: Seq<char>) -> Seq<char> {
    "  "@ + name + "  "@
}

/// The description line above a snippet's code.
pub open spec fn description_line(s: Snippet) -> Seq<char> {
    "Descripción: "@ + s.description@
}

/// The Git panel's text when the repository could not be read.
pub open spec fn git_error_line(err: Seq<char>) -> Seq<char> {
    "⚠️ Error Git: "@ + err
}

/// The number of commits shown after a changelog heading.
pub open spec fn changelog_count_of(n: nat) -> Seq<char> {
    " ("@ + decimal(n) + ")"@
}

/// A skill in the skills list: its place right-aligned in three columns, its name,
/// author and installs.
pub open spec fn skill_line_of(s: (usize, Seq<char>, Seq<char>, Seq<char>, Seq<char>)) -> Seq<char> {
    " "@ + left_padded(decimal(s.0 as nat), 3) + ". "@ + s.1 + " — "@ + s.2 + " ("@ + s.4 + ")"@
}

/// The header of the Skills tab: a loading notice, the last search's status, or how
/// to start.
pub open spec fn skills_header_of(loading: bool, status: Option<Seq<char>>) -> Seq<char> {
    if loading {
        "⏳ Cargando skills..."@
    } else {
        match status {
            Some(s) => s,
            None => "Presiona 's' para buscar o 'l' para el leaderboard"@,
        }
    }
}

/// The title of the text input box; the skill search has the generic one.
pub open spec fn input_title_of(mode: InputMode) -> Seq<char> {
    match mode {
        InputMode::TaskAdd => " Nueva Tarea "@,
        InputMode::ProjectName => " Nombre del Proyecto "@,
        InputMode::SnippetTitle => " Título del Snippet (El código se leerá del Clipboard) "@,
        InputMode::SnippetLanguage => " Lenguaje (ej: rust, js, py) "@,
        InputMode::SnippetDescription => " Descripción del Snippet "@,
        InputMode::SkillSearch | InputMode::Normal => " Input "@,
    }
}

// ───────────────────────────── Functions ─────────────────────────────

/// Where a tab stands in the tab bar.
pub fn tab_index(tab: Tab) -> (r: usize)
    ensures
        r == tab_position(tab),
        r < TAB_TITLES.len(),
{
    match tab {
        Tab::Overview => 0,
        Tab::Tasks => 1,
        Tab::Pomodoro => 2,
        Tab::Scaffold => 3,
        Tab::Snippets => 4,
        Tab::Git => 5,
        Tab::Skills => 6,
    }
}

/// A task as the task list shows it.
pub fn task_label(task: &Task) -> (r: String)
    ensures
        r@ == task_line(*task),
{
    let mut r = if task.completed {
        owned("✅ ")
    } else {
        owned("☐ ")
    };
    r.append(task.title.as_str());
    r
}

/// A snippet as the snippet list shows it.
pub fn snippet_label(snippet: &Snippet) -> (r: String)
    ensures
        r@ == snippet_line(*snippet),
{
    let mut r = concat3(" [", snippet.language.as_str(), "] ");
    r.append(snippet.name.as_str());
    r
}

/// The name of a Pomodoro phase.
pub fn phase_label(phase: PomodoroState) -> (r: &'static str)
    ensures
        r@ == phase_name(phase),
{
    match phase {
        PomodoroState::Work => "Enfoque",
        PomodoroState::ShortBreak => "Descanso Corto",
        PomodoroState::LongBreak => "Descanso Largo",
    }
}

/// The title of the Pomodoro panel: whether the timer runs.
pub fn timer_title(running: bool) -> (r: &'static str)
    ensures
        r@ == timer_title_of(running),
{
    if running {
        "Corriendo "
    } else {
        "Pausado (s: start/stop) "
    }
}

/// A contributor's bar of `count` commits.
pub fn contributor_bar(count: u64) -> (r: String)
    ensures
        r@ == bar_of(count),
{
    let n = if count < MAX_BAR { count } else { MAX_BAR };
    let mut r = String::new();
    let mut i: u64 = 0;
    while i < n
        invariant
            i <= n,
            n == if count < MAX_BAR { count } else { MAX_BAR },
            r@ == Seq::new(i as nat, |k: int| '█'),
        decreases n - i,
    {
        push_char(&mut r, '█');
        assert(r@ =~= Seq::new((i + 1) as nat, |k: int| '█'));
        i += 1;
    }
    assert(r@ =~= bar_of(count));
    r
}

/// `s` padded on the right with spaces to `width` characters.
fn pad_right(s: &str, width: usize) -> (r: String)
    ensures
        r@ == padded(s@, width as nat),
{
    let n = chars_of(s).len();
    let mut r = owned(s);
    let mut k = n;
    while k < width
        invariant
            n == s@.len(),
            n <= k,
            k <= width || k == n,
            r@ == s@ + Seq::new((k - n) as nat, |i: int| ' '),
        decreases width - k,
    {
        push_char(&mut r, ' ');
        assert(r@ =~= s@ + Seq::new((k + 1 - n) as nat, |i: int| ' '));
        k += 1;
    }
    assert(r@ =~= padded(s@, width as nat));
    r
}

/// The contributor lines of the Git panel: the first five contributors, numbered
/// from 1, each with its padded name, its commits and its bar.
pub fn contributor_lines(contributors: &Vec<(String, u64)>) -> (r: Vec<ContributorLine>)
    ensures
        r.len() == if contributors.len() < TOP_CONTRIBUTORS { contributors.len() } else { TOP_CONTRIBUTORS },
        forall|i: int|
            0 <= i < r.len() ==> (#[trigger] r@[i])@ == contributor_line_of(
                i,
                contributors@[i].0@,
                contributors@[i].1,
            ),
{
    let n = if contributors.len() < TOP_CONTRIBUTORS { contributors.len() } else { TOP_CONTRIBUTORS };
    let mut out: Vec<ContributorLine> = Vec::new();
    let mut i: usize = 0;
    while i < n
        invariant
            i <= n <= contributors.len(),
            n <= TOP_CONTRIBUTORS,
            out.len() == i,
            forall|j: int|
                0 <= j < i ==> (#[trigger] out@[j])@ == contributor_line_of(
                    j,
                    contributors@[j].0@,
                    contributors@[j].1,
                ),
        decreases n - i,
    {
        let (name, count) = (&contributors[i].0, contributors[i].1);
        let place = decimal_string((i + 1) as u64);
        let mut padded_name = pad_right(name.as_str(), NAME_WIDTH);
        padded_name.append(" ");
        let line = ContributorLine {
            rank: concat3("  ", place.as_str(), ". "),
            name: padded_name,
            count: decimal_string(count),
            bar: contributor_bar(count),
        };
        out.push(line);
        i += 1;
    }
    out
}

/// A template as the template list shows it.
pub fn template_label(name: &str) -> (r: String)
    ensures
        r@ == template_line(name@),
{
    concat3("  ", name, "  ")
}

/// The description line of a snippet.
pub fn snippet_description(snippet: &Snippet) -> (r: String)
    ensures
        r@ == description_line(*snippet),
{
    let mut r = owned("Descripción: ");
    r.append(snippet.description.as_str());
    r
}

/// The Git panel's text for an error reading the repository.
pub fn git_error_text(err: &str) -> (r: String)
    ensures
        r@ == git_error_line(err@),
{
    let mut r = owned("⚠️ Error Git: ");
    r.append(err);
    r
}

/// The number of commits after a changelog heading, as " (n)".
pub fn changelog_count(n: usize) -> (r: String)
    ensures
        r@ == changelog_count_of(n as nat),
{
    let d = decimal_string(n as u64);
    concat3(" (", d.as_str(), ")")
}

/// A skill as the skills list shows it.
pub fn skill_label(skill: &Skill) -> (r: String)
    ensures
        r@ == skill_line_of(skill@),
{
    let d = decimal_string(skill.rank as u64);
    let n = chars_of(d.as_str()).len();
    let mut r = owned(" ");
    let mut k = n;
    while k < 3
        invariant
            n == d@.len(),
            n <= k,
            k <= 3 || k == n,
            r@ == " "@ + Seq::new((k - n) as nat, |i: int| ' '),
        decreases 3 - k,
    {
        push_char(&mut r, ' ');
        assert(r@ =~= " "@ + Seq::new((k + 1 - n) as nat, |i: int| ' '));
        k += 1;
    }
    assert(" "@ + Seq::new((k - n) as nat, |i: int| ' ') + d@ =~= " "@ + left_padded(d@, 3));
    r.append(d.as_str());
    r.append(". ");
    r.append(skill.name.as_str());
    r.append(" — ");
    r.append(skill.author.as_str());
    r.append(" (");
    r.append(skill.installs.as_str());
    r.append(")");
    r
}

/// The header of the Skills tab.
pub fn skills_header(loading: bool, status: &Option<String>) -> (r: String)
    ensures
        r@ == skills_header_of(
            loading,
            match status {
                Some(s) => Some(s@),
                None => None,
            },
        ),
{
    if loading {
        owned("⏳ Cargando skills...")
    } else {
        match status {
            Some(s) => owned(s.as_str()),
            None => owned("Presiona 's' para buscar o 'l' para el leaderboard"),
        }
    }
}

/// The title of the text input box for `mode`.
pub fn input_title(mode: InputMode) -> (r: &'static str)
    ensures
        r@ == input_title_of(mode),
{
    match mode {
        InputMode::TaskAdd => " Nueva Tarea ",
        InputMode::ProjectName => " Nombre del Proyecto ",
        InputMode::SnippetTitle => " Título del Snippet (El código se leerá del Clipboard) ",
        InputMode::SnippetLanguage => " Lenguaje (ej: rust, js, py) ",
        InputMode::SnippetDescription => " Descripción del Snippet ",
        InputMode::SkillSearch | InputMode::Normal => " Input ",
    }
}

} // verus!
