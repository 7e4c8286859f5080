use dashtui::commands::dashboard::{handle_key, handle_nav_down, handle_nav_up, Action, Key};
use dashtui::commands::git_utils::GitStats;
use dashtui::commands::skills::Skill;
use dashtui::db::storage::{Snippet, Task};
use dashtui::error::{DashboardError, GitError, ScaffoldError, SkillsError};
use dashtui::tui::app::{App, InputMode, PomodoroState, Tab, WORK_SECONDS};

fn app() -> App {
    App::new("proj".to_string(), 3)
}

fn task(id: i64, title: &str, completed: bool) -> Task {
    Task { id: Some(id), title: title.to_string(), completed, created_at: String::new() }
}

fn snippet(name: &str, code: &str) -> Snippet {
    Snippet {
        id: Some(1),
        name: name.to_string(),
        code: code.to_string(),
        language: "rust".to_string(),
        description: String::new(),
        created_at: String::new(),
    }
}

fn skill(rank: usize, name: &str) -> Skill {
    Skill {
        rank,
        name: name.to_string(),
        author: "me".to_string(),
        install_path: format!("me/repo/{name}"),
        installs: "N/A".to_string(),
    }
}

fn press(a: &mut App, k: Key) -> Action {
    handle_key(a, k, false)
}

fn type_text(a: &mut App, s: &str) {
    for c in s.chars() {
        assert_eq!(press(a, Key::Char(c)), Action::Nothing);
    }
}

#[test]
fn new_app_starts_on_overview_with_full_work_phase() {
    let a = app();
    assert_eq!(a.active_tab, Tab::Overview);
    assert_eq!(a.input_mode, InputMode::Normal);
    assert_eq!(a.pomodoro, PomodoroState::Work);
    assert_eq!(a.pomodoro_timer, 1500);
    assert!(!a.pomodoro_running);
    assert_eq!(a.project_name, "proj");
    assert_eq!(a._file_count, 3);
    assert_eq!(a.pomodoro_clock(), "25:00");
}

#[test]
fn tabs_cycle_and_load_git_lazily() {
    let mut a = app();
    let order = [Tab::Tasks, Tab::Pomodoro, Tab::Scaffold, Tab::Snippets, Tab::Git, Tab::Skills, Tab::Overview];
    for t in order {
        let action = press(&mut a, Key::Right);
        assert_eq!(a.active_tab, t);
        if t == Tab::Git {
            assert_eq!(action, Action::LoadGitData);
        } else {
            assert_eq!(action, Action::Nothing);
        }
    }
    assert_eq!(press(&mut a, Key::Left), Action::Nothing);
    assert_eq!(a.active_tab, Tab::Skills);
    assert_eq!(press(&mut a, Key::Left), Action::LoadGitData);
    assert_eq!(a.active_tab, Tab::Git);
    let stats = GitStats { total_commits: 1, contributors: vec![], local_branches: 1, tracked_files: 2 };
    a.load_git_data(Ok(stats), None, Some(vec!["old".to_string()]));
    assert_eq!(press(&mut a, Key::Right), Action::Nothing);
    assert_eq!(press(&mut a, Key::Left), Action::Nothing);
    assert_eq!(a.active_tab, Tab::Git);
}

#[test]
fn ctrl_c_and_q_quit() {
    let mut a = app();
    a.enter_input_mode(InputMode::TaskAdd);
    assert_eq!(handle_key(&mut a, Key::Char('c'), true), Action::Nothing);
    assert!(a.should_quit);
    let mut b = app();
    press(&mut b, Key::Char('q'));
    assert!(b.should_quit);
    let mut c = app();
    c.enter_input_mode(InputMode::TaskAdd);
    press(&mut c, Key::Char('q'));
    assert!(!c.should_quit);
    assert_eq!(c.input_buffer, "q");
}

#[test]
fn typing_and_erasing_in_input() {
    let mut a = app();
    a.enter_input_mode(InputMode::SkillSearch);
    type_text(&mut a, "héllo");
    assert_eq!(a.input_buffer, "héllo");
    press(&mut a, Key::Backspace);
    press(&mut a, Key::Backspace);
    assert_eq!(a.input_buffer, "hél");
    press(&mut a, Key::Esc);
    assert_eq!(a.input_mode, InputMode::Normal);
    assert_eq!(a.input_buffer, "");
    a.enter_input_mode(InputMode::TaskAdd);
    press(&mut a, Key::Backspace);
    assert_eq!(a.input_buffer, "");
}

#[test]
fn task_keys_ask_for_store_work() {
    let mut a = app();
    press(&mut a, Key::Right);
    assert_eq!(a.active_tab, Tab::Tasks);
    press(&mut a, Key::Char('a'));
    assert_eq!(a.input_mode, InputMode::TaskAdd);
    type_text(&mut a, "  write tests  ");
    assert_eq!(press(&mut a, Key::Enter), Action::AddTask("write tests".to_string()));
    assert_eq!(a.input_mode, InputMode::Normal);
    press(&mut a, Key::Char('a'));
    type_text(&mut a, "   ");
    assert_eq!(press(&mut a, Key::Enter), Action::Nothing);
    assert_eq!(press(&mut a, Key::Char('x')), Action::Nothing);
    a.refresh_data(vec![task(7, "a", false), task(9, "b", true)], vec![]);
    assert_eq!(a.completed_task_count(), 1);
    assert_eq!(press(&mut a, Key::Char('x')), Action::ToggleTask(7));
    press(&mut a, Key::Down);
    press(&mut a, Key::Char('j'));
    assert_eq!(a.selected_task_index, 1);
    assert_eq!(press(&mut a, Key::Char('d')), Action::DeleteTask(9));
    a.task_deleted(vec![task(7, "a", false)], vec![]);
    assert_eq!(a.selected_task_index, 0);
    press(&mut a, Key::Char('k'));
    assert_eq!(a.selected_task_index, 0);
}

#[test]
fn pomodoro_keys_and_ticks() {
    let mut a = app();
    press(&mut a, Key::Right);
    press(&mut a, Key::Right);
    assert_eq!(a.active_tab, Tab::Pomodoro);
    press(&mut a, Key::Char('s'));
    assert!(a.pomodoro_running);
    a.on_tick();
    assert_eq!(a.pomodoro_timer, WORK_SECONDS - 1);
    assert_eq!(a.pomodoro_clock(), "24:59");
    a.pomodoro_timer = 0;
    a.on_tick();
    assert!(!a.pomodoro_running);
    assert_eq!(a.pomodoros_completed, 1);
    assert_eq!(a.pomodoro, PomodoroState::ShortBreak);
    assert_eq!(a.pomodoro_timer, 300);
    a.on_tick();
    assert_eq!(a.pomodoro_timer, 300);
    press(&mut a, Key::Char('r'));
    assert_eq!(a.pomodoro, PomodoroState::Work);
    assert_eq!(a.pomodoro_timer, 1500);
}

#[test]
fn every_fourth_work_phase_gives_long_break() {
    let mut a = app();
    a.pomodoros_completed = 3;
    a.pomodoro_running = true;
    a.pomodoro_timer = 0;
    a.on_tick();
    assert_eq!(a.pomodoro, PomodoroState::LongBreak);
    assert_eq!(a.pomodoro_timer, 900);
    assert_eq!(a.pomodoros_completed, 4);
    a.pomodoro_running = true;
    a.pomodoro_timer = 0;
    a.on_tick();
    assert_eq!(a.pomodoro, PomodoroState::Work);
    assert_eq!(a.pomodoro_timer, 1500);
    assert_eq!(a.pomodoros_completed, 4);
    a.pomodoro_timer = 65;
    assert_eq!(a.pomodoro_clock(), "01:05");
}

#[test]
fn scaffold_flow_asks_for_the_selected_template() {
    let mut a = app();
    for _ in 0..3 {
        press(&mut a, Key::Right);
    }
    assert_eq!(a.active_tab, Tab::Scaffold);
    for _ in 0..10 {
        handle_nav_down(&mut a);
    }
    assert_eq!(a.selected_template_index, 4);
    handle_nav_up(&mut a);
    assert_eq!(a.selected_template_index, 3);
    press(&mut a, Key::Enter);
    assert_eq!(a.input_mode, InputMode::ProjectName);
    type_text(&mut a, " shop ");
    assert_eq!(
        press(&mut a, Key::Enter),
        Action::Scaffold("python-django".to_string(), Some("shop".to_string()))
    );
    a.finish_scaffold(Err(ScaffoldError::DirectoryExists("shop".to_string())));
    assert_eq!(
        a.scaffold_logs,
        Some(vec!["❌ Error: El directorio 'shop' ya existe y no está vacío".to_string()])
    );
    assert_eq!(a.input_mode, InputMode::Normal);
    press(&mut a, Key::Enter);
    assert_eq!(press(&mut a, Key::Enter), Action::Scaffold("python-django".to_string(), None));
    a.finish_scaffold(Ok(vec!["done".to_string()]));
    assert_eq!(a.scaffold_logs, Some(vec!["done".to_string()]));
}

#[test]
fn snippet_flow_collects_draft_then_clipboard() {
    let mut a = app();
    for _ in 0..4 {
        press(&mut a, Key::Right);
    }
    assert_eq!(a.active_tab, Tab::Snippets);
    press(&mut a, Key::Char('a'));
    type_text(&mut a, "hello");
    press(&mut a, Key::Enter);
    assert_eq!(a.input_mode, InputMode::SnippetLanguage);
    type_text(&mut a, "rust");
    press(&mut a, Key::Enter);
    assert_eq!(a.input_mode, InputMode::SnippetDescription);
    type_text(&mut a, "greets");
    assert_eq!(press(&mut a, Key::Enter), Action::SaveSnippetFromClipboard);
    let s = a.save_snippet_from_clipboard("fn main() {}".to_string()).expect("snippet");
    assert_eq!((s.name.as_str(), s.language.as_str(), s.description.as_str()), ("hello", "rust", "greets"));
    assert_eq!(s.code, "fn main() {}");
    assert_eq!(a.input_mode, InputMode::Normal);
    assert!(a.save_snippet_from_clipboard(String::new()).is_none());
    a.refresh_data(vec![], vec![snippet("one", "1"), snippet("two", "2")]);
    press(&mut a, Key::Down);
    assert_eq!(press(&mut a, Key::Char('c')), Action::CopySnippet("2".to_string()));
    assert_eq!(press(&mut a, Key::Char('d')), Action::DeleteSnippet("two".to_string()));
    a.snippet_deleted(vec![], vec![snippet("one", "1")]);
    assert_eq!(a.selected_snippet_index, 0);
}

#[test]
fn git_tab_cleans_known_branches() {
    let mut a = app();
    for _ in 0..5 {
        press(&mut a, Key::Right);
    }
    assert_eq!(a.active_tab, Tab::Git);
    assert_eq!(press(&mut a, Key::Char('c')), Action::Nothing);
    a.load_git_data(Err(GitError::NoRepository), None, None);
    assert_eq!(
        a.git_error,
        Some("No se encontró repositorio Git en el directorio actual".to_string())
    );
    let stats = GitStats { total_commits: 0, contributors: vec![], local_branches: 0, tracked_files: 0 };
    a.load_git_data(Ok(stats), None, Some(vec!["a".to_string(), "b".to_string()]));
    assert_eq!(
        press(&mut a, Key::Char('c')),
        Action::CleanGitBranches(vec!["a".to_string(), "b".to_string()])
    );
}

#[test]
fn skills_search_status_lines() {
    let mut a = app();
    for _ in 0..6 {
        press(&mut a, Key::Right);
    }
    assert_eq!(a.active_tab, Tab::Skills);
    a.input_buffer = "stale".to_string();
    assert_eq!(press(&mut a, Key::Char('l')), Action::SearchSkills(String::new()));
    assert!(a.skills_loading);
    a.finish_skills_search("", Ok(vec![skill(1, "a"), skill(2, "b")]));
    assert_eq!(a.skills_status, Some("✅ 2 skills encontradas".to_string()));
    assert!(!a.skills_loading);
    press(&mut a, Key::Down);
    assert_eq!(a.selected_skill_index, 1);
    assert_eq!(press(&mut a, Key::Enter), Action::InstallSkill("me/repo/b".to_string()));
    press(&mut a, Key::Char('s'));
    assert_eq!(a.input_mode, InputMode::SkillSearch);
    type_text(&mut a, " pdf ");
    assert_eq!(press(&mut a, Key::Enter), Action::SearchSkills("pdf".to_string()));
    assert_eq!(a.skills_search_query, "pdf");
    a.finish_skills_search("pdf", Ok(vec![]));
    assert_eq!(
        a.skills_status,
        Some("❓ 0 skills para 'pdf'. Presiona 'l' para leaderboard".to_string())
    );
    assert_eq!(a.selected_skill_index, 0);
    a.finish_skills_search("pdf", Ok(vec![skill(3, "pdf")]));
    assert_eq!(a.skills_status, Some("✅ 1 skills para 'pdf'".to_string()));
    a.finish_skills_search("x", Err(SkillsError::Network("boom".to_string())));
    assert_eq!(
        a.skills_status,
        Some("❌ Error: Error al hacer la solicitud de web scraping: boom".to_string())
    );
    assert!(a.skills_results.is_empty());
}

#[test]
fn dashboard_error_messages() {
    assert_eq!(DashboardError::Terminal("tty".to_string()).message(), "Error de terminal: tty");
    assert_eq!(DashboardError::Render("x".to_string()).message(), "Error de renderizado: x");
}

#[test]
fn app_actions_name_what_to_do() {
    let mut a = app();
    assert_eq!(a.toggle_task(), None);
    assert_eq!(a.delete_task(), None);
    assert_eq!(a.copy_snippet(), None);
    assert_eq!(a.delete_snippet(), None);
    a.refresh_data(vec![task(7, "t", false), task(9, "u", true)], vec![snippet("s", "code")]);
    a.selected_task_index = 1;
    assert_eq!(a.toggle_task(), Some(9));
    assert_eq!(a.delete_task(), Some(9));
    assert_eq!(a.copy_snippet(), Some("code".to_string()));
    assert_eq!(a.delete_snippet(), Some("s".to_string()));
    a.task_deleted(vec![task(7, "t", false)], vec![]);
    assert_eq!(a.selected_task_index, 0);
    a.selected_template_index = 1;
    a.input_buffer = "  api ".to_string();
    assert_eq!(a.execute_scaffold(), ("rust-api".to_string(), Some("api".to_string())));
    assert_eq!(a.search_skills(), "api");
    assert_eq!(a.skills_search_query, "api");
    assert!(a.skills_loading);
    assert_eq!(a.completed_task_count(), 0);
}

#[test]
fn fourth_work_phase_run_to_its_end_is_followed_by_long_break() {
    let mut a = app();
    press(&mut a, Key::Right);
    press(&mut a, Key::Right);
    let mut phases = Vec::new();
    for _ in 0..8 {
        press(&mut a, Key::Char('s'));
        while a.pomodoro_running {
            a.on_tick();
        }
        phases.push((a.pomodoro, a.pomodoro_timer, a.pomodoros_completed));
    }
    assert_eq!(
        phases,
        vec![
            (PomodoroState::ShortBreak, 300, 1),
            (PomodoroState::Work, 1500, 1),
            (PomodoroState::ShortBreak, 300, 2),
            (PomodoroState::Work, 1500, 2),
            (PomodoroState::ShortBreak, 300, 3),
            (PomodoroState::Work, 1500, 3),
            (PomodoroState::LongBreak, 900, 4),
            (PomodoroState::Work, 1500, 4),
        ]
    );
}

#[test]
fn deleting_the_last_task_keeps_selection_in_list() {
    let mut a = app();
    a.refresh_data(vec![task(1, "a", false), task(2, "b", false), task(3, "c", false)], vec![]);
    a.selected_task_index = 2;
    assert_eq!(a.delete_task(), Some(3));
    a.task_deleted(vec![task(1, "a", false), task(2, "b", false)], vec![]);
    assert_eq!(a.selected_task_index, 1);
    assert_eq!(a.delete_task(), Some(2));
    a.task_deleted(vec![task(1, "a", false)], vec![]);
    assert_eq!(a.selected_task_index, 0);
    a.task_deleted(vec![], vec![]);
    assert_eq!(a.selected_task_index, 0);
}
