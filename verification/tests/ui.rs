use dashtui::commands::skills::Skill;
use dashtui::db::storage::{Snippet, Task};
use dashtui::tui::app::{InputMode, PomodoroState, Tab};
use dashtui::tui::ui::{
    changelog_count, contributor_bar, contributor_lines, git_error_text, input_title, skill_label,
    skills_header, snippet_description, template_label, phase_label, snippet_label, tab_index, task_label, timer_title, TAB_TITLES,
};

#[test]
fn tab_bar_titles_follow_tab_order() {
    assert_eq!(TAB_TITLES[tab_index(Tab::Overview)], "General");
    assert_eq!(TAB_TITLES[tab_index(Tab::Tasks)], "Tareas");
    assert_eq!(TAB_TITLES[tab_index(Tab::Git)], "Git");
    assert_eq!(tab_index(Tab::Skills), 6);
}

#[test]
fn task_and_snippet_labels() {
    let done = Task { id: Some(1), title: "deploy".to_string(), completed: true, created_at: String::new() };
    let open = Task { id: Some(2), title: "test".to_string(), completed: false, created_at: String::new() };
    assert_eq!(task_label(&done), "✅ deploy");
    assert_eq!(task_label(&open), "☐ test");
    let s = Snippet {
        id: None,
        name: "hello".to_string(),
        code: String::new(),
        language: "rust".to_string(),
        description: String::new(),
        created_at: String::new(),
    };
    assert_eq!(snippet_label(&s), " [rust] hello");
}

#[test]
fn pomodoro_panel_texts() {
    assert_eq!(phase_label(PomodoroState::Work), "Enfoque");
    assert_eq!(phase_label(PomodoroState::ShortBreak), "Descanso Corto");
    assert_eq!(phase_label(PomodoroState::LongBreak), "Descanso Largo");
    assert_eq!(timer_title(true), "Corriendo ");
    assert_eq!(timer_title(false), "Pausado (s: start/stop) ");
}

#[test]
fn contributor_bar_is_capped_at_twenty_blocks() {
    assert_eq!(contributor_bar(0), "");
    assert_eq!(contributor_bar(3), "███");
    assert_eq!(contributor_bar(20).chars().count(), 20);
    assert_eq!(contributor_bar(1000).chars().count(), 20);
}

#[test]
fn input_box_titles() {
    assert_eq!(input_title(InputMode::TaskAdd), " Nueva Tarea ");
    assert_eq!(input_title(InputMode::ProjectName), " Nombre del Proyecto ");
    assert_eq!(input_title(InputMode::SnippetLanguage), " Lenguaje (ej: rust, js, py) ");
    assert_eq!(input_title(InputMode::SkillSearch), " Input ");
}

#[test]
fn git_panel_lists_top_five_contributors() {
    let contributors: Vec<(String, u64)> = vec![
        ("ana".to_string(), 30),
        ("bob".to_string(), 3),
        ("cy".to_string(), 2),
        ("dee".to_string(), 1),
        ("eve".to_string(), 1),
        ("fay".to_string(), 1),
    ];
    let lines = contributor_lines(&contributors);
    assert_eq!(lines.len(), 5);
    assert_eq!(lines[0].rank, "  1. ");
    assert_eq!(lines[0].name, "ana             ");
    assert_eq!(lines[0].count, "30");
    assert_eq!(lines[0].bar.chars().count(), 20);
    assert_eq!(lines[1].bar, "███");
    assert_eq!(lines[4].rank, "  5. ");
    assert_eq!(format!("{:<15} ", "a-very-long-author-name"), contributor_lines(&vec![("a-very-long-author-name".to_string(), 1)])[0].name);
    assert!(contributor_lines(&Vec::new()).is_empty());
}

#[test]
fn panel_texts() {
    assert_eq!(git_error_text("boom"), "⚠️ Error Git: boom");
    assert_eq!(changelog_count(12), " (12)");
    let s = Skill {
        rank: 7,
        name: "pdf".to_string(),
        author: "anthropic".to_string(),
        install_path: "anthropic/skills/pdf".to_string(),
        installs: "N/A".to_string(),
    };
    assert_eq!(skill_label(&s), "   7. pdf — anthropic (N/A)");
    assert_eq!(skill_label(&s), format!(" {:>3}. {} — {} ({})", s.rank, s.name, s.author, s.installs));
    let long = Skill { rank: 1234, ..s.clone() };
    assert_eq!(skill_label(&long), format!(" {:>3}. {} — {} ({})", 1234, "pdf", "anthropic", "N/A"));
    assert_eq!(skills_header(true, &Some("x".to_string())), "⏳ Cargando skills...");
    assert_eq!(skills_header(false, &Some("x".to_string())), "x");
    assert_eq!(skills_header(false, &None), "Presiona 's' para buscar o 'l' para el leaderboard");
    assert_eq!(template_label("rust-cli"), "  rust-cli  ");
    let sn = Snippet {
        id: None,
        name: "n".to_string(),
        code: String::new(),
        language: String::new(),
        description: "greets".to_string(),
        created_at: String::new(),
    };
    assert_eq!(snippet_description(&sn), "Descripción: greets");
}
