use dashtui::commands::skills::{
    extract_installs_from_text, fallback_install_command, fetch_all_skills, install_args,
    install_command_from_html, is_navigation_link, parse_skills_from_html, search_skills,
    skill_page_url, skills_from_hrefs, Skill,
};
use dashtui::error::SkillsError;

fn summary(skills: &[Skill]) -> Vec<(usize, String, String, String, String)> {
    skills
        .iter()
        .map(|s| (s.rank, s.name.clone(), s.author.clone(), s.install_path.clone(), s.installs.clone()))
        .collect()
}

#[test]
fn is_navigation_link_should_detect_nav_paths() {
    assert!(is_navigation_link("/docs"));
    assert!(is_navigation_link("/audits"));
    assert!(!is_navigation_link("/vercel-labs/skills/find-skills"));
}

#[test]
fn extract_installs_should_parse_numeric_suffix() {
    assert_eq!(extract_installs_from_text("find-skills319.5K"), "319.5K");
    assert_eq!(extract_installs_from_text("my-skill1.2K"), "1.2K");
    assert_eq!(extract_installs_from_text("skill-only"), "N/A");
}

#[test]
fn extract_installs_edge_cases() {
    assert_eq!(extract_installs_from_text(""), "N/A");
    assert_eq!(extract_installs_from_text("K"), "N/A");
    assert_eq!(extract_installs_from_text("tool42"), "42");
    assert_eq!(extract_installs_from_text("x3M"), "3M");
    assert_eq!(extract_installs_from_text("name.K"), "N/A");
}

#[test]
fn hrefs_become_ranked_unique_skills() {
    let hrefs = vec![
        Some("/vercel-labs/skills/find-skills".to_string()),
        Some("/docs".to_string()),
        Some("https://example.com/a/b/c".to_string()),
        Some("/a/b".to_string()),
        None,
        Some("/vercel-labs/skills/find-skills".to_string()),
        Some("//acme/tools/extra/lint".to_string()),
    ];
    let skills = skills_from_hrefs(&hrefs).expect("skills");
    assert_eq!(
        summary(&skills),
        vec![
            (
                1,
                "find-skills".to_string(),
                "vercel-labs".to_string(),
                "vercel-labs/skills/find-skills".to_string(),
                "N/A".to_string()
            ),
            (
                2,
                "lint".to_string(),
                "acme".to_string(),
                "acme/tools/extra/lint".to_string(),
                "N/A".to_string()
            ),
        ]
    );
}

#[test]
fn hrefs_without_skills_fail() {
    let hrefs = vec![Some("/docs".to_string()), None];
    let err = skills_from_hrefs(&hrefs).err().expect("no skills");
    assert_eq!(err, SkillsError::ParseError("No se encontraron skills en el HTML".to_string()));
    assert_eq!(err.message(), "Error al parsear el HTML: No se encontraron skills en el HTML");
}

const PAGE: &str = r#"<html><body>
<nav><a href="/docs">Docs</a><a href="/faq">FAQ</a></nav>
<a href="/vercel-labs/skills/find-skills"><h3>find-skills</h3>vercel-labs/skills 319.5K</a>
<a href="/Anthropic/tools/pdf-reader">pdf-reader</a>
<a href="https://github.com/x/y/z">GitHub</a>
</body></html>"#;

#[test]
fn page_links_give_the_leaderboard() {
    let skills = parse_skills_from_html(PAGE).expect("skills");
    let names: Vec<&str> = skills.iter().map(|s| s.name.as_str()).collect();
    assert_eq!(names, vec!["find-skills", "pdf-reader"]);
    assert_eq!(skills[1].rank, 2);
    assert_eq!(skills[1].author, "Anthropic");
    assert_eq!(fetch_all_skills(PAGE).expect("skills").len(), 2);
    assert!(parse_skills_from_html("<p>nothing</p>").is_err());
}

#[test]
fn search_ignores_case_of_query_and_fields() {
    let found = search_skills(PAGE, "ANTHROPIC").expect("search");
    assert_eq!(found.len(), 1);
    assert_eq!(found[0].name, "pdf-reader");
    assert_eq!(found[0].rank, 2);
    let found = search_skills(PAGE, "Find").expect("search");
    assert_eq!(found.len(), 1);
    assert_eq!(found[0].name, "find-skills");
    assert!(search_skills(PAGE, "nothing-matches").expect("search").is_empty());
    assert_eq!(search_skills(PAGE, "").expect("search").len(), 2);
}

#[test]
fn install_command_is_read_from_page() {
    let page = "<p>Install it:</p><pre>  npx skills add https://github.com/a/b --skill c\n</pre>";
    assert_eq!(
        install_command_from_html(page).expect("command"),
        "npx skills add https://github.com/a/b --skill c"
    );
    let err = install_command_from_html("<p>nothing to see</p>").err().expect("none");
    assert_eq!(err, SkillsError::ParseError("No se encontró comando de instalación".to_string()));
}

#[test]
fn install_command_is_cut_at_hundred_chars() {
    let long = format!("<code>npx skills add {}</code>", "x".repeat(200));
    let cmd = install_command_from_html(&long).expect("command");
    assert_eq!(cmd.chars().count(), 100);
    assert!(cmd.starts_with("npx skills add xxx"));
}

#[test]
fn fallback_command_needs_three_segments() {
    assert_eq!(
        fallback_install_command("a/b/c"),
        Some("npx skills add https://github.com/a/b --skill c".to_string())
    );
    assert_eq!(fallback_install_command("a/b"), None);
    assert_eq!(skill_page_url("a/b/c"), "https://skills.sh/a/b/c");
}

#[test]
fn install_args_keep_source_options_and_skill() {
    assert_eq!(
        install_args("npx skills add https://github.com/a/b --skill c"),
        vec!["skills", "add", "https://github.com/a/b", "--skill", "c", "-y"]
    );
    assert_eq!(install_args("npx skills add owner@repo"), vec!["skills", "add", "owner@repo"]);
    assert_eq!(
        install_args("npx  skills add x --skill --global"),
        vec!["skills", "add", "--skill", "--global", "-y"]
    );
    assert_eq!(install_args("npx skills add plain --skill"), vec!["skills", "add", "--skill", "-y"]);
}

#[test]
fn skills_error_messages() {
    assert_eq!(
        SkillsError::Network("timeout".to_string()).message(),
        "Error al hacer la solicitud de web scraping: timeout"
    );
}

#[test]
fn narrower_query_finds_subsequence_and_empty_query_finds_all() {
    let all = fetch_all_skills(PAGE).expect("leaderboard");
    assert_eq!(summary(&search_skills(PAGE, "").expect("search")), summary(&all));
    let wide = search_skills(PAGE, "i").expect("search");
    let narrow = search_skills(PAGE, "FIND").expect("search");
    assert!(narrow.len() <= wide.len());
    let wide_names: Vec<&str> = wide.iter().map(|s| s.name.as_str()).collect();
    assert!(narrow.iter().all(|s| wide_names.contains(&s.name.as_str())));
}

#[test]
fn page_without_skills_gives_the_only_parse_error() {
    match parse_skills_from_html("<p>nothing here</p>") {
        Err(SkillsError::ParseError(m)) => assert_eq!(m, "No se encontraron skills en el HTML"),
        other => panic!("unexpected {other:?}"),
    }
}
