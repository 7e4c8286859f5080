use dashtui::commands::git_utils::{
    format_type_label, get_changelog, get_type_emoji, merged_branch_names, parse_conventional_commit,
    tally_contributors, BranchInfo,
};
use dashtui::error::GitError;

fn strings(v: &[&str]) -> Vec<String> {
    v.iter().map(|s| s.to_string()).collect()
}

#[test]
fn parse_conventional_commit_should_extract_feat() {
    let result = parse_conventional_commit("feat: add new feature");
    assert_eq!(result, Some(("feat".to_string(), "add new feature".to_string())));
}

#[test]
fn format_type_label_should_return_readable_names() {
    assert_eq!(format_type_label("feat"), "Features");
    assert_eq!(format_type_label("fix"), "Bug Fixes");
}

#[test]
fn parse_conventional_commit_drops_scope_and_trims() {
    assert_eq!(
        parse_conventional_commit("fix(parser):   handle eof  \nlonger body"),
        Some(("fix".to_string(), "handle eof".to_string()))
    );
    assert_eq!(
        parse_conventional_commit("docs: readme\r\nbody"),
        Some(("docs".to_string(), "readme".to_string()))
    );
}

#[test]
fn parse_conventional_commit_rejects_non_conventional() {
    assert_eq!(parse_conventional_commit(""), None);
    assert_eq!(parse_conventional_commit("Feat: upper case type"), None);
    assert_eq!(parse_conventional_commit("v2: digits in type"), None);
    assert_eq!(parse_conventional_commit("no colon here"), None);
    assert_eq!(parse_conventional_commit("feat:    "), None);
    assert_eq!(parse_conventional_commit(": no type"), None);
    assert_eq!(parse_conventional_commit("\nfeat: second line only"), None);
}

#[test]
fn format_type_label_covers_every_known_type() {
    assert_eq!(format_type_label("refactor"), "Refactoring");
    assert_eq!(format_type_label("docs"), "Documentation");
    assert_eq!(format_type_label("test"), "Tests");
    assert_eq!(format_type_label("chore"), "Chores");
    assert_eq!(format_type_label("style"), "Style");
    assert_eq!(format_type_label("perf"), "Performance");
    assert_eq!(format_type_label("build"), "build");
}

#[test]
fn get_type_emoji_maps_types() {
    assert_eq!(get_type_emoji("feat"), "✨");
    assert_eq!(get_type_emoji("fix"), "🐛");
    assert_eq!(get_type_emoji("refactor"), "♻️");
    assert_eq!(get_type_emoji("docs"), "📚");
    assert_eq!(get_type_emoji("test"), "🧪");
    assert_eq!(get_type_emoji("chore"), "🔧");
    assert_eq!(get_type_emoji("style"), "💄");
    assert_eq!(get_type_emoji("perf"), "⚡");
    assert_eq!(get_type_emoji("build"), "📌");
}

#[test]
fn changelog_groups_known_types_first_then_others() {
    let msgs = strings(&[
        "custom: d",
        "feat: a",
        "fix: b",
        "wip",
        "feat: c",
        "zeta: e",
        "custom: f",
        "docs(readme): g",
    ]);
    let entries = get_changelog(&msgs, 100).expect("changelog");
    let view: Vec<(String, Vec<String>)> =
        entries.into_iter().map(|e| (e.commit_type, e.messages)).collect();
    assert_eq!(
        view,
        vec![
            ("feat".to_string(), strings(&["a", "c"])),
            ("fix".to_string(), strings(&["b"])),
            ("docs".to_string(), strings(&["g"])),
            ("custom".to_string(), strings(&["d", "f"])),
            ("zeta".to_string(), strings(&["e"])),
        ]
    );
}

#[test]
fn changelog_reads_only_the_first_messages() {
    let msgs = strings(&["fix: b", "feat: a", "feat: c"]);
    let entries = get_changelog(&msgs, 2).expect("changelog");
    let view: Vec<(String, Vec<String>)> =
        entries.into_iter().map(|e| (e.commit_type, e.messages)).collect();
    assert_eq!(
        view,
        vec![("feat".to_string(), strings(&["a"])), ("fix".to_string(), strings(&["b"]))]
    );
}

#[test]
fn changelog_without_conventional_commits_fails() {
    let msgs = strings(&["wip", "Merge branch 'x'"]);
    assert_eq!(get_changelog(&msgs, 100).err(), Some(GitError::NoConventionalCommits));
    let msgs = strings(&["feat: a"]);
    assert_eq!(get_changelog(&msgs, 0).err(), Some(GitError::NoConventionalCommits));
}

#[test]
fn tally_counts_authors_most_first() {
    let authors = strings(&["ana", "bob", "ana", "cy", "bob", "ana"]);
    let t = tally_contributors(&authors);
    assert_eq!(
        t,
        vec![("ana".to_string(), 3), ("bob".to_string(), 2), ("cy".to_string(), 1)]
    );
    assert!(tally_contributors(&Vec::new()).is_empty());
}

#[test]
fn tally_lists_each_author_once_sorted() {
    let authors = strings(&["x", "y", "z", "y"]);
    let t = tally_contributors(&authors);
    assert_eq!(t.len(), 3);
    assert_eq!(t[0], ("y".to_string(), 2));
    let mut rest: Vec<(String, u64)> = t[1..].to_vec();
    rest.sort();
    assert_eq!(rest, vec![("x".to_string(), 1), ("z".to_string(), 1)]);
}

fn branch(name: &str, is_head: bool, upstream_is_head: Option<bool>) -> BranchInfo {
    BranchInfo { name: name.to_string(), is_head, upstream_is_head, merged: true }
}

#[test]
fn merged_branches_skip_protected_and_head() {
    let branches = vec![
        branch("main", false, None),
        branch("master", false, None),
        branch("develop", false, None),
        branch("feature", false, None),
        branch("old", false, None),
        branch("tracking-other", false, Some(false)),
        branch("tracking-head", false, Some(true)),
        branch("current", true, None),
    ];
    assert_eq!(merged_branch_names("feature", &branches), strings(&["old", "tracking-head"]));
}

#[test]
fn unmerged_branches_are_never_cleaned() {
    let mut unmerged = branch("wip", false, None);
    unmerged.merged = false;
    let mut unmerged_tracking = branch("wip-tracking", false, Some(true));
    unmerged_tracking.merged = false;
    let branches = vec![unmerged, branch("done", false, None), unmerged_tracking];
    assert_eq!(merged_branch_names("main", &branches), strings(&["done"]));
}

#[test]
fn git_error_messages() {
    assert_eq!(
        GitError::NoRepository.message(),
        "No se encontró repositorio Git en el directorio actual"
    );
    assert_eq!(GitError::LibGit("boom".to_string()).message(), "Error de Git: boom");
    assert_eq!(
        GitError::NoConventionalCommits.message(),
        "No se encontraron commits convencionales para el changelog"
    );
}

#[test]
fn tally_counts_add_up_to_the_commits() {
    let authors = strings(&["ana", "bob", "ana", "cy", "bob", "ana", "dee"]);
    let total: u64 = tally_contributors(&authors).iter().map(|(_, c)| *c).sum();
    assert_eq!(total, authors.len() as u64);
}

#[test]
fn changelog_groups_are_never_empty() {
    let msgs = strings(&["feat: a", "chore(x): b", "wip", "build: c", "fix: d", "build: e"]);
    let log = get_changelog(&msgs, 100).expect("changelog");
    assert!(log.iter().all(|e| !e.messages.is_empty()));
    assert_eq!(log.iter().map(|e| e.messages.len()).sum::<usize>(), 5);
}
