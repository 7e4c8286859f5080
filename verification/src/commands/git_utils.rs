//! Git repository analysis for the dashboard: conventional-commit parsing,
//! changelog grouping, contributor tallies and merged-branch selection.
//! Reading the repository itself is the caller's part; these functions decide
//! on what was read.
use vstd::prelude::*;
use crate::error::GitError;
use crate::text::{
    chars_of, find_seq, first_occurrence, lemma_first_occurrence_at, lemma_no_occurrence, occurs_at, owned,
    slice_chars, str_eq, string_of, string_of_range, trim, trim_bounds,
};

verus! {

/// Aggregated statistics of a repository.
pub struct GitStats {
    pub total_commits: u64,
    /// (author name, number of commits), most commits first.
    pub contributors: Vec<(String, u64)>,
    pub local_branches: usize,
    pub tracked_files: usize,
}

impl View for GitStats {
    /// (total commits, (author, commits) most first, local branches, tracked files).
    type V = (u64, Seq<(Seq<char>, u64)>, usize, usize);

    open spec fn view(&self) -> (u64, Seq<(Seq<char>, u64)>, usize, usize) {
        (
            self.total_commits,
            self.contributors@.map_values(|p: (String, u64)| (p.0@, p.1)),
            self.local_branches,
            self.tracked_files,
        )
    }
}

/// The commits of one conventional type.
pub struct ChangelogEntry {
    pub commit_type: String,
    pub messages: Vec<String>,
}

impl View for ChangelogEntry {
    type V = (Seq<char>, Seq<Seq<char>>);

    open spec fn view(&self) -> (Seq<char>, Seq<Seq<char>>) {
        (self.commit_type@, self.messages@.map_values(|m: String| m@))
    }
}

/// What a repository knows of one local branch.
pub struct BranchInfo {
    pub name: String,
    /// The branch is the checked-out one.
    pub is_head: bool,
    /// Whether its upstream is the checked-out branch; `None` when it has no upstream.
    pub upstream_is_head: Option<bool>,
    /// Whether it is merged: its tip is the checked-out commit or an ancestor of it.
    pub merged: bool,
}

/// How many commits, newest first, the dashboard's changelog reads.
pub const CHANGELOG_LIMIT: usize = 100;

/// The conventional types, in the order in which a changelog lists them.
pub const CHANGELOG_TYPE_ORDER: [&'static str; 8] = [
    "feat",
    "fix",
    "refactor",
    "docs",
    "test",
    "chore",
    "style",
    "perf",
];

// ───────────────────────────── Models ─────────────────────────────

pub open spec fn is_ascii_lower(c: char) -> bool {
    97 <= (c as u32) <= 122
}

/// A commit type: non-empty, lowercase ASCII letters only.
pub open spec fn is_type_word(s: Seq<char>) -> bool {
    s.len() > 0 && forall|i: int| 0 <= i < s.len() ==> is_ascii_lower(#[trigger] s[i])
}

/// The first line of a message (`str::lines().next()`): up to the first line feed,
/// without a carriage return just before it; `None` for an empty message.
pub open spec fn first_line(m: Seq<char>) -> Option<Seq<char>> {
    if m.len() == 0 {
        None
    } else {
        match first_occurrence(m, seq!['\n']) {
            Some(p) => {
                let l = m.take(p);
                if l.len() > 0 && l.last() == '\r' {
                    Some(l.drop_last())
                } else {
                    Some(l)
                }
            },
            None => Some(m),
        }
    }
}

/// The conventional commit `type(scope): description` on the first line of `m`:
/// the type must be non-empty lowercase ASCII, the trimmed description non-empty.
pub open spec fn conventional_commit(m: Seq<char>) -> Option<(Seq<char>, Seq<char>)> {
    match first_line(m) {
        None => None,
        Some(line) => match first_occurrence(line, seq![':']) {
            None => None,
            Some(colon) => {
                let type_part = line.take(colon);
                let commit_type = match first_occurrence(type_part, seq!['(']) {
                    Some(paren) => type_part.take(paren),
                    None => type_part,
                };
                let description = trim(line.skip(colon + 1));
                if !is_type_word(commit_type) {
                    None
                } else if description.len() == 0 {
                    None
                } else {
                    Some((commit_type, description))
                }
            },
        },
    }
}

pub open spec fn type_label(t: Seq<char>) -> Seq<char> {
    if t == "feat"@ {
        "Features"@
    } else if t == "fix"@ {
        "Bug Fixes"@
    } else if t == "refactor"@ {
        "Refactoring"@
    } else if t == "docs"@ {
        "Documentation"@
    } else if t == "test"@ {
        "Tests"@
    } else if t == "chore"@ {
        "Chores"@
    } else if t == "style"@ {
        "Style"@
    } else if t == "perf"@ {
        "Performance"@
    } else {
        t
    }
}

pub open spec fn type_emoji(t: Seq<char>) -> Seq<char> {
    if t == "feat"@ {
        "✨"@
    } else if t == "fix"@ {
        "🐛"@
    } else if t == "refactor"@ {
        "♻️"@
    } else if t == "docs"@ {
        "📚"@
    } else if t == "test"@ {
        "🧪"@
    } else if t == "chore"@ {
        "🔧"@
    } else if t == "style"@ {
        "💄"@
    } else if t == "perf"@ {
        "⚡"@
    } else {
        "📌"@
    }
}

/// The conventional types in changelog order.
pub open spec fn type_order() -> Seq<Seq<char>> {
    CHANGELOG_TYPE_ORDER@.map_values(|s: &str| s@)
}

/// The (type, description) pairs of the conventional messages among `msgs`, in order.
pub open spec fn conventional_pairs(msgs: Seq<Seq<char>>) -> Seq<(Seq<char>, Seq<char>)>
    decreases msgs.len(),
{
    if msgs.len() == 0 {
        Seq::empty()
    } else {
        let r = conventional_pairs(msgs.drop_last());
        match conventional_commit(msgs.last()) {
            Some(p) => r.push(p),
            None => r,
        }
    }
}

/// Whether a (type, description) pair has type `t`.
pub open spec fn of_type(t: Seq<char>) -> spec_fn((Seq<char>, Seq<char>)) -> bool {
    |p: (Seq<char>, Seq<char>)| p.0 == t
}

/// The descriptions of type `t`, in order.
pub open spec fn messages_of_type(pairs: Seq<(Seq<char>, Seq<char>)>, t: Seq<char>) -> Seq<Seq<char>> {
    pairs.filter(of_type(t)).map_values(|p: (Seq<char>, Seq<char>)| p.1)
}

/// The distinct types of `pairs`, in order of first appearance.
pub open spec fn first_seen_types(pairs: Seq<(Seq<char>, Seq<char>)>) -> Seq<Seq<char>>
    decreases pairs.len(),
{
    if pairs.len() == 0 {
        Seq::empty()
    } else {
        let r = first_seen_types(pairs.drop_last());
        if r.contains(pairs.last().0) {
            r
        } else {
            r.push(pairs.last().0)
        }
    }
}

/// The types a changelog lists: the known types that occur, in changelog order,
/// then every other type that occurs, in order of first appearance.
pub open spec fn changelog_types(pairs: Seq<(Seq<char>, Seq<char>)>) -> Seq<Seq<char>> {
    type_order().filter(|t: Seq<char>| messages_of_type(pairs, t).len() > 0) + first_seen_types(
        pairs,
    ).filter(|t: Seq<char>| !type_order().contains(t))
}

/// The changelog of `pairs`: each listed type with its descriptions.
pub open spec fn changelog_of(pairs: Seq<(Seq<char>, Seq<char>)>) -> Seq<(Seq<char>, Seq<Seq<char>>)> {
    changelog_types(pairs).map_values(|t: Seq<char>| (t, messages_of_type(pairs, t)))
}

/// The changelog of the first `limit` messages.
pub open spec fn changelog_spec(msgs: Seq<Seq<char>>, limit: nat) -> Result<
    Seq<(Seq<char>, Seq<Seq<char>>)>,
    GitError,
> {
    let pairs = conventional_pairs(if limit < msgs.len() { msgs.take(limit as int) } else { msgs });
    if pairs.len() == 0 {
        Err(GitError::NoConventionalCommits)
    } else {
        Ok(changelog_of(pairs))
    }
}

/// A branch may be cleaned when it is merged into the checked-out commit, is not
/// `main`, `master`, `develop` or the checked-out branch, and its upstream is the
/// checked-out branch or it has none.
pub open spec fn is_cleanable(b: BranchInfo, head_name: Seq<char>) -> bool {
    &&& b.merged
    &&& b.name@ != "main"@
    &&& b.name@ != "master"@
    &&& b.name@ != "develop"@
    &&& b.name@ != head_name
    &&& !b.is_head
    &&& match b.upstream_is_head {
        Some(u) => u,
        None => true,
    }
}

/// Whether a branch may be cleaned, with `head_name` checked out.
pub open spec fn cleanable_under(head_name: Seq<char>) -> spec_fn(BranchInfo) -> bool {
    |b: BranchInfo| is_cleanable(b, head_name)
}

/// The names of the branches that may be cleaned, in order.
pub open spec fn cleaned_names(branches: Seq<BranchInfo>, head_name: Seq<char>) -> Seq<Seq<char>> {
    branches.filter(cleanable_under(head_name)).map_values(|b: BranchInfo| b.name@)
}

/// `n` is the name of one of the merged `branches`.
pub open spec fn names_merged_branch(branches: Seq<BranchInfo>, n: Seq<char>) -> bool {
    exists|j: int| 0 <= j < branches.len() && (#[trigger] branches[j]).merged && branches[j].name@ == n
}

/// Cleaning only deletes merged branches, and never `main`, `master`, `develop` or the
/// checked-out branch.
pub proof fn lemma_protected_branches_never_cleaned(branches: Seq<BranchInfo>, head_name: Seq<char>)
    ensures
        forall|i: int|
            0 <= i < cleaned_names(branches, head_name).len() ==> #[trigger] cleaned_names(branches, head_name)[i]
                != "main"@ && cleaned_names(branches, head_name)[i] != "master"@ && cleaned_names(
                branches,
                head_name,
            )[i] != "develop"@ && cleaned_names(branches, head_name)[i] != head_name,
        forall|i: int|
            0 <= i < cleaned_names(branches, head_name).len() ==> names_merged_branch(
                branches,
                #[trigger] cleaned_names(branches, head_name)[i],
            ),
{
    let kept = branches.filter(cleanable_under(head_name));
    assert forall|i: int| 0 <= i < cleaned_names(branches, head_name).len() implies {
        &&& #[trigger] cleaned_names(branches, head_name)[i] != "main"@
        &&& cleaned_names(branches, head_name)[i] != "master"@
        &&& cleaned_names(branches, head_name)[i] != "develop"@
        &&& cleaned_names(branches, head_name)[i] != head_name
        &&& names_merged_branch(branches, cleaned_names(branches, head_name)[i])
    } by {
        branches.lemma_filter_pred(cleanable_under(head_name), i);
        assert(cleaned_names(branches, head_name)[i] == kept[i].name@);
        assert(kept.contains(kept[i]));
        lemma_filter_contains_iff(branches, cleanable_under(head_name), kept[i]);
        let j = choose|j: int| 0 <= j < branches.len() && branches[j] == kept[i];
        assert(branches[j].merged);
    }
}

// ───────────────────────────── Functions ─────────────────────────────

/// The first line of `m`, as `first_line` describes it.
fn first_line_chars(m: &Vec<char>) -> (r: Option<Vec<char>>)
    ensures
        match r {
            Some(l) => first_line(m@) == Some(l@),
            None => first_line(m@) is None,
        },
{
    if m.len() == 0 {
        return None;
    }
    let newline = vec!['\n'];
    assert(newline@ =~= seq!['\n']);
    match find_seq(m, &newline) {
        Some(p) => {
            if p > 0 && m[p - 1] == '\r' {
                assert(m@.take(p as int).drop_last() =~= m@.subrange(0, p - 1));
                Some(slice_chars(m, 0, p - 1))
            } else {
                assert(m@.take(p as int) =~= m@.subrange(0, p as int));
                Some(slice_chars(m, 0, p))
            }
        },
        None => {
            assert(m@ =~= m@.subrange(0, m@.len() as int));
            Some(slice_chars(m, 0, m.len()))
        },
    }
}

/// Whether `v` is non-empty lowercase ASCII.
fn is_lower_word(v: &Vec<char>) -> (b: bool)
    ensures
        b == is_type_word(v@),
{
    if v.len() == 0 {
        return false;
    }
    let mut j: usize = 0;
    while j < v.len()
        invariant
            j <= v.len(),
            forall|x: int| 0 <= x < j ==> is_ascii_lower(#[trigger] v@[x]),
        decreases v.len() - j,
    {
        let n = v[j] as u32;
        if !(97 <= n && n <= 122) {
            assert(!is_ascii_lower(v@[j as int]));
            return false;
        }
        j += 1;
    }
    true
}

/// Parses the first line of a commit message as a conventional commit
/// `type(scope): description`, giving `(type, description)`.
pub fn parse_conventional_commit(message: &str) -> (r: Option<(String, String)>)
    ensures
        match r {
            Some((t, d)) => conventional_commit(message@) == Some((t@, d@)),
            None => conventional_commit(message@) is None,
        },
{
    let m = chars_of(message);
    let l = match first_line_chars(&m) {
        Some(l) => l,
        None => return None,
    };
    let colon_pat = vec![':'];
    assert(colon_pat@ =~= seq![':']);
    let colon = match find_seq(&l, &colon_pat) {
        Some(c) => c,
        None => return None,
    };
    let type_part = slice_chars(&l, 0, colon);
    assert(type_part@ =~= l@.take(colon as int));
    let paren_pat = vec!['('];
    assert(paren_pat@ =~= seq!['(']);
    let commit_type = match find_seq(&type_part, &paren_pat) {
        Some(q) => {
            assert(type_part@.take(q as int) =~= type_part@.subrange(0, q as int));
            slice_chars(&type_part, 0, q)
        },
        None => {
            assert(type_part@ =~= type_part@.subrange(0, type_part@.len() as int));
            slice_chars(&type_part, 0, type_part.len())
        },
    };
    let ghost spec_type = match first_occurrence(l@.take(colon as int), seq!['(']) {
        Some(paren) => l@.take(colon as int).take(paren),
        None => l@.take(colon as int),
    };
    assert(commit_type@ == spec_type);
    if !is_lower_word(&commit_type) {
        return None;
    }
    assert(colon + 1 <= l.len()) by {
        assert(crate::text::occurs_at(l@, colon_pat@, colon as int));
        assert(colon_pat@.len() == 1);
    }
    let rest = slice_chars(&l, colon + 1, l.len());
    assert(rest@ =~= l@.skip(colon + 1));
    let (lo, hi) = trim_bounds(&rest);
    if lo == hi {
        return None;
    }
    Some((string_of(&commit_type), string_of_range(&rest, lo, hi)))
}

/// The views of (type, description) pairs.
pub open spec fn pairs_view(p: Seq<(String, String)>) -> Seq<(Seq<char>, Seq<char>)> {
    p.map_values(|x: (String, String)| (x.0@, x.1@))
}

/// The views of changelog entries.
pub open spec fn entries_view(e: Seq<ChangelogEntry>) -> Seq<(Seq<char>, Seq<Seq<char>>)> {
    e.map_values(|x: ChangelogEntry| x@)
}

/// The views of strings.
pub open spec fn strings_view(v: Seq<String>) -> Seq<Seq<char>> {
    v.map_values(|x: String| x@)
}

/// An element is in a filtered sequence exactly when it is in the sequence and passes the filter.
pub proof fn lemma_filter_contains_iff<A>(s: Seq<A>, p: spec_fn(A) -> bool, x: A)
    ensures
        s.filter(p).contains(x) <==> (s.contains(x) && p(x)),
    decreases s.len(),
{
    reveal(Seq::filter);
    if s.len() > 0 {
        let init = s.drop_last();
        lemma_filter_contains_iff(init, p, x);
        assert(s =~= init.push(s.last()));
        init.lemma_filter_push(s.last(), p);
        if s.contains(x) && p(x) {
            let i = choose|i: int| 0 <= i < s.len() && s[i] == x;
            if i < s.len() - 1 {
                assert(init[i] == x);
            } else {
                assert(s.filter(p).last() == x);
            }
        }
        if s.filter(p).contains(x) {
            let i = choose|i: int| 0 <= i < s.filter(p).len() && s.filter(p)[i] == x;
            if p(s.last()) && i == s.filter(p).len() - 1 {
                assert(s[s.len() - 1] == x);
            } else {
                assert(init.filter(p)[i] == x);
                assert(init.contains(x));
                let j = choose|j: int| 0 <= j < init.len() && init[j] == x;
                assert(s[j] == x);
            }
        }
    }
}

/// A type first seen among `pairs` is the type of one of them.
proof fn lemma_first_seen_occurs(pairs: Seq<(Seq<char>, Seq<char>)>, t: Seq<char>)
    requires
        first_seen_types(pairs).contains(t),
    ensures
        exists|k: int| 0 <= k < pairs.len() && #[trigger] pairs[k].0 == t,
    decreases pairs.len(),
{
    let init = pairs.drop_last();
    let r = first_seen_types(init);
    if r.contains(t) {
        lemma_first_seen_occurs(init, t);
        let k = choose|k: int| 0 <= k < init.len() && #[trigger] init[k].0 == t;
        assert(pairs[k].0 == t);
    } else {
        let i = choose|i: int| 0 <= i < first_seen_types(pairs).len() && first_seen_types(pairs)[i] == t;
        assert(first_seen_types(pairs) =~= r.push(pairs.last().0));
        assert(pairs[pairs.len() - 1].0 == t);
    }
}

/// A type that some pair has has at least one description.
proof fn lemma_type_occurs(pairs: Seq<(Seq<char>, Seq<char>)>, t: Seq<char>, k: int)
    requires
        0 <= k < pairs.len(),
        pairs[k].0 == t,
    ensures
        messages_of_type(pairs, t).len() > 0,
{
    pairs.lemma_filter_contains(of_type(t), k);
    assert(pairs.filter(of_type(t)).contains(pairs[k]));
}

/// The changelog reads only the newest `limit` messages: whatever older messages
/// follow them, the changelog is the same.
pub proof fn lemma_changelog_reads_only_newest(newest: Seq<Seq<char>>, older: Seq<Seq<char>>, limit: nat)
    requires
        newest.len() >= limit,
    ensures
        changelog_spec(newest + older, limit) == changelog_spec(newest, limit),
        changelog_spec(newest + older, limit) == changelog_spec(newest.take(limit as int), limit),
{
    assert((newest + older).take(limit as int) =~= newest.take(limit as int));
    if limit == newest.len() {
        assert(newest.take(limit as int) =~= newest);
    }
    if older.len() == 0 && limit == newest.len() {
        assert(newest + older =~= newest);
    }
}

/// A lowercase word with no line feed after it, then `sep` (a colon, or a scope in
/// parentheses and a colon), then a description with no line feed.
proof fn lemma_line_chars(t: Seq<char>, sep: Seq<char>, d: Seq<char>)
    requires
        forall|i: int| 0 <= i < t.len() ==> is_ascii_lower(#[trigger] t[i]),
        forall|i: int| 0 <= i < sep.len() ==> #[trigger] sep[i] != '\n',
        forall|i: int| 0 <= i < d.len() ==> #[trigger] d[i] != '\n',
    ensures
        first_line(t + sep + d) == if (t + sep + d).len() == 0 { None } else { Some(t + sep + d) },
{
    let m = t + sep + d;
    assert forall|j: int| 0 <= j <= m.len() implies !occurs_at(m, seq!['\n'], j) by {
        if occurs_at(m, seq!['\n'], j) {
            assert(m.subrange(j, j + 1)[0] == '\n');
            assert(m[j] == '\n');
            if j < t.len() {
                assert(m[j] == t[j]);
            } else if j < t.len() + sep.len() {
                assert(m[j] == sep[j - t.len()]);
            } else {
                assert(m[j] == d[j - t.len() - sep.len()]);
            }
        }
    }
    lemma_no_occurrence(m, seq!['\n']);
}

/// The type of a conventional commit is read only before the first colon: a lowercase
/// word, a colon and a description (whatever it holds, parentheses and colons
/// included) give that word and the trimmed description.
pub proof fn lemma_conventional_type_before_colon(t: Seq<char>, d: Seq<char>)
    requires
        t.len() > 0,
        forall|i: int| 0 <= i < t.len() ==> is_ascii_lower(#[trigger] t[i]),
        forall|i: int| 0 <= i < d.len() ==> #[trigger] d[i] != '\n',
        trim(d).len() > 0,
    ensures
        conventional_commit(t + seq![':'] + d) == Some((t, trim(d))),
{
    let m = t + seq![':'] + d;
    lemma_line_chars(t, seq![':'], d);
    let k = t.len() as int;
    assert(m.subrange(k, k + 1) =~= seq![':']);
    assert forall|j: int| 0 <= j < k implies !occurs_at(m, seq![':'], j) by {
        if occurs_at(m, seq![':'], j) {
            assert(m.subrange(j, j + 1)[0] == m[j]);
            assert(m[j] == t[j]);
        }
    }
    lemma_first_occurrence_at(m, seq![':'], k);
    assert(m.take(k) =~= t);
    assert forall|j: int| 0 <= j <= t.len() implies !occurs_at(t, seq!['('], j) by {
        if occurs_at(t, seq!['('], j) {
            assert(t.subrange(j, j + 1)[0] == t[j]);
        }
    }
    lemma_no_occurrence(t, seq!['(']);
    assert(m.skip(k + 1) =~= d);
}

/// With a scope: a lowercase word, a scope in parentheses with no colon, a colon and a
/// description give that word and the trimmed description.
pub proof fn lemma_conventional_type_before_scope(t: Seq<char>, scope: Seq<char>, d: Seq<char>)
    requires
        t.len() > 0,
        forall|i: int| 0 <= i < t.len() ==> is_ascii_lower(#[trigger] t[i]),
        forall|i: int| 0 <= i < scope.len() ==> #[trigger] scope[i] != ':' && scope[i] != '\n',
        forall|i: int| 0 <= i < d.len() ==> #[trigger] d[i] != '\n',
        trim(d).len() > 0,
    ensures
        conventional_commit(t + (seq!['('] + scope + seq![')', ':']) + d) == Some((t, trim(d))),
{
    let sep = seq!['('] + scope + seq![')', ':'];
    let m = t + sep + d;
    assert forall|i: int| 0 <= i < sep.len() implies #[trigger] sep[i] != '\n' by {
        if 1 <= i < scope.len() + 1 {
            assert(sep[i] == scope[i - 1]);
        }
    }
    lemma_line_chars(t, sep, d);
    let k = (t.len() + scope.len() + 2) as int;
    assert(m.subrange(k, k + 1) =~= seq![':']);
    assert forall|j: int| 0 <= j < k implies !occurs_at(m, seq![':'], j) by {
        if occurs_at(m, seq![':'], j) {
            assert(m.subrange(j, j + 1)[0] == m[j]);
            if j < t.len() {
                assert(m[j] == t[j]);
            } else if j == t.len() {
                assert(m[j] == '(');
            } else if j < t.len() + 1 + scope.len() {
                assert(m[j] == scope[j - t.len() - 1]);
            } else {
                assert(m[j] == ')');
            }
        }
    }
    lemma_first_occurrence_at(m, seq![':'], k);
    let tp = m.take(k);
    let p = t.len() as int;
    assert(tp.subrange(p, p + 1) =~= seq!['(']);
    assert forall|j: int| 0 <= j < p implies !occurs_at(tp, seq!['('], j) by {
        if occurs_at(tp, seq!['('], j) {
            assert(tp.subrange(j, j + 1)[0] == tp[j]);
            assert(tp[j] == t[j]);
        }
    }
    lemma_first_occurrence_at(tp, seq!['('], p);
    assert(tp.take(p) =~= t);
    assert(m.skip(k + 1) =~= d);
}

/// No group of a changelog is empty: every listed type has at least one description.
pub proof fn lemma_changelog_groups_nonempty(pairs: Seq<(Seq<char>, Seq<char>)>)
    ensures
        forall|i: int| 0 <= i < changelog_of(pairs).len() ==> (#[trigger] changelog_of(pairs)[i]).1.len() > 0,
{
    let present = |t: Seq<char>| messages_of_type(pairs, t).len() > 0;
    let unknown = |t: Seq<char>| !type_order().contains(t);
    let known = type_order().filter(present);
    let others = first_seen_types(pairs).filter(unknown);
    assert forall|i: int| 0 <= i < changelog_of(pairs).len() implies (#[trigger] changelog_of(pairs)[i]).1.len()
        > 0 by {
        let ts = changelog_types(pairs);
        assert(ts =~= known + others);
        let t = ts[i];
        assert(changelog_of(pairs)[i] == (t, messages_of_type(pairs, t)));
        if i < known.len() {
            type_order().lemma_filter_pred(present, i);
            assert(known[i] == t);
        } else {
            let j = i - known.len();
            assert(others[j] == t);
            assert(others.contains(t));
            lemma_filter_contains_iff(first_seen_types(pairs), unknown, t);
            lemma_first_seen_occurs(pairs, t);
            let k = choose|k: int| 0 <= k < pairs.len() && #[trigger] pairs[k].0 == t;
            lemma_type_occurs(pairs, t, k);
        }
    }
}

/// Whether `t` is one of the conventional types of the changelog order.
fn is_known_type(t: &str) -> (b: bool)
    ensures
        b == type_order().contains(t@),
{
    let mut k: usize = 0;
    while k < 8
        invariant
            k <= 8,
            type_order().len() == 8,
            forall|j: int| 0 <= j < k ==> type_order()[j] != t@,
        decreases 8 - k,
    {
        if str_eq(CHANGELOG_TYPE_ORDER[k], t) {
            assert(type_order()[k as int] == t@);
            return true;
        }
        k += 1;
    }
    false
}

/// Whether `v` holds a string equal to `t`.
fn contains_string(v: &Vec<String>, t: &str) -> (b: bool)
    ensures
        b == strings_view(v@).contains(t@),
{
    let mut k: usize = 0;
    while k < v.len()
        invariant
            k <= v.len(),
            forall|j: int| 0 <= j < k ==> strings_view(v@)[j] != t@,
        decreases v.len() - k,
    {
        if str_eq(v[k].as_str(), t) {
            assert(strings_view(v@)[k as int] == t@);
            return true;
        }
        k += 1;
    }
    false
}

/// The descriptions of type `t` among `pairs`, in order.
fn messages_for(pairs: &Vec<(String, String)>, t: &str) -> (r: Vec<String>)
    ensures
        strings_view(r@) == messages_of_type(pairs_view(pairs@), t@),
{
    let ghost pv = pairs_view(pairs@);
    let ghost pred = of_type(t@);
    let mut out: Vec<String> = Vec::new();
    let mut i: usize = 0;
    while i < pairs.len()
        invariant
            i <= pairs.len(),
            pv == pairs_view(pairs@),
            pred == of_type(t@),
            strings_view(out@) == pv.take(i as int).filter(pred).map_values(
                |p: (Seq<char>, Seq<char>)| p.1,
            ),
        decreases pairs.len() - i,
    {
        let ghost prev = out@;
        proof {
            assert(pv.take(i + 1) =~= pv.take(i as int).push(pv[i as int]));
            pv.take(i as int).lemma_filter_push(pv[i as int], pred);
        }
        if str_eq(pairs[i].0.as_str(), t) {
            out.push(pairs[i].1.clone());
            assert(strings_view(out@) =~= strings_view(prev).push(pv[i as int].1));
            assert(pv.take(i as int).filter(pred).push(pv[i as int]).map_values(
                |p: (Seq<char>, Seq<char>)| p.1,
            ) =~= pv.take(i as int).filter(pred).map_values(|p: (Seq<char>, Seq<char>)| p.1).push(
                pv[i as int].1,
            ));
        }
        i += 1;
    }
    assert(pv.take(pairs.len() as int) =~= pv);
    out
}

/// Groups the conventional commits among the first `limit` messages (newest first)
/// by type: the known types in changelog order, then the others in order of first
/// appearance; fails when none of those messages is a conventional commit.
pub fn get_changelog(messages: &Vec<String>, limit: usize) -> (r: Result<Vec<ChangelogEntry>, GitError>)
    ensures
        match r {
            Ok(es) => changelog_spec(strings_view(messages@), limit as nat) == Ok::<
                Seq<(Seq<char>, Seq<Seq<char>>)>,
                GitError,
            >(entries_view(es@)),
            Err(e) => changelog_spec(strings_view(messages@), limit as nat) == Err::<
                Seq<(Seq<char>, Seq<Seq<char>>)>,
                GitError,
            >(e),
        },
{
    let ghost msgs = strings_view(messages@);
    let n = if limit < messages.len() { limit } else { messages.len() };
    let mut pairs: Vec<(String, String)> = Vec::new();
    let mut i: usize = 0;
    while i < n
        invariant
            i <= n <= messages.len(),
            msgs == strings_view(messages@),
            pairs_view(pairs@) == conventional_pairs(msgs.take(i as int)),
        decreases n - i,
    {
        let ghost prev = pairs@;
        assert(msgs.take(i + 1).drop_last() =~= msgs.take(i as int));
        match parse_conventional_commit(messages[i].as_str()) {
            Some(p) => {
                pairs.push(p);
                assert(pairs_view(pairs@) =~= pairs_view(prev).push((p.0@, p.1@)));
            },
            None => {},
        }
        i += 1;
    }
    let ghost pv = pairs_view(pairs@);
    assert(pv == conventional_pairs(if limit < msgs.len() { msgs.take(limit as int) } else { msgs }))
        by {
        if limit >= msgs.len() {
            assert(msgs.take(n as int) =~= msgs);
        }
    }
    if pairs.len() == 0 {
        return Err(GitError::NoConventionalCommits);
    }
    let ghost present = |t: Seq<char>| messages_of_type(pv, t).len() > 0;
    let ghost entry_of = |t: Seq<char>| (t, messages_of_type(pv, t));
    let ghost unknown = |t: Seq<char>| !type_order().contains(t);
    let mut entries: Vec<ChangelogEntry> = Vec::new();
    let mut k: usize = 0;
    while k < 8
        invariant
            k <= 8,
            type_order().len() == 8,
            pv == pairs_view(pairs@),
            present == (|t: Seq<char>| messages_of_type(pv, t).len() > 0),
            entry_of == (|t: Seq<char>| (t, messages_of_type(pv, t))),
            entries_view(entries@) == type_order().take(k as int).filter(present).map_values(entry_of),
        decreases 8 - k,
    {
        let ghost prev = entries@;
        let t = CHANGELOG_TYPE_ORDER[k];
        assert(t@ == type_order()[k as int]);
        proof {
            assert(type_order().take(k + 1) =~= type_order().take(k as int).push(t@));
            type_order().take(k as int).lemma_filter_push(t@, present);
        }
        let msgs_t = messages_for(&pairs, t);
        if msgs_t.len() > 0 {
            let entry = ChangelogEntry { commit_type: owned(t), messages: msgs_t };
            entries.push(entry);
            assert(entries_view(entries@) =~= entries_view(prev).push(entry_of(t@)));
            assert(type_order().take(k as int).filter(present).push(t@).map_values(entry_of)
                =~= type_order().take(k as int).filter(present).map_values(entry_of).push(entry_of(t@)));
        }
        k += 1;
    }
    assert(type_order().take(8) =~= type_order());
    let ghost known_part = entries_view(entries@);
    let mut others: Vec<String> = Vec::new();
    let mut j: usize = 0;
    while j < pairs.len()
        invariant
            j <= pairs.len(),
            pv == pairs_view(pairs@),
            entry_of == (|t: Seq<char>| (t, messages_of_type(pv, t))),
            unknown == (|t: Seq<char>| !type_order().contains(t)),
            strings_view(others@) == first_seen_types(pv.take(j as int)).filter(unknown),
            entries_view(entries@) == known_part + strings_view(others@).map_values(entry_of),
        decreases pairs.len() - j,
    {
        let ghost fs = first_seen_types(pv.take(j as int));
        let ghost prev_others = others@;
        let ghost prev_entries = entries@;
        let t = pairs[j].0.as_str();
        assert(t@ == pv[j as int].0);
        assert(pv.take(j + 1).drop_last() =~= pv.take(j as int));
        assert(pv.take(j + 1).last() == pv[j as int]);
        proof {
            fs.lemma_filter_push(t@, unknown);
            lemma_filter_contains_iff(fs, unknown, t@);
        }
        if !is_known_type(t) && !contains_string(&others, t) {
            let msgs_t = messages_for(&pairs, t);
            let name = owned(t);
            others.push(name);
            let entry = ChangelogEntry { commit_type: owned(t), messages: msgs_t };
            entries.push(entry);
            assert(strings_view(others@) =~= strings_view(prev_others).push(t@));
            assert(entries_view(entries@) =~= entries_view(prev_entries).push(entry_of(t@)));
            assert(strings_view(prev_others).push(t@).map_values(entry_of) =~= strings_view(
                prev_others,
            ).map_values(entry_of).push(entry_of(t@)));
        }
        j += 1;
    }
    assert(pv.take(pairs.len() as int) =~= pv);
    assert(changelog_types(pv).map_values(entry_of) =~= type_order().filter(present).map_values(
        entry_of,
    ) + first_seen_types(pv).filter(unknown).map_values(entry_of));
    Ok(entries)
}

/// How many times `x` occurs in `s`.
pub open spec fn occurrences(s: Seq<Seq<char>>, x: Seq<char>) -> nat
    decreases s.len(),
{
    if s.len() == 0 {
        0
    } else {
        occurrences(s.drop_last(), x) + if s.last() == x { 1nat } else { 0nat }
    }
}

/// The views of (name, count) pairs.
pub open spec fn tally_view(v: Seq<(String, u64)>) -> Seq<(Seq<char>, u64)> {
    v.map_values(|p: (String, u64)| (p.0@, p.1))
}

/// `t` tallies `authors`: one entry per distinct author, with the number of times
/// the author occurs.
pub open spec fn is_tally_of(t: Seq<(Seq<char>, u64)>, authors: Seq<Seq<char>>) -> bool {
    &&& forall|i: int, j: int| 0 <= i < j < t.len() ==> t[i].0 != t[j].0
    &&& forall|i: int| 0 <= i < t.len() ==> t[i].1 == occurrences(authors, #[trigger] t[i].0)
    &&& forall|x: Seq<char>| authors.contains(x) <==> exists|i: int| 0 <= i < t.len() && #[trigger] t[i].0 == x
}

/// The sum of the counts of a tally.
pub open spec fn total_count(t: Seq<(Seq<char>, u64)>) -> nat
    decreases t.len(),
{
    if t.len() == 0 {
        0
    } else {
        total_count(t.drop_last()) + t.last().1 as nat
    }
}

/// The names of a tally.
pub open spec fn tally_names(t: Seq<(Seq<char>, u64)>) -> Seq<Seq<char>> {
    t.map_values(|e: (Seq<char>, u64)| e.0)
}

/// The occurrences in `authors` of each of `names`, added up.
spec fn occurrences_of_all(authors: Seq<Seq<char>>, names: Seq<Seq<char>>) -> nat
    decreases names.len(),
{
    if names.len() == 0 {
        0
    } else {
        occurrences_of_all(authors, names.drop_last()) + occurrences(authors, names.last())
    }
}

/// How many of `names` equal `y`.
spec fn hits(y: Seq<char>, names: Seq<Seq<char>>) -> nat
    decreases names.len(),
{
    if names.len() == 0 {
        0
    } else {
        hits(y, names.drop_last()) + if names.last() == y { 1nat } else { 0nat }
    }
}

proof fn lemma_hits_distinct(y: Seq<char>, names: Seq<Seq<char>>)
    requires
        forall|i: int, j: int| 0 <= i < j < names.len() ==> names[i] != names[j],
    ensures
        hits(y, names) == if names.contains(y) { 1nat } else { 0nat },
    decreases names.len(),
{
    if names.len() > 0 {
        let init = names.drop_last();
        lemma_hits_distinct(y, init);
        if init.contains(y) {
            let k = choose|k: int| 0 <= k < init.len() && init[k] == y;
            assert(names[k] == y);
            assert(names.contains(y));
            assert(names.last() != y) by {
                assert(names[k] != names[names.len() - 1]);
            }
        } else if names.last() == y {
            assert(names[names.len() - 1] == y);
        } else {
            assert(!names.contains(y)) by {
                if names.contains(y) {
                    let k = choose|k: int| 0 <= k < names.len() && names[k] == y;
                    assert(init[k] == y);
                }
            }
        }
    }
}

/// Dropping the last author takes one away from the names that equal it.
proof fn lemma_occurrences_of_all_step(authors: Seq<Seq<char>>, names: Seq<Seq<char>>)
    requires
        authors.len() > 0,
    ensures
        occurrences_of_all(authors, names) == occurrences_of_all(authors.drop_last(), names) + hits(
            authors.last(),
            names,
        ),
    decreases names.len(),
{
    if names.len() > 0 {
        lemma_occurrences_of_all_step(authors, names.drop_last());
    }
}

/// Every author is among `names`, each name once: the occurrences add up to the
/// number of authors.
proof fn lemma_occurrences_of_all_cover(authors: Seq<Seq<char>>, names: Seq<Seq<char>>)
    requires
        forall|i: int, j: int| 0 <= i < j < names.len() ==> names[i] != names[j],
        forall|k: int| 0 <= k < authors.len() ==> names.contains(#[trigger] authors[k]),
    ensures
        occurrences_of_all(authors, names) == authors.len(),
    decreases authors.len(),
{
    if authors.len() == 0 {
        assert(occurrences_of_all(authors, names) == 0) by {
            lemma_no_authors(authors, names);
        }
    } else {
        let init = authors.drop_last();
        assert forall|k: int| 0 <= k < init.len() implies names.contains(#[trigger] init[k]) by {
            assert(init[k] == authors[k]);
        }
        lemma_occurrences_of_all_cover(init, names);
        lemma_occurrences_of_all_step(authors, names);
        assert(names.contains(authors[authors.len() - 1]));
        lemma_hits_distinct(authors.last(), names);
    }
}

proof fn lemma_no_authors(authors: Seq<Seq<char>>, names: Seq<Seq<char>>)
    requires
        authors.len() == 0,
    ensures
        occurrences_of_all(authors, names) == 0,
    decreases names.len(),
{
    if names.len() > 0 {
        lemma_no_authors(authors, names.drop_last());
    }
}

proof fn lemma_total_is_occurrences(t: Seq<(Seq<char>, u64)>, authors: Seq<Seq<char>>)
    requires
        forall|i: int| 0 <= i < t.len() ==> t[i].1 == occurrences(authors, #[trigger] t[i].0),
    ensures
        total_count(t) == occurrences_of_all(authors, tally_names(t)),
    decreases t.len(),
{
    if t.len() > 0 {
        let init = t.drop_last();
        assert forall|i: int| 0 <= i < init.len() implies init[i].1 == occurrences(authors, #[trigger] init[i].0) by {
            assert(init[i] == t[i]);
        }
        lemma_total_is_occurrences(init, authors);
        assert(tally_names(t).drop_last() =~= tally_names(init));
        assert(t[t.len() - 1].1 == occurrences(authors, t[t.len() - 1].0));
    }
}

/// The counts of a tally of commit authors add up to the number of commits.
pub proof fn lemma_tally_counts_every_commit(t: Seq<(Seq<char>, u64)>, authors: Seq<Seq<char>>)
    requires
        is_tally_of(t, authors),
    ensures
        total_count(t) == authors.len(),
{
    let names = tally_names(t);
    lemma_total_is_occurrences(t, authors);
    assert forall|i: int, j: int| 0 <= i < j < names.len() implies names[i] != names[j] by {
        assert(names[i] == t[i].0 && names[j] == t[j].0);
    }
    assert forall|k: int| 0 <= k < authors.len() implies names.contains(#[trigger] authors[k]) by {
        assert(authors.contains(authors[k]));
        let i = choose|i: int| 0 <= i < t.len() && #[trigger] t[i].0 == authors[k];
        assert(names[i] == authors[k]);
    }
    lemma_occurrences_of_all_cover(authors, names);
}

/// Most commits first.
pub open spec fn sorted_by_count(t: Seq<(Seq<char>, u64)>) -> bool {
    forall|i: int, j: int| 0 <= i < j < t.len() ==> t[i].1 >= t[j].1
}

proof fn lemma_occurrences_contains(s: Seq<Seq<char>>, x: Seq<char>)
    requires
        occurrences(s, x) > 0,
    ensures
        s.contains(x),
    decreases s.len(),
{
    if s.last() == x {
        assert(s[s.len() - 1] == x);
    } else {
        lemma_occurrences_contains(s.drop_last(), x);
        let w = choose|w: int| 0 <= w < s.drop_last().len() && s.drop_last()[w] == x;
        assert(s[w] == x);
    }
}

/// The index of the first string of `v` equal to `a`.
fn position_of(v: &Vec<String>, a: &str) -> (r: Option<usize>)
    ensures
        match r {
            Some(p) => p < v.len() && v@[p as int]@ == a@,
            None => forall|q: int| 0 <= q < v.len() ==> v@[q]@ != a@,
        },
{
    let mut p: usize = 0;
    while p < v.len()
        invariant
            p <= v.len(),
            forall|q: int| 0 <= q < p ==> v@[q]@ != a@,
        decreases v.len() - p,
    {
        if str_eq(v[p].as_str(), a) {
            return Some(p);
        }
        p += 1;
    }
    None
}

/// Inserts `entry` after every entry with at least as many commits, keeping the order.
fn insert_by_count(out: &mut Vec<(String, u64)>, entry: (String, u64)) -> (pos: usize)
    requires
        sorted_by_count(tally_view(old(out)@)),
    ensures
        pos <= old(out)@.len(),
        final(out)@ == old(out)@.insert(pos as int, entry),
        sorted_by_count(tally_view(final(out)@)),
{
    let c = entry.1;
    let mut pos: usize = 0;
    while pos < out.len() && out[pos].1 >= c
        invariant
            pos <= out.len(),
            forall|m: int| 0 <= m < pos ==> out@[m].1 >= c,
        decreases out.len() - pos,
    {
        pos += 1;
    }
    let ghost old_out = out@;
    assert forall|m: int| pos <= m < old_out.len() implies old_out[m].1 < c by {
        assert(tally_view(old_out)[pos as int].1 >= tally_view(old_out)[m].1);
    }
    out.insert(pos, entry);
    assert forall|m1: int, m2: int| 0 <= m1 < m2 < out.len() implies tally_view(out@)[m1].1 >= tally_view(
        out@,
    )[m2].1 by {
        if m1 < pos && m2 > pos {
            assert(tally_view(old_out)[m1].1 >= tally_view(old_out)[m2 - 1].1);
        } else if m1 > pos {
            assert(tally_view(old_out)[m1 - 1].1 >= tally_view(old_out)[m2 - 1].1);
        } else if m2 < pos {
            assert(tally_view(old_out)[m1].1 >= tally_view(old_out)[m2].1);
        }
    }
    pos
}

/// Counts each author's occurrences, authors in order of first appearance.
fn count_authors(authors: &Vec<String>) -> (r: (Vec<String>, Vec<u64>))
    ensures
        r.0.len() == r.1.len(),
        forall|p: int, q: int| 0 <= p < q < r.0.len() ==> r.0@[p]@ != r.0@[q]@,
        forall|p: int| 0 <= p < r.0.len() ==> r.1@[p] == occurrences(strings_view(authors@), #[trigger] r.0@[p]@),
        forall|x: Seq<char>| strings_view(authors@).contains(x) <==> exists|p: int| 0 <= p < r.0.len() && #[trigger] r.0@[p]@ == x,
{
    let ghost av = strings_view(authors@);
    let mut names: Vec<String> = Vec::new();
    let mut counts: Vec<u64> = Vec::new();
    let mut i: usize = 0;
    while i < authors.len()
        invariant
            i <= authors.len(),
            av == strings_view(authors@),
            names.len() == counts.len(),
            forall|p: int, q: int| 0 <= p < q < names.len() ==> names@[p]@ != names@[q]@,
            forall|p: int| 0 <= p < names.len() ==> counts@[p] == occurrences(av.take(i as int), #[trigger] names@[p]@),
            forall|p: int| 0 <= p < names.len() ==> #[trigger] counts@[p] <= i,
            forall|x: Seq<char>| av.take(i as int).contains(x) <==> exists|p: int| 0 <= p < names.len() && #[trigger] names@[p]@ == x,
        decreases authors.len() - i,
    {
        let a = authors[i].as_str();
        let ghost before = av.take(i as int);
        assert(av.take(i + 1) =~= before.push(a@));
        assert(before.push(a@).drop_last() =~= before);
        proof {
            assert forall|x: Seq<char>| before.push(a@).contains(x) <==> (before.contains(x) || x == a@) by {
                if before.push(a@).contains(x) {
                    let w = choose|w: int| 0 <= w < before.push(a@).len() && before.push(a@)[w] == x;
                    if w < before.len() {
                        assert(before[w] == x);
                    }
                }
                if before.contains(x) {
                    let w = choose|w: int| 0 <= w < before.len() && before[w] == x;
                    assert(before.push(a@)[w] == x);
                }
                if x == a@ {
                    assert(before.push(a@)[before.len() as int] == x);
                }
            }
        }
        let ghost old_names = names@;
        let ghost old_counts = counts@;
        match position_of(&names, a) {
            Some(p) => {
                let c = counts[p];
                counts.set(p, c + 1);
                assert forall|q: int| 0 <= q < names.len() implies counts@[q] == occurrences(
                    before.push(a@),
                    #[trigger] names@[q]@,
                ) by {
                    assert(occurrences(before, names@[q]@) == old_counts[q]);
                    if q != p {
                        assert(names@[q]@ != a@);
                    }
                }
                assert forall|x: Seq<char>| (exists|q: int| 0 <= q < names.len() && #[trigger] names@[q]@ == x) implies before.push(a@).contains(x) by {
                    let q = choose|q: int| 0 <= q < names.len() && #[trigger] names@[q]@ == x;
                    assert(names@[q] == old_names[q]);
                    assert(exists|p: int| 0 <= p < old_names.len() && #[trigger] old_names[p]@ == x);
                    assert(before.contains(x));
                }
                assert forall|x: Seq<char>| before.push(a@).contains(x) implies exists|q: int|
                    0 <= q < names.len() && #[trigger] names@[q]@ == x by {
                    if x == a@ {
                        assert(names@[p as int]@ == x);
                    } else {
                        assert(before.contains(x));
                        assert(exists|q: int| 0 <= q < old_names.len() && #[trigger] old_names[q]@ == x);
                    }
                }
            },
            None => {
                names.push(owned(a));
                counts.push(1);
                assert(!before.contains(a@));
                assert forall|q: int| 0 <= q < names.len() implies counts@[q] == occurrences(
                    before.push(a@),
                    #[trigger] names@[q]@,
                ) by {
                    if q < old_names.len() {
                        assert(names@[q] == old_names[q]);
                        assert(occurrences(before, names@[q]@) == old_counts[q]);
                    } else {
                        assert(occurrences(before, a@) == 0) by {
                            if occurrences(before, a@) != 0 {
                                lemma_occurrences_contains(before, a@);
                            }
                        }
                    }
                }
                assert forall|x: Seq<char>| before.push(a@).contains(x) implies exists|q: int|
                    0 <= q < names.len() && #[trigger] names@[q]@ == x by {
                    if x == a@ {
                        assert(names@[old_names.len() as int]@ == x);
                    } else {
                        assert(before.contains(x));
                        assert(exists|q: int| 0 <= q < old_names.len() && #[trigger] old_names[q]@ == x);
                        let q = choose|q: int| 0 <= q < old_names.len() && #[trigger] old_names[q]@ == x;
                        assert(names@[q] == old_names[q]);
                    }
                }
                assert forall|x: Seq<char>| (exists|q: int| 0 <= q < names.len() && #[trigger] names@[q]@ == x) implies before.push(a@).contains(x) by {
                    let q = choose|q: int| 0 <= q < names.len() && #[trigger] names@[q]@ == x;
                    if q < old_names.len() {
                        assert(names@[q] == old_names[q]);
                        assert(exists|p: int| 0 <= p < old_names.len() && #[trigger] old_names[p]@ == x);
                        assert(before.contains(x));
                    } else {
                        assert(x == a@);
                    }
                }
            },
        }
        i += 1;
    }
    assert(av.take(authors.len() as int) =~= av);
    (names, counts)
}

/// Inserting the `k`-th tally entry keeps the output a distinct, complete image of the
/// first `k + 1` entries.
#[verifier::rlimit(60)]
proof fn lemma_insert_step(
    nv: Seq<Seq<char>>,
    cv: Seq<u64>,
    old_out: Seq<(Seq<char>, u64)>,
    out: Seq<(Seq<char>, u64)>,
    pos: int,
    k: int,
)
    requires
        0 <= k < nv.len() == cv.len(),
        0 <= pos <= old_out.len(),
        out == old_out.insert(pos, (nv[k], cv[k])),
        forall|p: int, q: int| 0 <= p < q < nv.len() ==> nv[p] != nv[q],
        image_of_prefix(old_out, nv, cv, k),
    ensures
        image_of_prefix(out, nv, cv, k + 1),
{
    assert forall|m: int| 0 <= m < old_out.len() implies old_out[m].0 != nv[k] by {
        assert(in_prefix(nv, cv, k, old_out[m]));
        let q = choose|q: int| 0 <= q < k && nv[q] == old_out[m].0 && cv[q] == old_out[m].1;
    }
    assert forall|m: int| 0 <= m < out.len() implies #[trigger] in_prefix(nv, cv, k + 1, out[m]) by {
        if m < pos {
            assert(out[m] == old_out[m]);
            assert(in_prefix(nv, cv, k, old_out[m]));
        } else if m == pos {
            assert(out[m] == (nv[k], cv[k]));
        } else {
            assert(out[m] == old_out[m - 1]);
            assert(in_prefix(nv, cv, k, old_out[m - 1]));
        }
    }
    assert forall|q: int| 0 <= q < k + 1 implies #[trigger] in_output(out, nv[q], cv[q]) by {
        if q == k {
            assert(out[pos] == (nv[q], cv[q]));
        } else {
            assert(in_output(old_out, nv[q], cv[q]));
            let m = choose|m: int| 0 <= m < old_out.len() && old_out[m] == (nv[q], cv[q]);
            if m < pos {
                assert(out[m] == old_out[m]);
            } else {
                assert(out[m + 1] == old_out[m]);
            }
        }
    }
    assert forall|m1: int, m2: int| 0 <= m1 < m2 < out.len() implies out[m1].0 != out[m2].0 by {
        if m1 < pos && m2 > pos {
            assert(out[m2] == old_out[m2 - 1]);
            assert(out[m1] == old_out[m1]);
        } else if m1 > pos {
            assert(out[m1] == old_out[m1 - 1]);
            assert(out[m2] == old_out[m2 - 1]);
        } else if m1 == pos {
            assert(out[m2] == old_out[m2 - 1]);
        } else if m2 == pos {
            assert(out[m1] == old_out[m1]);
        } else {
            assert(out[m1] == old_out[m1]);
            assert(out[m2] == old_out[m2]);
        }
    }
}

/// `e` is one of the first `k` tally entries.
pub open spec fn in_prefix(nv: Seq<Seq<char>>, cv: Seq<u64>, k: int, e: (Seq<char>, u64)) -> bool {
    exists|q: int| 0 <= q < k && nv[q] == e.0 && cv[q] == e.1
}

/// `(name, count)` is an entry of `out`.
pub open spec fn in_output(out: Seq<(Seq<char>, u64)>, name: Seq<char>, count: u64) -> bool {
    exists|m: int| 0 <= m < out.len() && out[m] == (name, count)
}

/// `out` holds exactly the first `k` tally entries, each once.
pub open spec fn image_of_prefix(out: Seq<(Seq<char>, u64)>, nv: Seq<Seq<char>>, cv: Seq<u64>, k: int) -> bool {
    &&& out.len() == k
    &&& forall|m1: int, m2: int| 0 <= m1 < m2 < out.len() ==> out[m1].0 != out[m2].0
    &&& forall|m: int| 0 <= m < out.len() ==> #[trigger] in_prefix(nv, cv, k, out[m])
    &&& forall|q: int| 0 <= q < k ==> #[trigger] in_output(out, nv[q], cv[q])
}

/// Counts how many commits each author made, most commits first (authors with
/// equally many commits in no promised order).
pub fn tally_contributors(authors: &Vec<String>) -> (r: Vec<(String, u64)>)
    ensures
        is_tally_of(tally_view(r@), strings_view(authors@)),
        sorted_by_count(tally_view(r@)),
{
    let ghost av = strings_view(authors@);
    let (names, counts) = count_authors(authors);
    let ghost nv = strings_view(names@);
    let ghost cv = counts@;
    let mut out: Vec<(String, u64)> = Vec::new();
    let mut k: usize = 0;
    while k < names.len()
        invariant
            k <= names.len() == counts.len(),
            nv == strings_view(names@),
            cv == counts@,
            forall|p: int, q: int| 0 <= p < q < nv.len() ==> nv[p] != nv[q],
            sorted_by_count(tally_view(out@)),
            image_of_prefix(tally_view(out@), nv, cv, k as int),
        decreases names.len() - k,
    {
        let ghost old_out = tally_view(out@);
        let entry = (names[k].clone(), counts[k]);
        let pos = insert_by_count(&mut out, entry);
        assert(tally_view(out@) =~= old_out.insert(pos as int, (nv[k as int], cv[k as int])));
        proof {
            lemma_insert_step(nv, cv, old_out, tally_view(out@), pos as int, k as int);
        }
        k += 1;
    }
    let ghost tv = tally_view(out@);
    assert forall|m: int| 0 <= m < tv.len() implies tv[m].1 == occurrences(av, #[trigger] tv[m].0) by {
        assert(in_prefix(nv, cv, nv.len() as int, tv[m]));
        let q = choose|q: int| 0 <= q < nv.len() && nv[q] == tv[m].0 && cv[q] == tv[m].1;
        assert(names@[q]@ == nv[q]);
    }
    assert forall|x: Seq<char>| av.contains(x) <==> exists|m: int| 0 <= m < tv.len() && #[trigger] tv[m].0 == x by {
        if av.contains(x) {
            let q = choose|q: int| 0 <= q < names.len() && #[trigger] names@[q]@ == x;
            assert(nv[q] == x);
            assert(in_output(tv, nv[q], cv[q]));
            let m = choose|m: int| 0 <= m < tv.len() && tv[m] == (nv[q], cv[q]);
            assert(tv[m].0 == x);
        }
        if exists|m: int| 0 <= m < tv.len() && #[trigger] tv[m].0 == x {
            let m = choose|m: int| 0 <= m < tv.len() && #[trigger] tv[m].0 == x;
            assert(in_prefix(nv, cv, nv.len() as int, tv[m]));
            let q = choose|q: int| 0 <= q < nv.len() && nv[q] == tv[m].0 && cv[q] == tv[m].1;
            assert(names@[q]@ == x);
        }
    }
    out
}

/// The names of the branches that can be cleaned, in the order given.
pub fn merged_branch_names(head_name: &str, branches: &Vec<BranchInfo>) -> (r: Vec<String>)
    ensures
        strings_view(r@) == cleaned_names(branches@, head_name@),
{
    let ghost keep = cleanable_under(head_name@);
    let mut out: Vec<String> = Vec::new();
    let mut i: usize = 0;
    while i < branches.len()
        invariant
            i <= branches.len(),
            keep == cleanable_under(head_name@),
            strings_view(out@) == branches@.take(i as int).filter(keep).map_values(|b: BranchInfo| b.name@),
        decreases branches.len() - i,
    {
        let b = &branches[i];
        let ghost prev = out@;
        proof {
            assert(branches@.take(i + 1) =~= branches@.take(i as int).push(*b));
            branches@.take(i as int).lemma_filter_push(*b, keep);
        }
        let name = b.name.as_str();
        let upstream_ok = match b.upstream_is_head {
            Some(u) => u,
            None => true,
        };
        if !str_eq(name, "main") && !str_eq(name, "master") && !str_eq(name, "develop") && !str_eq(
            name,
            head_name,
        ) && !b.is_head && upstream_ok && b.merged {
            out.push(owned(name));
            assert(strings_view(out@) =~= strings_view(prev).push(b.name@));
            assert(branches@.take(i as int).filter(keep).push(*b).map_values(|b: BranchInfo| b.name@)
                =~= branches@.take(i as int).filter(keep).map_values(|b: BranchInfo| b.name@).push(b.name@));
        }
        i += 1;
    }
    assert(branches@.take(branches.len() as int) =~= branches@);
    out
}

/// The readable heading of a commit type.
pub fn format_type_label(commit_type: &str) -> (r: String)
    ensures
        r@ == type_label(commit_type@),
{
    if str_eq(commit_type, "feat") {
        owned("Features")
    } else if str_eq(commit_type, "fix") {
        owned("Bug Fixes")
    } else if str_eq(commit_type, "refactor") {
        owned("Refactoring")
    } else if str_eq(commit_type, "docs") {
        owned("Documentation")
    } else if str_eq(commit_type, "test") {
        owned("Tests")
    } else if str_eq(commit_type, "chore") {
        owned("Chores")
    } else if str_eq(commit_type, "style") {
        owned("Style")
    } else if str_eq(commit_type, "perf") {
        owned("Performance")
    } else {
        owned(commit_type)
    }
}

/// The emoji of a commit type.
pub fn get_type_emoji(commit_type: &str) -> (r: &'static str)
    ensures
        r@ == type_emoji(commit_type@),
{
    if str_eq(commit_type, "feat") {
        "✨"
    } else if str_eq(commit_type, "fix") {
        "🐛"
    } else if str_eq(commit_type, "refactor") {
        "♻️"
    } else if str_eq(commit_type, "docs") {
        "📚"
    } else if str_eq(commit_type, "test") {
        "🧪"
    } else if str_eq(commit_type, "chore") {
        "🔧"
    } else if str_eq(commit_type, "style") {
        "💄"
    } else if str_eq(commit_type, "perf") {
        "⚡"
    } else {
        "📌"
    }
}

} // verus!
