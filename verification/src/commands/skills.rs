//! skills.sh integration: reading the skills leaderboard out of the site's HTML,
//! filtering it, finding a skill's install command and building the arguments of
//! `npx skills add`. Fetching pages and running the installer are the caller's part.
use vstd::prelude::*;
use crate::error::SkillsError;
use crate::text::{
    chars_of, concat2, contains_exec, find_seq, first_occurrence, lemma_first_occurrence,
    occurs_at, owned, slice_chars, split_by, split_chars, split_str, split_words, starts_with,
    starts_with_exec, str_eq, string_of, string_of_range, to_lowercase, trim, trim_bounds,
    contains_seq, unicode_lowercase, words, Separator,
};

verus! {

/// A skill of the skills.sh leaderboard.
#[derive(Debug, Clone)]
pub struct Skill {
    /// Position in the leaderboard, from 1.
    pub rank: usize,
    /// Skill name (e.g. "find-skills").
    pub name: String,
    /// Author or organisation (e.g. "vercel-labs").
    pub author: String,
    /// Path used to install it (e.g. "vercel-labs/skills/find-skills").
    pub install_path: String,
    /// Reported number of installs.
    pub installs: String,
}

impl View for Skill {
    type V = (usize, Seq<char>, Seq<char>, Seq<char>, Seq<char>);

    open spec fn view(&self) -> (usize, Seq<char>, Seq<char>, Seq<char>, Seq<char>) {
        (self.rank, self.name@, self.author@, self.install_path@, self.installs@)
    }
}

impl Skill {
    /// A copy of the skill.
    pub fn duplicate(&self) -> (r: Skill)
        ensures
            r@ == self@,
    {
        Skill {
            rank: self.rank,
            name: self.name.clone(),
            author: self.author.clone(),
            install_path: self.install_path.clone(),
            installs: self.installs.clone(),
        }
    }
}

/// Base URL of the site.
pub const SKILLS_BASE_URL: &'static str = "https://skills.sh";

/// Site paths that are navigation, not skills.
pub const NAV_PATHS: [&'static str; 5] = ["/docs", "/audits", "/trending", "/hot", "/faq"];

/// The CSS selector of the leaderboard's links.
pub const LINK_SELECTOR: &'static str = "a[href]";

/// The CSS selector of the elements that may show an install command.
pub const COMMAND_SELECTOR: &'static str = "p, code, pre";

/// The text that starts an install command.
pub const INSTALL_PREFIX: &'static str = "npx skills add";

// ───────────────────────────── Trusted scraping ─────────────────────────────

/// What `scraper` gives for an HTML document, a CSS selector and an attribute name:
/// the attribute's value on each selected element, in the order in which `select`
/// walks the parsed tree, or the selector's parse error.
pub uninterp spec fn html_attribute_values(html: Seq<char>, selector: Seq<char>, attr: Seq<char>) -> Result<
    Seq<Option<Seq<char>>>,
    Seq<char>,
>;

/// What `scraper` gives for an HTML document and a CSS selector: the text content of
/// each selected element, in the order in which `select` walks the parsed tree, or
/// the selector's parse error.
pub uninterp spec fn html_element_texts(html: Seq<char>, selector: Seq<char>) -> Result<
    Seq<Seq<char>>,
    Seq<char>,
>;

pub open spec fn opt_strings_view(v: Seq<Option<String>>) -> Seq<Option<Seq<char>>> {
    v.map_values(
        |o: Option<String>|
            match o {
                Some(s) => Some(s@),
                None => None,
            },
    )
}

pub open spec fn strings_view(v: Seq<String>) -> Seq<Seq<char>> {
    v.map_values(|s: String| s@)
}

/// Parses `html` with `scraper::Html::parse_document`, parses `selector` with
/// `scraper::Selector::parse`, and reads `attr` on every selected element, in the
/// order of `Html::select` (`ElementRef::value().attr`). The result is named, not
/// spelled out: it is a function of the three arguments; a selector that does not
/// parse gives its error's debug text. The link selector `a[href]` (a type selector
/// with an attribute-presence selector) parses.
#[verifier::external_body]
fn select_attribute(html: &str, selector: &str, attr: &str) -> (r: Result<Vec<Option<String>>, String>)
    ensures
        selector@ == LINK_SELECTOR@ ==> r is Ok,
        match r {
            Ok(v) => html_attribute_values(html@, selector@, attr@) == Ok::<
                Seq<Option<Seq<char>>>,
                Seq<char>,
            >(opt_strings_view(v@)),
            Err(e) => html_attribute_values(html@, selector@, attr@) == Err::<
                Seq<Option<Seq<char>>>,
                Seq<char>,
            >(e@),
        },
{
    let document = scraper::Html::parse_document(html);
    match scraper::Selector::parse(selector) {
        Ok(sel) => Ok(document.select(&sel).map(|e| e.value().attr(attr).map(|a| a.to_string())).collect()),
        Err(e) => Err(format!("{e:?}")),
    }
}

/// Parses `html` with `scraper::Html::parse_document`, parses `selector` with
/// `scraper::Selector::parse`, and collects the text of every selected element, in
/// the order of `Html::select` (`ElementRef::text`). The result is named, not spelled
/// out: it is a function of the two arguments; a selector that does not parse gives
/// its error's debug text. The selector `p, code, pre` (a list of type selectors)
/// parses.
#[verifier::external_body]
fn select_text(html: &str, selector: &str) -> (r: Result<Vec<String>, String>)
    ensures
        selector@ == COMMAND_SELECTOR@ ==> r is Ok,
        match r {
            Ok(v) => html_element_texts(html@, selector@) == Ok::<Seq<Seq<char>>, Seq<char>>(
                strings_view(v@),
            ),
            Err(e) => html_element_texts(html@, selector@) == Err::<Seq<Seq<char>>, Seq<char>>(e@),
        },
{
    let document = scraper::Html::parse_document(html);
    match scraper::Selector::parse(selector) {
        Ok(sel) => Ok(document.select(&sel).map(|e| e.text().collect::<String>()).collect()),
        Err(e) => Err(format!("{e:?}")),
    }
}

// ───────────────────────────── Models ─────────────────────────────

pub open spec fn nav_paths() -> Seq<Seq<char>> {
    NAV_PATHS@.map_values(|p: &str| p@)
}

/// `s` without its leading `c` characters.
pub open spec fn trim_leading(s: Seq<char>, c: char) -> Seq<char>
    decreases s.len(),
{
    if s.len() > 0 && s[0] == c {
        trim_leading(s.drop_first(), c)
    } else {
        s
    }
}

/// The (author, skill name, install path) a leaderboard link stands for: a site-relative
/// link `/author/repo/.../skill` with at least three segments that is not navigation.
pub open spec fn skill_link(href: Seq<char>) -> Option<(Seq<char>, Seq<char>, Seq<char>)> {
    if starts_with(href, "/"@) && !starts_with(href, "http"@) {
        let path = trim_leading(href, '/');
        let parts = split_by(path, Separator::Char('/'));
        if parts.len() >= 3 && !nav_paths().contains(href) {
            Some((parts[0], parts.last(), path))
        } else {
            None
        }
    } else {
        None
    }
}

/// The key under which a skill is listed once: `author:name`.
pub open spec fn skill_key(author: Seq<char>, name: Seq<char>) -> Seq<char> {
    author + ":"@ + name
}

/// The leaderboard read from the links' `href` values, in the order given: each skill
/// link whose key was not seen before, ranked from 1, installs unknown ("N/A").
pub open spec fn leaderboard(hrefs: Seq<Option<Seq<char>>>) -> Seq<
    (usize, Seq<char>, Seq<char>, Seq<char>, Seq<char>),
>
    decreases hrefs.len(),
{
    if hrefs.len() == 0 {
        Seq::empty()
    } else {
        let prev = leaderboard(hrefs.drop_last());
        match hrefs.last() {
            Some(h) => match skill_link(h) {
                Some(e) => if exists|i: int|
                    0 <= i < prev.len() && skill_key(prev[i].2, prev[i].1) == skill_key(e.0, e.1) {
                    prev
                } else {
                    prev.push(((prev.len() + 1) as usize, e.1, e.0, e.2, "N/A"@))
                },
                None => prev,
            },
            None => prev,
        }
    }
}

pub open spec fn skills_view(v: Seq<Skill>) -> Seq<(usize, Seq<char>, Seq<char>, Seq<char>, Seq<char>)> {
    v.map_values(|s: Skill| s@)
}

/// The leaderboard of `hrefs`, or the message of the parse error when it is empty.
pub open spec fn hrefs_skills(hrefs: Seq<Option<Seq<char>>>) -> Result<
    Seq<(usize, Seq<char>, Seq<char>, Seq<char>, Seq<char>)>,
    Seq<char>,
> {
    let sk = leaderboard(hrefs);
    if sk.len() == 0 {
        Err("No se encontraron skills en el HTML"@)
    } else {
        Ok(sk)
    }
}

/// The leaderboard of a page, or the message of the parse error.
pub open spec fn page_skills(html: Seq<char>) -> Result<
    Seq<(usize, Seq<char>, Seq<char>, Seq<char>, Seq<char>)>,
    Seq<char>,
> {
    match html_attribute_values(html, LINK_SELECTOR@, "href"@) {
        Err(e) => Err("Selector inválido: "@ + e),
        Ok(hrefs) => hrefs_skills(hrefs),
    }
}

/// Case-insensitive match of a query against a skill's name or author.
pub open spec fn matches_query(s: (usize, Seq<char>, Seq<char>, Seq<char>, Seq<char>), q: Seq<char>) -> bool {
    contains_seq(unicode_lowercase(s.1), unicode_lowercase(q)) || contains_seq(
        unicode_lowercase(s.2),
        unicode_lowercase(q),
    )
}

/// The filter of a search for `q`.
pub open spec fn matching(q: Seq<char>) -> spec_fn((usize, Seq<char>, Seq<char>, Seq<char>, Seq<char>)) -> bool {
    |s: (usize, Seq<char>, Seq<char>, Seq<char>, Seq<char>)| matches_query(s, q)
}

/// `r` is the skills result that `spec` describes, with parse errors carrying its message.
pub open spec fn skills_result_is(
    r: Result<Vec<Skill>, SkillsError>,
    spec: Result<Seq<(usize, Seq<char>, Seq<char>, Seq<char>, Seq<char>)>, Seq<char>>,
) -> bool {
    match r {
        Ok(v) => spec == Ok::<Seq<(usize, Seq<char>, Seq<char>, Seq<char>, Seq<char>)>, Seq<char>>(skills_view(v@)),
        Err(SkillsError::ParseError(m)) => spec == Err::<Seq<(usize, Seq<char>, Seq<char>, Seq<char>, Seq<char>)>, Seq<char>>(m@),
        Err(SkillsError::Network(_)) => false,
    }
}

// ───────────────────────────── Laws ─────────────────────────────

/// The leaderboard is ranked 1, 2, 3, … in the order of the links and lists each
/// `author:skill` once.
pub proof fn lemma_leaderboard_ranked_and_unique(hrefs: Seq<Option<Seq<char>>>)
    requires
        leaderboard(hrefs).len() <= usize::MAX,
    ensures
        leaderboard(hrefs).len() <= hrefs.len(),
        forall|i: int| 0 <= i < leaderboard(hrefs).len() ==> #[trigger] leaderboard(hrefs)[i].0 == i + 1,
        forall|i: int, j: int|
            0 <= i < j < leaderboard(hrefs).len() ==> skill_key(leaderboard(hrefs)[i].2, leaderboard(hrefs)[i].1)
                != skill_key(leaderboard(hrefs)[j].2, leaderboard(hrefs)[j].1),
    decreases hrefs.len(),
{
    if hrefs.len() > 0 {
        let prev = leaderboard(hrefs.drop_last());
        assert(prev.len() <= leaderboard(hrefs).len());
        lemma_leaderboard_ranked_and_unique(hrefs.drop_last());
        let lb = leaderboard(hrefs);
        if lb.len() != prev.len() {
            assert(lb =~= prev.push(lb.last()));
            assert forall|i: int, j: int| 0 <= i < j < lb.len() implies skill_key(lb[i].2, lb[i].1)
                != skill_key(lb[j].2, lb[j].1) by {
                if j == prev.len() {
                    assert(lb[i] == prev[i]);
                }
            }
        }
    }
}

/// The leaderboard has a skill by `author` named `name`.
pub open spec fn lists_skill(
    lb: Seq<(usize, Seq<char>, Seq<char>, Seq<char>, Seq<char>)>,
    author: Seq<char>,
    name: Seq<char>,
) -> bool {
    exists|j: int| 0 <= j < lb.len() && (#[trigger] lb[j]).2 == author && lb[j].1 == name
}

/// No skill link of `hrefs` has an author holding ':' (the character that joins author
/// and name in the key under which a skill is listed once).
pub open spec fn link_authors_plain(hrefs: Seq<Option<Seq<char>>>) -> bool {
    forall|i: int|
        0 <= i < hrefs.len() ==> match #[trigger] hrefs[i] {
            Some(h) => match skill_link(h) {
                Some(e) => !e.0.contains(':'),
                None => true,
            },
            None => true,
        }
}

/// Keys of authors without ':' are equal only for equal authors and names.
proof fn lemma_skill_key_injective(a: Seq<char>, n: Seq<char>, a2: Seq<char>, n2: Seq<char>)
    requires
        !a.contains(':'),
        !a2.contains(':'),
        skill_key(a, n) == skill_key(a2, n2),
    ensures
        a == a2,
        n == n2,
{
    reveal_strlit(":");
    let x = skill_key(a, n);
    assert(x == a + seq![':'] + n);
    assert(x == a2 + seq![':'] + n2);
    if a.len() < a2.len() {
        assert(x[a.len() as int] == ':');
        assert(x[a.len() as int] == a2[a.len() as int]);
        assert(a2.contains(':'));
    } else if a2.len() < a.len() {
        assert(x[a2.len() as int] == ':');
        assert(x[a2.len() as int] == a[a2.len() as int]);
        assert(a.contains(':'));
    } else {
        assert(a =~= x.take(a.len() as int));
        assert(a2 =~= x.take(a.len() as int));
        assert(n =~= x.skip(a.len() as int + 1));
        assert(n2 =~= x.skip(a.len() as int + 1));
    }
}

proof fn lemma_leaderboard_complete(hrefs: Seq<Option<Seq<char>>>)
    requires
        link_authors_plain(hrefs),
    ensures
        forall|j: int| 0 <= j < leaderboard(hrefs).len() ==> !(#[trigger] leaderboard(hrefs)[j]).2.contains(':'),
        forall|i: int|
            0 <= i < hrefs.len() ==> match #[trigger] hrefs[i] {
                Some(h) => match skill_link(h) {
                    Some(e) => lists_skill(leaderboard(hrefs), e.0, e.1),
                    None => true,
                },
                None => true,
            },
    decreases hrefs.len(),
{
    if hrefs.len() > 0 {
        let init = hrefs.drop_last();
        assert forall|i: int| 0 <= i < init.len() implies match #[trigger] init[i] {
            Some(h) => match skill_link(h) {
                Some(e) => !e.0.contains(':'),
                None => true,
            },
            None => true,
        } by {
            assert(init[i] == hrefs[i]);
        }
        lemma_leaderboard_complete(init);
        let prev = leaderboard(init);
        let lb = leaderboard(hrefs);
        let last = hrefs.len() - 1;
        assert(hrefs.last() == hrefs[last]);
        assert(forall|j: int| 0 <= j < prev.len() ==> j < lb.len() && lb[j] == prev[j]) by {
            if lb.len() != prev.len() {
                assert(lb =~= prev.push(lb.last()));
            }
        }
        assert forall|i: int| 0 <= i < hrefs.len() implies match #[trigger] hrefs[i] {
            Some(h) => match skill_link(h) {
                Some(e) => lists_skill(lb, e.0, e.1),
                None => true,
            },
            None => true,
        } by {
            if i < last {
                assert(hrefs[i] == init[i]);
                if let Some(h) = hrefs[i] {
                    if let Some(e) = skill_link(h) {
                        assert(lists_skill(prev, e.0, e.1));
                        let j = choose|j: int| 0 <= j < prev.len() && (#[trigger] prev[j]).2 == e.0 && prev[j].1 == e.1;
                        assert(lb[j] == prev[j]);
                    }
                }
            } else {
                if let Some(h) = hrefs[i] {
                    if let Some(e) = skill_link(h) {
                        if exists|j: int| 0 <= j < prev.len() && skill_key(prev[j].2, prev[j].1) == skill_key(e.0, e.1) {
                            let j = choose|j: int|
                                0 <= j < prev.len() && skill_key(prev[j].2, prev[j].1) == skill_key(e.0, e.1);
                            assert(!prev[j].2.contains(':'));
                            lemma_skill_key_injective(prev[j].2, prev[j].1, e.0, e.1);
                            assert(lb[j] == prev[j]);
                        } else {
                            assert(lb[prev.len() as int].2 == e.0 && lb[prev.len() as int].1 == e.1);
                        }
                    }
                }
            }
        }
        assert forall|j: int| 0 <= j < lb.len() implies !(#[trigger] lb[j]).2.contains(':') by {
            if j < prev.len() {
                assert(lb[j] == prev[j]);
            } else {
                assert(hrefs[last] == hrefs.last());
            }
        }
    }
}

/// Every skill link of the page is on the leaderboard: for each link to
/// `/author/repo/.../skill`, the leaderboard has a skill by that author with that name,
/// so links that differ in author or name are all listed. (Authors holding ':' are left
/// out: the key `author:name` can then join two different skills.)
pub proof fn lemma_leaderboard_lists_every_skill_link(hrefs: Seq<Option<Seq<char>>>, i: int)
    requires
        link_authors_plain(hrefs),
        0 <= i < hrefs.len(),
    ensures
        match hrefs[i] {
            Some(h) => match skill_link(h) {
                Some(e) => lists_skill(leaderboard(hrefs), e.0, e.1),
                None => true,
            },
            None => true,
        },
{
    lemma_leaderboard_complete(hrefs);
    assert(match hrefs[i] {
        Some(h) => match skill_link(h) {
            Some(e) => lists_skill(leaderboard(hrefs), e.0, e.1),
            None => true,
        },
        None => true,
    });
}

/// Containment is transitive: a text inside a text inside `a` is inside `a`.
pub proof fn lemma_contains_transitive(a: Seq<char>, b: Seq<char>, c: Seq<char>)
    requires
        contains_seq(a, b),
        contains_seq(b, c),
    ensures
        contains_seq(a, c),
{
    let k1 = choose|k: int| occurs_at(a, b, k);
    let k2 = choose|k: int| occurs_at(b, c, k);
    assert forall|t: int| 0 <= t < c.len() implies a.subrange(k1 + k2, k1 + k2 + c.len())[t] == c[t] by {
        assert(c[t] == b.subrange(k2, k2 + c.len())[t]);
        assert(b[k2 + t] == a.subrange(k1, k1 + b.len())[k2 + t]);
    }
    assert(a.subrange(k1 + k2, k1 + k2 + c.len()) =~= c);
    assert(occurs_at(a, c, k1 + k2));
}

/// Filtering by a stronger condition keeps a subsequence of what a weaker one keeps:
/// the same as filtering that again.
proof fn lemma_filter_stronger<A>(s: Seq<A>, weak: spec_fn(A) -> bool, strong: spec_fn(A) -> bool)
    requires
        forall|x: A| #[trigger] strong(x) ==> weak(x),
    ensures
        s.filter(strong) == s.filter(weak).filter(strong),
    decreases s.len(),
{
    if s.len() > 0 {
        let init = s.drop_last();
        lemma_filter_stronger(init, weak, strong);
        assert(s =~= init.push(s.last()));
        init.lemma_filter_push(s.last(), strong);
        init.lemma_filter_push(s.last(), weak);
        init.filter(weak).lemma_filter_push(s.last(), strong);
    } else {
        assert(s.filter(strong) =~= Seq::<A>::empty());
        assert(s.filter(weak) =~= Seq::<A>::empty());
        assert(s.filter(weak).filter(strong) =~= Seq::<A>::empty());
    }
}

/// A query whose lowercase holds another query's lowercase finds a subsequence of
/// what the other finds: the skills it keeps are those the other keeps that it matches.
pub proof fn lemma_narrower_query_finds_subsequence(
    all: Seq<(usize, Seq<char>, Seq<char>, Seq<char>, Seq<char>)>,
    q1: Seq<char>,
    q2: Seq<char>,
)
    requires
        contains_seq(unicode_lowercase(q2), unicode_lowercase(q1)),
    ensures
        all.filter(matching(q2)) == all.filter(matching(q1)).filter(matching(q2)),
{
    assert forall|x: (usize, Seq<char>, Seq<char>, Seq<char>, Seq<char>)| #[trigger] matching(q2)(x) implies matching(q1)(x) by {
        if contains_seq(unicode_lowercase(x.1), unicode_lowercase(q2)) {
            lemma_contains_transitive(unicode_lowercase(x.1), unicode_lowercase(q2), unicode_lowercase(q1));
        } else {
            lemma_contains_transitive(unicode_lowercase(x.2), unicode_lowercase(q2), unicode_lowercase(q1));
        }
    }
    lemma_filter_stronger(all, matching(q1), matching(q2));
}

// ───────────────────────────── Functions ─────────────────────────────

/// Whether a link is one of the site's navigation paths.
pub fn is_navigation_link(href: &str) -> (r: bool)
    ensures
        r == nav_paths().contains(href@),
{
    let mut k: usize = 0;
    while k < 5
        invariant
            k <= 5,
            nav_paths().len() == 5,
            forall|j: int| 0 <= j < k ==> nav_paths()[j] != href@,
        decreases 5 - k,
    {
        if str_eq(NAV_PATHS[k], href) {
            assert(nav_paths()[k as int] == href@);
            return true;
        }
        k += 1;
    }
    false
}

/// `v` without its leading `c` characters.
fn trim_leading_chars(v: &Vec<char>, c: char) -> (r: Vec<char>)
    ensures
        r@ == trim_leading(v@, c),
{
    let mut i: usize = 0;
    assert(v@.subrange(0, v@.len() as int) =~= v@);
    while i < v.len() && v[i] == c
        invariant
            i <= v.len(),
            trim_leading(v@, c) == trim_leading(v@.subrange(i as int, v@.len() as int), c),
        decreases v.len() - i,
    {
        assert(v@.subrange(i as int, v@.len() as int).drop_first() =~= v@.subrange(i + 1, v@.len() as int));
        i += 1;
    }
    slice_chars(v, i, v.len())
}

/// Whether `v` holds a string equal to `t`.
fn contains_str(v: &Vec<String>, t: &str) -> (b: bool)
    ensures
        b == strings_view(v@).contains(t@),
{
    let mut k: usize = 0;
    while k < v.len()
        invariant
            k <= v.len(),
            forall|j: int| 0 <= j < k ==> strings_view(v@)[j] != t@,
        decreases v.len() - k,
    {
        if str_eq(v[k].as_str(), t) {
            assert(strings_view(v@)[k as int] == t@);
            return true;
        }
        k += 1;
    }
    false
}

/// The (author, skill name, install path) of a leaderboard link, if it is one.
fn read_skill_link(href: &str) -> (r: Option<(String, String, String)>)
    ensures
        match r {
            Some((a, n, p)) => skill_link(href@) == Some((a@, n@, p@)),
            None => skill_link(href@) is None,
        },
{
    let hv = chars_of(href);
    let slash = chars_of("/");
    let http = chars_of("http");
    if !starts_with_exec(&hv, &slash) || starts_with_exec(&hv, &http) {
        return None;
    }
    let path = trim_leading_chars(&hv, '/');
    let parts = split_chars(&path, Separator::Char('/'));
    let ghost pv = parts@.map_values(|p: Vec<char>| p@);
    if parts.len() < 3 || is_navigation_link(href) {
        return None;
    }
    let author = string_of(&parts[0]);
    let name = string_of(&parts[parts.len() - 1]);
    assert(pv[0] == parts@[0]@);
    assert(pv.last() == parts@[parts.len() - 1]@);
    Some((author, name, string_of(&path)))
}

/// The leaderboard read from the `href` values of the page's links, in document
/// order; fails when no link is a skill.
pub fn skills_from_hrefs(hrefs: &Vec<Option<String>>) -> (r: Result<Vec<Skill>, SkillsError>)
    ensures
        skills_result_is(r, hrefs_skills(opt_strings_view(hrefs@))),
{
    let ghost hv = opt_strings_view(hrefs@);
    let mut skills: Vec<Skill> = Vec::new();
    let mut seen: Vec<String> = Vec::new();
    let mut i: usize = 0;
    while i < hrefs.len()
        invariant
            i <= hrefs.len(),
            hv == opt_strings_view(hrefs@),
            skills.len() <= i,
            skills_view(skills@) == leaderboard(hv.take(i as int)),
            strings_view(seen@) == skills_view(skills@).map_values(
                |s: (usize, Seq<char>, Seq<char>, Seq<char>, Seq<char>)| skill_key(s.2, s.1),
            ),
        decreases hrefs.len() - i,
    {
        let ghost prev = skills_view(skills@);
        let ghost prev_seen = seen@;
        let ghost prev_skills = skills@;
        assert(hv.take(i + 1).drop_last() =~= hv.take(i as int));
        assert(hv.take(i + 1).last() == hv[i as int]);
        match &hrefs[i] {
            None => {},
            Some(h) => {
                match read_skill_link(h.as_str()) {
                    None => {},
                    Some((author, name, path)) => {
                        let mut key = concat2(author.as_str(), ":");
                        key.append(name.as_str());
                        let dup = contains_str(&seen, key.as_str());
                        assert(dup == exists|j: int|
                            0 <= j < prev.len() && skill_key(prev[j].2, prev[j].1) == skill_key(author@, name@)) by {
                            if dup {
                                let j = choose|j: int| 0 <= j < strings_view(seen@).len() && strings_view(seen@)[j] == key@;
                                assert(skill_key(prev[j].2, prev[j].1) == strings_view(seen@)[j]);
                            }
                            if exists|j: int| 0 <= j < prev.len() && skill_key(prev[j].2, prev[j].1) == skill_key(author@, name@) {
                                let j = choose|j: int| 0 <= j < prev.len() && skill_key(prev[j].2, prev[j].1) == skill_key(author@, name@);
                                assert(strings_view(seen@)[j] == key@);
                            }
                        }
                        if !dup {
                            let skill = Skill {
                                rank: skills.len() + 1,
                                name,
                                author,
                                install_path: path,
                                installs: owned("N/A"),
                            };
                            let ghost sv = skill@;
                            skills.push(skill);
                            seen.push(key);
                            assert(skills_view(skills@) =~= prev.push(sv));
                            assert(strings_view(seen@) =~= strings_view(prev_seen).push(key@));
                            assert(skills_view(skills@).map_values(
                                |s: (usize, Seq<char>, Seq<char>, Seq<char>, Seq<char>)| skill_key(s.2, s.1),
                            ) =~= prev.map_values(
                                |s: (usize, Seq<char>, Seq<char>, Seq<char>, Seq<char>)| skill_key(s.2, s.1),
                            ).push(key@));
                        }
                    },
                }
            },
        }
        i += 1;
    }
    assert(hv.take(hrefs.len() as int) =~= hv);
    if skills.len() == 0 {
        return Err(SkillsError::ParseError(owned("No se encontraron skills en el HTML")));
    }
    Ok(skills)
}

/// Reads the skills leaderboard out of a skills.sh page: every site-relative link
/// `/author/repo/.../skill` with at least three segments that is not navigation,
/// once per `author:skill`, in the order in which scraper selects the links. The
/// link selector always parses: the only error is a page without skills.
pub fn parse_skills_from_html(html: &str) -> (r: Result<Vec<Skill>, SkillsError>)
    ensures
        skills_result_is(r, page_skills(html@)),
        r matches Err(SkillsError::ParseError(m)) ==> m@ == "No se encontraron skills en el HTML"@,
{
    match select_attribute(html, LINK_SELECTOR, "href") {
        Ok(hrefs) => skills_from_hrefs(&hrefs),
        Err(e) => Err(SkillsError::ParseError(concat2("Selector inválido: ", e.as_str()))),
    }
}

/// All the skills of the leaderboard page `html`, unfiltered.
pub fn fetch_all_skills(html: &str) -> (r: Result<Vec<Skill>, SkillsError>)
    ensures
        skills_result_is(r, page_skills(html@)),
        r matches Err(SkillsError::ParseError(m)) ==> m@ == "No se encontraron skills en el HTML"@,
{
    parse_skills_from_html(html)
}

/// Whether `hay` contains `needle`.
fn str_contains(hay: &str, needle: &str) -> (r: bool)
    ensures
        r == contains_seq(hay@, needle@),
{
    let h = chars_of(hay);
    let n = chars_of(needle);
    contains_exec(&h, &n)
}

/// The skills whose name or author contains `query`, ignoring case, in order.
pub fn filter_skills(skills: Vec<Skill>, query: &str) -> (r: Vec<Skill>)
    ensures
        skills_view(r@) == skills_view(skills@).filter(matching(query@)),
        query@.len() == 0 ==> skills_view(r@) == skills_view(skills@),
{
    let ghost sv = skills_view(skills@);
    let ghost keep = matching(query@);
    let query_lower = to_lowercase(query);
    let mut out: Vec<Skill> = Vec::new();
    let mut i: usize = 0;
    while i < skills.len()
        invariant
            i <= skills.len(),
            sv == skills_view(skills@),
            query_lower@ == unicode_lowercase(query@),
            query@.len() == 0 ==> query_lower@.len() == 0,
            keep == matching(query@),
            skills_view(out@) == sv.take(i as int).filter(keep),
            query@.len() == 0 ==> sv.take(i as int).filter(keep) == sv.take(i as int),
        decreases skills.len() - i,
    {
        let ghost prev = out@;
        proof {
            assert(sv.take(i + 1) =~= sv.take(i as int).push(sv[i as int]));
            sv.take(i as int).lemma_filter_push(sv[i as int], keep);
            if query@.len() == 0 {
                let ln = unicode_lowercase(sv[i as int].1);
                assert(ln.subrange(0, 0) =~= unicode_lowercase(query@));
                assert(occurs_at(ln, unicode_lowercase(query@), 0));
                assert(keep(sv[i as int]));
            }
        }
        let name_lower = to_lowercase(skills[i].name.as_str());
        let author_lower = to_lowercase(skills[i].author.as_str());
        if str_contains(name_lower.as_str(), query_lower.as_str()) || str_contains(
            author_lower.as_str(),
            query_lower.as_str(),
        ) {
            out.push(skills[i].duplicate());
            assert(skills_view(out@) =~= skills_view(prev).push(sv[i as int]));
        }
        i += 1;
    }
    assert(sv.take(skills.len() as int) =~= sv);
    out
}

/// The skills of the leaderboard page `html` whose name or author contains `query`,
/// ignoring case.
pub fn search_skills(html: &str, query: &str) -> (r: Result<Vec<Skill>, SkillsError>)
    ensures
        skills_result_is(
            r,
            match page_skills(html@) {
                Ok(all) => Ok(all.filter(matching(query@))),
                Err(m) => Err(m),
            },
        ),
        r matches Err(SkillsError::ParseError(m)) ==> m@ == "No se encontraron skills en el HTML"@,
        query@.len() == 0 ==> skills_result_is(r, page_skills(html@)),
{
    match parse_skills_from_html(html) {
        Ok(all) => Ok(filter_skills(all, query)),
        Err(e) => Err(e),
    }
}


// ───────────────────────────── Install counts ─────────────────────────────

pub open spec fn is_digit(c: char) -> bool {
    48 <= (c as u32) <= 57
}

/// A character of a count: a digit or a decimal point.
pub open spec fn is_count_char(c: char) -> bool {
    is_digit(c) || c == '.'
}

/// A magnitude suffix: thousands, millions, billions.
pub open spec fn is_magnitude(c: char) -> bool {
    c == 'K' || c == 'M' || c == 'B'
}

/// Where the run of count characters that ends at `end` begins.
pub open spec fn count_start(v: Seq<char>, end: int) -> int
    decreases end,
{
    if 0 < end <= v.len() && is_count_char(v[end - 1]) {
        count_start(v, end - 1)
    } else {
        end
    }
}

/// The install count at the end of a leaderboard entry's text: the trailing run of
/// digits and decimal points, with its magnitude suffix if any; "N/A" when that run
/// holds no digit.
pub open spec fn installs_in(v: Seq<char>) -> Seq<char> {
    let end = if v.len() > 0 && is_magnitude(v.last()) { v.len() - 1 } else { v.len() as int };
    let start = count_start(v, end);
    if exists|i: int| start <= i < end && is_digit(#[trigger] v[i]) {
        v.subrange(start, v.len() as int)
    } else {
        "N/A"@
    }
}

/// The install count at the end of a leaderboard entry's text (e.g. "319.5K" in
/// "find-skills319.5K"), or "N/A".
pub fn extract_installs_from_text(text: &str) -> (r: String)
    ensures
        r@ == installs_in(text@),
{
    let v = chars_of(text);
    let n = v.len();
    let end = if n > 0 && (v[n - 1] == 'K' || v[n - 1] == 'M' || v[n - 1] == 'B') {
        n - 1
    } else {
        n
    };
    let mut start = end;
    while start > 0 && (v[start - 1] == '.' || (48 <= v[start - 1] as u32 && v[start - 1] as u32 <= 57))
        invariant
            start <= end <= n == v.len(),
            count_start(v@, end as int) == count_start(v@, start as int),
        decreases start,
    {
        start -= 1;
    }
    let mut has_digit = false;
    let mut i = start;
    while i < end
        invariant
            start <= i <= end <= v.len(),
            has_digit == exists|j: int| start <= j < i && is_digit(#[trigger] v@[j]),
        decreases end - i,
    {
        if 48 <= v[i] as u32 && v[i] as u32 <= 57 {
            has_digit = true;
        }
        i += 1;
    }
    if has_digit {
        string_of_range(&v, start, n)
    } else {
        owned("N/A")
    }
}

// ───────────────────────────── Install command ─────────────────────────────

/// The install command shown in a text: from the first "npx skills add", at most
/// 100 characters, trimmed.
pub open spec fn command_in(t: Seq<char>) -> Option<Seq<char>> {
    match first_occurrence(t, INSTALL_PREFIX@) {
        Some(k) => {
            let rest = t.skip(k);
            let c = trim(rest.take(if rest.len() < 100 { rest.len() as int } else { 100 }));
            if c.len() > 0 {
                Some(c)
            } else {
                None
            }
        },
        None => None,
    }
}

/// The first install command among texts.
pub open spec fn first_command(texts: Seq<Seq<char>>) -> Option<Seq<char>>
    decreases texts.len(),
{
    if texts.len() == 0 {
        None
    } else {
        match command_in(texts[0]) {
            Some(c) => Some(c),
            None => first_command(texts.drop_first()),
        }
    }
}

/// The install command of a skill page, or the message of the parse error.
pub open spec fn page_command(html: Seq<char>) -> Result<Seq<char>, Seq<char>> {
    match html_element_texts(html, COMMAND_SELECTOR@) {
        Err(e) => Err("Selector inválido: "@ + e),
        Ok(texts) => match first_command(texts) {
            Some(c) => Ok(c),
            None => Err("No se encontró comando de instalación"@),
        },
    }
}

/// `r` is the command result that `spec` describes.
pub open spec fn command_result_is(r: Result<String, SkillsError>, spec: Result<Seq<char>, Seq<char>>) -> bool {
    match r {
        Ok(c) => spec == Ok::<Seq<char>, Seq<char>>(c@),
        Err(SkillsError::ParseError(m)) => spec == Err::<Seq<char>, Seq<char>>(m@),
        Err(SkillsError::Network(_)) => false,
    }
}

/// The install command shown in `text`, if any.
fn command_in_text(text: &str) -> (r: Option<String>)
    ensures
        match r {
            Some(c) => command_in(text@) == Some(c@),
            None => command_in(text@) is None,
        },
{
    let v = chars_of(text);
    let prefix = chars_of(INSTALL_PREFIX);
    match find_seq(&v, &prefix) {
        None => None,
        Some(k) => {
            let stop = if v.len() - k < 100 { v.len() } else { k + 100 };
            let cmd = slice_chars(&v, k, stop);
            assert(cmd@ =~= v@.skip(k as int).take(stop - k));
            let (lo, hi) = trim_bounds(&cmd);
            if lo == hi {
                None
            } else {
                Some(string_of_range(&cmd, lo, hi))
            }
        },
    }
}

/// The first install command shown in `texts`; fails when none shows one.
pub fn command_from_texts(texts: &Vec<String>) -> (r: Result<String, SkillsError>)
    ensures
        command_result_is(
            r,
            match first_command(strings_view(texts@)) {
                Some(c) => Ok(c),
                None => Err("No se encontró comando de instalación"@),
            },
        ),
{
    let ghost tv = strings_view(texts@);
    let mut i: usize = 0;
    assert(tv.skip(0) =~= tv);
    while i < texts.len()
        invariant
            i <= texts.len(),
            tv == strings_view(texts@),
            first_command(tv) == first_command(tv.skip(i as int)),
        decreases texts.len() - i,
    {
        assert(tv.skip(i as int).drop_first() =~= tv.skip(i + 1));
        assert(tv.skip(i as int)[0] == texts@[i as int]@);
        match command_in_text(texts[i].as_str()) {
            Some(c) => {
                return Ok(c);
            },
            None => {},
        }
        i += 1;
    }
    assert(tv.skip(texts.len() as int) =~= Seq::<Seq<char>>::empty());
    Err(SkillsError::ParseError(owned("No se encontró comando de instalación")))
}

/// Reads the install command out of a skill's page: the first paragraph, code or
/// preformatted block that shows "npx skills add ...".
pub fn install_command_from_html(html: &str) -> (r: Result<String, SkillsError>)
    ensures
        command_result_is(r, page_command(html@)),
        r matches Err(SkillsError::ParseError(m)) ==> m@ == "No se encontró comando de instalación"@,
{
    match select_text(html, COMMAND_SELECTOR) {
        Ok(texts) => command_from_texts(&texts),
        Err(e) => Err(SkillsError::ParseError(concat2("Selector inválido: ", e.as_str()))),
    }
}

/// The page of a skill on the site.
pub fn skill_page_url(install_path: &str) -> (r: String)
    ensures
        r@ == SKILLS_BASE_URL@ + "/"@ + install_path@,
{
    let mut r = concat2(SKILLS_BASE_URL, "/");
    r.append(install_path);
    r
}

/// The command used when a skill's page shows none: from `author/repo/skill`,
/// "npx skills add https://github.com/author/repo --skill skill"; `None` when the
/// path has fewer than three segments.
pub open spec fn default_command(path: Seq<char>) -> Option<Seq<char>> {
    let parts = split_by(path, Separator::Char('/'));
    if parts.len() < 3 {
        None
    } else {
        Some("npx skills add https://github.com/"@ + parts[0] + "/"@ + parts[1] + " --skill "@ + parts[2])
    }
}

/// The command used when a skill's page shows none.
pub fn fallback_install_command(install_path: &str) -> (r: Option<String>)
    ensures
        match r {
            Some(c) => default_command(install_path@) == Some(c@),
            None => default_command(install_path@) is None,
        },
{
    let parts = split_str(install_path, Separator::Char('/'));
    let ghost pv = parts@.map_values(|p: String| p@);
    if parts.len() < 3 {
        return None;
    }
    assert(pv[0] == parts@[0]@ && pv[1] == parts@[1]@ && pv[2] == parts@[2]@);
    let mut c = concat2("npx skills add https://github.com/", parts[0].as_str());
    c.append("/");
    c.append(parts[1].as_str());
    c.append(" --skill ");
    c.append(parts[2].as_str());
    Some(c)
}

// ───────────────────────────── Installer arguments ─────────────────────────────

/// The arguments kept from `args[i..]`, and whether a `--skill` was among them; `skip`
/// drops `args[i]` (the value of a `--skill` already kept).
pub open spec fn arg_tail(args: Seq<Seq<char>>, i: int, skip: bool) -> (Seq<Seq<char>>, bool)
    decreases args.len() - i, if skip { 1int } else { 0int },
{
    if i < 0 || i >= args.len() {
        (Seq::empty(), false)
    } else if skip {
        arg_tail(args, i + 1, false)
    } else {
        let a = args[i];
        let rest = arg_tail(args, i + 1, false);
        if a == "add"@ || a == "skills"@ || a == "npx"@ {
            rest
        } else if a == "--skill"@ {
            if i + 1 < args.len() && !starts_with(args[i + 1], "--"@) && args[i + 1].len() > 0 {
                let after = arg_tail(args, i + 1, true);
                (seq![a, args[i + 1]] + after.0, true)
            } else {
                (seq![a] + rest.0, true)
            }
        } else if starts_with(a, "http"@) || a.contains('@') || starts_with(a, "--"@) {
            (seq![a] + rest.0, rest.1)
        } else {
            rest
        }
    }
}

/// The arguments of `npx` that install a skill with the command `cmd`: "skills add",
/// then the repository (a URL or `author@repo`), the options and the `--skill` value
/// found in `cmd`, then "-y" when a skill is named.
pub open spec fn installer_args(cmd: Seq<char>) -> Seq<Seq<char>> {
    let t = arg_tail(words(cmd), 0, false);
    seq!["skills"@, "add"@] + t.0 + if t.1 {
        seq!["-y"@]
    } else {
        Seq::empty()
    }
}

fn has_char(v: &Vec<char>, c: char) -> (r: bool)
    ensures
        r == v@.contains(c),
{
    let mut i: usize = 0;
    while i < v.len()
        invariant
            i <= v.len(),
            forall|j: int| 0 <= j < i ==> v@[j] != c,
        decreases v.len() - i,
    {
        if v[i] == c {
            assert(v@[i as int] == c);
            return true;
        }
        i += 1;
    }
    false
}

/// Whether `s` begins with `p`.
fn str_starts_with(s: &str, p: &str) -> (r: bool)
    ensures
        r == starts_with(s@, p@),
{
    let sv = chars_of(s);
    let pv = chars_of(p);
    starts_with_exec(&sv, &pv)
}

/// The arguments of `npx` that install a skill with the command `install_cmd`.
pub fn install_args(install_cmd: &str) -> (r: Vec<String>)
    ensures
        strings_view(r@) == installer_args(install_cmd@),
{
    let args = split_words(install_cmd);
    let ghost av = strings_view(args@);
    let ghost full = arg_tail(av, 0, false);
    let mut kept: Vec<String> = Vec::new();
    kept.push(owned("skills"));
    kept.push(owned("add"));
    let ghost head = strings_view(kept@);
    let mut has_skill = false;
    let mut skip_next = false;
    let mut i: usize = 0;
    while i < args.len()
        invariant
            i <= args.len(),
            av == strings_view(args@),
            av == words(install_cmd@),
            full == arg_tail(av, 0, false),
            head == seq!["skills"@, "add"@],
            strings_view(kept@).take(2) == head,
            kept.len() >= 2,
            strings_view(kept@).skip(2) + arg_tail(av, i as int, skip_next).0 == full.0,
            (has_skill || arg_tail(av, i as int, skip_next).1) == full.1,
        decreases args.len() - i,
    {
        let ghost before = strings_view(kept@);
        let a = args[i].as_str();
        assert(a@ == av[i as int]);
        if skip_next {
            skip_next = false;
        } else if str_eq(a, "add") || str_eq(a, "skills") || str_eq(a, "npx") {
        } else if str_eq(a, "--skill") {
            kept.push(owned(a));
            has_skill = true;
            if i + 1 < args.len() {
                let next = args[i + 1].as_str();
                assert(next@ == av[i + 1]);
                let next_chars = chars_of(next);
                if !str_starts_with(next, "--") && next_chars.len() > 0 {
                    kept.push(owned(next));
                    skip_next = true;
                    assert(strings_view(kept@) =~= before.push(a@).push(next@));
                    assert(strings_view(kept@).skip(2) =~= before.skip(2) + seq![a@, next@]);
                } else {
                    assert(strings_view(kept@) =~= before.push(a@));
                    assert(strings_view(kept@).skip(2) =~= before.skip(2) + seq![a@]);
                }
            } else {
                assert(strings_view(kept@) =~= before.push(a@));
                assert(strings_view(kept@).skip(2) =~= before.skip(2) + seq![a@]);
            }
        } else {
            let ac = chars_of(a);
            if str_starts_with(a, "http") || has_char(&ac, '@') || str_starts_with(a, "--") {
                kept.push(owned(a));
                assert(strings_view(kept@) =~= before.push(a@));
                assert(strings_view(kept@).skip(2) =~= before.skip(2) + seq![a@]);
            }
        }
        assert(strings_view(kept@).take(2) =~= head);
        i += 1;
    }
    if has_skill {
        kept.push(owned("-y"));
    }

    assert(strings_view(kept@) =~= seq!["skills"@, "add"@] + full.0 + if full.1 {
        seq!["-y"@]
    } else {
        Seq::<Seq<char>>::empty()
    });
    kept
}

} // verus!
