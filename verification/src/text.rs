//! Character-level text utilities shared by the commands and the dashboard:
//! Unicode whitespace, trimming, substring search, splitting, decimal
//! rendering and placeholder substitution, each with a mathematical model.
use vstd::prelude::*;

verus! {

// ───────────────────────────── Models ─────────────────────────────

/// Unicode `White_Space`: the characters for which `char::is_whitespace` holds.
pub open spec fn is_ws(c: char) -> bool {
    let n = c as u32;
    ||| 9 <= n <= 13
    ||| n == 32
    ||| n == 0x85
    ||| n == 0xA0
    ||| n == 0x1680
    ||| 0x2000 <= n <= 0x200A
    ||| n == 0x2028
    ||| n == 0x2029
    ||| n == 0x202F
    ||| n == 0x205F
    ||| n == 0x3000
}

/// `s` without its leading whitespace.
pub open spec fn trim_start(s: Seq<char>) -> Seq<char>
    decreases s.len(),
{
    if s.len() > 0 && is_ws(s[0]) {
        trim_start(s.drop_first())
    } else {
        s
    }
}

/// `s` without its trailing whitespace.
pub open spec fn trim_end(s: Seq<char>) -> Seq<char>
    decreases s.len(),
{
    if s.len() > 0 && is_ws(s.last()) {
        trim_end(s.drop_last())
    } else {
        s
    }
}

/// `s` without leading and trailing whitespace (`str::trim`).
pub open spec fn trim(s: Seq<char>) -> Seq<char> {
    trim_end(trim_start(s))
}

/// `pat` occurs in `s` starting at index `k`.
pub open spec fn occurs_at(s: Seq<char>, pat: Seq<char>, k: int) -> bool {
    &&& 0 <= k
    &&& k + pat.len() <= s.len()
    &&& s.subrange(k, k + pat.len()) == pat
}

/// `pat` occurs somewhere in `s`.
pub open spec fn contains_seq(s: Seq<char>, pat: Seq<char>) -> bool {
    exists|k: int| occurs_at(s, pat, k)
}

/// `s` begins with `pat`.
pub open spec fn starts_with(s: Seq<char>, pat: Seq<char>) -> bool {
    pat.len() <= s.len() && s.take(pat.len() as int) == pat
}

/// The first index at which `pat` occurs in `s`, if any.
#[verifier::opaque]
pub open spec fn first_occurrence(s: Seq<char>, pat: Seq<char>) -> Option<int> {
    if contains_seq(s, pat) {
        Some(choose|k: int| occurs_at(s, pat, k) && forall|j: int| 0 <= j < k ==> !occurs_at(s, pat, j))
    } else {
        None
    }
}

/// What separates the pieces of a split.
#[derive(Clone, Copy, PartialEq, Eq)]
pub enum Separator {
    /// One given character.
    Char(char),
    /// Any whitespace character.
    Whitespace,
}

pub open spec fn separates(sep: Separator, c: char) -> bool {
    match sep {
        Separator::Char(d) => c == d,
        Separator::Whitespace => is_ws(c),
    }
}

/// The pieces of `s` between separators, empty pieces included (`str::split`).
pub open spec fn split_by(s: Seq<char>, sep: Separator) -> Seq<Seq<char>>
    decreases s.len(),
{
    if s.len() == 0 {
        seq![Seq::<char>::empty()]
    } else {
        let r = split_by(s.drop_last(), sep);
        if separates(sep, s.last()) {
            r.push(Seq::<char>::empty())
        } else {
            r.update(r.len() - 1, r.last().push(s.last()))
        }
    }
}

/// The non-empty whitespace-separated words of `s` (`str::split_whitespace`).
pub open spec fn words(s: Seq<char>) -> Seq<Seq<char>> {
    split_by(s, Separator::Whitespace).filter(|w: Seq<char>| w.len() > 0)
}

/// The decimal digit character for `d < 10`.
pub open spec fn digit_char(d: nat) -> char {
    if d == 0 { '0' }
    else if d == 1 { '1' }
    else if d == 2 { '2' }
    else if d == 3 { '3' }
    else if d == 4 { '4' }
    else if d == 5 { '5' }
    else if d == 6 { '6' }
    else if d == 7 { '7' }
    else if d == 8 { '8' }
    else { '9' }
}

/// The decimal rendering of `n`, without leading zeros.
pub open spec fn decimal(n: nat) -> Seq<char>
    decreases n,
{
    if n < 10 {
        seq![digit_char(n)]
    } else {
        decimal(n / 10).push(digit_char(n % 10))
    }
}

/// `text` with every occurrence of `pat` replaced by `with`, scanning from the left.
pub open spec fn replace_all(text: Seq<char>, pat: Seq<char>, with: Seq<char>) -> Seq<char>
    decreases text.len(),
{
    if text.len() == 0 {
        text
    } else if pat.len() > 0 && starts_with(text, pat) {
        with + replace_all(text.skip(pat.len() as int), pat, with)
    } else {
        seq![text[0]] + replace_all(text.drop_first(), pat, with)
    }
}

/// What `str::to_lowercase` returns for a string (full Unicode case mapping).
pub uninterp spec fn unicode_lowercase(s: Seq<char>) -> Seq<char>;

// ───────────────────────────── Trusted std calls ─────────────────────────────

/// Calls `String::push`; std documents that it appends the character to the end.
#[verifier::external_body]
pub fn push_char(s: &mut String, c: char)
    ensures
        final(s)@ == old(s)@.push(c),
{
    s.push(c);
}

/// Calls `String::pop`; std documents that it removes and returns the last character,
/// or returns `None` when the string is empty.
#[verifier::external_body]
pub fn pop_char(s: &mut String) -> (r: Option<char>)
    ensures
        old(s)@.len() == 0 ==> r is None && final(s)@ == old(s)@,
        old(s)@.len() > 0 ==> r == Some(old(s)@.last()) && final(s)@ == old(s)@.drop_last(),
{
    s.pop()
}

/// Calls `str::to_lowercase`, whose result is the lowercase equivalent of its argument
/// (the full Unicode mapping, named here and not spelled out); the lowercase
/// equivalent of the empty string is empty.
#[verifier::external_body]
pub fn to_lowercase(s: &str) -> (r: String)
    ensures
        r@ == unicode_lowercase(s@),
        s@.len() == 0 ==> r@.len() == 0,
{
    s.to_lowercase()
}

// ───────────────────────────── Executable helpers ─────────────────────────────

/// Whether `c` is Unicode whitespace (`char::is_whitespace`).
pub fn is_whitespace(c: char) -> (b: bool)
    ensures
        b == is_ws(c),
{
    let n = c as u32;
    (9 <= n && n <= 13) || n == 32 || n == 0x85 || n == 0xA0 || n == 0x1680 || (0x2000 <= n
        && n <= 0x200A) || n == 0x2028 || n == 0x2029 || n == 0x202F || n == 0x205F || n
        == 0x3000
}

/// The characters of `s`, in order.
pub fn chars_of(s: &str) -> (v: Vec<char>)
    ensures
        v@ == s@,
{
    broadcast use vstd::string::group_string_axioms;

    let mut v: Vec<char> = Vec::new();
    for c in it: s.chars()
        invariant
            v@ == it.seq().take(it.index() as int),
    {
        v.push(c);
    }
    v
}

/// The string made of `v[lo..hi]`.
pub fn string_of_range(v: &Vec<char>, lo: usize, hi: usize) -> (s: String)
    requires
        lo <= hi <= v.len(),
    ensures
        s@ == v@.subrange(lo as int, hi as int),
{
    let mut s = String::new();
    let mut i = lo;
    while i < hi
        invariant
            lo <= i <= hi <= v.len(),
            s@ == v@.subrange(lo as int, i as int),
        decreases hi - i,
    {
        push_char(&mut s, v[i]);
        assert(v@.subrange(lo as int, i + 1) == v@.subrange(lo as int, i as int).push(v@[i as int]));
        i += 1;
    }
    s
}

/// The characters `v[lo..hi]`.
pub fn slice_chars(v: &Vec<char>, lo: usize, hi: usize) -> (r: Vec<char>)
    requires
        lo <= hi <= v.len(),
    ensures
        r@ == v@.subrange(lo as int, hi as int),
{
    let mut r: Vec<char> = Vec::new();
    let mut i = lo;
    while i < hi
        invariant
            lo <= i <= hi <= v.len(),
            r@ == v@.subrange(lo as int, i as int),
        decreases hi - i,
    {
        r.push(v[i]);
        assert(v@.subrange(lo as int, i + 1) == v@.subrange(lo as int, i as int).push(v@[i as int]));
        i += 1;
    }
    r
}

/// The string made of all of `v`.
pub fn string_of(v: &Vec<char>) -> (s: String)
    ensures
        s@ == v@,
{
    let s = string_of_range(v, 0, v.len());
    assert(v@.subrange(0, v.len() as int) == v@);
    s
}

/// An owned copy of `s`.
pub fn owned(s: &str) -> (r: String)
    ensures
        r@ == s@,
{
    let v = chars_of(s);
    string_of(&v)
}

/// The concatenation of `a` and `b`.
pub fn concat2(a: &str, b: &str) -> (r: String)
    ensures
        r@ == a@ + b@,
{
    let mut r = owned(a);
    r.append(b);
    r
}

/// The concatenation of `a`, `b` and `c`.
pub fn concat3(a: &str, b: &str, c: &str) -> (r: String)
    ensures
        r@ == a@ + b@ + c@,
{
    let mut r = owned(a);
    r.append(b);
    r.append(c);
    r
}

/// Whether two strings hold the same characters.
pub fn str_eq(a: &str, b: &str) -> (r: bool)
    ensures
        r == (a@ == b@),
{
    let va = chars_of(a);
    let vb = chars_of(b);
    seq_eq(&va, &vb)
}

/// Whether two character vectors are equal.
pub fn seq_eq(a: &Vec<char>, b: &Vec<char>) -> (r: bool)
    ensures
        r == (a@ == b@),
{
    if a.len() != b.len() {
        return false;
    }
    let mut i: usize = 0;
    while i < a.len()
        invariant
            a.len() == b.len(),
            i <= a.len(),
            forall|j: int| 0 <= j < i ==> a@[j] == b@[j],
        decreases a.len() - i,
    {
        if a[i] != b[i] {
            return false;
        }
        i += 1;
    }
    assert(a@ =~= b@);
    true
}

/// Whether `pat` occurs in `v` at index `k`.
pub fn occurs_at_exec(v: &Vec<char>, pat: &Vec<char>, k: usize) -> (r: bool)
    ensures
        r == occurs_at(v@, pat@, k as int),
{
    if k > v.len() || pat.len() > v.len() - k {
        return false;
    }
    let mut j: usize = 0;
    while j < pat.len()
        invariant
            k + pat.len() <= v.len(),
            j <= pat.len(),
            forall|i: int| 0 <= i < j ==> v@[k + i] == pat@[i],
        decreases pat.len() - j,
    {
        if v[k + j] != pat[j] {
            assert(v@.subrange(k as int, k + pat.len())[j as int] != pat@[j as int]);
            return false;
        }
        j += 1;
    }
    assert(v@.subrange(k as int, k + pat.len()) =~= pat@);
    true
}

/// Whether `v` begins with `pat`.
pub fn starts_with_exec(v: &Vec<char>, pat: &Vec<char>) -> (r: bool)
    ensures
        r == starts_with(v@, pat@),
{
    let r = occurs_at_exec(v, pat, 0);
    proof {
        if pat@.len() <= v@.len() {
            assert(v@.subrange(0, pat@.len() as int) == v@.take(pat@.len() as int));
        }
    }
    r
}

/// What `first_occurrence` gives: the least index at which `pat` occurs.
pub proof fn lemma_first_occurrence(s: Seq<char>, pat: Seq<char>)
    ensures
        match first_occurrence(s, pat) {
            Some(k) => occurs_at(s, pat, k) && forall|j: int| 0 <= j < k ==> !occurs_at(s, pat, j),
            None => forall|j: int| !occurs_at(s, pat, j),
        },
{
    reveal(first_occurrence);
    if contains_seq(s, pat) {
        let k0 = choose|k: int| occurs_at(s, pat, k);
        lemma_least_occurrence(s, pat, k0);
    }
}

proof fn lemma_least_occurrence(s: Seq<char>, pat: Seq<char>, k0: int)
    requires
        occurs_at(s, pat, k0),
    ensures
        exists|k: int| occurs_at(s, pat, k) && forall|j: int| 0 <= j < k ==> !occurs_at(s, pat, j),
    decreases k0,
{
    if exists|j: int| 0 <= j < k0 && occurs_at(s, pat, j) {
        let j = choose|j: int| 0 <= j < k0 && occurs_at(s, pat, j);
        lemma_least_occurrence(s, pat, j);
    } else {
        assert(occurs_at(s, pat, k0) && forall|j: int| 0 <= j < k0 ==> !occurs_at(s, pat, j));
    }
}

pub proof fn lemma_first_occurrence_at(s: Seq<char>, pat: Seq<char>, k: int)
    requires
        occurs_at(s, pat, k),
        forall|j: int| 0 <= j < k ==> !occurs_at(s, pat, j),
    ensures
        first_occurrence(s, pat) == Some(k),
{
    reveal(first_occurrence);
    let w = choose|w: int| occurs_at(s, pat, w) && forall|j: int| 0 <= j < w ==> !occurs_at(s, pat, j);
    assert(occurs_at(s, pat, w));
    if w < k {
        assert(!occurs_at(s, pat, w));
    }
    if k < w {
        assert(!occurs_at(s, pat, k));
    }
}

pub proof fn lemma_no_occurrence(s: Seq<char>, pat: Seq<char>)
    requires
        forall|j: int| 0 <= j <= s.len() ==> !occurs_at(s, pat, j),
    ensures
        first_occurrence(s, pat) is None,
{
    reveal(first_occurrence);
    assert forall|j: int| !occurs_at(s, pat, j) by {
        if 0 <= j && j <= s.len() {
            assert(!occurs_at(s, pat, j));
        }
    }
}

/// The first index at which `pat` occurs in `v`.
pub fn find_seq(v: &Vec<char>, pat: &Vec<char>) -> (r: Option<usize>)
    ensures
        match r {
            Some(k) => first_occurrence(v@, pat@) == Some(k as int) && occurs_at(v@, pat@, k as int),
            None => first_occurrence(v@, pat@) is None,
        },
{
    let mut k: usize = 0;
    loop
        invariant
            k <= v.len(),
            forall|j: int| 0 <= j < k ==> !occurs_at(v@, pat@, j),
        decreases v.len() - k,
    {
        if occurs_at_exec(v, pat, k) {
            proof {
                lemma_first_occurrence_at(v@, pat@, k as int);
            }
            return Some(k);
        }
        if k == v.len() {
            proof {
                lemma_no_occurrence(v@, pat@);
            }
            return None;
        }
        k += 1;
    }
}

/// Whether `pat` occurs in `v`.
pub fn contains_exec(v: &Vec<char>, pat: &Vec<char>) -> (r: bool)
    ensures
        r == contains_seq(v@, pat@),
{
    let r = find_seq(v, pat);
    proof {
        reveal(first_occurrence);
    }
    r.is_some()
}

proof fn lemma_trim_start_step(s: Seq<char>, i: int)
    requires
        0 <= i < s.len(),
        is_ws(s[i]),
    ensures
        trim_start(s.subrange(i, s.len() as int)) == trim_start(s.subrange(i + 1, s.len() as int)),
{
    assert(s.subrange(i, s.len() as int).drop_first() =~= s.subrange(i + 1, s.len() as int));
}

proof fn lemma_trim_end_step(s: Seq<char>, lo: int, j: int)
    requires
        0 <= lo < j <= s.len(),
        is_ws(s[j - 1]),
    ensures
        trim_end(s.subrange(lo, j)) == trim_end(s.subrange(lo, j - 1)),
{
    assert(s.subrange(lo, j).drop_last() =~= s.subrange(lo, j - 1));
}

/// The bounds `(lo, hi)` of `trim(v)` inside `v`.
pub fn trim_bounds(v: &Vec<char>) -> (r: (usize, usize))
    ensures
        r.0 <= r.1 <= v.len(),
        v@.subrange(r.0 as int, r.1 as int) == trim(v@),
{
    let n = v.len();
    let mut i: usize = 0;
    assert(v@.subrange(0, n as int) =~= v@);
    while i < n && is_whitespace(v[i])
        invariant
            i <= n == v.len(),
            trim_start(v@) == trim_start(v@.subrange(i as int, n as int)),
        decreases n - i,
    {
        proof {
            lemma_trim_start_step(v@, i as int);
        }
        i += 1;
    }
    assert(trim_start(v@) == v@.subrange(i as int, n as int));
    let mut j: usize = n;
    while j > i && is_whitespace(v[j - 1])
        invariant
            i <= j <= n == v.len(),
            trim_end(v@.subrange(i as int, n as int)) == trim_end(v@.subrange(i as int, j as int)),
        decreases j,
    {
        proof {
            lemma_trim_end_step(v@, i as int, j as int);
        }
        j -= 1;
    }
    assert(trim_end(v@.subrange(i as int, j as int)) == v@.subrange(i as int, j as int));
    (i, j)
}

/// `s` without leading and trailing whitespace.
pub fn trim_str(s: &str) -> (r: String)
    ensures
        r@ == trim(s@),
{
    let v = chars_of(s);
    let (lo, hi) = trim_bounds(&v);
    string_of_range(&v, lo, hi)
}

/// The pieces of `s` between separators, empty pieces included.
pub fn split_chars(s: &Vec<char>, sep: Separator) -> (parts: Vec<Vec<char>>)
    ensures
        parts@.map_values(|p: Vec<char>| p@) == split_by(s@, sep),
{
    let mut done: Vec<Vec<char>> = Vec::new();
    let mut cur: Vec<char> = Vec::new();
    let mut i: usize = 0;
    assert(s@.take(0) =~= Seq::<char>::empty());
    assert(done@.map_values(|p: Vec<char>| p@).push(cur@) =~= split_by(s@.take(0), sep));
    while i < s.len()
        invariant
            i <= s.len(),
            done@.map_values(|p: Vec<char>| p@).push(cur@) == split_by(s@.take(i as int), sep),
        decreases s.len() - i,
    {
        let c = s[i];
        let is_sep = match sep {
            Separator::Char(d) => c == d,
            Separator::Whitespace => is_whitespace(c),
        };
        let ghost old_done = done@;
        let ghost old_cur = cur@;
        assert(s@.take(i + 1).drop_last() =~= s@.take(i as int));
        assert(s@.take(i + 1).last() == c);
        if is_sep {
            done.push(cur);
            cur = Vec::new();
            assert(done@.map_values(|p: Vec<char>| p@) =~= old_done.map_values(|p: Vec<char>| p@).push(old_cur));
        } else {
            cur.push(c);
            assert(done@.map_values(|p: Vec<char>| p@).push(cur@) =~= old_done.map_values(|p: Vec<char>| p@).push(old_cur).update(
                old_done.len() as int,
                old_cur.push(c),
            ));
        }
        i += 1;
    }
    assert(s@.take(s.len() as int) =~= s@);
    done.push(cur);
    done
}

/// The pieces of `s` between separators, as strings.
pub fn split_str(s: &str, sep: Separator) -> (parts: Vec<String>)
    ensures
        parts@.map_values(|p: String| p@) == split_by(s@, sep),
{
    let v = chars_of(s);
    let pieces = split_chars(&v, sep);
    let mut out: Vec<String> = Vec::new();
    let mut k: usize = 0;
    while k < pieces.len()
        invariant
            k <= pieces.len(),
            out@.map_values(|p: String| p@) == pieces@.take(k as int).map_values(|p: Vec<char>| p@),
        decreases pieces.len() - k,
    {
        let piece = string_of(&pieces[k]);
        out.push(piece);
        assert(pieces@.take(k + 1).map_values(|p: Vec<char>| p@) =~= pieces@.take(k as int).map_values(|p: Vec<char>| p@).push(pieces@[k as int]@));
        assert(out@.map_values(|p: String| p@) =~= pieces@.take(k as int).map_values(|p: Vec<char>| p@).push(pieces@[k as int]@));
        k += 1;
    }
    assert(pieces@.take(pieces.len() as int) =~= pieces@);
    out
}

/// The non-empty whitespace-separated words of `s`.
pub fn split_words(s: &str) -> (ws: Vec<String>)
    ensures
        ws@.map_values(|p: String| p@) == words(s@),
{
    let v = chars_of(s);
    let parts = split_chars(&v, Separator::Whitespace);
    let ghost all = parts@.map_values(|p: Vec<char>| p@);
    let mut out: Vec<String> = Vec::new();
    let mut k: usize = 0;
    while k < parts.len()
        invariant
            k <= parts.len(),
            all == parts@.map_values(|p: Vec<char>| p@),
            out@.map_values(|p: String| p@) == all.take(k as int).filter(|w: Seq<char>| w.len() > 0),
        decreases parts.len() - k,
    {
        let ghost prev = out@.map_values(|p: String| p@);
        assert(all.take(k + 1) =~= all.take(k as int).push(all[k as int]));
        proof { all.take(k as int).lemma_filter_push(all[k as int], |w: Seq<char>| w.len() > 0); }
        if parts[k].len() > 0 {
            let piece = string_of(&parts[k]);
            out.push(piece);
            assert(out@.map_values(|p: String| p@) =~= prev.push(all[k as int]));
        }
        k += 1;
    }
    assert(all.take(parts.len() as int) =~= all);
    out
}

/// The decimal rendering of `n`.
pub fn decimal_string(n: u64) -> (s: String)
    ensures
        s@ == decimal(n as nat),
    decreases n,
{
    let d = n % 10;
    let c = if d == 0 { '0' }
        else if d == 1 { '1' }
        else if d == 2 { '2' }
        else if d == 3 { '3' }
        else if d == 4 { '4' }
        else if d == 5 { '5' }
        else if d == 6 { '6' }
        else if d == 7 { '7' }
        else if d == 8 { '8' }
        else { '9' };
    if n < 10 {
        let mut s = String::new();
        push_char(&mut s, c);
        s
    } else {
        let mut s = decimal_string(n / 10);
        push_char(&mut s, c);
        s
    }
}

proof fn lemma_replace_prefix(text: Seq<char>, pat: Seq<char>, with: Seq<char>, i: int)
    requires
        0 <= i < text.len(),
    ensures
        pat.len() > 0 && starts_with(text.skip(i), pat) ==> replace_all(text.skip(i), pat, with)
            == with + replace_all(text.skip(i + pat.len()), pat, with),
        !(pat.len() > 0 && starts_with(text.skip(i), pat)) ==> replace_all(text.skip(i), pat, with)
            == seq![text[i]] + replace_all(text.skip(i + 1), pat, with),
{
    assert(text.skip(i).drop_first() =~= text.skip(i + 1));
    if pat.len() > 0 && starts_with(text.skip(i), pat) {
        assert(text.skip(i).skip(pat.len() as int) =~= text.skip(i + pat.len()));
    }
}

/// Replacing leaves a leading part alone that holds no character starting `pat`.
pub proof fn lemma_replace_plain_prefix(u: Seq<char>, v: Seq<char>, pat: Seq<char>, with: Seq<char>)
    requires
        pat.len() > 0,
        forall|i: int| 0 <= i < u.len() ==> #[trigger] u[i] != pat[0],
    ensures
        replace_all(u + v, pat, with) == u + replace_all(v, pat, with),
    decreases u.len(),
{
    if u.len() > 0 {
        let x = u + v;
        assert(x[0] == u[0]);
        assert(!starts_with(x, pat)) by {
            if starts_with(x, pat) {
                assert(x.take(pat.len() as int)[0] == pat[0]);
            }
        }
        assert(x.drop_first() =~= u.drop_first() + v);
        lemma_replace_plain_prefix(u.drop_first(), v, pat, with);
        assert(seq![u[0]] + (u.drop_first() + replace_all(v, pat, with)) =~= u + replace_all(v, pat, with));
    } else {
        assert(u + v =~= v);
        assert(u + replace_all(v, pat, with) =~= replace_all(v, pat, with));
    }
}

/// Replacing in a text that starts with `pat` puts `with` first.
pub proof fn lemma_replace_at_start(v: Seq<char>, pat: Seq<char>, with: Seq<char>)
    requires
        pat.len() > 0,
    ensures
        replace_all(pat + v, pat, with) == with + replace_all(v, pat, with),
{
    let x = pat + v;
    assert(x.take(pat.len() as int) =~= pat);
    assert(x.skip(pat.len() as int) =~= v);
}

/// A text holding no character starting `pat` is left as it is.
pub proof fn lemma_replace_plain(u: Seq<char>, pat: Seq<char>, with: Seq<char>)
    requires
        pat.len() > 0,
        forall|i: int| 0 <= i < u.len() ==> #[trigger] u[i] != pat[0],
    ensures
        replace_all(u, pat, with) == u,
{
    lemma_replace_plain_prefix(u, Seq::empty(), pat, with);
    assert(u + Seq::<char>::empty() =~= u);
    assert(u + replace_all(Seq::<char>::empty(), pat, with) =~= u);
}

/// An occurrence inside `y` is an occurrence inside `x + y + z`, shifted by `x`.
pub proof fn lemma_occurs_in_middle(x: Seq<char>, y: Seq<char>, z: Seq<char>, pat: Seq<char>, k: int)
    requires
        occurs_at(y, pat, k),
    ensures
        occurs_at(x + y + z, pat, x.len() + k),
        contains_seq(x + y + z, pat),
{
    let m = x + y + z;
    assert(m.subrange(x.len() + k, x.len() + k + pat.len()) =~= y.subrange(k, k + pat.len()));
}

/// `text` with every occurrence of `pat` replaced by `with`.
pub fn replace_str(text: &str, pat: &str, with: &str) -> (r: String)
    ensures
        r@ == replace_all(text@, pat@, with@),
{
    let t = chars_of(text);
    let p = chars_of(pat);
    let mut out = String::new();
    let mut i: usize = 0;
    let n = t.len();
    assert(t@.skip(0) =~= t@);
    while i < n
        invariant
            i <= n == t.len(),
            t@ == text@,
            p@ == pat@,
            out@ + replace_all(t@.skip(i as int), p@, with@) == replace_all(t@, p@, with@),
        decreases n - i,
    {
        let hit = p.len() > 0 && p.len() <= n - i && occurs_at_exec(&t, &p, i);
        proof {
            lemma_replace_prefix(t@, p@, with@, i as int);
            if p@.len() <= n - i {
                assert(t@.skip(i as int).take(p@.len() as int) =~= t@.subrange(i as int, i + p@.len()));
            }
        }
        if hit {
            let ghost before = out@;
            out.append(with);
            assert(out@ + replace_all(t@.skip(i + p@.len()), p@, with@) =~= before + (with@ + replace_all(t@.skip(i + p@.len()), p@, with@)));
            i = i + p.len();
        } else {
            let ghost before = out@;
            push_char(&mut out, t[i]);
            assert(out@ + replace_all(t@.skip(i + 1), p@, with@) =~= before + (seq![t@[i as int]] + replace_all(t@.skip(i + 1), p@, with@)));
            i = i + 1;
        }
    }
    assert(t@.skip(n as int) =~= Seq::<char>::empty());
    assert(out@ =~= out@ + replace_all(t@.skip(n as int), p@, with@));
    out
}

} // verus!
