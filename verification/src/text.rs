//! Character-sequence helpers shared by the parsers: whitespace, trimming,
//! line and word splitting, prefix handling, substring replacement and
//! decimal rendering of integers, each with a specification over `Seq<char>`.
use vstd::prelude::*;

verus! {

// ───────────────────────── strings and characters ─────────────────────────

/// Appends one character to a string (`String::push`).
#[verifier::external_body]
pub(crate) fn push_char(s: &mut String, c: char)
    ensures
        final(s)@ == old(s)@.push(c),
{
    s.push(c);
}

/// The characters of `s`, in order.
pub fn chars_of(s: &str) -> (r: Vec<char>)
    ensures
        r@ == s@,
{
    let mut r: Vec<char> = Vec::new();
    for c in it: s.chars()
        invariant
            r@ == it.seq().take(it.index() as int),
    {
        r.push(c);
    }
    r
}

/// A string holding the characters of `v`, in order.
pub fn string_of(v: &[char]) -> (r: String)
    ensures
        r@ == v@,
{
    let mut r = String::new();
    let mut i: usize = 0;
    while i < v.len()
        invariant
            i <= v@.len(),
            r@ == v@.take(i as int),
        decreases v@.len() - i,
    {
        push_char(&mut r, v[i]);
        assert(v@.take(i + 1) =~= v@.take(i as int).push(v@[i as int]));
        i += 1;
    }
    assert(v@.take(v@.len() as int) =~= v@);
    r
}

/// The characters of `v` from `start` (inclusive) to `end` (exclusive).
pub fn slice_string(v: &[char], start: usize, end: usize) -> (r: String)
    requires
        start <= end <= v@.len(),
    ensures
        r@ == v@.subrange(start as int, end as int),
{
    let mut r = String::new();
    let mut i: usize = start;
    while i < end
        invariant
            start <= i <= end <= v@.len(),
            r@ == v@.subrange(start as int, i as int),
        decreases end - i,
    {
        push_char(&mut r, v[i]);
        assert(v@.subrange(start as int, i + 1) =~= v@.subrange(start as int, i as int).push(
            v@[i as int],
        ));
        i += 1;
    }
    r
}

/// Appends the characters of `v` to `s`.
pub fn append_chars(s: &mut String, v: &[char])
    ensures
        final(s)@ == old(s)@ + v@,
{
    let mut i: usize = 0;
    while i < v.len()
        invariant
            i <= v@.len(),
            s@ == old(s)@ + v@.take(i as int),
        decreases v@.len() - i,
    {
        push_char(s, v[i]);
        assert(v@.take(i + 1) =~= v@.take(i as int).push(v@[i as int]));
        i += 1;
    }
    assert(v@.take(v@.len() as int) =~= v@);
}

// ───────────────────────────── whitespace ─────────────────────────────

/// Unicode `White_Space`, the set that `char::is_whitespace` tests.
pub open spec fn is_ws(c: char) -> bool {
    ||| c == '\t'
    ||| c == '\n'
    ||| c == '\u{0B}'
    ||| c == '\u{0C}'
    ||| c == '\r'
    ||| c == ' '
    ||| c == '\u{85}'
    ||| c == '\u{A0}'
    ||| c == '\u{1680}'
    ||| ('\u{2000}' <= c && c <= '\u{200A}')
    ||| c == '\u{2028}'
    ||| c == '\u{2029}'
    ||| c == '\u{202F}'
    ||| c == '\u{205F}'
    ||| c == '\u{3000}'
}

/// Whether `c` is Unicode whitespace.
pub fn is_whitespace(c: char) -> (r: bool)
    ensures
        r == is_ws(c),
{
    c == '\t' || c == '\n' || c == '\u{0B}' || c == '\u{0C}' || c == '\r' || c == ' ' || c
        == '\u{85}' || c == '\u{A0}' || c == '\u{1680}' || ('\u{2000}' <= c && c <= '\u{200A}')
        || c == '\u{2028}' || c == '\u{2029}' || c == '\u{202F}' || c == '\u{205F}' || c
        == '\u{3000}'
}

/// `s` without its leading whitespace (`str::trim_start`).
pub open spec fn trim_start(s: Seq<char>) -> Seq<char>
    decreases s.len(),
{
    if s.len() > 0 && is_ws(s[0]) {
        trim_start(s.drop_first())
    } else {
        s
    }
}

/// `s` without its trailing whitespace (`str::trim_end`).
pub open spec fn trim_end(s: Seq<char>) -> Seq<char>
    decreases s.len(),
{
    if s.len() > 0 && is_ws(s.last()) {
        trim_end(s.drop_last())
    } else {
        s
    }
}

/// `s` without leading and trailing whitespace (`str::trim`).
pub open spec fn trim(s: Seq<char>) -> Seq<char> {
    trim_end(trim_start(s))
}

/// The bounds `(start, end)` of `trim(v)` inside `v`.
pub fn trim_bounds(v: &[char]) -> (r: (usize, usize))
    ensures
        r.0 <= r.1 <= v@.len(),
        trim(v@) == v@.subrange(r.0 as int, r.1 as int),
{
    let mut a: usize = 0;
    assert(v@.skip(0) =~= v@);
    while a < v.len() && is_whitespace(v[a])
        invariant
            a <= v@.len(),
            trim_start(v@) == trim_start(v@.skip(a as int)),
        decreases v@.len() - a,
    {
        assert(v@.skip(a as int).drop_first() =~= v@.skip(a + 1));
        a += 1;
    }
    assert(trim_start(v@.skip(a as int)) == v@.skip(a as int));
    let mut b: usize = v.len();
    while b > a && is_whitespace(v[b - 1])
        invariant
            a <= b <= v@.len(),
            trim(v@) == trim_end(v@.subrange(a as int, b as int)),
        decreases b,
    {
        assert(v@.subrange(a as int, b as int).drop_last() =~= v@.subrange(a as int, b - 1));
        b -= 1;
    }
    assert(v@.skip(a as int) =~= v@.subrange(a as int, v@.len() as int));
    proof {
        lemma_trim_end_fixed(v@, a as int, b as int);
    }
    (a, b)
}

proof fn lemma_trim_end_fixed(s: Seq<char>, a: int, b: int)
    requires
        0 <= a <= b <= s.len(),
        b > a ==> !is_ws(s[b - 1]),
    ensures
        trim_end(s.subrange(a, b)) == s.subrange(a, b),
{
}

/// Whether `v` holds nothing but whitespace (`str::trim(..).is_empty()`).
pub fn is_blank(v: &[char]) -> (r: bool)
    ensures
        r == (trim(v@).len() == 0),
{
    let (a, b) = trim_bounds(v);
    a == b
}


/// A vector holding `v[start..end]`.
pub fn sub_chars(v: &[char], start: usize, end: usize) -> (r: Vec<char>)
    requires
        start <= end <= v@.len(),
    ensures
        r@ == v@.subrange(start as int, end as int),
{
    let mut r: Vec<char> = Vec::new();
    let mut i: usize = start;
    while i < end
        invariant
            start <= i <= end <= v@.len(),
            r@ == v@.subrange(start as int, i as int),
        decreases end - i,
    {
        r.push(v[i]);
        assert(v@.subrange(start as int, i + 1) =~= v@.subrange(start as int, i as int).push(
            v@[i as int],
        ));
        i += 1;
    }
    r
}

/// The views of a sequence of character vectors.
pub open spec fn views(s: Seq<Vec<char>>) -> Seq<Seq<char>> {
    s.map_values(|x: Vec<char>| x@)
}

// ──────────────────────────────── lines ────────────────────────────────

/// Index of the first `'\n'` in `s`, or `s.len()` when there is none.
pub open spec fn line_end(s: Seq<char>) -> int
    decreases s.len(),
{
    if s.len() == 0 || s[0] == '\n' {
        0
    } else {
        1 + line_end(s.drop_first())
    }
}

/// The first line of `s` ends at the first newline, or at the end of `s`.
pub proof fn lemma_line_end(s: Seq<char>)
    ensures
        0 <= line_end(s) <= s.len(),
        line_end(s) < s.len() ==> s[line_end(s)] == '\n',
        forall|i: int| 0 <= i < line_end(s) ==> #[trigger] s[i] != '\n',
    decreases s.len(),
{
    if s.len() > 0 && s[0] != '\n' {
        lemma_line_end(s.drop_first());
        assert forall|i: int| 0 <= i < line_end(s) implies #[trigger] s[i] != '\n' by {
            if i > 0 {
                assert(s[i] == s.drop_first()[i - 1]);
            }
        }
    }
}

/// A line without the `'\r'` that ended it together with `'\n'`.
pub open spec fn strip_cr(line: Seq<char>) -> Seq<char> {
    if line.len() > 0 && line.last() == '\r' {
        line.drop_last()
    } else {
        line
    }
}

/// The lines of `s` as `str::lines` yields them: split at `'\n'`, a `'\r'`
/// right before the `'\n'` dropped, and no empty line after a final `'\n'`.
pub open spec fn lines(s: Seq<char>) -> Seq<Seq<char>>
    decreases s.len(),
{
    if s.len() == 0 {
        seq![]
    } else {
        let k = line_end(s);
        proof {
            lemma_line_end(s);
        }
        if k >= s.len() {
            seq![s]
        } else {
            seq![strip_cr(s.take(k))] + lines(s.skip(k + 1))
        }
    }
}

/// The lines of `v` (`str::lines`).
pub fn split_lines(v: &[char]) -> (r: Vec<Vec<char>>)
    ensures
        views(r@) == lines(v@),
{
    let n = v.len();
    let mut out: Vec<Vec<char>> = Vec::new();
    let mut pos: usize = 0;
    assert(v@.skip(0) =~= v@);
    while pos < n
        invariant
            n == v@.len(),
            pos <= n,
            lines(v@) == views(out@) + lines(v@.skip(pos as int)),
        decreases n - pos,
    {
        let ghost rest = v@.skip(pos as int);
        let mut j: usize = pos;
        while j < n && v[j] != '\n'
            invariant
                pos <= j <= n,
                n == v@.len(),
                rest == v@.skip(pos as int),
                line_end(rest) == (j - pos) + line_end(v@.skip(j as int)),
            decreases n - j,
        {
            assert(v@.skip(j as int).drop_first() =~= v@.skip(j + 1));
            j += 1;
        }
        proof {
            lemma_line_end(rest);
        }
        let ghost old_out = views(out@);
        if j == n {
            assert(rest =~= v@.subrange(pos as int, n as int));
            let line = sub_chars(v, pos, n);
            out.push(line);
            assert(views(out@) =~= old_out.push(rest));
            assert(v@.skip(n as int) =~= Seq::<char>::empty());
            pos = n;
        } else {
            let mut e: usize = j;
            if e > pos && v[e - 1] == '\r' {
                e = e - 1;
            }
            assert(rest.take(j - pos) =~= v@.subrange(pos as int, j as int));
            assert(strip_cr(rest.take(j - pos)) =~= v@.subrange(pos as int, e as int));
            let line = sub_chars(v, pos, e);
            out.push(line);
            assert(views(out@) =~= old_out.push(strip_cr(rest.take(j - pos))));
            assert(rest.skip(j - pos + 1) =~= v@.skip(j + 1));
            pos = j + 1;
        }
    }
    assert(v@.skip(n as int) =~= Seq::<char>::empty());
    assert(views(out@) + Seq::<Seq<char>>::empty() =~= views(out@));
    out
}

// ──────────────────────────────── words ────────────────────────────────

/// Length of the run of non-whitespace characters at the start of `s`.
pub open spec fn word_len(s: Seq<char>) -> int
    decreases s.len(),
{
    if s.len() == 0 || is_ws(s[0]) {
        0
    } else {
        1 + word_len(s.drop_first())
    }
}

/// A word runs up to the first whitespace, and is not empty when `s`
/// starts with a non-whitespace character.
pub proof fn lemma_word_len(s: Seq<char>)
    ensures
        0 <= word_len(s) <= s.len(),
        word_len(s) < s.len() ==> is_ws(s[word_len(s)]),
        forall|i: int| 0 <= i < word_len(s) ==> !is_ws(#[trigger] s[i]),
        s.len() > 0 && !is_ws(s[0]) ==> word_len(s) >= 1,
    decreases s.len(),
{
    if s.len() > 0 && !is_ws(s[0]) {
        lemma_word_len(s.drop_first());
        assert forall|i: int| 0 <= i < word_len(s) implies !is_ws(#[trigger] s[i]) by {
            if i > 0 {
                assert(s[i] == s.drop_first()[i - 1]);
            }
        }
    }
}

/// The whitespace-separated words of `s` (`str::split_whitespace`).
pub open spec fn words(s: Seq<char>) -> Seq<Seq<char>>
    decreases s.len(),
{
    if s.len() == 0 {
        seq![]
    } else if is_ws(s[0]) {
        words(s.drop_first())
    } else {
        let k = word_len(s);
        proof {
            lemma_word_len(s);
        }
        seq![s.take(k)] + words(s.skip(k))
    }
}

/// The whitespace-separated words of `v` (`str::split_whitespace`).
pub fn split_words(v: &[char]) -> (r: Vec<Vec<char>>)
    ensures
        views(r@) == words(v@),
{
    let n = v.len();
    let mut out: Vec<Vec<char>> = Vec::new();
    let mut pos: usize = 0;
    assert(v@.skip(0) =~= v@);
    while pos < n
        invariant
            n == v@.len(),
            pos <= n,
            words(v@) == views(out@) + words(v@.skip(pos as int)),
        decreases n - pos,
    {
        let ghost rest = v@.skip(pos as int);
        if is_whitespace(v[pos]) {
            assert(rest.drop_first() =~= v@.skip(pos + 1));
            pos += 1;
        } else {
            let mut j: usize = pos;
            while j < n && !is_whitespace(v[j])
                invariant
                    pos <= j <= n,
                    n == v@.len(),
                    rest == v@.skip(pos as int),
                    word_len(rest) == (j - pos) + word_len(v@.skip(j as int)),
                decreases n - j,
            {
                assert(v@.skip(j as int).drop_first() =~= v@.skip(j + 1));
                j += 1;
            }
            assert(word_len(v@.skip(j as int)) == 0);
            let ghost old_out = views(out@);
            let word = sub_chars(v, pos, j);
            out.push(word);
            assert(rest.take(j - pos) =~= v@.subrange(pos as int, j as int));
            assert(views(out@) =~= old_out.push(rest.take(j - pos)));
            assert(rest.skip(j - pos) =~= v@.skip(j as int));
            pos = j;
        }
    }
    assert(v@.skip(n as int) =~= Seq::<char>::empty());
    assert(views(out@) + Seq::<Seq<char>>::empty() =~= views(out@));
    out
}


// ─────────────────────────── prefixes and suffixes ───────────────────────────

/// Whether `s` begins with `p`.
pub open spec fn starts_with(s: Seq<char>, p: Seq<char>) -> bool {
    p.len() <= s.len() && s.take(p.len() as int) == p
}

/// Whether `s` holds `p` at position `i`.
pub open spec fn occurs_at(s: Seq<char>, p: Seq<char>, i: int) -> bool {
    0 <= i && i + p.len() <= s.len() && s.subrange(i, i + p.len()) == p
}

/// Whether `v` holds `p` at position `i`.
pub fn matches_at(v: &[char], p: &[char], i: usize) -> (r: bool)
    ensures
        r == occurs_at(v@, p@, i as int),
{
    if i > v.len() || p.len() > v.len() - i {
        return false;
    }
    let mut k: usize = 0;
    while k < p.len()
        invariant
            i + p@.len() <= v@.len(),
            v@.len() == v.len(),
            k <= p@.len(),
            forall|m: int| 0 <= m < k ==> v@[i + m] == p@[m],
        decreases p@.len() - k,
    {
        if v[i + k] != p[k] {
            assert(v@.subrange(i as int, i + p@.len())[k as int] != p@[k as int]);
            return false;
        }
        k += 1;
    }
    assert(v@.subrange(i as int, i + p@.len()) =~= p@);
    true
}

/// Whether `v` begins with `p`.
pub fn has_prefix(v: &[char], p: &[char]) -> (r: bool)
    ensures
        r == starts_with(v@, p@),
{
    let r = matches_at(v, p, 0);
    assert(v@.take(p@.len() as int) =~= v@.subrange(0, p@.len() as int));
    r
}

/// `s` with every leading copy of `p` removed (`str::trim_start_matches`).
pub open spec fn strip_prefix_all(s: Seq<char>, p: Seq<char>) -> Seq<char>
    decreases s.len(),
{
    if p.len() > 0 && starts_with(s, p) {
        strip_prefix_all(s.skip(p.len() as int), p)
    } else {
        s
    }
}

/// `v` with every leading copy of `p` removed (`str::trim_start_matches`).
pub fn trim_start_matches(v: &[char], p: &[char]) -> (r: Vec<char>)
    ensures
        r@ == strip_prefix_all(v@, p@),
{
    let n = v.len();
    let mut pos: usize = 0;
    assert(v@.skip(0) =~= v@);
    if p.len() > 0 {
        while pos < n && matches_at(v, p, pos)
            invariant
                p@.len() > 0,
                n == v@.len(),
                pos <= n,
                strip_prefix_all(v@, p@) == strip_prefix_all(v@.skip(pos as int), p@),
            decreases n - pos,
        {
            assert(v@.skip(pos as int).take(p@.len() as int) =~= v@.subrange(
                pos as int,
                pos + p@.len(),
            ));
            assert(v@.skip(pos as int).skip(p@.len() as int) =~= v@.skip(pos + p@.len()));
            pos = pos + p.len();
        }
        assert(v@.skip(pos as int).take(p@.len() as int) =~= v@.subrange(
            pos as int,
            pos + p@.len(),
        ) || p@.len() > v@.skip(pos as int).len());
    }
    assert(v@.skip(pos as int) =~= v@.subrange(pos as int, n as int));
    sub_chars(v, pos, n)
}

/// `s` with every trailing `c` removed (`str::trim_end_matches` with a char).
pub open spec fn strip_suffix_char_all(s: Seq<char>, c: char) -> Seq<char>
    decreases s.len(),
{
    if s.len() > 0 && s.last() == c {
        strip_suffix_char_all(s.drop_last(), c)
    } else {
        s
    }
}

/// `v` with every trailing `c` removed (`str::trim_end_matches` with a char).
pub fn trim_end_char(v: &[char], c: char) -> (r: Vec<char>)
    ensures
        r@ == strip_suffix_char_all(v@, c),
{
    let mut e: usize = v.len();
    assert(v@.take(e as int) =~= v@);
    while e > 0 && v[e - 1] == c
        invariant
            e <= v@.len(),
            strip_suffix_char_all(v@, c) == strip_suffix_char_all(v@.take(e as int), c),
        decreases e,
    {
        assert(v@.take(e as int).drop_last() =~= v@.take(e - 1));
        e -= 1;
    }
    assert(v@.take(e as int) =~= v@.subrange(0, e as int));
    sub_chars(v, 0, e)
}

// ──────────────────────────── searching ────────────────────────────

/// The first position at or after `i` at which `p` occurs in `s`.
pub open spec fn find_from(s: Seq<char>, p: Seq<char>, i: int) -> Option<int>
    decreases s.len() + 1 - i,
{
    if i < 0 || i > s.len() {
        None
    } else if occurs_at(s, p, i) {
        Some(i)
    } else {
        find_from(s, p, i + 1)
    }
}

/// The first position at which `p` occurs in `s`, if any (`str::find`).
pub open spec fn find_seq(s: Seq<char>, p: Seq<char>) -> Option<int> {
    find_from(s, p, 0)
}

/// Whether `p` occurs somewhere in `s` (`str::contains`).
pub open spec fn contains_seq(s: Seq<char>, p: Seq<char>) -> bool {
    find_seq(s, p) is Some
}

/// `find_from` gives the leftmost occurrence at or after `i`.
pub proof fn lemma_find_from(s: Seq<char>, p: Seq<char>, i: int)
    requires
        0 <= i,
    ensures
        match find_from(s, p, i) {
            Some(k) => i <= k && occurs_at(s, p, k) && forall|j: int|
                i <= j < k ==> !occurs_at(s, p, j),
            None => forall|j: int| i <= j ==> !occurs_at(s, p, j),
        },
    decreases s.len() + 1 - i,
{
    if i <= s.len() && !occurs_at(s, p, i) {
        lemma_find_from(s, p, i + 1);
        assert forall|j: int| i <= j && (find_from(s, p, i) is None || j < find_from(s, p, i)->0)
            implies !occurs_at(s, p, j) by {
            if j > i {
            }
        }
    }
}

/// The first position at which `p` occurs in `v`, if any (`str::find`).
pub fn find_chars(v: &[char], p: &[char]) -> (r: Option<usize>)
    ensures
        match r {
            Some(i) => find_seq(v@, p@) == Some(i as int),
            None => find_seq(v@, p@) is None,
        },
{
    let n = v.len();
    let mut i: usize = 0;
    while i <= n
        invariant
            n == v@.len(),
            i <= n + 1,
            find_seq(v@, p@) == find_from(v@, p@, i as int),
        decreases n + 1 - i,
    {
        if matches_at(v, p, i) {
            return Some(i);
        }
        if i == n {
            assert(find_from(v@, p@, (n + 1) as int) is None);
            return None;
        }
        i += 1;
    }
    None
}

/// Whether `p` occurs in `v` (`str::contains`).
pub fn contains_chars(v: &[char], p: &[char]) -> (r: bool)
    ensures
        r == contains_seq(v@, p@),
{
    match find_chars(v, p) {
        Some(_) => true,
        None => false,
    }
}

// ──────────────────────────── replacement ────────────────────────────

/// `s` with every non-overlapping occurrence of the non-empty `p`, taken from
/// the left, replaced by `r` (`str::replace`).
pub open spec fn replace_all(s: Seq<char>, p: Seq<char>, r: Seq<char>) -> Seq<char>
    decreases s.len(),
{
    if p.len() == 0 || s.len() < p.len() {
        s
    } else if s.take(p.len() as int) == p {
        r + replace_all(s.skip(p.len() as int), p, r)
    } else {
        seq![s[0]] + replace_all(s.drop_first(), p, r)
    }
}

/// `v` with every occurrence of the non-empty `p` replaced by `rep` (`str::replace`).
pub fn replace_chars(v: &[char], p: &[char], rep: &[char]) -> (r: Vec<char>)
    requires
        p@.len() > 0,
    ensures
        r@ == replace_all(v@, p@, rep@),
{
    let n = v.len();
    let mut out: Vec<char> = Vec::new();
    let mut pos: usize = 0;
    assert(v@.skip(0) =~= v@);
    while pos < n
        invariant
            p@.len() > 0,
            n == v@.len(),
            pos <= n,
            replace_all(v@, p@, rep@) == out@ + replace_all(v@.skip(pos as int), p@, rep@),
        decreases n - pos,
    {
        let ghost rest = v@.skip(pos as int);
        if matches_at(v, p, pos) {
            assert(rest.take(p@.len() as int) =~= v@.subrange(pos as int, pos + p@.len()));
            assert(rest.skip(p@.len() as int) =~= v@.skip(pos + p@.len()));
            let ghost old_out = out@;
            let mut k: usize = 0;
            while k < rep.len()
                invariant
                    k <= rep@.len(),
                    out@ == old_out + rep@.take(k as int),
                decreases rep@.len() - k,
            {
                out.push(rep[k]);
                assert(rep@.take(k + 1) =~= rep@.take(k as int).push(rep@[k as int]));
                k += 1;
            }
            assert(rep@.take(rep@.len() as int) =~= rep@);
            assert(out@ + replace_all(v@.skip(pos + p@.len()), p@, rep@) =~= old_out + (rep@
                + replace_all(v@.skip(pos + p@.len()), p@, rep@)));
            pos = pos + p.len();
        } else {
            assert(rest.len() < p@.len() || rest.take(p@.len() as int) != p@) by {
                if rest.len() >= p@.len() {
                    assert(rest.take(p@.len() as int) =~= v@.subrange(pos as int, pos + p@.len()));
                }
            }
            assert(rest.drop_first() =~= v@.skip(pos + 1));
            let ghost old_out = out@;
            out.push(v[pos]);
            proof {
                if rest.len() < p@.len() {
                    assert(replace_all(rest, p@, rep@) == rest);
                    assert(replace_all(rest.drop_first(), p@, rep@) == rest.drop_first());
                    assert(rest =~= seq![rest[0]] + rest.drop_first());
                }
            }
            assert(out@ + replace_all(v@.skip(pos + 1), p@, rep@) =~= old_out + (seq![v@[pos as int]]
                + replace_all(v@.skip(pos + 1), p@, rep@)));
            pos += 1;
        }
    }
    assert(v@.skip(n as int) =~= Seq::<char>::empty());
    assert(out@ + Seq::<char>::empty() =~= out@);
    out
}


// ──────────────────────────── decimal numbers ────────────────────────────

/// The ASCII digit for `d` (`0 <= d < 10`).
pub open spec fn digit_char(d: int) -> char {
    (d + 48) as char
}

/// The decimal representation of `n`, without leading zeros.
pub open spec fn decimal(n: nat) -> Seq<char>
    decreases n,
{
    if n < 10 {
        seq![digit_char(n as int)]
    } else {
        decimal(n / 10).push(digit_char((n % 10) as int))
    }
}

/// The decimal representation of `i` as `Display` writes it.
pub open spec fn int_decimal(i: int) -> Seq<char> {
    if i < 0 {
        seq!['-'] + decimal((-i) as nat)
    } else {
        decimal(i as nat)
    }
}

fn digit_to_char(d: u64) -> (c: char)
    requires
        d < 10,
    ensures
        c == digit_char(d as int),
{
    let b: u8 = (d as u8) + 48u8;
    b as char
}

/// The decimal digits of `n`.
pub fn u64_decimal(n: u64) -> (r: Vec<char>)
    ensures
        r@ == decimal(n as nat),
{
    let mut acc: Vec<char> = Vec::new();
    let mut m: u64 = n;
    assert(decimal(n as nat) =~= decimal(m as nat) + acc@);
    while m >= 10
        invariant
            decimal(n as nat) == decimal(m as nat) + acc@,
        decreases m,
    {
        let d = digit_to_char(m % 10);
        let ghost old_acc = acc@;
        acc.insert(0, d);
        assert(acc@ =~= seq![d] + old_acc);
        assert(decimal(m as nat) == decimal((m / 10) as nat).push(digit_char((m % 10) as int)));
        assert(decimal((m / 10) as nat) + acc@ =~= decimal((m / 10) as nat).push(d) + old_acc);
        m = m / 10;
    }
    let d = digit_to_char(m);
    let ghost old_acc = acc@;
    acc.insert(0, d);
    assert(acc@ =~= seq![d] + old_acc);
    acc
}

/// `n` written in decimal (`u64::to_string`).
pub fn u64_to_string(n: u64) -> (r: String)
    ensures
        r@ == decimal(n as nat),
{
    let v = u64_decimal(n);
    string_of(v.as_slice())
}

/// `i` written in decimal (`i64::to_string`).
pub fn i64_to_string(i: i64) -> (r: String)
    ensures
        r@ == int_decimal(i as int),
{
    if i < 0 {
        let mag: u64 = if i == i64::MIN {
            9223372036854775808u64
        } else {
            (-i) as u64
        };
        let v = u64_decimal(mag);
        let mut r = String::new();
        push_char(&mut r, '-');
        append_chars(&mut r, v.as_slice());
        r
    } else {
        u64_to_string(i as u64)
    }
}

/// Whether `c` is an ASCII digit.
pub open spec fn is_digit(c: char) -> bool {
    '0' <= c && c <= '9'
}

/// Whether every character of `s` is an ASCII digit.
pub open spec fn all_digits(s: Seq<char>) -> bool {
    forall|i: int| 0 <= i < s.len() ==> is_digit(#[trigger] s[i])
}

/// The value of a string of decimal digits.
pub open spec fn digits_value(s: Seq<char>) -> nat
    decreases s.len(),
{
    if s.len() == 0 {
        0
    } else {
        digits_value(s.drop_last()) * 10 + ((s.last() as int - 48) as nat)
    }
}

/// The digits of an integer literal after an optional leading sign.
pub open spec fn unsigned_digits(s: Seq<char>) -> Seq<char> {
    if s.len() > 0 && s[0] == '+' {
        s.drop_first()
    } else {
        s
    }
}

/// What `str::parse::<u32>` gives: an optional `+`, then one or more ASCII
/// digits whose value fits in a `u32`.
pub open spec fn parse_u32(s: Seq<char>) -> Option<u32> {
    let d = unsigned_digits(s);
    if d.len() > 0 && all_digits(d) && digits_value(d) <= u32::MAX {
        Some(digits_value(d) as u32)
    } else {
        None
    }
}

/// What `str::parse::<i32>` gives: an optional `+` or `-`, then one or more
/// ASCII digits whose signed value fits in an `i32`.
pub open spec fn parse_i32(s: Seq<char>) -> Option<i32> {
    let neg = s.len() > 0 && s[0] == '-';
    let d = if s.len() > 0 && (s[0] == '+' || s[0] == '-') {
        s.drop_first()
    } else {
        s
    };
    let v: int = if neg {
        -(digits_value(d) as int)
    } else {
        digits_value(d) as int
    };
    if d.len() > 0 && all_digits(d) && i32::MIN <= v <= i32::MAX {
        Some(v as i32)
    } else {
        None
    }
}

proof fn lemma_digits_value_step(s: Seq<char>, i: int)
    requires
        0 <= i < s.len(),
    ensures
        digits_value(s.take(i + 1)) == digits_value(s.take(i)) * 10 + ((s[i] as int - 48) as nat),
{
    assert(s.take(i + 1).drop_last() =~= s.take(i));
}

/// Scans `v[start..]` as decimal digits. Returns `None` when a character is
/// not a digit, `Some(None)` when the value exceeds `limit`, and
/// `Some(Some(value))` otherwise.
fn scan_digits(v: &[char], start: usize, limit: u64) -> (r: Option<Option<u64>>)
    requires
        start <= v@.len(),
        limit < 0x1_0000_0000_0000,
    ensures
        ({
            let d = v@.skip(start as int);
            match r {
                None => !all_digits(d),
                Some(None) => all_digits(d) && digits_value(d) > limit,
                Some(Some(x)) => all_digits(d) && digits_value(d) == x && x <= limit,
            }
        }),
{
    let ghost d = v@.skip(start as int);
    let mut acc: u64 = 0;
    let mut over = false;
    let mut i: usize = start;
    assert(d.take(0) =~= Seq::<char>::empty());
    while i < v.len()
        invariant
            start <= i <= v@.len(),
            d == v@.skip(start as int),
            limit < 0x1_0000_0000_0000,
            all_digits(d.take(i - start)),
            !over ==> acc == digits_value(d.take(i - start)) && acc <= limit,
            over ==> digits_value(d.take(i - start)) > limit,
        decreases v@.len() - i,
    {
        let c = v[i];
        if !('0' <= c && c <= '9') {
            assert(d[i - start] == c);
            return None;
        }
        proof {
            lemma_digits_value_step(d, i - start);
        }
        assert(d[i - start] == c);
        if !over {
            let dv: u64 = ((c as u32) - 48) as u64;
            acc = acc * 10 + dv;
            if acc > limit {
                over = true;
            }
        }
        assert(all_digits(d.take(i - start + 1))) by {
            assert forall|k: int| 0 <= k < i - start + 1 implies is_digit(
                #[trigger] d.take(i - start + 1)[k],
            ) by {
                if k < i - start {
                    assert(d.take(i - start + 1)[k] == d.take(i - start)[k]);
                }
            }
        }
        i += 1;
    }
    assert(d.take(i - start) =~= d);
    if over {
        Some(None)
    } else {
        Some(Some(acc))
    }
}

/// Parses an unsigned 32-bit integer (`str::parse::<u32>`).
pub fn parse_u32_chars(v: &[char]) -> (r: Option<u32>)
    ensures
        r == parse_u32(v@),
{
    let start: usize = if v.len() > 0 && v[0] == '+' {
        1
    } else {
        0
    };
    assert(unsigned_digits(v@) =~= v@.skip(start as int));
    if start >= v.len() {
        return None;
    }
    match scan_digits(v, start, 0xffff_ffff) {
        Some(Some(x)) => Some(x as u32),
        _ => None,
    }
}

/// Parses a signed 32-bit integer (`str::parse::<i32>`).
pub fn parse_i32_chars(v: &[char]) -> (r: Option<i32>)
    ensures
        r == parse_i32(v@),
{
    let signed = v.len() > 0 && (v[0] == '+' || v[0] == '-');
    let neg = v.len() > 0 && v[0] == '-';
    let start: usize = if signed {
        1
    } else {
        0
    };
    assert(v@.skip(start as int) =~= (if v@.len() > 0 && (v@[0] == '+' || v@[0] == '-') {
        v@.drop_first()
    } else {
        v@
    }));
    if start >= v.len() {
        return None;
    }
    let limit: u64 = if neg {
        0x8000_0000
    } else {
        0x7fff_ffff
    };
    match scan_digits(v, start, limit) {
        Some(Some(x)) => {
            if neg {
                Some((0 - (x as i64)) as i32)
            } else {
                Some(x as i32)
            }
        },
        _ => None,
    }
}


/// The views of a sequence of strings.
pub open spec fn string_views(v: Seq<String>) -> Seq<Seq<char>> {
    v.map_values(|s: String| s@)
}

/// The view of an optional string.
pub open spec fn opt_view(o: Option<String>) -> Option<Seq<char>> {
    match o {
        Some(s) => Some(s@),
        None => None,
    }
}

/// A string holding the characters of `s`.
pub fn owned(s: &str) -> (r: String)
    ensures
        r@ == s@,
{
    String::from_str(s)
}


/// Whether `s` ends with `p`.
pub open spec fn ends_with(s: Seq<char>, p: Seq<char>) -> bool {
    p.len() <= s.len() && s.skip(s.len() - p.len()) == p
}

/// Whether `v` ends with `p`.
pub fn has_suffix(v: &[char], p: &[char]) -> (r: bool)
    ensures
        r == ends_with(v@, p@),
{
    if p.len() > v.len() {
        return false;
    }
    let start = v.len() - p.len();
    let r = matches_at(v, p, start);
    assert(v@.skip(start as int) =~= v@.subrange(start as int, start + p@.len()));
    r
}

/// The strings of `parts` joined by `sep`.
pub open spec fn join_with(parts: Seq<Seq<char>>, sep: Seq<char>) -> Seq<char>
    decreases parts.len(),
{
    if parts.len() == 0 {
        seq![]
    } else if parts.len() == 1 {
        parts[0]
    } else {
        join_with(parts.drop_last(), sep) + sep + parts.last()
    }
}

/// The strings of `parts` joined by `sep` (`[String]::join`).
pub fn join_strings(parts: &Vec<String>, sep: &str) -> (r: String)
    ensures
        r@ == join_with(string_views(parts@), sep@),
{
    let mut r = String::new();
    let mut i: usize = 0;
    while i < parts.len()
        invariant
            i <= parts@.len(),
            r@ == join_with(string_views(parts@).take(i as int), sep@),
        decreases parts@.len() - i,
    {
        assert(string_views(parts@).take(i + 1).drop_last() =~= string_views(parts@).take(i as int));
        assert(string_views(parts@).take(i + 1).last() == parts@[i as int]@);
        if i > 0 {
            r.append(sep);
        } else {
            assert(r@ =~= Seq::<char>::empty());
        }
        r.append(parts[i].as_str());
        i += 1;
    }
    assert(string_views(parts@).take(parts@.len() as int) =~= string_views(parts@));
    r
}


/// The path that `which` printed: its output trimmed, when not empty.
pub fn which_path(stdout: &str) -> (r: Option<String>)
    ensures
        match r {
            Some(p) => trim(stdout@).len() > 0 && p@ == trim(stdout@),
            None => trim(stdout@).len() == 0,
        },
{
    let c = chars_of(stdout);
    let (a, b) = trim_bounds(c.as_slice());
    if a == b {
        None
    } else {
        Some(slice_string(c.as_slice(), a, b))
    }
}


/// Index of the first `c` in `s`, or `s.len()` when there is none.
pub open spec fn index_or_len(s: Seq<char>, c: char) -> int
    decreases s.len(),
{
    if s.len() == 0 || s[0] == c {
        0
    } else {
        1 + index_or_len(s.drop_first(), c)
    }
}

/// The index of the first `c` lies within `s`, or is its length.
pub proof fn lemma_index_or_len(s: Seq<char>, c: char)
    ensures
        0 <= index_or_len(s, c) <= s.len(),
    decreases s.len(),
{
    if s.len() > 0 && s[0] != c {
        lemma_index_or_len(s.drop_first(), c);
    }
}

/// The pieces of `s` between occurrences of `c`, empty pieces included
/// (`str::split` with a char).
pub open spec fn split_on(s: Seq<char>, c: char) -> Seq<Seq<char>>
    decreases s.len(),
{
    let k = index_or_len(s, c);
    proof {
        lemma_index_or_len(s, c);
    }
    if k >= s.len() {
        seq![s]
    } else {
        seq![s.take(k)] + split_on(s.skip(k + 1), c)
    }
}

/// The pieces of `v` between occurrences of `c` (`str::split` with a char).
pub fn split_on_char(v: &[char], c: char) -> (r: Vec<Vec<char>>)
    ensures
        views(r@) == split_on(v@, c),
{
    let n = v.len();
    let mut out: Vec<Vec<char>> = Vec::new();
    let mut pos: usize = 0;
    assert(v@.skip(0) =~= v@);
    loop
        invariant
            n == v@.len(),
            pos <= n,
            split_on(v@, c) == views(out@) + split_on(v@.skip(pos as int), c),
        decreases n - pos,
    {
        let ghost rest = v@.skip(pos as int);
        let mut j: usize = pos;
        while j < n && v[j] != c
            invariant
                pos <= j <= n,
                n == v@.len(),
                rest == v@.skip(pos as int),
                index_or_len(rest, c) == (j - pos) + index_or_len(v@.skip(j as int), c),
            decreases n - j,
        {
            assert(v@.skip(j as int).drop_first() =~= v@.skip(j + 1));
            j += 1;
        }
        proof {
            lemma_index_or_len(rest, c);
        }
        let ghost before = views(out@);
        let piece = sub_chars(v, pos, j);
        out.push(piece);
        assert(views(out@) =~= before.push(v@.subrange(pos as int, j as int)));
        if j == n {
            assert(rest =~= v@.subrange(pos as int, n as int));
            assert(split_on(rest, c) == seq![rest]);
            assert(before + seq![rest] =~= before.push(rest));
            return out;
        }
        assert(rest.take(j - pos) =~= v@.subrange(pos as int, j as int));
        assert(rest.skip(j - pos + 1) =~= v@.skip(j + 1));
        assert(before.push(v@.subrange(pos as int, j as int)) + split_on(v@.skip(j + 1), c) =~= before
            + (seq![v@.subrange(pos as int, j as int)] + split_on(v@.skip(j + 1), c)));
        pos = j + 1;
    }
}


/// Dropping trailing `c`s ignores how many there were.
pub proof fn lemma_strip_suffix_extra(s: Seq<char>, c: char)
    ensures
        strip_suffix_char_all(s.push(c), c) == strip_suffix_char_all(s, c),
{
    assert(s.push(c).drop_last() =~= s);
}

/// The decimal representation of `n` is a non-empty run of ASCII digits
/// whose value is `n`.
pub proof fn lemma_decimal_digits(n: nat)
    ensures
        decimal(n).len() > 0,
        all_digits(decimal(n)),
        digits_value(decimal(n)) == n,
    decreases n,
{
    if n < 10 {
        let s = decimal(n);
        assert(s.drop_last() =~= Seq::<char>::empty());
        assert(digit_char(n as int) as int == n + 48);
        assert(s.last() == digit_char(n as int));
        assert(digits_value(s) == digits_value(s.drop_last()) * 10 + ((s.last() as int - 48) as nat));
    } else {
        lemma_decimal_digits(n / 10);
        let s = decimal(n);
        let d = (n % 10) as int;
        assert(s.drop_last() =~= decimal(n / 10));
        assert(s.last() == digit_char(d));
        assert(digit_char(d) as int == d + 48);
        assert(digits_value(s) == digits_value(s.drop_last()) * 10 + ((s.last() as int - 48) as nat));
        assert((n / 10) * 10 + n % 10 == n) by (nonlinear_arith);
        assert forall|i: int| 0 <= i < s.len() implies is_digit(#[trigger] s[i]) by {
            if i < s.len() - 1 {
                assert(s[i] == decimal(n / 10)[i]);
            }
        }
    }
}

} // verus!
