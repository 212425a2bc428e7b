//! Character-level text operations on `Seq<char>` models, with executable
//! counterparts working on `Vec<char>`.

use vstd::prelude::*;

verus! {

// ---------------------------------------------------------------------------
// Character classes
// ---------------------------------------------------------------------------

/// ASCII lower-casing of one character; every other character is kept.
pub open spec fn ascii_lower(c: char) -> char {
    if 'A' <= c && c <= 'Z' {
        ((c as u32) + 32) as char
    } else {
        c
    }
}

/// ASCII lower-casing of a whole text.
pub open spec fn lower_chars(s: Seq<char>) -> Seq<char> {
    s.map_values(|c: char| ascii_lower(c))
}

/// ASCII letters and digits.
pub open spec fn is_ascii_alphanumeric(c: char) -> bool {
    ||| ('0' <= c && c <= '9')
    ||| ('a' <= c && c <= 'z')
    ||| ('A' <= c && c <= 'Z')
}

/// The Unicode `White_Space` characters (what `char::is_whitespace` accepts).
pub open spec fn is_whitespace(c: char) -> bool {
    ||| ('\t' <= c && c <= '\r')
    ||| c == ' '
    ||| c == '\u{85}'
    ||| c == '\u{A0}'
    ||| c == '\u{1680}'
    ||| ('\u{2000}' <= c && c <= '\u{200A}')
    ||| c == '\u{2028}'
    ||| c == '\u{2029}'
    ||| c == '\u{202F}'
    ||| c == '\u{205F}'
    ||| c == '\u{3000}'
}

// ---------------------------------------------------------------------------
// Text functions
// ---------------------------------------------------------------------------

/// `p` occurs in `s` at position `i`.
pub open spec fn occurs_at(s: Seq<char>, p: Seq<char>, i: int) -> bool {
    0 <= i && i + p.len() <= s.len() && s.subrange(i, i + p.len()) == p
}

/// `needle` occurs somewhere in `hay` (`str::contains`).
pub open spec fn contains_text(hay: Seq<char>, needle: Seq<char>) -> bool {
    exists|i: int| occurs_at(hay, needle, i)
}

/// `s` begins with `p` (`str::starts_with`).
pub open spec fn starts_with(s: Seq<char>, p: Seq<char>) -> bool {
    occurs_at(s, p, 0)
}

/// The first position, at `from` or later, where `p` occurs in `s`.
pub open spec fn find_from(s: Seq<char>, p: Seq<char>, from: int) -> Option<int>
    decreases s.len() + 1 - from,
{
    if from < 0 || from + p.len() > s.len() {
        None
    } else if occurs_at(s, p, from) {
        Some(from)
    } else {
        find_from(s, p, from + 1)
    }
}

/// The first position where `p` occurs in `s` (`str::find`).
pub open spec fn find_text(s: Seq<char>, p: Seq<char>) -> Option<int> {
    find_from(s, p, 0)
}

/// Every non-overlapping occurrence of `pat`, scanning left to right,
/// replaced by `rep` (`str::replace` with a non-empty pattern).
pub open spec fn replace_all(s: Seq<char>, pat: Seq<char>, rep: Seq<char>) -> Seq<char>
    decreases s.len(),
{
    if s.len() == 0 || pat.len() == 0 {
        s
    } else if starts_with(s, pat) {
        rep + replace_all(s.skip(pat.len() as int), pat, rep)
    } else {
        seq![s[0]] + replace_all(s.skip(1), pat, rep)
    }
}

/// Leading whitespace removed.
pub open spec fn trim_start(s: Seq<char>) -> Seq<char>
    decreases s.len(),
{
    if s.len() > 0 && is_whitespace(s[0]) {
        trim_start(s.skip(1))
    } else {
        s
    }
}

/// Trailing whitespace removed.
pub open spec fn trim_end(s: Seq<char>) -> Seq<char>
    decreases s.len(),
{
    if s.len() > 0 && is_whitespace(s.last()) {
        trim_end(s.drop_last())
    } else {
        s
    }
}

/// Whitespace removed at both ends (`str::trim`).
pub open spec fn trim(s: Seq<char>) -> Seq<char> {
    trim_end(trim_start(s))
}

/// The space-separated words of `s`: its maximal runs of characters other
/// than `' '`, in order.
pub open spec fn words(s: Seq<char>) -> Seq<Seq<char>>
    decreases s.len(),
{
    if s.len() == 0 {
        Seq::empty()
    } else {
        let w = words(s.drop_last());
        let c = s.last();
        if c == ' ' {
            w
        } else if s.len() == 1 || s[s.len() - 2] == ' ' {
            w.push(seq![c])
        } else {
            w.update(w.len() - 1, w.last().push(c))
        }
    }
}

/// The texts of `ws` with `sep` between neighbours (`slice::join`).
pub open spec fn join(ws: Seq<Seq<char>>, sep: Seq<char>) -> Seq<char>
    decreases ws.len(),
{
    if ws.len() == 0 {
        Seq::empty()
    } else if ws.len() == 1 {
        ws[0]
    } else {
        join(ws.drop_last(), sep) + sep + ws.last()
    }
}

// ---------------------------------------------------------------------------
// Lemmas
// ---------------------------------------------------------------------------

/// Words are never empty, and a text that ends in a word character has at
/// least one word.
pub proof fn lemma_words_nonempty(s: Seq<char>)
    ensures
        forall|k: int| 0 <= k < words(s).len() ==> #[trigger] words(s)[k].len() > 0,
        s.len() > 0 && s.last() != ' ' ==> words(s).len() > 0,
    decreases s.len(),
{
    if s.len() > 0 {
        lemma_words_nonempty(s.drop_last());
        let w = words(s.drop_last());
        let c = s.last();
        if c != ' ' && !(s.len() == 1 || s[s.len() - 2] == ' ') {
            // the previous character is a word character, so a word is open
            assert(s.drop_last().last() == s[s.len() - 2]);
            assert(w.len() > 0);
        }
    }
}

proof fn lemma_join_push(ws: Seq<Seq<char>>, x: Seq<char>, sep: Seq<char>)
    ensures
        join(ws.push(x), sep) == if ws.len() == 0 { x } else { join(ws, sep) + sep + x },
{
    assert(ws.push(x).drop_last() =~= ws);
}

proof fn lemma_join_extend_last(ws: Seq<Seq<char>>, c: char, sep: Seq<char>)
    requires
        ws.len() > 0,
    ensures
        join(ws.update(ws.len() - 1, ws.last().push(c)), sep) == join(ws, sep).push(c),
{
    let u = ws.update(ws.len() - 1, ws.last().push(c));
    assert(u.drop_last() =~= ws.drop_last());
    if ws.len() == 1 {
    } else {
        assert(join(u, sep) == join(ws.drop_last(), sep) + sep + ws.last().push(c));
        assert((join(ws.drop_last(), sep) + sep + ws.last()).push(c) =~= join(ws.drop_last(), sep)
            + sep + ws.last().push(c));
    }
}

/// Joining non-empty texts gives an empty text only when there are none.
pub proof fn lemma_join_empty(ws: Seq<Seq<char>>, sep: Seq<char>)
    requires
        forall|k: int| 0 <= k < ws.len() ==> #[trigger] ws[k].len() > 0,
    ensures
        join(ws, sep).len() == 0 <==> ws.len() == 0,
    decreases ws.len(),
{
    if ws.len() > 1 {
        assert(ws.last() == ws[ws.len() - 1]);
    } else if ws.len() == 1 {
        assert(ws[0].len() > 0);
    }
}

proof fn lemma_find_from_bounds(s: Seq<char>, p: Seq<char>, from: int)
    requires
        from >= 0,
    ensures
        find_from(s, p, from) matches Some(i) ==> from <= i && occurs_at(s, p, i) && forall|j: int|
            from <= j < i ==> !#[trigger] occurs_at(s, p, j),
        find_from(s, p, from) is None ==> forall|j: int| from <= j ==> !#[trigger] occurs_at(
            s,
            p,
            j,
        ),
    decreases s.len() + 1 - from,
{
    if from + p.len() > s.len() {
    } else if occurs_at(s, p, from) {
    } else {
        lemma_find_from_bounds(s, p, from + 1);
    }
}

/// `find_text` finds something exactly when the text occurs, and what it
/// finds is the first occurrence.
pub proof fn lemma_find_text(s: Seq<char>, p: Seq<char>)
    ensures
        find_text(s, p) is Some <==> contains_text(s, p),
        find_text(s, p) matches Some(i) ==> occurs_at(s, p, i) && forall|j: int|
            0 <= j < i ==> !#[trigger] occurs_at(s, p, j),
{
    lemma_find_from_bounds(s, p, 0);
    if contains_text(s, p) {
        let i = choose|i: int| occurs_at(s, p, i);
        assert(i >= 0);
    }
}

/// Every character of `s` satisfies `p`.
pub open spec fn all_chars(s: Seq<char>, p: spec_fn(char) -> bool) -> bool {
    forall|i: int| 0 <= i < s.len() ==> #[trigger] p(s[i])
}

/// Replacing with a text whose characters satisfy `p` keeps every
/// character satisfying `p`.
pub proof fn lemma_replace_all_keeps(s: Seq<char>, pat: Seq<char>, rep: Seq<char>, p: spec_fn(char) -> bool)
    requires
        all_chars(s, p),
        all_chars(rep, p),
    ensures
        all_chars(replace_all(s, pat, rep), p),
    decreases s.len(),
{
    if s.len() == 0 || pat.len() == 0 {
    } else if starts_with(s, pat) {
        let t = s.skip(pat.len() as int);
        assert forall|i: int| 0 <= i < t.len() implies #[trigger] p(t[i]) by {
            assert(t[i] == s[i + pat.len()]);
        }
        lemma_replace_all_keeps(t, pat, rep, p);
        let r = replace_all(t, pat, rep);
        assert forall|i: int| 0 <= i < (rep + r).len() implies #[trigger] p((rep + r)[i]) by {
            if i < rep.len() {
                assert((rep + r)[i] == rep[i]);
            } else {
                assert((rep + r)[i] == r[i - rep.len()]);
            }
        }
    } else {
        let t = s.skip(1);
        assert forall|i: int| 0 <= i < t.len() implies #[trigger] p(t[i]) by {
            assert(t[i] == s[i + 1]);
        }
        lemma_replace_all_keeps(t, pat, rep, p);
        let r = replace_all(t, pat, rep);
        assert(p(s[0]));
        assert forall|i: int| 0 <= i < (seq![s[0]] + r).len() implies #[trigger] p(
            (seq![s[0]] + r)[i],
        ) by {
            if i == 0 {
            } else {
                assert((seq![s[0]] + r)[i] == r[i - 1]);
            }
        }
    }
}

/// `s` holds no space.
pub open spec fn no_spaces(s: Seq<char>) -> bool {
    forall|i: int| 0 <= i < s.len() ==> #[trigger] s[i] != ' '
}

/// Every character of `s` satisfies `p` or is a space.
pub open spec fn all_chars_or_space(s: Seq<char>, p: spec_fn(char) -> bool) -> bool {
    forall|i: int| 0 <= i < s.len() ==> p(#[trigger] s[i]) || s[i] == ' '
}

/// The words of a text whose characters satisfy `p` are non-empty, hold no
/// space, and have characters satisfying `p`.
pub proof fn lemma_words_chars(s: Seq<char>, p: spec_fn(char) -> bool)
    requires
        all_chars(s, p),
    ensures
        forall|k: int| 0 <= k < words(s).len() ==> {
            &&& #[trigger] words(s)[k].len() > 0
            &&& all_chars(words(s)[k], p)
            &&& no_spaces(words(s)[k])
        },
    decreases s.len(),
{
    if s.len() > 0 {
        let t = s.drop_last();
        assert forall|i: int| 0 <= i < t.len() implies #[trigger] p(t[i]) by {
            assert(t[i] == s[i]);
        }
        lemma_words_chars(t, p);
        lemma_words_nonempty(s);
        let w = words(t);
        let c = s.last();
        assert(p(c)) by {
            assert(c == s[s.len() - 1]);
        }
        if c == ' ' {
        } else if s.len() == 1 || s[s.len() - 2] == ' ' {
            let x = seq![c];
            assert(all_chars(x, p));
            assert(no_spaces(x));
            assert(w.push(x)[w.len() as int] == x);
        } else {
            assert(t.last() == s[s.len() - 2]);
            lemma_words_nonempty(t);
            let last = w.last().push(c);
            assert(w.last() == w[w.len() - 1]);
            assert(all_chars(last, p)) by {
                assert forall|i: int| 0 <= i < last.len() implies #[trigger] p(last[i]) by {
                    if i < last.len() - 1 {
                        assert(last[i] == w.last()[i]);
                    }
                }
            }
            assert(no_spaces(last)) by {
                assert forall|i: int| 0 <= i < last.len() implies #[trigger] last[i] != ' ' by {
                    if i < last.len() - 1 {
                        assert(last[i] == w.last()[i]);
                    }
                }
            }
            assert(w.update(w.len() - 1, last)[w.len() - 1] == last);
        }
    }
}

/// A text with no space at either end and never two spaces in a row.
pub open spec fn single_spaced(k: Seq<char>) -> bool {
    &&& k.len() > 0 ==> k[0] != ' ' && k[k.len() - 1] != ' '
    &&& forall|i: int| 0 <= i < k.len() - 1 ==> !(#[trigger] k[i] == ' ' && k[i + 1] == ' ')
}

/// Non-empty words without spaces, joined by single spaces, give a
/// single-spaced text whose characters are word characters or spaces.
pub proof fn lemma_join_single_spaced(ws: Seq<Seq<char>>, p: spec_fn(char) -> bool)
    requires
        forall|k: int| 0 <= k < ws.len() ==> {
            &&& #[trigger] ws[k].len() > 0
            &&& all_chars(ws[k], p)
            &&& no_spaces(ws[k])
        },
    ensures
        single_spaced(join(ws, seq![' '])),
        all_chars_or_space(join(ws, seq![' ']), p),
    decreases ws.len(),
{
    if ws.len() == 0 {
    } else if ws.len() == 1 {
        let w = ws[0];
        assert(ws[0].len() > 0);
        assert(no_spaces(w));
        assert(w[0] != ' ' && w[w.len() - 1] != ' ');
        assert forall|i: int| 0 <= i < w.len() - 1 implies !(#[trigger] w[i] == ' ' && w[i + 1]
            == ' ') by {
            assert(w[i] != ' ');
        }
        assert forall|i: int| 0 <= i < w.len() implies p(#[trigger] w[i]) || w[i] == ' ' by {
            assert(p(w[i]));
        }
    } else {
        let init = ws.drop_last();
        assert forall|k: int| 0 <= k < init.len() implies {
            &&& #[trigger] init[k].len() > 0
            &&& all_chars(init[k], p)
            &&& no_spaces(init[k])
        } by {
            assert(init[k] == ws[k]);
        }
        lemma_join_single_spaced(init, p);
        lemma_join_empty(init, seq![' ']);
        let a = join(init, seq![' ']);
        let w = ws.last();
        assert(w == ws[ws.len() - 1]);
        assert(w.len() > 0);
        let j = a + seq![' '] + w;
        assert(join(ws, seq![' ']) == j);
        assert(a.len() > 0);
        assert(a[a.len() - 1] != ' ');
        assert(no_spaces(w));
        assert(w[0] != ' ' && w[w.len() - 1] != ' ');
        assert(j[0] == a[0]);
        assert(j[j.len() - 1] == w[w.len() - 1]);
        assert forall|i: int| 0 <= i < j.len() - 1 implies !(#[trigger] j[i] == ' ' && j[i + 1]
            == ' ') by {
            if i < a.len() - 1 {
                assert(j[i] == a[i]);
                assert(j[i + 1] == a[i + 1]);
            } else if i == a.len() - 1 {
                assert(j[i] == a[a.len() - 1]);
            } else if i == a.len() {
                assert(j[i + 1] == w[0]);
            } else {
                assert(j[i] == w[i - a.len() - 1]);
                assert(w[i - a.len() - 1] != ' ');
            }
        }
        assert forall|i: int| 0 <= i < j.len() implies p(#[trigger] j[i]) || j[i] == ' ' by {
            if i < a.len() {
                assert(j[i] == a[i]);
                assert(p(a[i]) || a[i] == ' ');
            } else if i == a.len() {
            } else {
                assert(j[i] == w[i - a.len() - 1]);
                assert(p(w[i - a.len() - 1]));
            }
        }
    }
}

// ---------------------------------------------------------------------------
// Executable operations
// ---------------------------------------------------------------------------

/// Calls `String::push`; the contract claims that the string afterwards is
/// the string before with the character appended.
#[verifier::external_body]
fn string_push(s: &mut String, c: char)
    ensures
        final(s)@ == old(s)@.push(c),
{
    s.push(c);
}

/// The characters of a string slice.
pub fn chars_of(s: &str) -> (v: Vec<char>)
    ensures
        v@ == s@,
{
    let mut v: Vec<char> = Vec::new();
    for c in it: s.chars()
        invariant
            v@ == it.seq().take(it.index() as int),
            it.seq() == s@,
    {
        v.push(c);
    }
    v
}

/// A `String` holding the given characters.
pub fn string_of(v: &Vec<char>) -> (s: String)
    ensures
        s@ == v@,
{
    let mut s = String::new();
    let n = v.len();
    for i in 0..n
        invariant
            n == v.len(),
            s@ == v@.take(i as int),
    {
        string_push(&mut s, v[i]);
        assert(v@.take(i + 1) =~= v@.take(i as int).push(v@[i as int]));
    }
    assert(v@.take(n as int) =~= v@);
    s
}

/// A copy of `v[from..to]`.
pub fn slice_chars(v: &Vec<char>, from: usize, to: usize) -> (r: Vec<char>)
    requires
        from <= to <= v.len(),
    ensures
        r@ == v@.subrange(from as int, to as int),
{
    let mut r: Vec<char> = Vec::new();
    let mut i = from;
    while i < to
        invariant
            from <= i <= to <= v.len(),
            r@ == v@.subrange(from as int, i as int),
        decreases to - i,
    {
        r.push(v[i]);
        assert(v@.subrange(from as int, i + 1) =~= v@.subrange(from as int, i as int).push(
            v@[i as int],
        ));
        i = i + 1;
    }
    r
}

/// Appends all of `src` to `out`.
pub fn push_all(out: &mut Vec<char>, src: &Vec<char>)
    ensures
        final(out)@ == old(out)@ + src@,
{
    let n = src.len();
    for i in 0..n
        invariant
            n == src.len(),
            out@ == old(out)@ + src@.take(i as int),
    {
        out.push(src[i]);
        assert(src@.take(i + 1) =~= src@.take(i as int).push(src@[i as int]));
    }
    assert(src@.take(n as int) =~= src@);
}

/// ASCII lower-casing of one character.
pub fn lower_char(c: char) -> (r: char)
    ensures
        r == ascii_lower(c),
{
    if 'A' <= c && c <= 'Z' {
        let b: u8 = c as u8;
        (b + 32) as char
    } else {
        c
    }
}

/// Whether `c` is an ASCII letter or digit.
pub fn is_alphanumeric(c: char) -> (r: bool)
    ensures
        r == is_ascii_alphanumeric(c),
{
    ('0' <= c && c <= '9') || ('a' <= c && c <= 'z') || ('A' <= c && c <= 'Z')
}

/// Whether `c` is Unicode whitespace.
pub fn is_space(c: char) -> (r: bool)
    ensures
        r == is_whitespace(c),
{
    ('\t' <= c && c <= '\r') || c == ' ' || c == '\u{85}' || c == '\u{A0}' || c == '\u{1680}' || (
    '\u{2000}' <= c && c <= '\u{200A}') || c == '\u{2028}' || c == '\u{2029}' || c == '\u{202F}'
        || c == '\u{205F}' || c == '\u{3000}'
}

/// ASCII lower-casing of a text.
pub fn lower_all(v: &Vec<char>) -> (r: Vec<char>)
    ensures
        r@ == lower_chars(v@),
{
    let mut r: Vec<char> = Vec::new();
    let n = v.len();
    for i in 0..n
        invariant
            n == v.len(),
            r@ == lower_chars(v@.take(i as int)),
    {
        let c = lower_char(v[i]);
        r.push(c);
        assert(lower_chars(v@.take(i + 1)) =~= lower_chars(v@.take(i as int)).push(c));
    }
    assert(v@.take(n as int) =~= v@);
    r
}

/// Whether two texts are equal.
pub fn same_chars(a: &Vec<char>, b: &Vec<char>) -> (r: bool)
    ensures
        r == (a@ == b@),
{
    if a.len() != b.len() {
        return false;
    }
    let n = a.len();
    for i in 0..n
        invariant
            n == a.len(),
            n == b.len(),
            forall|j: int| 0 <= j < i ==> a@[j] == b@[j],
    {
        if a[i] != b[i] {
            return false;
        }
    }
    assert(a@ =~= b@);
    true
}

/// Whether a text equals a string slice.
pub fn equals_str(a: &Vec<char>, s: &str) -> (r: bool)
    ensures
        r == (a@ == s@),
{
    let b = chars_of(s);
    same_chars(a, &b)
}

/// Whether `p` occurs in `s` at position `i`.
pub fn occurs_at_exec(s: &Vec<char>, p: &Vec<char>, i: usize) -> (r: bool)
    ensures
        r == occurs_at(s@, p@, i as int),
{
    if i > s.len() || p.len() > s.len() - i {
        return false;
    }
    let n = p.len();
    for k in 0..n
        invariant
            n == p.len(),
            i + n <= s.len(),
            forall|j: int| 0 <= j < k ==> s@[i + j] == p@[j],
    {
        if s[i + k] != p[k] {
            assert(s@.subrange(i as int, i + n)[k as int] != p@[k as int]);
            return false;
        }
    }
    assert(s@.subrange(i as int, i + n) =~= p@);
    true
}

/// The first position where `p` occurs in `s`.
pub fn find_exec(s: &Vec<char>, p: &Vec<char>) -> (r: Option<usize>)
    ensures
        r matches Some(i) ==> find_text(s@, p@) == Some(i as int),
        r is None ==> find_text(s@, p@) is None,
{
    if p.len() > s.len() {
        return None;
    }
    let last = s.len() - p.len();
    let mut i: usize = 0;
    loop
        invariant
            last + p.len() == s.len(),
            i <= last,
            find_text(s@, p@) == find_from(s@, p@, i as int),
        decreases last - i,
    {
        if occurs_at_exec(s, p, i) {
            return Some(i);
        }
        if i == last {
            assert(find_from(s@, p@, i + 1) is None);
            return None;
        }
        i = i + 1;
    }
}

/// Whether `p` occurs in `s`.
pub fn contains_exec(s: &Vec<char>, p: &Vec<char>) -> (r: bool)
    ensures
        r == contains_text(s@, p@),
{
    proof {
        lemma_find_text(s@, p@);
    }
    find_exec(s, p).is_some()
}

/// Every non-overlapping occurrence of `pat` replaced by `rep`.
pub fn replace_exec(v: &Vec<char>, pat: &Vec<char>, rep: &Vec<char>) -> (r: Vec<char>)
    ensures
        r@ == replace_all(v@, pat@, rep@),
{
    let n = v.len();
    if pat.len() == 0 {
        return slice_chars(v, 0, n);
    }
    let mut out: Vec<char> = Vec::new();
    let mut i: usize = 0;
    assert(v@.skip(0) =~= v@);
    while i < n
        invariant
            n == v.len(),
            pat.len() > 0,
            i <= n,
            replace_all(v@, pat@, rep@) == out@ + replace_all(v@.skip(i as int), pat@, rep@),
        decreases n - i,
    {
        let rest = Ghost(v@.skip(i as int));
        let hit = occurs_at_exec(v, pat, i);
        proof {
            if i + pat@.len() <= n {
                assert(rest@.subrange(0, pat@.len() as int) =~= v@.subrange(
                    i as int,
                    i + pat@.len(),
                ));
            }
        }
        if hit {
            assert(starts_with(rest@, pat@));
            assert(rest@.skip(pat@.len() as int) =~= v@.skip(i + pat@.len()));
            push_all(&mut out, rep);
            i = i + pat.len();
        } else {
            assert(!starts_with(rest@, pat@));
            assert(rest@.skip(1) =~= v@.skip(i + 1));
            out.push(v[i]);
            i = i + 1;
        }
    }
    assert(v@.skip(n as int) =~= Seq::<char>::empty());
    out
}

/// Leading and trailing whitespace removed.
pub fn trim_exec(v: &Vec<char>) -> (r: Vec<char>)
    ensures
        r@ == trim(v@),
{
    let n = v.len();
    let mut a: usize = 0;
    assert(v@.skip(0) =~= v@);
    while a < n && is_space(v[a])
        invariant
            n == v.len(),
            a <= n,
            trim_start(v@) == trim_start(v@.skip(a as int)),
        decreases n - a,
    {
        assert(v@.skip(a as int).skip(1) =~= v@.skip(a + 1));
        a = a + 1;
    }
    assert(trim_start(v@) == v@.subrange(a as int, n as int)) by {
        assert(v@.skip(a as int) =~= v@.subrange(a as int, n as int));
    }
    let mut b: usize = n;
    while b > a && is_space(v[b - 1])
        invariant
            n == v.len(),
            a <= b <= n,
            trim(v@) == trim_end(v@.subrange(a as int, b as int)),
        decreases b,
    {
        assert(v@.subrange(a as int, b as int).drop_last() =~= v@.subrange(a as int, b - 1));
        b = b - 1;
    }
    slice_chars(v, a, b)
}

/// Every character that is not an ASCII letter or digit replaced by a space.
pub fn blank_non_alphanumeric(v: &Vec<char>) -> (r: Vec<char>)
    ensures
        r@ == v@.map_values(|c: char| if is_ascii_alphanumeric(c) { c } else { ' ' }),
{
    let mut r: Vec<char> = Vec::new();
    let n = v.len();
    for i in 0..n
        invariant
            n == v.len(),
            r@ == v@.take(i as int).map_values(
                |c: char| if is_ascii_alphanumeric(c) { c } else { ' ' },
            ),
    {
        let c = v[i];
        let d = if is_alphanumeric(c) { c } else { ' ' };
        r.push(d);
        assert(v@.take(i + 1).map_values(|c: char| if is_ascii_alphanumeric(c) { c } else { ' ' })
            =~= v@.take(i as int).map_values(
            |c: char| if is_ascii_alphanumeric(c) { c } else { ' ' },
        ).push(d));
    }
    assert(v@.take(n as int) =~= v@);
    r
}

/// The space-separated words of `v` joined by single spaces.
pub fn collapse_spaces(v: &Vec<char>) -> (r: Vec<char>)
    ensures
        r@ == join(words(v@), seq![' ']),
{
    let mut out: Vec<char> = Vec::new();
    let n = v.len();
    for i in 0..n
        invariant
            n == v.len(),
            out@ == join(words(v@.take(i as int)), seq![' ']),
            out@.len() > 0 <==> words(v@.take(i as int)).len() > 0,
    {
        let ghost pre = v@.take(i as int);
        let ghost cur = v@.take(i + 1);
        assert(cur.drop_last() =~= pre);
        proof {
            lemma_words_nonempty(pre);
            lemma_words_nonempty(cur);
            lemma_join_empty(words(cur), seq![' ']);
        }
        let c = v[i];
        if c != ' ' {
            let starts_word = i == 0 || v[i - 1] == ' ';
            if starts_word {
                if i > 0 {
                    assert(cur[cur.len() - 2] == v@[i - 1]);
                }
                proof {
                    lemma_join_push(words(pre), seq![c], seq![' ']);
                }
                if out.len() > 0 {
                    out.push(' ');
                }
                out.push(c);
                assert(out@ =~= join(words(cur), seq![' ']));
            } else {
                assert(cur[cur.len() - 2] == v@[i - 1]);
                assert(pre.last() == v@[i - 1]);
                proof {
                    lemma_join_extend_last(words(pre), c, seq![' ']);
                }
                out.push(c);
            }
        }
    }
    assert(v@.take(n as int) =~= v@);
    out
}

/// The decimal digit for `d` (below ten).
pub open spec fn digit_char(d: nat) -> char {
    ((d + 48) as u32) as char
}

/// The decimal numeral of `n`, without leading zeros (`u64::to_string`).
pub open spec fn spec_decimal(n: nat) -> Seq<char>
    decreases n,
{
    if n < 10 {
        seq![digit_char(n)]
    } else {
        spec_decimal(n / 10).push(digit_char(n % 10))
    }
}

/// The decimal numeral of `n`.
pub fn decimal_chars(n: u64) -> (r: Vec<char>)
    ensures
        r@ == spec_decimal(n as nat),
    decreases n,
{
    let d: u8 = (n % 10) as u8;
    let c = (d + 48) as char;
    if n < 10 {
        vec![c]
    } else {
        let mut r = decimal_chars(n / 10);
        r.push(c);
        r
    }
}

} // verus!
