//! Matching of event, market and selection names across venues that spell
//! them differently ("Malta vs Luxembourg" / "Luxembourg @ Malta",
//! "Full-time result" / "h2h", "X" / "Draw").

use vstd::prelude::*;
use crate::text::{
    all_chars, all_chars_or_space, ascii_lower, lemma_join_single_spaced, lemma_replace_all_keeps,
    lemma_words_chars, lemma_words_nonempty, lemma_join_empty, single_spaced, blank_non_alphanumeric, chars_of, collapse_spaces, contains_exec, contains_text, equals_str,
    find_exec, find_text, occurs_at, is_ascii_alphanumeric, join, lemma_find_text, lower_all, lower_chars,
    replace_all, replace_exec, same_chars, slice_chars, string_of, trim, trim_end, trim_exec, trim_start, words,
};

verus! {

// ---------------------------------------------------------------------------
// Model
// ---------------------------------------------------------------------------

/// Non-alphanumeric characters turned into spaces.
pub open spec fn blank_separators(s: Seq<char>) -> Seq<char> {
    s.map_values(|c: char| if is_ascii_alphanumeric(c) { c } else { ' ' })
}

/// The comparison key of a name: ASCII lower-cased, "versus", "vs." and
/// "vs" shortened to "v" (in that order), every character other than an
/// ASCII letter or digit turned into a space, and the remaining words
/// joined by single spaces.
pub open spec fn spec_normalize_key(s: Seq<char>) -> Seq<char> {
    let lowered = lower_chars(s);
    let r1 = replace_all(lowered, "versus"@, "v"@);
    let r2 = replace_all(r1, "vs."@, "v"@);
    let r3 = replace_all(r2, "vs"@, "v"@);
    join(words(blank_separators(r3)), seq![' '])
}

/// Two comparison keys name the same thing: both are non-empty and they are
/// equal, or one of length above one contains the other.
pub open spec fn keys_match(a: Seq<char>, b: Seq<char>) -> bool {
    &&& a.len() > 0
    &&& b.len() > 0
    &&& (a == b || (a.len() > 1 && contains_text(a, b)) || (b.len() > 1 && contains_text(b, a)))
}

pub open spec fn spec_text_matches(left: Seq<char>, right: Seq<char>) -> bool {
    keys_match(spec_normalize_key(left), spec_normalize_key(right))
}

/// Keys that all name the "match odds" market.
pub open spec fn is_match_odds_alias(k: Seq<char>) -> bool {
    ||| k == "full time result"@
    ||| k == "fulltime result"@
    ||| k == "match result"@
    ||| k == "match odds"@
    ||| k == "match betting"@
    ||| k == "1 x 2"@
    ||| k == "1x2"@
    ||| k == "three way"@
    ||| k == "to win"@
    ||| k == "winner"@
    ||| k == "moneyline"@
    ||| k == "h2h"@
}

pub open spec fn spec_normalize_market(s: Seq<char>) -> Seq<char> {
    let k = spec_normalize_key(s);
    if is_match_odds_alias(k) {
        "match odds"@
    } else {
        k
    }
}

pub open spec fn spec_market_matches(left: Seq<char>, right: Seq<char>) -> bool {
    let a = spec_normalize_market(left);
    let b = spec_normalize_market(right);
    a.len() > 0 && b.len() > 0 && a == b
}

pub open spec fn is_draw_alias(k: Seq<char>) -> bool {
    k == "x"@ || k == "draw"@ || k == "tie"@
}

pub open spec fn is_home_alias(k: Seq<char>) -> bool {
    k == "1"@ || k == "home"@ || k == "home team"@
}

pub open spec fn is_away_alias(k: Seq<char>) -> bool {
    k == "2"@ || k == "away"@ || k == "away team"@
}

pub open spec fn spec_selection_matches(left: Seq<char>, right: Seq<char>) -> bool {
    let a = spec_normalize_key(left);
    let b = spec_normalize_key(right);
    &&& a.len() > 0
    &&& b.len() > 0
    &&& {
        ||| a == b
        ||| (a.len() > 1 && contains_text(a, b))
        ||| (b.len() > 1 && contains_text(b, a))
        ||| (is_draw_alias(a) && is_draw_alias(b))
        ||| (is_home_alias(a) && is_home_alias(b))
        ||| (is_away_alias(a) && is_away_alias(b))
    }
}

/// `t` cut around the first occurrence of `sep`, found without regard to
/// ASCII case.
pub open spec fn split_once_ignoring_case(t: Seq<char>, sep: Seq<char>) -> Option<
    (Seq<char>, Seq<char>),
> {
    match find_text(lower_chars(t), sep) {
        Some(i) => Some((t.take(i), t.skip(i + sep.len()))),
        None => None,
    }
}

/// Home and away keys read off `t` with the separator `sep`; with
/// `away_first` the side before the separator is the away side.
pub open spec fn participants_with(t: Seq<char>, sep: Seq<char>, away_first: bool) -> Option<
    (Seq<char>, Seq<char>),
> {
    match split_once_ignoring_case(t, sep) {
        Some((l, r)) => {
            let a = spec_normalize_key(l);
            let b = spec_normalize_key(r);
            if a.len() == 0 || b.len() == 0 {
                None
            } else if away_first {
                Some((b, a))
            } else {
                Some((a, b))
            }
        },
        None => None,
    }
}

pub open spec fn first_some<A>(a: Option<A>, b: Option<A>) -> Option<A> {
    if a is Some {
        a
    } else {
        b
    }
}

/// The (home, away) keys of an event name, trying the separators
/// " versus ", " vs. ", " vs ", " v ", " @ ", " at " in that order; with
/// " @ " and " at " the away side comes first.
pub open spec fn spec_event_participants(value: Seq<char>) -> Option<(Seq<char>, Seq<char>)> {
    let t = trim(value);
    if t.len() == 0 {
        None
    } else {
        first_some(
            participants_with(t, " versus "@, false),
            first_some(
                participants_with(t, " vs. "@, false),
                first_some(
                    participants_with(t, " vs "@, false),
                    first_some(
                        participants_with(t, " v "@, false),
                        first_some(
                            participants_with(t, " @ "@, true),
                            participants_with(t, " at "@, true),
                        ),
                    ),
                ),
            ),
        )
    }
}

pub open spec fn spec_event_matches(left: Seq<char>, right: Seq<char>) -> bool {
    if trim(left).len() == 0 || trim(right).len() == 0 {
        true
    } else if spec_text_matches(left, right) {
        true
    } else {
        match (spec_event_participants(left), spec_event_participants(right)) {
            (Some((lh, la)), Some((rh, ra))) => (lh == rh && la == ra) || (lh == ra && la == rh),
            _ => false,
        }
    }
}

/// The canonical name of a selection within its event and market.
pub open spec fn spec_canonical_selection(
    selection: Seq<char>,
    event: Seq<char>,
    market: Seq<char>,
) -> Option<Seq<char>> {
    let k = spec_normalize_key(selection);
    let p = spec_event_participants(event);
    let match_odds = spec_market_matches(market, "match odds"@);
    if k.len() == 0 {
        None
    } else if is_draw_alias(k) {
        Some("draw"@)
    } else if match_odds && is_home_alias(k) {
        match p {
            Some((h, _a)) => Some(h),
            None => None,
        }
    } else if match_odds && is_away_alias(k) {
        match p {
            Some((_h, a)) => Some(a),
            None => None,
        }
    } else {
        match p {
            Some((h, a)) => if spec_text_matches(h, k) {
                Some(h)
            } else if spec_text_matches(a, k) {
                Some(a)
            } else {
                Some(k)
            },
            None => Some(k),
        }
    }
}

pub open spec fn spec_selection_matches_with_context(
    left_selection: Seq<char>,
    left_event: Seq<char>,
    left_market: Seq<char>,
    right_selection: Seq<char>,
    right_event: Seq<char>,
    right_market: Seq<char>,
) -> bool {
    spec_selection_matches(left_selection, right_selection) || match (
        spec_canonical_selection(left_selection, left_event, left_market),
        spec_canonical_selection(right_selection, right_event, right_market),
    ) {
        (Some(a), Some(b)) => a == b,
        _ => false,
    }
}

// ---------------------------------------------------------------------------
// Executable functions on character vectors
// ---------------------------------------------------------------------------

fn normalize_chars(v: &Vec<char>) -> (r: Vec<char>)
    ensures
        r@ == spec_normalize_key(v@),
{
    let lowered = lower_all(v);
    let v_rep = chars_of("v");
    let r1 = replace_exec(&lowered, &chars_of("versus"), &v_rep);
    let r2 = replace_exec(&r1, &chars_of("vs."), &v_rep);
    let r3 = replace_exec(&r2, &chars_of("vs"), &v_rep);
    let blanked = blank_non_alphanumeric(&r3);
    collapse_spaces(&blanked)
}

fn keys_match_exec(a: &Vec<char>, b: &Vec<char>) -> (r: bool)
    ensures
        r == keys_match(a@, b@),
{
    a.len() > 0 && b.len() > 0 && (same_chars(a, b) || (a.len() > 1 && contains_exec(a, b)) || (
    b.len() > 1 && contains_exec(b, a)))
}

fn text_matches_chars(left: &Vec<char>, right: &Vec<char>) -> (r: bool)
    ensures
        r == spec_text_matches(left@, right@),
{
    let a = normalize_chars(left);
    let b = normalize_chars(right);
    keys_match_exec(&a, &b)
}

fn is_match_odds_alias_exec(k: &Vec<char>) -> (r: bool)
    ensures
        r == is_match_odds_alias(k@),
{
    equals_str(k, "full time result") || equals_str(k, "fulltime result") || equals_str(
        k,
        "match result",
    ) || equals_str(k, "match odds") || equals_str(k, "match betting") || equals_str(k, "1 x 2")
        || equals_str(k, "1x2") || equals_str(k, "three way") || equals_str(k, "to win")
        || equals_str(k, "winner") || equals_str(k, "moneyline") || equals_str(k, "h2h")
}

fn normalize_market_chars(v: &Vec<char>) -> (r: Vec<char>)
    ensures
        r@ == spec_normalize_market(v@),
{
    let k = normalize_chars(v);
    if is_match_odds_alias_exec(&k) {
        chars_of("match odds")
    } else {
        k
    }
}

fn market_matches_chars(left: &Vec<char>, right: &Vec<char>) -> (r: bool)
    ensures
        r == spec_market_matches(left@, right@),
{
    let a = normalize_market_chars(left);
    let b = normalize_market_chars(right);
    a.len() > 0 && b.len() > 0 && same_chars(&a, &b)
}

fn is_draw_alias_exec(k: &Vec<char>) -> (r: bool)
    ensures
        r == is_draw_alias(k@),
{
    equals_str(k, "x") || equals_str(k, "draw") || equals_str(k, "tie")
}

fn is_home_alias_exec(k: &Vec<char>) -> (r: bool)
    ensures
        r == is_home_alias(k@),
{
    equals_str(k, "1") || equals_str(k, "home") || equals_str(k, "home team")
}

fn is_away_alias_exec(k: &Vec<char>) -> (r: bool)
    ensures
        r == is_away_alias(k@),
{
    equals_str(k, "2") || equals_str(k, "away") || equals_str(k, "away team")
}

fn selection_matches_chars(left: &Vec<char>, right: &Vec<char>) -> (r: bool)
    ensures
        r == spec_selection_matches(left@, right@),
{
    let a = normalize_chars(left);
    let b = normalize_chars(right);
    if a.len() == 0 || b.len() == 0 {
        return false;
    }
    same_chars(&a, &b) || (a.len() > 1 && contains_exec(&a, &b)) || (b.len() > 1 && contains_exec(
        &b,
        &a,
    )) || (is_draw_alias_exec(&a) && is_draw_alias_exec(&b)) || (is_home_alias_exec(&a)
        && is_home_alias_exec(&b)) || (is_away_alias_exec(&a) && is_away_alias_exec(&b))
}

fn split_once_ignoring_case_exec(t: &Vec<char>, sep: &Vec<char>) -> (r: Option<
    (Vec<char>, Vec<char>),
>)
    ensures
        r matches Some((a, b)) ==> split_once_ignoring_case(t@, sep@) == Some((a@, b@)),
        r is None ==> split_once_ignoring_case(t@, sep@) is None,
{
    let lowered = lower_all(t);
    match find_exec(&lowered, sep) {
        Some(start) => {
            proof {
                lemma_find_text(lower_chars(t@), sep@);
                assert(occurs_at(lowered@, sep@, start as int));
                assert(lowered@.len() == t@.len());
            }
            assert(start + sep.len() <= t.len());
            let end = start + sep.len();
            let left = slice_chars(t, 0, start);
            let right = slice_chars(t, end, t.len());
            assert(left@ =~= t@.take(start as int));
            assert(right@ =~= t@.skip(end as int));
            Some((left, right))
        },
        None => None,
    }
}

fn participants_with_exec(t: &Vec<char>, sep: &str, away_first: bool) -> (r: Option<
    (Vec<char>, Vec<char>),
>)
    ensures
        r matches Some((h, a)) ==> participants_with(t@, sep@, away_first) == Some((h@, a@)),
        r is None ==> participants_with(t@, sep@, away_first) is None,
{
    let sep_chars = chars_of(sep);
    match split_once_ignoring_case_exec(t, &sep_chars) {
        Some((l, r)) => {
            let a = normalize_chars(&l);
            let b = normalize_chars(&r);
            if a.len() == 0 || b.len() == 0 {
                None
            } else if away_first {
                Some((b, a))
            } else {
                Some((a, b))
            }
        },
        None => None,
    }
}

fn event_participants_chars(value: &Vec<char>) -> (r: Option<(Vec<char>, Vec<char>)>)
    ensures
        r matches Some((h, a)) ==> spec_event_participants(value@) == Some((h@, a@)),
        r is None ==> spec_event_participants(value@) is None,
{
    let t = trim_exec(value);
    if t.len() == 0 {
        return None;
    }
    if let Some(p) = participants_with_exec(&t, " versus ", false) {
        return Some(p);
    }
    if let Some(p) = participants_with_exec(&t, " vs. ", false) {
        return Some(p);
    }
    if let Some(p) = participants_with_exec(&t, " vs ", false) {
        return Some(p);
    }
    if let Some(p) = participants_with_exec(&t, " v ", false) {
        return Some(p);
    }
    if let Some(p) = participants_with_exec(&t, " @ ", true) {
        return Some(p);
    }
    participants_with_exec(&t, " at ", true)
}

fn event_matches_chars(left: &Vec<char>, right: &Vec<char>) -> (r: bool)
    ensures
        r == spec_event_matches(left@, right@),
{
    let lt = trim_exec(left);
    let rt = trim_exec(right);
    if lt.len() == 0 || rt.len() == 0 {
        return true;
    }
    if text_matches_chars(left, right) {
        return true;
    }
    match (event_participants_chars(left), event_participants_chars(right)) {
        (Some((lh, la)), Some((rh, ra))) => (same_chars(&lh, &rh) && same_chars(&la, &ra)) || (
        same_chars(&lh, &ra) && same_chars(&la, &rh)),
        _ => false,
    }
}

fn canonical_selection_chars(selection: &Vec<char>, event: &Vec<char>, market: &Vec<char>) -> (r:
    Option<Vec<char>>)
    ensures
        r matches Some(k) ==> spec_canonical_selection(selection@, event@, market@) == Some(k@),
        r is None ==> spec_canonical_selection(selection@, event@, market@) is None,
{
    let k = normalize_chars(selection);
    if k.len() == 0 {
        return None;
    }
    if is_draw_alias_exec(&k) {
        return Some(chars_of("draw"));
    }
    let participants = event_participants_chars(event);
    let match_odds = market_matches_chars(market, &chars_of("match odds"));
    if match_odds && is_home_alias_exec(&k) {
        return match participants {
            Some((h, _a)) => Some(h),
            None => None,
        };
    }
    if match_odds && is_away_alias_exec(&k) {
        return match participants {
            Some((_h, a)) => Some(a),
            None => None,
        };
    }
    match participants {
        Some((h, a)) => {
            if text_matches_chars(&h, &k) {
                Some(h)
            } else if text_matches_chars(&a, &k) {
                Some(a)
            } else {
                Some(k)
            }
        },
        None => Some(k),
    }
}

// ---------------------------------------------------------------------------
// Public interface
// ---------------------------------------------------------------------------

/// The comparison key of a name (see `spec_normalize_key`).
pub fn normalize_key(value: &str) -> (r: String)
    ensures
        r@ == spec_normalize_key(value@),
{
    let v = chars_of(value);
    let k = normalize_chars(&v);
    string_of(&k)
}

/// Whether two names agree once normalized: equal, or one (longer than one
/// character) containing the other.
pub fn text_matches(left: &str, right: &str) -> (r: bool)
    ensures
        r == spec_text_matches(left@, right@),
{
    text_matches_chars(&chars_of(left), &chars_of(right))
}

/// The comparison key of a market name, with the aliases of the match odds
/// market mapped to "match odds".
pub fn normalize_market(value: &str) -> (r: String)
    ensures
        r@ == spec_normalize_market(value@),
{
    let k = normalize_market_chars(&chars_of(value));
    string_of(&k)
}

/// Whether two market names name the same market.
pub fn market_matches(left: &str, right: &str) -> (r: bool)
    ensures
        r == spec_market_matches(left@, right@),
{
    market_matches_chars(&chars_of(left), &chars_of(right))
}

/// Whether two event names name the same event; a blank name matches
/// anything, and home/away may be written in either order.
pub fn event_matches(left: &str, right: &str) -> (r: bool)
    ensures
        r == spec_event_matches(left@, right@),
{
    event_matches_chars(&chars_of(left), &chars_of(right))
}

/// Whether two selection names name the same selection, draw/home/away
/// aliases included.
pub fn selection_matches(left: &str, right: &str) -> (r: bool)
    ensures
        r == spec_selection_matches(left@, right@),
{
    selection_matches_chars(&chars_of(left), &chars_of(right))
}

/// Whether two selections match, directly or once resolved against their
/// events and markets ("1" in a match odds market is the home side).
pub fn selection_matches_with_context(
    left_selection: &str,
    left_event: &str,
    left_market: &str,
    right_selection: &str,
    right_event: &str,
    right_market: &str,
) -> (r: bool)
    ensures
        r == spec_selection_matches_with_context(
            left_selection@,
            left_event@,
            left_market@,
            right_selection@,
            right_event@,
            right_market@,
        ),
{
    let ls = chars_of(left_selection);
    let rs = chars_of(right_selection);
    if selection_matches_chars(&ls, &rs) {
        return true;
    }
    let left = canonical_selection_chars(&ls, &chars_of(left_event), &chars_of(left_market));
    let right = canonical_selection_chars(&rs, &chars_of(right_event), &chars_of(right_market));
    match (left, right) {
        (Some(a), Some(b)) => same_chars(&a, &b),
        _ => false,
    }
}

// ---------------------------------------------------------------------------
// Laws
// ---------------------------------------------------------------------------

/// A character a comparison key is made of, besides the space.
pub open spec fn is_key_char(c: char) -> bool {
    ('a' <= c && c <= 'z') || ('0' <= c && c <= '9')
}

/// Every comparison key is made of lower-case ASCII letters, digits and
/// single spaces, with no space at either end; being ASCII, its length in
/// bytes is its length in characters (the length the matching rules test).
pub proof fn lemma_normalized_key_shape(s: Seq<char>)
    ensures
        all_chars_or_space(spec_normalize_key(s), |c: char| is_key_char(c)),
        single_spaced(spec_normalize_key(s)),
        vstd::utf8::is_ascii_chars(spec_normalize_key(s)),
        vstd::utf8::encode_utf8(spec_normalize_key(s)).len() == spec_normalize_key(s).len(),
{
    let np = |c: char| !('A' <= c && c <= 'Z');
    let lowered = lower_chars(s);
    assert forall|i: int| 0 <= i < lowered.len() implies #[trigger] np(lowered[i]) by {
        assert(lowered[i] == ascii_lower(s[i]));
    }
    reveal_strlit("v");
    assert(all_chars("v"@, np)) by {
        assert forall|i: int| 0 <= i < "v"@.len() implies #[trigger] np("v"@[i]) by {
            assert("v"@[i] == 'v');
        }
    }
    let r1 = replace_all(lowered, "versus"@, "v"@);
    let r2 = replace_all(r1, "vs."@, "v"@);
    let r3 = replace_all(r2, "vs"@, "v"@);
    lemma_replace_all_keeps(lowered, "versus"@, "v"@, np);
    lemma_replace_all_keeps(r1, "vs."@, "v"@, np);
    lemma_replace_all_keeps(r2, "vs"@, "v"@, np);
    let b = blank_separators(r3);
    let kp = |c: char| is_key_char(c) || c == ' ';
    assert forall|i: int| 0 <= i < b.len() implies #[trigger] kp(b[i]) by {
        assert(np(r3[i]));
    }
    lemma_words_chars(b, kp);
    lemma_join_single_spaced(words(b), kp);
    let k = spec_normalize_key(s);
    assert(k == join(words(b), seq![' ']));
    assert forall|i: int| 0 <= i < k.len() implies is_key_char(#[trigger] k[i]) || k[i] == ' ' by {
        assert(kp(k[i]) || k[i] == ' ');
    }
    assert(vstd::utf8::is_ascii_chars(k)) by {
        assert forall|i: int| 0 <= i < k.len() implies '\0' <= #[trigger] k[i] <= '\u{7f}' by {
            assert(kp(k[i]) || k[i] == ' ');
        }
    }
    vstd::utf8::is_ascii_chars_encode_utf8(k);
}

/// Matching names does not depend on the order in which they are given.
pub proof fn lemma_matching_is_symmetric(a: Seq<char>, b: Seq<char>)
    ensures
        spec_text_matches(a, b) == spec_text_matches(b, a),
        spec_market_matches(a, b) == spec_market_matches(b, a),
        spec_selection_matches(a, b) == spec_selection_matches(b, a),
        spec_event_matches(a, b) == spec_event_matches(b, a),
{
}

/// Matching selections in context does not depend on which side each
/// selection is given.
pub proof fn lemma_selection_context_symmetric(
    ls: Seq<char>,
    le: Seq<char>,
    lm: Seq<char>,
    rs: Seq<char>,
    re: Seq<char>,
    rm: Seq<char>,
)
    ensures
        spec_selection_matches_with_context(ls, le, lm, rs, re, rm)
            == spec_selection_matches_with_context(rs, re, rm, ls, le, lm),
{
    lemma_matching_is_symmetric(ls, rs);
}

/// Markets that match a third market match each other.
pub proof fn lemma_market_matching_is_transitive(a: Seq<char>, b: Seq<char>, c: Seq<char>)
    requires
        spec_market_matches(a, b),
        spec_market_matches(b, c),
    ensures
        spec_market_matches(a, c),
{
}

/// A market matches itself exactly when its key is not empty, and all
/// aliases of the match odds market match one another.
pub proof fn lemma_market_aliases_match(a: Seq<char>, b: Seq<char>)
    ensures
        spec_market_matches(a, a) <==> spec_normalize_market(a).len() > 0,
        is_match_odds_alias(spec_normalize_key(a)) && is_match_odds_alias(spec_normalize_key(b))
            ==> spec_market_matches(a, b),
{
    reveal_strlit("match odds");
}

/// A blank event name matches every event name, and two event names whose
/// home and away sides are swapped match.
pub proof fn lemma_event_matching_accepts_blank_and_swapped(a: Seq<char>, b: Seq<char>)
    ensures
        trim(a).len() == 0 ==> spec_event_matches(a, b),
        (spec_event_participants(a) matches Some((h, w)) && spec_event_participants(b) == Some(
            (w, h),
        )) ==> spec_event_matches(a, b),
        (spec_event_participants(a) matches Some(p) && spec_event_participants(b) == Some(p))
            ==> spec_event_matches(a, b),
{
}

/// A team name written as one word: ASCII letters and digits only.
pub open spec fn alphanumeric_word(s: Seq<char>) -> bool {
    s.len() > 0 && forall|i: int| 0 <= i < s.len() ==> is_ascii_alphanumeric(#[trigger] s[i])
}

/// A separator of the event forms: a space, a non-empty middle without
/// spaces, a space, already in lower case.
pub open spec fn spaced_separator(m: Seq<char>) -> bool {
    &&& m.len() >= 3
    &&& m[0] == ' '
    &&& m[m.len() - 1] == ' '
    &&& forall|i: int| 0 < i < m.len() - 1 ==> #[trigger] m[i] != ' '
    &&& lower_chars(m) == m
}

/// The key of a one-word name is not empty.
proof fn lemma_word_key_nonempty(s: Seq<char>)
    requires
        alphanumeric_word(s),
    ensures
        spec_normalize_key(s).len() > 0,
{
    let an = |c: char| is_ascii_alphanumeric(c);
    let lowered = lower_chars(s);
    assert forall|i: int| 0 <= i < lowered.len() implies #[trigger] an(lowered[i]) by {
        assert(lowered[i] == ascii_lower(s[i]));
        assert(an(s[i]));
    }
    reveal_strlit("v");
    reveal_strlit("versus");
    reveal_strlit("vs.");
    reveal_strlit("vs");
    assert(all_chars("v"@, an)) by {
        assert forall|i: int| 0 <= i < "v"@.len() implies #[trigger] an("v"@[i]) by {
            assert("v"@[i] == 'v');
        }
    }
    let r1 = replace_all(lowered, "versus"@, "v"@);
    let r2 = replace_all(r1, "vs."@, "v"@);
    let r3 = replace_all(r2, "vs"@, "v"@);
    lemma_replace_all_keeps(lowered, "versus"@, "v"@, an);
    lemma_replace_all_keeps(r1, "vs."@, "v"@, an);
    lemma_replace_all_keeps(r2, "vs"@, "v"@, an);
    assert(r1.len() > 0);
    assert(r2.len() > 0);
    assert(r3.len() > 0);
    let b = blank_separators(r3);
    assert(b =~= r3) by {
        assert forall|i: int| 0 <= i < r3.len() implies b[i] == r3[i] by {
            assert(an(r3[i]));
        }
    }
    assert(an(b.last()));
    lemma_words_nonempty(b);
    lemma_join_empty(words(b), seq![' ']);
}

/// In `x + m + y`, with one-word sides and a spaced separator `m`, a spaced
/// separator `sep` is found (ignoring case) only if it is `m`, and then
/// right after `x`.
proof fn lemma_find_separator(x: Seq<char>, y: Seq<char>, m: Seq<char>, sep: Seq<char>)
    requires
        alphanumeric_word(x),
        alphanumeric_word(y),
        spaced_separator(m),
        spaced_separator(sep),
    ensures
        find_text(lower_chars(x + m + y), sep) == (if sep == m {
            Some(x.len() as int)
        } else {
            None::<int>
        }),
{
    let t = x + m + y;
    let l = lower_chars(t);
    let xl = x.len() as int;
    let ml = m.len() as int;
    assert(l.len() == t.len());
    assert forall|k: int| 0 <= k < l.len() && #[trigger] l[k] == ' ' implies k == xl || k == xl
        + ml - 1 by {
        assert(l[k] == ascii_lower(t[k]));
        if k < xl {
            assert(t[k] == x[k]);
            assert(is_ascii_alphanumeric(x[k]));
        } else if k < xl + ml {
            assert(t[k] == m[k - xl]);
            assert(lower_chars(m)[k - xl] == ascii_lower(m[k - xl]));
            if 0 < k - xl < ml - 1 {
                assert(m[k - xl] != ' ');
            }
        } else {
            assert(t[k] == y[k - xl - ml]);
            assert(is_ascii_alphanumeric(y[k - xl - ml]));
        }
    }
    assert forall|j: int| #[trigger] occurs_at(l, sep, j) implies j == xl && sep == m by {
        let sl = sep.len() as int;
        assert(l.subrange(j, j + sl)[0] == l[j]);
        assert(l.subrange(j, j + sl)[sl - 1] == l[j + sl - 1]);
        assert(l[j] == ' ');
        assert(l[j + sl - 1] == ' ');
        assert(j == xl);
        assert(j + sl - 1 == xl + ml - 1);
        assert(l.subrange(j, j + sl) =~= m) by {
            assert forall|i: int| 0 <= i < sl implies l.subrange(j, j + sl)[i] == m[i] by {
                assert(l.subrange(j, j + sl)[i] == l[j + i]);
                assert(l[j + i] == ascii_lower(t[j + i]));
                assert(t[j + i] == m[i]);
                assert(lower_chars(m)[i] == ascii_lower(m[i]));
            }
        }
    }
    lemma_find_text(l, sep);
    if sep == m {
        assert(occurs_at(l, sep, xl)) by {
            assert(l.subrange(xl, xl + ml) =~= m) by {
                assert forall|i: int| 0 <= i < ml implies l.subrange(xl, xl + ml)[i] == m[i] by {
                    assert(l[xl + i] == ascii_lower(t[xl + i]));
                    assert(t[xl + i] == m[i]);
                    assert(lower_chars(m)[i] == ascii_lower(m[i]));
                }
            }
        }
    }
}

/// What `participants_with` reads off `x + m + y`.
proof fn lemma_participants_with_joined(
    x: Seq<char>,
    y: Seq<char>,
    m: Seq<char>,
    sep: Seq<char>,
    away_first: bool,
)
    requires
        alphanumeric_word(x),
        alphanumeric_word(y),
        spaced_separator(m),
        spaced_separator(sep),
    ensures
        participants_with(x + m + y, sep, away_first) == (if sep != m {
            None
        } else if away_first {
            Some((spec_normalize_key(y), spec_normalize_key(x)))
        } else {
            Some((spec_normalize_key(x), spec_normalize_key(y)))
        }),
{
    lemma_find_separator(x, y, m, sep);
    lemma_word_key_nonempty(x);
    lemma_word_key_nonempty(y);
    let t = x + m + y;
    if sep == m {
        assert(t.take(x.len() as int) =~= x);
        assert(t.skip((x.len() + m.len()) as int) =~= y);
    }
}

/// The separators of the event forms are spaced separators, and all differ.
proof fn lemma_event_separators()
    ensures
        spaced_separator(" versus "@),
        spaced_separator(" vs. "@),
        spaced_separator(" vs "@),
        spaced_separator(" v "@),
        spaced_separator(" @ "@),
        spaced_separator(" at "@),
        " versus "@ != " vs. "@,
        " versus "@ != " vs "@,
        " versus "@ != " v "@,
        " versus "@ != " @ "@,
        " versus "@ != " at "@,
        " vs. "@ != " vs "@,
        " vs. "@ != " v "@,
        " vs. "@ != " @ "@,
        " vs. "@ != " at "@,
        " vs "@ != " v "@,
        " vs "@ != " @ "@,
        " vs "@ != " at "@,
        " v "@ != " @ "@,
        " v "@ != " at "@,
        " @ "@ != " at "@,
{
    reveal_strlit(" versus ");
    reveal_strlit(" vs. ");
    reveal_strlit(" vs ");
    reveal_strlit(" v ");
    reveal_strlit(" @ ");
    reveal_strlit(" at ");
    assert(lower_chars(" versus "@) =~= " versus "@);
    assert(lower_chars(" vs. "@) =~= " vs. "@);
    assert(lower_chars(" vs "@) =~= " vs "@);
    assert(lower_chars(" v "@) =~= " v "@);
    assert(lower_chars(" @ "@) =~= " @ "@);
    assert(lower_chars(" at "@) =~= " at "@);
    assert(" vs "@[2] != " v "@[2]);
    assert(" vs "@[2] != " at "@[2]);
    assert(" @ "@[1] != " v "@[1]);
}

/// The participants of `x + m + y`, read with each separator in turn.
proof fn lemma_event_participants_joined(x: Seq<char>, y: Seq<char>, m: Seq<char>)
    requires
        alphanumeric_word(x),
        alphanumeric_word(y),
        spaced_separator(m),
    ensures
        trim(x + m + y) == x + m + y,
        forall|sep: Seq<char>, away_first: bool|
            spaced_separator(sep) ==> #[trigger] participants_with(x + m + y, sep, away_first) == (
            if sep != m {
                None
            } else if away_first {
                Some((spec_normalize_key(y), spec_normalize_key(x)))
            } else {
                Some((spec_normalize_key(x), spec_normalize_key(y)))
            }),
{
    let t = x + m + y;
    assert(t[0] == x[0]);
    assert(is_ascii_alphanumeric(x[0]));
    assert(trim_start(t) == t);
    assert(t.last() == y[y.len() - 1]);
    assert(is_ascii_alphanumeric(y[y.len() - 1]));
    assert(trim_end(t) == t);
    assert forall|sep: Seq<char>, away_first: bool| spaced_separator(sep) implies #[trigger]
        participants_with(x + m + y, sep, away_first) == (if sep != m {
            None
        } else if away_first {
            Some((spec_normalize_key(y), spec_normalize_key(x)))
        } else {
            Some((spec_normalize_key(x), spec_normalize_key(y)))
        }) by {
        lemma_participants_with_joined(x, y, m, sep, away_first);
    }
}

/// An event written "away @ home" or "away at home" names the same home and
/// away sides as "home v away", "home vs away", "home vs. away" and
/// "home versus away", for one-word team names; and such names match.
pub proof fn lemma_away_first_forms_agree(a: Seq<char>, b: Seq<char>)
    requires
        alphanumeric_word(a),
        alphanumeric_word(b),
    ensures
        spec_event_participants(a + " @ "@ + b) == Some((spec_normalize_key(b), spec_normalize_key(a))),
        spec_event_participants(a + " at "@ + b) == Some((spec_normalize_key(b), spec_normalize_key(a))),
        spec_event_participants(b + " v "@ + a) == Some((spec_normalize_key(b), spec_normalize_key(a))),
        spec_event_participants(b + " vs "@ + a) == Some((spec_normalize_key(b), spec_normalize_key(a))),
        spec_event_participants(b + " vs. "@ + a) == Some((spec_normalize_key(b), spec_normalize_key(a))),
        spec_event_participants(b + " versus "@ + a) == Some(
            (spec_normalize_key(b), spec_normalize_key(a)),
        ),
        spec_event_matches(a + " @ "@ + b, b + " v "@ + a),
        spec_event_matches(a + " at "@ + b, b + " vs "@ + a),
{
    lemma_event_separators();
    lemma_word_key_nonempty(a);
    lemma_word_key_nonempty(b);
    lemma_event_participants_joined(a, b, " @ "@);
    lemma_event_participants_joined(a, b, " at "@);
    lemma_event_participants_joined(b, a, " v "@);
    lemma_event_participants_joined(b, a, " vs "@);
    lemma_event_participants_joined(b, a, " vs. "@);
    lemma_event_participants_joined(b, a, " versus "@);
}

/// Event names whose comparison keys match are the same event, whatever
/// separators they use; in particular every event name with a non-empty
/// key matches itself.
pub proof fn lemma_matching_keys_match_events(a: Seq<char>, b: Seq<char>)
    ensures
        spec_text_matches(a, b) ==> spec_event_matches(a, b),
        spec_normalize_key(a).len() > 0 ==> spec_event_matches(a, a),
{
}

/// Every name of the "match odds" market reads as "match odds": "full time
/// result", "fulltime result", "match result", "match odds", "match
/// betting", "1 x 2", "1x2", "three way", "to win", "winner", "moneyline"
/// and "h2h"; and any two such names match.
pub proof fn lemma_match_odds_names(s: Seq<char>, t: Seq<char>)
    ensures
        spec_normalize_key(s) == "full time result"@ ==> spec_normalize_market(s) == "match odds"@,
        spec_normalize_key(s) == "fulltime result"@ ==> spec_normalize_market(s) == "match odds"@,
        spec_normalize_key(s) == "match result"@ ==> spec_normalize_market(s) == "match odds"@,
        spec_normalize_key(s) == "match odds"@ ==> spec_normalize_market(s) == "match odds"@,
        spec_normalize_key(s) == "match betting"@ ==> spec_normalize_market(s) == "match odds"@,
        spec_normalize_key(s) == "1 x 2"@ ==> spec_normalize_market(s) == "match odds"@,
        spec_normalize_key(s) == "1x2"@ ==> spec_normalize_market(s) == "match odds"@,
        spec_normalize_key(s) == "three way"@ ==> spec_normalize_market(s) == "match odds"@,
        spec_normalize_key(s) == "to win"@ ==> spec_normalize_market(s) == "match odds"@,
        spec_normalize_key(s) == "winner"@ ==> spec_normalize_market(s) == "match odds"@,
        spec_normalize_key(s) == "moneyline"@ ==> spec_normalize_market(s) == "match odds"@,
        spec_normalize_key(s) == "h2h"@ ==> spec_normalize_market(s) == "match odds"@,
        spec_normalize_market(s) == "match odds"@ && spec_normalize_market(t) == "match odds"@
            ==> spec_market_matches(s, t),
{
    reveal_strlit("match odds");
}

/// Selection matching accepts whatever name matching accepts: equal keys,
/// and a key longer than one character that contains the other ("arsenal
/// fc" and "arsenal").
pub proof fn lemma_selection_matching_extends_name_matching(l: Seq<char>, r: Seq<char>)
    ensures
        spec_text_matches(l, r) ==> spec_selection_matches(l, r),
        ({
            let a = spec_normalize_key(l);
            let b = spec_normalize_key(r);
            a.len() > 1 && b.len() > 0 && contains_text(a, b) ==> spec_selection_matches(l, r)
        }),
{
}

/// Two selections that are both draw aliases, both home aliases or both
/// away aliases match.
pub proof fn lemma_selection_aliases_match(a: Seq<char>, b: Seq<char>)
    ensures
        is_draw_alias(spec_normalize_key(a)) && is_draw_alias(spec_normalize_key(b))
            ==> spec_selection_matches(a, b),
        is_home_alias(spec_normalize_key(a)) && is_home_alias(spec_normalize_key(b))
            ==> spec_selection_matches(a, b),
        is_away_alias(spec_normalize_key(a)) && is_away_alias(spec_normalize_key(b))
            ==> spec_selection_matches(a, b),
{
    reveal_strlit("x");
    reveal_strlit("draw");
    reveal_strlit("tie");
    reveal_strlit("1");
    reveal_strlit("home");
    reveal_strlit("home team");
    reveal_strlit("2");
    reveal_strlit("away");
    reveal_strlit("away team");
}

} // verus!
