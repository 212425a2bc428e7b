use operator_console::market_normalization::{
    event_matches, market_matches, normalize_key, normalize_market, selection_matches,
    selection_matches_with_context, text_matches,
};

#[test]
fn event_matching_handles_reversed_home_away_formats() {
    assert!(event_matches("Malta vs Luxembourg", "Luxembourg @ Malta",));
}

#[test]
fn market_matching_handles_owls_h2h_alias() {
    assert!(market_matches("Full-time result", "h2h"));
    assert_eq!(normalize_market("1x2"), "match odds");
}

#[test]
fn selection_matching_handles_match_odds_aliases() {
    assert!(selection_matches_with_context(
        "X",
        "Malta vs Luxembourg",
        "Full-time result",
        "Draw",
        "Luxembourg @ Malta",
        "h2h",
    ));
    assert!(selection_matches_with_context(
        "1",
        "Malta vs Luxembourg",
        "Full-time result",
        "Malta",
        "Luxembourg @ Malta",
        "match betting",
    ));
    assert!(selection_matches_with_context(
        "2",
        "Malta vs Luxembourg",
        "Full-time result",
        "Luxembourg",
        "Luxembourg @ Malta",
        "match betting",
    ));
}

#[test]
fn normalize_key_lowercases_shortens_versus_and_collapses_separators() {
    assert_eq!(normalize_key("  Arsenal  VERSUS Everton!! "), "arsenal v everton");
    assert_eq!(normalize_key("Arsenal vs. Everton"), "arsenal v everton");
    assert_eq!(normalize_key("Arsenal vs Everton"), "arsenal v everton");
    assert_eq!(normalize_key("Man-Utd_(W)"), "man utd w");
    assert_eq!(normalize_key("***"), "");
    assert_eq!(normalize_key(""), "");
}

#[test]
fn normalize_key_replaces_non_ascii_characters_by_separators() {
    assert_eq!(normalize_key("Atlético Madrid"), "atl tico madrid");
}

#[test]
fn normalize_key_is_not_idempotent_on_split_versus() {
    // "vs" inside "vsersus" is shortened first, which leaves "versus" behind
    assert_eq!(normalize_key("vsersus"), "versus");
    assert_eq!(normalize_key("versus"), "v");
}

#[test]
fn text_matching_uses_containment_only_for_longer_keys() {
    assert!(text_matches("Arsenal FC", "arsenal"));
    assert!(text_matches("arsenal", "Arsenal FC"));
    assert!(!text_matches("", "arsenal"));
    assert!(!text_matches("a", "b"));
    assert!(text_matches("a", "A"));
    assert!(!text_matches("Chelsea", "Arsenal"));
}

#[test]
fn market_matching_needs_non_empty_names() {
    assert!(!market_matches("", ""));
    assert!(market_matches("Moneyline", "Match Odds"));
    assert!(!market_matches("Over/Under 2.5", "Match Odds"));
    assert_eq!(normalize_market("Over/Under 2.5"), "over under 2 5");
}

#[test]
fn event_matching_accepts_blank_names_and_rejects_other_teams() {
    assert!(event_matches("   ", "Arsenal v Everton"));
    assert!(event_matches("Arsenal v Everton", ""));
    assert!(event_matches("Everton at Arsenal", "Arsenal versus Everton"));
    assert!(!event_matches("Chelsea v Fulham", "Arsenal v Everton"));
}

#[test]
fn selection_matching_handles_aliases_without_context() {
    assert!(selection_matches("X", "draw"));
    assert!(selection_matches("Home", "1"));
    assert!(selection_matches("Away Team", "2"));
    assert!(!selection_matches("1", "2"));
    assert!(!selection_matches("", ""));
}

#[test]
fn selection_matching_with_context_rejects_home_against_away() {
    assert!(!selection_matches_with_context(
        "1",
        "Malta vs Luxembourg",
        "Full-time result",
        "Luxembourg",
        "Luxembourg @ Malta",
        "match betting",
    ));
}

#[test]
fn away_first_forms_name_the_same_sides() {
    assert!(event_matches("Luxembourg @ Malta", "Malta v Luxembourg"));
    assert!(event_matches("Luxembourg at Malta", "Malta vs Luxembourg"));
    assert!(event_matches("Luxembourg @ Malta", "Malta versus Luxembourg"));
    assert!(event_matches("Luxembourg at Malta", "Malta vs. Luxembourg"));
}
