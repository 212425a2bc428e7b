use operator_console::panels::horse_matcher;
use operator_console::panels::matcher::register_tab_targets;
use operator_console::panels::oddsmatcher::{
    inner_area, parse_isoish_start, short_bookmaker_name, start_date_label, start_time_label,
    timeframe_label,
};
use operator_console::panels::trading_markets::{if_empty, truncate};
use operator_console::panels::Rect;

#[test]
fn timeframe_labels() {
    assert_eq!(timeframe_label(0), "All");
    assert_eq!(timeframe_label(1), "30 minutes");
    assert_eq!(timeframe_label(1_800), "30 minutes");
    assert_eq!(timeframe_label(1_801), "1 hour");
    assert_eq!(timeframe_label(21_600), "6 hours");
    assert_eq!(timeframe_label(604_800), "7 days");
    assert_eq!(timeframe_label(604_801), "604801s");
    assert_eq!(timeframe_label(u64::MAX), "18446744073709551615s");
}

#[test]
fn bookmaker_names_are_shortened() {
    assert_eq!(short_bookmaker_name("Betfair Exchange"), "Betfair");
    assert_eq!(short_bookmaker_name("Smarkets"), "Smarkets");
    assert_eq!(short_bookmaker_name("BetVictor"), "BetVictor");
    assert_eq!(short_bookmaker_name("William Hill"), "William H");
    assert_eq!(short_bookmaker_name("ééééé"), "ééééé");
}

#[test]
fn start_times_are_split_into_date_and_time() {
    assert_eq!(
        parse_isoish_start(" 2026-03-14T17:30:00Z "),
        Some((String::from("2026-03-14"), String::from("17:30")))
    );
    assert_eq!(parse_isoish_start("2026-03-14 17:30"), None);
    assert_eq!(parse_isoish_start("2026-03-14T17:3"), None);
    assert_eq!(start_date_label("2026-03-14T17:30:00Z"), "2026-03-14");
    assert_eq!(start_time_label("2026-03-14T17:30:00Z"), "17:30");
    assert_eq!(start_date_label("soon"), "-");
    assert_eq!(start_time_label("soon"), "-");
    assert_eq!(horse_matcher::start_date_label("2026-03-14T17:30:00Z"), "2026-03-14");
    assert_eq!(horse_matcher::start_date_label("tomorrow"), "tomorrow");
}

#[test]
fn areas_and_tab_targets() {
    let area = Rect { x: 2, y: 3, width: 40, height: 1 };
    assert_eq!(inner_area(area), Rect { x: 3, y: 4, width: 38, height: 0 });
    let targets = register_tab_targets(area, &vec!["Odds", "Horse", "Acca"]);
    assert_eq!(
        targets,
        vec![
            Rect { x: 3, y: 4, width: 4, height: 1 },
            Rect { x: 9, y: 4, width: 5, height: 1 },
            Rect { x: 16, y: 4, width: 4, height: 1 },
        ]
    );
}

#[test]
fn truncation_and_fallbacks() {
    assert_eq!(truncate("short", 10), "short");
    assert_eq!(truncate("a long endpoint name", 10), "a long ...");
    assert_eq!(truncate("abcdef", 2), "...");
    assert_eq!(if_empty("  ", "none"), "none");
    assert_eq!(if_empty("x", "none"), "x");
}
