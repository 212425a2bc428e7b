use operator_console::agent_browser::{browser_command, screenshot_path_for};
use operator_console::console::{help_text, wants_help};
use operator_console::native_trading::{
    action_status, assert_smarkets_target_url, session_configured, slip_needs_population,
    trade_target_url, TradingError,
};
use operator_console::paths::{
    alerts_config_path, default_log_path, path_join, should_log_to_stderr,
};

#[test]
fn screenshot_paths() {
    assert_eq!(
        screenshot_path_for("/tmp/run", "dashboard", "2026-03-18T12:00:00Z"),
        "/tmp/run/screenshots/dashboard-2026-03-18T12-00-00Z.png"
    );
    assert_eq!(
        screenshot_path_for("/tmp/run/", "p", "a:b"),
        "/tmp/run/screenshots/p-a-b.png"
    );
}

#[test]
fn path_joining_follows_unix_rules() {
    assert_eq!(path_join("a", "b"), "a/b");
    assert_eq!(path_join("a/", "b"), "a/b");
    assert_eq!(path_join("", "b"), "b");
    assert_eq!(path_join("a", "/b"), "/b");
    assert_eq!(path_join("a", ""), "a/");
}

#[test]
fn config_and_log_locations() {
    assert_eq!(alerts_config_path(Some("/x.json"), Some("/cfg"), Some("/home/u")), "/x.json");
    assert_eq!(alerts_config_path(None, Some("/cfg"), Some("/home/u")), "/cfg/sabi/alerts.json");
    assert_eq!(alerts_config_path(None, None, Some("/home/u")), "/home/u/.config/sabi/alerts.json");
    assert_eq!(alerts_config_path(None, None, None), "/tmp/sabi/alerts.json");
    assert_eq!(
        default_log_path(None, Some("/home/u")),
        "/home/u/.local/state/sabi/logs/operator-console.log"
    );
    assert_eq!(default_log_path(Some("/st"), None), "/st/sabi/logs/operator-console.log");
    assert!(should_log_to_stderr(true, true));
    assert!(should_log_to_stderr(false, false));
    assert!(!should_log_to_stderr(false, true));
}

#[test]
fn browser_command_lines() {
    assert_eq!(
        browser_command(Some("main"), &vec!["get", "url"]),
        vec!["agent-browser", "--session", "main", "--json", "get", "url"]
    );
    assert_eq!(
        browser_command(None, &vec!["wait", "125"]),
        vec!["agent-browser", "--json", "wait", "125"]
    );
}

#[test]
fn trading_decisions() {
    assert!(!session_configured(None));
    assert!(!session_configured(Some("   ")));
    assert!(session_configured(Some("desk")));
    assert_eq!(assert_smarkets_target_url("https://smarkets.com/event/1"), Ok(()));
    assert_eq!(assert_smarkets_target_url("https://www.smarkets.com/x"), Ok(()));
    assert_eq!(
        assert_smarkets_target_url("https://example.com"),
        Err(TradingError::NotSmarketsUrl)
    );
    assert_eq!(
        trade_target_url(None, Some("https://smarkets.com/e")),
        Ok(String::from("https://smarkets.com/e"))
    );
    assert_eq!(
        trade_target_url(Some("https://evil.com"), Some("https://smarkets.com/e")),
        Err(TradingError::NotSmarketsUrl)
    );
    assert_eq!(trade_target_url(None, None), Err(TradingError::MissingTargetUrl));
    assert_eq!(
        TradingError::MissingTargetUrl.message(),
        "Trading action target URL is missing."
    );
    assert_eq!(slip_needs_population(true, false), Ok(false));
    assert_eq!(slip_needs_population(false, true), Ok(true));
    assert_eq!(slip_needs_population(false, false), Err(TradingError::SlipNotPopulated));
    assert_eq!(action_status(true, true), "review_ready");
    assert_eq!(action_status(false, true), "submitted_fill_or_kill");
    assert_eq!(action_status(false, false), "submitted");
}

#[test]
fn help_flag_detection() {
    let args = |v: &[&str]| v.iter().map(|s| s.to_string()).collect::<Vec<_>>();
    assert!(wants_help(&args(&["operator-console", "--help"])));
    assert!(wants_help(&args(&["operator-console", "x", "-h"])));
    assert!(!wants_help(&args(&["--help"])));
    assert!(!wants_help(&args(&["operator-console"])));
    assert!(help_text().starts_with("operator-console\n\nUsage:"));
    assert_eq!(operator_console::version(), "0.1.0");
}
