use operator_console::agent_browser::{
    browser_outcome, browser_reply_outcome, check_browser_command, BrowserReply,
};

#[test]
fn successful_reply_is_accepted() {
    assert_eq!(browser_outcome(true, b"", br#"{"success":true,"data":{"url":"x"}}"#), Ok(()));
}

#[test]
fn failed_run_reports_trimmed_stderr() {
    assert_eq!(
        browser_outcome(false, b"  no session \n", b"{\"success\":true}"),
        Err(String::from("no session"))
    );
    assert_eq!(
        browser_outcome(false, b" bad \xff ", b""),
        Err(String::from("bad \u{FFFD}"))
    );
}

#[test]
fn reply_must_be_json() {
    assert_eq!(
        browser_outcome(true, b"", b"not json"),
        Err(String::from("failed to decode agent-browser JSON response"))
    );
}

#[test]
fn unsuccessful_reply_reports_its_error() {
    assert_eq!(
        browser_outcome(true, b"", br#"{"success":false,"error":"timeout"}"#),
        Err(String::from("timeout"))
    );
    assert_eq!(
        browser_outcome(true, b"", br#"{"success":"yes"}"#),
        Err(String::from("agent-browser request failed"))
    );
    assert_eq!(
        browser_outcome(true, b"", b"[1, 2]"),
        Err(String::from("agent-browser request failed"))
    );
}

#[test]
fn reply_outcome_from_read_reply() {
    let reply = BrowserReply { success: Some(false), error: Some(String::from("boom")) };
    assert_eq!(browser_reply_outcome(true, "", Some(reply)), Err(String::from("boom")));
    let ok = BrowserReply { success: Some(true), error: Some(String::from("ignored")) };
    assert_eq!(browser_reply_outcome(true, "", Some(ok)), Ok(()));
    assert_eq!(browser_reply_outcome(false, "\tdown\t", None), Err(String::from("down")));
}

#[test]
fn empty_command_is_refused() {
    assert_eq!(
        check_browser_command(&Vec::new()),
        Err(String::from("agent-browser command is empty"))
    );
    assert_eq!(check_browser_command(&vec![String::from("agent-browser")]), Ok(()));
}
