use operator_console::native_trading::{
    marker_reference_id, marker_status, slip_text_mismatch, SlipMismatch, TradeAction,
    TradeEvent, TradeFlow, TradeStage,
};
use operator_console::panels::oddsmatcher::timeframe_preset_index;

fn start(review: bool, deep: Option<&str>, event: Option<&str>) -> (TradeFlow, TradeAction) {
    TradeFlow::start(
        Some("sabi"),
        review,
        false,
        deep.map(String::from),
        event.map(String::from),
    )
}

#[test]
fn missing_session_fails_before_anything_is_recorded() {
    let (flow, action) = TradeFlow::start(None, false, false, None, None);
    assert_eq!(flow.stage, TradeStage::Finished);
    assert_eq!(
        action,
        TradeAction::Fail(String::from(
            "Trading action execution requires agent_browser_session in recorder config."
        ))
    );
    let (_, action) = TradeFlow::start(Some("   "), false, false, None, None);
    assert!(matches!(action, TradeAction::Fail(_)));
}

#[test]
fn placed_trade_runs_every_step() {
    let (flow, action) = start(false, Some("https://smarkets.com/betslip/1"), None);
    assert_eq!(action, TradeAction::RecordRequest);
    let (flow, action) = flow.step(TradeEvent::Succeeded);
    assert_eq!(action, TradeAction::OpenPage(String::from("https://smarkets.com/betslip/1")));
    let (flow, action) = flow.step(TradeEvent::Succeeded);
    assert_eq!(action, TradeAction::CheckSlip);
    let (flow, action) = flow.step(TradeEvent::SlipShown(true));
    assert_eq!(action, TradeAction::SetStake);
    let (flow, action) = flow.step(TradeEvent::Succeeded);
    assert_eq!(action, TradeAction::VerifySlip);
    let (flow, action) = flow.step(TradeEvent::Succeeded);
    assert_eq!(action, TradeAction::PlaceBet);
    let (flow, action) = flow.step(TradeEvent::Succeeded);
    assert_eq!(action, TradeAction::RecordOutcome("submitted"));
    let (flow, action) = flow.step(TradeEvent::Succeeded);
    assert_eq!(action, TradeAction::Succeed("submitted"));
    assert_eq!(flow.stage, TradeStage::Finished);
}

#[test]
fn review_trade_never_places_a_bet() {
    let (flow, _) = start(true, None, Some("https://www.smarkets.com/event/9"));
    let (flow, action) = flow.step(TradeEvent::Succeeded);
    assert_eq!(action, TradeAction::OpenPage(String::from("https://www.smarkets.com/event/9")));
    let (flow, _) = flow.step(TradeEvent::Succeeded);
    let (flow, action) = flow.step(TradeEvent::SlipShown(false));
    assert_eq!(action, TradeAction::PopulateSlip);
    let (flow, _) = flow.step(TradeEvent::Succeeded);
    let (flow, _) = flow.step(TradeEvent::Succeeded);
    let (flow, action) = flow.step(TradeEvent::Succeeded);
    assert_eq!(action, TradeAction::RecordOutcome("review_ready"));
    let (_, action) = flow.step(TradeEvent::Succeeded);
    assert_eq!(action, TradeAction::Succeed("review_ready"));
}

#[test]
fn fill_or_kill_status() {
    let (flow, _) =
        TradeFlow::start(Some("s"), false, true, Some(String::from("https://smarkets.com/x")), None);
    let mut flow = flow;
    let mut last = TradeAction::RecordRequest;
    let events = [
        TradeEvent::Succeeded,
        TradeEvent::Succeeded,
        TradeEvent::SlipShown(true),
        TradeEvent::Succeeded,
        TradeEvent::Succeeded,
        TradeEvent::Succeeded,
    ];
    for event in events {
        let (next, action) = flow.step(event);
        flow = next;
        last = action;
    }
    assert_eq!(last, TradeAction::RecordOutcome("submitted_fill_or_kill"));
}

#[test]
fn failures_after_the_request_are_recorded_then_reported() {
    let (flow, _) = start(false, Some("https://smarkets.com/a"), None);
    let (flow, _) = flow.step(TradeEvent::Succeeded);
    let (flow, action) = flow.step(TradeEvent::Failed(String::from("timeout")));
    assert_eq!(action, TradeAction::RecordFailure(String::from("timeout")));
    assert_eq!(flow.stage, TradeStage::RecordingFailure);
    let (flow, action) = flow.step(TradeEvent::Failed(String::from("disk full")));
    assert_eq!(action, TradeAction::Fail(String::from("timeout")));
    assert_eq!(flow.stage, TradeStage::Finished);
}

#[test]
fn request_marker_failure_ends_the_trade_unrecorded() {
    let (flow, _) = start(false, Some("https://smarkets.com/a"), None);
    let (flow, action) = flow.step(TradeEvent::Failed(String::from("read-only")));
    assert_eq!(action, TradeAction::Fail(String::from("read-only")));
    assert_eq!(flow.stage, TradeStage::Finished);
}

#[test]
fn target_page_errors() {
    let (flow, _) = start(false, None, None);
    let (_, action) = flow.step(TradeEvent::Succeeded);
    assert_eq!(
        action,
        TradeAction::RecordFailure(String::from("Trading action target URL is missing."))
    );
    let (flow, _) = start(false, Some("https://example.com"), Some("https://smarkets.com/e"));
    let (_, action) = flow.step(TradeEvent::Succeeded);
    assert_eq!(
        action,
        TradeAction::RecordFailure(String::from(
            "Trading action target URL must point to smarkets.com."
        ))
    );
    let (flow, _) = start(false, Some("https://smarkets.com/d"), None);
    let (flow, _) = flow.step(TradeEvent::Succeeded);
    let (flow, _) = flow.step(TradeEvent::Succeeded);
    let (_, action) = flow.step(TradeEvent::SlipShown(false));
    assert_eq!(
        action,
        TradeAction::RecordFailure(String::from(
            "Trading action deep link did not expose a populated Smarkets bet slip."
        ))
    );
}

#[test]
fn recorded_outcome_failure_is_reported() {
    let (flow, _) = start(true, Some("https://smarkets.com/d"), None);
    let (flow, _) = flow.step(TradeEvent::Succeeded);
    let (flow, _) = flow.step(TradeEvent::Succeeded);
    let (flow, _) = flow.step(TradeEvent::SlipShown(true));
    let (flow, _) = flow.step(TradeEvent::Succeeded);
    let (flow, _) = flow.step(TradeEvent::Succeeded);
    let (_, action) = flow.step(TradeEvent::Failed(String::from("no space")));
    assert_eq!(action, TradeAction::Fail(String::from("no space")));
}

#[test]
fn slip_text_is_compared_with_the_trade() {
    assert_eq!(slip_text_mismatch("Arsenal 2.5", "BACK", "Arsenal", "Back"), None);
    assert_eq!(
        slip_text_mismatch("Everton", "Back", "Arsenal", "Back"),
        Some(SlipMismatch::Contract)
    );
    assert_eq!(
        slip_text_mismatch("Arsenal", "Lay", "Arsenal", "Back"),
        Some(SlipMismatch::Side)
    );
    assert_eq!(slip_text_mismatch("ÉCOLE", "ÀLA", "ÉCOLE", "àla"), None);
}

#[test]
fn marker_fields() {
    assert_eq!(marker_status("request", "requested"), "request:requested");
    assert_eq!(marker_status("response", "error"), "response:error");
    assert_eq!(marker_reference_id(""), None);
    assert_eq!(marker_reference_id("ref-7"), Some(String::from("ref-7")));
}

#[test]
fn timeframe_gauge_positions() {
    assert_eq!(timeframe_preset_index(0), 0);
    assert_eq!(timeframe_preset_index(1_800), 0);
    assert_eq!(timeframe_preset_index(1_801), 1);
    assert_eq!(timeframe_preset_index(21_600), 3);
    assert_eq!(timeframe_preset_index(604_800), 6);
    assert_eq!(timeframe_preset_index(604_801), 7);
}
