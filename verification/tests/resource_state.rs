use std::time::{Duration, Instant};

use operator_console::resource_state::{ResourcePhase, ResourceState};

#[test]
fn phases_have_stable_names() {
    assert_eq!(ResourcePhase::Idle.as_str(), "idle");
    assert_eq!(ResourcePhase::Loading.as_str(), "loading");
    assert_eq!(ResourcePhase::Ready.as_str(), "ready");
    assert_eq!(ResourcePhase::Stale.as_str(), "stale");
    assert_eq!(ResourcePhase::Error.as_str(), "error");
}

#[test]
fn failed_refresh_keeps_last_good_payload() {
    let mut state = ResourceState::ready(7u32);
    state.begin_refresh(Instant::now());
    assert!(state.is_loading());
    assert_eq!(state.phase(), ResourcePhase::Loading);
    state.finish_error(String::from("boom"));
    assert_eq!(state.phase(), ResourcePhase::Error);
    assert_eq!(state.last_good(), Some(&7));
    assert_eq!(state.last_error(), Some("boom"));
}

#[test]
fn success_replaces_payload_and_clears_error() {
    let mut state: ResourceState<u32> = ResourceState::idle();
    assert_eq!(state.phase(), ResourcePhase::Idle);
    assert_eq!(state.last_good(), None);
    state.begin_refresh_now();
    state.finish_error(String::from("first try failed"));
    state.begin_refresh_now();
    state.finish_ok(9);
    assert_eq!(state.phase(), ResourcePhase::Ready);
    assert_eq!(state.last_good(), Some(&9));
    assert_eq!(state.last_error(), None);
}

#[test]
fn only_a_loading_resource_expires() {
    let mut state = ResourceState::ready(1u8);
    assert!(!state.expire_if_overdue(Duration::from_secs(0), String::from("late")));
    assert_eq!(state.phase(), ResourcePhase::Ready);

    state.begin_refresh(Instant::now());
    assert!(state.expire_if_overdue(Duration::from_secs(0), String::from("late")));
    assert_eq!(state.phase(), ResourcePhase::Stale);
    assert_eq!(state.last_error(), Some("late"));
    assert_eq!(state.last_good(), Some(&1));
    assert!(!state.is_loading());
}

#[test]
fn refresh_within_timeout_does_not_expire() {
    let mut state = ResourceState::ready(1u8);
    state.begin_refresh(Instant::now());
    assert!(!state.expire_if_overdue(Duration::from_secs(3600), String::from("late")));
    assert_eq!(state.phase(), ResourcePhase::Loading);
}

#[test]
fn expiry_decision_compares_elapsed_with_timeout() {
    let mut state = ResourceState::ready(1u8);
    state.begin_refresh(Instant::now());
    assert!(!state.expire_if_elapsed(999, 1000, String::from("late")));
    assert!(state.is_loading());
    assert!(state.expire_if_elapsed(1000, 1000, String::from("late")));
    assert_eq!(state.phase(), ResourcePhase::Stale);
}
