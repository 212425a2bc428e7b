use operator_console::alerts::{
    format_bool, parse_bool, AlertEditorState, AlertField, AlertSwitches, AlertValue, AlertValueError,
    NotificationLevel,
};

#[test]
fn alert_field_applies_boolean_and_numeric_values() {
    let mut config = AlertSwitches::default();

    config
        .apply_value(AlertField::SoundEffects, "true")
        .expect("apply bool");
    config
        .apply_value(AlertField::CooldownSeconds, "30")
        .expect("apply cooldown");

    assert!(config.desktop_notifications);
    assert_eq!(config.cooldown_seconds, 30);
}

#[test]
fn alert_values_are_read_per_field() {
    assert_eq!(
        AlertField::SoundEffects.parse_value("true"),
        Ok(AlertValue::Flag(true))
    );
    assert_eq!(
        AlertField::CooldownSeconds.parse_value("30"),
        Ok(AlertValue::Seconds(30))
    );
}

#[test]
fn switches_take_typed_values() {
    let mut config = AlertSwitches::default();
    assert_eq!(config.apply_value(AlertField::BetPlaced, " off "), Ok(None));
    assert!(!config.bet_placed);
    assert_eq!(config.flag(AlertField::BetPlaced), Some(false));
    assert_eq!(
        config.apply_value(AlertField::OpportunityThresholdPct, " 2.5 "),
        Ok(Some(String::from("2.5")))
    );
    let before = config;
    assert_eq!(
        config.apply_value(AlertField::Enabled, "maybe"),
        Err(AlertValueError::ExpectedBoolean)
    );
    assert_eq!(
        config.apply_value(AlertField::CooldownSeconds, "1.5"),
        Err(AlertValueError::CooldownNotWholeSeconds)
    );
    assert_eq!(config, before);
    config.set_flag(AlertField::OwlsErrors, false);
    assert!(!config.owls_errors);
    config.set_flag(AlertField::CooldownSeconds, false);
    assert_eq!(config, AlertSwitches { owls_errors: false, ..before });
}

#[test]
fn shown_values_reapply_unchanged() {
    let config = AlertSwitches { tracked_bets: false, cooldown_seconds: 15, ..AlertSwitches::default() };
    assert_eq!(config.display_value(AlertField::TrackedBets), Some(String::from("false")));
    assert_eq!(config.display_value(AlertField::Enabled), Some(String::from("true")));
    assert_eq!(config.display_value(AlertField::CooldownSeconds), Some(String::from("15")));
    assert_eq!(config.display_value(AlertField::WatchedMovementThresholdPct), None);
    for index in 0..18 {
        let field = AlertField::from_index(index);
        if let Some(shown) = config.display_value(field) {
            let mut copy = config;
            copy.apply_value(field, &shown).expect("shown value");
            assert_eq!(copy, config);
        }
    }
}

#[test]
fn boolean_words_are_read_case_insensitively() {
    assert_eq!(parse_bool(" YES "), Ok(true));
    assert_eq!(parse_bool("on"), Ok(true));
    assert_eq!(parse_bool("1"), Ok(true));
    assert_eq!(parse_bool("Off"), Ok(false));
    assert_eq!(parse_bool("no"), Ok(false));
    assert_eq!(parse_bool("maybe"), Err(AlertValueError::ExpectedBoolean));
    assert_eq!(
        AlertValueError::ExpectedBoolean.message(),
        "Expected a boolean value."
    );
}

#[test]
fn cooldown_must_be_a_whole_number() {
    assert_eq!(
        AlertField::CooldownSeconds.parse_value(" +300 "),
        Ok(AlertValue::Seconds(300))
    );
    assert_eq!(
        AlertField::CooldownSeconds.parse_value("1.5"),
        Err(AlertValueError::CooldownNotWholeSeconds)
    );
    assert_eq!(
        AlertField::CooldownSeconds.parse_value("-1"),
        Err(AlertValueError::CooldownNotWholeSeconds)
    );
    assert_eq!(
        AlertField::CooldownSeconds.parse_value("18446744073709551615"),
        Ok(AlertValue::Seconds(u64::MAX))
    );
    assert_eq!(
        AlertField::CooldownSeconds.parse_value("18446744073709551616"),
        Err(AlertValueError::CooldownNotWholeSeconds)
    );
    assert_eq!(
        AlertValueError::CooldownNotWholeSeconds.message(),
        "Cooldown must be a whole number of seconds."
    );
}

#[test]
fn thresholds_keep_the_trimmed_text() {
    assert_eq!(
        AlertField::OpportunityThresholdPct.parse_value(" 2.5 "),
        Ok(AlertValue::Percent(String::from("2.5")))
    );
    assert_eq!(
        AlertField::WatchedMovementThresholdPct.threshold_name(),
        Some("Watch move threshold")
    );
    assert_eq!(AlertField::Enabled.threshold_name(), None);
}

#[test]
fn labels_summaries_and_suggestions() {
    assert_eq!(AlertField::DesktopNotifications.label(), "Desktop Notify");
    assert_eq!(AlertField::SoundEffects.label(), "Sounds");
    assert_eq!(
        AlertField::CooldownSeconds.summary(),
        "Suppress duplicate alerts for the same rule inside this window."
    );
    assert_eq!(
        AlertField::CooldownSeconds.suggestions(),
        vec!["0", "15", "30", "60", "300"]
    );
    assert_eq!(AlertField::BetPlaced.suggestions(), vec!["true", "false"]);
    assert_eq!(format_bool(true), "true");
    assert_eq!(format_bool(false), "false");
}

#[test]
fn editor_selection_wraps_in_both_directions() {
    let mut editor = AlertEditorState::default();
    assert_eq!(editor.selected_field(), AlertField::Enabled);
    editor.select_previous_field();
    assert_eq!(editor.selected_field(), AlertField::CooldownSeconds);
    editor.select_next_field();
    assert_eq!(editor.selected_field(), AlertField::Enabled);
    editor.select_next_field();
    assert_eq!(editor.selected_field(), AlertField::DesktopNotifications);
    for _ in 0..18 {
        editor.select_next_field();
    }
    assert_eq!(editor.selected_field(), AlertField::DesktopNotifications);
    assert!(!editor.editing);
}

#[test]
fn notification_levels() {
    assert_eq!(NotificationLevel::Info.label(), "info");
    assert_eq!(NotificationLevel::Warning.label(), "warn");
    assert_eq!(NotificationLevel::Critical.label(), "crit");
    assert_eq!(NotificationLevel::Warning.notify_send_urgency(), "normal");
    assert_eq!(NotificationLevel::Critical.notify_send_urgency(), "critical");
}

#[test]
fn shown_cooldown_reads_back() {
    for n in [0u64, 7, 60, 300, 18_446_744_073_709_551_615] {
        assert_eq!(
            AlertField::CooldownSeconds.parse_value(&n.to_string()),
            Ok(AlertValue::Seconds(n))
        );
    }
}
