use operator_console::domain::VenueId;
use operator_console::navigation::{
    clamp_exchange_row, command_for_key, help_text, next_exchange_row, previous_exchange_row,
    selected_venue, AppCommand, KeyInput, Panel,
};

#[test]
fn tab_navigation_switches_to_exchanges_panel() {
    let panel = Panel::Dashboard;
    assert_eq!(panel, Panel::Dashboard);

    let panel = panel.next();
    assert_eq!(panel, Panel::Exchanges);

    let panel = panel.previous();
    assert_eq!(panel, Panel::Dashboard);
}

#[test]
fn row_selection_moves_within_the_venue_list() {
    assert_eq!(next_exchange_row(None, 0), None);
    assert_eq!(next_exchange_row(None, 3), Some(0));
    assert_eq!(next_exchange_row(Some(0), 3), Some(1));
    assert_eq!(next_exchange_row(Some(2), 3), Some(2));
    assert_eq!(previous_exchange_row(Some(2), 3), Some(1));
    assert_eq!(previous_exchange_row(Some(0), 3), Some(0));
    assert_eq!(previous_exchange_row(None, 3), Some(0));
    assert_eq!(previous_exchange_row(Some(1), 0), None);
    assert_eq!(clamp_exchange_row(Some(3), 3), None);
    assert_eq!(clamp_exchange_row(Some(2), 3), Some(2));
    assert_eq!(clamp_exchange_row(None, 3), None);
}

#[test]
fn selected_venue_prefers_the_selected_row() {
    let venues = vec![VenueId::Smarkets, VenueId::Betfair];
    assert_eq!(selected_venue(Some(1), &venues, None), Some(VenueId::Betfair));
    assert_eq!(
        selected_venue(Some(5), &venues, Some(VenueId::Matchbook)),
        Some(VenueId::Matchbook)
    );
    assert_eq!(selected_venue(None, &venues, None), None);
}

#[test]
fn key_bindings() {
    assert_eq!(command_for_key(KeyInput::Char('q'), Panel::Dashboard), AppCommand::Quit);
    assert_eq!(command_for_key(KeyInput::Esc, Panel::Exchanges), AppCommand::Quit);
    assert_eq!(command_for_key(KeyInput::Tab, Panel::Dashboard), AppCommand::NextPanel);
    assert_eq!(command_for_key(KeyInput::Char('h'), Panel::Dashboard), AppCommand::PreviousPanel);
    assert_eq!(command_for_key(KeyInput::Char('r'), Panel::Dashboard), AppCommand::Refresh);
    assert_eq!(command_for_key(KeyInput::Down, Panel::Exchanges), AppCommand::SelectNextRow);
    assert_eq!(command_for_key(KeyInput::Char('j'), Panel::Dashboard), AppCommand::Ignore);
    assert_eq!(command_for_key(KeyInput::Char('k'), Panel::Exchanges), AppCommand::SelectPreviousRow);
    assert_eq!(command_for_key(KeyInput::Other, Panel::Exchanges), AppCommand::Ignore);
    assert_eq!(help_text(), "q quit | tab switch panel | j/k move | r refresh");
}
