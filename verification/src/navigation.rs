//! Keyboard navigation of the console: which panel is shown, which venue
//! row is selected, and what each key does.

use vstd::prelude::*;
use crate::domain::VenueId;

verus! {

/// The panels of the console.
#[derive(Debug, Clone, Copy, PartialEq, Eq, Structural)]
pub enum Panel {
    Dashboard,
    Exchanges,
}

impl Panel {
    pub open spec fn spec_next(self) -> Panel {
        match self {
            Panel::Dashboard => Panel::Exchanges,
            Panel::Exchanges => Panel::Dashboard,
        }
    }

    /// The panel shown after this one.
    pub fn next(self) -> (r: Panel)
        ensures
            r == self.spec_next(),
    {
        match self {
            Panel::Dashboard => Panel::Exchanges,
            Panel::Exchanges => Panel::Dashboard,
        }
    }

    /// The panel shown before this one (with two panels, the other one).
    pub fn previous(self) -> (r: Panel)
        ensures
            r == self.spec_next(),
    {
        self.next()
    }
}

pub open spec fn spec_help_text() -> Seq<char> {
    "q quit | tab switch panel | j/k move | r refresh"@
}

/// The key help shown in the status bar.
pub fn help_text() -> (r: &'static str)
    ensures
        r@ == spec_help_text(),
{
    "q quit | tab switch panel | j/k move | r refresh"
}

/// The venue row selected after moving down: nothing when there are no
/// venues, the first row when none was selected, otherwise the next row,
/// staying on the last.
pub open spec fn spec_next_row(selected: Option<usize>, count: usize) -> Option<usize> {
    if count == 0 {
        None
    } else {
        match selected {
            Some(i) => if i + 1 < count {
                Some((i + 1) as usize)
            } else {
                Some(i)
            },
            None => Some(0),
        }
    }
}

/// The venue row selected after moving up: nothing when there are no
/// venues, the first row when none was selected, otherwise the previous
/// row, staying on the first.
pub open spec fn spec_previous_row(selected: Option<usize>, count: usize) -> Option<usize> {
    if count == 0 {
        None
    } else {
        match selected {
            Some(i) => if i > 0 {
                Some((i - 1) as usize)
            } else {
                Some(i)
            },
            None => Some(0),
        }
    }
}

/// A selection past the end of a refreshed venue list is dropped.
pub open spec fn spec_clamp_row(selected: Option<usize>, count: usize) -> Option<usize> {
    match selected {
        Some(i) => if i >= count {
            None
        } else {
            Some(i)
        },
        None => None,
    }
}

pub fn next_exchange_row(selected: Option<usize>, venue_count: usize) -> (r: Option<usize>)
    ensures
        r == spec_next_row(selected, venue_count),
{
    if venue_count == 0 {
        return None;
    }
    match selected {
        Some(i) => if i < venue_count - 1 {
            Some(i + 1)
        } else {
            Some(i)
        },
        None => Some(0),
    }
}

pub fn previous_exchange_row(selected: Option<usize>, venue_count: usize) -> (r: Option<usize>)
    ensures
        r == spec_previous_row(selected, venue_count),
{
    if venue_count == 0 {
        return None;
    }
    match selected {
        Some(i) => if i > 0 {
            Some(i - 1)
        } else {
            Some(i)
        },
        None => Some(0),
    }
}

pub fn clamp_exchange_row(selected: Option<usize>, venue_count: usize) -> (r: Option<usize>)
    ensures
        r == spec_clamp_row(selected, venue_count),
{
    match selected {
        Some(i) => if i >= venue_count {
            None
        } else {
            Some(i)
        },
        None => None,
    }
}

/// The venue in focus: the one on the selected row if that row exists,
/// otherwise the venue the snapshot names as selected.
pub open spec fn spec_selected_venue(
    selected: Option<usize>,
    venues: Seq<VenueId>,
    fallback: Option<VenueId>,
) -> Option<VenueId> {
    match selected {
        Some(i) => if i < venues.len() {
            Some(venues[i as int])
        } else {
            fallback
        },
        None => fallback,
    }
}

pub fn selected_venue(selected: Option<usize>, venues: &Vec<VenueId>, fallback: Option<VenueId>) -> (r:
    Option<VenueId>)
    ensures
        r == spec_selected_venue(selected, venues@, fallback),
{
    match selected {
        Some(i) => if i < venues.len() {
            Some(venues[i])
        } else {
            fallback
        },
        None => fallback,
    }
}

/// A key press, as far as the console tells keys apart.
#[derive(Debug, Clone, Copy, PartialEq, Eq, Structural)]
pub enum KeyInput {
    Char(char),
    Esc,
    Tab,
    BackTab,
    Left,
    Right,
    Up,
    Down,
    Other,
}

/// What the console does in answer to a key.
#[derive(Debug, Clone, Copy, PartialEq, Eq, Structural)]
pub enum AppCommand {
    Quit,
    NextPanel,
    PreviousPanel,
    Refresh,
    SelectNextRow,
    SelectPreviousRow,
    Ignore,
}

/// The key bindings: `q`/Esc quit, Tab/Right/`l` and BackTab/Left/`h`
/// switch panels, `r` refreshes, and `j`/Down and `k`/Up move the venue
/// selection while the exchanges panel is shown.
pub open spec fn spec_command_for_key(key: KeyInput, active: Panel) -> AppCommand {
    match key {
        KeyInput::Char('q') | KeyInput::Esc => AppCommand::Quit,
        KeyInput::Tab | KeyInput::Right | KeyInput::Char('l') => AppCommand::NextPanel,
        KeyInput::BackTab | KeyInput::Left | KeyInput::Char('h') => AppCommand::PreviousPanel,
        KeyInput::Char('r') => AppCommand::Refresh,
        KeyInput::Char('j') | KeyInput::Down => if active == Panel::Exchanges {
            AppCommand::SelectNextRow
        } else {
            AppCommand::Ignore
        },
        KeyInput::Char('k') | KeyInput::Up => if active == Panel::Exchanges {
            AppCommand::SelectPreviousRow
        } else {
            AppCommand::Ignore
        },
        _ => AppCommand::Ignore,
    }
}

pub fn command_for_key(key: KeyInput, active: Panel) -> (r: AppCommand)
    ensures
        r == spec_command_for_key(key, active),
{
    match key {
        KeyInput::Char('q') | KeyInput::Esc => AppCommand::Quit,
        KeyInput::Tab | KeyInput::Right | KeyInput::Char('l') => AppCommand::NextPanel,
        KeyInput::BackTab | KeyInput::Left | KeyInput::Char('h') => AppCommand::PreviousPanel,
        KeyInput::Char('r') => AppCommand::Refresh,
        KeyInput::Char('j') | KeyInput::Down => if active == Panel::Exchanges {
            AppCommand::SelectNextRow
        } else {
            AppCommand::Ignore
        },
        KeyInput::Char('k') | KeyInput::Up => if active == Panel::Exchanges {
            AppCommand::SelectPreviousRow
        } else {
            AppCommand::Ignore
        },
        _ => AppCommand::Ignore,
    }
}

// ---------------------------------------------------------------------------
// Laws
// ---------------------------------------------------------------------------

/// Switching panels forward and back returns to the panel one started on.
pub proof fn lemma_panel_switch_round_trip(p: Panel)
    ensures
        p.spec_next().spec_next() == p,
        p.spec_next() != p,
{
}

/// Moving the selection keeps it on an existing row whenever there are
/// rows and it started on one (or on none).
pub proof fn lemma_row_moves_stay_in_range(selected: Option<usize>, count: usize)
    requires
        count > 0,
        selected matches Some(i) ==> i < count,
    ensures
        spec_next_row(selected, count) matches Some(j) && j < count,
        spec_previous_row(selected, count) matches Some(j) && j < count,
{
}

/// Moving down and then up from a row that is not the last returns to it,
/// and moving up and then down from a row that is not the first returns to
/// it.
pub proof fn lemma_row_moves_undo(i: usize, count: usize)
    requires
        i < count,
    ensures
        i + 1 < count ==> spec_previous_row(spec_next_row(Some(i), count), count) == Some(i),
        i > 0 ==> spec_next_row(spec_previous_row(Some(i), count), count) == Some(i),
{
}

/// After a refresh the selection, if any, is on an existing row, and a
/// selection that was on an existing row is kept.
pub proof fn lemma_clamp_keeps_valid_rows(selected: Option<usize>, count: usize)
    ensures
        spec_clamp_row(selected, count) matches Some(i) ==> i < count,
        (selected matches Some(i) && i < count) ==> spec_clamp_row(selected, count) == selected,
{
}

} // verus!
