//! Requests sent to the recorder worker.

use vstd::prelude::*;
use crate::domain::VenueId;

verus! {

/// A request to the recorder worker.
#[derive(Debug, Clone, PartialEq, Eq, Structural)]
pub enum WorkerRequestEnvelope {
    LoadDashboard,
    SelectVenue { venue: VenueId },
    Refresh,
}

} // verus!
