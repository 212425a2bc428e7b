//! Verified core of the operator console: market and selection matching,
//! resource loading state, alert rules, themes, keyboard navigation, and
//! the requests sent to the odds matcher, the recorder worker and the
//! browser tool.

use vstd::prelude::*;

pub mod agent_browser;
pub mod alerts;
pub mod console;
pub mod domain;
pub mod market_normalization;
pub mod native_trading;
pub mod navigation;
pub mod oddsmatcher;
pub mod panels;
pub mod paths;
pub mod resource_state;
pub mod text;
pub mod theme;
pub mod transport;

verus! {

/// The version of this crate.
pub fn version() -> (r: &'static str)
    ensures
        r@ == "0.1.0"@,
{
    "0.1.0"
}

} // verus!
