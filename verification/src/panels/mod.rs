//! Text and layout helpers of the console panels.

use vstd::prelude::*;

pub mod horse_matcher;
pub mod matcher;
pub mod oddsmatcher;
pub mod trading_markets;

verus! {

/// A rectangle of terminal cells.
#[derive(Debug, Clone, Copy, PartialEq, Eq, Structural)]
pub struct Rect {
    pub x: u16,
    pub y: u16,
    pub width: u16,
    pub height: u16,
}

} // verus!
