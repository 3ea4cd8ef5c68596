//! Messages from the capture side to the user interface.

use vstd::prelude::*;

use crate::api::Location;
use crate::protocol::{DuelState, MapBoundaries};

verus! {

/// What the capture side tells the user interface.
#[derive(Debug, Clone, PartialEq)]
pub enum BackendMessage {
    /// The true location of the round, from the metadata service.
    PlayerLocation(Location),
    /// The opponent's unconfirmed pin.
    OpponentPin(Location),
    /// The player's visible map rectangle, to synchronise the viewport.
    MapSync(MapBoundaries),
    /// A new duel state.
    GameStateUpdate(Box<DuelState>),
}

} // verus!
