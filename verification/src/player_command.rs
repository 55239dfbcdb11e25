//! What a player can ask for.

use vstd::prelude::*;
use crate::components::BygonePart;

verus! {

/// A command of a player.
#[derive(Clone, Copy, Debug, PartialEq, Eq, Structural, Hash)]
pub enum PlayerCommand {
    StartGame,
    Strike(BygonePart),
}

} // verus!
