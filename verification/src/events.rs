//! Commands decoded from the keyboard boundary.

use vstd::prelude::*;

use crate::models::GameMod;
use crate::models::Direction;

verus! {

/// What one keyboard poll can yield: at most one of these per tick.
#[derive(Clone, Copy, PartialEq, Eq, Structural, Debug)]
pub enum Command {
    Quit,
    Turn(Direction),
    SelectingModeCommand(GameMod),
    SelectMode,
    AnyKey,
}

} // verus!
