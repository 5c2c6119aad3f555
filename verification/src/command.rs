//! The inputs that a client can send.

use vstd::prelude::*;
use crate::vector::Vector3;

verus! {

/// The payload of a movement command.
#[derive(Clone, Copy, Debug, PartialEq, Eq, Structural)]
pub struct MoveCommand {
    /// The requested direction, as the client sent it: not yet normalised.
    pub direction: Vector3,
}

/// A player's input. The set is closed: whoever handles a command matches
/// every variant.
#[derive(Clone, Copy, Debug, PartialEq, Eq, Structural)]
pub enum Command {
    /// Move in the given direction during the next tick.
    Move(MoveCommand),
    /// Reserved; accepted and without effect.
    Jump,
}

} // verus!
