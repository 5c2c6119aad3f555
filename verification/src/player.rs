//! Identities and player rows.

use vstd::prelude::*;
use crate::vector::Vector3;
use crate::vector::zero_vector;

verus! {

/// An opaque 256-bit token that identifies a session, as two halves.
#[derive(Clone, Copy, Debug, PartialEq, Eq, Hash, Structural)]
pub struct Identity {
    pub high: u128,
    pub low: u128,
}

/// One row of the player table.
#[derive(Debug, PartialEq, Eq)]
pub struct Player {
    /// The session that owns the row; the key of the table.
    pub identity: Identity,
    /// The number that the table gave the row when it was inserted.
    pub player_id: u32,
    /// The display label.
    pub name: String,
    /// The authoritative position in the world.
    pub position: Vector3,
    /// The orientation; replicated, not used by the simulation.
    pub rotation: Vector3,
    /// The movement that the next tick will consume.
    pub direction: Vector3,
}

/// The display label that every new player gets.
pub open spec fn default_name() -> Seq<char> {
    "Lucas"@
}

/// Whether `row` is what a session gets on its first connection: the default
/// label, at rest at the origin, with no player id assigned yet.
pub open spec fn is_fresh_row(row: Player, identity: Identity) -> bool {
    &&& row.identity == identity
    &&& row.player_id == 0
    &&& row.name@ == default_name()
    &&& row.position == zero_vector()
    &&& row.rotation == zero_vector()
    &&& row.direction == zero_vector()
}

impl Clone for Player {
    fn clone(&self) -> (r: Player)
        ensures
            r == *self,
    {
        Player {
            identity: self.identity,
            player_id: self.player_id,
            name: self.name.clone(),
            position: self.position,
            rotation: self.rotation,
            direction: self.direction,
        }
    }
}

impl Player {
    /// The row for the first connection of `identity`.
    pub fn fresh(identity: Identity) -> (row: Player)
        ensures
            is_fresh_row(row, identity),
    {
        Player {
            identity,
            player_id: 0,
            name: "Lucas".to_string(),
            position: Vector3::zero(),
            rotation: Vector3::zero(),
            direction: Vector3::zero(),
        }
    }
}

} // verus!
