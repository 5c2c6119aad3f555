//! The client's side: where to connect, what to subscribe to, what to do
//! with a replicated row, and which command a set of pressed keys stands
//! for. Every function returns what is to be done; doing it is the caller's
//! part.

use vstd::prelude::*;
use vstd::string::StringExecFns;
use crate::command::Command;
use crate::command::MoveCommand;
use crate::player::Identity;
use crate::player::Player;
use crate::vector::Vector3;
use crate::vector::MINUS_ONE;
use crate::vector::ONE;
use crate::vector::ZERO;

verus! {

/// Where the server is reached.
pub const HOST: &'static str = "http://localhost:3000";

/// The name under which the server's module was published.
pub const DB_NAME: &'static str = "zigma";

/// The one subscription of a client: every row of the player table.
pub const PLAYER_QUERY: &'static str = "SELECT * FROM player";

/// What a connection is made with.
#[derive(Debug, PartialEq, Eq)]
pub struct ConnectionConfig {
    /// The address of the host.
    pub uri: String,
    /// The name of the module on that host.
    pub module_name: String,
    /// The token of an earlier session, to come back under the same identity.
    pub token: Option<String>,
}

/// The render entity that a newly replicated player is bound to.
#[derive(Clone, Copy, Debug, PartialEq, Eq, Structural)]
pub enum PlayerBinding {
    /// The player of this session: an entity under local control.
    Local(u32),
    /// A player of another session.
    Remote(u32),
}

/// A position to hand to the render entity of a player.
#[derive(Clone, Copy, Debug, PartialEq, Eq, Structural)]
pub struct PositionUpdate {
    pub player_id: u32,
    pub position: Vector3,
}

/// The direction that the key with the given index stands for: the four
/// keys are the unit vectors along x, against x, against z and along z.
pub open spec fn key_direction(key: int) -> Vector3 {
    if key == 0 {
        Vector3 { x: ONE, y: ZERO, z: ZERO }
    } else if key == 1 {
        Vector3 { x: MINUS_ONE, y: ZERO, z: ZERO }
    } else if key == 2 {
        Vector3 { x: ZERO, y: ZERO, z: MINUS_ONE }
    } else {
        Vector3 { x: ZERO, y: ZERO, z: ONE }
    }
}

/// The command of one frame, given which of the four keys are down: the
/// direction of the pressed key with the smallest index, or nothing where
/// none is down.
pub open spec fn frame_command(key0: bool, key1: bool, key2: bool, key3: bool) -> Option<
    Command,
> {
    if key0 {
        Some(Command::Move(MoveCommand { direction: key_direction(0) }))
    } else if key1 {
        Some(Command::Move(MoveCommand { direction: key_direction(1) }))
    } else if key2 {
        Some(Command::Move(MoveCommand { direction: key_direction(2) }))
    } else if key3 {
        Some(Command::Move(MoveCommand { direction: key_direction(3) }))
    } else {
        None
    }
}

/// The configuration of the connection: the fixed host and module, and no
/// token, so that every session starts under a new identity.
pub fn connect_to_db() -> (config: ConnectionConfig)
    ensures
        config.uri@ == HOST@,
        config.module_name@ == DB_NAME@,
        config.token.is_none(),
{
    ConnectionConfig {
        uri: String::from_str(HOST),
        module_name: String::from_str(DB_NAME),
        token: None,
    }
}

/// The queries that a client subscribes to: all player rows, and no more.
pub fn subscribe_to_tables() -> (queries: Vec<String>)
    ensures
        queries@.len() == 1,
        queries@[0]@ == PLAYER_QUERY@,
{
    let mut queries: Vec<String> = Vec::new();
    queries.push(String::from_str(PLAYER_QUERY));
    queries
}

/// A row was inserted into the replica. It is the local player's exactly
/// when it carries the identity of this session; the row holds no other
/// mark of it.
pub fn on_player_inserted(local: Identity, player: &Player) -> (binding: PlayerBinding)
    ensures
        binding == (if player.identity == local {
            PlayerBinding::Local(player.player_id)
        } else {
            PlayerBinding::Remote(player.player_id)
        }),
{
    if player.identity == local {
        PlayerBinding::Local(player.player_id)
    } else {
        PlayerBinding::Remote(player.player_id)
    }
}

/// A row of the replica changed. The new position goes to the entity of the
/// new row's player id, for local and remote players alike.
pub fn on_player_update(old_player: &Player, new_player: &Player) -> (update: PositionUpdate)
    ensures
        update == (PositionUpdate {
            player_id: new_player.player_id,
            position: new_player.position,
        }),
{
    PositionUpdate { player_id: new_player.player_id, position: new_player.position }
}

/// The status with which the client ends when its session is closed: 1
/// where the session broke with an error, 0 where it was closed in order.
pub fn on_disconnected(with_error: bool) -> (status: i32)
    ensures
        status == (if with_error { 1i32 } else { 0i32 }),
{
    if with_error {
        1
    } else {
        0
    }
}

/// The command to send for one frame, from the states of the four keys. At
/// most one command comes of a frame.
pub fn input_command(key0: bool, key1: bool, key2: bool, key3: bool) -> (cmd: Option<Command>)
    ensures
        cmd == frame_command(key0, key1, key2, key3),
{
    if key0 {
        Some(Command::Move(MoveCommand { direction: Vector3 { x: ONE, y: ZERO, z: ZERO } }))
    } else if key1 {
        Some(Command::Move(MoveCommand { direction: Vector3 { x: MINUS_ONE, y: ZERO, z: ZERO } }))
    } else if key2 {
        Some(Command::Move(MoveCommand { direction: Vector3 { x: ZERO, y: ZERO, z: MINUS_ONE } }))
    } else if key3 {
        Some(Command::Move(MoveCommand { direction: Vector3 { x: ZERO, y: ZERO, z: ONE } }))
    } else {
        None
    }
}

} // verus!
