//! The server's handlers: connection, disconnection, commands and the tick.
//!
//! Each handler runs alone on the table and leaves it well formed. The
//! arithmetic on vectors is the caller's: a handler that needs it takes it as
//! a function, and its contract says what was handed to that function and
//! where the result went.

use vstd::prelude::*;
use crate::command::Command;
use crate::error::ErrorKind;
use crate::player::default_name;
use crate::player::is_fresh_row;
use crate::player::Identity;
use crate::player::Player;
use crate::schedule::MoveAllPlayersTimer;
use crate::table::has_identity;
use crate::table::index_of;
use crate::table::lemma_index_of;
use crate::table::PlayerTable;
use crate::vector::magnitude_accepted;
use crate::vector::magnitude_in_range;
use crate::vector::zero_vector;
use crate::vector::Vector3;
use crate::vector::HALF;

verus! {

/// `row` is the row of a player that has just joined as `identity` and was
/// given `player_id`: the default label, at rest at the origin.
pub open spec fn is_joined_row(row: Player, identity: Identity, player_id: int) -> bool {
    &&& row.identity == identity
    &&& row.player_id == player_id
    &&& row.name@ == default_name()
    &&& row.position == zero_vector()
    &&& row.rotation == zero_vector()
    &&& row.direction == zero_vector()
}

/// `row` with `direction` as its pending direction.
pub open spec fn with_direction(row: Player, direction: Vector3) -> Player {
    Player { direction, ..row }
}

/// `row` after a tick that moved it to `position`: the pending direction is
/// used up.
pub open spec fn integrated(row: Player, position: Vector3) -> Player {
    Player { position, direction: zero_vector(), ..row }
}

/// Whether a movement command of `sender` with the given magnitude is
/// accepted by a table that holds `rows`.
pub open spec fn move_outcome(rows: Seq<Player>, sender: Identity, magnitude: u32) -> Result<
    (),
    ErrorKind,
> {
    if !has_identity(rows, sender) {
        Err(ErrorKind::UnknownSender)
    } else if !magnitude_in_range(magnitude) {
        Err(ErrorKind::InvalidMagnitude)
    } else {
        Ok(())
    }
}

/// `after` is `before` with the pending direction of `sender` set to `unit`.
pub open spec fn direction_stored(
    before: Seq<Player>,
    after: Seq<Player>,
    sender: Identity,
    unit: Vector3,
) -> bool {
    after == before.update(
        index_of(before, sender),
        with_direction(before[index_of(before, sender)], unit),
    )
}

/// `r` is what the command `cmd` makes of the row `found`, with `magnitude`
/// and `normalized` as the arithmetic.
pub open spec fn commanded<M, N>(
    found: Option<Player>,
    cmd: Command,
    r: Result<Option<Player>, ErrorKind>,
    magnitude: M,
    normalized: N,
) -> bool where M: Fn(Vector3) -> u32, N: Fn(Vector3) -> Vector3 {
    match found {
        None => r == Err::<Option<Player>, ErrorKind>(ErrorKind::UnknownSender),
        Some(row) => match cmd {
            Command::Jump => r == Ok::<Option<Player>, ErrorKind>(None),
            Command::Move(m) => exists|measured: u32|
                {
                    &&& #[trigger] magnitude.ensures((m.direction,), measured)
                    &&& !magnitude_in_range(measured) ==> r == Err::<Option<Player>, ErrorKind>(
                        ErrorKind::InvalidMagnitude,
                    )
                    &&& magnitude_in_range(measured) ==> exists|unit: Vector3|
                        {
                            &&& #[trigger] normalized.ensures((m.direction,), unit)
                            &&& r == Ok::<Option<Player>, ErrorKind>(
                                Some(with_direction(row, unit)),
                            )
                        }
                },
        },
    }
}

/// What a connection asks of the table, given the row that the table holds
/// for the identity: nothing where there is one, else the insertion of a
/// fresh row.
pub fn connection_row(found: &Option<Player>, sender: Identity) -> (insert: Option<Player>)
    ensures
        found.is_some() ==> insert.is_none(),
        found.is_none() ==> insert.is_some() && is_fresh_row(insert.unwrap(), sender),
{
    match found {
        Some(_) => None,
        None => Some(Player::fresh(sender)),
    }
}

/// A session opened. An identity that has a row keeps it as it is; another
/// gets a new row under the next player id. The one failure is that the ids
/// have run out.
pub fn identity_connected(table: &mut PlayerTable, sender: Identity) -> (r: Result<(), ErrorKind>)
    requires
        old(table).wf(),
    ensures
        final(table).wf(),
        old(table).numbered() ==> final(table).numbered(),
        has_identity(final(table)@, sender) <==> r.is_ok(),
        has_identity(old(table)@, sender) ==> {
            &&& r.is_ok()
            &&& final(table)@ == old(table)@
            &&& final(table).issued() == old(table).issued()
        },
        !has_identity(old(table)@, sender) && old(table).issued() == u32::MAX ==> {
            &&& r == Err::<(), ErrorKind>(ErrorKind::IdentifiersExhausted)
            &&& final(table)@ == old(table)@
            &&& final(table).issued() == old(table).issued()
        },
        !has_identity(old(table)@, sender) && old(table).issued() < u32::MAX ==> {
            &&& r.is_ok()
            &&& final(table)@.len() == old(table)@.len() + 1
            &&& final(table)@.drop_last() == old(table)@
            &&& is_joined_row(final(table)@.last(), sender, old(table).issued() + 1)
            &&& final(table).issued() == old(table).issued() + 1
        },
{
    let found = table.find(sender);
    match connection_row(&found, sender) {
        None => Ok(()),
        Some(row) => match table.insert(row) {
            Ok(_) => {
                proof {
                    let rows = final(table)@;
                    assert(rows.drop_last() =~= old(table)@);
                    assert(rows[rows.len() - 1].identity == sender);
                }
                Ok(())
            },
            Err(e) => Err(e),
        },
    }
}

/// A session closed. Its row, if it has one, is removed; the other rows stay
/// as they are and in their order.
pub fn identity_disconnected(table: &mut PlayerTable, sender: Identity)
    requires
        old(table).wf(),
    ensures
        final(table).wf(),
        old(table).numbered() ==> final(table).numbered(),
        !has_identity(final(table)@, sender),
        final(table).issued() == old(table).issued(),
        has_identity(old(table)@, sender) ==> final(table)@ == old(table)@.remove(
            index_of(old(table)@, sender)
        ),
        !has_identity(old(table)@, sender) ==> final(table)@ == old(table)@,
{
    match table.find(sender) {
        Some(player) => {
            table.delete(&player);
            proof {
                let before = old(table)@;
                let at = index_of(before, sender);
                let after = final(table)@;
                assert forall|k: int| 0 <= k < after.len() implies (#[trigger] after[k]).identity
                    != sender by {
                    if k < at {
                        assert(after[k] == before[k]);
                    } else {
                        assert(after[k] == before[k + 1]);
                    }
                }
            }
        },
        None => {},
    }
}

/// What a movement command makes of the sender's row, once its magnitude
/// and unit vector have been computed: with a magnitude in the accepted
/// range, the row with `unit` as its pending direction; else a refusal.
pub fn accept_move(row: Player, magnitude: u32, unit: Vector3) -> (r: Result<Player, ErrorKind>)
    ensures
        r == (if magnitude_in_range(magnitude) {
            Ok::<Player, ErrorKind>(with_direction(row, unit))
        } else {
            Err::<Player, ErrorKind>(ErrorKind::InvalidMagnitude)
        }),
{
    if !magnitude_accepted(magnitude) {
        return Err(ErrorKind::InvalidMagnitude);
    }
    Ok(
        Player {
            identity: row.identity,
            player_id: row.player_id,
            name: row.name,
            position: row.position,
            rotation: row.rotation,
            direction: unit,
        },
    )
}

/// Takes a movement command whose magnitude and unit vector have been
/// computed. A sender without a row is unknown. A magnitude outside the
/// accepted range is refused. Otherwise `unit` becomes the sender's pending
/// direction, and nothing else changes.
pub fn apply_move(table: &mut PlayerTable, sender: Identity, magnitude: u32, unit: Vector3) -> (r:
    Result<(), ErrorKind>)
    requires
        old(table).wf(),
    ensures
        final(table).wf(),
        old(table).numbered() ==> final(table).numbered(),
        final(table).issued() == old(table).issued(),
        r == move_outcome(old(table)@, sender, magnitude),
        r.is_ok() ==> direction_stored(old(table)@, final(table)@, sender, unit),
        r.is_err() ==> final(table)@ == old(table)@,
{
    match table.find(sender) {
        None => Err(ErrorKind::UnknownSender),
        Some(player) => match accept_move(player, magnitude, unit) {
            Err(e) => Err(e),
            Ok(moved) => {
                table.update(moved);
                proof {
                    lemma_same_identities(old(table)@, final(table)@);
                }
                Ok(())
            },
        },
    }
}

/// What a command makes of the sender's row `found`. Without a row the
/// sender is unknown, and neither function is called. `Jump` asks for no
/// change. For `Move`, `magnitude` is called on the direction; where its
/// result lies in the accepted range, `normalized` is called on the direction
/// and the row comes back with that result as its pending direction; where it
/// does not, the command is refused and `normalized` is not called.
pub fn command_row<M, N>(found: Option<Player>, cmd: Command, magnitude: M, normalized: N) -> (r:
    Result<Option<Player>, ErrorKind>) where M: Fn(Vector3) -> u32, N: Fn(Vector3) -> Vector3
    requires
        cmd matches Command::Move(m) ==> magnitude.requires((m.direction,))
            && normalized.requires((m.direction,)),
    ensures
        commanded(found, cmd, r, magnitude, normalized),
{
    match found {
        None => Err(ErrorKind::UnknownSender),
        Some(row) => match cmd {
            Command::Jump => Ok(None),
            Command::Move(m) => {
                let measured: u32 = magnitude(m.direction);
                if !magnitude_accepted(measured) {
                    return Err(ErrorKind::InvalidMagnitude);
                }
                let unit = normalized(m.direction);
                match accept_move(row, measured, unit) {
                    Ok(moved) => Ok(Some(moved)),
                    Err(e) => Err(e),
                }
            },
        },
    }
}

/// Handles a command of `sender`. A sender without a row is unknown, and
/// neither function is called. `Jump` is accepted and changes nothing. For
/// `Move`, `magnitude` is called on the direction; where its result lies in
/// the accepted range, `normalized` is called on the direction and its result
/// becomes the sender's pending direction; where it does not, the command is
/// refused and `normalized` is not called.
pub fn player_command<M, N>(
    table: &mut PlayerTable,
    sender: Identity,
    cmd: Command,
    magnitude: M,
    normalized: N,
) -> (r: Result<(), ErrorKind>) where M: Fn(Vector3) -> u32, N: Fn(Vector3) -> Vector3
    requires
        old(table).wf(),
        cmd matches Command::Move(m) ==> magnitude.requires((m.direction,))
            && normalized.requires((m.direction,)),
    ensures
        final(table).wf(),
        old(table).numbered() ==> final(table).numbered(),
        final(table).issued() == old(table).issued(),
        r.is_err() ==> final(table)@ == old(table)@,
        !has_identity(old(table)@, sender) ==> r == Err::<(), ErrorKind>(
            ErrorKind::UnknownSender
        ),
        has_identity(old(table)@, sender) ==> match cmd {
            Command::Jump => r.is_ok() && final(table)@ == old(table)@,
            Command::Move(m) => exists|measured: u32|
                {
                    &&& #[trigger] magnitude.ensures((m.direction,), measured)
                    &&& r == move_outcome(old(table)@, sender, measured)
                    &&& r.is_ok() ==> exists|unit: Vector3|
                        {
                            &&& #[trigger] normalized.ensures((m.direction,), unit)
                            &&& direction_stored(old(table)@, final(table)@, sender, unit)
                        }
                },
        },
{
    let found = table.find(sender);
    match command_row(found, cmd, magnitude, normalized) {
        Err(e) => Err(e),
        Ok(None) => Ok(()),
        Ok(Some(moved)) => {
            table.update(moved);
            proof {
                lemma_same_identities(old(table)@, final(table)@);
            }
            Ok(())
        },
    }
}

/// The row that a tick leaves of `row` where the step took it to `position`.
pub fn integrate(row: Player, position: Vector3) -> (r: Player)
    ensures
        r == integrated(row, position),
{
    Player {
        identity: row.identity,
        player_id: row.player_id,
        name: row.name,
        position,
        rotation: row.rotation,
        direction: Vector3::zero(),
    }
}

/// `after` is what one tick makes of `before`, with `scale` and `sum` as the
/// arithmetic: the pending direction was scaled by one half and added to the
/// position, and is zero now; the rest of the row is as it was.
pub open spec fn row_advanced<S, A>(before: Player, after: Player, scale: S, sum: A) -> bool where
    S: Fn(Vector3, u32) -> Vector3,
    A: Fn(Vector3, Vector3) -> Vector3,
 {
    &&& after == integrated(before, after.position)
    &&& exists|step: Vector3|
        {
            &&& #[trigger] scale.ensures((before.direction, HALF), step)
            &&& sum.ensures((before.position, step), after.position)
        }
}

/// The arithmetic can take `row` through a tick: `scale` accepts its pending
/// direction with one half, and `sum` accepts its position with whatever
/// `scale` gives.
pub open spec fn can_advance<S, A>(row: Player, scale: S, sum: A) -> bool where
    S: Fn(Vector3, u32) -> Vector3,
    A: Fn(Vector3, Vector3) -> Vector3,
 {
    &&& scale.requires((row.direction, HALF))
    &&& forall|step: Vector3| #[trigger]
        scale.ensures((row.direction, HALF), step) ==> sum.requires((row.position, step))
}

/// One row through one tick: `scale` is called on the pending direction and
/// one half, `sum` on the position and what `scale` gave.
pub fn advance_row<S, A>(row: Player, scale: &S, sum: &A) -> (r: Player) where
    S: Fn(Vector3, u32) -> Vector3,
    A: Fn(Vector3, Vector3) -> Vector3,

    requires
        can_advance(row, *scale, *sum),
    ensures
        row_advanced(row, r, *scale, *sum),
{
    let step = scale(row.direction, HALF);
    let position = sum(row.position, step);
    proof {
        assert(scale.ensures((row.direction, HALF), step));
    }
    integrate(row, position)
}

/// One tick: every row is advanced by half its pending direction, and the
/// pending direction is used up. No row is added, removed or moved to another
/// place, and none is skipped.
pub fn move_all_players<S, A>(
    table: &mut PlayerTable,
    _timer: &MoveAllPlayersTimer,
    scale: S,
    sum: A,
) -> (r: Result<(), ErrorKind>) where
    S: Fn(Vector3, u32) -> Vector3,
    A: Fn(Vector3, Vector3) -> Vector3,

    requires
        old(table).wf(),
        forall|k: int|
            0 <= k < old(table)@.len() ==> can_advance(#[trigger] old(table)@[k], scale, sum),
    ensures
        r.is_ok(),
        final(table).wf(),
        old(table).numbered() ==> final(table).numbered(),
        final(table).issued() == old(table).issued(),
        final(table)@.len() == old(table)@.len(),
        forall|k: int|
            0 <= k < old(table)@.len() ==> row_advanced(
                old(table)@[k],
                #[trigger] final(table)@[k],
                scale,
                sum,
            ),
{
    let rows = table.iter();
    let mut i: usize = 0;
    while i < rows.len()
        invariant
            i <= rows.len(),
            rows@ == old(table)@,
            table.wf(),
            table.issued() == old(table).issued(),
            table@.len() == rows@.len(),
            forall|k: int| 0 <= k < rows@.len() ==> can_advance(#[trigger] rows@[k], scale, sum),
            forall|k: int| i <= k < rows@.len() ==> #[trigger] table@[k] == rows@[k],
            forall|k: int|
                0 <= k < rows@.len() ==> (#[trigger] table@[k]).identity == rows@[k].identity,
            forall|k: int|
                0 <= k < i ==> row_advanced(rows@[k], #[trigger] table@[k], scale, sum),
        decreases rows.len() - i,
    {
        let ghost before = table@;
        let moved = advance_row(rows[i].clone(), &scale, &sum);
        proof {
            assert(before[i as int].identity == moved.identity);
            lemma_index_of(before, moved.identity, i as int);
        }
        table.update(moved);
        proof {
            lemma_same_identities(before, table@);
        }
        i += 1;
    }
    Ok(())
}

/// A tick without input is idle. Where a row has no pending direction, and
/// the arithmetic gives zero for half of zero and the position itself for
/// the position plus zero, the tick leaves the row as it was.
pub proof fn lemma_idle_tick<S, A>(before: Player, after: Player, scale: S, sum: A) where
    S: Fn(Vector3, u32) -> Vector3,
    A: Fn(Vector3, Vector3) -> Vector3,

    requires
        row_advanced(before, after, scale, sum),
        before.direction == zero_vector(),
        forall|step: Vector3| #[trigger]
            scale.ensures((zero_vector(), HALF), step) ==> step == zero_vector(),
        forall|position: Vector3| #[trigger]
            sum.ensures((before.position, zero_vector()), position) ==> position
                == before.position,
    ensures
        after == before,
{
}

/// Every tick uses up the pending direction, so a row enters the next tick
/// at rest unless a command was accepted in between; the idle tick that
/// follows leaves it as the first tick left it.
pub proof fn lemma_second_tick_without_command<S, A>(
    first: Player,
    second: Player,
    third: Player,
    scale: S,
    sum: A,
) where S: Fn(Vector3, u32) -> Vector3, A: Fn(Vector3, Vector3) -> Vector3
    requires
        row_advanced(first, second, scale, sum),
        row_advanced(second, third, scale, sum),
        forall|step: Vector3| #[trigger]
            scale.ensures((zero_vector(), HALF), step) ==> step == zero_vector(),
        forall|position: Vector3| #[trigger]
            sum.ensures((second.position, zero_vector()), position) ==> position
                == second.position,
    ensures
        second.direction == zero_vector(),
        third == second,
{
    lemma_idle_tick(second, third, scale, sum);
}

/// Movement at a constant direction is linear accumulation. `rows` holds the
/// states of one row at the ends of successive ticks, where before every
/// tick the same accepted direction `unit` was stored. Where `scale` gives
/// the one step `step` for that direction, every tick adds that same step to
/// the position, so that after `n` ticks it has been added `n` times; and
/// after every tick the pending direction is used up.
pub proof fn lemma_constant_direction<S, A>(
    rows: Seq<Player>,
    unit: Vector3,
    step: Vector3,
    scale: S,
    sum: A,
) where S: Fn(Vector3, u32) -> Vector3, A: Fn(Vector3, Vector3) -> Vector3
    requires
        forall|k: int|
            0 <= k < rows.len() - 1 ==> row_advanced(
                with_direction(#[trigger] rows[k], unit),
                rows[k + 1],
                scale,
                sum,
            ),
        forall|s: Vector3| #[trigger] scale.ensures((unit, HALF), s) ==> s == step,
    ensures
        forall|k: int|
            0 <= k < rows.len() - 1 ==> sum.ensures(
                ((#[trigger] rows[k]).position, step),
                rows[k + 1].position,
            ) && rows[k + 1].direction == zero_vector(),
{
    assert forall|k: int| 0 <= k < rows.len() - 1 implies sum.ensures(
        ((#[trigger] rows[k]).position, step),
        rows[k + 1].position,
    ) && rows[k + 1].direction == zero_vector() by {
        assert(row_advanced(with_direction(rows[k], unit), rows[k + 1], scale, sum));
    }
}

/// Rows that carry the same identities at the same places are without
/// repetition together.
pub proof fn lemma_same_identities(before: Seq<Player>, after: Seq<Player>)
    requires
        before.len() == after.len(),
        forall|k: int| 0 <= k < before.len() ==> (#[trigger] before[k]).identity == (
        #[trigger] after[k]).identity,
        crate::table::unique_identities(before),
    ensures
        crate::table::unique_identities(after),
        forall|identity: Identity|
            has_identity(before, identity) <==> has_identity(after, identity),
{
    assert forall|i: int, j: int|
        0 <= i < after.len() && 0 <= j < after.len() && (#[trigger] after[i]).identity == (
        #[trigger] after[j]).identity implies i == j by {
        assert(before[i].identity == before[j].identity);
    }
    assert forall|identity: Identity| has_identity(before, identity) <==> has_identity(
        after,
        identity,
    ) by {
        if has_identity(before, identity) {
            let i = index_of(before, identity);
            assert(after[i].identity == identity);
        }
        if has_identity(after, identity) {
            let i = index_of(after, identity);
            assert(before[i].identity == identity);
        }
    }
}

} // verus!
