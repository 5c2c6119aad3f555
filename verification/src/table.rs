//! The table of players: one row per identity, numbered as they are
//! inserted.

use vstd::prelude::*;
use crate::error::ErrorKind;
use crate::player::Identity;
use crate::player::Player;

verus! {

/// Some row of `rows` belongs to `identity`.
pub open spec fn has_identity(rows: Seq<Player>, identity: Identity) -> bool {
    exists|i: int| 0 <= i < rows.len() && (#[trigger] rows[i]).identity == identity
}

/// No two rows of `rows` belong to the same identity.
pub open spec fn unique_identities(rows: Seq<Player>) -> bool {
    forall|i: int, j: int|
        0 <= i < rows.len() && 0 <= j < rows.len() && (#[trigger] rows[i]).identity == (
        #[trigger] rows[j]).identity ==> i == j
}

/// The place of the row of `identity` in `rows`, where it has one.
pub open spec fn index_of(rows: Seq<Player>, identity: Identity) -> int {
    choose|i: int| 0 <= i < rows.len() && (#[trigger] rows[i]).identity == identity
}

/// `row` with the player id `player_id`.
pub open spec fn numbered(row: Player, player_id: u32) -> Player {
    Player { player_id, ..row }
}

/// What inserting `row` gives in a table that holds `rows` and has handed out
/// `issued` player ids: the stored row, or the reason for which nothing is
/// stored.
pub open spec fn insert_outcome(rows: Seq<Player>, issued: u32, row: Player) -> Result<
    Player,
    ErrorKind,
> {
    if has_identity(rows, row.identity) {
        Err(ErrorKind::DuplicateIdentity)
    } else if issued == u32::MAX {
        Err(ErrorKind::IdentifiersExhausted)
    } else {
        Ok(numbered(row, (issued + 1) as u32))
    }
}

/// Every row of `rows` carries a player id of its own, one of the first
/// `issued` ids.
pub open spec fn ids_in_sequence(rows: Seq<Player>, issued: u32) -> bool {
    &&& forall|i: int| 0 <= i < rows.len() ==> 1 <= (#[trigger] rows[i]).player_id <= issued
    &&& forall|i: int, j: int|
        0 <= i < rows.len() && 0 <= j < rows.len() && (#[trigger] rows[i]).player_id == (
        #[trigger] rows[j]).player_id ==> i == j
}

/// A row that joins under the next id has an id of its own.
pub proof fn lemma_ids_after_push(rows: Seq<Player>, issued: u32, row: Player)
    requires
        ids_in_sequence(rows, issued),
        issued < u32::MAX,
        row.player_id == issued + 1,
    ensures
        ids_in_sequence(rows.push(row), (issued + 1) as u32),
{
    let after = rows.push(row);
    assert forall|i: int| 0 <= i < after.len() implies 1 <= (#[trigger] after[i]).player_id
        <= issued + 1 by {
        if i < rows.len() {
            assert(after[i] == rows[i]);
        }
    }
    assert forall|i: int, j: int|
        0 <= i < after.len() && 0 <= j < after.len() && (#[trigger] after[i]).player_id == (
        #[trigger] after[j]).player_id implies i == j by {
        if i < rows.len() {
            assert(after[i] == rows[i]);
        }
        if j < rows.len() {
            assert(after[j] == rows[j]);
        }
    }
}

/// The rows that stay when one leaves keep ids of their own.
pub proof fn lemma_ids_after_remove(rows: Seq<Player>, issued: u32, at: int)
    requires
        ids_in_sequence(rows, issued),
        0 <= at < rows.len(),
    ensures
        ids_in_sequence(rows.remove(at), issued),
{
    let after = rows.remove(at);
    assert forall|i: int| 0 <= i < after.len() implies 1 <= (#[trigger] after[i]).player_id
        <= issued by {
        if i < at {
            assert(after[i] == rows[i]);
        } else {
            assert(after[i] == rows[i + 1]);
        }
    }
    assert forall|i: int, j: int|
        0 <= i < after.len() && 0 <= j < after.len() && (#[trigger] after[i]).player_id == (
        #[trigger] after[j]).player_id implies i == j by {
        let from_i = if i < at { i } else { i + 1 };
        let from_j = if j < at { j } else { j + 1 };
        assert(after[i] == rows[from_i]);
        assert(after[j] == rows[from_j]);
    }
}

/// A row that is replaced by one with the same id leaves every id in its
/// place.
pub proof fn lemma_ids_after_update(rows: Seq<Player>, issued: u32, at: int, row: Player)
    requires
        ids_in_sequence(rows, issued),
        0 <= at < rows.len(),
        row.player_id == rows[at].player_id,
    ensures
        ids_in_sequence(rows.update(at, row), issued),
{
    let after = rows.update(at, row);
    assert forall|i: int| 0 <= i < after.len() implies (#[trigger] after[i]).player_id
        == rows[i].player_id by {}
    assert forall|i: int, j: int|
        0 <= i < after.len() && 0 <= j < after.len() && (#[trigger] after[i]).player_id == (
        #[trigger] after[j]).player_id implies i == j by {
        assert(rows[i].player_id == rows[j].player_id);
    }
}

/// In a sequence without repeated identities, a row is found at one place
/// only.
pub proof fn lemma_index_of(rows: Seq<Player>, identity: Identity, i: int)
    requires
        unique_identities(rows),
        0 <= i < rows.len(),
        rows[i].identity == identity,
    ensures
        index_of(rows, identity) == i,
        has_identity(rows, identity),
{
    let j = index_of(rows, identity);
    assert(0 <= j < rows.len() && rows[j].identity == identity);
}

/// The players, in the order in which their rows were inserted.
pub struct PlayerTable {
    rows: Vec<Player>,
    issued: u32,
}

impl View for PlayerTable {
    type V = Seq<Player>;

    closed spec fn view(&self) -> Seq<Player> {
        self.rows@
    }
}

impl PlayerTable {
    /// How many player ids the table has handed out. The next row gets this
    /// number plus one, so no id is given twice.
    pub closed spec fn issued(&self) -> u32 {
        self.issued
    }

    /// Every row carries a player id of its own, one of those handed out.
    /// Insertion and deletion keep this; so does an update that leaves the
    /// row's id as it is.
    pub open spec fn numbered(&self) -> bool {
        ids_in_sequence(self@, self.issued())
    }

    /// The table's invariant: at most one row per identity.
    pub open spec fn wf(&self) -> bool {
        unique_identities(self@)
    }

    /// An empty table that has handed out no id.
    pub fn new() -> (table: PlayerTable)
        ensures
            table@ == Seq::<Player>::empty(),
            table.issued() == 0,
            table.wf(),
            table.numbered(),
    {
        PlayerTable { rows: Vec::new(), issued: 0 }
    }

    /// An empty table that goes on numbering after `issued`: for a server
    /// that comes back and must not hand out an id a second time.
    pub fn starting_after(issued: u32) -> (table: PlayerTable)
        ensures
            table@ == Seq::<Player>::empty(),
            table.issued() == issued,
            table.wf(),
            table.numbered(),
    {
        PlayerTable { rows: Vec::new(), issued }
    }

    fn position(&self, identity: Identity) -> (found: Option<usize>)
        ensures
            match found {
                Some(i) => i < self@.len() && self@[i as int].identity == identity,
                None => !has_identity(self@, identity),
            },
    {
        let mut i: usize = 0;
        while i < self.rows.len()
            invariant
                i <= self.rows.len(),
                forall|k: int| 0 <= k < i ==> (#[trigger] self.rows@[k]).identity != identity,
            decreases self.rows.len() - i,
        {
            if self.rows[i].identity == identity {
                return Some(i);
            }
            i += 1;
        }
        None
    }

    /// Whether `identity` has a row.
    pub fn contains(&self, identity: Identity) -> (r: bool)
        ensures
            r == has_identity(self@, identity),
    {
        self.position(identity).is_some()
    }

    /// The row of `identity`, if it has one.
    pub fn find(&self, identity: Identity) -> (found: Option<Player>)
        requires
            self.wf(),
        ensures
            match found {
                Some(row) => has_identity(self@, identity) && row == self@[index_of(
                    self@,
                    identity,
                )],
                None => !has_identity(self@, identity),
            },
    {
        match self.position(identity) {
            Some(i) => {
                proof {
                    lemma_index_of(self@, identity, i as int);
                }
                Some(self.rows[i].clone())
            },
            None => None,
        }
    }

    /// Stores `row` under the next player id and returns it as stored.
    /// Nothing is stored where the identity has a row already, or where the
    /// ids have run out.
    pub fn insert(&mut self, row: Player) -> (r: Result<Player, ErrorKind>)
        requires
            old(self).wf(),
        ensures
            final(self).wf(),
            old(self).numbered() ==> final(self).numbered(),
            r == insert_outcome(old(self)@, old(self).issued(), row),
            match r {
                Ok(stored) => final(self)@ == old(self)@.push(stored) && final(self).issued()
                    == old(self).issued() + 1,
                Err(_) => final(self)@ == old(self)@ && final(self).issued() == old(self).issued(),
            },
    {
        if self.position(row.identity).is_some() {
            return Err(ErrorKind::DuplicateIdentity);
        }
        if self.issued == u32::MAX {
            return Err(ErrorKind::IdentifiersExhausted);
        }
        let player_id: u32 = self.issued + 1;
        let stored = Player {
            identity: row.identity,
            player_id,
            name: row.name,
            position: row.position,
            rotation: row.rotation,
            direction: row.direction,
        };
        let copy = stored.clone();
        proof {
            if self.numbered() {
                lemma_ids_after_push(self@, self.issued, stored);
            }
        }
        self.issued = player_id;
        self.rows.push(stored);
        Ok(copy)
    }

    /// Replaces the row of `row.identity` by `row`, whole.
    pub fn update(&mut self, row: Player)
        requires
            old(self).wf(),
            has_identity(old(self)@, row.identity),
        ensures
            final(self).wf(),
            final(self)@ == old(self)@.update(index_of(old(self)@, row.identity), row),
            final(self).issued() == old(self).issued(),
            old(self).numbered() && row.player_id == old(self)@[index_of(
                old(self)@,
                row.identity,
            )].player_id ==> final(self).numbered(),
    {
        match self.position(row.identity) {
            Some(i) => {
                proof {
                    lemma_index_of(self@, row.identity, i as int);
                    if self.numbered() && row.player_id == self@[i as int].player_id {
                        lemma_ids_after_update(self@, self.issued, i as int, row);
                    }
                }
                self.rows[i] = row;
            },
            None => {},
        }
    }

    /// Removes the row of `row.identity`. The rows that stay keep their
    /// order.
    pub fn delete(&mut self, row: &Player)
        requires
            old(self).wf(),
            has_identity(old(self)@, row.identity),
        ensures
            final(self).wf(),
            final(self)@ == old(self)@.remove(index_of(old(self)@, row.identity)),
            final(self).issued() == old(self).issued(),
            old(self).numbered() ==> final(self).numbered(),
    {
        match self.position(row.identity) {
            Some(i) => {
                proof {
                    lemma_index_of(self@, row.identity, i as int);
                    if self.numbered() {
                        lemma_ids_after_remove(self@, self.issued, i as int);
                    }
                }
                let _ = self.rows.remove(i);
            },
            None => {},
        }
    }

    /// A copy of every row, in the table's order, as of the call.
    pub fn iter(&self) -> (rows: Vec<Player>)
        ensures
            rows@ == self@,
    {
        let mut rows: Vec<Player> = Vec::new();
        let mut i: usize = 0;
        while i < self.rows.len()
            invariant
                i <= self.rows.len(),
                rows@ == self.rows@.subrange(0, i as int),
            decreases self.rows.len() - i,
        {
            rows.push(self.rows[i].clone());
            assert(rows@ == self.rows@.subrange(0, i + 1));
            i += 1;
        }
        assert(rows@ == self@);
        rows
    }

    /// The number of rows.
    pub fn count(&self) -> (n: usize)
        ensures
            n == self@.len(),
    {
        self.rows.len()
    }
}

/// A table holds at most one row for an identity: two places that hold rows
/// of the same identity are the same place.
pub proof fn lemma_one_row_per_identity(table: PlayerTable, i: int, j: int)
    requires
        table.wf(),
        0 <= i < table@.len(),
        0 <= j < table@.len(),
        table@[i].identity == table@[j].identity,
    ensures
        i == j,
{
}

} // verus!
