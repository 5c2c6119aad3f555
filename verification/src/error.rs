//! The ways in which an operation of the simulation can fail.

use vstd::prelude::*;

verus! {

/// Why an operation was refused. A refused operation leaves all state as it
/// was.
#[derive(Clone, Copy, Debug, PartialEq, Eq, Structural)]
pub enum ErrorKind {
    /// A movement command whose magnitude lies outside the accepted range.
    InvalidMagnitude,
    /// A command from an identity that has no row.
    UnknownSender,
    /// The tick timer was armed while it was armed already.
    DuplicateSchedule,
    /// A row was inserted for an identity that has one already.
    DuplicateIdentity,
    /// A row was inserted after the last player id had been handed out.
    IdentifiersExhausted,
}

} // verus!
