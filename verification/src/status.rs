//! The binary room status and the transition test.

use vstd::prelude::*;

verus! {

/// The binary state of the room, as the status source reports it.
#[derive(Debug, Clone, Copy, PartialEq, Eq, Structural)]
pub enum RoomStatus {
    Open,
    Closed,
}

impl RoomStatus {
    /// The lower-case English name of the status, as it appears in
    /// rendered notification messages.
    pub fn name(&self) -> (r: &'static str)
        ensures
            *self is Open ==> r@ == "open"@,
            *self is Closed ==> r@ == "closed"@,
    {
        match self {
            RoomStatus::Open => "open",
            RoomStatus::Closed => "closed",
        }
    }
}

/// A transition is a change of observed status between two consecutive
/// polls: `check` returns true exactly when `previous` and `current`
/// differ, for every one of the four pairs.
pub fn check(previous: RoomStatus, current: RoomStatus) -> (r: bool)
    ensures
        r == (previous != current),
{
    previous != current
}

} // verus!
