//! A depositor's claim on a vault.

use vstd::prelude::*;

verus! {

/// What one depositor holds in the vault of one token mint.
#[derive(Clone, Copy, Debug, PartialEq, Eq)]
pub struct UserPosition {
    /// The depositor's shares, in the unit of the vault's `total_shares`.
    pub share: u64,
    /// The amount the depositor has paid in, as recorded at deposits.
    pub amount: u64,
}

/// A position as two natural numbers.
pub struct UserPositionView {
    pub share: nat,
    pub amount: nat,
}

impl View for UserPosition {
    type V = UserPositionView;

    open spec fn view(&self) -> UserPositionView {
        UserPositionView { share: self.share as nat, amount: self.amount as nat }
    }
}

impl UserPositionView {
    /// The position of a depositor who holds nothing.
    pub open spec fn empty() -> UserPositionView {
        UserPositionView { share: 0, amount: 0 }
    }
}

impl UserPosition {
    /// The position a depositor starts from: no share and no amount.
    pub fn new() -> (position: UserPosition)
        ensures
            position@ == UserPositionView::empty(),
    {
        UserPosition { share: 0, amount: 0 }
    }
}

/// Bytes that a stored position takes: its 8-byte record tag and two 8-byte counters.
pub const USER_POSITION_SIZE: usize = 8 + 8 + 8;

} // verus!
