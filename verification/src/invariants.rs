//! The vault of one token mint together with the positions of its
//! depositors, and what holds of the two whatever requests are served.

use vstd::prelude::*;

use crate::state::vault::lemma_fresh_pools_are_empty;
use crate::state::{distinct_ids, UserPositionView, VaultView};

verus! {

/// The shares that the positions hold together.
pub open spec fn held_shares(positions: Seq<UserPositionView>) -> nat
    decreases positions.len(),
{
    if positions.len() == 0 {
        0
    } else {
        held_shares(positions.drop_last()) + positions.last().share
    }
}

/// A deposit or a withdrawal, by the depositor who holds the position of
/// that number.
pub enum Request {
    Deposit { depositor: int, amount: nat },
    Withdraw { depositor: int, amount: nat },
}

/// A vault and the positions of all its depositors. A depositor who has no
/// position yet counts with an empty one.
pub struct Book {
    pub vault: VaultView,
    pub positions: Seq<UserPositionView>,
}

impl Book {
    /// The book of a newly initialized vault with the pools named `ids` and
    /// `depositors` depositors, none of whom holds anything.
    pub open spec fn opening(ids: Seq<Seq<char>>, depositors: nat) -> Book {
        Book {
            vault: VaultView::fresh(ids),
            positions: Seq::new(depositors, |i: int| UserPositionView::empty()),
        }
    }

    /// Every share of the vault is held by a depositor, and the vault's
    /// invariant holds: its assets cover what is unallocated and what the
    /// pools hold, the pools' targets fit the whole, and their names differ.
    pub open spec fn sound(self) -> bool {
        &&& self.vault.total_shares == held_shares(self.positions)
        &&& self.vault.wf()
    }

    /// The book after `request`: as the accounting leaves it where it accepts
    /// the request, unchanged where it does not or where nobody holds the
    /// position named.
    pub open spec fn serve(self, request: Request) -> Book {
        match request {
            Request::Deposit { depositor, amount } => {
                if 0 <= depositor < self.positions.len() {
                    match self.vault.deposit(self.positions[depositor], amount) {
                        Ok(posting) => Book {
                            vault: posting.vault,
                            positions: self.positions.update(depositor, posting.position),
                        },
                        Err(_) => self,
                    }
                } else {
                    self
                }
            },
            Request::Withdraw { depositor, amount } => {
                if 0 <= depositor < self.positions.len() {
                    match self.vault.withdraw(self.positions[depositor], amount) {
                        Ok(posting) => Book {
                            vault: posting.vault,
                            positions: self.positions.update(depositor, posting.position),
                        },
                        Err(_) => self,
                    }
                } else {
                    self
                }
            },
        }
    }

    /// The book after `requests`, served one after the other.
    pub open spec fn replay(self, requests: Seq<Request>) -> Book
        decreases requests.len(),
    {
        if requests.len() == 0 {
            self
        } else {
            self.replay(requests.drop_last()).serve(requests.last())
        }
    }
}

/// Replacing one position changes the shares held by the difference between
/// the two.
pub proof fn lemma_held_shares_update(
    positions: Seq<UserPositionView>,
    depositor: int,
    position: UserPositionView,
)
    requires
        0 <= depositor < positions.len(),
    ensures
        held_shares(positions.update(depositor, position)) == held_shares(positions)
            - positions[depositor].share + position.share,
    decreases positions.len(),
{
    let updated = positions.update(depositor, position);
    if depositor == positions.len() - 1 {
        assert(updated.drop_last() =~= positions.drop_last());
    } else {
        lemma_held_shares_update(positions.drop_last(), depositor, position);
        assert(updated.drop_last() =~= positions.drop_last().update(depositor, position));
    }
}

/// A newly initialized vault is sound: it has no share, its depositors hold
/// none, and its pools, which differ in name, hold nothing.
pub proof fn lemma_opening_book_is_sound(ids: Seq<Seq<char>>, depositors: nat)
    requires
        distinct_ids(ids),
    ensures
        Book::opening(ids, depositors).sound(),
    decreases depositors,
{
    lemma_fresh_pools_are_empty(ids);
    if depositors > 0 {
        lemma_opening_book_is_sound(ids, (depositors - 1) as nat);
        assert(Book::opening(ids, depositors).positions.drop_last() =~= Book::opening(
            ids,
            (depositors - 1) as nat,
        ).positions);
    }
}

/// One request, accepted or not, leaves a sound book sound.
pub proof fn lemma_serve_keeps_sound(book: Book, request: Request)
    requires
        book.sound(),
    ensures
        book.serve(request).sound(),
{
    match request {
        Request::Deposit { depositor, amount } => {
            if 0 <= depositor < book.positions.len() {
                if let Ok(posting) = book.vault.deposit(book.positions[depositor], amount) {
                    lemma_held_shares_update(book.positions, depositor, posting.position);
                }
            }
        },
        Request::Withdraw { depositor, amount } => {
            if 0 <= depositor < book.positions.len() {
                if let Ok(posting) = book.vault.withdraw(book.positions[depositor], amount) {
                    lemma_held_shares_update(book.positions, depositor, posting.position);
                }
            }
        },
    }
}

/// Whatever deposits and withdrawals are served, at every point on the way
/// the vault's shares are exactly the shares that its depositors hold, and
/// what is unallocated and what the pools hold is covered by the vault's
/// assets.
pub proof fn lemma_replay_keeps_sound(book: Book, requests: Seq<Request>)
    requires
        book.sound(),
    ensures
        forall|n: int| 0 <= n <= requests.len() ==> (#[trigger] book.replay(requests.take(n))).sound(),
        book.replay(requests).sound(),
    decreases requests.len(),
{
    if requests.len() > 0 {
        lemma_replay_keeps_sound(book, requests.drop_last());
        lemma_serve_keeps_sound(book.replay(requests.drop_last()), requests.last());
        assert forall|n: int| 0 <= n <= requests.len() implies (#[trigger] book.replay(
            requests.take(n),
        )).sound() by {
            if n == requests.len() {
                assert(requests.take(n) =~= requests);
            } else {
                assert(requests.take(n) =~= requests.drop_last().take(n));
            }
        }
    } else {
        assert forall|n: int| 0 <= n <= requests.len() implies (#[trigger] book.replay(
            requests.take(n),
        )).sound() by {
            assert(requests.take(n) =~= requests);
        }
    }
}

} // verus!
