//! What the vault asks of the token ledger, and what the ledger answers.
//!
//! The ledger moves tokens, mints and burns them. It is not part of this
//! library: a request builds the instruction, the host hands it to the ledger
//! and brings back the report.

use vstd::prelude::*;
use vstd::slice::slice_to_vec;

use crate::identity::Identity;

verus! {

/// The accounts that an instruction to the ledger names.
#[derive(Clone, Copy, Debug, PartialEq, Eq)]
pub enum TokenAccounts {
    /// Move tokens from `from` to `to`; `authority` answers for `from`.
    Transfer { from: Identity, authority: Identity, to: Identity },
    /// Create tokens of `mint` on `to`; `authority` answers for `mint`.
    MintTo { mint: Identity, authority: Identity, to: Identity },
    /// Destroy tokens of `mint` held on `from`; `authority` answers for `from`.
    Burn { mint: Identity, from: Identity, authority: Identity },
}

/// One instruction to the ledger.
#[derive(Clone, Debug, PartialEq, Eq)]
pub struct LedgerInstruction {
    /// What to do, and on which accounts.
    pub accounts: TokenAccounts,
    /// For each authority that signs by derivation, the seeds from which its
    /// address derives. Empty where the authority signed the request itself.
    pub signer_seeds: Vec<Vec<Vec<u8>>>,
    /// How many tokens.
    pub amount: u64,
}

/// An instruction with its seeds as sequences of bytes.
pub struct LedgerInstructionView {
    pub accounts: TokenAccounts,
    pub signer_seeds: Seq<Seq<Seq<u8>>>,
    pub amount: nat,
}

impl View for LedgerInstruction {
    type V = LedgerInstructionView;

    open spec fn view(&self) -> LedgerInstructionView {
        LedgerInstructionView {
            accounts: self.accounts,
            signer_seeds: self.signer_seeds.deep_view(),
            amount: self.amount as nat,
        }
    }
}

/// What the ledger answers to an instruction.
#[derive(Clone, Copy, Debug, PartialEq, Eq)]
pub enum LedgerReport {
    /// The instruction was carried out.
    Executed,
    /// The account to be debited holds too little.
    InsufficientFunds,
    /// The authority presented does not answer for the account.
    Unauthorized,
}

/// A copy of one authority's seeds.
fn owned_seeds(seeds: &[&[u8]]) -> (owned: Vec<Vec<u8>>)
    ensures
        owned.deep_view() == seeds.deep_view(),
{
    let mut owned: Vec<Vec<u8>> = Vec::new();
    let mut i: usize = 0;
    while i < seeds.len()
        invariant
            i <= seeds.len(),
            owned@.len() == i,
            forall|j: int| 0 <= j < i ==> (#[trigger] owned@[j])@ == seeds@[j]@,
        decreases seeds.len() - i,
    {
        owned.push(slice_to_vec(seeds[i]));
        i = i + 1;
    }
    proof {
        assert forall|j: int| 0 <= j < owned@.len() implies #[trigger] owned@[j].deep_view()
            == seeds@[j].deep_view() by {
            assert(owned@[j].deep_view() =~= owned@[j]@);
            assert(seeds@[j].deep_view() =~= seeds@[j]@);
        }
        assert(owned.deep_view() =~= seeds.deep_view());
    }
    owned
}

/// A copy of the seeds of every authority that signs by derivation.
fn owned_signer_seeds(signer_seeds: &[&[&[u8]]]) -> (owned: Vec<Vec<Vec<u8>>>)
    ensures
        owned.deep_view() == signer_seeds.deep_view(),
{
    let mut owned: Vec<Vec<Vec<u8>>> = Vec::new();
    let mut i: usize = 0;
    while i < signer_seeds.len()
        invariant
            i <= signer_seeds.len(),
            owned@.len() == i,
            forall|j: int|
                0 <= j < i ==> (#[trigger] owned@[j]).deep_view() == signer_seeds@[j].deep_view(),
        decreases signer_seeds.len() - i,
    {
        owned.push(owned_seeds(signer_seeds[i]));
        i = i + 1;
    }
    assert(owned.deep_view() =~= signer_seeds.deep_view());
    owned
}

/// The instruction by which a depositor, who signed the request, moves
/// `amount` tokens from `from` to `to`.
pub fn transfer_token_user(from: Identity, authority: Identity, to: Identity, amount: u64) -> (
    instruction: LedgerInstruction
)
    ensures
        instruction@ == (LedgerInstructionView {
            accounts: TokenAccounts::Transfer { from, authority, to },
            signer_seeds: Seq::empty(),
            amount: amount as nat,
        }),
{
    let instruction = LedgerInstruction {
        accounts: TokenAccounts::Transfer { from, authority, to },
        signer_seeds: Vec::new(),
        amount,
    };
    assert(instruction@.signer_seeds =~= Seq::empty());
    instruction
}

/// The instruction by which an authority that signs by derivation moves
/// `amount` tokens from `from` to `to`.
pub fn transfer_token_with_signer(
    from: Identity,
    authority: Identity,
    to: Identity,
    signer_seeds: &[&[&[u8]]],
    amount: u64,
) -> (instruction: LedgerInstruction)
    ensures
        instruction@ == (LedgerInstructionView {
            accounts: TokenAccounts::Transfer { from, authority, to },
            signer_seeds: signer_seeds.deep_view(),
            amount: amount as nat,
        }),
{
    LedgerInstruction {
        accounts: TokenAccounts::Transfer { from, authority, to },
        signer_seeds: owned_signer_seeds(signer_seeds),
        amount,
    }
}

/// The instruction by which an authority that signs by derivation creates
/// `amount` tokens of `mint` on `to`.
pub fn mint_token(
    mint: Identity,
    authority: Identity,
    to: Identity,
    signer_seeds: &[&[&[u8]]],
    amount: u64,
) -> (instruction: LedgerInstruction)
    ensures
        instruction@ == (LedgerInstructionView {
            accounts: TokenAccounts::MintTo { mint, authority, to },
            signer_seeds: signer_seeds.deep_view(),
            amount: amount as nat,
        }),
{
    LedgerInstruction {
        accounts: TokenAccounts::MintTo { mint, authority, to },
        signer_seeds: owned_signer_seeds(signer_seeds),
        amount,
    }
}

/// The instruction by which a holder, who signed the request, destroys
/// `amount` tokens of `mint` held on `from`.
pub fn burn_token(authority: Identity, mint: Identity, from: Identity, amount: u64) -> (
    instruction: LedgerInstruction
)
    ensures
        instruction@ == (LedgerInstructionView {
            accounts: TokenAccounts::Burn { mint, from, authority },
            signer_seeds: Seq::empty(),
            amount: amount as nat,
        }),
{
    let instruction = LedgerInstruction {
        accounts: TokenAccounts::Burn { mint, from, authority },
        signer_seeds: Vec::new(),
        amount,
    };
    assert(instruction@.signer_seeds =~= Seq::empty());
    instruction
}

} // verus!
