//! Share-based accounting for a custodial vault of a single fungible token.
//!
//! Depositors pay tokens into a vault and get shares for them; the vault
//! assigns what it holds to named pools; depositors take out again what their
//! shares are worth. This library keeps the books: the vault's shares and
//! assets, what of them is unallocated, the pools, and each depositor's
//! position. Moving the tokens is the ledger's work and storing the records
//! the host's: a request tells what to ask of the ledger (`transfer`), and
//! books the outcome once the ledger has reported (`process`).

use vstd::prelude::*;

pub mod accounting;
pub mod address;
pub mod constant;
pub mod error;
pub mod identity;
pub mod instructions;
pub mod invariants;
pub mod state;
pub mod util;

pub use error::VaultError;
pub use identity::Identity;
pub use instructions::{Deposit, Initialize, InitializeBumps, WithDraw};
pub use state::{Pool, UserPosition, Vault, VaultConfig};
pub use util::{
    burn_token, mint_token, transfer_token_user, transfer_token_with_signer, LedgerInstruction,
    LedgerReport, TokenAccounts,
};

verus! {

/// Creates the configuration and the vault of a token mint.
pub fn initialize(
    ctx: &mut Initialize,
    bumps: &InitializeBumps,
    performance_fee: u16,
    management_fee: u16,
    pools: Vec<String>,
) -> (answer: Result<(), VaultError>)
    ensures
        answer == old(ctx).answer(pools.deep_view()),
        old(ctx).leaves(performance_fee, management_fee, bumps, pools.deep_view(), final(ctx)),
{
    ctx.process(performance_fee, management_fee, bumps, pools)
}

/// Books a deposit of `amount`, on which the ledger reported `report`.
pub fn deposit(ctx: &mut Deposit, amount: u64, report: LedgerReport) -> (answer: Result<
    (),
    VaultError,
>)
    ensures
        old(ctx).processed(amount, report, final(ctx), answer),
{
    ctx.process(amount, report)
}

/// Books a withdrawal of `amount`, on which the ledger reported `report`.
pub fn withdraw(ctx: &mut WithDraw, amount: u64, report: LedgerReport) -> (answer: Result<
    (),
    VaultError,
>)
    ensures
        old(ctx).processed(amount, report, final(ctx), answer),
{
    ctx.process(amount, report)
}

} // verus!
