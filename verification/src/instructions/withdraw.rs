//! Paying tokens out of a vault.

use vstd::prelude::*;

use crate::accounting::Posting;
use crate::error::VaultError;
use crate::identity::Identity;
use crate::state::{UserPosition, Vault, VaultConfig};
use crate::util::{
    transfer_token_with_signer, LedgerInstruction, LedgerInstructionView, LedgerReport,
    TokenAccounts,
};

verus! {

/// What a request to withdraw works on.
#[derive(Clone, Debug, PartialEq, Eq)]
pub struct WithDraw {
    /// The depositor, who signed the request.
    pub signer: Identity,
    /// The token that is paid out.
    pub token_mint: Identity,
    /// The depositor's position: `None` until the depositor's first request.
    pub user_position: Option<UserPosition>,
    /// The vault record of the mint: `None` while the mint is not initialized.
    pub vault: Option<Vault>,
    /// The configuration record of the mint, `None` likewise.
    pub vault_config: Option<VaultConfig>,
    /// The address of the configuration record, which answers for the
    /// vault's token account.
    pub vault_authority: Identity,
    /// The account on which the vault holds its tokens.
    pub vault_token_account: Identity,
    /// The account on which the depositor is paid.
    pub user_token_account: Identity,
}

impl WithDraw {
    /// The depositor's position, which is empty until a request creates it.
    pub open spec fn position(&self) -> UserPosition {
        match self.user_position {
            Some(position) => position,
            None => UserPosition { share: 0, amount: 0 },
        }
    }

    /// What the accounting makes of a withdrawal of `amount`:
    /// `RecordNotFound` where the mint has no vault or no configuration, else
    /// what the vault makes of it.
    pub open spec fn posting(&self, amount: u64) -> Result<Posting, VaultError> {
        if self.vault is None || self.vault_config is None {
            Err(VaultError::RecordNotFound)
        } else {
            self.vault->Some_0@.withdraw(self.position()@, amount as nat)
        }
    }

    /// What `process` answers once the ledger has reported: the error of the
    /// accounting where it has one, else the refusal of the ledger where it
    /// refused, else the posting.
    pub open spec fn answer(&self, amount: u64, report: LedgerReport) -> Result<
        Posting,
        VaultError,
    > {
        match self.posting(amount) {
            Err(e) => Err(e),
            Ok(posting) => match report {
                LedgerReport::Executed => Ok(posting),
                LedgerReport::InsufficientFunds => Err(VaultError::InsufficientFunds),
                LedgerReport::Unauthorized => Err(VaultError::Unauthorized),
            },
        }
    }

    /// How `process` leaves `after` what it found as `self`, and what it
    /// answers: where the request is accepted, the vault and the position of
    /// the posting are in place and nothing else has changed; where it fails,
    /// nothing has changed at all.
    pub open spec fn processed(
        &self,
        amount: u64,
        report: LedgerReport,
        after: &Self,
        answer: Result<(), VaultError>,
    ) -> bool {
        match self.answer(amount, report) {
            Ok(posting) => {
                &&& answer == Ok::<(), VaultError>(())
                &&& after.vault is Some
                &&& after.vault->Some_0@ == posting.vault
                &&& after.vault->Some_0.pools == self.vault->Some_0.pools
                &&& after.user_position is Some
                &&& after.user_position->Some_0@ == posting.position
                &&& after.vault_config == self.vault_config
                &&& after.signer == self.signer
                &&& after.token_mint == self.token_mint
                &&& after.vault_authority == self.vault_authority
                &&& after.vault_token_account == self.vault_token_account
                &&& after.user_token_account == self.user_token_account
            },
            Err(e) => answer == Err::<(), VaultError>(e) && *after == *self,
        }
    }

    /// The instruction that moves `amount` from the vault's account to the
    /// depositor's, on the authority proof of the vault's configuration.
    pub open spec fn spec_transfer(&self, amount: u64) -> LedgerInstructionView {
        LedgerInstructionView {
            accounts: TokenAccounts::Transfer {
                from: self.vault_token_account,
                authority: self.vault_authority,
                to: self.user_token_account,
            },
            signer_seeds: seq![self.vault_config->Some_0.spec_auth_seeds()],
            amount: amount as nat,
        }
    }

    /// What to ask of the ledger for a withdrawal of `amount`. Nothing is
    /// asked for a withdrawal that the accounting turns down.
    pub fn transfer(&self, amount: u64) -> (instruction: Result<LedgerInstruction, VaultError>)
        ensures
            match self.posting(amount) {
                Ok(_) => instruction is Ok && instruction->Ok_0@ == self.spec_transfer(amount),
                Err(e) => instruction == Err::<LedgerInstruction, VaultError>(e),
            },
    {
        let position = match self.user_position {
            Some(position) => position,
            None => UserPosition::new(),
        };
        match (&self.vault, &self.vault_config) {
            (Some(vault), Some(vault_config)) => match vault.quote_withdrawal(&position, amount) {
                Err(e) => Err(e),
                Ok(_) => {
                    let seeds = vault_config.auth_seeds();
                    let signers = [seeds.as_slice()];
                    let signer_seeds = signers.as_slice();
                    assert(signer_seeds@[0].deep_view() =~= seeds.deep_view());
                    assert(signer_seeds.deep_view() =~= seq![vault_config.spec_auth_seeds()]);
                    Ok(
                        transfer_token_with_signer(
                            self.vault_token_account,
                            self.vault_authority,
                            self.user_token_account,
                            signer_seeds,
                            amount,
                        ),
                    )
                },
            },
            _ => Err(VaultError::RecordNotFound),
        }
    }

    /// Books a withdrawal of `amount` for which the ledger reported `report`
    /// on the instruction of `transfer`. The position is created where the
    /// depositor had none. A withdrawal that fails changes nothing.
    pub fn process(&mut self, amount: u64, report: LedgerReport) -> (answer: Result<
        (),
        VaultError,
    >)
        ensures
            old(self).processed(amount, report, final(self), answer),
            old(self).vault is Some && old(self).vault_config is Some && amount > old(
                self,
            ).vault->Some_0.unallocated_amount ==> answer == Err::<(), VaultError>(
                VaultError::InsufficientLiquidity,
            ),
            answer is Ok && old(self).vault->Some_0.wf() ==> final(self).vault->Some_0.wf(),
    {
        if self.vault_config.is_none() {
            return Err(VaultError::RecordNotFound);
        }
        let mut position = match self.user_position {
            Some(position) => position,
            None => UserPosition::new(),
        };
        match &mut self.vault {
            None => Err(VaultError::RecordNotFound),
            Some(vault) => {
                match vault.quote_withdrawal(&position, amount) {
                    Err(e) => {
                        return Err(e);
                    },
                    Ok(_) => {},
                }
                match report {
                    LedgerReport::Executed => {},
                    LedgerReport::InsufficientFunds => {
                        return Err(VaultError::InsufficientFunds);
                    },
                    LedgerReport::Unauthorized => {
                        return Err(VaultError::Unauthorized);
                    },
                }
                let _ = vault.withdraw(&mut position, amount);
                self.user_position = Some(position);
                Ok(())
            },
        }
    }
}

} // verus!
