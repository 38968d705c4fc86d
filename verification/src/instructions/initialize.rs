//! Creating the records of a token mint.

use vstd::prelude::*;

use crate::error::VaultError;
use crate::identity::Identity;
use crate::state::{pool_list_admission, Vault, VaultConfig, VaultView};

verus! {

/// The bumps that complete the derivation of the addresses of the records
/// that `Initialize` creates.
#[derive(Clone, Copy, Debug, PartialEq, Eq)]
pub struct InitializeBumps {
    pub vault_config: u8,
    pub vault: u8,
}

/// What a request to initialize the vault of a token mint works on.
#[derive(Clone, Debug, PartialEq, Eq)]
pub struct Initialize {
    /// Who asks, and will administer the vault.
    pub admin: Identity,
    /// The token that the vault takes in.
    pub token_mint: Identity,
    /// The configuration record of the mint: `None` until it is created.
    pub vault_config: Option<VaultConfig>,
    /// The vault record of the mint: `None` until it is created.
    pub vault: Option<Vault>,
}

impl Initialize {
    /// What `process` answers to a request with pools named `pools`:
    /// `RecordAlreadyExists` where the mint has a record; else
    /// `CapacityExceeded` where the pools do not fit the space reserved for a
    /// vault; else `DuplicatePoolId` where two of them have the same name.
    pub open spec fn answer(&self, pools: Seq<Seq<char>>) -> Result<(), VaultError> {
        if self.vault_config is Some || self.vault is Some {
            Err(VaultError::RecordAlreadyExists)
        } else {
            pool_list_admission(pools)
        }
    }

    /// The configuration that a request accepted on `self` creates.
    pub open spec fn created_config(
        &self,
        performance_fee: u16,
        management_fee: u16,
        bumps: &InitializeBumps,
        config: VaultConfig,
    ) -> bool {
        &&& config.admin == self.admin
        &&& config.token_mint == self.token_mint
        &&& config.performance_fee == performance_fee
        &&& config.management_fee == management_fee
        &&& config.bump@ == seq![bumps.vault_config]
    }

    /// How `process` leaves `after` what it found as `self`: unchanged where
    /// the request fails, else with the admin's configuration and a fresh
    /// vault in place.
    pub open spec fn leaves(
        &self,
        performance_fee: u16,
        management_fee: u16,
        bumps: &InitializeBumps,
        pools: Seq<Seq<char>>,
        after: &Initialize,
    ) -> bool {
        if self.answer(pools) is Err {
            *after == *self
        } else {
            &&& after.admin == self.admin
            &&& after.token_mint == self.token_mint
            &&& after.vault_config is Some
            &&& self.created_config(
                performance_fee,
                management_fee,
                bumps,
                after.vault_config->Some_0,
            )
            &&& after.vault is Some
            &&& after.vault->Some_0@ == VaultView::fresh(pools)
        }
    }

    /// Creates the configuration and the vault of the token mint: the
    /// configuration with the admin, the mint, the two fee rates as given and
    /// the configuration's bump; the vault with no share, no asset and one
    /// empty pool for each name in `pools`, in order, no two of which are
    /// the same. The fee rates are taken as they come. A request that fails,
    /// as `answer` says, changes nothing.
    pub fn process(
        &mut self,
        performance_fee: u16,
        management_fee: u16,
        bumps: &InitializeBumps,
        pools: Vec<String>,
    ) -> (answer: Result<(), VaultError>)
        ensures
            answer == old(self).answer(pools.deep_view()),
            old(self).leaves(
                performance_fee,
                management_fee,
                bumps,
                pools.deep_view(),
                final(self),
            ),
            answer is Ok ==> final(self).vault->Some_0.wf(),
    {
        if self.vault_config.is_some() || self.vault.is_some() {
            return Err(VaultError::RecordAlreadyExists);
        }
        let vault = match Vault::new(pools) {
            Ok(vault) => vault,
            Err(e) => {
                return Err(e);
            },
        };
        let vault_config = VaultConfig {
            admin: self.admin,
            token_mint: self.token_mint,
            performance_fee,
            management_fee,
            bump: [bumps.vault_config],
        };
        assert(vault_config.bump@ =~= seq![bumps.vault_config]);
        self.vault_config = Some(vault_config);
        self.vault = Some(vault);
        Ok(())
    }
}

/// A token mint is initialized once: on what an accepted request leaves
/// behind, every further request fails with `RecordAlreadyExists`, whatever it
/// asks for.
pub proof fn lemma_initialize_is_not_repeatable(
    before: Initialize,
    after: Initialize,
    performance_fee: u16,
    management_fee: u16,
    bumps: InitializeBumps,
    pools: Seq<Seq<char>>,
    again: Seq<Seq<char>>,
)
    requires
        before.answer(pools) is Ok,
        before.leaves(performance_fee, management_fee, &bumps, pools, &after),
    ensures
        after.answer(again) == Err::<(), VaultError>(VaultError::RecordAlreadyExists),
{
}

} // verus!
