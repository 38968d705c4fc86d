//! The two records that exist once per token mint: the configuration and the
//! vault's accounting state with its list of pools.

use vstd::prelude::*;

use crate::address::vault_config_location;
use crate::constant::VAULT_CONFIG_SEED;
use crate::error::VaultError;
use crate::identity::Identity;

verus! {

/// Who administers the vault of a token mint, what it charges, and the proof
/// by which the vault authorizes movements out of its own holding account.
#[derive(Clone, Copy, Debug, PartialEq, Eq)]
pub struct VaultConfig {
    /// The admin, set when the vault is created.
    pub admin: Identity,
    /// The token that the vault takes in.
    pub token_mint: Identity,
    /// Rate of the fee on gains.
    pub performance_fee: u16,
    /// Rate of the fee on assets under management.
    pub management_fee: u16,
    /// The byte that completes the derivation of this record's address.
    pub bump: [u8; 1],
}

impl VaultConfig {
    /// The seeds from which the address of this record derives: those of the
    /// configuration of its token mint, and the bump.
    pub open spec fn spec_auth_seeds(&self) -> Seq<Seq<u8>> {
        vault_config_location(self.token_mint@).push(self.bump@)
    }

    /// The authority proof of the vault: presenting these seeds to the ledger
    /// stands for the signature of the configuration record.
    pub fn auth_seeds<'a>(&'a self) -> (seeds: [&'a [u8]; 3])
        ensures
            seeds.deep_view() == self.spec_auth_seeds(),
    {
        let seeds = [
            VAULT_CONFIG_SEED.as_slice(),
            self.token_mint.as_bytes(),
            self.bump.as_slice(),
        ];
        assert(seeds@[0].deep_view() =~= VAULT_CONFIG_SEED@);
        assert(seeds@[1].deep_view() =~= self.token_mint@);
        assert(seeds@[2].deep_view() =~= self.bump@);
        assert(seeds.deep_view() =~= self.spec_auth_seeds());
        seeds
    }
}

/// Bytes that a stored configuration takes: an 8-byte record tag, two
/// identities, two fee rates and the bump.
pub const VAULT_CONFIG_SIZE: usize = 8 + 32 + 32 + 2 + 2 + 1;

/// A named target to which part of the vault's assets is assigned.
#[derive(Clone, Debug, PartialEq, Eq)]
pub struct Pool {
    /// The name of the pool.
    pub id: String,
    /// Share of the vault's assets that the pool is meant to hold, in percent.
    pub allocation_percentage: u8,
    /// What the pool holds now.
    pub amount: u64,
}

/// A pool as its name and two natural numbers.
pub struct PoolView {
    pub id: Seq<char>,
    pub allocation_percentage: nat,
    pub amount: nat,
}

impl View for Pool {
    type V = PoolView;

    open spec fn view(&self) -> PoolView {
        PoolView {
            id: self.id@,
            allocation_percentage: self.allocation_percentage as nat,
            amount: self.amount as nat,
        }
    }
}

impl PoolView {
    /// The pool named `id` before anything is assigned to it.
    pub open spec fn empty(id: Seq<char>) -> PoolView {
        PoolView { id, allocation_percentage: 0, amount: 0 }
    }
}

/// The accounting state of the vault of one token mint.
#[derive(Clone, Debug, PartialEq, Eq)]
pub struct Vault {
    /// Shares outstanding, over all depositors.
    pub total_shares: u64,
    /// The value that backs the outstanding shares.
    pub total_assets: u64,
    /// Assets assigned to no pool: what can be withdrawn at once.
    pub unallocated_amount: u64,
    /// The pools, in the order in which they are served.
    pub pools: Vec<Pool>,
}

/// A vault as three natural numbers and the sequence of its pools.
pub struct VaultView {
    pub total_shares: nat,
    pub total_assets: nat,
    pub unallocated_amount: nat,
    pub pools: Seq<PoolView>,
}

impl View for Vault {
    type V = VaultView;

    open spec fn view(&self) -> VaultView {
        VaultView {
            total_shares: self.total_shares as nat,
            total_assets: self.total_assets as nat,
            unallocated_amount: self.unallocated_amount as nat,
            pools: self.pools@.map_values(|pool: Pool| pool@),
        }
    }
}

/// What the pools hold together.
pub open spec fn pooled_amount(pools: Seq<PoolView>) -> nat
    decreases pools.len(),
{
    if pools.len() == 0 {
        0
    } else {
        pooled_amount(pools.drop_last()) + pools.last().amount
    }
}

/// The sum of the pools' target percentages.
pub open spec fn allocated_percentage(pools: Seq<PoolView>) -> nat
    decreases pools.len(),
{
    if pools.len() == 0 {
        0
    } else {
        allocated_percentage(pools.drop_last()) + pools.last().allocation_percentage
    }
}

/// Bytes that one stored pool takes: a 4-byte length and the UTF-8 bytes of
/// its name, one byte of percentage and 8 bytes of amount.
pub open spec fn pool_space(id: Seq<char>) -> nat {
    4 + vstd::utf8::encode_utf8(id).len() + 1 + 8
}

/// Bytes that the pools named `ids` take when stored one after the other.
pub open spec fn pool_list_space(ids: Seq<Seq<char>>) -> nat
    decreases ids.len(),
{
    if ids.len() == 0 {
        0
    } else {
        pool_list_space(ids.drop_last()) + pool_space(ids.last())
    }
}

/// Bytes that a stored vault with the pools named `ids` takes: an 8-byte
/// record tag, three 8-byte counters, a 4-byte pool count and the pools.
pub open spec fn vault_space(ids: Seq<Seq<char>>) -> nat {
    8 + 8 + 8 + 8 + 4 + pool_list_space(ids)
}

/// Bytes reserved for a stored vault: room for 15 pools of 150 bytes each.
pub const VAULT_SIZE: usize = 8 + 8 + 8 + 8 + 4 + 15 * 150;

/// No name occurs twice among `ids`.
pub open spec fn distinct_ids(ids: Seq<Seq<char>>) -> bool {
    forall|i: int, j: int| #![trigger ids[i], ids[j]] 0 <= i < j < ids.len() ==> ids[i] != ids[j]
}

/// Whether a vault can be created with the pools named `ids`:
/// `CapacityExceeded` where the stored vault would take more than
/// `VAULT_SIZE` bytes, else `DuplicatePoolId` where a name occurs twice.
pub open spec fn pool_list_admission(ids: Seq<Seq<char>>) -> Result<(), VaultError> {
    if vault_space(ids) > VAULT_SIZE {
        Err(VaultError::CapacityExceeded)
    } else if !distinct_ids(ids) {
        Err(VaultError::DuplicatePoolId)
    } else {
        Ok(())
    }
}

impl VaultView {
    /// The vault with the pools named `ids`, in that order, before any deposit.
    pub open spec fn fresh(ids: Seq<Seq<char>>) -> VaultView {
        VaultView {
            total_shares: 0,
            total_assets: 0,
            unallocated_amount: 0,
            pools: ids.map_values(|id: Seq<char>| PoolView::empty(id)),
        }
    }

    /// The names of the pools, in order.
    pub open spec fn pool_ids(self) -> Seq<Seq<char>> {
        self.pools.map_values(|pool: PoolView| pool.id)
    }

    /// The invariant of a vault: what is unallocated and what the pools hold
    /// is covered by the total assets, the pools' targets add up to at most
    /// the whole, and no two pools have the same name.
    pub open spec fn wf(self) -> bool {
        &&& self.unallocated_amount + pooled_amount(self.pools) <= self.total_assets
        &&& allocated_percentage(self.pools) <= 100
        &&& distinct_ids(self.pool_ids())
    }
}

/// A longer list of pools takes at least the space of each of its prefixes.
pub proof fn lemma_pool_list_space_monotonic(ids: Seq<Seq<char>>, n: int)
    requires
        0 <= n <= ids.len(),
    ensures
        pool_list_space(ids.take(n)) <= pool_list_space(ids),
    decreases ids.len(),
{
    if n == ids.len() {
        assert(ids.take(n) =~= ids);
    } else {
        lemma_pool_list_space_monotonic(ids.drop_last(), n);
        assert(ids.drop_last().take(n) =~= ids.take(n));
    }
}

/// Pools to which nothing was assigned hold nothing and target nothing, so
/// that a fresh vault whose pools differ in name meets the invariant.
pub proof fn lemma_fresh_pools_are_empty(ids: Seq<Seq<char>>)
    requires
        distinct_ids(ids),
    ensures
        pooled_amount(VaultView::fresh(ids).pools) == 0,
        allocated_percentage(VaultView::fresh(ids).pools) == 0,
        VaultView::fresh(ids).pool_ids() == ids,
        VaultView::fresh(ids).wf(),
    decreases ids.len(),
{
    let pools = VaultView::fresh(ids).pools;
    assert(VaultView::fresh(ids).pool_ids() =~= ids);
    if ids.len() > 0 {
        let shorter = ids.drop_last();
        assert forall|i: int, j: int| 0 <= i < j < shorter.len() implies shorter[i]
            != shorter[j] by {
            assert(shorter[i] == ids[i] && shorter[j] == ids[j]);
        }
        lemma_fresh_pools_are_empty(shorter);
        assert(pools.drop_last() =~= VaultView::fresh(shorter).pools);
    }
}

/// Whether no name occurs twice in `pool_ids`.
fn has_distinct_ids(pool_ids: &Vec<String>) -> (distinct: bool)
    ensures
        distinct == distinct_ids(pool_ids.deep_view()),
{
    let ghost ids = pool_ids.deep_view();
    let mut j: usize = 0;
    while j < pool_ids.len()
        invariant
            j <= pool_ids.len(),
            ids == pool_ids.deep_view(),
            forall|a: int, b: int| #![trigger ids[a], ids[b]] 0 <= a < b < j ==> ids[a] != ids[b],
        decreases pool_ids.len() - j,
    {
        let mut i: usize = 0;
        while i < j
            invariant
                i <= j < pool_ids.len(),
                ids == pool_ids.deep_view(),
                forall|a: int| #![trigger ids[a]] 0 <= a < i ==> ids[a] != ids[j as int],
            decreases j - i,
        {
            if pool_ids[i] == pool_ids[j] {
                assert(ids[i as int] == ids[j as int]);
                return false;
            }
            i = i + 1;
        }
        j = j + 1;
    }
    true
}

impl Vault {
    /// Whether the invariant of a vault holds of this one.
    pub open spec fn wf(&self) -> bool {
        self@.wf()
    }

    /// The vault of a newly created token mint: no share, no asset, and one
    /// empty pool for each name in `pool_ids`, in order. The pool list is
    /// bounded by the space reserved for the record, and its names differ: a
    /// list that does not fit is turned down, and after it one that names a
    /// pool twice.
    pub fn new(pool_ids: Vec<String>) -> (created: Result<Vault, VaultError>)
        ensures
            match pool_list_admission(pool_ids.deep_view()) {
                Ok(_) => created is Ok && created->Ok_0@ == VaultView::fresh(
                    pool_ids.deep_view(),
                ),
                Err(e) => created == Err::<Vault, VaultError>(e),
            },
            created is Ok ==> created->Ok_0.wf(),
    {
        let ghost ids = pool_ids.deep_view();
        let mut pools: Vec<Pool> = Vec::new();
        let mut space: usize = 8 + 8 + 8 + 8 + 4;
        let mut i: usize = 0;
        while i < pool_ids.len()
            invariant
                i <= pool_ids.len(),
                ids == pool_ids.deep_view(),
                space == vault_space(ids.take(i as int)),
                space <= VAULT_SIZE,
                pools@.len() == i,
                forall|j: int| 0 <= j < i ==> (#[trigger] pools@[j])@ == PoolView::empty(ids[j]),
            decreases pool_ids.len() - i,
        {
            let id_len = pool_ids[i].as_str().as_bytes().len();
            proof {
                assert(ids.take(i + 1).drop_last() =~= ids.take(i as int));
                assert(ids.take(i + 1).last() == pool_ids@[i as int]@);
                lemma_pool_list_space_monotonic(ids, i + 1);
            }
            if id_len > VAULT_SIZE - space || VAULT_SIZE - space - id_len < 4 + 1 + 8 {
                return Err(VaultError::CapacityExceeded);
            }
            space = space + 4 + id_len + 1 + 8;
            pools.push(Pool { id: pool_ids[i].clone(), allocation_percentage: 0, amount: 0 });
            i = i + 1;
        }
        proof {
            assert(ids.take(i as int) =~= ids);
        }
        if !has_distinct_ids(&pool_ids) {
            return Err(VaultError::DuplicatePoolId);
        }
        let vault = Vault { total_shares: 0, total_assets: 0, unallocated_amount: 0, pools };
        proof {
            assert(vault@.pools =~= VaultView::fresh(ids).pools);
            lemma_fresh_pools_are_empty(ids);
        }
        Ok(vault)
    }
}

} // verus!
