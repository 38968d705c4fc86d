//! The persistent records: one configuration and one vault per token mint,
//! and one position per depositor and token mint.

pub mod user_position;
pub mod vault;

pub use user_position::{UserPosition, UserPositionView, USER_POSITION_SIZE};
pub use vault::{
    allocated_percentage, distinct_ids, pool_list_admission, pool_list_space, pool_space,
    pooled_amount, vault_space, Pool, PoolView, Vault, VaultConfig, VaultView, VAULT_CONFIG_SIZE,
    VAULT_SIZE,
};
