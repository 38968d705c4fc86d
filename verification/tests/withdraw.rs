use ovira::accounting::shares_to_burn;
use ovira::state::{Pool, UserPosition, Vault, VaultConfig};
use ovira::util::{LedgerInstruction, LedgerReport, TokenAccounts};
use ovira::{withdraw, Identity, VaultError, WithDraw};

fn identity(byte: u8) -> Identity {
    Identity::new([byte; 32])
}

fn config() -> VaultConfig {
    VaultConfig {
        admin: identity(1),
        token_mint: identity(2),
        performance_fee: 100,
        management_fee: 100,
        bump: [254],
    }
}

fn vault(total_shares: u64, total_assets: u64, unallocated_amount: u64) -> Vault {
    Vault { total_shares, total_assets, unallocated_amount, pools: Vec::new() }
}

fn request(vault: Option<Vault>, user_position: Option<UserPosition>) -> WithDraw {
    WithDraw {
        signer: identity(10),
        token_mint: identity(2),
        user_position,
        vault,
        vault_config: Some(config()),
        vault_authority: identity(40),
        vault_token_account: identity(20),
        user_token_account: identity(30),
    }
}

#[test]
fn withdraw_of_more_than_is_unallocated_fails_with_insufficient_liquidity() {
    let pools = vec![Pool { id: "A".to_string(), allocation_percentage: 50, amount: 500 }];
    let vault = Vault { total_shares: 1000, total_assets: 1000, unallocated_amount: 500, pools };
    let mut ctx = request(Some(vault), Some(UserPosition { share: 1000, amount: 1000 }));
    let before = ctx.clone();
    assert_eq!(ctx.transfer(501), Err(VaultError::InsufficientLiquidity));
    assert_eq!(ctx.process(501, LedgerReport::Executed), Err(VaultError::InsufficientLiquidity));
    assert_eq!(ctx, before);
    assert_eq!(ctx.process(500, LedgerReport::Executed), Ok(()));
}

#[test]
fn withdraw_of_more_than_everything_fails_with_insufficient_liquidity() {
    // the depositor lacks the shares too: the liquidity is looked at first
    let mut ctx = request(Some(vault(1000, 1000, 1000)), Some(UserPosition { share: 1000, amount: 1000 }));
    assert_eq!(ctx.process(1001, LedgerReport::Executed), Err(VaultError::InsufficientLiquidity));
    let mut empty = request(Some(vault(0, 0, 0)), None);
    assert_eq!(empty.process(1, LedgerReport::Executed), Err(VaultError::InsufficientLiquidity));
}

#[test]
fn withdraw_burns_shares_and_pays_out() {
    let mut ctx = request(Some(vault(1000, 1000, 1000)), Some(UserPosition { share: 600, amount: 650 }));
    assert_eq!(ctx.process(400, LedgerReport::Executed), Ok(()));
    assert_eq!(ctx.vault, Some(vault(600, 600, 600)));
    // the amount recorded at deposits stays
    assert_eq!(ctx.user_position, Some(UserPosition { share: 200, amount: 650 }));
    assert_eq!(ctx.vault_config, Some(config()));
}

#[test]
fn burned_shares_are_rounded_up() {
    // 7 * 3 / 10 = 2.1
    assert_eq!(shares_to_burn(3, 10, 7), Ok(3));
    assert_eq!(shares_to_burn(1000, 3000, 500), Ok(167));
    assert_eq!(shares_to_burn(1000, 3000, 3), Ok(1));
    assert_eq!(shares_to_burn(1000, 1000, 400), Ok(400));
    assert_eq!(shares_to_burn(1000, 2000, 1), Ok(1));
    assert_eq!(shares_to_burn(0, 10, 7), Ok(0));
    assert_eq!(shares_to_burn(u64::MAX, u64::MAX, u64::MAX), Ok(u64::MAX));
    let mut vault = vault(1000, 3000, 3000);
    let mut position = UserPosition { share: 167, amount: 0 };
    assert_eq!(vault.quote_withdrawal(&position, 500), Ok(167));
    assert_eq!(vault.withdraw(&mut position, 500), Ok(167));
    assert_eq!(vault, self::vault(833, 2500, 2500));
    assert_eq!(position, UserPosition { share: 0, amount: 0 });
}

#[test]
fn nothing_is_burned_for_nothing() {
    assert_eq!(shares_to_burn(1000, 1000, 0), Ok(0));
    assert_eq!(shares_to_burn(1000, 0, 0), Ok(0));
    assert_eq!(shares_to_burn(0, 0, 0), Ok(0));
    let mut ctx = request(Some(vault(0, 0, 0)), None);
    assert_eq!(ctx.process(0, LedgerReport::Executed), Ok(()));
    assert_eq!(ctx.vault, Some(vault(0, 0, 0)));
    assert_eq!(ctx.user_position, Some(UserPosition { share: 0, amount: 0 }));
}

#[test]
fn burning_fails_where_the_count_cannot_be_taken() {
    assert_eq!(shares_to_burn(5, 0, 1), Err(VaultError::ArithmeticOverflow));
    assert_eq!(shares_to_burn(u64::MAX, 1, 2), Err(VaultError::ArithmeticOverflow));
}

#[test]
fn withdraw_fails_with_insufficient_shares() {
    let mut ctx = request(Some(vault(1000, 1000, 1000)), Some(UserPosition { share: 399, amount: 399 }));
    let before = ctx.clone();
    assert_eq!(ctx.transfer(400), Err(VaultError::InsufficientShares));
    assert_eq!(ctx.process(400, LedgerReport::Executed), Err(VaultError::InsufficientShares));
    assert_eq!(ctx, before);
    assert_eq!(ctx.process(399, LedgerReport::Executed), Ok(()));
}

#[test]
fn a_depositor_without_position_holds_no_share() {
    let mut ctx = request(Some(vault(1000, 1000, 1000)), None);
    let before = ctx.clone();
    assert_eq!(ctx.process(1, LedgerReport::Executed), Err(VaultError::InsufficientShares));
    assert_eq!(ctx, before);
}

#[test]
fn rounding_up_can_ask_for_one_share_more() {
    // 500 of 3000 assets are worth 166.67 of 1000 shares
    let mut ctx = request(Some(vault(1000, 3000, 3000)), Some(UserPosition { share: 166, amount: 0 }));
    assert_eq!(ctx.process(500, LedgerReport::Executed), Err(VaultError::InsufficientShares));
    ctx.user_position = Some(UserPosition { share: 167, amount: 0 });
    assert_eq!(ctx.process(500, LedgerReport::Executed), Ok(()));
}

#[test]
fn withdraw_fails_with_underflow_where_the_assets_are_less_than_unallocated() {
    // such a vault breaks its invariant; the books still do not go below zero
    let mut vault = vault(10, 5, 10);
    let mut position = UserPosition { share: 10, amount: 10 };
    assert_eq!(vault.withdraw(&mut position, 7), Err(VaultError::ArithmeticUnderflow));
    assert_eq!(vault, self::vault(10, 5, 10));
    assert_eq!(position, UserPosition { share: 10, amount: 10 });
}

#[test]
fn withdraw_from_a_missing_vault_fails_with_record_not_found() {
    let mut ctx = request(None, Some(UserPosition { share: 5, amount: 5 }));
    let before = ctx.clone();
    assert_eq!(ctx.process(1, LedgerReport::Executed), Err(VaultError::RecordNotFound));
    assert_eq!(ctx.transfer(1), Err(VaultError::RecordNotFound));
    assert_eq!(ctx, before);

    let mut ctx = request(Some(vault(5, 5, 5)), Some(UserPosition { share: 5, amount: 5 }));
    ctx.vault_config = None;
    let before = ctx.clone();
    assert_eq!(ctx.process(1, LedgerReport::Executed), Err(VaultError::RecordNotFound));
    assert_eq!(ctx.transfer(1), Err(VaultError::RecordNotFound));
    assert_eq!(ctx, before);
}

#[test]
fn withdraw_fails_where_the_ledger_refuses() {
    let mut ctx = request(Some(vault(1000, 1000, 1000)), Some(UserPosition { share: 500, amount: 500 }));
    let before = ctx.clone();
    assert_eq!(ctx.process(100, LedgerReport::Unauthorized), Err(VaultError::Unauthorized));
    assert_eq!(ctx, before);
    assert_eq!(ctx.process(100, LedgerReport::InsufficientFunds), Err(VaultError::InsufficientFunds));
    assert_eq!(ctx, before);
    // what the books refuse is refused whatever the ledger said
    assert_eq!(ctx.process(2000, LedgerReport::Unauthorized), Err(VaultError::InsufficientLiquidity));
}

#[test]
fn withdraw_asks_the_ledger_to_pay_on_the_vaults_own_authority() {
    let ctx = request(Some(vault(1000, 1000, 1000)), Some(UserPosition { share: 500, amount: 500 }));
    let mut mint = vec![2u8; 32];
    mint.truncate(32);
    assert_eq!(
        ctx.transfer(100),
        Ok(LedgerInstruction {
            accounts: TokenAccounts::Transfer {
                from: identity(20),
                authority: identity(40),
                to: identity(30),
            },
            signer_seeds: vec![vec![b"vault_config".to_vec(), mint, vec![254]]],
            amount: 100,
        })
    );
}

#[test]
fn withdrawing_everything_empties_the_vault() {
    let mut ctx = request(Some(vault(1000, 1200, 1200)), Some(UserPosition { share: 1000, amount: 1000 }));
    assert_eq!(ctx.process(1200, LedgerReport::Executed), Ok(()));
    assert_eq!(ctx.vault, Some(vault(0, 0, 0)));
    assert_eq!(ctx.user_position, Some(UserPosition { share: 0, amount: 1000 }));
}

#[test]
fn withdraw_leaves_the_pools_alone() {
    let pools = vec![
        Pool { id: "A".to_string(), allocation_percentage: 60, amount: 300 },
        Pool { id: "B".to_string(), allocation_percentage: 40, amount: 200 },
    ];
    let mut vault =
        Vault { total_shares: 1000, total_assets: 1000, unallocated_amount: 500, pools: pools.clone() };
    let mut position = UserPosition { share: 1000, amount: 1000 };
    assert_eq!(vault.withdraw(&mut position, 500), Ok(500));
    assert_eq!(vault.pools, pools);
    assert_eq!(vault.unallocated_amount, 0);
    assert_eq!(vault.total_assets, 500);
    assert_eq!(vault.total_shares, 500);
}

#[test]
fn withdraw_entry_point_does_what_process_does() {
    let mut by_entry = request(Some(vault(1000, 1000, 1000)), Some(UserPosition { share: 500, amount: 500 }));
    let mut by_process = by_entry.clone();
    assert_eq!(withdraw(&mut by_entry, 120, LedgerReport::Executed), Ok(()));
    assert_eq!(by_process.process(120, LedgerReport::Executed), Ok(()));
    assert_eq!(by_entry, by_process);
    assert_eq!(by_entry.vault, Some(vault(880, 880, 880)));
    assert_eq!(
        withdraw(&mut by_entry, 881, LedgerReport::Executed),
        Err(VaultError::InsufficientLiquidity)
    );
}
