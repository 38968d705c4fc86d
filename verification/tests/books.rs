use ovira::state::{Pool, UserPosition, Vault};
use ovira::util::LedgerReport;
use ovira::{Deposit, Identity, Initialize, InitializeBumps, VaultError, WithDraw};

fn identity(byte: u8) -> Identity {
    Identity::new([byte; 32])
}

fn held(positions: &[UserPosition]) -> u64 {
    positions.iter().map(|position| position.share).sum()
}

fn pooled(vault: &Vault) -> u64 {
    vault.pools.iter().map(|pool| pool.amount).sum()
}

fn check(vault: &Vault, positions: &[UserPosition]) {
    assert_eq!(vault.total_shares, held(positions));
    assert!(vault.unallocated_amount + pooled(vault) <= vault.total_assets);
}

#[test]
fn shares_and_assets_stay_in_balance_over_many_requests() {
    let mut vault = Vault::new(vec!["A".to_string(), "B".to_string()]).unwrap();
    let mut positions = [UserPosition::new(); 3];
    check(&vault, &positions);
    // (depositor, deposit?, amount)
    let requests: [(usize, bool, u64); 14] = [
        (0, true, 1000),
        (1, true, 500),
        (2, false, 1),
        (0, false, 300),
        (2, true, 7),
        (1, false, 501),
        (1, false, 500),
        (0, false, 701),
        (0, false, 700),
        (2, false, 7),
        (2, false, 1),
        (1, true, u64::MAX),
        (1, true, 12),
        (0, true, 0),
    ];
    let mut accepted = 0;
    for (depositor, is_deposit, amount) in requests {
        let before = (vault.clone(), positions);
        let answer = if is_deposit {
            vault.deposit(&mut positions[depositor], amount)
        } else {
            vault.withdraw(&mut positions[depositor], amount)
        };
        match answer {
            Ok(_) => accepted += 1,
            Err(_) => assert_eq!((vault.clone(), positions), before),
        }
        check(&vault, &positions);
    }
    assert_eq!(accepted, 9);
    assert_eq!(vault.total_shares, 12);
    assert_eq!(vault.total_assets, 12);
    assert_eq!(positions[1].share, 12);
}

#[test]
fn balance_holds_with_assets_in_pools_and_a_share_price_above_one() {
    let mut vault = Vault {
        total_shares: 900,
        total_assets: 2000,
        unallocated_amount: 800,
        pools: vec![
            Pool { id: "A".to_string(), allocation_percentage: 30, amount: 700 },
            Pool { id: "B".to_string(), allocation_percentage: 20, amount: 500 },
        ],
    };
    let mut positions = [
        UserPosition { share: 400, amount: 400 },
        UserPosition { share: 500, amount: 700 },
    ];
    check(&vault, &positions);
    assert_eq!(vault.deposit(&mut positions[0], 333), Ok(149));
    check(&vault, &positions);
    assert_eq!(vault.withdraw(&mut positions[1], 1000), Ok(450));
    check(&vault, &positions);
    assert_eq!(vault.withdraw(&mut positions[1], 134), Err(VaultError::InsufficientLiquidity));
    check(&vault, &positions);
    assert_eq!(vault.withdraw(&mut positions[1], 133), Err(VaultError::InsufficientShares));
    assert_eq!(vault.withdraw(&mut positions[0], 133), Ok(60));
    check(&vault, &positions);
    assert_eq!(vault.total_shares, 539);
    assert_eq!(vault.total_assets, 1200);
    assert_eq!(vault.unallocated_amount, 0);
}

#[test]
fn a_round_trip_returns_at_most_the_deposit() {
    let states: [(u64, u64); 7] =
        [(0, 0), (1000, 1000), (1000, 3000), (3, 10), (7, 7000), (999, 1000), (1, u32::MAX as u64)];
    for (total_shares, total_assets) in states {
        for amount in [0u64, 1, 2, 3, 10, 999, 1000, 12345] {
            let mut vault = Vault {
                total_shares,
                total_assets,
                unallocated_amount: total_assets,
                pools: Vec::new(),
            };
            let mut position = UserPosition::new();
            let minted = vault.deposit(&mut position, amount).unwrap();
            // the most that the minted shares pay for
            let mut best = 0;
            for redeemed in 0..=amount + 2 {
                if let Ok(burned) = vault.quote_withdrawal(&position, redeemed) {
                    assert!(burned <= minted);
                    best = redeemed;
                }
            }
            assert!(best <= amount);
            assert_eq!(vault.withdraw(&mut position, best).map(|burned| burned <= minted), Ok(true));
        }
    }
}

#[test]
fn assets_without_shares_go_to_the_first_depositor() {
    let mut vault = Vault { total_shares: 0, total_assets: 9, unallocated_amount: 9, pools: Vec::new() };
    let mut position = UserPosition::new();
    assert_eq!(vault.deposit(&mut position, 10), Ok(10));
    assert_eq!(vault.withdraw(&mut position, 19), Ok(10));
    assert_eq!(vault, Vault { total_shares: 0, total_assets: 0, unallocated_amount: 0, pools: Vec::new() });
}

#[test]
fn a_vault_from_initialize_to_the_last_withdrawal() {
    let mint = identity(2);
    let mut init = Initialize { admin: identity(1), token_mint: mint, vault_config: None, vault: None };
    let bumps = InitializeBumps { vault_config: 255, vault: 254 };
    assert_eq!(init.process(100, 100, &bumps, vec!["A".to_string(), "B".to_string()]), Ok(()));

    let mut deposit = Deposit {
        signer: identity(10),
        token_mint: mint,
        user_position: None,
        vault: init.vault,
        vault_config: init.vault_config,
        vault_token_account: identity(20),
        user_token_account: identity(30),
    };
    assert_eq!(deposit.transfer(1000).map(|instruction| instruction.amount), Ok(1000));
    assert_eq!(deposit.process(1000, LedgerReport::Executed), Ok(()));
    assert_eq!(deposit.transfer(500).map(|instruction| instruction.amount), Ok(500));
    assert_eq!(deposit.process(500, LedgerReport::Executed), Ok(()));
    assert_eq!(deposit.user_position, Some(UserPosition { share: 1500, amount: 1500 }));

    let mut withdraw = WithDraw {
        signer: identity(10),
        token_mint: mint,
        user_position: deposit.user_position,
        vault: deposit.vault,
        vault_config: deposit.vault_config,
        vault_authority: identity(40),
        vault_token_account: identity(20),
        user_token_account: identity(30),
    };
    assert_eq!(withdraw.process(1501, LedgerReport::Executed), Err(VaultError::InsufficientLiquidity));
    assert_eq!(withdraw.transfer(1500).map(|instruction| instruction.amount), Ok(1500));
    assert_eq!(withdraw.process(1500, LedgerReport::Executed), Ok(()));
    let vault = withdraw.vault.unwrap();
    assert_eq!((vault.total_shares, vault.total_assets, vault.unallocated_amount), (0, 0, 0));
    assert_eq!(vault.pools.len(), 2);
    assert_eq!(withdraw.user_position, Some(UserPosition { share: 0, amount: 1500 }));
}
