//! The accounting engine: how many shares a deposit mints and a withdrawal
//! burns, and what either does to a vault and to a depositor's position.

use vstd::prelude::*;

use crate::error::VaultError;
use crate::state::{UserPosition, UserPositionView, Vault, VaultView};

verus! {

/// The shares that a deposit of `amount` mints in a vault with `total_shares`
/// outstanding over `total_assets`: one share per unit while no share is
/// outstanding, after that the depositor's part of the shares in proportion
/// to the assets, rounded down.
pub open spec fn shares_minted(total_shares: nat, total_assets: nat, amount: nat) -> nat
    recommends
        total_shares == 0 || total_assets > 0,
{
    if total_shares == 0 {
        amount
    } else {
        amount * total_shares / total_assets
    }
}

/// The shares that a withdrawal of `amount` burns in a vault with
/// `total_shares` outstanding over `total_assets`: the withdrawn part of the
/// shares in proportion to the assets, rounded up. Nothing is burned for
/// nothing.
pub open spec fn shares_burned(total_shares: nat, total_assets: nat, amount: nat) -> nat
    recommends
        amount == 0 || total_assets > 0,
{
    if amount == 0 {
        0
    } else {
        ((amount * total_shares + total_assets - 1) / (total_assets as int)) as nat
    }
}

/// What an accepted deposit or withdrawal leaves behind.
pub struct Posting {
    /// The vault after the request.
    pub vault: VaultView,
    /// The depositor's position after the request.
    pub position: UserPositionView,
    /// The shares that the request minted or burned.
    pub shares: nat,
}

impl VaultView {
    /// What a deposit of `amount` by the holder of `position` does.
    ///
    /// The deposit mints `shares_minted` shares, adds them to the vault's
    /// shares and to the position, and adds `amount` to the vault's assets, to
    /// its unallocated amount and to the position's amount. It fails with
    /// `ArithmeticOverflow` where shares are outstanding over no assets, and
    /// where one of the five sums passes the largest value of a counter.
    pub open spec fn deposit(self, position: UserPositionView, amount: nat) -> Result<
        Posting,
        VaultError,
    > {
        let minted = shares_minted(self.total_shares, self.total_assets, amount);
        if self.total_shares > 0 && self.total_assets == 0 {
            Err(VaultError::ArithmeticOverflow)
        } else if self.total_shares + minted > u64::MAX || self.total_assets + amount > u64::MAX
            || self.unallocated_amount + amount > u64::MAX || position.share + minted > u64::MAX
            || position.amount + amount > u64::MAX {
            Err(VaultError::ArithmeticOverflow)
        } else {
            Ok(
                Posting {
                    vault: VaultView {
                        total_shares: self.total_shares + minted,
                        total_assets: self.total_assets + amount,
                        unallocated_amount: self.unallocated_amount + amount,
                        pools: self.pools,
                    },
                    position: UserPositionView {
                        share: position.share + minted,
                        amount: position.amount + amount,
                    },
                    shares: minted,
                },
            )
        }
    }

    /// What a withdrawal of `amount` by the holder of `position` does.
    ///
    /// The checks come in this order: `InsufficientLiquidity` where `amount`
    /// is more than the vault holds unallocated, `ArithmeticUnderflow` where
    /// it is more than the vault's assets, `InsufficientShares` where the
    /// position holds fewer than `shares_burned` shares. Otherwise the
    /// withdrawal takes the burned shares from the vault's shares and from the
    /// position, and `amount` from the vault's assets and from its unallocated
    /// amount. The position's amount stays as it is.
    pub open spec fn withdraw(self, position: UserPositionView, amount: nat) -> Result<
        Posting,
        VaultError,
    > {
        let burned = shares_burned(self.total_shares, self.total_assets, amount);
        if amount > self.unallocated_amount {
            Err(VaultError::InsufficientLiquidity)
        } else if amount > self.total_assets {
            Err(VaultError::ArithmeticUnderflow)
        } else if burned > position.share {
            Err(VaultError::InsufficientShares)
        } else {
            Ok(
                Posting {
                    vault: VaultView {
                        total_shares: (self.total_shares - burned) as nat,
                        total_assets: (self.total_assets - amount) as nat,
                        unallocated_amount: (self.unallocated_amount - amount) as nat,
                        pools: self.pools,
                    },
                    position: UserPositionView {
                        share: (position.share - burned) as nat,
                        amount: position.amount,
                    },
                    shares: burned,
                },
            )
        }
    }
}

/// The burned shares are the least number of shares that is worth the amount
/// withdrawn: their value covers it, and that of one share less does not.
pub proof fn lemma_shares_burned_is_ceiling(total_shares: nat, total_assets: nat, amount: nat)
    requires
        total_assets > 0,
    ensures
        shares_burned(total_shares, total_assets, amount) * total_assets >= amount * total_shares,
        amount * total_shares > 0 ==> (shares_burned(total_shares, total_assets, amount) - 1)
            * total_assets < amount * total_shares,
{
    let product = (amount * total_shares) as int;
    let divisor = total_assets as int;
    let burned = shares_burned(total_shares, total_assets, amount) as int;
    if amount == 0 {
        assert(product == 0) by (nonlinear_arith)
            requires
                product == amount * total_shares,
                amount == 0,
        ;
        assert(burned * divisor == 0) by (nonlinear_arith)
            requires
                burned == 0,
        ;
    } else {
        assert(product >= 0) by (nonlinear_arith)
            requires
                product == amount * total_shares,
        ;
        let numerator = product + divisor - 1;
        assert(burned == numerator / divisor);
        vstd::arithmetic::div_mod::lemma_fundamental_div_mod(numerator, divisor);
        vstd::arithmetic::div_mod::lemma_mod_bound(numerator, divisor);
        assert(numerator == divisor * burned + numerator % divisor);
        assert(burned * divisor == divisor * burned) by (nonlinear_arith);
        assert((burned - 1) * divisor == burned * divisor - divisor) by (nonlinear_arith);
    }
}

/// The minted shares are worth no more than the amount deposited.
pub proof fn lemma_shares_minted_is_floor(total_shares: nat, total_assets: nat, amount: nat)
    requires
        total_shares > 0,
        total_assets > 0,
    ensures
        shares_minted(total_shares, total_assets, amount) * total_assets <= amount * total_shares,
        (shares_minted(total_shares, total_assets, amount) + 1) * total_assets > amount
            * total_shares,
{
    let product = (amount * total_shares) as int;
    let divisor = total_assets as int;
    let minted = shares_minted(total_shares, total_assets, amount) as int;
    assert(product >= 0) by (nonlinear_arith)
        requires
            product == amount * total_shares,
    ;
    assert(minted == product / divisor);
    vstd::arithmetic::div_mod::lemma_fundamental_div_mod(product, divisor);
    vstd::arithmetic::div_mod::lemma_mod_bound(product, divisor);
    assert(minted * divisor == divisor * minted) by (nonlinear_arith);
    assert((minted + 1) * divisor == minted * divisor + divisor) by (nonlinear_arith);
}

/// A withdrawal of no more than the vault's assets burns no more than the
/// vault's shares.
pub proof fn lemma_shares_burned_bounded(total_shares: nat, total_assets: nat, amount: nat)
    requires
        amount <= total_assets,
    ensures
        shares_burned(total_shares, total_assets, amount) <= total_shares,
{
    if amount > 0 {
        lemma_shares_burned_is_ceiling(total_shares, total_assets, amount);
        let burned = shares_burned(total_shares, total_assets, amount) as int;
        let shares = total_shares as int;
        let assets = total_assets as int;
        let part = amount as int;
        if shares == 0 {
            assert(part * shares == 0) by (nonlinear_arith)
                requires
                    shares == 0,
            ;
            assert((assets - 1) / assets == 0) by (nonlinear_arith)
                requires
                    assets > 0,
            ;
        } else {
            assert(part * shares > 0) by (nonlinear_arith)
                requires
                    part > 0,
                    shares > 0,
            ;
            assert(burned <= shares) by (nonlinear_arith)
                requires
                    (burned - 1) * assets < part * shares,
                    0 < part <= assets,
                    shares > 0,
            ;
        }
    }
}

/// Paying in and taking out again never pays: a withdrawal that burns no
/// more than the shares which a deposit has just minted returns no more than
/// was deposited, since both roundings go against the depositor.
///
/// This holds of every vault but one that has no share outstanding and yet
/// holds unallocated assets: there the first depositor owns all of it.
pub proof fn lemma_round_trip_returns_at_most_deposit(
    vault: VaultView,
    position: UserPositionView,
    amount: nat,
    redeemed: nat,
)
    requires
        !(vault.total_shares == 0 && vault.total_assets > 0 && vault.unallocated_amount > 0),
        vault.deposit(position, amount) is Ok,
        ({
            let paid = vault.deposit(position, amount)->Ok_0;
            &&& paid.vault.withdraw(paid.position, redeemed) is Ok
            &&& paid.vault.withdraw(paid.position, redeemed)->Ok_0.shares <= paid.shares
        }),
    ensures
        redeemed <= amount,
{
    let paid = vault.deposit(position, amount)->Ok_0;
    if vault.total_shares > 0 && redeemed > 0 {
        let shares = vault.total_shares as int;
        let assets = vault.total_assets as int;
        let minted = paid.shares as int;
        let burned = paid.vault.withdraw(paid.position, redeemed)->Ok_0.shares as int;
        let part = amount as int;
        let back = redeemed as int;
        lemma_shares_minted_is_floor(vault.total_shares, vault.total_assets, amount);
        lemma_shares_burned_is_ceiling(
            paid.vault.total_shares,
            paid.vault.total_assets,
            redeemed,
        );
        assert(minted * assets <= part * shares);
        assert(burned * (assets + part) >= back * (shares + minted));
        assert(back <= part) by (nonlinear_arith)
            requires
                minted * assets <= part * shares,
                burned * (assets + part) >= back * (shares + minted),
                0 <= burned <= minted,
                shares > 0,
                assets > 0,
                part >= 0,
                back > 0,
        ;
    }
}

/// The shares to mint for a deposit of `amount`, or `ArithmeticOverflow`
/// where shares are outstanding over no assets or the count passes the
/// largest value of a counter.
pub fn shares_to_mint(total_shares: u64, total_assets: u64, amount: u64) -> (minted: Result<
    u64,
    VaultError,
>)
    ensures
        minted == if (total_shares > 0 && total_assets == 0) || shares_minted(
            total_shares as nat,
            total_assets as nat,
            amount as nat,
        ) > u64::MAX {
            Err::<u64, VaultError>(VaultError::ArithmeticOverflow)
        } else {
            Ok(shares_minted(total_shares as nat, total_assets as nat, amount as nat) as u64)
        },
{
    if total_shares == 0 {
        return Ok(amount);
    }
    if total_assets == 0 {
        return Err(VaultError::ArithmeticOverflow);
    }
    assert(amount * total_shares <= 0xffff_ffff_ffff_ffff * 0xffff_ffff_ffff_ffff)
        by (nonlinear_arith)
        requires
            amount <= 0xffff_ffff_ffff_ffff,
            total_shares <= 0xffff_ffff_ffff_ffff,
    ;
    let product: u128 = (amount as u128) * (total_shares as u128);
    let quotient: u128 = product / (total_assets as u128);
    if quotient > u64::MAX as u128 {
        Err(VaultError::ArithmeticOverflow)
    } else {
        Ok(quotient as u64)
    }
}

/// The shares to burn for a withdrawal of `amount`, or `ArithmeticOverflow`
/// where something is withdrawn from no assets or the count passes the
/// largest value of a counter.
pub fn shares_to_burn(total_shares: u64, total_assets: u64, amount: u64) -> (burned: Result<
    u64,
    VaultError,
>)
    ensures
        burned == if (amount > 0 && total_assets == 0) || shares_burned(
            total_shares as nat,
            total_assets as nat,
            amount as nat,
        ) > u64::MAX {
            Err::<u64, VaultError>(VaultError::ArithmeticOverflow)
        } else {
            Ok(shares_burned(total_shares as nat, total_assets as nat, amount as nat) as u64)
        },
{
    if amount == 0 {
        return Ok(0);
    }
    if total_assets == 0 {
        return Err(VaultError::ArithmeticOverflow);
    }
    assert(amount * total_shares <= 0xffff_ffff_ffff_ffff * 0xffff_ffff_ffff_ffff)
        by (nonlinear_arith)
        requires
            amount <= 0xffff_ffff_ffff_ffff,
            total_shares <= 0xffff_ffff_ffff_ffff,
    ;
    let product: u128 = (amount as u128) * (total_shares as u128);
    let quotient: u128 = (product + (total_assets as u128 - 1)) / (total_assets as u128);
    if quotient > u64::MAX as u128 {
        Err(VaultError::ArithmeticOverflow)
    } else {
        Ok(quotient as u64)
    }
}

impl Vault {
    /// The shares that a deposit of `amount` by the holder of `position`
    /// would mint, or the error on which it would fail.
    pub fn quote_deposit(&self, position: &UserPosition, amount: u64) -> (minted: Result<
        u64,
        VaultError,
    >)
        ensures
            match self@.deposit(position@, amount as nat) {
                Ok(posting) => minted == Ok::<u64, VaultError>(posting.shares as u64),
                Err(e) => minted == Err::<u64, VaultError>(e),
            },
    {
        let minted = match shares_to_mint(self.total_shares, self.total_assets, amount) {
            Ok(minted) => minted,
            Err(e) => {
                return Err(e);
            },
        };
        if minted > u64::MAX - self.total_shares || amount > u64::MAX - self.total_assets || amount
            > u64::MAX - self.unallocated_amount || minted > u64::MAX - position.share || amount
            > u64::MAX - position.amount {
            return Err(VaultError::ArithmeticOverflow);
        }
        Ok(minted)
    }

    /// Takes in a deposit of `amount` from the holder of `position`, and
    /// returns the shares minted. A deposit that fails changes nothing.
    pub fn deposit(&mut self, position: &mut UserPosition, amount: u64) -> (minted: Result<
        u64,
        VaultError,
    >)
        ensures
            match old(self)@.deposit(old(position)@, amount as nat) {
                Ok(posting) => minted == Ok::<u64, VaultError>(posting.shares as u64)
                    && final(self)@ == posting.vault && final(position)@ == posting.position
                    && final(self).pools == old(self).pools,
                Err(e) => minted == Err::<u64, VaultError>(e) && *final(self) == *old(self)
                    && *final(position) == *old(position),
            },
            minted is Ok && old(self).total_shares == 0 ==> minted->Ok_0 == amount,
            minted is Ok ==> final(self).total_shares - old(self).total_shares == minted->Ok_0
                && final(position).share - old(position).share == minted->Ok_0,
            minted is Ok && old(self).wf() ==> final(self).wf(),
    {
        let minted = match self.quote_deposit(position, amount) {
            Ok(minted) => minted,
            Err(e) => {
                return Err(e);
            },
        };
        self.total_shares = self.total_shares + minted;
        self.total_assets = self.total_assets + amount;
        self.unallocated_amount = self.unallocated_amount + amount;
        position.share = position.share + minted;
        position.amount = position.amount + amount;
        Ok(minted)
    }

    /// The shares that a withdrawal of `amount` by the holder of `position`
    /// would burn, or the error on which it would fail.
    pub fn quote_withdrawal(&self, position: &UserPosition, amount: u64) -> (burned: Result<
        u64,
        VaultError,
    >)
        ensures
            match self@.withdraw(position@, amount as nat) {
                Ok(posting) => burned == Ok::<u64, VaultError>(posting.shares as u64)
                    && posting.shares <= self.total_shares,
                Err(e) => burned == Err::<u64, VaultError>(e),
            },
    {
        if amount > self.unallocated_amount {
            return Err(VaultError::InsufficientLiquidity);
        }
        if amount > self.total_assets {
            return Err(VaultError::ArithmeticUnderflow);
        }
        proof {
            lemma_shares_burned_bounded(
                self.total_shares as nat,
                self.total_assets as nat,
                amount as nat,
            );
        }
        let burned = match shares_to_burn(self.total_shares, self.total_assets, amount) {
            Ok(burned) => burned,
            Err(e) => {
                return Err(e);
            },
        };
        if burned > position.share {
            return Err(VaultError::InsufficientShares);
        }
        Ok(burned)
    }

    /// Pays out a withdrawal of `amount` to the holder of `position`, and
    /// returns the shares burned. A withdrawal that fails changes nothing.
    pub fn withdraw(&mut self, position: &mut UserPosition, amount: u64) -> (burned: Result<
        u64,
        VaultError,
    >)
        ensures
            match old(self)@.withdraw(old(position)@, amount as nat) {
                Ok(posting) => burned == Ok::<u64, VaultError>(posting.shares as u64)
                    && final(self)@ == posting.vault && final(position)@ == posting.position
                    && final(self).pools == old(self).pools,
                Err(e) => burned == Err::<u64, VaultError>(e) && *final(self) == *old(self)
                    && *final(position) == *old(position),
            },
            amount > old(self).unallocated_amount ==> burned == Err::<u64, VaultError>(
                VaultError::InsufficientLiquidity,
            ),
            burned is Ok ==> old(self).total_shares - final(self).total_shares == burned->Ok_0
                && old(position).share - final(position).share == burned->Ok_0,
            burned is Ok && old(self).wf() ==> final(self).wf(),
    {
        let burned = match self.quote_withdrawal(position, amount) {
            Ok(burned) => burned,
            Err(e) => {
                return Err(e);
            },
        };
        self.total_shares = self.total_shares - burned;
        self.total_assets = self.total_assets - amount;
        self.unallocated_amount = self.unallocated_amount - amount;
        position.share = position.share - burned;
        Ok(burned)
    }
}

} // verus!
