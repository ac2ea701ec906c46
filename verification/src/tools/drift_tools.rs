use vstd::prelude::*;

use crate::error::StakeVoterError;
use crate::state::Address;

verus! {

/// What one staker holds in the fund.
#[derive(Clone, Copy, Debug, PartialEq, Eq)]
pub struct StakeShareRecord {
    /// Whose stake this is.
    pub authority: Address,
    /// The staker's shares, counted in the pool's present share unit.
    pub shares: u128,
    /// Shares that the staker has asked to withdraw and not yet taken out.
    pub pending_withdrawal_shares: u128,
}

/// The fund's totals at the time of the update.
#[derive(Clone, Copy, Debug, PartialEq, Eq)]
pub struct PoolSnapshot {
    /// Which market's fund this is.
    pub market_index: u16,
    /// The account that holds the fund's tokens.
    pub vault: Address,
    /// All shares of the fund, in the same unit as a staker's shares.
    pub total_shares: u128,
    /// The fund's value as its books have it. The conversion does not read it.
    pub total_value: u64,
}

/// A token account as far as an update reads it.
#[derive(Clone, Copy, Debug, PartialEq, Eq)]
pub struct VaultAccount {
    /// The account's own address.
    pub key: Address,
    /// The tokens that the account holds.
    pub amount: u64,
}

/// The token value of `shares` out of `total_shares` of a vault that holds
/// `vault_balance`: the proportional part, rounded down, and nothing while
/// the fund has no shares.
pub open spec fn shares_value(shares: nat, total_shares: nat, vault_balance: nat) -> nat {
    if total_shares == 0 {
        0
    } else {
        shares * vault_balance / total_shares
    }
}

/// The conversion as the machine can carry it out: the product must fit in
/// 128 bits and the quotient in 64.
pub open spec fn vault_amount(shares: u128, total_shares: u128, vault_balance: u64) -> Result<
    u64,
    StakeVoterError,
> {
    if total_shares == 0 {
        Ok(0)
    } else if shares * vault_balance > u128::MAX {
        Err(StakeVoterError::ArithmeticOverflow)
    } else if shares_value(shares as nat, total_shares as nat, vault_balance as nat) > u64::MAX {
        Err(StakeVoterError::ArithmeticOverflow)
    } else {
        Ok(shares_value(shares as nat, total_shares as nat, vault_balance as nat) as u64)
    }
}

/// A staker's stake in tokens: nothing while a withdrawal is pending,
/// otherwise the value of the shares.
pub open spec fn token_stake(
    stake: StakeShareRecord,
    pool: PoolSnapshot,
    vault_balance: u64,
) -> Result<u64, StakeVoterError> {
    if stake.pending_withdrawal_shares != 0 {
        Ok(0)
    } else {
        vault_amount(stake.shares, pool.total_shares, vault_balance)
    }
}

/// Converts shares of the fund to tokens of its vault, rounding down.
pub fn shares_to_vault_amount(shares: u128, total_shares: u128, vault_balance: u64) -> (result:
    Result<u64, StakeVoterError>)
    ensures
        result == vault_amount(shares, total_shares, vault_balance),
{
    if total_shares == 0 {
        return Ok(0);
    }
    let balance: u128 = vault_balance as u128;
    match shares.checked_mul(balance) {
        None => Err(StakeVoterError::ArithmeticOverflow),
        Some(product) => {
            let amount: u128 = product / total_shares;
            if amount > u64::MAX as u128 {
                Err(StakeVoterError::ArithmeticOverflow)
            } else {
                Ok(amount as u64)
            }
        },
    }
}

/// The stake of one staker in tokens, as it counts for voting at `now`.
///
/// The time does not enter into the amount: a pending withdrawal silences
/// the stake however long ago it was asked for.
pub fn get_user_token_stake(
    insurance_fund_stake: &StakeShareRecord,
    spot_market: &PoolSnapshot,
    insurance_fund_vault_balance: u64,
    now: i64,
) -> (result: Result<u64, StakeVoterError>)
    ensures
        result == token_stake(*insurance_fund_stake, *spot_market, insurance_fund_vault_balance),
{
    if insurance_fund_stake.pending_withdrawal_shares != 0 {
        return Ok(0);
    }
    shares_to_vault_amount(
        insurance_fund_stake.shares,
        spot_market.total_shares,
        insurance_fund_vault_balance,
    )
}

/// A pending withdrawal silences the stake, whatever the staker and the vault
/// hold.
pub proof fn lemma_pending_withdrawal_silences_stake(
    stake: StakeShareRecord,
    pool: PoolSnapshot,
    vault_balance: u64,
)
    requires
        stake.pending_withdrawal_shares != 0,
    ensures
        token_stake(stake, pool, vault_balance) == Ok::<u64, StakeVoterError>(0),
{
}

/// With no withdrawal pending and a pool that has shares, a stake that can be
/// computed is the staker's part of the vault's balance, rounded down.
pub proof fn lemma_stake_is_proportional_part(
    stake: StakeShareRecord,
    pool: PoolSnapshot,
    vault_balance: u64,
)
    requires
        stake.pending_withdrawal_shares == 0,
        pool.total_shares > 0,
        token_stake(stake, pool, vault_balance) is Ok,
    ensures
        token_stake(stake, pool, vault_balance)->Ok_0 == stake.shares * vault_balance
            / (pool.total_shares as int),
        0 <= token_stake(stake, pool, vault_balance)->Ok_0,
{
}

/// A staker who holds no more than all shares of the pool never gets more
/// than the vault holds, and the conversion can only fail on a product that
/// leaves 128 bits.
pub proof fn lemma_stake_within_vault_balance(
    stake: StakeShareRecord,
    pool: PoolSnapshot,
    vault_balance: u64,
)
    requires
        stake.shares <= pool.total_shares,
    ensures
        match token_stake(stake, pool, vault_balance) {
            Ok(amount) => amount <= vault_balance,
            Err(e) => e == StakeVoterError::ArithmeticOverflow && stake.pending_withdrawal_shares
                == 0 && stake.shares * vault_balance > u128::MAX,
        },
{
    if pool.total_shares > 0 {
        let s: int = stake.shares as int;
        let t: int = pool.total_shares as int;
        let b: int = vault_balance as int;
        assert(s * b / t <= b) by (nonlinear_arith)
            requires
                0 <= s <= t,
                0 < t,
                0 <= b,
        ;
    }
}

/// While the pool has no shares nobody has a stake in it, whatever share
/// count a record shows.
pub proof fn lemma_empty_pool_gives_no_stake(
    stake: StakeShareRecord,
    pool: PoolSnapshot,
    vault_balance: u64,
)
    requires
        pool.total_shares == 0,
    ensures
        token_stake(stake, pool, vault_balance) == Ok::<u64, StakeVoterError>(0),
{
}

/// A staker without shares has no stake.
pub proof fn lemma_no_shares_give_no_stake(
    stake: StakeShareRecord,
    pool: PoolSnapshot,
    vault_balance: u64,
)
    requires
        stake.shares == 0,
    ensures
        token_stake(stake, pool, vault_balance) == Ok::<u64, StakeVoterError>(0),
{
    if pool.total_shares > 0 {
        let t: int = pool.total_shares as int;
        let b: int = vault_balance as int;
        assert(0 * b / t == 0) by (nonlinear_arith)
            requires
                0 < t,
        ;
    }
}

} // verus!
