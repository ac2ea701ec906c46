use drift_stake_voter::error::StakeVoterError;
use drift_stake_voter::state::Address;
use drift_stake_voter::tools::drift_tools::{
    get_user_token_stake, shares_to_vault_amount, PoolSnapshot, StakeShareRecord,
};

fn address(tag: u8) -> Address {
    Address { bytes: [tag; 32] }
}

fn stake(shares: u128, pending_withdrawal_shares: u128) -> StakeShareRecord {
    StakeShareRecord { authority: address(1), shares, pending_withdrawal_shares }
}

fn pool(total_shares: u128) -> PoolSnapshot {
    PoolSnapshot { market_index: 96, vault: address(2), total_shares, total_value: 0 }
}

#[test]
fn tenth_of_the_pool_is_a_tenth_of_the_vault() {
    assert_eq!(get_user_token_stake(&stake(1000, 0), &pool(10000), 500000, 0), Ok(50000));
}

#[test]
fn pending_withdrawal_gives_no_stake() {
    assert_eq!(get_user_token_stake(&stake(1000, 1), &pool(10000), 500000, 0), Ok(0));
}

#[test]
fn pending_withdrawal_comes_before_everything_else() {
    // Without the pending withdrawal each of these would be refused or non-zero.
    assert_eq!(get_user_token_stake(&stake(u128::MAX, 7), &pool(1), u64::MAX, 0), Ok(0));
    assert_eq!(get_user_token_stake(&stake(5, u128::MAX), &pool(5), 9, 0), Ok(0));
    assert_eq!(get_user_token_stake(&stake(0, 1), &pool(0), 0, 0), Ok(0));
}

#[test]
fn empty_pool_gives_no_stake() {
    assert_eq!(get_user_token_stake(&stake(1000, 0), &pool(0), 500000, 0), Ok(0));
    assert_eq!(get_user_token_stake(&stake(u128::MAX, 0), &pool(0), u64::MAX, 0), Ok(0));
    assert_eq!(shares_to_vault_amount(0, 0, 0), Ok(0));
}

#[test]
fn no_shares_give_no_stake() {
    assert_eq!(get_user_token_stake(&stake(0, 0), &pool(10000), 500000, 0), Ok(0));
}

#[test]
fn conversion_rounds_down() {
    assert_eq!(shares_to_vault_amount(1, 3, 10), Ok(3));
    assert_eq!(shares_to_vault_amount(2, 3, 10), Ok(6));
    assert_eq!(shares_to_vault_amount(1, 3, 2), Ok(0));
    assert_eq!(shares_to_vault_amount(999, 1000, 1), Ok(0));
    assert_eq!(shares_to_vault_amount(7, 7, 123456789), Ok(123456789));
}

#[test]
fn conversion_reads_the_vault_not_the_books() {
    let mut booked = pool(10000);
    booked.total_value = 900000;
    assert_eq!(get_user_token_stake(&stake(1000, 0), &booked, 500000, 0), Ok(50000));
    booked.total_value = 1;
    assert_eq!(get_user_token_stake(&stake(1000, 0), &booked, 500000, 0), Ok(50000));
}

#[test]
fn time_does_not_change_the_stake() {
    let early = get_user_token_stake(&stake(1000, 0), &pool(10000), 500000, i64::MIN);
    let late = get_user_token_stake(&stake(1000, 0), &pool(10000), 500000, i64::MAX);
    assert_eq!(early, Ok(50000));
    assert_eq!(late, Ok(50000));
}

#[test]
fn whole_pool_is_the_whole_vault() {
    assert_eq!(shares_to_vault_amount(u64::MAX as u128, u64::MAX as u128, u64::MAX), Ok(u64::MAX));
}

#[test]
fn product_beyond_128_bits_is_refused() {
    assert_eq!(
        shares_to_vault_amount(u128::MAX, u128::MAX, 2),
        Err(StakeVoterError::ArithmeticOverflow)
    );
    assert_eq!(
        get_user_token_stake(&stake(1 << 127, 0), &pool(u128::MAX), 2, 0),
        Err(StakeVoterError::ArithmeticOverflow)
    );
}

#[test]
fn largest_product_that_fits_is_accepted() {
    // (2^64 + 1) * (2^64 - 1) = 2^128 - 1
    let shares: u128 = (1u128 << 64) + 1;
    assert_eq!(shares_to_vault_amount(shares, shares, u64::MAX), Ok(u64::MAX));
}

#[test]
fn amount_beyond_64_bits_is_refused() {
    assert_eq!(
        shares_to_vault_amount(1u128 << 64, 1, 1),
        Err(StakeVoterError::ArithmeticOverflow)
    );
    assert_eq!(shares_to_vault_amount(u64::MAX as u128, 1, 1), Ok(u64::MAX));
}

#[test]
fn more_shares_than_the_pool_are_converted_as_they_stand() {
    assert_eq!(shares_to_vault_amount(2, 1, 10), Ok(20));
}

#[test]
fn stake_never_exceeds_vault_for_a_part_of_the_pool() {
    let balances: [u64; 4] = [0, 1, 500000, u64::MAX];
    let totals: [u128; 4] = [1, 3, 10000, u64::MAX as u128];
    for balance in balances {
        for total in totals {
            for shares in [0, 1, total / 2, total] {
                let amount = shares_to_vault_amount(shares, total, balance).unwrap();
                assert!(amount <= balance);
                assert_eq!(amount as u128, shares * (balance as u128) / total);
            }
        }
    }
}
