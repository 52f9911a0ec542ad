use amm_staking::unstake::{StakeAccount, StakeConfig, StakeError, Unstake, UserAccount};

fn stake(staked_at: i64, points: u32, amount_staked: u8, rate: u8, freeze_period: u32) -> Unstake {
    Unstake {
        stake_account: StakeAccount { staked_at },
        user_account: UserAccount { points, amount_staked },
        config: StakeConfig { points_per_stake: rate, freeze_period },
    }
}

#[test]
fn release_after_the_freeze_period_earns_points() {
    let mut books = stake(1_000, 5, 2, 10, 50);
    assert_eq!(books.unstake(1_100), Ok(()));
    // 100 seconds at 10 points each, on top of 5.
    assert_eq!(books.user_account, UserAccount { points: 1_005, amount_staked: 1 });
    assert_eq!(books.stake_account, StakeAccount { staked_at: 1_000 });
    assert_eq!(books.config, StakeConfig { points_per_stake: 10, freeze_period: 50 });
}

#[test]
fn release_at_the_end_of_the_freeze_period() {
    let mut books = stake(1_000, 0, 1, 3, 50);
    assert_eq!(books.unstake(1_050), Ok(()));
    assert_eq!(books.user_account, UserAccount { points: 150, amount_staked: 0 });
}

#[test]
fn release_before_the_freeze_period_is_refused() {
    let before = stake(1_000, 5, 2, 10, 50);
    let mut books = before;
    assert_eq!(books.unstake(1_049), Err(StakeError::FreezePeriodNotPassed));
    assert_eq!(books, before);
    assert_eq!(books.unstake(999), Err(StakeError::FreezePeriodNotPassed));
    assert_eq!(books.unstake(i64::MIN), Err(StakeError::FreezePeriodNotPassed));
    assert_eq!(books, before);
}

#[test]
fn time_that_does_not_fit_is_refused() {
    let before = stake(-1, 5, 2, 10, 0);
    let mut books = before;
    // i64::MAX - (-1) is out of range.
    assert_eq!(books.unstake(i64::MAX), Err(StakeError::FreezePeriodNotPassed));
    assert_eq!(books, before);
    let mut books = stake(1, 5, 2, 10, 0);
    assert_eq!(books.unstake(i64::MIN), Err(StakeError::FreezePeriodNotPassed));
}

#[test]
fn release_with_nothing_at_stake_is_refused() {
    let before = stake(1_000, 5, 0, 10, 50);
    let mut books = before;
    assert_eq!(books.unstake(1_100), Err(StakeError::InvalidAsset));
    assert_eq!(books, before);
}

#[test]
fn freeze_period_is_checked_before_the_stake() {
    let mut books = stake(1_000, 5, 0, 10, 50);
    assert_eq!(books.unstake(1_049), Err(StakeError::FreezePeriodNotPassed));
}

#[test]
fn points_stop_at_the_largest_number() {
    let mut books = stake(0, u32::MAX - 10, 1, 1, 0);
    assert_eq!(books.unstake(11), Ok(()));
    assert_eq!(books.user_account.points, u32::MAX);

    let mut books = stake(0, 0, 1, 255, 0);
    // 4294967295 seconds at 255 points each is more than fits.
    assert_eq!(books.unstake(4_294_967_295), Ok(()));
    assert_eq!(books.user_account.points, u32::MAX);

    let mut books = stake(0, 7, 1, 2, 0);
    assert_eq!(books.unstake(2_147_483_648), Ok(()));
    assert_eq!(books.user_account.points, u32::MAX);
}

#[test]
fn seconds_are_counted_in_thirty_two_bits() {
    let mut books = stake(0, 0, 1, 7, 0);
    // 2^32 + 5 seconds count as 5.
    assert_eq!(books.unstake(4_294_967_301), Ok(()));
    assert_eq!(books.user_account.points, 35);

    let mut books = stake(0, 9, 1, 7, 0);
    assert_eq!(books.unstake(4_294_967_296), Ok(()));
    assert_eq!(books.user_account.points, 9);
}

#[test]
fn release_with_no_rate_earns_nothing() {
    let mut books = stake(10, 9, 3, 0, 5);
    assert_eq!(books.unstake(1_000_000), Ok(()));
    assert_eq!(books.user_account, UserAccount { points: 9, amount_staked: 2 });
}

#[test]
fn each_release_takes_one_asset_from_the_stake() {
    let mut books = stake(0, 0, 3, 1, 0);
    assert_eq!(books.unstake(10), Ok(()));
    assert_eq!(books.unstake(10), Ok(()));
    assert_eq!(books.unstake(10), Ok(()));
    assert_eq!(books.user_account, UserAccount { points: 30, amount_staked: 0 });
    assert_eq!(books.unstake(10), Err(StakeError::InvalidAsset));
    assert_eq!(books.user_account, UserAccount { points: 30, amount_staked: 0 });
}
