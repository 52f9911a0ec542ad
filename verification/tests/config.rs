use amm_staking::config::{Config, BASIS_POINTS};

#[test]
fn config_keeps_what_it_was_built_with() {
    let config = Config::new(42, 30, true, 254).unwrap();
    assert_eq!(config.seed(), 42);
    assert_eq!(config.fee(), 30);
    assert!(config.locked());
    assert_eq!(config.config_bump(), 254);
}

#[test]
fn fee_of_the_whole_amount_is_refused() {
    assert_eq!(BASIS_POINTS, 10_000);
    assert!(Config::new(1, 9_999, false, 0).is_some());
    assert!(Config::new(1, 10_000, false, 0).is_none());
    assert!(Config::new(1, 10_001, false, 0).is_none());
    assert!(Config::new(1, u16::MAX, false, 0).is_none());
}

#[test]
fn fee_is_withheld_rounding_down() {
    let config = Config::new(1, 30, false, 0).unwrap();
    // 100 * 9970 / 10000 = 99.7
    assert_eq!(config.amount_after_fee(100), 99);
    assert_eq!(config.amount_after_fee(1), 0);
    assert_eq!(config.amount_after_fee(0), 0);
    assert_eq!(config.amount_after_fee(10_000), 9_970);
    let steep = Config::new(1, 250, false, 0).unwrap();
    // 12345 * 9750 / 10000 = 12036.375
    assert_eq!(steep.amount_after_fee(12_345), 12_036);
}

#[test]
fn zero_fee_keeps_the_whole_amount() {
    let config = Config::new(1, 0, false, 0).unwrap();
    let amounts: [u64; 5] = [0, 1, 9_999, 10_000, u64::MAX];
    for amount_in in amounts {
        assert_eq!(config.amount_after_fee(amount_in), amount_in);
    }
}

#[test]
fn highest_fee_keeps_a_ten_thousandth() {
    let config = Config::new(1, 9_999, false, 0).unwrap();
    let amounts: [u64; 6] = [0, 1, 9_999, 10_000, 123_456_789, u64::MAX];
    for amount_in in amounts {
        assert_eq!(config.amount_after_fee(amount_in), amount_in / 10_000);
    }
    assert_eq!(config.amount_after_fee(u64::MAX), 1_844_674_407_370_955);
}

#[test]
fn fee_on_the_largest_amount_does_not_wrap() {
    let config = Config::new(1, 1, false, 0).unwrap();
    assert_eq!(config.amount_after_fee(u64::MAX), 18_444_899_399_302_180_659);
}
