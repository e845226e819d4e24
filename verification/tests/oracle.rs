use solswap::error::ErrorCode;
use solswap::state::oracle::{
    weighted_price, OracleState, MIN_UPDATE_INTERVAL, PRICE_HISTORY_LEN,
};

#[test]
fn new_oracle_weights_both_feeds_equally() {
    let o = OracleState::new();
    assert_eq!(o.last_price, 0);
    assert_eq!(o.ema_price, 0);
    assert_eq!(o.last_update_ts, 0);
    assert_eq!(o.price_history, [0i64; 150]);
    assert_eq!(o.history_index, 0);
    assert_eq!(o.pyth_weight, 5000);
    assert_eq!(o.switchboard_weight, 5000);
    assert_eq!(OracleState::LEN, 1237);
    assert_eq!(PRICE_HISTORY_LEN, 150);
    assert_eq!(MIN_UPDATE_INTERVAL, 3);
}

#[test]
fn weights_must_add_up_to_full_scale() {
    let mut o = OracleState::new();
    assert_eq!(o.set_weights(7_000, 3_000), Ok(()));
    assert_eq!((o.pyth_weight, o.switchboard_weight), (7_000, 3_000));
    assert_eq!(o.set_weights(0, 10_000), Ok(()));
    assert_eq!((o.pyth_weight, o.switchboard_weight), (0, 10_000));
    let before = o;
    assert_eq!(o.set_weights(7_000, 3_001), Err(ErrorCode::InvalidOracleWeights));
    assert_eq!(o.set_weights(0, 0), Err(ErrorCode::InvalidOracleWeights));
    assert_eq!(o.set_weights(u16::MAX, u16::MAX), Err(ErrorCode::InvalidOracleWeights));
    assert_eq!(o, before);
}

#[test]
fn fused_price_is_the_weighted_average() {
    assert_eq!(weighted_price(100, 200, 5_000, 5_000), Ok(150));
    assert_eq!(weighted_price(10, 20, 7_000, 3_000), Ok(13));
    assert_eq!(weighted_price(101, 100, 3_333, 6_667), Ok(100));
    assert_eq!(weighted_price(42, 42, 1, 9_999), Ok(42));
    assert_eq!(weighted_price(i64::MAX, i64::MAX as i128, 5_000, 5_000), Ok(i64::MAX));
    assert_eq!(weighted_price(i64::MIN, i64::MIN as i128, 2_500, 7_500), Ok(i64::MIN));
}

#[test]
fn fused_price_rounds_toward_zero() {
    assert_eq!(weighted_price(-7, 0, 5_000, 5_000), Ok(-3));
    assert_eq!(weighted_price(7, 0, 5_000, 5_000), Ok(3));
    assert_eq!(weighted_price(-101, -100, 3_333, 6_667), Ok(-100));
    assert_eq!(weighted_price(i64::MAX, i64::MIN as i128, 5_000, 5_000), Ok(0));
}

#[test]
fn fused_price_that_does_not_fit_is_an_overflow() {
    assert_eq!(
        weighted_price(i64::MAX, i64::MAX as i128, u16::MAX, u16::MAX),
        Err(ErrorCode::MathOverflow)
    );
    assert_eq!(weighted_price(0, i128::MAX, 0, 1), Err(ErrorCode::MathOverflow));
    assert_eq!(weighted_price(0, i128::MIN, 0, 1), Err(ErrorCode::MathOverflow));
    assert_eq!(weighted_price(0, i128::MAX, 10_000, u16::MAX), Err(ErrorCode::MathOverflow));
    // a feed that carries no weight cannot overflow
    assert_eq!(weighted_price(1, 1 << 100, 10_000, 0), Ok(1));
    assert_eq!(weighted_price(1, i128::MIN, 10_000, 0), Ok(1));
    // the exact edge on both sides
    let edge = 10_000 * (i64::MAX as i128);
    assert_eq!(weighted_price(0, edge + 9_999, 0, 1), Ok(i64::MAX));
    assert_eq!(weighted_price(0, edge + 10_000, 0, 1), Err(ErrorCode::MathOverflow));
    let low = 10_000 * (i64::MIN as i128);
    assert_eq!(weighted_price(0, low - 9_999, 0, 1), Ok(i64::MIN));
    assert_eq!(weighted_price(0, low - 10_000, 0, 1), Err(ErrorCode::MathOverflow));
}

#[test]
fn ema_step_cuts_off_toward_zero() {
    let mut o = OracleState::new();
    assert_eq!(o.calculate_ema(150), Ok(1));
    assert_eq!(o.calculate_ema(151), Ok(2));
    assert_eq!(o.calculate_ema(75), Ok(0));
    assert_eq!(o.calculate_ema(76), Ok(1));
    assert_eq!(o.calculate_ema(-75), Ok(0));
    assert_eq!(o.calculate_ema(-76), Ok(-1));
    o.ema_price = 2;
    assert_eq!(o.calculate_ema(-1_000), Ok(-11));
    o.ema_price = 1;
    assert_eq!(o.calculate_ema(-1_000), Ok(-12));
    o.ema_price = 100;
    assert_eq!(o.calculate_ema(100), Ok(100));
    o.ema_price = -3;
    assert_eq!(o.calculate_ema(-3), Ok(-3));
}

#[test]
fn ema_step_covers_the_whole_price_range() {
    let mut o = OracleState::new();
    o.ema_price = i64::MAX;
    assert_eq!(o.calculate_ema(i64::MAX), Ok(i64::MAX));
    assert_eq!(o.calculate_ema(i64::MIN), Ok(8_979_044_300_779_152_606));
    o.ema_price = i64::MIN;
    assert_eq!(o.calculate_ema(i64::MIN), Ok(i64::MIN));
    assert_eq!(o.calculate_ema(i64::MAX), Ok(-8_979_044_300_779_152_607));
}

#[test]
fn ema_converges_to_a_constant_price() {
    let price = 1_000_000;
    let mut o = OracleState::new();
    let mut gap = price;
    for _ in 0..150 {
        o.ema_price = o.calculate_ema(price).unwrap();
        let next = (price - o.ema_price).abs();
        assert!(next <= gap);
        gap = next;
    }
    assert_eq!(o.ema_price, 864_634);
    for _ in 0..2_000 {
        o.ema_price = o.calculate_ema(price).unwrap();
    }
    assert_eq!(o.ema_price, 999_925);
    assert!((price - o.ema_price).abs() <= 75);

    o.ema_price = 2_000_000;
    for _ in 0..150 {
        o.ema_price = o.calculate_ema(price).unwrap();
    }
    assert_eq!(o.ema_price, 1_135_298);
    for _ in 0..3_000 {
        o.ema_price = o.calculate_ema(price).unwrap();
    }
    assert_eq!(o.ema_price, price);

    o.ema_price = 0;
    for _ in 0..3_150 {
        o.ema_price = o.calculate_ema(-price).unwrap();
    }
    assert_eq!(o.ema_price, -999_925);

    o.ema_price = price;
    for _ in 0..150 {
        o.ema_price = o.calculate_ema(price).unwrap();
        assert_eq!(o.ema_price, price);
    }
}

#[test]
fn history_is_written_in_a_circle() {
    let mut o = OracleState::new();
    for i in 0..150 {
        o.update_price_history(1_000 + i);
    }
    assert_eq!(o.history_index, 0);
    assert_eq!(o.price_history[0], 1_000);
    assert_eq!(o.price_history[149], 1_149);
    o.update_price_history(-5);
    assert_eq!(o.history_index, 1);
    assert_eq!(o.price_history[0], -5);
    assert_eq!(o.price_history[1], 1_001);
    assert_eq!(o.last_price, 0);
    assert_eq!(o.ema_price, 0);
}

#[test]
fn update_fuses_smooths_and_records() {
    let mut o = OracleState::new();
    assert_eq!(o.fuse_and_update(100, 200, 10), Ok(()));
    assert_eq!(o.last_price, 150);
    assert_eq!(o.ema_price, 1);
    assert_eq!(o.last_update_ts, 10);
    assert_eq!(o.history_index, 1);
    assert_eq!(o.price_history[0], 150);

    assert_eq!(o.fuse_and_update(-2_000, 0, 13), Ok(()));
    assert_eq!(o.last_price, -1_000);
    assert_eq!(o.ema_price, -12);
    assert_eq!(o.last_update_ts, 13);
    assert_eq!(o.history_index, 2);
    assert_eq!(&o.price_history[..3], &[150, -1_000, 0]);
    assert_eq!((o.pyth_weight, o.switchboard_weight), (5_000, 5_000));
}

#[test]
fn second_update_within_three_seconds_is_refused_and_changes_nothing() {
    let mut o = OracleState::new();
    o.fuse_and_update(100, 200, 1_000).unwrap();
    let before = o;
    assert_eq!(o.fuse_and_update(300, 400, 1_002), Err(ErrorCode::TooFrequentUpdate));
    assert_eq!(o, before);
    assert_eq!(o.fuse_and_update(300, 400, 1_000), Err(ErrorCode::TooFrequentUpdate));
    assert_eq!(o, before);
    assert_eq!(o.fuse_and_update(300, 400, 999), Err(ErrorCode::TooFrequentUpdate));
    assert_eq!(o, before);
    assert_eq!(o.fuse_and_update(300, 400, 1_003), Ok(()));
    assert_eq!(o.last_price, 350);
}

#[test]
fn update_at_the_ends_of_time() {
    let mut o = OracleState::new();
    o.last_update_ts = i64::MIN;
    assert_eq!(o.fuse_and_update(1, 1, i64::MAX), Ok(()));
    let before = o;
    assert_eq!(o.fuse_and_update(1, 1, i64::MIN), Err(ErrorCode::TooFrequentUpdate));
    assert_eq!(o, before);
}

#[test]
fn overflowing_update_is_refused_and_changes_nothing() {
    let mut o = OracleState::new();
    o.pyth_weight = u16::MAX;
    o.switchboard_weight = u16::MAX;
    let before = o;
    assert_eq!(o.fuse_and_update(i64::MAX, i64::MAX as i128, 10), Err(ErrorCode::MathOverflow));
    assert_eq!(o, before);
    assert_eq!(o.fuse_and_update(1, i128::MAX, 10), Err(ErrorCode::MathOverflow));
    assert_eq!(o, before);
}
