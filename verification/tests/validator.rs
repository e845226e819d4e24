use solswap::error::ErrorCode;
use solswap::host::Pubkey;
use solswap::state::validator::{ValidatorState, UPDATE_INTERVAL};

const DAY: i64 = 86_400;

fn key(byte: u8) -> Pubkey {
    Pubkey::new_from_array([byte; 32])
}

fn validator(commission: u16) -> ValidatorState {
    ValidatorState::new(key(1), key(2), commission, 3).unwrap()
}

#[test]
fn new_validator_is_empty() {
    let v = validator(500);
    assert_eq!(v.validator_address, key(1));
    assert_eq!(v.authority, key(2));
    assert_eq!(v.commission, 500);
    assert_eq!(v.bump, 3);
    assert_eq!(v.performance_history, [0u64; 30]);
    assert_eq!(v.current_index, 0);
    assert_eq!(v.mev_rewards, 0);
    assert_eq!(v.last_update, 0);
    assert_eq!(v.calculate_average_performance(), 0);
    assert_eq!(ValidatorState::LEN, 356);
    assert_eq!(UPDATE_INTERVAL, DAY);
}

#[test]
fn commission_above_full_scale_is_rejected_at_creation() {
    assert_eq!(
        ValidatorState::new(key(1), key(2), 10_001, 3),
        Err(ErrorCode::InvalidValidatorState)
    );
    assert!(ValidatorState::new(key(1), key(2), 10_000, 3).is_ok());
}

#[test]
fn average_ignores_unwritten_slots() {
    let mut v = validator(500);
    v.update_metrics(100, 0, 1_000).unwrap();
    v.update_metrics(200, 0, 1_000 + DAY).unwrap();
    v.update_metrics(300, 0, 1_000 + 2 * DAY).unwrap();
    assert_eq!(v.calculate_average_performance(), 200);
    assert_eq!(v.current_index, 3);
    assert_eq!(&v.performance_history[..4], &[100, 200, 300, 0]);
}

#[test]
fn average_rounds_down() {
    let mut v = validator(0);
    v.performance_history[4] = 1;
    v.performance_history[17] = 2;
    assert_eq!(v.calculate_average_performance(), 1);
    v.performance_history[29] = 7;
    assert_eq!(v.calculate_average_performance(), 3);
}

#[test]
fn average_of_the_largest_samples_does_not_overflow() {
    let mut v = validator(0);
    v.performance_history = [u64::MAX; 30];
    assert_eq!(v.calculate_average_performance(), u64::MAX);
    v.performance_history[0] = 0;
    assert_eq!(v.calculate_average_performance(), u64::MAX);
}

#[test]
fn risk_score_weights_performance_commission_and_mev() {
    let mut v = validator(500);
    // (100 * 6000 + 9500 * 2000 + 0) / 10000
    assert_eq!(v.update_metrics(100, 0, 1_000), Ok(1_960));
    // (150 * 6000 + 9500 * 2000 + 2000) / 10000
    assert_eq!(v.update_metrics(200, 5, 1_000 + DAY), Ok(1_990));
    assert_eq!(v.mev_rewards, 5);
    assert_eq!(v.last_update, 1_000 + DAY);
    assert_eq!(v.calculate_risk_score(), Ok(1_990));

    let mut best = validator(0);
    assert_eq!(best.update_metrics(10_000, 1, 5), Ok(8_000));
    let mut worst = validator(10_000);
    worst.performance_history[0] = 0;
    assert_eq!(worst.calculate_risk_score(), Ok(0));
}

#[test]
fn update_within_a_day_is_refused_and_changes_nothing() {
    let mut v = validator(500);
    v.update_metrics(9_000, 10, 1_000).unwrap();
    let before = v;
    assert_eq!(v.update_metrics(8_000, 10, 1_000 + DAY - 1), Err(ErrorCode::TooFrequentUpdate));
    assert_eq!(v, before);
    assert_eq!(v.update_metrics(8_000, 10, 999), Err(ErrorCode::TooFrequentUpdate));
    assert_eq!(v, before);
    assert!(v.update_metrics(8_000, 10, 1_000 + DAY).is_ok());
    assert_eq!(v.current_index, 2);
}

#[test]
fn first_update_is_always_permitted() {
    let mut v = validator(500);
    assert!(v.update_metrics(9_000, 0, -5).is_ok());
    assert_eq!(v.last_update, -5);
    let mut w = validator(500);
    assert!(w.update_metrics(9_000, 0, i64::MIN).is_ok());
}

#[test]
fn gap_wider_than_the_timestamp_type_counts_as_elapsed() {
    let mut v = validator(500);
    v.last_update = -1;
    assert!(v.update_metrics(9_000, 0, i64::MAX).is_ok());
    let mut w = validator(500);
    w.last_update = i64::MAX;
    assert_eq!(w.update_metrics(9_000, 0, i64::MIN), Err(ErrorCode::TooFrequentUpdate));
}

#[test]
fn window_wraps_around_and_overwrites_the_oldest_sample() {
    let mut v = validator(0);
    for day in 0..30 {
        v.update_metrics(1_000 + day as u64, 0, 10 + day * DAY).unwrap();
    }
    assert_eq!(v.current_index, 0);
    assert_eq!(v.performance_history[0], 1_000);
    assert_eq!(v.performance_history[29], 1_029);
    v.update_metrics(5_000, 0, 10 + 30 * DAY).unwrap();
    assert_eq!(v.current_index, 1);
    assert_eq!(v.performance_history[0], 5_000);
    assert_eq!(v.performance_history[1], 1_001);
    // (sum of 1001..=1029) + 5000 = 29435 + 5000, over 30 slots
    assert_eq!(v.calculate_average_performance(), 1_147);
}

#[test]
fn zero_sample_leaves_its_slot_unwritten() {
    let mut v = validator(0);
    v.update_metrics(600, 0, 10).unwrap();
    v.update_metrics(0, 0, 10 + DAY).unwrap();
    assert_eq!(v.current_index, 2);
    assert_eq!(v.calculate_average_performance(), 600);
}

#[test]
fn overflow_of_the_rewards_is_reported_and_changes_nothing() {
    let mut v = validator(500);
    v.mev_rewards = u64::MAX;
    let before = v;
    assert_eq!(v.update_metrics(9_000, 1, 1_000), Err(ErrorCode::MathOverflow));
    assert_eq!(v, before);
    assert!(v.update_metrics(9_000, 0, 1_000).is_ok());
}

#[test]
fn overflow_of_the_score_is_reported_and_changes_nothing() {
    let mut v = validator(500);
    let before = v;
    assert_eq!(v.update_metrics(u64::MAX, 0, 1_000), Err(ErrorCode::MathOverflow));
    assert_eq!(v, before);
    assert_eq!(v.update_metrics(u64::MAX / 6_000 + 1, 0, 1_000), Err(ErrorCode::MathOverflow));
    assert_eq!(v, before);

    let mut w = validator(0);
    w.performance_history[0] = u64::MAX / 6_000;
    // the product fits, the sum with the commission part does not
    assert_eq!(w.calculate_risk_score(), Err(ErrorCode::MathOverflow));
    w.commission = 10_000;
    assert_eq!(w.calculate_risk_score(), Ok((u64::MAX / 6_000) * 6_000 / 10_000));
}

#[test]
fn commission_above_full_scale_is_an_overflow_of_the_score() {
    let mut v = validator(500);
    v.commission = 10_001;
    assert_eq!(v.calculate_risk_score(), Err(ErrorCode::MathOverflow));
    let before = v;
    assert_eq!(v.update_metrics(9_000, 0, 1_000), Err(ErrorCode::MathOverflow));
    assert_eq!(v, before);
}
