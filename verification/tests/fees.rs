use fee_escalator::fees::{
    bump_priority_fee, compute_max_fee, extract_base_fee, initial_priority_fee,
    DEFAULT_GAS_BUMP_PERCENTAGE, DEFAULT_PRIORITY_FEE,
};
use fee_escalator::BlockchainError;

#[test]
fn default_baseline_is_two_gwei() {
    assert_eq!(DEFAULT_PRIORITY_FEE, 2_000_000_000);
    assert_eq!(initial_priority_fee(None), 2_000_000_000);
    assert_eq!(initial_priority_fee(Some(5)), 5);
}

#[test]
fn ten_percent_bump_exact() {
    assert_eq!(DEFAULT_GAS_BUMP_PERCENTAGE, 10);
    assert_eq!(bump_priority_fee(2_000_000_000, 10), 2_200_000_000);
}

#[test]
fn bump_rounds_down() {
    assert_eq!(bump_priority_fee(99, 10), 108);
    assert_eq!(bump_priority_fee(0, 10), 0);
}

#[test]
fn max_fee_is_twice_base_plus_priority() {
    assert_eq!(compute_max_fee(100, 2_200_000_000), 200 + 2_200_000_000);
    assert_eq!(compute_max_fee(0, 7), 7);
}

#[test]
fn base_fee_extracted_when_present() {
    assert_eq!(extract_base_fee(Some(12345)), Ok(12345));
}

#[test]
fn missing_base_fee_is_its_own_error() {
    assert_eq!(extract_base_fee(None), Err(BlockchainError::BlockBaseFeeNotFound));
}
