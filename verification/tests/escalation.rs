use fee_escalator::escalation::{
    classify_receipt, run_escalation, EscalationConfig, EscalationOutcome, EscalationState,
    RoundEvent,
};
use fee_escalator::TxHash;

fn hash(lo: u128) -> TxHash {
    TxHash { hi: 0, lo }
}

fn quick_config(max_attempts: u32) -> EscalationConfig {
    EscalationConfig { max_attempts, wait_time_ms: 0, gas_bump_percentage: 10 }
}

#[test]
fn standard_config_values() {
    let c = EscalationConfig::standard();
    assert_eq!(c.max_attempts, 3);
    assert_eq!(c.wait_time_ms, 60_000);
    assert_eq!(c.gas_bump_percentage, 10);
}

#[test]
fn confirms_on_third_round_after_two_absent_receipts() {
    let cfg = quick_config(3);
    let events = vec![
        RoundEvent::ReceiptAbsent { base_fee: 100 },
        RoundEvent::ReceiptAbsent { base_fee: 100 },
        RoundEvent::ReceiptFound { base_fee: 100, status_ok: true, hash: hash(0xAAA) },
    ];
    let r = run_escalation(cfg, None, &events);
    assert_eq!(r.outcome, EscalationOutcome::Confirmed(hash(0xAAA)));
    assert_eq!(r.sends, 3);
    assert_eq!(r.receipt_checks, 3);
    assert_eq!(r.total_wait_ms, 0);
}

#[test]
fn exhausts_after_two_absent_rounds() {
    let cfg = quick_config(2);
    let events = vec![
        RoundEvent::ReceiptAbsent { base_fee: 100 },
        RoundEvent::ReceiptAbsent { base_fee: 100 },
    ];
    let r = run_escalation(cfg, None, &events);
    assert_eq!(r.outcome, EscalationOutcome::Exhausted);
    assert_eq!(r.sends, 2);
    assert_eq!(r.receipt_checks, 2);
}

#[test]
fn send_failure_stops_the_sequence_at_once() {
    let cfg = quick_config(3);
    let events = vec![
        RoundEvent::ReceiptAbsent { base_fee: 100 },
        RoundEvent::SendFailed { base_fee: 100 },
        RoundEvent::ReceiptAbsent { base_fee: 100 },
    ];
    let r = run_escalation(cfg, None, &events);
    assert_eq!(r.outcome, EscalationOutcome::SubmissionFailed);
    assert_eq!(r.sends, 2);
    assert_eq!(r.receipt_checks, 1);
}

#[test]
fn reverted_receipt_reports_its_hash() {
    let cfg = quick_config(3);
    let events = vec![
        RoundEvent::ReceiptFound { base_fee: 100, status_ok: false, hash: hash(0xBBB) },
        RoundEvent::ReceiptAbsent { base_fee: 100 },
        RoundEvent::ReceiptAbsent { base_fee: 100 },
    ];
    let r = run_escalation(cfg, None, &events);
    assert_eq!(r.outcome, EscalationOutcome::Reverted(hash(0xBBB)));
    assert_eq!(r.sends, 1);
    assert_eq!(r.receipt_checks, 1);
}

#[test]
fn base_fee_failure_ends_without_a_send() {
    let cfg = quick_config(3);
    let events = vec![
        RoundEvent::BaseFeeFailed,
        RoundEvent::ReceiptAbsent { base_fee: 100 },
        RoundEvent::ReceiptAbsent { base_fee: 100 },
    ];
    let r = run_escalation(cfg, None, &events);
    assert_eq!(r.outcome, EscalationOutcome::BaseFeeUnavailable);
    assert_eq!(r.sends, 0);
    assert_eq!(r.receipt_checks, 0);
}

#[test]
fn zero_attempts_is_immediately_exhausted() {
    let cfg = quick_config(0);
    let events: Vec<RoundEvent> = vec![];
    let r = run_escalation(cfg, None, &events);
    assert_eq!(r.outcome, EscalationOutcome::Exhausted);
    assert_eq!(r.sends, 0);
    assert_eq!(r.receipt_checks, 0);
}

#[test]
fn wait_window_accrues_once_per_receipt_check() {
    let cfg = EscalationConfig { max_attempts: 2, wait_time_ms: 60_000, gas_bump_percentage: 10 };
    let events = vec![
        RoundEvent::ReceiptAbsent { base_fee: 100 },
        RoundEvent::ReceiptAbsent { base_fee: 100 },
    ];
    let r = run_escalation(cfg, None, &events);
    assert_eq!(r.total_wait_ms, 120_000);
}

#[test]
fn receipt_status_classification() {
    let h = hash(0xCCC);
    assert_eq!(classify_receipt(Some(1), h), EscalationOutcome::Confirmed(h));
    assert_eq!(classify_receipt(Some(0), h), EscalationOutcome::Reverted(h));
    assert_eq!(classify_receipt(Some(7), h), EscalationOutcome::Reverted(h));
    assert_eq!(classify_receipt(None, h), EscalationOutcome::Reverted(h));
}

#[test]
fn first_round_quote_from_default_baseline() {
    let mut st = EscalationState::new(quick_config(3), None);
    let q = st.begin_round(100);
    assert_eq!(q.max_priority_fee_per_gas, 2_200_000_000);
    assert_eq!(q.max_fee_per_gas, 2 * 100 + 2_200_000_000);
}

#[test]
fn priority_fee_compounds_each_round() {
    let mut st = EscalationState::new(quick_config(3), Some(1_000_000_000));
    let q1 = st.begin_round(100);
    let q2 = st.begin_round(400);
    let q3 = st.begin_round(400);
    assert_eq!(q1.max_priority_fee_per_gas, 1_100_000_000);
    assert_eq!(q2.max_priority_fee_per_gas, 1_210_000_000);
    assert_eq!(q3.max_priority_fee_per_gas, 1_331_000_000);
    assert!(q2.max_priority_fee_per_gas >= q1.max_priority_fee_per_gas);
    assert_eq!(q2.max_fee_per_gas, 2 * 400 + 1_210_000_000);
}

#[test]
fn run_reports_the_last_round_priority_fee() {
    let cfg = quick_config(2);
    let events = vec![
        RoundEvent::ReceiptAbsent { base_fee: 100 },
        RoundEvent::ReceiptAbsent { base_fee: 100 },
    ];
    let r = run_escalation(cfg, Some(1_000_000_000), &events);
    assert_eq!(r.last_priority_fee, 1_210_000_000);
}
