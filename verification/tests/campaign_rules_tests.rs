//! Edge cases and concrete instances of the library's laws.

use crowdfund::stellar_token_minter::{
    calculate_platform_fee, calculate_total_commitment, safe_add_pledge, safe_calculate_progress,
    validate_collect_preconditions, validate_contribution_amount, validate_deadline,
    validate_pledge_preconditions, CampaignLedger,
};
use crowdfund::{ContractError, Status};

fn campaign(timestamp: u64, status: Option<Status>) -> CampaignLedger {
    CampaignLedger {
        timestamp,
        status,
        deadline: Some(3600),
        goal: Some(1_000_000),
        total_raised: Some(400_000),
        total_pledged: Some(600_000),
    }
}

#[test]
fn absent_status_counts_as_active() {
    let ledger = campaign(10, None);
    assert!(validate_pledge_preconditions(&ledger, 5_000, 1_000).is_ok());
}

#[test]
fn absent_totals_count_as_zero() {
    let mut ledger = campaign(3601, None);
    ledger.total_raised = None;
    ledger.total_pledged = None;
    assert_eq!(
        validate_collect_preconditions(&ledger).unwrap_err(),
        ContractError::GoalNotReached
    );
    ledger.total_pledged = Some(1_000_000);
    assert_eq!(validate_collect_preconditions(&ledger).unwrap(), (1_000_000, 0, 1_000_000));
}

#[test]
fn every_inactive_status_refuses_pledges_and_collection() {
    for status in [Status::Successful, Status::Refunded, Status::Cancelled] {
        let ledger = campaign(3601, Some(status));
        assert_eq!(
            validate_pledge_preconditions(&ledger, 0, 1_000).unwrap_err(),
            ContractError::CampaignNotActive
        );
        assert_eq!(
            validate_collect_preconditions(&ledger).unwrap_err(),
            ContractError::CampaignNotActive
        );
    }
}

#[test]
fn pledge_amount_is_checked_before_the_deadline() {
    let ledger = campaign(9_999, Some(Status::Active));
    assert_eq!(
        validate_pledge_preconditions(&ledger, 0, 1_000).unwrap_err(),
        ContractError::ZeroAmount
    );
    assert_eq!(
        validate_pledge_preconditions(&ledger, 999, 1_000).unwrap_err(),
        ContractError::BelowMinimum
    );
}

#[test]
fn pledge_and_collection_are_never_both_open() {
    for timestamp in [0u64, 3599, 3600, 3601, u64::MAX] {
        let ledger = campaign(timestamp, Some(Status::Active));
        let pledge_ok = validate_pledge_preconditions(&ledger, 5_000, 1_000).is_ok();
        let collect_ok = validate_collect_preconditions(&ledger).is_ok();
        assert!(!(pledge_ok && collect_ok));
    }
}

#[test]
fn open_pledges_follow_contribution_rules() {
    let ledger = campaign(3600, Some(Status::Active));
    for (amount, min) in [(0i128, 0i128), (0, 10), (5, 10), (10, 10), (-5, -10), (-5, 0)] {
        assert_eq!(
            validate_pledge_preconditions(&ledger, amount, min),
            validate_contribution_amount(amount, min)
        );
    }
}

#[test]
fn valid_deadline_keeps_campaign_open() {
    let ledger = campaign(100, Some(Status::Active));
    assert!(validate_deadline(&ledger, 3600).is_ok());
    assert!(validate_pledge_preconditions(&ledger, 5_000, 1_000).is_ok());
    assert_eq!(
        validate_collect_preconditions(&ledger).unwrap_err(),
        ContractError::CampaignStillActive
    );
}

#[test]
fn collection_overflow_is_reported() {
    let mut ledger = campaign(3601, Some(Status::Active));
    ledger.total_raised = Some(i128::MAX);
    ledger.total_pledged = Some(1);
    assert_eq!(
        validate_collect_preconditions(&ledger).unwrap_err(),
        ContractError::Overflow
    );
}

#[test]
fn total_commitment_is_symmetric() {
    for (a, b) in [(1i128, 2i128), (i128::MAX, 0), (i128::MIN, 5), (-7, 3)] {
        assert_eq!(calculate_total_commitment(a, b), calculate_total_commitment(b, a));
    }
}

#[test]
fn total_commitment_refuses_exactly_i128_max() {
    assert_eq!(
        calculate_total_commitment(i128::MAX, 0).unwrap_err(),
        ContractError::Overflow
    );
    assert_eq!(calculate_total_commitment(i128::MAX - 1, 0).unwrap(), i128::MAX - 1);
    assert_eq!(calculate_total_commitment(i128::MIN, 0).unwrap(), i128::MIN);
}

#[test]
fn safe_add_pledge_reaches_the_full_range() {
    assert_eq!(safe_add_pledge(i128::MAX - 1, 1).unwrap(), i128::MAX);
    assert_eq!(safe_add_pledge(i128::MIN, -1).unwrap_err(), ContractError::Overflow);
    assert_eq!(safe_add_pledge(-5, 3).unwrap(), -2);
}

#[test]
fn progress_edge_cases() {
    assert_eq!(safe_calculate_progress(-500, 1_000).unwrap(), 0);
    assert_eq!(safe_calculate_progress(1_000, -1).unwrap(), 0);
    assert_eq!(safe_calculate_progress(1, 10_001).unwrap(), 0);
    assert_eq!(safe_calculate_progress(333, 1_000).unwrap(), 3_330);
    assert_eq!(safe_calculate_progress(2, 3).unwrap(), 6_666);
    // Below the goal, a scaled amount that does not fit in i128 is reported.
    assert_eq!(
        safe_calculate_progress(i128::MAX - 1, i128::MAX).unwrap_err(),
        ContractError::Overflow
    );
    assert_eq!(safe_calculate_progress(i128::MAX, i128::MAX).unwrap(), 10_000);
}

#[test]
fn platform_fee_rounds_toward_zero() {
    assert_eq!(calculate_platform_fee(9_999, 1).unwrap(), 0);
    assert_eq!(calculate_platform_fee(15_000, 1).unwrap(), 1);
    assert_eq!(calculate_platform_fee(-15_000, 1).unwrap(), -1);
    assert_eq!(calculate_platform_fee(123_456, 250).unwrap(), 3_086);
}

#[test]
fn platform_fee_overflow_is_reported() {
    assert_eq!(
        calculate_platform_fee(i128::MAX, 2).unwrap_err(),
        ContractError::Overflow
    );
    assert_eq!(calculate_platform_fee(i128::MAX, 1).unwrap(), i128::MAX / 10_000);
}

#[test]
fn platform_fee_never_exceeds_the_amount() {
    for amount in [0i128, 1, 9_999, 1_000_000, i128::MAX / 10_000] {
        for bps in [0u32, 1, 100, 9_999, 10_000] {
            let fee = calculate_platform_fee(amount, bps).unwrap();
            assert!(0 <= fee && fee <= amount);
        }
    }
}
