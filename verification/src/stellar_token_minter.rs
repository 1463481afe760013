//! Pledge and collection guards and the campaign arithmetic of the Stellar
//! Raise crowdfund contract.
//!
//! Every amount computation is checked: an out-of-range result is reported as
//! `ContractError::Overflow` and never wraps. Precondition checks run in a
//! fixed order (status, then amounts, then timing), so the same failure always
//! yields the same error.

use vstd::prelude::*;

use crate::types::{ContractError, Status};

verus! {

/// Basis points that stand for 100%.
pub const BPS_DENOMINATOR: i128 = 10_000;

/// What the precondition checks read from the contract's ledger: the current
/// ledger timestamp and the campaign values held in instance storage (`None`
/// where the storage key is absent).
pub struct CampaignLedger {
    pub timestamp: u64,
    pub status: Option<Status>,
    pub deadline: Option<u64>,
    pub goal: Option<i128>,
    pub total_raised: Option<i128>,
    pub total_pledged: Option<i128>,
}

// ─── specifications ─────────────────────────────────────────────────────────

/// The campaign status; an absent status counts as `Active`.
pub open spec fn campaign_status(ledger: CampaignLedger) -> Status {
    match ledger.status {
        Some(s) => s,
        None => Status::Active,
    }
}

/// A stored total; an absent total counts as zero.
pub open spec fn stored_total(total: Option<i128>) -> i128 {
    match total {
        Some(t) => t,
        None => 0,
    }
}

/// The combined total `raised + pledged`, or `Overflow` where it leaves the
/// range `[i128::MIN, i128::MAX)`.
pub open spec fn total_commitment(raised: i128, pledged: i128) -> Result<i128, ContractError> {
    let sum = raised + pledged;
    if i128::MIN <= sum && sum < i128::MAX {
        Ok(sum as i128)
    } else {
        Err(ContractError::Overflow)
    }
}

/// `current + added`, or `Overflow` where it leaves the range of `i128`.
pub open spec fn pledge_sum(current: i128, added: i128) -> Result<i128, ContractError> {
    let sum = current + added;
    if i128::MIN <= sum && sum <= i128::MAX {
        Ok(sum as i128)
    } else {
        Err(ContractError::Overflow)
    }
}

/// The amount rules: a zero amount, then an amount below the minimum, is
/// rejected.
pub open spec fn amount_check(amount: i128, min_contribution: i128) -> Result<(), ContractError> {
    if amount == 0 {
        Err(ContractError::ZeroAmount)
    } else if amount < min_contribution {
        Err(ContractError::BelowMinimum)
    } else {
        Ok(())
    }
}

/// Progress of `current` towards `goal` in basis points, capped at 10 000.
///
/// A non-positive goal gives 0 and a non-positive amount gives 0. An amount
/// that meets the goal gives 10 000. Below the goal, `current * 10 000` must
/// fit in an `i128`, else the result is `Overflow`.
pub open spec fn progress_bps(current: i128, goal: i128) -> Result<u32, ContractError> {
    if goal <= 0 {
        Ok(0)
    } else if current >= goal {
        Ok(10_000)
    } else if current * 10_000 > i128::MAX || current * 10_000 < i128::MIN {
        Err(ContractError::Overflow)
    } else if current <= 0 {
        Ok(0)
    } else {
        Ok(((current * 10_000) / (goal as int)) as u32)
    }
}

/// Integer division of `value` by `divisor`, rounding toward zero.
pub open spec fn div_toward_zero(value: int, divisor: int) -> int {
    if value >= 0 {
        value / divisor
    } else {
        -((-value) / divisor)
    }
}

/// The fee of `fee_bps` basis points on `amount`, rounded toward zero, or
/// `Overflow` where `amount * fee_bps` leaves the range of `i128`.
pub open spec fn platform_fee(amount: i128, fee_bps: u32) -> Result<i128, ContractError> {
    if fee_bps == 0 {
        Ok(0)
    } else {
        let product = amount * fee_bps;
        if product > i128::MAX || product < i128::MIN {
            Err(ContractError::Overflow)
        } else {
            Ok(div_toward_zero(product, 10_000) as i128)
        }
    }
}

/// A deadline is valid when it lies strictly after the ledger time `now`.
pub open spec fn deadline_check(now: u64, deadline: u64) -> Result<(), ContractError> {
    if deadline <= now {
        Err(ContractError::CampaignEnded)
    } else {
        Ok(())
    }
}

/// Whether a pledge check gets as far as reading the deadline.
pub open spec fn pledge_reads_deadline(
    ledger: CampaignLedger,
    amount: i128,
    min_contribution: i128,
) -> bool {
    campaign_status(ledger) == Status::Active && amount_check(amount, min_contribution) is Ok
}

/// The outcome of the pledge preconditions: status, then amount, then the
/// deadline (inclusive: a pledge at the deadline itself is accepted).
pub open spec fn pledge_preconditions(
    ledger: CampaignLedger,
    amount: i128,
    min_contribution: i128,
) -> Result<(), ContractError> {
    if campaign_status(ledger) != Status::Active {
        Err(ContractError::CampaignNotActive)
    } else if amount_check(amount, min_contribution) is Err {
        amount_check(amount, min_contribution)
    } else if ledger.timestamp > ledger.deadline.unwrap() {
        Err(ContractError::CampaignEnded)
    } else {
        Ok(())
    }
}

/// Whether a collection check gets as far as reading the goal.
pub open spec fn collect_reads_goal(ledger: CampaignLedger) -> bool {
    campaign_status(ledger) == Status::Active && ledger.timestamp > ledger.deadline.unwrap()
}

/// The outcome of the collection preconditions: status, then the deadline
/// (collection opens strictly after it), then the goal against the combined
/// total of contributions and pledges.
pub open spec fn collect_preconditions(ledger: CampaignLedger) -> Result<
    (i128, i128, i128),
    ContractError,
> {
    if campaign_status(ledger) != Status::Active {
        Err(ContractError::CampaignNotActive)
    } else if ledger.timestamp <= ledger.deadline.unwrap() {
        Err(ContractError::CampaignStillActive)
    } else {
        let goal = ledger.goal.unwrap();
        let raised = stored_total(ledger.total_raised);
        let pledged = stored_total(ledger.total_pledged);
        match total_commitment(raised, pledged) {
            Err(e) => Err(e),
            Ok(combined) => if combined < goal {
                Err(ContractError::GoalNotReached)
            } else {
                Ok((goal, raised, pledged))
            },
        }
    }
}

// ─── executable functions ───────────────────────────────────────────────────

/// Returns the campaign status; an absent status counts as `Active`.
fn status_of(ledger: &CampaignLedger) -> (status: Status)
    ensures
        status == campaign_status(*ledger),
{
    match ledger.status {
        Some(s) => s,
        None => Status::Active,
    }
}

/// Validates preconditions for pledge operations.
///
/// Checks, in this order: the campaign is active (`CampaignNotActive`), the
/// amount is non-zero (`ZeroAmount`) and meets the minimum (`BelowMinimum`),
/// and the ledger time is not past the deadline (`CampaignEnded`).
pub fn validate_pledge_preconditions(
    ledger: &CampaignLedger,
    amount: i128,
    min_contribution: i128,
) -> (result: Result<(), ContractError>)
    requires
        pledge_reads_deadline(*ledger, amount, min_contribution) ==> ledger.deadline is Some,
    ensures
        result == pledge_preconditions(*ledger, amount, min_contribution),
        ledger.status matches Some(s) && s != Status::Active ==> result == Err::<(), ContractError>(
            ContractError::CampaignNotActive,
        ),
        campaign_status(*ledger) == Status::Active && amount == 0 ==> result == Err::<
            (),
            ContractError,
        >(ContractError::ZeroAmount),
        campaign_status(*ledger) == Status::Active && amount != 0 && amount < min_contribution
            ==> result == Err::<(), ContractError>(ContractError::BelowMinimum),
        campaign_status(*ledger) == Status::Active && amount != 0 && amount >= min_contribution
            ==> result == (if ledger.timestamp <= ledger.deadline.unwrap() {
            Ok::<(), ContractError>(())
        } else {
            Err(ContractError::CampaignEnded)
        }),
{
    if status_of(ledger) != Status::Active {
        return Err(ContractError::CampaignNotActive);
    }
    if amount == 0 {
        return Err(ContractError::ZeroAmount);
    }
    if amount < min_contribution {
        return Err(ContractError::BelowMinimum);
    }
    let deadline = ledger.deadline.unwrap();
    if ledger.timestamp > deadline {
        return Err(ContractError::CampaignEnded);
    }
    Ok(())
}

/// Validates preconditions for collect_pledges operations.
///
/// Checks, in this order: the campaign is active (`CampaignNotActive`), the
/// deadline has passed (`CampaignStillActive`), the combined total of
/// contributions and pledges can be computed (`Overflow`) and meets the goal
/// (`GoalNotReached`). On success returns `(goal, total_raised, total_pledged)`,
/// absent totals read as zero.
pub fn validate_collect_preconditions(ledger: &CampaignLedger) -> (result: Result<
    (i128, i128, i128),
    ContractError,
>)
    requires
        campaign_status(*ledger) == Status::Active ==> ledger.deadline is Some,
        collect_reads_goal(*ledger) ==> ledger.goal is Some,
    ensures
        result == collect_preconditions(*ledger),
        result matches Ok((goal, raised, pledged)) ==> raised + pledged >= goal,
        ledger.status matches Some(s) && s != Status::Active ==> result == Err::<
            (i128, i128, i128),
            ContractError,
        >(ContractError::CampaignNotActive),
        campaign_status(*ledger) == Status::Active && ledger.timestamp <= ledger.deadline.unwrap()
            ==> result == Err::<(i128, i128, i128), ContractError>(
            ContractError::CampaignStillActive,
        ),
        campaign_status(*ledger) == Status::Active && ledger.timestamp > ledger.deadline.unwrap()
            ==> ({
            let raised = stored_total(ledger.total_raised);
            let pledged = stored_total(ledger.total_pledged);
            let goal = ledger.goal.unwrap();
            &&& (raised + pledged >= i128::MAX || raised + pledged < i128::MIN) ==> result == Err::<
                (i128, i128, i128),
                ContractError,
            >(ContractError::Overflow)
            &&& (i128::MIN <= raised + pledged < goal) ==> result == Err::<
                (i128, i128, i128),
                ContractError,
            >(ContractError::GoalNotReached)
            &&& (i128::MIN <= raised + pledged && goal <= raised + pledged < i128::MAX) ==> result
                == Ok::<(i128, i128, i128), ContractError>((goal, raised, pledged))
        }),
{
    if status_of(ledger) != Status::Active {
        return Err(ContractError::CampaignNotActive);
    }
    let deadline = ledger.deadline.unwrap();
    if ledger.timestamp <= deadline {
        return Err(ContractError::CampaignStillActive);
    }
    let goal = ledger.goal.unwrap();
    let total_raised = match ledger.total_raised {
        Some(t) => t,
        None => 0,
    };
    let total_pledged = match ledger.total_pledged {
        Some(t) => t,
        None => 0,
    };
    let combined_total = match calculate_total_commitment(total_raised, total_pledged) {
        Ok(c) => c,
        Err(e) => return Err(e),
    };
    if combined_total < goal {
        return Err(ContractError::GoalNotReached);
    }
    Ok((goal, total_raised, total_pledged))
}

/// Calculates the total commitment (raised + pledged) with overflow
/// protection.
///
/// The combined total must stay within `[i128::MIN, i128::MAX)`: a sum that
/// reaches `i128::MAX` is reported as `Overflow` like one that passes it.
pub fn calculate_total_commitment(total_raised: i128, total_pledged: i128) -> (result: Result<
    i128,
    ContractError,
>)
    ensures
        result == total_commitment(total_raised, total_pledged),
        i128::MIN <= total_raised + total_pledged < i128::MAX ==> result == Ok::<
            i128,
            ContractError,
        >((total_raised + total_pledged) as i128),
        !(i128::MIN <= total_raised + total_pledged < i128::MAX) ==> result == Err::<
            i128,
            ContractError,
        >(ContractError::Overflow),
{
    match total_raised.checked_add(total_pledged) {
        Some(sum) => if sum == i128::MAX {
            Err(ContractError::Overflow)
        } else {
            Ok(sum)
        },
        None => Err(ContractError::Overflow),
    }
}

/// Adds a new pledge amount to a running total with overflow protection.
pub fn safe_add_pledge(current_total: i128, new_amount: i128) -> (result: Result<
    i128,
    ContractError,
>)
    ensures
        result == pledge_sum(current_total, new_amount),
        i128::MIN <= current_total + new_amount <= i128::MAX ==> result == Ok::<
            i128,
            ContractError,
        >((current_total + new_amount) as i128),
        !(i128::MIN <= current_total + new_amount <= i128::MAX) ==> result == Err::<
            i128,
            ContractError,
        >(ContractError::Overflow),
{
    match current_total.checked_add(new_amount) {
        Some(sum) => Ok(sum),
        None => Err(ContractError::Overflow),
    }
}

/// Validates that a contribution amount is non-zero and meets the minimum.
pub fn validate_contribution_amount(amount: i128, min_contribution: i128) -> (result: Result<
    (),
    ContractError,
>)
    ensures
        result == amount_check(amount, min_contribution),
        amount == 0 ==> result == Err::<(), ContractError>(ContractError::ZeroAmount),
        amount != 0 && amount < min_contribution ==> result == Err::<(), ContractError>(
            ContractError::BelowMinimum,
        ),
        result is Ok <==> (amount != 0 && amount >= min_contribution),
{
    if amount == 0 {
        return Err(ContractError::ZeroAmount);
    }
    if amount < min_contribution {
        return Err(ContractError::BelowMinimum);
    }
    Ok(())
}

/// Calculates campaign progress in basis points (0 to 10 000, where 10 000 is
/// 100%); progress is capped at 10 000 for overfunded campaigns.
pub fn safe_calculate_progress(current_amount: i128, goal: i128) -> (result: Result<
    u32,
    ContractError,
>)
    ensures
        result == progress_bps(current_amount, goal),
        result matches Ok(bps) ==> bps <= 10_000,
        0 < goal <= current_amount ==> result == Ok::<u32, ContractError>(10_000),
        goal <= 0 ==> result == Ok::<u32, ContractError>(0),
        0 < current_amount < goal && current_amount * 10_000 <= i128::MAX ==> (result matches Ok(
            bps,
        ) && bps * goal <= current_amount * 10_000 < (bps + 1) * goal),
        current_amount <= 0 < goal && current_amount * 10_000 >= i128::MIN ==> result == Ok::<
            u32,
            ContractError,
        >(0),
        current_amount < goal && goal > 0 && (current_amount * 10_000 > i128::MAX
            || current_amount * 10_000 < i128::MIN) ==> result == Err::<u32, ContractError>(
            ContractError::Overflow,
        ),
{
    proof {
        lemma_progress_characterized(current_amount, goal);
    }
    if goal <= 0 {
        return Ok(0);
    }
    if current_amount >= goal {
        return Ok(10_000);
    }
    let scaled = match current_amount.checked_mul(BPS_DENOMINATOR) {
        Some(s) => s,
        None => return Err(ContractError::Overflow),
    };
    let progress_raw = match scaled.checked_div(goal) {
        Some(p) => p,
        None => 0,
    };
    if current_amount <= 0 || progress_raw <= 0 {
        return Ok(0);
    }
    assert(progress_raw < 10_000) by (nonlinear_arith)
        requires
            0 < current_amount < goal,
            scaled == current_amount * 10_000,
            progress_raw == (scaled as int) / (goal as int),
    ;
    Ok(progress_raw as u32)
}

/// Validates that a deadline lies strictly after the current ledger time.
pub fn validate_deadline(ledger: &CampaignLedger, deadline: u64) -> (result: Result<
    (),
    ContractError,
>)
    ensures
        result == deadline_check(ledger.timestamp, deadline),
        result is Ok <==> deadline > ledger.timestamp,
        result is Err ==> result == Err::<(), ContractError>(ContractError::CampaignEnded),
{
    if deadline <= ledger.timestamp {
        return Err(ContractError::CampaignEnded);
    }
    Ok(())
}

/// Validates that a goal amount is positive.
pub fn validate_goal(goal: i128) -> (result: Result<(), ContractError>)
    ensures
        result == (if goal <= 0 {
            Err::<(), ContractError>(ContractError::GoalNotReached)
        } else {
            Ok(())
        }),
{
    if goal <= 0 {
        return Err(ContractError::GoalNotReached);
    }
    Ok(())
}

/// Calculates the platform fee of `fee_bps` basis points on `amount`, rounded
/// toward zero.
pub fn calculate_platform_fee(amount: i128, fee_bps: u32) -> (result: Result<
    i128,
    ContractError,
>)
    ensures
        result == platform_fee(amount, fee_bps),
        0 <= amount && fee_bps <= 10_000 ==> (result matches Ok(fee) ==> 0 <= fee <= amount),
        fee_bps == 0 ==> result == Ok::<i128, ContractError>(0),
        fee_bps != 0 && (amount * fee_bps > i128::MAX || amount * fee_bps < i128::MIN) ==> result
            == Err::<i128, ContractError>(ContractError::Overflow),
        fee_bps != 0 && i128::MIN <= amount * fee_bps <= i128::MAX ==> (result matches Ok(fee) && (
        if amount * fee_bps >= 0 {
            fee * 10_000 <= amount * fee_bps < fee * 10_000 + 10_000
        } else {
            fee * 10_000 - 10_000 < amount * fee_bps <= fee * 10_000
        })),
{
    proof {
        lemma_fee_characterized(amount, fee_bps);
    }
    if fee_bps == 0 {
        return Ok(0);
    }
    let product = match amount.checked_mul(fee_bps as i128) {
        Some(p) => p,
        None => return Err(ContractError::Overflow),
    };
    let fee = match product.checked_div(BPS_DENOMINATOR) {
        Some(f) => f,
        None => return Err(ContractError::Overflow),
    };
    proof {
        if 0 <= amount && fee_bps <= 10_000 {
            lemma_fee_within_amount(amount as int, fee_bps as int);
        }
    }
    Ok(fee)
}

/// Validates that a bonus goal is strictly greater than the primary goal.
pub fn validate_bonus_goal(bonus_goal: i128, primary_goal: i128) -> (result: Result<
    (),
    ContractError,
>)
    ensures
        result == (if bonus_goal <= primary_goal {
            Err::<(), ContractError>(ContractError::GoalNotReached)
        } else {
            Ok(())
        }),
{
    if bonus_goal <= primary_goal {
        return Err(ContractError::GoalNotReached);
    }
    Ok(())
}

// ─── laws ───────────────────────────────────────────────────────────────────

/// The status is checked first: on a campaign that is not active, both a
/// pledge and a collection are refused with `CampaignNotActive`, whatever the
/// amount, the time or the totals.
pub proof fn law_inactive_campaign_refused_first(
    ledger: CampaignLedger,
    amount: i128,
    min_contribution: i128,
)
    requires
        campaign_status(ledger) != Status::Active,
    ensures
        pledge_preconditions(ledger, amount, min_contribution) == Err::<(), ContractError>(
            ContractError::CampaignNotActive,
        ),
        collect_preconditions(ledger) == Err::<(i128, i128, i128), ContractError>(
            ContractError::CampaignNotActive,
        ),
{
}

/// The deadline splits time in two: at no ledger state are both a pledge and a
/// collection allowed. Pledges are open up to and including the deadline,
/// collection only strictly after it.
pub proof fn law_pledge_and_collect_windows_disjoint(
    ledger: CampaignLedger,
    amount: i128,
    min_contribution: i128,
)
    requires
        ledger.deadline is Some,
    ensures
        !(pledge_preconditions(ledger, amount, min_contribution) is Ok && collect_preconditions(
            ledger,
        ) is Ok),
{
}

/// While an active campaign is open, a pledge is judged by the same amount
/// rules as a contribution.
pub proof fn law_open_pledge_follows_amount_rules(
    ledger: CampaignLedger,
    amount: i128,
    min_contribution: i128,
)
    requires
        campaign_status(ledger) == Status::Active,
        ledger.deadline is Some,
        ledger.timestamp <= ledger.deadline.unwrap(),
    ensures
        pledge_preconditions(ledger, amount, min_contribution) == amount_check(
            amount,
            min_contribution,
        ),
{
}

/// A campaign whose stored deadline passed `validate_deadline` at the current
/// ledger time accepts valid pledges and does not allow collection yet.
pub proof fn law_valid_deadline_keeps_campaign_open(
    ledger: CampaignLedger,
    deadline: u64,
    amount: i128,
    min_contribution: i128,
)
    requires
        deadline_check(ledger.timestamp, deadline) is Ok,
        ledger.deadline == Some(deadline),
        campaign_status(ledger) == Status::Active,
        amount_check(amount, min_contribution) is Ok,
    ensures
        pledge_preconditions(ledger, amount, min_contribution) is Ok,
        collect_preconditions(ledger) == Err::<(i128, i128, i128), ContractError>(
            ContractError::CampaignStillActive,
        ),
{
}

/// Collection is allowed only when the goal is met: on success the returned
/// goal and totals are the stored ones (absent totals as zero), and
/// contributions plus pledges reach the goal without overflow.
pub proof fn law_collect_only_when_goal_met(ledger: CampaignLedger)
    requires
        collect_reads_goal(ledger) ==> ledger.goal is Some,
        collect_preconditions(ledger) is Ok,
    ensures
        ({
            let (goal, raised, pledged) = collect_preconditions(ledger).unwrap();
            &&& ledger.goal == Some(goal)
            &&& raised == stored_total(ledger.total_raised)
            &&& pledged == stored_total(ledger.total_pledged)
            &&& goal <= raised + pledged < i128::MAX
        }),
{
}

/// The combined total does not depend on the order of its two parts.
pub proof fn law_total_commitment_symmetric(raised: i128, pledged: i128)
    ensures
        total_commitment(raised, pledged) == total_commitment(pledged, raised),
{
}

/// Accumulating pledges one after another yields their arithmetic sum.
pub proof fn law_pledges_accumulate_to_their_sum(first: i128, second: i128, third: i128)
    requires
        pledge_sum(first, second) is Ok,
        pledge_sum(pledge_sum(first, second).unwrap(), third) is Ok,
    ensures
        pledge_sum(pledge_sum(first, second).unwrap(), third).unwrap() == first + second + third,
{
}

/// Once an active campaign is past its stored deadline and contributions
/// plus pledges meet its goal (without reaching `i128::MAX`), collection is
/// allowed at every later time and returns the stored goal and totals.
pub proof fn law_collection_open_at_every_time_after_deadline(ledger: CampaignLedger)
    requires
        campaign_status(ledger) == Status::Active,
        ledger.deadline is Some,
        ledger.goal is Some,
        ledger.timestamp > ledger.deadline.unwrap(),
        ledger.goal.unwrap() <= stored_total(ledger.total_raised) + stored_total(
            ledger.total_pledged,
        ) < i128::MAX,
    ensures
        collect_preconditions(ledger) == Ok::<(i128, i128, i128), ContractError>(
            (
                ledger.goal.unwrap(),
                stored_total(ledger.total_raised),
                stored_total(ledger.total_pledged),
            ),
        ),
{
}

/// Collection of an active campaign is refused as still running exactly up to
/// and including its deadline; it is never refused as ended.
pub proof fn law_collection_refusals(ledger: CampaignLedger)
    requires
        ledger.deadline is Some,
    ensures
        collect_preconditions(ledger) != Err::<(i128, i128, i128), ContractError>(
            ContractError::CampaignEnded,
        ),
        campaign_status(ledger) == Status::Active ==> (collect_preconditions(ledger) == Err::<
            (i128, i128, i128),
            ContractError,
        >(ContractError::CampaignStillActive) <==> ledger.timestamp <= ledger.deadline.unwrap()),
{
}

/// A zero amount is always refused as `ZeroAmount`, whatever the minimum, and
/// an amount is accepted exactly when it is non-zero and meets the minimum;
/// an open, active campaign judges pledges the same way.
pub proof fn law_zero_amount_always_refused(
    ledger: CampaignLedger,
    amount: i128,
    min_contribution: i128,
)
    ensures
        amount == 0 ==> amount_check(amount, min_contribution) == Err::<(), ContractError>(
            ContractError::ZeroAmount,
        ),
        amount_check(amount, min_contribution) is Ok <==> (amount != 0 && amount
            >= min_contribution),
        campaign_status(ledger) == Status::Active && amount == 0 ==> pledge_preconditions(
            ledger,
            amount,
            min_contribution,
        ) == Err::<(), ContractError>(ContractError::ZeroAmount),
        campaign_status(ledger) == Status::Active && ledger.deadline is Some ==> (
        pledge_preconditions(ledger, amount, min_contribution) is Ok <==> (amount != 0 && amount
            >= min_contribution && ledger.timestamp <= ledger.deadline.unwrap())),
{
}

/// Adding a pledge gives the arithmetic sum whenever it fits in an `i128`;
/// `Overflow` comes only when it does not.
pub proof fn law_pledge_sum_is_exact(current: i128, added: i128)
    ensures
        i128::MIN <= current + added <= i128::MAX ==> pledge_sum(current, added) == Ok::<
            i128,
            ContractError,
        >((current + added) as i128),
        pledge_sum(current, added) is Err <==> !(i128::MIN <= current + added <= i128::MAX),
{
}

/// The combined total is the arithmetic sum whenever it lies in
/// `[i128::MIN, i128::MAX)`; `Overflow` comes only outside that range.
pub proof fn law_total_commitment_is_exact(raised: i128, pledged: i128)
    ensures
        i128::MIN <= raised + pledged < i128::MAX ==> total_commitment(raised, pledged) == Ok::<
            i128,
            ContractError,
        >((raised + pledged) as i128),
        total_commitment(raised, pledged) is Err <==> !(i128::MIN <= raised + pledged
            < i128::MAX),
{
}

/// Any deadline strictly after the ledger time is accepted, however far away;
/// any other is refused as `CampaignEnded`.
pub proof fn law_deadline_accepted_exactly_when_in_future(now: u64, deadline: u64)
    ensures
        deadline > now ==> deadline_check(now, deadline) == Ok::<(), ContractError>(()),
        deadline <= now ==> deadline_check(now, deadline) == Err::<(), ContractError>(
            ContractError::CampaignEnded,
        ),
{
}

/// Progress in basis points: 0 for a non-positive goal or amount, 10 000 once
/// the goal is met, and otherwise the floor of `current * 10 000 / goal`
/// (`bps * goal <= current * 10 000 < (bps + 1) * goal`), unless that product
/// leaves the range of `i128`.
pub proof fn law_progress_is_floor_of_ratio(current: i128, goal: i128)
    ensures
        goal <= 0 ==> progress_bps(current, goal) == Ok::<u32, ContractError>(0),
        0 < goal <= current ==> progress_bps(current, goal) == Ok::<u32, ContractError>(10_000),
        0 < current < goal && current * 10_000 <= i128::MAX ==> (progress_bps(
            current,
            goal,
        ) matches Ok(bps) && bps * goal <= current * 10_000 < (bps + 1) * goal),
        current <= 0 < goal && current * 10_000 >= i128::MIN ==> progress_bps(current, goal)
            == Ok::<u32, ContractError>(0),
        progress_bps(current, goal) is Err ==> current < goal && 0 < goal && (current * 10_000
            > i128::MAX || current * 10_000 < i128::MIN),
{
    lemma_progress_characterized(current, goal);
}

/// The fee is `amount * fee_bps / 10 000` rounded toward zero, and `Overflow`
/// comes exactly when that product leaves the range of `i128`.
pub proof fn law_fee_is_rounded_share(amount: i128, fee_bps: u32)
    ensures
        fee_bps == 0 ==> platform_fee(amount, fee_bps) == Ok::<i128, ContractError>(0),
        fee_bps != 0 ==> (platform_fee(amount, fee_bps) is Err <==> (amount * fee_bps > i128::MAX
            || amount * fee_bps < i128::MIN)),
        fee_bps != 0 && i128::MIN <= amount * fee_bps <= i128::MAX ==> (platform_fee(
            amount,
            fee_bps,
        ) matches Ok(fee) && (if amount * fee_bps >= 0 {
            fee * 10_000 <= amount * fee_bps < fee * 10_000 + 10_000
        } else {
            fee * 10_000 - 10_000 < amount * fee_bps <= fee * 10_000
        })),
{
    lemma_fee_characterized(amount, fee_bps);
}

/// A campaign without a stored status is active, and an absent total is
/// zero: the guards treat a ledger without them as a fresh, active campaign.
pub proof fn law_absent_values_read_as_fresh_campaign(ledger: CampaignLedger)
    ensures
        campaign_status(ledger) == Status::Active <==> (ledger.status is None || ledger.status
            == Some(Status::Active)),
        ledger.total_raised is None ==> stored_total(ledger.total_raised) == 0,
        ledger.total_pledged is None ==> stored_total(ledger.total_pledged) == 0,
        ledger.total_raised matches Some(t) ==> stored_total(ledger.total_raised) == t,
        ledger.total_pledged matches Some(t) ==> stored_total(ledger.total_pledged) == t,
{
}

// ─── lemmas ─────────────────────────────────────────────────────────────────

proof fn lemma_floor_div(x: int, d: int)
    requires
        x >= 0,
        d > 0,
    ensures
        (x / d) * d <= x < (x / d) * d + d,
        x / d >= 0,
{
    vstd::arithmetic::div_mod::lemma_fundamental_div_mod(x, d);
    vstd::arithmetic::div_mod::lemma_mod_bound(x, d);
    vstd::arithmetic::div_mod::lemma_div_pos_is_pos(x, d);
    assert((x / d) * d == d * (x / d)) by (nonlinear_arith);
}

proof fn lemma_progress_characterized(current: i128, goal: i128)
    ensures
        0 < current < goal && current * 10_000 <= i128::MAX ==> (progress_bps(
            current,
            goal,
        ) matches Ok(bps) && bps * goal <= current * 10_000 < (bps + 1) * goal),
{
    if 0 < current < goal && current * 10_000 <= i128::MAX {
        let x = current * 10_000;
        lemma_floor_div(x, goal as int);
        assert(x / (goal as int) < 10_000) by (nonlinear_arith)
            requires
                0 < current < goal,
                x == current * 10_000,
                (x / (goal as int)) * goal <= x,
        ;
        let q = x / (goal as int);
        assert(q * goal <= x < (q + 1) * goal) by (nonlinear_arith)
            requires
                q * goal <= x < q * goal + goal,
        ;
    }
}

proof fn lemma_fee_characterized(amount: i128, fee_bps: u32)
    ensures
        fee_bps != 0 && i128::MIN <= amount * fee_bps <= i128::MAX ==> (platform_fee(
            amount,
            fee_bps,
        ) matches Ok(fee) && (if amount * fee_bps >= 0 {
            fee * 10_000 <= amount * fee_bps < fee * 10_000 + 10_000
        } else {
            fee * 10_000 - 10_000 < amount * fee_bps <= fee * 10_000
        })),
{
    if fee_bps != 0 && i128::MIN <= amount * fee_bps <= i128::MAX {
        let p = amount * fee_bps;
        if p >= 0 {
            lemma_floor_div(p, 10_000);
        } else {
            lemma_floor_div(-p, 10_000);
        }
    }
}

proof fn lemma_fee_within_amount(amount: int, fee_bps: int)
    requires
        0 <= amount,
        0 <= fee_bps <= 10_000,
    ensures
        0 <= (amount * fee_bps) / 10_000 <= amount,
{
    assert(0 <= amount * fee_bps <= amount * 10_000) by (nonlinear_arith)
        requires
            0 <= amount,
            0 <= fee_bps <= 10_000,
    ;
    assert(0 <= (amount * fee_bps) / 10_000 <= amount) by (nonlinear_arith)
        requires
            0 <= amount * fee_bps <= amount * 10_000,
            0 <= amount,
    ;
}

} // verus!
