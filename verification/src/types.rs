//! The contract's error and status types.

use vstd::prelude::*;

verus! {

/// Errors returned by the crowdfund contract.
#[derive(Debug, Clone, Copy, PartialEq, Eq, Structural)]
pub enum ContractError {
    AlreadyInitialized,
    CampaignEnded,
    CampaignStillActive,
    GoalNotReached,
    GoalReached,
    Overflow,
    NothingToRefund,
    ZeroAmount,
    BelowMinimum,
    CampaignNotActive,
}

impl ContractError {
    /// The numeric code the contract host reports for this error.
    pub open spec fn spec_code(self) -> u32 {
        match self {
            ContractError::AlreadyInitialized => 1,
            ContractError::CampaignEnded => 2,
            ContractError::CampaignStillActive => 3,
            ContractError::GoalNotReached => 4,
            ContractError::GoalReached => 5,
            ContractError::Overflow => 6,
            ContractError::NothingToRefund => 7,
            ContractError::ZeroAmount => 8,
            ContractError::BelowMinimum => 9,
            ContractError::CampaignNotActive => 10,
        }
    }

    /// Returns the numeric code the contract host reports for this error.
    pub fn code(&self) -> (code: u32)
        ensures
            code == self.spec_code(),
    {
        match self {
            ContractError::AlreadyInitialized => 1,
            ContractError::CampaignEnded => 2,
            ContractError::CampaignStillActive => 3,
            ContractError::GoalNotReached => 4,
            ContractError::GoalReached => 5,
            ContractError::Overflow => 6,
            ContractError::NothingToRefund => 7,
            ContractError::ZeroAmount => 8,
            ContractError::BelowMinimum => 9,
            ContractError::CampaignNotActive => 10,
        }
    }
}

/// Distinct errors are reported under distinct codes, so a code names its
/// error.
pub proof fn law_error_codes_distinct(first: ContractError, second: ContractError)
    ensures
        first.spec_code() == second.spec_code() <==> first == second,
        1 <= first.spec_code() <= 10,
{
}

/// Lifecycle status of a campaign.
#[derive(Debug, Clone, Copy, PartialEq, Eq, Structural)]
pub enum Status {
    Active,
    Successful,
    Refunded,
    Cancelled,
}

} // verus!
