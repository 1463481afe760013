//! Helpers that interpret the error codes `contribute()` can return, for
//! scripts and off-chain tooling.
//!
//! | Code | Variant         | Trigger                                     |
//! |------|-----------------|---------------------------------------------|
//! |  2   | `CampaignEnded` | `ledger.timestamp > deadline`               |
//! |  6   | `Overflow`      | contribution or total_raised would overflow |

pub mod error_codes;

use vstd::prelude::*;

use crate::types::ContractError;

verus! {

/// The description `describe_error` gives for `code`.
pub open spec fn error_description(code: u32) -> Seq<char> {
    if code == error_codes::CAMPAIGN_ENDED {
        "Campaign has ended"@
    } else if code == error_codes::OVERFLOW {
        "Arithmetic overflow — contribution amount too large"@
    } else {
        "Unknown error"@
    }
}

/// Returns a human-readable description for a `contribute()` error code.
pub fn describe_error(code: u32) -> (description: &'static str)
    ensures
        description@ == error_description(code),
        code == 2 ==> description@ == "Campaign has ended"@,
        code == 6 ==> description@ == "Arithmetic overflow — contribution amount too large"@,
        code != 2 && code != 6 ==> description@ == "Unknown error"@,
{
    if code == error_codes::CAMPAIGN_ENDED {
        "Campaign has ended"
    } else if code == error_codes::OVERFLOW {
        "Arithmetic overflow — contribution amount too large"
    } else {
        "Unknown error"
    }
}

/// Returns `true` if the error code is retryable by the caller.
///
/// `CampaignEnded` and `Overflow` are permanent for the current campaign
/// state; no code is resolved by retrying the same call.
pub fn is_retryable(code: u32) -> (retryable: bool)
    ensures
        !retryable,
{
    false
}

/// The published codes are those of the contract's errors, and both are
/// described by a message of their own rather than as an unknown error.
pub proof fn law_error_codes_match_contract_errors()
    ensures
        ContractError::CampaignEnded.spec_code() == error_codes::CAMPAIGN_ENDED,
        ContractError::Overflow.spec_code() == error_codes::OVERFLOW,
        error_description(error_codes::CAMPAIGN_ENDED) != "Unknown error"@,
        error_description(error_codes::OVERFLOW) != "Unknown error"@,
{
    reveal_strlit("Campaign has ended");
    reveal_strlit("Arithmetic overflow — contribution amount too large");
    reveal_strlit("Unknown error");
    assert("Campaign has ended"@[0] != "Unknown error"@[0]);
    assert("Arithmetic overflow — contribution amount too large"@[0] != "Unknown error"@[0]);
}

/// Code 2 is described as the campaign having ended, code 6 as an arithmetic
/// overflow, and every other code as unknown.
pub proof fn law_descriptions_of_codes(code: u32)
    ensures
        code == 2 ==> error_description(code) == "Campaign has ended"@,
        code == 6 ==> error_description(code)
            == "Arithmetic overflow — contribution amount too large"@,
        code != 2 && code != 6 ==> error_description(code) == "Unknown error"@,
{
}

} // verus!
