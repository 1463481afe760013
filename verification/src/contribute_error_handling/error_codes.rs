//! Numeric error codes returned by the contract host for `contribute()`.

use vstd::prelude::*;

verus! {

/// `contribute()` was called after the campaign deadline.
pub const CAMPAIGN_ENDED: u32 = 2;

/// A checked arithmetic operation overflowed.
pub const OVERFLOW: u32 = 6;

} // verus!
