# crowdfund

Verified campaign arithmetic and precondition checks of the Stellar Raise
crowdfund contract, written in Verus.

- `src/types.rs` — `ContractError` (with its numeric codes) and `Status`.
- `src/contribute_error_handling.rs` — error-code descriptions for scripts;
  the codes themselves are in `src/contribute_error_handling/error_codes.rs`.
- `src/stellar_token_minter.rs` — checked totals, progress and fee
  arithmetic, parameter validation, and the pledge and collection guards over
  `CampaignLedger`, the values the guards read from the contract's ledger.
  Its proof functions named `law_*` state the properties that hold across
  the guards.
- `app/lib.rs` — Soroban glue: reads the ledger clock and instance storage
  into a `CampaignLedger` and calls the verified guards.
- `tests/` — unit tests and concrete instances of the laws.
