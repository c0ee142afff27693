//! Accounting core of a token vesting ledger: a pool sells tokens at a fixed
//! rate, and each buyer's allocation is released in whole ticks.
pub mod address;
pub mod amounts;
pub mod claim;
pub mod error;
pub mod laws;
pub mod purchase;
pub mod records;
pub mod setup;

pub use address::Address;
pub use claim::{
    claim_vesting_sol, claim_vesting_tokens, plan_token_claim, ClaimTokens, ClaimVesting,
    TokenClaim,
};
pub use error::VestingError;
pub use purchase::{plan_purchase, purchase_vesting, PurchaseVesting};
pub use records::{create_account_from_pool, VestingAccount, VestingPool};
pub use setup::{check_schedule, initialize, VestingSetup};
