//! Economics of a single-token bonding-curve sale: an access pass with
//! referral revenue sharing, immediate buys and sells against a liquidity
//! reserve, time-locked positions with an early-exit penalty, and a founders'
//! revenue pool.
//!
//! Every operation is a function from a snapshot of the records and token
//! accounts it touches to the updated records and the list of token
//! instructions that settle it. Nothing here moves funds: the caller executes
//! the returned instructions atomically with the record update. An operation
//! that is rejected changes nothing and asks for nothing.

pub mod address;
pub mod authority;
pub mod curve;
pub mod error;
pub mod fees;
pub mod founders;
pub mod ledger;
pub mod market;
pub mod pass;
pub mod records;
pub mod sale;
pub mod vault;

pub use address::Address;
pub use error::CustomError;
pub use fees::{get_lock_fee_config, LockFeeConfig};
pub use founders::{
    add_founder, claim_founder_share, initialize_founders_pool, AddFounder, ClaimFounderShare,
    FoundersPool, InitializeFoundersPool,
};
pub use ledger::{Mint, TokenAccount, TokenInstruction};
pub use market::{buy_token, sell_token, BuyToken, SellToken};
pub use pass::{buy_pass, give_pass, BuyPass, GivePassInit};
pub use records::{LockedTokenState, TokenMetadata, UserState};
pub use sale::{initialize, initialize_with_authority, Initialize};
pub use vault::{
    buy_and_lock_token, claim_locked_tokens, early_unlock_tokens, initialize_user_vault,
    BuyAndLockToken, ClaimLockedTokens, EarlyUnlockTokens, InitializeUserVault,
};
