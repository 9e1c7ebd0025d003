//! The persisted records.

use crate::address::Address;
use vstd::prelude::*;

verus! {

/// What is kept for each user: the pass and the referral bound to it.
#[derive(Clone, Copy, Debug, PartialEq, Eq)]
pub struct UserState {
    pub has_pass: bool,
    /// Meaningful only while `referral_set`.
    pub referral: Address,
    /// Written once: set by the first purchase that names a referral, and
    /// never cleared.
    pub referral_set: bool,
}

impl UserState {
    /// A bound referral is never the record's owner.
    pub open spec fn valid_for(&self, owner: Address) -> bool {
        self.referral_set ==> self.referral != owner
    }

    /// What `earlier` bound is still bound, to the same referral.
    pub open spec fn keeps_referral_of(&self, earlier: UserState) -> bool {
        earlier.referral_set ==> self.referral_set && self.referral == earlier.referral
    }

    /// The record of a user who has not been seen yet.
    pub fn new() -> (state: UserState)
        ensures
            !state.has_pass,
            !state.referral_set,
            state.referral == Address::zero(),
            forall|owner: Address| state.valid_for(owner),
    {
        UserState { has_pass: false, referral: Address::default(), referral_set: false }
    }
}

/// What is kept for the sale as a whole.
#[derive(Clone, Debug, PartialEq, Eq)]
pub struct TokenMetadata {
    pub name: String,
    pub symbol: String,
    /// The sale token.
    pub mint: Address,
    /// The only authority that may mint the sale token.
    pub authority: Address,
    /// The token that is paid with.
    pub payment_token: Address,
    /// The treasury, and the only caller who may grant passes and enrol
    /// founders.
    pub deployer: Address,
    pub initialized: bool,
}

/// A user's lock position. There is one record per user, so a user has at
/// most one active position.
#[derive(Clone, Copy, Debug, PartialEq, Eq)]
pub struct LockedTokenState {
    pub user: Address,
    /// Tokens held in custody.
    pub amount: u64,
    /// Seconds since the epoch from which the position can be claimed.
    pub unlock_time: i64,
    pub referral: Option<Address>,
    /// Whether the position is active.
    pub initialized: bool,
    pub lock_days: u64,
}

impl LockedTokenState {
    /// An inactive position holds nothing.
    pub open spec fn valid(&self) -> bool {
        !self.initialized ==> self.amount == 0
    }

    /// The record of a user who has never locked.
    pub fn new(user: Address) -> (state: LockedTokenState)
        ensures
            state == (LockedTokenState {
                user,
                amount: 0,
                unlock_time: 0,
                referral: None,
                initialized: false,
                lock_days: 0,
            }),
            state.valid(),
    {
        LockedTokenState {
            user,
            amount: 0,
            unlock_time: 0,
            referral: None,
            initialized: false,
            lock_days: 0,
        }
    }
}

} // verus!
