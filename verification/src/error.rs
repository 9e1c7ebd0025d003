//! Reasons for which an operation is rejected.

use vstd::prelude::*;

verus! {

/// Why an operation was rejected. A rejected operation changes nothing.
#[derive(Clone, Copy, Debug, PartialEq, Eq, Structural)]
pub enum CustomError {
    /// The sale is already initialized, or a lock position is already active.
    AlreadyInitialized,
    /// The user already holds a pass.
    AlreadyHasPass,
    /// The referral is the user, or the referral's token account belongs to
    /// someone else.
    InvalidReferral,
    /// A referral is bound but its token account was not supplied.
    MissingReferralAccount,
    /// The deployer's token account was not supplied.
    MissingDeployerAccount,
    /// The deployer's token account does not belong to the deployer on record.
    InvalidDeployerAccount,
    /// The user holds no pass.
    NoPass,
    /// All founder slots are taken.
    FounderLimitReached,
    /// The caller is not on the founders' roster.
    NotFounder,
    /// The caller's entitlement is already paid out.
    NothingToClaim,
    /// The caller is not the deployer.
    Unauthorized,
    /// The lock has not run out yet.
    LockPeriodNotOver,
    /// There is no active lock position.
    AlreadyClaimed,
    /// The lock duration is not one of the offered periods.
    InvalidLockPeriod,
}

impl CustomError {
    /// The message shown for this error.
    pub open spec fn message_text(&self) -> Seq<char> {
        match self {
            CustomError::AlreadyInitialized => "Token mint is already initialized"@,
            CustomError::AlreadyHasPass => "User already has a pass"@,
            CustomError::InvalidReferral => "Referral cannot be the user themselves"@,
            CustomError::MissingReferralAccount => "Referral token account must be provided"@,
            CustomError::MissingDeployerAccount => "Deployer token account must be provided"@,
            CustomError::InvalidDeployerAccount => {
                "Deployer token account does not match metadata"@
            },
            CustomError::NoPass => "User does not have a pass"@,
            CustomError::FounderLimitReached => "Maximum number of founders reached"@,
            CustomError::NotFounder => "Caller is not a founder"@,
            CustomError::NothingToClaim => "Nothing to claim"@,
            CustomError::Unauthorized => "You are not authorized to perform this action."@,
            CustomError::LockPeriodNotOver => "Lock period has not ended"@,
            CustomError::AlreadyClaimed => "Tokens already claimed"@,
            CustomError::InvalidLockPeriod => "Invalid lock period"@,
        }
    }

    /// The message shown for this error.
    pub fn message(&self) -> (s: &'static str)
        ensures
            s@ == self.message_text(),
    {
        match self {
            CustomError::AlreadyInitialized => "Token mint is already initialized",
            CustomError::AlreadyHasPass => "User already has a pass",
            CustomError::InvalidReferral => "Referral cannot be the user themselves",
            CustomError::MissingReferralAccount => "Referral token account must be provided",
            CustomError::MissingDeployerAccount => "Deployer token account must be provided",
            CustomError::InvalidDeployerAccount => "Deployer token account does not match metadata",
            CustomError::NoPass => "User does not have a pass",
            CustomError::FounderLimitReached => "Maximum number of founders reached",
            CustomError::NotFounder => "Caller is not a founder",
            CustomError::NothingToClaim => "Nothing to claim",
            CustomError::Unauthorized => "You are not authorized to perform this action.",
            CustomError::LockPeriodNotOver => "Lock period has not ended",
            CustomError::AlreadyClaimed => "Tokens already claimed",
            CustomError::InvalidLockPeriod => "Invalid lock period",
        }
    }
}

} // verus!
