//! The access pass: bought once per user, or granted by the deployer. The
//! first purchase that names a referral binds it to the user for good.

use crate::address::Address;
use crate::error::CustomError;
use crate::ledger::{
    check_referral_account, push_team_transfers, referral_account_error, team_transfers,
    TokenAccount, TokenInstruction,
};
use crate::records::{TokenMetadata, UserState};
use vstd::prelude::*;

verus! {

/// The price of a pass: 10,000 payment tokens of six decimals.
pub const PASS_PRICE: u64 = 10_000_000_000;

/// What a pass purchase touches.
#[derive(Clone, Debug, PartialEq, Eq)]
pub struct BuyPass {
    /// The buyer.
    pub user: Address,
    pub user_state: UserState,
    pub user_usdc_account: TokenAccount,
    pub metadata: TokenMetadata,
    pub deployer_usdc_account: TokenAccount,
    pub referral_usdc_account: Option<TokenAccount>,
}

/// What a pass grant touches.
#[derive(Clone, Debug, PartialEq, Eq)]
pub struct GivePassInit {
    pub metadata: TokenMetadata,
    /// The beneficiary's record.
    pub user_state: UserState,
    /// The beneficiary.
    pub user: Address,
    /// The caller.
    pub deployer: Address,
}

/// The user's record once a purchase that names `referral` has bound it: a
/// referral is bound only where none is bound yet.
pub open spec fn with_referral(state: UserState, referral: Option<Address>) -> UserState {
    match referral {
        Some(r) => if !state.referral_set {
            UserState { has_pass: state.has_pass, referral: r, referral_set: true }
        } else {
            state
        },
        None => state,
    }
}

/// Why a pass purchase is rejected, if it is: the first of these that holds.
pub open spec fn buy_pass_error(accounts: BuyPass, referral: Option<Address>) -> Option<
    CustomError,
> {
    let bound = with_referral(accounts.user_state, referral);
    if accounts.user_state.has_pass {
        Some(CustomError::AlreadyHasPass)
    } else if !accounts.user_state.referral_set && referral == Some(accounts.user) {
        Some(CustomError::InvalidReferral)
    } else if accounts.deployer_usdc_account.owner != accounts.metadata.deployer {
        Some(CustomError::InvalidDeployerAccount)
    } else if bound.referral_set {
        referral_account_error(accounts.referral_usdc_account, bound.referral)
    } else {
        None
    }
}

/// The transfers of a pass purchase: half the price to the bound referral
/// and half to the treasury, or all of it to the treasury where no referral
/// is bound.
pub open spec fn buy_pass_instructions(accounts: BuyPass, referral: Option<Address>) -> Seq<
    TokenInstruction,
> {
    team_transfers(
        accounts.user_usdc_account.key,
        accounts.user,
        accounts.deployer_usdc_account.key,
        if with_referral(accounts.user_state, referral).referral_set {
            Some(accounts.referral_usdc_account->0.key)
        } else {
            None
        },
        PASS_PRICE,
        (PASS_PRICE / 2) as u64,
        (PASS_PRICE / 2) as u64,
    )
}

/// Buys a pass for `accounts.user`, binding `referral` where the user has
/// none bound yet.
pub fn buy_pass(accounts: &mut BuyPass, referral: Option<Address>) -> (r: Result<
    Vec<TokenInstruction>,
    CustomError,
>)
    ensures
        match r {
            Ok(instructions) => {
                &&& buy_pass_error(*old(accounts), referral) is None
                &&& instructions@ == buy_pass_instructions(*old(accounts), referral)
                &&& *final(accounts) == (BuyPass {
                    user_state: UserState {
                        has_pass: true,
                        ..with_referral(old(accounts).user_state, referral)
                    },
                    ..*old(accounts)
                })
            },
            Err(e) => buy_pass_error(*old(accounts), referral) == Some(e) && *final(accounts)
                == *old(accounts),
        },
        final(accounts).user_state.keeps_referral_of(old(accounts).user_state),
        old(accounts).user_state.valid_for(old(accounts).user)
            ==> final(accounts).user_state.valid_for(old(accounts).user),
{
    if accounts.user_state.has_pass {
        return Err(CustomError::AlreadyHasPass);
    }
    let mut bound: UserState = accounts.user_state;
    if !bound.referral_set {
        if let Some(ref_address) = referral {
            if ref_address.same(&accounts.user) {
                return Err(CustomError::InvalidReferral);
            }
            bound.referral = ref_address;
            bound.referral_set = true;
        }
    }
    if !accounts.deployer_usdc_account.owner.same(&accounts.metadata.deployer) {
        return Err(CustomError::InvalidDeployerAccount);
    }
    let referral_account: Option<Address> = if bound.referral_set {
        match check_referral_account(&accounts.referral_usdc_account, &bound.referral) {
            Ok(key) => Some(key),
            Err(e) => {
                return Err(e);
            },
        }
    } else {
        None
    };
    let referral_share: u64 = PASS_PRICE / 2;
    let mut instructions: Vec<TokenInstruction> = Vec::new();
    push_team_transfers(
        &mut instructions,
        accounts.user_usdc_account.key,
        accounts.user,
        accounts.deployer_usdc_account.key,
        referral_account,
        PASS_PRICE,
        referral_share,
        referral_share,
    );
    bound.has_pass = true;
    accounts.user_state = bound;
    Ok(instructions)
}

/// A referral is bound at most once: the first purchase that names one
/// binds it, and whatever later purchases name, it stays as it is.
pub proof fn lemma_referral_binds_once(
    state: UserState,
    first: Option<Address>,
    second: Option<Address>,
)
    ensures
        with_referral(state, first).keeps_referral_of(state),
        with_referral(with_referral(state, first), second).keeps_referral_of(
            with_referral(state, first),
        ),
        with_referral(state, first).referral_set ==> with_referral(
            with_referral(state, first),
            second,
        ) == with_referral(state, first),
{
}

/// The user's record once purchases that name `referrals`, in this order,
/// have bound what they can.
pub open spec fn with_referrals(state: UserState, referrals: Seq<Option<Address>>) -> UserState
    decreases referrals.len(),
{
    if referrals.len() == 0 {
        state
    } else {
        with_referral(with_referrals(state, referrals.drop_last()), referrals.last())
    }
}

/// Whatever purchases follow, a bound referral stays bound and stays the
/// same.
pub proof fn lemma_bound_referral_is_kept(state: UserState, referrals: Seq<Option<Address>>)
    ensures
        with_referrals(state, referrals).keeps_referral_of(state),
    decreases referrals.len(),
{
    if referrals.len() > 0 {
        lemma_bound_referral_is_kept(state, referrals.drop_last());
    }
}

/// A purchase that is accepted never binds the buyer as their own referral.
pub proof fn lemma_bound_referral_is_not_the_buyer(accounts: BuyPass, referral: Option<Address>)
    requires
        accounts.user_state.valid_for(accounts.user),
        buy_pass_error(accounts, referral) is None,
    ensures
        with_referral(accounts.user_state, referral).valid_for(accounts.user),
{
}

/// Why a pass grant is rejected, if it is.
pub open spec fn give_pass_error(accounts: GivePassInit) -> Option<CustomError> {
    if accounts.deployer != accounts.metadata.deployer {
        Some(CustomError::Unauthorized)
    } else if accounts.user_state.has_pass {
        Some(CustomError::AlreadyHasPass)
    } else {
        None
    }
}

/// Grants a pass to `accounts.user` at no charge. Only the deployer may.
pub fn give_pass(accounts: &mut GivePassInit) -> (r: Result<(), CustomError>)
    ensures
        match r {
            Ok(_) => {
                &&& give_pass_error(*old(accounts)) is None
                &&& *final(accounts) == (GivePassInit {
                    user_state: UserState { has_pass: true, ..old(accounts).user_state },
                    ..*old(accounts)
                })
            },
            Err(e) => give_pass_error(*old(accounts)) == Some(e)
                && *final(accounts) == *old(accounts),
        },
        final(accounts).user_state.keeps_referral_of(old(accounts).user_state),
        old(accounts).user_state.valid_for(old(accounts).user)
            ==> final(accounts).user_state.valid_for(old(accounts).user),
{
    if !accounts.deployer.same(&accounts.metadata.deployer) {
        return Err(CustomError::Unauthorized);
    }
    if accounts.user_state.has_pass {
        return Err(CustomError::AlreadyHasPass);
    }
    accounts.user_state.has_pass = true;
    Ok(())
}

} // verus!
