//! The ledger as the operations see it: snapshots of token accounts and
//! mints, read once when an operation starts, and the token instructions an
//! operation asks for.

use crate::address::Address;
use crate::error::CustomError;
use vstd::prelude::*;

verus! {

/// A token account as it is when an operation starts.
#[derive(Clone, Copy, Debug, PartialEq, Eq)]
pub struct TokenAccount {
    /// Where the account lives.
    pub key: Address,
    /// Who may spend from it.
    pub owner: Address,
    /// Its balance, in base units.
    pub amount: u64,
}

/// A token mint as it is when an operation starts.
#[derive(Clone, Copy, Debug, PartialEq, Eq)]
pub struct Mint {
    pub key: Address,
    /// Tokens in existence, in base units.
    pub supply: u64,
}

/// One instruction to the token ledger. An operation returns the
/// instructions that settle it, in the order in which they are to be
/// executed; if one of them fails, the whole operation is void.
#[derive(Clone, Copy, Debug, PartialEq, Eq)]
pub enum TokenInstruction {
    /// Move `amount` from one token account to another.
    Transfer { from: Address, to: Address, authority: Address, amount: u64 },
    /// Mint `amount` new tokens into a token account.
    MintTo { mint: Address, to: Address, authority: Address, amount: u64 },
    /// Burn `amount` tokens from a token account.
    Burn { mint: Address, from: Address, authority: Address, amount: u64 },
    /// Hand the right to mint to a new authority.
    SetMintAuthority { mint: Address, current_authority: Address, new_authority: Address },
    /// Create the token account associated with an authority and a mint.
    CreateAssociatedAccount {
        payer: Address,
        associated_token: Address,
        authority: Address,
        mint: Address,
    },
}

/// Why a referral's token account cannot be paid: it was not supplied, or
/// it belongs to someone else.
pub open spec fn referral_account_error(
    account: Option<TokenAccount>,
    referral: Address,
) -> Option<CustomError> {
    match account {
        None => Some(CustomError::MissingReferralAccount),
        Some(a) => if a.owner != referral {
            Some(CustomError::InvalidReferral)
        } else {
            None
        },
    }
}

/// The transfers that pay a team share out of `from`: all of it to the
/// deployer's account where no referral is paid, else `referral_share` to
/// the referral's account and then `deployer_share` to the deployer's.
pub open spec fn team_transfers(
    from: Address,
    authority: Address,
    deployer_account: Address,
    referral_account: Option<Address>,
    team_share: u64,
    referral_share: u64,
    deployer_share: u64,
) -> Seq<TokenInstruction> {
    match referral_account {
        Some(to) => seq![
            TokenInstruction::Transfer { from, to, authority, amount: referral_share },
            TokenInstruction::Transfer {
                from,
                to: deployer_account,
                authority,
                amount: deployer_share,
            },
        ],
        None => seq![
            TokenInstruction::Transfer {
                from,
                to: deployer_account,
                authority,
                amount: team_share,
            },
        ],
    }
}

/// Checks that the referral's token account was supplied and belongs to
/// `referral`, and returns where it lives.
pub fn check_referral_account(account: &Option<TokenAccount>, referral: &Address) -> (r: Result<
    Address,
    CustomError,
>)
    ensures
        match r {
            Ok(key) => referral_account_error(*account, *referral) is None && account is Some
                && account->0.key == key,
            Err(e) => referral_account_error(*account, *referral) == Some(e),
        },
{
    match account {
        None => Err(CustomError::MissingReferralAccount),
        Some(a) => {
            if !a.owner.same(referral) {
                Err(CustomError::InvalidReferral)
            } else {
                Ok(a.key)
            }
        },
    }
}

/// Appends the transfers that pay a team share out of `from`.
pub fn push_team_transfers(
    out: &mut Vec<TokenInstruction>,
    from: Address,
    authority: Address,
    deployer_account: Address,
    referral_account: Option<Address>,
    team_share: u64,
    referral_share: u64,
    deployer_share: u64,
)
    ensures
        final(out)@ == old(out)@ + team_transfers(
            from,
            authority,
            deployer_account,
            referral_account,
            team_share,
            referral_share,
            deployer_share,
        ),
{
    match referral_account {
        Some(to) => {
            out.push(TokenInstruction::Transfer { from, to, authority, amount: referral_share });
            out.push(
                TokenInstruction::Transfer {
                    from,
                    to: deployer_account,
                    authority,
                    amount: deployer_share,
                },
            );
        },
        None => {
            out.push(
                TokenInstruction::Transfer {
                    from,
                    to: deployer_account,
                    authority,
                    amount: team_share,
                },
            );
        },
    }
    assert(final(out)@ =~= old(out)@ + team_transfers(
        from,
        authority,
        deployer_account,
        referral_account,
        team_share,
        referral_share,
        deployer_share,
    ));
}

} // verus!
