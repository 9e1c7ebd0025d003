//! Setting the sale up: the metadata record, the first liquidity, and the
//! hand-over of the right to mint.

use crate::address::Address;
use crate::authority::{find_program_address, program_address};
use crate::error::CustomError;
use crate::ledger::{Mint, TokenAccount, TokenInstruction};
use crate::records::TokenMetadata;
use vstd::prelude::*;
use vstd::string::StringSliceAdditionalSpecFns;

verus! {

/// Payment units that the deployer puts into the reserve at the start.
pub const INITIAL_LIQUIDITY: u64 = 3_000;

/// Sale tokens that the deployer hands to the program at the start.
pub const INITIAL_TOKENS: u64 = 1_000_000_000;

/// What the set-up of the sale touches.
#[derive(Clone, Debug, PartialEq, Eq)]
pub struct Initialize {
    /// The sale token.
    pub up_only_mint: Mint,
    pub metadata: TokenMetadata,
    pub user_up_only_account: TokenAccount,
    pub program_up_only_account: TokenAccount,
    /// The token that is paid with.
    pub payment_token_mint: Mint,
    pub user_payment_token_account: TokenAccount,
    /// The liquidity reserve.
    pub program_payment_token_account: TokenAccount,
    /// Who may mint the sale token until now.
    pub current_mint_authority: Address,
    /// The deployer.
    pub authority: Address,
}

/// The seed of the mint authority's address.
pub open spec fn mint_authority_seed() -> Seq<u8> {
    "mint_authority".spec_bytes()
}

/// Whether `metadata` is what the set-up records for `accounts` with the
/// mint authority `mint_authority`.
pub open spec fn is_initial_metadata(
    metadata: TokenMetadata,
    accounts: Initialize,
    mint_authority: Address,
) -> bool {
    &&& metadata.name@ == "UpOnly"@
    &&& metadata.symbol@ == "UP"@
    &&& metadata.mint == accounts.up_only_mint.key
    &&& metadata.authority == mint_authority
    &&& metadata.payment_token == accounts.payment_token_mint.key
    &&& metadata.deployer == accounts.authority
    &&& metadata.initialized
}

/// The instructions of the set-up: the first liquidity into the reserve,
/// the first tokens to the program, and the right to mint to
/// `mint_authority`.
pub open spec fn initialize_instructions(accounts: Initialize, mint_authority: Address) -> Seq<
    TokenInstruction,
> {
    seq![
        TokenInstruction::Transfer {
            from: accounts.user_payment_token_account.key,
            to: accounts.program_payment_token_account.key,
            authority: accounts.authority,
            amount: INITIAL_LIQUIDITY,
        },
        TokenInstruction::Transfer {
            from: accounts.user_up_only_account.key,
            to: accounts.program_up_only_account.key,
            authority: accounts.authority,
            amount: INITIAL_TOKENS,
        },
        TokenInstruction::SetMintAuthority {
            mint: accounts.up_only_mint.key,
            current_authority: accounts.current_mint_authority,
            new_authority: mint_authority,
        },
    ]
}

/// Sets the sale up with `mint_authority` as the only authority that may
/// mint from now on. A sale is set up once.
pub fn initialize_with_authority(accounts: &mut Initialize, mint_authority: Address) -> (r: Result<
    Vec<TokenInstruction>,
    CustomError,
>)
    ensures
        old(accounts).metadata.initialized ==> r == Err::<Vec<TokenInstruction>, CustomError>(
            CustomError::AlreadyInitialized,
        ) && *final(accounts) == *old(accounts),
        !old(accounts).metadata.initialized ==> {
            &&& r is Ok
            &&& r->Ok_0@ == initialize_instructions(*old(accounts), mint_authority)
            &&& is_initial_metadata(final(accounts).metadata, *old(accounts), mint_authority)
            &&& *final(accounts) == (Initialize {
                metadata: final(accounts).metadata,
                ..*old(accounts)
            })
        },
{
    if accounts.metadata.initialized {
        return Err(CustomError::AlreadyInitialized);
    }
    accounts.metadata =
    TokenMetadata {
        name: "UpOnly".to_string(),
        symbol: "UP".to_string(),
        mint: accounts.up_only_mint.key,
        authority: mint_authority,
        payment_token: accounts.payment_token_mint.key,
        deployer: accounts.authority,
        initialized: true,
    };
    let mut instructions: Vec<TokenInstruction> = Vec::new();
    instructions.push(
        TokenInstruction::Transfer {
            from: accounts.user_payment_token_account.key,
            to: accounts.program_payment_token_account.key,
            authority: accounts.authority,
            amount: INITIAL_LIQUIDITY,
        },
    );
    instructions.push(
        TokenInstruction::Transfer {
            from: accounts.user_up_only_account.key,
            to: accounts.program_up_only_account.key,
            authority: accounts.authority,
            amount: INITIAL_TOKENS,
        },
    );
    instructions.push(
        TokenInstruction::SetMintAuthority {
            mint: accounts.up_only_mint.key,
            current_authority: accounts.current_mint_authority,
            new_authority: mint_authority,
        },
    );
    assert(instructions@ =~= initialize_instructions(*old(accounts), mint_authority));
    Ok(instructions)
}

/// Sets the sale up for the program `program_id`, whose derived address
/// for the mint-authority seed becomes the only authority that may mint.
/// Returns `None`, and changes nothing, where the sale is not set up yet
/// and the program has no such address.
pub fn initialize(accounts: &mut Initialize, program_id: &Address) -> (r: Option<
    Result<Vec<TokenInstruction>, CustomError>,
>)
    ensures
        old(accounts).metadata.initialized ==> r == Some(
            Err::<Vec<TokenInstruction>, CustomError>(CustomError::AlreadyInitialized),
        ) && *final(accounts) == *old(accounts),
        !old(accounts).metadata.initialized ==> match program_address(
            mint_authority_seed(),
            program_id@,
        ) {
            None => r is None && *final(accounts) == *old(accounts),
            Some(bytes) => {
                &&& r matches Some(Ok(instructions))
                &&& final(accounts).metadata.authority@ == bytes
                &&& instructions@ == initialize_instructions(
                    *old(accounts),
                    final(accounts).metadata.authority,
                )
                &&& is_initial_metadata(
                    final(accounts).metadata,
                    *old(accounts),
                    final(accounts).metadata.authority,
                )
                &&& *final(accounts) == (Initialize {
                    metadata: final(accounts).metadata,
                    ..*old(accounts)
                })
            },
        },
{
    if accounts.metadata.initialized {
        return Some(Err(CustomError::AlreadyInitialized));
    }
    match find_program_address("mint_authority".as_bytes(), program_id) {
        Some(mint_authority) => Some(initialize_with_authority(accounts, mint_authority)),
        None => None,
    }
}

} // verus!
