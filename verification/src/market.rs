//! Immediate buys and sells against the liquidity reserve.

use crate::address::Address;
use crate::curve::{
    buy_quote, lemma_spot_value_bounds, lemma_value_within_reserve, quote_buy, spot_value,
    value_at_spot,
};
use crate::error::CustomError;
use crate::fees::{
    allocate, allocation_of, get_immediate_fee_config, immediate_fee_config,
    lemma_allocation_conserves, lemma_schedule_settles_exactly, settle, settlement_of,
};
use crate::founders::{FoundersPool, PoolStep};
use crate::ledger::{
    check_referral_account, push_team_transfers, referral_account_error, team_transfers, Mint,
    TokenAccount, TokenInstruction,
};
use crate::records::{TokenMetadata, UserState};
use vstd::prelude::*;

verus! {

/// What an immediate buy touches.
#[derive(Clone, Debug, PartialEq, Eq)]
pub struct BuyToken {
    /// The buyer.
    pub user: Address,
    pub user_state: UserState,
    pub user_usdc_account: TokenAccount,
    pub user_token_account: TokenAccount,
    pub deployer_usdc_account: TokenAccount,
    /// The liquidity reserve.
    pub program_payment_token_account: TokenAccount,
    pub metadata: TokenMetadata,
    pub token_mint: Mint,
    pub mint_authority: Address,
    pub referral_usdc_account: Option<TokenAccount>,
    pub founders_pool: FoundersPool,
    pub founder_pool_token_account: TokenAccount,
}

/// What an immediate sell touches.
#[derive(Clone, Debug, PartialEq, Eq)]
pub struct SellToken {
    /// The seller.
    pub user: Address,
    pub user_state: UserState,
    pub user_token_account: TokenAccount,
    pub user_usdc_account: TokenAccount,
    pub deployer_usdc_account: TokenAccount,
    /// The liquidity reserve.
    pub program_payment_token_account: TokenAccount,
    pub metadata: TokenMetadata,
    pub token_mint: Mint,
    /// The authority that signs for the reserve.
    pub pool_authority: Address,
    pub referral_usdc_account: Option<TokenAccount>,
    pub founders_pool: FoundersPool,
    pub founder_pool_token_account: TokenAccount,
}

/// Why an immediate buy is rejected, if it is: the first of these that holds.
pub open spec fn buy_token_error(accounts: BuyToken) -> Option<CustomError> {
    if !accounts.user_state.has_pass {
        Some(CustomError::NoPass)
    } else if accounts.deployer_usdc_account.owner != accounts.metadata.deployer {
        Some(CustomError::InvalidDeployerAccount)
    } else if accounts.user_state.referral_set {
        referral_account_error(accounts.referral_usdc_account, accounts.user_state.referral)
    } else {
        None
    }
}

/// The tokens that an immediate buy of `amount` mints.
pub open spec fn buy_token_minted(accounts: BuyToken, amount: u64) -> int {
    buy_quote(
        accounts.program_payment_token_account.amount,
        accounts.token_mint.supply,
        amount,
        allocation_of(amount, immediate_fee_config()).usdc_for_tokens,
    )
}

/// The instructions of an immediate buy of `amount`, all paid by the buyer:
/// the team share, half of it rounded down to the bound referral where
/// there is one and the rest to the treasury; the founders' fee to the
/// pool; the rest to the reserve; and the mint to the buyer.
pub open spec fn buy_token_instructions(accounts: BuyToken, amount: u64) -> Seq<TokenInstruction> {
    let a = allocation_of(amount, immediate_fee_config());
    team_transfers(
        accounts.user_usdc_account.key,
        accounts.user,
        accounts.deployer_usdc_account.key,
        if accounts.user_state.referral_set {
            Some(accounts.referral_usdc_account->0.key)
        } else {
            None
        },
        a.team_share,
        (a.team_share / 2) as u64,
        (a.team_share - a.team_share / 2) as u64,
    ) + seq![
        TokenInstruction::Transfer {
            from: accounts.user_usdc_account.key,
            to: accounts.founder_pool_token_account.key,
            authority: accounts.user,
            amount: a.founder_fee,
        },
        TokenInstruction::Transfer {
            from: accounts.user_usdc_account.key,
            to: accounts.program_payment_token_account.key,
            authority: accounts.user,
            amount: (a.usdc_for_tokens + a.locked_share) as u64,
        },
        TokenInstruction::MintTo {
            mint: accounts.token_mint.key,
            to: accounts.user_token_account.key,
            authority: accounts.mint_authority,
            amount: buy_token_minted(accounts, amount) as u64,
        },
    ]
}

/// Buys tokens for `amount` payment units. The buyer must hold a pass. The
/// referral that shares the team fee is the one bound to the pass; naming
/// one here binds nothing.
pub fn buy_token(accounts: &mut BuyToken, amount: u64, _referral: Option<Address>) -> (r: Result<
    Vec<TokenInstruction>,
    CustomError,
>)
    requires
        old(accounts).founders_pool.total_collected + allocation_of(
            amount,
            immediate_fee_config(),
        ).founder_fee <= u64::MAX,
    ensures
        match r {
            Ok(instructions) => {
                &&& buy_token_error(*old(accounts)) is None
                &&& instructions@ == buy_token_instructions(*old(accounts), amount)
                &&& *final(accounts) == (BuyToken {
                    founders_pool: FoundersPool {
                        total_collected: (old(accounts).founders_pool.total_collected
                            + allocation_of(amount, immediate_fee_config()).founder_fee) as u64,
                        ..old(accounts).founders_pool
                    },
                    ..*old(accounts)
                })
            },
            Err(e) => buy_token_error(*old(accounts)) == Some(e)
                && *final(accounts) == *old(accounts),
        },
        final(accounts).founders_pool.extends(old(accounts).founders_pool),
        old(accounts).founders_pool.wf() ==> final(accounts).founders_pool.wf(),
        r is Ok ==> final(accounts).founders_pool@ == old(accounts).founders_pool@.step(
            PoolStep::Accrue(allocation_of(amount, immediate_fee_config()).founder_fee),
        ),
{
    if !accounts.user_state.has_pass {
        return Err(CustomError::NoPass);
    }
    if !accounts.deployer_usdc_account.owner.same(&accounts.metadata.deployer) {
        return Err(CustomError::InvalidDeployerAccount);
    }
    let referral_account: Option<Address> = if accounts.user_state.referral_set {
        match check_referral_account(
            &accounts.referral_usdc_account,
            &accounts.user_state.referral,
        ) {
            Ok(key) => Some(key),
            Err(e) => {
                return Err(e);
            },
        }
    } else {
        None
    };
    let a = allocate(amount, get_immediate_fee_config());
    let minted: u64 = quote_buy(
        accounts.program_payment_token_account.amount,
        accounts.token_mint.supply,
        amount,
        a.usdc_for_tokens,
    );
    let referral_share: u64 = a.team_share / 2;
    let mut instructions: Vec<TokenInstruction> = Vec::new();
    push_team_transfers(
        &mut instructions,
        accounts.user_usdc_account.key,
        accounts.user,
        accounts.deployer_usdc_account.key,
        referral_account,
        a.team_share,
        referral_share,
        a.team_share - referral_share,
    );
    instructions.push(
        TokenInstruction::Transfer {
            from: accounts.user_usdc_account.key,
            to: accounts.founder_pool_token_account.key,
            authority: accounts.user,
            amount: a.founder_fee,
        },
    );
    instructions.push(
        TokenInstruction::Transfer {
            from: accounts.user_usdc_account.key,
            to: accounts.program_payment_token_account.key,
            authority: accounts.user,
            amount: a.usdc_for_tokens + a.locked_share,
        },
    );
    instructions.push(
        TokenInstruction::MintTo {
            mint: accounts.token_mint.key,
            to: accounts.user_token_account.key,
            authority: accounts.mint_authority,
            amount: minted,
        },
    );
    assert(instructions@ =~= buy_token_instructions(*old(accounts), amount));
    accounts.founders_pool.accrue(a.founder_fee);
    Ok(instructions)
}

/// Why an immediate sell is rejected, if it is. No pass is asked for.
pub open spec fn sell_token_error(accounts: SellToken) -> Option<CustomError> {
    if accounts.user_state.referral_set {
        referral_account_error(accounts.referral_usdc_account, accounts.user_state.referral)
    } else {
        None
    }
}

/// What the `amount` tokens of an immediate sell are worth.
pub open spec fn sell_token_value(accounts: SellToken, amount: u64) -> u64 {
    spot_value(
        amount,
        accounts.program_payment_token_account.amount,
        accounts.token_mint.supply,
    ) as u64
}

/// The instructions of an immediate sell of `amount` tokens: the burn, and
/// then out of the reserve the team fee, half of it rounded down to the
/// bound referral where there is one and the rest to the treasury; the
/// founders' fee to the pool; and what is left to the seller. The locked
/// share stays in the reserve.
pub open spec fn sell_token_instructions(accounts: SellToken, amount: u64) -> Seq<
    TokenInstruction,
> {
    let s = settlement_of(sell_token_value(accounts, amount), immediate_fee_config());
    seq![
        TokenInstruction::Burn {
            mint: accounts.token_mint.key,
            from: accounts.user_token_account.key,
            authority: accounts.user,
            amount,
        },
    ] + team_transfers(
        accounts.program_payment_token_account.key,
        accounts.pool_authority,
        accounts.deployer_usdc_account.key,
        if accounts.user_state.referral_set {
            Some(accounts.referral_usdc_account->0.key)
        } else {
            None
        },
        s.team_fee,
        (s.team_fee / 2) as u64,
        (s.team_fee - s.team_fee / 2) as u64,
    ) + seq![
        TokenInstruction::Transfer {
            from: accounts.program_payment_token_account.key,
            to: accounts.founder_pool_token_account.key,
            authority: accounts.pool_authority,
            amount: s.founder_fee,
        },
        TokenInstruction::Transfer {
            from: accounts.program_payment_token_account.key,
            to: accounts.user_usdc_account.key,
            authority: accounts.pool_authority,
            amount: s.user_receives,
        },
    ]
}

/// Sells `amount` tokens at the spot price.
pub fn sell_token(accounts: &mut SellToken, amount: u64) -> (r: Result<
    Vec<TokenInstruction>,
    CustomError,
>)
    requires
        old(accounts).founders_pool.total_collected + settlement_of(
            sell_token_value(*old(accounts), amount),
            immediate_fee_config(),
        ).founder_fee <= u64::MAX,
    ensures
        match r {
            Ok(instructions) => {
                &&& sell_token_error(*old(accounts)) is None
                &&& instructions@ == sell_token_instructions(*old(accounts), amount)
                &&& *final(accounts) == (SellToken {
                    founders_pool: FoundersPool {
                        total_collected: (old(accounts).founders_pool.total_collected
                            + settlement_of(
                            sell_token_value(*old(accounts), amount),
                            immediate_fee_config(),
                        ).founder_fee) as u64,
                        ..old(accounts).founders_pool
                    },
                    ..*old(accounts)
                })
            },
            Err(e) => sell_token_error(*old(accounts)) == Some(e)
                && *final(accounts) == *old(accounts),
        },
        final(accounts).founders_pool.extends(old(accounts).founders_pool),
        old(accounts).founders_pool.wf() ==> final(accounts).founders_pool.wf(),
        r is Ok ==> final(accounts).founders_pool@ == old(accounts).founders_pool@.step(
            PoolStep::Accrue(
                settlement_of(
                    sell_token_value(*old(accounts), amount),
                    immediate_fee_config(),
                ).founder_fee,
            ),
        ),
{
    let referral_account: Option<Address> = if accounts.user_state.referral_set {
        match check_referral_account(
            &accounts.referral_usdc_account,
            &accounts.user_state.referral,
        ) {
            Ok(key) => Some(key),
            Err(e) => {
                return Err(e);
            },
        }
    } else {
        None
    };
    let value: u64 = value_at_spot(
        amount,
        accounts.program_payment_token_account.amount,
        accounts.token_mint.supply,
    );
    let s = settle(value, get_immediate_fee_config());
    let referral_share: u64 = s.team_fee / 2;
    let mut instructions: Vec<TokenInstruction> = Vec::new();
    instructions.push(
        TokenInstruction::Burn {
            mint: accounts.token_mint.key,
            from: accounts.user_token_account.key,
            authority: accounts.user,
            amount,
        },
    );
    push_team_transfers(
        &mut instructions,
        accounts.program_payment_token_account.key,
        accounts.pool_authority,
        accounts.deployer_usdc_account.key,
        referral_account,
        s.team_fee,
        referral_share,
        s.team_fee - referral_share,
    );
    instructions.push(
        TokenInstruction::Transfer {
            from: accounts.program_payment_token_account.key,
            to: accounts.founder_pool_token_account.key,
            authority: accounts.pool_authority,
            amount: s.founder_fee,
        },
    );
    instructions.push(
        TokenInstruction::Transfer {
            from: accounts.program_payment_token_account.key,
            to: accounts.user_usdc_account.key,
            authority: accounts.pool_authority,
            amount: s.user_receives,
        },
    );
    assert(instructions@ =~= sell_token_instructions(*old(accounts), amount));
    accounts.founders_pool.accrue(s.founder_fee);
    Ok(instructions)
}

/// An immediate sell pays out exactly what the tokens are worth less the
/// share that stays locked in the reserve: team fee, founders' fee and the
/// seller's part together are the value less the locked share.
pub proof fn lemma_sell_pays_out_value(value: u64)
    ensures
        ({
            let s = settlement_of(value, immediate_fee_config());
            s.team_fee + s.founder_fee + s.user_receives == value - s.liquidity_fee
        }),
{
    lemma_schedule_settles_exactly(value, 0);
}

/// A sale of tokens that are part of the supply never asks the reserve for
/// more than it holds.
pub proof fn lemma_sell_within_reserve(accounts: SellToken, amount: u64)
    requires
        amount <= accounts.token_mint.supply,
    ensures
        ({
            let s = settlement_of(sell_token_value(accounts, amount), immediate_fee_config());
            s.team_fee + s.founder_fee + s.user_receives
                <= accounts.program_payment_token_account.amount
        }),
{
    lemma_spot_value_bounds(
        amount,
        accounts.program_payment_token_account.amount,
        accounts.token_mint.supply,
    );
    lemma_value_within_reserve(
        amount,
        accounts.program_payment_token_account.amount,
        accounts.token_mint.supply,
    );
    lemma_sell_pays_out_value(sell_token_value(accounts, amount));
}

/// An immediate buy spends exactly the payment: team share, founders' fee
/// and what goes to the reserve together are the amount paid.
pub proof fn lemma_buy_spends_amount(amount: u64)
    ensures
        ({
            let a = allocation_of(amount, immediate_fee_config());
            a.team_share + a.founder_fee + (a.usdc_for_tokens + a.locked_share) == amount
        }),
{
    lemma_allocation_conserves(amount, immediate_fee_config());
}

} // verus!
