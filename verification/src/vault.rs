//! Locked positions: tokens bought into custody for a fixed period, paid
//! out at the spot price when the period is over, or earlier at a penalty.
//!
//! A user's position is either empty or locked. A lock purchase takes it
//! from empty to locked; a claim or an early unlock takes it back.

use crate::address::Address;
use crate::curve::{
    lemma_spot_value_bounds, lemma_value_within_reserve, lock_quote, quote_lock, spot_value,
    value_at_spot,
};
use crate::error::CustomError;
use crate::fees::{
    allocate, allocation_of, get_lock_fee_config, lemma_early_unlock_costs_user,
    lemma_schedule_settles_exactly, lock_fee_config, settle, settlement_of, Settlement,
};
use crate::founders::{FoundersPool, PoolStep};
use crate::ledger::{
    check_referral_account, push_team_transfers, referral_account_error, team_transfers, Mint,
    TokenAccount, TokenInstruction,
};
use crate::records::LockedTokenState;
use vstd::prelude::*;

verus! {

/// Seconds in a day.
pub const SECONDS_PER_DAY: i64 = 86_400;

/// What the creation of a user's custody account touches.
#[derive(Clone, Copy, Debug, PartialEq, Eq)]
pub struct InitializeUserVault {
    pub user: Address,
    pub vault_authority: Address,
    pub vault_token_account: Address,
    pub token_mint: Mint,
}

/// What a lock purchase touches.
#[derive(Clone, Debug, PartialEq, Eq)]
pub struct BuyAndLockToken {
    /// The buyer.
    pub user: Address,
    pub lock_state: LockedTokenState,
    pub user_usdc_account: TokenAccount,
    pub deployer_usdc_account: TokenAccount,
    /// The liquidity reserve.
    pub program_payment_token_account: TokenAccount,
    pub token_mint: Mint,
    pub mint_authority: Address,
    /// The buyer's custody account.
    pub vault_token_account: TokenAccount,
    pub vault_authority: Address,
    pub referral_usdc_account: Option<TokenAccount>,
    pub founders_pool: FoundersPool,
    pub founder_pool_token_account: TokenAccount,
}

/// What the claim of a position touches.
#[derive(Clone, Copy, Debug, PartialEq, Eq)]
pub struct ClaimLockedTokens {
    /// The authority that signs for the reserve.
    pub pool_authority: Address,
    /// The position's owner.
    pub user: Address,
    pub lock_state: LockedTokenState,
    pub vault_authority: Address,
    pub vault_token_account: TokenAccount,
    pub user_usdc_account: TokenAccount,
    pub deployer_usdc_account: TokenAccount,
    /// The liquidity reserve.
    pub program_payment_token_account: TokenAccount,
    pub token_mint: Mint,
    pub founder_pool_token_account: TokenAccount,
}

/// What an early unlock touches.
#[derive(Clone, Copy, Debug, PartialEq, Eq)]
pub struct EarlyUnlockTokens {
    /// The position's owner.
    pub user: Address,
    pub lock_state: LockedTokenState,
    pub vault_authority: Address,
    pub vault_token_account: TokenAccount,
    pub user_usdc_account: TokenAccount,
    pub deployer_usdc_account: TokenAccount,
    /// The liquidity reserve.
    pub program_payment_token_account: TokenAccount,
    pub token_mint: Mint,
    /// The authority that signs for the reserve.
    pub pool_authority: Address,
    pub founder_pool_token_account: TokenAccount,
}

/// The lock periods on offer, in days.
pub open spec fn valid_lock_days(lock_days: u64) -> bool {
    lock_days == 3 || lock_days == 7 || lock_days == 14 || lock_days == 31 || lock_days == 60
        || lock_days == 90
}

/// Whether `lock_days` is a lock period on offer.
pub fn is_valid_lock_days(lock_days: u64) -> (r: bool)
    ensures
        r == valid_lock_days(lock_days),
{
    lock_days == 3 || lock_days == 7 || lock_days == 14 || lock_days == 31 || lock_days == 60
        || lock_days == 90
}

/// The instruction that creates a user's custody account.
pub fn initialize_user_vault(accounts: &InitializeUserVault) -> (r: Result<
    Vec<TokenInstruction>,
    CustomError,
>)
    ensures
        r is Ok,
        r->Ok_0@ == seq![
            TokenInstruction::CreateAssociatedAccount {
                payer: accounts.user,
                associated_token: accounts.vault_token_account,
                authority: accounts.vault_authority,
                mint: accounts.token_mint.key,
            },
        ],
{
    let mut instructions: Vec<TokenInstruction> = Vec::new();
    instructions.push(
        TokenInstruction::CreateAssociatedAccount {
            payer: accounts.user,
            associated_token: accounts.vault_token_account,
            authority: accounts.vault_authority,
            mint: accounts.token_mint.key,
        },
    );
    Ok(instructions)
}

/// Why a lock purchase is rejected, if it is: the first of these that holds.
pub open spec fn buy_and_lock_error(
    accounts: BuyAndLockToken,
    lock_days: u64,
    referral: Option<Address>,
) -> Option<CustomError> {
    if accounts.lock_state.initialized {
        Some(CustomError::AlreadyInitialized)
    } else if !valid_lock_days(lock_days) {
        Some(CustomError::InvalidLockPeriod)
    } else {
        match referral {
            Some(r) => referral_account_error(accounts.referral_usdc_account, r),
            None => None,
        }
    }
}

/// The tokens that a lock purchase of `amount` mints into custody.
pub open spec fn buy_and_lock_minted(
    accounts: BuyAndLockToken,
    amount: u64,
    lock_days: u64,
) -> int {
    lock_quote(
        accounts.program_payment_token_account.amount,
        accounts.token_mint.supply,
        allocation_of(amount, lock_fee_config(lock_days)).usdc_for_tokens,
    )
}

/// The instructions of a lock purchase, all paid by the buyer: the team
/// share, to the treasury, or where a referral is named half of it rounded
/// down to the referral and as much to the treasury; the founders' fee to
/// the pool; the rest to the reserve; and the mint into custody.
pub open spec fn buy_and_lock_instructions(
    accounts: BuyAndLockToken,
    amount: u64,
    lock_days: u64,
    referral: Option<Address>,
) -> Seq<TokenInstruction> {
    let a = allocation_of(amount, lock_fee_config(lock_days));
    team_transfers(
        accounts.user_usdc_account.key,
        accounts.user,
        accounts.deployer_usdc_account.key,
        if referral is Some {
            Some(accounts.referral_usdc_account->0.key)
        } else {
            None
        },
        a.team_share,
        (a.team_share / 2) as u64,
        (a.team_share / 2) as u64,
    ) + seq![
        TokenInstruction::Transfer {
            from: accounts.user_usdc_account.key,
            to: accounts.founder_pool_token_account.key,
            authority: accounts.user,
            amount: a.founder_fee,
        },
        TokenInstruction::Transfer {
            from: accounts.user_usdc_account.key,
            to: accounts.program_payment_token_account.key,
            authority: accounts.user,
            amount: (a.usdc_for_tokens + a.locked_share) as u64,
        },
        TokenInstruction::MintTo {
            mint: accounts.token_mint.key,
            to: accounts.vault_token_account.key,
            authority: accounts.mint_authority,
            amount: buy_and_lock_minted(accounts, amount, lock_days) as u64,
        },
    ]
}

/// The position that a lock purchase at time `now` records.
pub open spec fn locked_position(
    accounts: BuyAndLockToken,
    amount: u64,
    lock_days: u64,
    referral: Option<Address>,
    now: i64,
) -> LockedTokenState {
    LockedTokenState {
        user: accounts.user,
        amount: buy_and_lock_minted(accounts, amount, lock_days) as u64,
        unlock_time: (now + lock_days * 86_400) as i64,
        referral,
        initialized: true,
        lock_days,
    }
}

/// Buys tokens for `amount` payment units at time `now` and locks them for
/// `lock_days` days. A user with an active position cannot lock again.
pub fn buy_and_lock_token(
    accounts: &mut BuyAndLockToken,
    amount: u64,
    lock_days: u64,
    referral: Option<Address>,
    now: i64,
) -> (r: Result<Vec<TokenInstruction>, CustomError>)
    requires
        valid_lock_days(lock_days) ==> now + lock_days * 86_400 <= i64::MAX,
        old(accounts).founders_pool.total_collected + allocation_of(
            amount,
            lock_fee_config(lock_days),
        ).founder_fee <= u64::MAX,
    ensures
        match r {
            Ok(instructions) => {
                &&& buy_and_lock_error(*old(accounts), lock_days, referral) is None
                &&& instructions@ == buy_and_lock_instructions(
                    *old(accounts),
                    amount,
                    lock_days,
                    referral,
                )
                &&& *final(accounts) == (BuyAndLockToken {
                    lock_state: locked_position(*old(accounts), amount, lock_days, referral, now),
                    founders_pool: FoundersPool {
                        total_collected: (old(accounts).founders_pool.total_collected
                            + allocation_of(amount, lock_fee_config(lock_days)).founder_fee) as u64,
                        ..old(accounts).founders_pool
                    },
                    ..*old(accounts)
                })
            },
            Err(e) => buy_and_lock_error(*old(accounts), lock_days, referral) == Some(e)
                && *final(accounts) == *old(accounts),
        },
        old(accounts).lock_state.initialized ==> r is Err && *final(accounts) == *old(accounts),
        final(accounts).founders_pool.extends(old(accounts).founders_pool),
        old(accounts).founders_pool.wf() ==> final(accounts).founders_pool.wf(),
        r is Ok ==> final(accounts).founders_pool@ == old(accounts).founders_pool@.step(
            PoolStep::Accrue(allocation_of(amount, lock_fee_config(lock_days)).founder_fee),
        ),
        old(accounts).lock_state.valid() ==> final(accounts).lock_state.valid(),
{
    if accounts.lock_state.initialized {
        return Err(CustomError::AlreadyInitialized);
    }
    if !is_valid_lock_days(lock_days) {
        return Err(CustomError::InvalidLockPeriod);
    }
    let referral_account: Option<Address> = match referral {
        Some(ref_address) => {
            match check_referral_account(&accounts.referral_usdc_account, &ref_address) {
                Ok(key) => Some(key),
                Err(e) => {
                    return Err(e);
                },
            }
        },
        None => None,
    };
    let a = allocate(amount, get_lock_fee_config(lock_days));
    let minted: u64 = quote_lock(
        accounts.program_payment_token_account.amount,
        accounts.token_mint.supply,
        a.usdc_for_tokens,
    );
    let mut instructions: Vec<TokenInstruction> = Vec::new();
    push_team_transfers(
        &mut instructions,
        accounts.user_usdc_account.key,
        accounts.user,
        accounts.deployer_usdc_account.key,
        referral_account,
        a.team_share,
        a.team_share / 2,
        a.team_share / 2,
    );
    instructions.push(
        TokenInstruction::Transfer {
            from: accounts.user_usdc_account.key,
            to: accounts.founder_pool_token_account.key,
            authority: accounts.user,
            amount: a.founder_fee,
        },
    );
    instructions.push(
        TokenInstruction::Transfer {
            from: accounts.user_usdc_account.key,
            to: accounts.program_payment_token_account.key,
            authority: accounts.user,
            amount: a.usdc_for_tokens + a.locked_share,
        },
    );
    instructions.push(
        TokenInstruction::MintTo {
            mint: accounts.token_mint.key,
            to: accounts.vault_token_account.key,
            authority: accounts.mint_authority,
            amount: minted,
        },
    );
    assert(instructions@ =~= buy_and_lock_instructions(
        *old(accounts),
        amount,
        lock_days,
        referral,
    ));
    accounts.founders_pool.accrue(a.founder_fee);
    accounts.lock_state =
    LockedTokenState {
        user: accounts.user,
        amount: minted,
        unlock_time: now + (lock_days as i64) * SECONDS_PER_DAY,
        referral,
        initialized: true,
        lock_days,
    };
    Ok(instructions)
}

/// The instructions that pay a position of `tokens` out under the
/// settlement `s`: the burn out of custody, and then out of the reserve the
/// founders' fee to the pool's account, the team fee to the treasury, and
/// the owner's part to the owner. The liquidity fee stays in the reserve.
pub open spec fn release_instructions(
    token_mint: Address,
    vault_token_account: Address,
    vault_authority: Address,
    reserve: Address,
    pool_authority: Address,
    founder_pool_token_account: Address,
    deployer_usdc_account: Address,
    user_usdc_account: Address,
    tokens: u64,
    s: Settlement,
) -> Seq<TokenInstruction> {
    seq![
        TokenInstruction::Burn {
            mint: token_mint,
            from: vault_token_account,
            authority: vault_authority,
            amount: tokens,
        },
        TokenInstruction::Transfer {
            from: reserve,
            to: founder_pool_token_account,
            authority: pool_authority,
            amount: s.founder_fee,
        },
        TokenInstruction::Transfer {
            from: reserve,
            to: deployer_usdc_account,
            authority: pool_authority,
            amount: s.team_fee,
        },
        TokenInstruction::Transfer {
            from: reserve,
            to: user_usdc_account,
            authority: pool_authority,
            amount: s.user_receives,
        },
    ]
}

/// Builds the instructions that pay a position out.
pub fn release(
    token_mint: Address,
    vault_token_account: Address,
    vault_authority: Address,
    reserve: Address,
    pool_authority: Address,
    founder_pool_token_account: Address,
    deployer_usdc_account: Address,
    user_usdc_account: Address,
    tokens: u64,
    s: Settlement,
) -> (instructions: Vec<TokenInstruction>)
    ensures
        instructions@ == release_instructions(
            token_mint,
            vault_token_account,
            vault_authority,
            reserve,
            pool_authority,
            founder_pool_token_account,
            deployer_usdc_account,
            user_usdc_account,
            tokens,
            s,
        ),
{
    let mut instructions: Vec<TokenInstruction> = Vec::new();
    instructions.push(
        TokenInstruction::Burn {
            mint: token_mint,
            from: vault_token_account,
            authority: vault_authority,
            amount: tokens,
        },
    );
    instructions.push(
        TokenInstruction::Transfer {
            from: reserve,
            to: founder_pool_token_account,
            authority: pool_authority,
            amount: s.founder_fee,
        },
    );
    instructions.push(
        TokenInstruction::Transfer {
            from: reserve,
            to: deployer_usdc_account,
            authority: pool_authority,
            amount: s.team_fee,
        },
    );
    instructions.push(
        TokenInstruction::Transfer {
            from: reserve,
            to: user_usdc_account,
            authority: pool_authority,
            amount: s.user_receives,
        },
    );
    assert(instructions@ =~= release_instructions(
        token_mint,
        vault_token_account,
        vault_authority,
        reserve,
        pool_authority,
        founder_pool_token_account,
        deployer_usdc_account,
        user_usdc_account,
        tokens,
        s,
    ));
    instructions
}

/// The position once it is paid out: inactive and empty.
pub open spec fn cleared(position: LockedTokenState) -> LockedTokenState {
    LockedTokenState { initialized: false, amount: 0, ..position }
}

/// Why a claim at time `now` is rejected, if it is.
pub open spec fn claim_locked_error(accounts: ClaimLockedTokens, now: i64) -> Option<CustomError> {
    if !accounts.lock_state.initialized {
        Some(CustomError::AlreadyClaimed)
    } else if now < accounts.lock_state.unlock_time {
        Some(CustomError::LockPeriodNotOver)
    } else {
        None
    }
}

/// How a claim is settled: the position's tokens at the spot price now,
/// under the fees of the period it was locked for.
pub open spec fn claim_locked_settlement(accounts: ClaimLockedTokens) -> Settlement {
    settlement_of(
        spot_value(
            accounts.lock_state.amount,
            accounts.program_payment_token_account.amount,
            accounts.token_mint.supply,
        ) as u64,
        lock_fee_config(accounts.lock_state.lock_days),
    )
}

/// Pays a position out once its lock is over. Anyone may ask for it; the
/// owner is paid.
pub fn claim_locked_tokens(accounts: &mut ClaimLockedTokens, now: i64) -> (r: Result<
    Vec<TokenInstruction>,
    CustomError,
>)
    ensures
        match r {
            Ok(instructions) => {
                &&& claim_locked_error(*old(accounts), now) is None
                &&& instructions@ == release_instructions(
                    old(accounts).token_mint.key,
                    old(accounts).vault_token_account.key,
                    old(accounts).vault_authority,
                    old(accounts).program_payment_token_account.key,
                    old(accounts).pool_authority,
                    old(accounts).founder_pool_token_account.key,
                    old(accounts).deployer_usdc_account.key,
                    old(accounts).user_usdc_account.key,
                    old(accounts).lock_state.amount,
                    claim_locked_settlement(*old(accounts)),
                )
                &&& *final(accounts) == (ClaimLockedTokens {
                    lock_state: cleared(old(accounts).lock_state),
                    ..*old(accounts)
                })
            },
            Err(e) => claim_locked_error(*old(accounts), now) == Some(e) && *final(accounts)
                == *old(accounts),
        },
        old(accounts).lock_state.valid() ==> final(accounts).lock_state.valid(),
{
    if !accounts.lock_state.initialized {
        return Err(CustomError::AlreadyClaimed);
    }
    if now < accounts.lock_state.unlock_time {
        return Err(CustomError::LockPeriodNotOver);
    }
    let token_amount: u64 = accounts.lock_state.amount;
    let config = get_lock_fee_config(accounts.lock_state.lock_days);
    let value: u64 = value_at_spot(
        token_amount,
        accounts.program_payment_token_account.amount,
        accounts.token_mint.supply,
    );
    let s = settle(value, config);
    let instructions = release(
        accounts.token_mint.key,
        accounts.vault_token_account.key,
        accounts.vault_authority,
        accounts.program_payment_token_account.key,
        accounts.pool_authority,
        accounts.founder_pool_token_account.key,
        accounts.deployer_usdc_account.key,
        accounts.user_usdc_account.key,
        token_amount,
        s,
    );
    accounts.lock_state.initialized = false;
    accounts.lock_state.amount = 0;
    Ok(instructions)
}

/// Why an early unlock is rejected, if it is.
pub open spec fn early_unlock_error(accounts: EarlyUnlockTokens) -> Option<CustomError> {
    if !accounts.lock_state.initialized {
        Some(CustomError::AlreadyClaimed)
    } else {
        None
    }
}

/// How an early unlock is settled: as a claim is, with the penalty added to
/// the team fee.
pub open spec fn early_unlock_settlement(accounts: EarlyUnlockTokens) -> Settlement {
    settlement_of(
        spot_value(
            accounts.lock_state.amount,
            accounts.program_payment_token_account.amount,
            accounts.token_mint.supply,
        ) as u64,
        lock_fee_config(accounts.lock_state.lock_days).penalized(),
    )
}

/// Pays a position out before or after its lock is over, at a penalty.
pub fn early_unlock_tokens(accounts: &mut EarlyUnlockTokens) -> (r: Result<
    Vec<TokenInstruction>,
    CustomError,
>)
    ensures
        match r {
            Ok(instructions) => {
                &&& early_unlock_error(*old(accounts)) is None
                &&& instructions@ == release_instructions(
                    old(accounts).token_mint.key,
                    old(accounts).vault_token_account.key,
                    old(accounts).vault_authority,
                    old(accounts).program_payment_token_account.key,
                    old(accounts).pool_authority,
                    old(accounts).founder_pool_token_account.key,
                    old(accounts).deployer_usdc_account.key,
                    old(accounts).user_usdc_account.key,
                    old(accounts).lock_state.amount,
                    early_unlock_settlement(*old(accounts)),
                )
                &&& *final(accounts) == (EarlyUnlockTokens {
                    lock_state: cleared(old(accounts).lock_state),
                    ..*old(accounts)
                })
            },
            Err(e) => early_unlock_error(*old(accounts)) == Some(e)
                && *final(accounts) == *old(accounts),
        },
        old(accounts).lock_state.valid() ==> final(accounts).lock_state.valid(),
{
    if !accounts.lock_state.initialized {
        return Err(CustomError::AlreadyClaimed);
    }
    let token_amount: u64 = accounts.lock_state.amount;
    let config = get_lock_fee_config(accounts.lock_state.lock_days).with_early_unlock_penalty();
    let value: u64 = value_at_spot(
        token_amount,
        accounts.program_payment_token_account.amount,
        accounts.token_mint.supply,
    );
    let s = settle(value, config);
    let instructions = release(
        accounts.token_mint.key,
        accounts.vault_token_account.key,
        accounts.vault_authority,
        accounts.program_payment_token_account.key,
        accounts.pool_authority,
        accounts.founder_pool_token_account.key,
        accounts.deployer_usdc_account.key,
        accounts.user_usdc_account.key,
        token_amount,
        s,
    );
    accounts.lock_state.initialized = false;
    accounts.lock_state.amount = 0;
    Ok(instructions)
}

/// At one moment, for one position, an early unlock pays the team at least
/// what a claim would, the founders and the reserve the same, and the
/// owner no more; and either way the four parts are the position's value.
pub proof fn lemma_early_unlock_never_beats_claim(
    claim: ClaimLockedTokens,
    early: EarlyUnlockTokens,
)
    requires
        claim.lock_state == early.lock_state,
        claim.program_payment_token_account.amount == early.program_payment_token_account.amount,
        claim.token_mint.supply == early.token_mint.supply,
    ensures
        early_unlock_settlement(early).team_fee >= claim_locked_settlement(claim).team_fee,
        early_unlock_settlement(early).founder_fee == claim_locked_settlement(claim).founder_fee,
        early_unlock_settlement(early).liquidity_fee
            == claim_locked_settlement(claim).liquidity_fee,
        early_unlock_settlement(early).user_receives
            <= claim_locked_settlement(claim).user_receives,
        ({
            let s = claim_locked_settlement(claim);
            s.team_fee + s.founder_fee + s.liquidity_fee + s.user_receives == spot_value(
                claim.lock_state.amount,
                claim.program_payment_token_account.amount,
                claim.token_mint.supply,
            )
        }),
        ({
            let s = early_unlock_settlement(early);
            s.team_fee + s.founder_fee + s.liquidity_fee + s.user_receives == spot_value(
                claim.lock_state.amount,
                claim.program_payment_token_account.amount,
                claim.token_mint.supply,
            )
        }),
{
    let value = spot_value(
        claim.lock_state.amount,
        claim.program_payment_token_account.amount,
        claim.token_mint.supply,
    );
    lemma_spot_value_bounds(
        claim.lock_state.amount,
        claim.program_payment_token_account.amount,
        claim.token_mint.supply,
    );
    lemma_early_unlock_costs_user(value as u64, claim.lock_state.lock_days);
    lemma_schedule_settles_exactly(value as u64, claim.lock_state.lock_days);
}

/// Paying out a position whose tokens are part of the supply, at its time
/// or early, never asks the reserve for more than it holds.
pub proof fn lemma_release_within_reserve(claim: ClaimLockedTokens, early: EarlyUnlockTokens)
    requires
        claim.lock_state == early.lock_state,
        claim.program_payment_token_account.amount == early.program_payment_token_account.amount,
        claim.token_mint.supply == early.token_mint.supply,
        claim.lock_state.amount <= claim.token_mint.supply,
    ensures
        ({
            let s = claim_locked_settlement(claim);
            s.team_fee + s.founder_fee + s.user_receives
                <= claim.program_payment_token_account.amount
        }),
        ({
            let s = early_unlock_settlement(early);
            s.team_fee + s.founder_fee + s.user_receives
                <= early.program_payment_token_account.amount
        }),
{
    lemma_early_unlock_never_beats_claim(claim, early);
    lemma_value_within_reserve(
        claim.lock_state.amount,
        claim.program_payment_token_account.amount,
        claim.token_mint.supply,
    );
}

} // verus!
