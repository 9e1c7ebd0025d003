//! The founders' pool: founders' fees accrue to it, and each enrolled
//! founder may claim one sixtieth of all that was ever collected.

use crate::address::Address;
use crate::error::CustomError;
use crate::ledger::{TokenAccount, TokenInstruction};
use crate::records::TokenMetadata;
use vstd::prelude::*;

verus! {

/// The number of founder slots. Entitlements are always one part in this
/// many, however many founders are enrolled.
pub const FOUNDER_SLOTS: usize = 60;

/// The pool as contracts see it.
pub struct PoolView {
    /// All founders' fees ever collected.
    pub total_collected: int,
    /// The enrolled founders, in the order in which they were enrolled.
    pub roster: Seq<Address>,
    /// What each of the sixty slots has been paid so far.
    pub claimed: Seq<u64>,
}

/// One step in the life of the pool.
pub enum PoolStep {
    /// Founders' fees arrive.
    Accrue(u64),
    /// A founder is enrolled.
    Add(Address),
    /// A founder claims.
    Claim(Address),
}

impl PoolView {
    /// The roster fits the slots, every slot has a payment count, and the
    /// slots beyond the roster are unpaid.
    pub open spec fn wf(self) -> bool {
        &&& 0 <= self.total_collected <= u64::MAX
        &&& self.roster.len() <= 60
        &&& self.claimed.len() == 60
        &&& forall|i: int| self.roster.len() <= i < 60 ==> #[trigger] self.claimed[i] == 0
    }

    /// What every slot is entitled to in all: one sixtieth of what was
    /// collected, however many founders are enrolled.
    pub open spec fn entitlement(self) -> int {
        self.total_collected / 60
    }

    /// What a slot can claim now: its entitlement less what it was paid, and
    /// nothing where it was paid more.
    pub open spec fn claimable(self, slot: int) -> int {
        if self.entitlement() > self.claimed[slot] {
            self.entitlement() - self.claimed[slot]
        } else {
            0
        }
    }

    /// The pool after one step. A step that is rejected, or that the pool
    /// cannot hold, leaves it as it is.
    pub open spec fn step(self, s: PoolStep) -> PoolView {
        match s {
            PoolStep::Accrue(amount) => if self.total_collected + amount <= u64::MAX {
                PoolView { total_collected: self.total_collected + amount, ..self }
            } else {
                self
            },
            PoolStep::Add(founder) => if self.roster.len() < 60 {
                PoolView { roster: self.roster.push(founder), ..self }
            } else {
                self
            },
            PoolStep::Claim(founder) => match self.roster.index_of_first(founder) {
                Some(slot) => if self.claimable(slot) > 0 {
                    PoolView {
                        claimed: self.claimed.update(slot, self.entitlement() as u64),
                        ..self
                    }
                } else {
                    self
                },
                None => self,
            },
        }
    }

    /// The pool after a sequence of steps.
    pub open spec fn run(self, steps: Seq<PoolStep>) -> PoolView
        decreases steps.len(),
    {
        if steps.len() == 0 {
            self
        } else {
            self.run(steps.drop_last()).step(steps.last())
        }
    }

    /// The pool has only moved forward since `earlier`: nothing collected
    /// was lost, no slot's payments shrank, and the founders enrolled then
    /// still hold their slots.
    pub open spec fn extends(self, earlier: PoolView) -> bool {
        &&& self.total_collected >= earlier.total_collected
        &&& self.roster.len() >= earlier.roster.len()
        &&& forall|i: int|
            0 <= i < earlier.roster.len() ==> #[trigger] self.roster[i] == earlier.roster[i]
        &&& forall|i: int| 0 <= i < 60 ==> #[trigger] self.claimed[i] >= earlier.claimed[i]
    }

    /// What can be claimed is never negative.
    pub proof fn lemma_claimable_nonnegative(self, slot: int)
        ensures
            self.claimable(slot) >= 0,
    {
    }

    /// One step keeps the pool well formed and only moves it forward.
    pub proof fn lemma_step_extends(self, s: PoolStep)
        requires
            self.wf(),
        ensures
            self.step(s).wf(),
            self.step(s).extends(self),
    {
        match s {
            PoolStep::Claim(founder) => {
                self.roster.index_of_first_ensures(founder);
            },
            _ => {},
        }
    }

    /// Moving forward twice is moving forward.
    pub proof fn lemma_extends_transitive(self, middle: PoolView, earlier: PoolView)
        requires
            self.extends(middle),
            middle.extends(earlier),
        ensures
            self.extends(earlier),
    {
        assert forall|i: int| 0 <= i < 60 implies #[trigger] self.claimed[i]
            >= earlier.claimed[i] by {
            assert(middle.claimed[i] >= earlier.claimed[i]);
        }
        assert forall|i: int| 0 <= i < earlier.roster.len() implies #[trigger] self.roster[i]
            == earlier.roster[i] by {
            assert(middle.roster[i] == earlier.roster[i]);
        }
    }

    /// Whatever the steps, the pool stays well formed and never moves back:
    /// what was collected never shrinks, no slot's payments shrink, and no
    /// founder loses their slot.
    pub proof fn lemma_run_extends(self, steps: Seq<PoolStep>)
        requires
            self.wf(),
        ensures
            self.run(steps).wf(),
            self.run(steps).extends(self),
        decreases steps.len(),
    {
        if steps.len() > 0 {
            let before = self.run(steps.drop_last());
            self.lemma_run_extends(steps.drop_last());
            before.lemma_step_extends(steps.last());
            before.step(steps.last()).lemma_extends_transitive(before, self);
        }
    }
}

/// The founders' pool.
#[derive(Clone, Debug, PartialEq, Eq)]
pub struct FoundersPool {
    /// All founders' fees ever collected.
    pub total_collected: u64,
    /// One entry per slot; the first `founder_count` are the roster.
    pub founders: Vec<Address>,
    /// What each slot has been paid so far.
    pub claim_status: Vec<u64>,
    pub founder_count: u8,
}

impl View for FoundersPool {
    type V = PoolView;

    open spec fn view(&self) -> PoolView {
        PoolView {
            total_collected: self.total_collected as int,
            roster: self.founders@.take(self.founder_count as int),
            claimed: self.claim_status@,
        }
    }
}

impl FoundersPool {
    /// Both tables have one entry per slot, and the slots beyond the roster
    /// are empty and unpaid.
    pub open spec fn wf(&self) -> bool {
        &&& self.founders@.len() == 60
        &&& self.claim_status@.len() == 60
        &&& self.founder_count <= 60
        &&& forall|i: int|
            self.founder_count <= i < 60 ==> #[trigger] self.founders@[i] == Address::zero()
        &&& forall|i: int| self.founder_count <= i < 60 ==> #[trigger] self.claim_status@[i] == 0
    }

    /// The enrolled founders, in the order in which they were enrolled.
    pub open spec fn roster(&self) -> Seq<Address> {
        self@.roster
    }

    /// The slot of a founder: the first place of the address on the roster.
    pub open spec fn slot_of(&self, founder: Address) -> Option<int> {
        self@.roster.index_of_first(founder)
    }

    /// What every slot is entitled to in all.
    pub open spec fn entitlement(&self) -> int {
        self@.entitlement()
    }

    /// What a slot can claim now: its entitlement less what it was paid, and
    /// nothing where it was paid more.
    pub open spec fn claimable(&self, slot: int) -> int {
        self@.claimable(slot)
    }

    /// The pool has only moved forward since `earlier`.
    pub open spec fn extends(&self, earlier: FoundersPool) -> bool {
        self@.extends(earlier@)
    }

    /// A well-formed pool is well formed as contracts see it.
    pub proof fn lemma_view_wf(&self)
        requires
            self.wf(),
        ensures
            self@.wf(),
    {
    }

    /// Checks that the pool is well formed.
    pub fn is_wf(&self) -> (r: bool)
        ensures
            r == self.wf(),
    {
        if self.founders.len() != 60 || self.claim_status.len() != 60 || self.founder_count > 60 {
            return false;
        }
        let empty = Address::default();
        let mut i: usize = self.founder_count as usize;
        while i < 60
            invariant
                self.founders@.len() == 60,
                self.claim_status@.len() == 60,
                self.founder_count <= i <= 60,
                empty == Address::zero(),
                forall|j: int|
                    self.founder_count <= j < i ==> #[trigger] self.founders@[j] == Address::zero(),
                forall|j: int|
                    self.founder_count <= j < i ==> #[trigger] self.claim_status@[j] == 0,
            decreases 60 - i,
        {
            if !self.founders[i].same(&empty) || self.claim_status[i] != 0 {
                return false;
            }
            i = i + 1;
        }
        true
    }

    /// An empty pool.
    pub fn new() -> (pool: FoundersPool)
        ensures
            pool.wf(),
            pool.total_collected == 0,
            pool.founder_count == 0,
            pool.roster() =~= Seq::<Address>::empty(),
    {
        let founders: Vec<Address> = vec![Address::default(); 60];
        let claim_status: Vec<u64> = vec![0u64; 60];
        FoundersPool { total_collected: 0, founders, claim_status, founder_count: 0 }
    }

    /// Adds `amount` to what was collected.
    pub fn accrue(&mut self, amount: u64)
        requires
            old(self).total_collected + amount <= u64::MAX,
        ensures
            final(self).total_collected == old(self).total_collected + amount,
            final(self).founders == old(self).founders,
            final(self).claim_status == old(self).claim_status,
            final(self).founder_count == old(self).founder_count,
            old(self).wf() ==> final(self).wf(),
            final(self)@ == old(self)@.step(PoolStep::Accrue(amount)),
            final(self).extends(*old(self)),
    {
        self.total_collected = self.total_collected + amount;
    }

    /// Finds the slot of `founder`.
    pub fn find_slot(&self, founder: &Address) -> (slot: Option<usize>)
        requires
            self.wf(),
        ensures
            match slot {
                Some(i) => self.slot_of(*founder) == Some(i as int) && i < self.founder_count,
                None => self.slot_of(*founder) is None,
            },
    {
        let count: usize = self.founder_count as usize;
        let mut i: usize = 0;
        while i < count
            invariant
                self.wf(),
                count == self.founder_count,
                i <= count,
                forall|j: int| 0 <= j < i ==> self.roster()[j] != *founder,
            decreases count - i,
        {
            if self.founders[i].same(founder) {
                proof {
                    let roster = self.roster();
                    roster.index_of_first_ensures(*founder);
                    assert(roster[i as int] == *founder);
                    assert(roster.contains(*founder));
                    let first = roster.index_of_first(*founder).unwrap();
                    assert(roster[first] == *founder);
                    if first < i {
                        assert(roster[first] != *founder);
                    }
                    if i < first {
                        assert(roster[i as int] != *founder);
                    }
                }
                return Some(i);
            }
            i = i + 1;
        }
        proof {
            self.roster().index_of_first_ensures(*founder);
        }
        None
    }

    /// What `slot` can claim now.
    pub fn claimable_now(&self, slot: usize) -> (amount: u64)
        requires
            self.wf(),
            slot < 60,
        ensures
            amount == self.claimable(slot as int),
    {
        let total_per_founder: u64 = self.total_collected / 60;
        let already_claimed: u64 = self.claim_status[slot];
        if total_per_founder > already_claimed {
            total_per_founder - already_claimed
        } else {
            0
        }
    }

    /// Enrols `founder` in the next free slot.
    pub fn add(&mut self, founder: Address) -> (r: Result<(), CustomError>)
        requires
            old(self).wf(),
        ensures
            final(self).wf(),
            final(self)@ == old(self)@.step(PoolStep::Add(founder)),
            final(self).extends(*old(self)),
            old(self).founder_count >= 60 ==> {
                &&& r == Err::<(), CustomError>(CustomError::FounderLimitReached)
                &&& *final(self) == *old(self)
            },
            old(self).founder_count < 60 ==> {
                &&& r is Ok
                &&& final(self).roster() =~= old(self).roster().push(founder)
                &&& final(self).founder_count == old(self).founder_count + 1
                &&& final(self).total_collected == old(self).total_collected
                &&& final(self).claim_status@ =~= old(self).claim_status@
            },
    {
        if self.founder_count >= 60 {
            return Err(CustomError::FounderLimitReached);
        }
        let index: usize = self.founder_count as usize;
        self.founders[index] = founder;
        self.claim_status[index] = 0;
        self.founder_count = self.founder_count + 1;
        proof {
            assert(self@.roster =~= old(self)@.roster.push(founder));
            assert(self@.claimed =~= old(self)@.claimed);
        }
        Ok(())
    }

    /// Pays `founder` what their slot can claim, and returns the amount.
    pub fn claim(&mut self, founder: &Address) -> (r: Result<u64, CustomError>)
        requires
            old(self).wf(),
        ensures
            final(self).wf(),
            final(self)@ == old(self)@.step(PoolStep::Claim(*founder)),
            final(self).extends(*old(self)),
            final(self).total_collected == old(self).total_collected,
            final(self).founders == old(self).founders,
            final(self).founder_count == old(self).founder_count,
            match old(self).slot_of(*founder) {
                None => r == Err::<u64, CustomError>(CustomError::NotFounder) && *final(self)
                    == *old(self),
                Some(slot) => if old(self).claimable(slot) == 0 {
                    r == Err::<u64, CustomError>(CustomError::NothingToClaim) && *final(self)
                        == *old(self)
                } else {
                    &&& r == Ok::<u64, CustomError>(old(self).claimable(slot) as u64)
                    &&& final(self).claim_status@ =~= old(self).claim_status@.update(
                        slot,
                        old(self).entitlement() as u64,
                    )
                    &&& final(self).claimable(slot) == 0
                },
            },
    {
        let slot: usize = match self.find_slot(founder) {
            Some(i) => i,
            None => {
                return Err(CustomError::NotFounder);
            },
        };
        let claimable: u64 = self.claimable_now(slot);
        if claimable == 0 {
            return Err(CustomError::NothingToClaim);
        }
        let paid: u64 = self.claim_status[slot];
        self.claim_status[slot] = paid + claimable;
        Ok(claimable)
    }
}

/// What the creation of the founders' pool touches.
#[derive(Clone, Debug, PartialEq, Eq)]
pub struct InitializeFoundersPool {
    pub founders_pool: FoundersPool,
    /// The authority that signs for the pool's token account.
    pub founder_authority: Address,
    pub founder_pool_token_account: Address,
    /// The mint of the payment token.
    pub usdc_mint: Address,
    /// The payer.
    pub authority: Address,
}

/// What the enrolment of a founder touches.
#[derive(Clone, Debug, PartialEq, Eq)]
pub struct AddFounder {
    pub metadata: TokenMetadata,
    pub founders_pool: FoundersPool,
    /// The caller.
    pub deployer: Address,
}

/// What a founder's claim touches.
#[derive(Clone, Debug, PartialEq, Eq)]
pub struct ClaimFounderShare {
    /// The caller.
    pub founder: Address,
    pub founders_pool: FoundersPool,
    pub founder_token_account: TokenAccount,
    pub founder_pool_token_account: TokenAccount,
    /// The authority that signs for the pool's token account.
    pub founder_authority: Address,
}

/// Sets the pool up empty and asks for its token account.
pub fn initialize_founders_pool(accounts: &mut InitializeFoundersPool) -> (r: Result<
    Vec<TokenInstruction>,
    CustomError,
>)
    ensures
        r is Ok,
        r->Ok_0@ == seq![
            TokenInstruction::CreateAssociatedAccount {
                payer: old(accounts).authority,
                associated_token: old(accounts).founder_pool_token_account,
                authority: old(accounts).founder_authority,
                mint: old(accounts).usdc_mint,
            },
        ],
        final(accounts).founders_pool.wf(),
        final(accounts).founders_pool.total_collected == 0,
        final(accounts).founders_pool.founder_count == 0,
        final(accounts).founders_pool.roster() =~= Seq::<Address>::empty(),
        final(accounts).founder_authority == old(accounts).founder_authority,
        final(accounts).founder_pool_token_account == old(accounts).founder_pool_token_account,
        final(accounts).usdc_mint == old(accounts).usdc_mint,
        final(accounts).authority == old(accounts).authority,
{
    accounts.founders_pool = FoundersPool::new();
    let mut instructions: Vec<TokenInstruction> = Vec::new();
    instructions.push(
        TokenInstruction::CreateAssociatedAccount {
            payer: accounts.authority,
            associated_token: accounts.founder_pool_token_account,
            authority: accounts.founder_authority,
            mint: accounts.usdc_mint,
        },
    );
    Ok(instructions)
}

/// Why an enrolment is rejected, if it is: the first of these that holds.
pub open spec fn add_founder_error(accounts: AddFounder) -> Option<CustomError> {
    if accounts.deployer != accounts.metadata.deployer {
        Some(CustomError::Unauthorized)
    } else if accounts.founders_pool.founder_count >= 60 {
        Some(CustomError::FounderLimitReached)
    } else {
        None
    }
}

/// Enrols `new_founder` in the next free slot. Only the deployer may.
pub fn add_founder(accounts: &mut AddFounder, new_founder: Address) -> (r: Result<
    (),
    CustomError,
>)
    requires
        old(accounts).founders_pool.wf(),
    ensures
        match r {
            Ok(_) => add_founder_error(*old(accounts)) is None,
            Err(e) => add_founder_error(*old(accounts)) == Some(e)
                && *final(accounts) == *old(accounts),
        },
        final(accounts).founders_pool@ == if r is Ok {
            old(accounts).founders_pool@.step(PoolStep::Add(new_founder))
        } else {
            old(accounts).founders_pool@
        },
        final(accounts).founders_pool.wf(),
        final(accounts).founders_pool.extends(old(accounts).founders_pool),
        *final(accounts) == (AddFounder {
            founders_pool: final(accounts).founders_pool,
            ..*old(accounts)
        }),
{
    if !accounts.deployer.same(&accounts.metadata.deployer) {
        return Err(CustomError::Unauthorized);
    }
    accounts.founders_pool.add(new_founder)
}

/// Why a founder's claim is rejected, if it is: the caller holds no slot,
/// or the slot has nothing to claim.
pub open spec fn claim_founder_share_error(accounts: ClaimFounderShare) -> Option<CustomError> {
    match accounts.founders_pool.slot_of(accounts.founder) {
        None => Some(CustomError::NotFounder),
        Some(slot) => if accounts.founders_pool.claimable(slot) == 0 {
            Some(CustomError::NothingToClaim)
        } else {
            None
        },
    }
}

/// Pays the caller what their slot can claim: one sixtieth of all that was
/// collected, less what the slot was paid before.
pub fn claim_founder_share(accounts: &mut ClaimFounderShare) -> (r: Result<
    Vec<TokenInstruction>,
    CustomError,
>)
    requires
        old(accounts).founders_pool.wf(),
    ensures
        match r {
            Ok(instructions) => {
                &&& claim_founder_share_error(*old(accounts)) is None
                &&& old(accounts).founders_pool.slot_of(old(accounts).founder) matches Some(slot)
                &&& instructions@ == seq![
                    TokenInstruction::Transfer {
                        from: old(accounts).founder_pool_token_account.key,
                        to: old(accounts).founder_token_account.key,
                        authority: old(accounts).founder_authority,
                        amount: old(accounts).founders_pool.claimable(slot) as u64,
                    },
                ]
                &&& final(accounts).founders_pool.claimable(slot) == 0
            },
            Err(e) => claim_founder_share_error(*old(accounts)) == Some(e) && *final(accounts)
                == *old(accounts),
        },
        final(accounts).founders_pool@ == old(accounts).founders_pool@.step(
            PoolStep::Claim(old(accounts).founder),
        ),
        final(accounts).founders_pool.founders == old(accounts).founders_pool.founders,
        final(accounts).founders_pool.founder_count == old(accounts).founders_pool.founder_count,
        final(accounts).founders_pool.wf(),
        final(accounts).founders_pool.extends(old(accounts).founders_pool),
        *final(accounts) == (ClaimFounderShare {
            founders_pool: final(accounts).founders_pool,
            ..*old(accounts)
        }),
{
    let claimable: u64 = match accounts.founders_pool.claim(&accounts.founder) {
        Ok(amount) => amount,
        Err(e) => {
            return Err(e);
        },
    };
    let mut instructions: Vec<TokenInstruction> = Vec::new();
    instructions.push(
        TokenInstruction::Transfer {
            from: accounts.founder_pool_token_account.key,
            to: accounts.founder_token_account.key,
            authority: accounts.founder_authority,
            amount: claimable,
        },
    );
    Ok(instructions)
}

} // verus!
