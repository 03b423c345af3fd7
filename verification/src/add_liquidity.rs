use crate::errors::{ErrorCode, LedgerFault};
use crate::liquidity::{calculate_liquidity, spec_calculate_liquidity};
use crate::state::{LiquidityAdded, Pool, Position, Transfer, TRANSFER_DECIMALS};
use crate::tick_math::{spec_validate_range, validate_range};
use anchor_lang::prelude::Pubkey;
use vstd::prelude::*;

verus! {

/// What the ledger is asked to do for one addition, and the liquidity that
/// the addition will be credited with once both transfers have gone through.
#[derive(Clone, Copy, Debug, PartialEq, Eq)]
pub struct Settlement {
    pub liquidity: u128,
    pub transfer_0: Transfer,
    pub transfer_1: Transfer,
}

/// The records that one addition of liquidity works on: the pool, the
/// position of the caller in that pool, and the caller's identity.
#[derive(Clone, Copy, Debug, PartialEq, Eq)]
pub struct AddLiquidity {
    pub pool: Pool,
    pub user_position: Position,
    pub user: Pubkey,
}

impl AddLiquidity {
    /// The pool of the context can take liquidity.
    pub open spec fn spec_wf(&self) -> bool {
        self.pool.spec_wf()
    }

    /// The liquidity of a deposit into this pool: the range is validated
    /// against the pool's grid first, then the liquidity is computed at the
    /// pool's current price.
    pub open spec fn spec_quote(
        &self,
        amount_0: u64,
        amount_1: u64,
        tick_lower: i32,
        tick_upper: i32,
    ) -> Result<u128, ErrorCode> {
        match spec_validate_range(tick_lower, tick_upper, self.pool.tick_spacing) {
            Err(fault) => Err(fault),
            Ok(()) => spec_calculate_liquidity(
                amount_0,
                amount_1,
                tick_lower,
                tick_upper,
                self.pool.sqrt_price,
            ),
        }
    }

    /// The request for `amount` of `mint`, paid by the caller.
    pub open spec fn spec_transfer(&self, mint: Pubkey, amount: u64) -> Transfer {
        Transfer { authority: self.user, mint, amount, decimals: TRANSFER_DECIMALS }
    }

    /// What `prepare` returns: the quote, with `amount_0` of the pool's first
    /// mint and `amount_1` of its second to be moved from the caller to the
    /// pool.
    pub open spec fn spec_prepare(
        &self,
        amount_0: u64,
        amount_1: u64,
        tick_lower: i32,
        tick_upper: i32,
    ) -> Result<Settlement, ErrorCode> {
        match self.spec_quote(amount_0, amount_1, tick_lower, tick_upper) {
            Err(fault) => Err(fault),
            Ok(liquidity) => Ok(
                Settlement {
                    liquidity,
                    transfer_0: self.spec_transfer(self.pool.token_mint_0, amount_0),
                    transfer_1: self.spec_transfer(self.pool.token_mint_1, amount_1),
                },
            ),
        }
    }

    /// What an addition comes to, given the ledger's answer `settled` to the
    /// two transfers: the records after it and the event to emit, or the
    /// fault that aborts it. Faults are looked for in this order: the range,
    /// the prices, the ledger, the pool's total, the position's total.
    pub open spec fn spec_add_liquidity(
        self,
        amount_0: u64,
        amount_1: u64,
        tick_lower: i32,
        tick_upper: i32,
        settled: Result<(), LedgerFault>,
    ) -> Result<(AddLiquidity, LiquidityAdded), ErrorCode> {
        match self.spec_quote(amount_0, amount_1, tick_lower, tick_upper) {
            Err(fault) => Err(fault),
            Ok(liquidity) => match settled {
                Err(fault) => Err(ErrorCode::Settlement(fault)),
                Ok(()) => match self.pool.spec_credit(liquidity) {
                    Err(fault) => Err(fault),
                    Ok(pool) => match self.user_position.spec_record(
                        self.user,
                        tick_lower,
                        tick_upper,
                        liquidity,
                    ) {
                        Err(fault) => Err(fault),
                        Ok(user_position) => Ok(
                            (
                                AddLiquidity { pool, user_position, user: self.user },
                                LiquidityAdded {
                                    user: self.user,
                                    amount_0,
                                    amount_1,
                                    tick_lower,
                                    tick_upper,
                                    liquidity,
                                },
                            ),
                        ),
                    },
                },
            },
        }
    }

    /// Validates the range and computes the liquidity of the deposit, without
    /// changing any record.
    ///
    /// On success the result names the two transfers that the ledger has to
    /// make before the addition may be recorded. It fails with the range's
    /// fault where the range is not valid for the pool, and with
    /// `ArithmeticOverflow` where the range is valid and one of its ticks has
    /// no representable price.
    pub fn prepare(&self, amount_0: u64, amount_1: u64, tick_lower: i32, tick_upper: i32) -> (plan:
        Result<Settlement, ErrorCode>)
        requires
            self.spec_wf(),
        ensures
            plan == self.spec_prepare(amount_0, amount_1, tick_lower, tick_upper),
            plan is Ok <==> self.spec_quote(amount_0, amount_1, tick_lower, tick_upper) is Ok,
    {
        match validate_range(tick_lower, tick_upper, self.pool.tick_spacing) {
            Err(fault) => { return Err(fault); },
            Ok(()) => {},
        }
        match calculate_liquidity(amount_0, amount_1, tick_lower, tick_upper, self.pool.sqrt_price) {
            Err(fault) => Err(fault),
            Ok(liquidity) => Ok(
                Settlement {
                    liquidity,
                    transfer_0: Transfer {
                        authority: self.user,
                        mint: self.pool.token_mint_0,
                        amount: amount_0,
                        decimals: TRANSFER_DECIMALS,
                    },
                    transfer_1: Transfer {
                        authority: self.user,
                        mint: self.pool.token_mint_1,
                        amount: amount_1,
                        decimals: TRANSFER_DECIMALS,
                    },
                },
            ),
        }
    }

    /// Records an addition of liquidity, given the ledger's answer to the
    /// two transfers that `prepare` asked for: `Ok` when both went through,
    /// else the fault of the one that was refused.
    ///
    /// On success the computed liquidity has been added to the pool's total
    /// and to the caller's position, the position carries the caller as owner
    /// and the range of this call, and the event to emit is returned. On any
    /// fault every record is left exactly as it was.
    pub fn add_liquidity(
        &mut self,
        amount_0: u64,
        amount_1: u64,
        tick_lower: i32,
        tick_upper: i32,
        settled: Result<(), LedgerFault>,
    ) -> (outcome: Result<LiquidityAdded, ErrorCode>)
        requires
            old(self).spec_wf(),
        ensures
            match old(self).spec_add_liquidity(amount_0, amount_1, tick_lower, tick_upper, settled) {
                Ok((after, event)) => *final(self) == after && outcome == Ok::<
                    LiquidityAdded,
                    ErrorCode,
                >(event),
                Err(fault) => outcome == Err::<LiquidityAdded, ErrorCode>(fault) && *final(self)
                    == *old(self),
            },
            outcome is Err ==> *final(self) == *old(self),
            outcome is Ok <==> {
                let quote = old(self).spec_quote(amount_0, amount_1, tick_lower, tick_upper);
                &&& quote is Ok
                &&& settled is Ok
                &&& old(self).pool.liquidity + quote->Ok_0 <= u128::MAX
                &&& old(self).user_position.liquidity + quote->Ok_0 <= u128::MAX
            },
            outcome is Ok ==> {
                let event = outcome->Ok_0;
                &&& settled is Ok
                &&& Ok::<u128, ErrorCode>(event.liquidity) == old(self).spec_quote(
                    amount_0,
                    amount_1,
                    tick_lower,
                    tick_upper,
                )
                &&& final(self).pool.liquidity == old(self).pool.liquidity + event.liquidity
                &&& final(self).user_position.liquidity == old(self).user_position.liquidity
                    + event.liquidity
                &&& final(self).user_position.owner == old(self).user
                &&& final(self).user_position.tick_lower == tick_lower
                &&& final(self).user_position.tick_upper == tick_upper
                &&& final(self).user_position.spec_in_grid(old(self).pool.tick_spacing)
                &&& final(self).spec_wf()
            },
    {
        let liquidity: u128 = match self.prepare(amount_0, amount_1, tick_lower, tick_upper) {
            Err(fault) => { return Err(fault); },
            Ok(plan) => plan.liquidity,
        };
        match settled {
            Err(fault) => { return Err(ErrorCode::Settlement(fault)); },
            Ok(()) => {},
        }
        let mut pool: Pool = self.pool;
        match pool.credit(liquidity) {
            Err(fault) => { return Err(fault); },
            Ok(()) => {},
        }
        let mut user_position: Position = self.user_position;
        match user_position.record(self.user, tick_lower, tick_upper, liquidity) {
            Err(fault) => { return Err(fault); },
            Ok(()) => {},
        }
        self.pool = pool;
        self.user_position = user_position;
        Ok(
            LiquidityAdded {
                user: self.user,
                amount_0,
                amount_1,
                tick_lower,
                tick_upper,
                liquidity,
            },
        )
    }
}

/// Two additions in a row by one owner leave the position with the sum of
/// the two credited amounts on top of what it held, and with the range of the
/// second addition; the pool's total has grown by the same sum.
pub proof fn lemma_second_addition_accumulates(
    start: AddLiquidity,
    first_amount_0: u64,
    first_amount_1: u64,
    first_tick_lower: i32,
    first_tick_upper: i32,
    second_amount_0: u64,
    second_amount_1: u64,
    second_tick_lower: i32,
    second_tick_upper: i32,
)
    requires
        start.spec_add_liquidity(
            first_amount_0,
            first_amount_1,
            first_tick_lower,
            first_tick_upper,
            Ok(()),
        ) is Ok,
        start.spec_add_liquidity(
            first_amount_0,
            first_amount_1,
            first_tick_lower,
            first_tick_upper,
            Ok(()),
        )->Ok_0.0.spec_add_liquidity(
            second_amount_0,
            second_amount_1,
            second_tick_lower,
            second_tick_upper,
            Ok(()),
        ) is Ok,
    ensures
        ({
            let (middle, first) = start.spec_add_liquidity(
                first_amount_0,
                first_amount_1,
                first_tick_lower,
                first_tick_upper,
                Ok(()),
            )->Ok_0;
            let (after, second) = middle.spec_add_liquidity(
                second_amount_0,
                second_amount_1,
                second_tick_lower,
                second_tick_upper,
                Ok(()),
            )->Ok_0;
            &&& after.user_position.liquidity == start.user_position.liquidity + first.liquidity
                + second.liquidity
            &&& after.user_position.tick_lower == second_tick_lower
            &&& after.user_position.tick_upper == second_tick_upper
            &&& after.user_position.owner == start.user
            &&& after.pool.liquidity == start.pool.liquidity + first.liquidity + second.liquidity
        }),
{
}

/// One call of `add_liquidity` that the ledger settled: who called, the
/// position the caller held before, and the arguments of the call.
#[derive(Clone, Copy, Debug, PartialEq, Eq)]
pub struct Deposit {
    pub user: Pubkey,
    pub user_position: Position,
    pub amount_0: u64,
    pub amount_1: u64,
    pub tick_lower: i32,
    pub tick_upper: i32,
}

impl Deposit {
    /// The pool after this deposit and the liquidity credited for it, or the
    /// fault that aborted it.
    pub open spec fn spec_apply(self, pool: Pool) -> Result<(Pool, u128), ErrorCode> {
        let context = AddLiquidity { pool, user_position: self.user_position, user: self.user };
        match context.spec_add_liquidity(
            self.amount_0,
            self.amount_1,
            self.tick_lower,
            self.tick_upper,
            Ok(()),
        ) {
            Ok((after, event)) => Ok((after.pool, event.liquidity)),
            Err(fault) => Err(fault),
        }
    }
}

/// The pool after the deposits are applied in turn, and the sum of the
/// liquidity credited for them; the fault of the first that is aborted.
pub open spec fn spec_apply_all(pool: Pool, deposits: Seq<Deposit>) -> Result<(Pool, nat), ErrorCode>
    decreases deposits.len(),
{
    if deposits.len() == 0 {
        Ok((pool, 0))
    } else {
        match spec_apply_all(pool, deposits.drop_last()) {
            Err(fault) => Err(fault),
            Ok((before, total)) => match deposits.last().spec_apply(before) {
                Err(fault) => Err(fault),
                Ok((after, liquidity)) => Ok((after, total + liquidity as nat)),
            },
        }
    }
}

/// After any number of successful additions, by whatever owners, the pool's
/// liquidity is what it held before plus the sum of the liquidity computed
/// for each addition: it has not decreased, and nothing else in the pool's
/// record has changed.
pub proof fn lemma_pool_liquidity_is_sum_of_additions(pool: Pool, deposits: Seq<Deposit>)
    requires
        spec_apply_all(pool, deposits) is Ok,
    ensures
        ({
            let (after, total) = spec_apply_all(pool, deposits)->Ok_0;
            &&& after.liquidity == pool.liquidity + total
            &&& after.liquidity >= pool.liquidity
            &&& after == (Pool { liquidity: after.liquidity, ..pool })
        }),
    decreases deposits.len(),
{
    if deposits.len() > 0 {
        lemma_pool_liquidity_is_sum_of_additions(pool, deposits.drop_last());
    }
}

} // verus!
