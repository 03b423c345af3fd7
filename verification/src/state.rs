use crate::errors::ErrorCode;
use crate::tick_math::spec_aligned;
use anchor_lang::prelude::Pubkey;
use vstd::prelude::*;

verus! {

/// The decimals that every transfer request states for its mint.
pub const TRANSFER_DECIMALS: u8 = 9;

/// One trading pair.
///
/// The two mints are fixed when the record is created and their order is
/// significant. `liquidity` is the running total of everything credited to the
/// pool. A record starts with price, spacing and liquidity all zero; its
/// price and spacing are to be set before liquidity is added.
#[derive(Clone, Copy, Debug, PartialEq, Eq)]
pub struct Pool {
    pub token_mint_0: Pubkey,
    pub token_mint_1: Pubkey,
    pub sqrt_price: u128,
    pub tick_spacing: u16,
    pub liquidity: u128,
}

/// One owner's liquidity claim in one pool.
#[derive(Clone, Copy, Debug, PartialEq, Eq)]
pub struct Position {
    pub owner: Pubkey,
    pub tick_lower: i32,
    pub tick_upper: i32,
    pub liquidity: u128,
}

/// The record of one successful addition of liquidity.
#[derive(Clone, Copy, Debug, PartialEq, Eq)]
pub struct LiquidityAdded {
    pub user: Pubkey,
    pub amount_0: u64,
    pub amount_1: u64,
    pub tick_lower: i32,
    pub tick_upper: i32,
    pub liquidity: u128,
}

/// A request to the token ledger: move `amount` of `mint` from the account of
/// `authority` to the pool's account.
#[derive(Clone, Copy, Debug, PartialEq, Eq)]
pub struct Transfer {
    pub authority: Pubkey,
    pub mint: Pubkey,
    pub amount: u64,
    pub decimals: u8,
}

impl Pool {
    /// A pool can take liquidity once its tick spacing is positive.
    pub open spec fn spec_wf(&self) -> bool {
        self.tick_spacing > 0
    }

    /// The record of a newly created pool: the two mints in the order given,
    /// everything else zero.
    pub open spec fn spec_new(token_mint_0: Pubkey, token_mint_1: Pubkey) -> Pool {
        Pool { token_mint_0, token_mint_1, sqrt_price: 0, tick_spacing: 0, liquidity: 0 }
    }

    /// The pool after `liquidity` is added to its total, or
    /// `ArithmeticOverflow` where the total would not fit.
    pub open spec fn spec_credit(self, liquidity: u128) -> Result<Pool, ErrorCode> {
        if self.liquidity + liquidity <= u128::MAX {
            Ok(Pool { liquidity: (self.liquidity + liquidity) as u128, ..self })
        } else {
            Err(ErrorCode::ArithmeticOverflow)
        }
    }

    /// Whether the pool can take liquidity: its tick spacing is positive.
    pub fn is_wf(&self) -> (ready: bool)
        ensures
            ready == self.spec_wf(),
    {
        self.tick_spacing > 0
    }

    /// Creates the record of a pool for the ordered pair of mints.
    pub fn new(token_mint_0: Pubkey, token_mint_1: Pubkey) -> (pool: Pool)
        ensures
            pool == Pool::spec_new(token_mint_0, token_mint_1),
    {
        Pool { token_mint_0, token_mint_1, sqrt_price: 0, tick_spacing: 0, liquidity: 0 }
    }

    /// Adds `liquidity` to the pool's total. Where the total would overflow
    /// the pool is left as it was.
    pub fn credit(&mut self, liquidity: u128) -> (outcome: Result<(), ErrorCode>)
        ensures
            match old(self).spec_credit(liquidity) {
                Ok(pool) => outcome is Ok && *final(self) == pool,
                Err(fault) => outcome == Err::<(), ErrorCode>(fault) && *final(self) == *old(self),
            },
            outcome is Ok <==> old(self).liquidity + liquidity <= u128::MAX,
            outcome is Ok ==> final(self).liquidity == old(self).liquidity + liquidity,
    {
        match self.liquidity.checked_add(liquidity) {
            Some(total) => {
                self.liquidity = total;
                Ok(())
            },
            None => Err(ErrorCode::ArithmeticOverflow),
        }
    }
}

impl Position {
    /// The record of an owner who has not added liquidity yet: no liquidity,
    /// both ticks zero.
    pub open spec fn spec_empty(owner: Pubkey) -> Position {
        Position { owner, tick_lower: 0, tick_upper: 0, liquidity: 0 }
    }

    /// Whether the position's range is ordered and lies on the grid of
    /// `tick_spacing`.
    pub open spec fn spec_in_grid(&self, tick_spacing: u16) -> bool {
        &&& self.tick_lower < self.tick_upper
        &&& spec_aligned(self.tick_lower, tick_spacing)
        &&& spec_aligned(self.tick_upper, tick_spacing)
    }

    /// The position after an addition of `liquidity` over the given range by
    /// `owner`: owner and range are overwritten, the liquidity is added to
    /// what the position held. `ArithmeticOverflow` where the sum would not
    /// fit.
    pub open spec fn spec_record(
        self,
        owner: Pubkey,
        tick_lower: i32,
        tick_upper: i32,
        liquidity: u128,
    ) -> Result<Position, ErrorCode> {
        if self.liquidity + liquidity <= u128::MAX {
            Ok(
                Position {
                    owner,
                    tick_lower,
                    tick_upper,
                    liquidity: (self.liquidity + liquidity) as u128,
                },
            )
        } else {
            Err(ErrorCode::ArithmeticOverflow)
        }
    }

    /// Creates the record of an owner who has not added liquidity yet.
    pub fn empty(owner: Pubkey) -> (position: Position)
        ensures
            position == Position::spec_empty(owner),
    {
        Position { owner, tick_lower: 0, tick_upper: 0, liquidity: 0 }
    }

    /// Records an addition of `liquidity` over the given range. Where the
    /// position's liquidity would overflow the position is left as it was.
    pub fn record(
        &mut self,
        owner: Pubkey,
        tick_lower: i32,
        tick_upper: i32,
        liquidity: u128,
    ) -> (outcome: Result<(), ErrorCode>)
        ensures
            match old(self).spec_record(owner, tick_lower, tick_upper, liquidity) {
                Ok(position) => outcome is Ok && *final(self) == position,
                Err(fault) => outcome == Err::<(), ErrorCode>(fault) && *final(self) == *old(self),
            },
            outcome is Ok <==> old(self).liquidity + liquidity <= u128::MAX,
            outcome is Ok ==> final(self).liquidity == old(self).liquidity + liquidity,
    {
        match self.liquidity.checked_add(liquidity) {
            Some(total) => {
                self.owner = owner;
                self.tick_lower = tick_lower;
                self.tick_upper = tick_upper;
                self.liquidity = total;
                Ok(())
            },
            None => Err(ErrorCode::ArithmeticOverflow),
        }
    }
}

/// Two pools created from the same two mints are the same record exactly
/// when the mints were given in the same order or are one and the same.
pub proof fn lemma_mint_order_is_significant(mint_a: Pubkey, mint_b: Pubkey)
    ensures
        Pool::spec_new(mint_a, mint_b) == Pool::spec_new(mint_b, mint_a) <==> mint_a == mint_b,
{
}

} // verus!
