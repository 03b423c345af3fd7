use crate::errors::ErrorCode;
use crate::state::Pool;
use anchor_lang::prelude::Pubkey;
use vstd::prelude::*;

verus! {

/// What the creation of a pool works on: the record slot that the storage
/// layer keeps for the ordered pair of mints, empty while no pool exists for
/// the pair, and the two mints.
#[derive(Clone, Copy, Debug, PartialEq, Eq)]
pub struct InitializePool {
    pub pool: Option<Pool>,
    pub token_mint_0: Pubkey,
    pub token_mint_1: Pubkey,
}

impl InitializePool {
    /// What `initialize_pool` comes to: the context with the new record in
    /// the slot, or `PoolAlreadyExists` where the slot is taken.
    pub open spec fn spec_initialize_pool(self) -> Result<InitializePool, ErrorCode> {
        if self.pool is Some {
            Err(ErrorCode::PoolAlreadyExists)
        } else {
            Ok(
                InitializePool {
                    pool: Some(Pool::spec_new(self.token_mint_0, self.token_mint_1)),
                    ..self
                },
            )
        }
    }

    /// Creates the pool's record for the two mints of the context.
    ///
    /// Succeeds exactly when the slot is empty, and then fills it with a
    /// record that holds the two mints in their order and zero for the price,
    /// the tick spacing and the liquidity. Where the slot is taken it fails
    /// with `PoolAlreadyExists` and leaves the existing record untouched.
    pub fn initialize_pool(&mut self) -> (outcome: Result<(), ErrorCode>)
        ensures
            match old(self).spec_initialize_pool() {
                Ok(after) => outcome is Ok && *final(self) == after,
                Err(fault) => outcome == Err::<(), ErrorCode>(fault) && *final(self) == *old(self),
            },
            outcome is Ok <==> old(self).pool is None,
            outcome is Ok ==> final(self).pool == Some(
                Pool::spec_new(old(self).token_mint_0, old(self).token_mint_1),
            ),
    {
        if self.pool.is_some() {
            return Err(ErrorCode::PoolAlreadyExists);
        }
        self.pool = Some(Pool::new(self.token_mint_0, self.token_mint_1));
        Ok(())
    }
}

/// Once a pool has been created for a pair of mints, creating it again
/// fails, and the record stays as the first creation left it.
pub proof fn lemma_second_creation_fails(start: InitializePool)
    requires
        start.spec_initialize_pool() is Ok,
    ensures
        start.spec_initialize_pool()->Ok_0.spec_initialize_pool() == Err::<
            InitializePool,
            ErrorCode,
        >(ErrorCode::PoolAlreadyExists),
{
}

} // verus!
