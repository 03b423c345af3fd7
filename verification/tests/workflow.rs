use anchor_lang::prelude::Pubkey;
use cyklon::add_liquidity::{AddLiquidity, Settlement};
use cyklon::errors::{ErrorCode, LedgerFault};
use cyklon::initialize_pool::InitializePool;
use cyklon::state::{LiquidityAdded, Pool, Position, Transfer, TRANSFER_DECIMALS};

fn key(byte: u8) -> Pubkey {
    Pubkey::new_from_array([byte; 32])
}

fn context(sqrt_price: u128, tick_spacing: u16) -> AddLiquidity {
    let mut pool = Pool::new(key(1), key(2));
    pool.sqrt_price = sqrt_price;
    pool.tick_spacing = tick_spacing;
    AddLiquidity { pool, user_position: Position::empty(key(9)), user: key(9) }
}

#[test]
fn new_pool_holds_the_mints_and_zeroes() {
    let pool = Pool::new(key(1), key(2));
    assert_eq!(pool.token_mint_0, key(1));
    assert_eq!(pool.token_mint_1, key(2));
    assert_eq!(pool.sqrt_price, 0);
    assert_eq!(pool.tick_spacing, 0);
    assert_eq!(pool.liquidity, 0);
}

#[test]
fn empty_position_has_no_liquidity_and_no_range() {
    let position = Position::empty(key(7));
    assert_eq!(
        position,
        Position { owner: key(7), tick_lower: 0, tick_upper: 0, liquidity: 0 }
    );
}

#[test]
fn credit_adds_to_the_pool_total() {
    let mut pool = Pool::new(key(1), key(2));
    assert_eq!(pool.credit(40), Ok(()));
    assert_eq!(pool.credit(2), Ok(()));
    assert_eq!(pool.liquidity, 42);
    assert_eq!(pool.token_mint_0, key(1));
}

#[test]
fn credit_that_overflows_leaves_the_pool() {
    let mut pool = Pool::new(key(1), key(2));
    pool.liquidity = u128::MAX - 1;
    let before = pool;
    assert_eq!(pool.credit(2), Err(ErrorCode::ArithmeticOverflow));
    assert_eq!(pool, before);
    assert_eq!(pool.credit(1), Ok(()));
    assert_eq!(pool.liquidity, u128::MAX);
}

#[test]
fn record_overwrites_range_and_adds_liquidity() {
    let mut position = Position::empty(key(7));
    assert_eq!(position.record(key(7), 10, 20, 5), Ok(()));
    assert_eq!(position.record(key(8), 30, 40, 6), Ok(()));
    assert_eq!(
        position,
        Position { owner: key(8), tick_lower: 30, tick_upper: 40, liquidity: 11 }
    );
}

#[test]
fn record_that_overflows_leaves_the_position() {
    let mut position = Position { owner: key(7), tick_lower: 10, tick_upper: 20, liquidity: u128::MAX };
    let before = position;
    assert_eq!(position.record(key(8), 30, 40, 1), Err(ErrorCode::ArithmeticOverflow));
    assert_eq!(position, before);
}

#[test]
fn prepare_names_both_transfers() {
    let ctx = context(3, 10);
    let plan = ctx.prepare(1000, 500, 10, 20).unwrap();
    assert_eq!(
        plan,
        Settlement {
            liquidity: 1000,
            transfer_0: Transfer { authority: key(9), mint: key(1), amount: 1000, decimals: 9 },
            transfer_1: Transfer { authority: key(9), mint: key(2), amount: 500, decimals: 9 },
        }
    );
    assert_eq!(TRANSFER_DECIMALS, 9);
}

#[test]
fn prepare_rejects_what_add_liquidity_rejects() {
    let ctx = context(3, 10);
    assert_eq!(ctx.prepare(1000, 500, 20, 10), Err(ErrorCode::InvalidTickRange));
    assert_eq!(ctx.prepare(1000, 500, 5, 10), Err(ErrorCode::InvalidLowerTick));
    assert_eq!(ctx.prepare(1000, 500, 10, 15), Err(ErrorCode::InvalidUpperTick));
    assert_eq!(ctx.prepare(1000, 500, -10, 10), Err(ErrorCode::ArithmeticOverflow));
    assert_eq!(ctx.prepare(1000, 500, 10, 130), Err(ErrorCode::ArithmeticOverflow));
}

#[test]
fn successful_addition_updates_pool_and_position() {
    let mut ctx = context(3, 10);
    let event = ctx.add_liquidity(1000, 500, 10, 20, Ok(())).unwrap();
    assert_eq!(
        event,
        LiquidityAdded {
            user: key(9),
            amount_0: 1000,
            amount_1: 500,
            tick_lower: 10,
            tick_upper: 20,
            liquidity: 1000,
        }
    );
    assert_eq!(ctx.pool.liquidity, 1000);
    assert_eq!(ctx.pool.sqrt_price, 3);
    assert_eq!(ctx.pool.tick_spacing, 10);
    assert_eq!(ctx.pool.token_mint_0, key(1));
    assert_eq!(ctx.pool.token_mint_1, key(2));
    assert_eq!(
        ctx.user_position,
        Position { owner: key(9), tick_lower: 10, tick_upper: 20, liquidity: 1000 }
    );
}

#[test]
fn addition_inside_the_range_credits_the_capped_amount() {
    let mut ctx = context(2000, 10);
    let event = ctx.add_liquidity(100_000, 3_000_000, 10, 20, Ok(())).unwrap();
    assert_eq!(event.liquidity, 100_000);
    let mut small = context(2000, 10);
    let event = small.add_liquidity(100_000, 3_000, 10, 20, Ok(())).unwrap();
    assert_eq!(event.liquidity, 286);
    assert_eq!(small.pool.liquidity, 286);
}

#[test]
fn invalid_range_changes_nothing() {
    let mut ctx = context(3, 10);
    let before = ctx;
    assert_eq!(ctx.add_liquidity(1000, 500, 100, 0, Ok(())), Err(ErrorCode::InvalidTickRange));
    assert_eq!(ctx.add_liquidity(1000, 500, 5, 100, Ok(())), Err(ErrorCode::InvalidLowerTick));
    assert_eq!(ctx.add_liquidity(1000, 500, 0, 95, Ok(())), Err(ErrorCode::InvalidUpperTick));
    assert_eq!(ctx, before);
}

#[test]
fn range_fault_comes_before_ledger_fault() {
    let mut ctx = context(3, 10);
    assert_eq!(
        ctx.add_liquidity(1000, 500, 5, 100, Err(LedgerFault::InsufficientFunds)),
        Err(ErrorCode::InvalidLowerTick)
    );
}

#[test]
fn refused_transfer_changes_nothing() {
    let mut ctx = context(3, 10);
    ctx.add_liquidity(10, 10, 10, 20, Ok(())).unwrap();
    let before = ctx;
    assert_eq!(
        ctx.add_liquidity(1000, 500, 10, 20, Err(LedgerFault::InsufficientFunds)),
        Err(ErrorCode::Settlement(LedgerFault::InsufficientFunds))
    );
    assert_eq!(
        ctx.add_liquidity(1000, 500, 10, 20, Err(LedgerFault::MintMismatch)),
        Err(ErrorCode::Settlement(LedgerFault::MintMismatch))
    );
    assert_eq!(ctx, before);
}

#[test]
fn price_overflow_changes_nothing() {
    let mut ctx = context(3, 10);
    let before = ctx;
    assert_eq!(ctx.add_liquidity(1000, 500, -10, 20, Ok(())), Err(ErrorCode::ArithmeticOverflow));
    assert_eq!(ctx.add_liquidity(1000, 500, 10, 130, Ok(())), Err(ErrorCode::ArithmeticOverflow));
    assert_eq!(ctx, before);
}

#[test]
fn pool_total_overflow_changes_nothing() {
    let mut ctx = context(3, 10);
    ctx.pool.liquidity = u128::MAX - 999;
    let before = ctx;
    assert_eq!(ctx.add_liquidity(1000, 500, 10, 20, Ok(())), Err(ErrorCode::ArithmeticOverflow));
    assert_eq!(ctx, before);
    assert!(ctx.add_liquidity(999, 500, 10, 20, Ok(())).is_ok());
    assert_eq!(ctx.pool.liquidity, u128::MAX);
}

#[test]
fn position_total_overflow_changes_nothing() {
    let mut ctx = context(3, 10);
    ctx.user_position.liquidity = u128::MAX;
    let before = ctx;
    assert_eq!(ctx.add_liquidity(1, 500, 10, 20, Ok(())), Err(ErrorCode::ArithmeticOverflow));
    assert_eq!(ctx, before);
}

#[test]
fn pool_total_is_the_sum_of_all_additions() {
    let mut pool = Pool::new(key(1), key(2));
    pool.sqrt_price = 3;
    pool.tick_spacing = 10;
    let mut expected: u128 = 0;
    let mut owner: u8 = 10;
    while owner < 20 {
        let mut ctx = AddLiquidity { pool, user_position: Position::empty(key(owner)), user: key(owner) };
        let event = ctx.add_liquidity(100 * owner as u64, 7, 10, 20, Ok(())).unwrap();
        assert_eq!(event.liquidity, 100 * owner as u128);
        assert!(ctx.pool.liquidity >= pool.liquidity);
        expected += event.liquidity;
        pool = ctx.pool;
        owner += 1;
    }
    assert_eq!(pool.liquidity, expected);
    assert_eq!(pool.liquidity, 14_500);
}

#[test]
fn second_addition_accumulates_and_overwrites_the_range() {
    let mut ctx = context(3, 10);
    let first = ctx.add_liquidity(1000, 500, 10, 20, Ok(())).unwrap();
    let second = ctx.add_liquidity(250, 500, 30, 50, Ok(())).unwrap();
    assert_eq!(first.liquidity, 1000);
    assert_eq!(second.liquidity, 250);
    assert_eq!(
        ctx.user_position,
        Position { owner: key(9), tick_lower: 30, tick_upper: 50, liquidity: 1250 }
    );
    assert_eq!(ctx.pool.liquidity, 1250);
}

#[test]
fn creating_a_pool_twice_fails() {
    let mut ctx = InitializePool { pool: None, token_mint_0: key(1), token_mint_1: key(2) };
    assert_eq!(ctx.initialize_pool(), Ok(()));
    assert_eq!(ctx.pool, Some(Pool::new(key(1), key(2))));
    let before = ctx;
    assert_eq!(ctx.initialize_pool(), Err(ErrorCode::PoolAlreadyExists));
    assert_eq!(ctx, before);
}

#[test]
fn existing_pool_is_not_overwritten() {
    let mut existing = Pool::new(key(1), key(2));
    existing.liquidity = 77;
    existing.tick_spacing = 10;
    let mut ctx = InitializePool { pool: Some(existing), token_mint_0: key(1), token_mint_1: key(2) };
    assert_eq!(ctx.initialize_pool(), Err(ErrorCode::PoolAlreadyExists));
    assert_eq!(ctx.pool, Some(existing));
}

#[test]
fn reversed_mints_make_a_distinct_pool() {
    let mut slots: Vec<((Pubkey, Pubkey), Pool)> = Vec::new();
    let requests = [(key(1), key(2), true), (key(1), key(2), false), (key(2), key(1), true)];
    for (mint_0, mint_1, expected) in requests {
        let found = slots.iter().find(|slot| slot.0 == (mint_0, mint_1)).map(|slot| slot.1);
        let mut ctx = InitializePool { pool: found, token_mint_0: mint_0, token_mint_1: mint_1 };
        let outcome = ctx.initialize_pool();
        assert_eq!(outcome.is_ok(), expected);
        if outcome.is_ok() {
            slots.push(((mint_0, mint_1), ctx.pool.unwrap()));
        } else {
            assert_eq!(outcome, Err(ErrorCode::PoolAlreadyExists));
        }
    }
    assert_eq!(slots.len(), 2);
    assert_ne!(slots[0].1, slots[1].1);
    assert_eq!(slots[1].1.token_mint_0, key(2));
    assert_eq!(slots[1].1.token_mint_1, key(1));
}

#[test]
fn pool_is_ready_once_spacing_is_set() {
    let mut pool = Pool::new(key(1), key(2));
    assert!(!pool.is_wf());
    pool.tick_spacing = 60;
    assert!(pool.is_wf());
}
