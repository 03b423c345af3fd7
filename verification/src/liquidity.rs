use crate::errors::ErrorCode;
use crate::tick_math::{
    lemma_price_fits, spec_in_price_domain, spec_tick_to_sqrt_price, tick_to_sqrt_price,
};
use vstd::prelude::*;

verus! {

/// The smaller of two natural numbers.
pub open spec fn spec_min(a: nat, b: nat) -> nat {
    if a <= b {
        a
    } else {
        b
    }
}

/// What the deposit of `amount_0` and `amount_1` is worth when the price lies
/// strictly between `price_lower` and `price_upper`: the product of the two
/// amounts divided by the width of the range, capped by each amount.
pub open spec fn spec_liquidity_inside(
    amount_0: u64,
    amount_1: u64,
    price_lower: nat,
    price_upper: nat,
) -> nat
    recommends
        price_lower < price_upper,
{
    let scaled = ((amount_0 as nat) * (amount_1 as nat)) / ((price_upper - price_lower) as nat);
    spec_min(spec_min(scaled, amount_0 as nat), amount_1 as nat)
}

/// The liquidity that a deposit into the range of the two ticks is worth at
/// `current_sqrt_price`.
///
/// At or below the lower price the range lies above the market and only
/// `amount_0` counts; otherwise, at or above the upper price only `amount_1`
/// counts; strictly inside, the deposit is worth what both amounts support.
pub open spec fn spec_liquidity(
    amount_0: u64,
    amount_1: u64,
    tick_lower: i32,
    tick_upper: i32,
    current_sqrt_price: u128,
) -> nat
    recommends
        spec_in_price_domain(tick_lower),
        spec_in_price_domain(tick_upper),
{
    let price_lower = spec_tick_to_sqrt_price(tick_lower);
    let price_upper = spec_tick_to_sqrt_price(tick_upper);
    if current_sqrt_price <= price_lower {
        amount_0 as nat
    } else if current_sqrt_price >= price_upper {
        amount_1 as nat
    } else {
        spec_liquidity_inside(amount_0, amount_1, price_lower, price_upper)
    }
}

/// What `calculate_liquidity` returns: the liquidity where both ticks have a
/// price, `ArithmeticOverflow` where one has none.
pub open spec fn spec_calculate_liquidity(
    amount_0: u64,
    amount_1: u64,
    tick_lower: i32,
    tick_upper: i32,
    current_sqrt_price: u128,
) -> Result<u128, ErrorCode> {
    if spec_in_price_domain(tick_lower) && spec_in_price_domain(tick_upper) {
        Ok(spec_liquidity(amount_0, amount_1, tick_lower, tick_upper, current_sqrt_price) as u128)
    } else {
        Err(ErrorCode::ArithmeticOverflow)
    }
}

/// The liquidity of a deposit never exceeds the larger of the two amounts, so
/// it fits in 64 bits and narrowing it to the result type loses nothing.
pub proof fn lemma_liquidity_bounded(
    amount_0: u64,
    amount_1: u64,
    tick_lower: i32,
    tick_upper: i32,
    current_sqrt_price: u128,
)
    ensures
        spec_liquidity(amount_0, amount_1, tick_lower, tick_upper, current_sqrt_price)
            <= u64::MAX,
{
}

/// With the price at or below the lower bound of the range, the result does
/// not depend on the second amount: where both ticks have a price it is
/// `amount_0`.
pub proof fn lemma_below_range_ignores_amount_1(
    amount_0: u64,
    amount_1: u64,
    other_amount_1: u64,
    tick_lower: i32,
    tick_upper: i32,
    current_sqrt_price: u128,
)
    requires
        current_sqrt_price <= spec_tick_to_sqrt_price(tick_lower),
    ensures
        spec_calculate_liquidity(amount_0, amount_1, tick_lower, tick_upper, current_sqrt_price)
            == spec_calculate_liquidity(
            amount_0,
            other_amount_1,
            tick_lower,
            tick_upper,
            current_sqrt_price,
        ),
        spec_in_price_domain(tick_lower) && spec_in_price_domain(tick_upper)
            ==> spec_calculate_liquidity(
            amount_0,
            amount_1,
            tick_lower,
            tick_upper,
            current_sqrt_price,
        ) == Ok::<u128, ErrorCode>(amount_0 as u128),
{
}

/// With the price at or above the upper bound of the range, and above the
/// lower bound, the result does not depend on the first amount: where both
/// ticks have a price it is `amount_1`.
pub proof fn lemma_above_range_ignores_amount_0(
    amount_0: u64,
    other_amount_0: u64,
    amount_1: u64,
    tick_lower: i32,
    tick_upper: i32,
    current_sqrt_price: u128,
)
    requires
        current_sqrt_price >= spec_tick_to_sqrt_price(tick_upper),
        current_sqrt_price > spec_tick_to_sqrt_price(tick_lower),
    ensures
        spec_calculate_liquidity(amount_0, amount_1, tick_lower, tick_upper, current_sqrt_price)
            == spec_calculate_liquidity(
            other_amount_0,
            amount_1,
            tick_lower,
            tick_upper,
            current_sqrt_price,
        ),
        spec_in_price_domain(tick_lower) && spec_in_price_domain(tick_upper)
            ==> spec_calculate_liquidity(
            amount_0,
            amount_1,
            tick_lower,
            tick_upper,
            current_sqrt_price,
        ) == Ok::<u128, ErrorCode>(amount_1 as u128),
{
}

/// With the price strictly inside the range, a computed liquidity exceeds neither
/// `amount_0`, which the lower boundary would credit for the first amount
/// alone, nor `amount_1`, which the upper boundary would credit for the
/// second amount alone.
pub proof fn lemma_inside_range_capped_by_both(
    amount_0: u64,
    amount_1: u64,
    tick_lower: i32,
    tick_upper: i32,
    current_sqrt_price: u128,
)
    requires
        spec_tick_to_sqrt_price(tick_lower) < current_sqrt_price,
        current_sqrt_price < spec_tick_to_sqrt_price(tick_upper),
        spec_calculate_liquidity(
            amount_0,
            amount_1,
            tick_lower,
            tick_upper,
            current_sqrt_price,
        ) is Ok,
    ensures
        spec_calculate_liquidity(
            amount_0,
            amount_1,
            tick_lower,
            tick_upper,
            current_sqrt_price,
        )->Ok_0 <= amount_0,
        spec_calculate_liquidity(
            amount_0,
            amount_1,
            tick_lower,
            tick_upper,
            current_sqrt_price,
        )->Ok_0 <= amount_1,
        spec_calculate_liquidity(
            amount_0,
            amount_1,
            tick_lower,
            tick_upper,
            current_sqrt_price,
        )->Ok_0 == spec_liquidity_inside(
            amount_0,
            amount_1,
            spec_tick_to_sqrt_price(tick_lower),
            spec_tick_to_sqrt_price(tick_upper),
        ),
{
}

/// Converts a deposit of two amounts into liquidity units.
///
/// Fails with `ArithmeticOverflow` exactly when one of the ticks has no
/// representable price; otherwise returns the liquidity of the deposit.
pub fn calculate_liquidity(
    amount_0: u64,
    amount_1: u64,
    tick_lower: i32,
    tick_upper: i32,
    current_sqrt_price: u128,
) -> (liquidity: Result<u128, ErrorCode>)
    ensures
        liquidity == spec_calculate_liquidity(
            amount_0,
            amount_1,
            tick_lower,
            tick_upper,
            current_sqrt_price,
        ),
        liquidity is Ok <==> spec_in_price_domain(tick_lower) && spec_in_price_domain(tick_upper),
        liquidity is Ok ==> liquidity->Ok_0 == spec_liquidity(
            amount_0,
            amount_1,
            tick_lower,
            tick_upper,
            current_sqrt_price,
        ),
{
    let price_lower: u128 = match tick_to_sqrt_price(tick_lower) {
        Ok(price) => price,
        Err(fault) => { return Err(fault); },
    };
    let price_upper: u128 = match tick_to_sqrt_price(tick_upper) {
        Ok(price) => price,
        Err(fault) => { return Err(fault); },
    };
    proof {
        lemma_price_fits(tick_lower);
        lemma_price_fits(tick_upper);
        lemma_liquidity_bounded(amount_0, amount_1, tick_lower, tick_upper, current_sqrt_price);
    }
    let wide_0: u128 = amount_0 as u128;
    let wide_1: u128 = amount_1 as u128;
    if current_sqrt_price <= price_lower {
        Ok(wide_0)
    } else if current_sqrt_price >= price_upper {
        Ok(wide_1)
    } else {
        assert(wide_0 * wide_1 <= u128::MAX) by (nonlinear_arith)
            requires
                wide_0 <= 0xffff_ffff_ffff_ffff,
                wide_1 <= 0xffff_ffff_ffff_ffff,
        ;
        let width: u128 = price_upper - price_lower;
        let scaled: u128 = wide_0 * wide_1 / width;
        let capped: u128 = if scaled <= wide_0 {
            scaled
        } else {
            wide_0
        };
        if capped <= wide_1 {
            Ok(capped)
        } else {
            Ok(wide_1)
        }
    }
}

} // verus!
