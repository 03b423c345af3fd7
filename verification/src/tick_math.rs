use crate::errors::ErrorCode;
use vstd::arithmetic::power2::{lemma2_to64, lemma2_to64_rest, lemma_pow2_adds, lemma_pow2_strictly_increases, pow2};
use vstd::prelude::*;

verus! {

/// The largest tick whose price fits the 128-bit price type.
pub const MAX_TICK: i32 = 127;

/// Whether `tick` has a representable price: `0 <= tick <= MAX_TICK`.
pub open spec fn spec_in_price_domain(tick: i32) -> bool {
    0 <= tick <= MAX_TICK
}

/// The price at `tick`: two to the power `tick`.
pub open spec fn spec_tick_to_sqrt_price(tick: i32) -> nat
    recommends
        spec_in_price_domain(tick),
{
    pow2(tick as nat)
}

/// Whether `tick` is a multiple of `tick_spacing`.
pub open spec fn spec_aligned(tick: i32, tick_spacing: u16) -> bool
    recommends
        tick_spacing > 0,
{
    (tick as int) % (tick_spacing as int) == 0
}

/// The outcome of validating a range: the bounds are compared first, then the
/// lower tick's alignment is checked, then the upper tick's.
pub open spec fn spec_validate_range(tick_lower: i32, tick_upper: i32, tick_spacing: u16) -> Result<
    (),
    ErrorCode,
>
    recommends
        tick_spacing > 0,
{
    if tick_lower >= tick_upper {
        Err(ErrorCode::InvalidTickRange)
    } else if !spec_aligned(tick_lower, tick_spacing) {
        Err(ErrorCode::InvalidLowerTick)
    } else if !spec_aligned(tick_upper, tick_spacing) {
        Err(ErrorCode::InvalidUpperTick)
    } else {
        Ok(())
    }
}

/// Every price of the domain fits in 128 bits.
pub proof fn lemma_price_fits(tick: i32)
    requires
        spec_in_price_domain(tick),
    ensures
        0 < spec_tick_to_sqrt_price(tick) <= 0x8000_0000_0000_0000_0000_0000_0000_0000,
{
    lemma2_to64();
    lemma2_to64_rest();
    lemma_pow2_adds(64, 63);
    if tick < 127 {
        lemma_pow2_strictly_increases(tick as nat, 127);
    }
    vstd::arithmetic::power2::lemma_pow2_pos(tick as nat);
}

/// The price grows strictly with the tick, so distinct ticks of the domain
/// have distinct prices and comparing prices is comparing ticks.
pub proof fn lemma_price_strictly_increasing(a: i32, b: i32)
    requires
        spec_in_price_domain(a),
        spec_in_price_domain(b),
    ensures
        a < b <==> spec_tick_to_sqrt_price(a) < spec_tick_to_sqrt_price(b),
        a == b <==> spec_tick_to_sqrt_price(a) == spec_tick_to_sqrt_price(b),
{
    if a < b {
        lemma_pow2_strictly_increases(a as nat, b as nat);
    }
    if b < a {
        lemma_pow2_strictly_increases(b as nat, a as nat);
    }
}

/// Shifting one left by `k` bits gives two to the power `k`.
proof fn lemma_one_shl_is_pow2(k: u128)
    requires
        k < 128,
    ensures
        (1u128 << k) == pow2(k as nat),
    decreases k,
{
    if k == 0 {
        assert((1u128 << 0u128) == 1u128) by (bit_vector);
        lemma2_to64();
    } else {
        let j: u128 = (k - 1) as u128;
        lemma_one_shl_is_pow2(j);
        assert((1u128 << k) == 2u128 * (1u128 << j)) by (bit_vector)
            requires
                0 < k < 128,
                j == k - 1,
        ;
        vstd::arithmetic::power2::lemma_pow2_unfold(k as nat);
    }
}

/// The price at `tick`, or `ArithmeticOverflow` where the tick lies outside
/// the price domain.
pub fn tick_to_sqrt_price(tick: i32) -> (price: Result<u128, ErrorCode>)
    ensures
        spec_in_price_domain(tick) ==> price == Ok::<u128, ErrorCode>(
            spec_tick_to_sqrt_price(tick) as u128,
        ),
        spec_in_price_domain(tick) ==> price->Ok_0 == spec_tick_to_sqrt_price(tick),
        !spec_in_price_domain(tick) ==> price == Err::<u128, ErrorCode>(
            ErrorCode::ArithmeticOverflow,
        ),
{
    if tick < 0 || tick > MAX_TICK {
        return Err(ErrorCode::ArithmeticOverflow);
    }
    let shift: u128 = tick as u128;
    proof {
        lemma_one_shl_is_pow2(shift);
        lemma_price_fits(tick);
    }
    Ok(1u128 << shift)
}

/// A number is a multiple of `d` exactly when its negation is.
proof fn lemma_negation_keeps_multiples(x: int, d: int)
    requires
        d > 0,
    ensures
        (x % d == 0) <==> ((-x) % d == 0),
{
    if x % d == 0 {
        vstd::arithmetic::div_mod::lemma_fundamental_div_mod(x, d);
        vstd::arithmetic::div_mod::lemma_mod_multiples_basic(-(x / d), d);
        assert(-x == (-(x / d)) * d) by (nonlinear_arith)
            requires
                x == d * (x / d) + x % d,
                x % d == 0,
        ;
    }
    if (-x) % d == 0 {
        vstd::arithmetic::div_mod::lemma_fundamental_div_mod(-x, d);
        vstd::arithmetic::div_mod::lemma_mod_multiples_basic(-((-x) / d), d);
        assert(x == (-((-x) / d)) * d) by (nonlinear_arith)
            requires
                -x == d * ((-x) / d) + (-x) % d,
                (-x) % d == 0,
        ;
    }
}

/// Whether `tick` is a multiple of `tick_spacing`.
pub fn is_aligned(tick: i32, tick_spacing: u16) -> (aligned: bool)
    requires
        tick_spacing > 0,
    ensures
        aligned == spec_aligned(tick, tick_spacing),
{
    let spacing: i64 = tick_spacing as i64;
    if tick >= 0 {
        (tick as i64) % spacing == 0
    } else {
        let magnitude: i64 = -(tick as i64);
        proof {
            lemma_negation_keeps_multiples(tick as int, spacing as int);
        }
        magnitude % spacing == 0
    }
}

/// Checks a tick range against a pool's grid.
///
/// Succeeds exactly when the lower tick is strictly below the upper tick and
/// both are multiples of the spacing. A range whose bounds are out of order
/// is `InvalidTickRange` whatever the alignment; with ordered bounds a
/// misaligned lower tick is `InvalidLowerTick` whatever the upper tick, and a
/// misaligned upper tick beside an aligned lower tick is `InvalidUpperTick`.
pub fn validate_range(tick_lower: i32, tick_upper: i32, tick_spacing: u16) -> (outcome: Result<
    (),
    ErrorCode,
>)
    requires
        tick_spacing > 0,
    ensures
        outcome == spec_validate_range(tick_lower, tick_upper, tick_spacing),
        outcome is Ok <==> tick_lower < tick_upper && spec_aligned(tick_lower, tick_spacing)
            && spec_aligned(tick_upper, tick_spacing),
        tick_lower >= tick_upper ==> outcome == Err::<(), ErrorCode>(ErrorCode::InvalidTickRange),
        tick_lower < tick_upper && !spec_aligned(tick_lower, tick_spacing) ==> outcome == Err::<
            (),
            ErrorCode,
        >(ErrorCode::InvalidLowerTick),
        tick_lower < tick_upper && spec_aligned(tick_lower, tick_spacing) && !spec_aligned(
            tick_upper,
            tick_spacing,
        ) ==> outcome == Err::<(), ErrorCode>(ErrorCode::InvalidUpperTick),
{
    if tick_lower >= tick_upper {
        return Err(ErrorCode::InvalidTickRange);
    }
    if !is_aligned(tick_lower, tick_spacing) {
        return Err(ErrorCode::InvalidLowerTick);
    }
    if !is_aligned(tick_upper, tick_spacing) {
        return Err(ErrorCode::InvalidUpperTick);
    }
    Ok(())
}

} // verus!
