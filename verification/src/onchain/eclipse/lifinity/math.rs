//! What a pool pays out for what is paid in.

use super::constants::{LIQUIDITY_FEES_DENOMINATOR, LIQUIDITY_FEES_NUMERATOR};
use super::typedefs::TradeDirection;
use vstd::prelude::*;

verus! {

/// The reserves of the token that is paid in.
pub open spec fn spec_pool_src(
    token_a_reserves: u64,
    token_b_reserves: u64,
    direction: TradeDirection,
) -> u64 {
    match direction {
        TradeDirection::AtoB => token_a_reserves,
        TradeDirection::BtoA => token_b_reserves,
    }
}

/// The reserves of the token that is paid out.
pub open spec fn spec_pool_dst(
    token_a_reserves: u64,
    token_b_reserves: u64,
    direction: TradeDirection,
) -> u64 {
    match direction {
        TradeDirection::AtoB => token_b_reserves,
        TradeDirection::BtoA => token_a_reserves,
    }
}

/// What is left of an amount once the pool has kept its fee, which is
/// rounded down.
pub open spec fn spec_amount_after_fee(amount_in: u64) -> int {
    amount_in - amount_in * LIQUIDITY_FEES_NUMERATOR / (LIQUIDITY_FEES_DENOMINATOR as int)
}

/// What a pool of constant product pays out: the reserves of the token paid
/// out, times what comes in after the fee, divided by the reserves of the
/// token paid in plus what comes in after the fee, rounded down.
pub open spec fn spec_amount_out(
    amount_in: u64,
    token_a_reserves: u64,
    token_b_reserves: u64,
    direction: TradeDirection,
) -> int {
    let pool_src = spec_pool_src(token_a_reserves, token_b_reserves, direction);
    let pool_dst = spec_pool_dst(token_a_reserves, token_b_reserves, direction);
    let net = spec_amount_after_fee(amount_in);
    pool_dst * net / (pool_src + net)
}

/// The amount can be computed in 64 bits: neither the fee's product nor the
/// sum of reserves and what comes in overflows, and that sum is not zero.
pub open spec fn spec_amount_out_defined(
    amount_in: u64,
    token_a_reserves: u64,
    token_b_reserves: u64,
    direction: TradeDirection,
) -> bool {
    let pool_src = spec_pool_src(token_a_reserves, token_b_reserves, direction);
    let net = spec_amount_after_fee(amount_in);
    &&& amount_in * LIQUIDITY_FEES_NUMERATOR <= u64::MAX
    &&& 0 < pool_src + net <= u64::MAX
}

/// Computes what the pool pays out for `amount_in`, or nothing where the
/// amount cannot be computed in 64 bits.
pub fn get_amount_out(
    amount_in: u64,
    token_a_reserves: u64,
    token_b_reserves: u64,
    direction: TradeDirection,
) -> (amount_out: Option<u64>)
    ensures
        spec_amount_out_defined(amount_in, token_a_reserves, token_b_reserves, direction)
            ==> amount_out == Some(
            spec_amount_out(amount_in, token_a_reserves, token_b_reserves, direction) as u64,
        ),
        !spec_amount_out_defined(amount_in, token_a_reserves, token_b_reserves, direction)
            ==> amount_out is None,
        amount_out is Some ==> amount_out.unwrap() <= spec_pool_dst(
            token_a_reserves,
            token_b_reserves,
            direction,
        ),
{
    let (pool_src, pool_dst) = match direction {
        TradeDirection::AtoB => (token_a_reserves, token_b_reserves),
        TradeDirection::BtoA => (token_b_reserves, token_a_reserves),
    };
    if amount_in > u64::MAX / LIQUIDITY_FEES_NUMERATOR {
        return None;
    }
    let fees: u64 = (amount_in * LIQUIDITY_FEES_NUMERATOR) / LIQUIDITY_FEES_DENOMINATOR;
    assert(fees <= amount_in) by (nonlinear_arith)
        requires
            fees == (amount_in * 25) / 10000,
            amount_in >= 0,
    ;
    let amount_in_with_fee: u64 = amount_in - fees;
    if amount_in_with_fee > u64::MAX - pool_src {
        return None;
    }
    let divisor: u64 = pool_src + amount_in_with_fee;
    if divisor == 0 {
        return None;
    }
    assert(pool_dst * amount_in_with_fee <= 0xffff_ffff_ffff_ffff * 0xffff_ffff_ffff_ffff)
        by (nonlinear_arith)
        requires
            0 <= pool_dst <= 0xffff_ffff_ffff_ffff,
            0 <= amount_in_with_fee <= 0xffff_ffff_ffff_ffff,
    ;
    let product: u128 = (pool_dst as u128) * (amount_in_with_fee as u128);
    let quotient: u128 = product / (divisor as u128);
    assert(quotient <= pool_dst) by (nonlinear_arith)
        requires
            quotient == (pool_dst * amount_in_with_fee) / (divisor as int),
            divisor == pool_src + amount_in_with_fee,
            divisor > 0,
            pool_src >= 0,
            pool_dst >= 0,
            amount_in_with_fee >= 0,
    ;
    Some(quotient as u64)
}

} // verus!
