//! The decay calculator: the unit price of the auction as a function of time.
//!
//! The price falls linearly from the start price at `start_time` to the
//! reserve price at `end_time`, rounded in the bidder's disfavour (the decay
//! is rounded down, so the price is rounded up), and never leaves the range
//! between the two.

use crate::error::ErrorCode;
use vstd::arithmetic::div_mod::*;
use vstd::arithmetic::mul::*;
use vstd::prelude::*;

verus! {

/// How far the price has fallen `elapsed` seconds into a window of `duration`
/// seconds, when it falls by `price_range` over the whole window. The product
/// is formed first and divided afterwards, rounding down.
pub open spec fn decay(price_range: int, elapsed: int, duration: int) -> int {
    (price_range * elapsed) / duration
}

/// The unit price at time `now`.
pub open spec fn price_at(
    start_price: u64,
    reserve_price: u64,
    start_time: i64,
    end_time: i64,
    now: i64,
) -> int {
    if now >= end_time {
        reserve_price as int
    } else if now <= start_time {
        start_price as int
    } else {
        let decayed = start_price - decay(
            start_price - reserve_price,
            now - start_time,
            end_time - start_time,
        );
        if decayed < reserve_price {
            reserve_price as int
        } else {
            decayed
        }
    }
}

/// What `calculate_current_price` answers: the price at `now`, or
/// `MathOverflow` where a price would have to be interpolated between a start
/// price and a higher reserve price.
pub open spec fn quoted_price(
    start_price: u64,
    reserve_price: u64,
    start_time: i64,
    end_time: i64,
    now: i64,
) -> Result<u64, ErrorCode> {
    if start_time < now < end_time && start_price < reserve_price {
        Err(ErrorCode::MathOverflow)
    } else {
        Ok(price_at(start_price, reserve_price, start_time, end_time, now) as u64)
    }
}

/// The decay grows with the elapsed time and never exceeds the price range.
pub proof fn lemma_decay_bounds(price_range: int, elapsed: int, later: int, duration: int)
    requires
        0 <= price_range,
        0 <= elapsed <= later <= duration,
        0 < duration,
    ensures
        0 <= decay(price_range, elapsed, duration),
        decay(price_range, elapsed, duration) <= decay(price_range, later, duration),
        decay(price_range, later, duration) <= price_range,
{
    lemma_mul_nonnegative(price_range, elapsed);
    lemma_mul_inequality(elapsed, later, price_range);
    lemma_mul_inequality(later, duration, price_range);
    lemma_mul_is_commutative(price_range, elapsed);
    lemma_mul_is_commutative(price_range, later);
    lemma_mul_is_commutative(price_range, duration);
    lemma_div_pos_is_pos(price_range * elapsed, duration);
    lemma_div_is_ordered(price_range * elapsed, price_range * later, duration);
    lemma_div_is_ordered(price_range * later, price_range * duration, duration);
    lemma_div_multiples_vanish(price_range, duration);
}

/// The price never leaves the range between the reserve price and the start
/// price.
pub proof fn lemma_price_within_bounds(
    start_price: u64,
    reserve_price: u64,
    start_time: i64,
    end_time: i64,
    now: i64,
)
    requires
        reserve_price <= start_price,
    ensures
        reserve_price <= price_at(start_price, reserve_price, start_time, end_time, now)
            <= start_price,
{
    if start_time < now < end_time {
        lemma_decay_bounds(
            start_price - reserve_price,
            now - start_time,
            now - start_time,
            end_time - start_time,
        );
    }
}

/// The price never rises as time goes on.
pub proof fn lemma_price_non_increasing(
    start_price: u64,
    reserve_price: u64,
    start_time: i64,
    end_time: i64,
    earlier: i64,
    later: i64,
)
    requires
        reserve_price <= start_price,
        earlier <= later,
    ensures
        price_at(start_price, reserve_price, start_time, end_time, later) <= price_at(
            start_price,
            reserve_price,
            start_time,
            end_time,
            earlier,
        ),
{
    lemma_price_within_bounds(start_price, reserve_price, start_time, end_time, earlier);
    lemma_price_within_bounds(start_price, reserve_price, start_time, end_time, later);
    if start_time < earlier && later < end_time {
        lemma_decay_bounds(
            start_price - reserve_price,
            earlier - start_time,
            later - start_time,
            end_time - start_time,
        );
    }
}

/// At its start time, and at any time before, an auction quotes its start
/// price.
pub proof fn lemma_price_at_start(
    start_price: u64,
    reserve_price: u64,
    start_time: i64,
    end_time: i64,
    now: i64,
)
    requires
        start_time < end_time,
        now <= start_time,
    ensures
        price_at(start_price, reserve_price, start_time, end_time, now) == start_price,
{
}

/// From its end time on, an auction quotes its reserve price.
pub proof fn lemma_price_after_end(
    start_price: u64,
    reserve_price: u64,
    start_time: i64,
    end_time: i64,
    now: i64,
)
    requires
        end_time <= now,
    ensures
        price_at(start_price, reserve_price, start_time, end_time, now) == reserve_price,
{
}

/// A quoted price is the price of `price_at`, and one is quoted at every time
/// where the start price is not below the reserve price.
pub proof fn lemma_quoted_price(
    start_price: u64,
    reserve_price: u64,
    start_time: i64,
    end_time: i64,
    now: i64,
)
    ensures
        quoted_price(start_price, reserve_price, start_time, end_time, now) matches Ok(price)
            ==> price == price_at(start_price, reserve_price, start_time, end_time, now),
        reserve_price <= start_price ==> quoted_price(
            start_price,
            reserve_price,
            start_time,
            end_time,
            now,
        ) is Ok,
{
    if reserve_price <= start_price {
        lemma_price_within_bounds(start_price, reserve_price, start_time, end_time, now);
    }
}

/// The price at time `current_time` of an auction that opens at `start_price`
/// at `start_time` and reaches `reserve_price` at `end_time`.
pub fn calculate_current_price(
    start_price: u64,
    reserve_price: u64,
    start_time: i64,
    end_time: i64,
    current_time: i64,
) -> (r: Result<u64, ErrorCode>)
    ensures
        r == quoted_price(start_price, reserve_price, start_time, end_time, current_time),
{
    if current_time >= end_time {
        return Ok(reserve_price);
    }
    if current_time <= start_time {
        return Ok(start_price);
    }
    if start_price < reserve_price {
        return Err(ErrorCode::MathOverflow);
    }
    let duration: u128 = (end_time as i128 - start_time as i128) as u128;
    let elapsed: u128 = (current_time as i128 - start_time as i128) as u128;
    let price_range: u128 = (start_price - reserve_price) as u128;
    proof {
        lemma_mul_upper_bound(
            price_range as int,
            0xffff_ffff_ffff_ffff,
            elapsed as int,
            0xffff_ffff_ffff_ffff,
        );
        lemma_decay_bounds(price_range as int, elapsed as int, elapsed as int, duration as int);
    }
    let fallen: u128 = (price_range * elapsed) / duration;
    let current_price: u64 = start_price - (fallen as u64);
    if current_price < reserve_price {
        Ok(reserve_price)
    } else {
        Ok(current_price)
    }
}

} // verus!
