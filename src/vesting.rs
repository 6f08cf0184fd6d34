//! The vesting calculator: how much of a stream's principal has unlocked.
use vstd::prelude::*;

verus! {

/// Floor of `elapsed * amount / duration`, capped at `amount`: the amount that
/// linear vesting has unlocked after `elapsed` seconds of a term.
pub open spec fn vested(amount: int, duration: int, elapsed: int) -> int {
    let linear = elapsed * amount / duration;
    if linear < amount {
        linear
    } else {
        amount
    }
}

/// Entitlement computed in 128-bit arithmetic and narrowed to 64 bits:
/// `floor(time_passed * amount_to_stream / duration)`.
pub fn get_amount_to_emit(amount_to_stream: &u128, duration: &u128, time_passed: &u128) -> (r: u64)
    requires
        *duration > 0,
        *time_passed * *amount_to_stream <= u128::MAX,
    ensures
        r == ((*time_passed as int * *amount_to_stream as int) / *duration as int) as u64,
        (*time_passed as int * *amount_to_stream as int) / *duration as int <= u64::MAX ==> r
            == (*time_passed as int * *amount_to_stream as int) / *duration as int,
{
    ((*time_passed * *amount_to_stream) / *duration) as u64
}

/// Bounds on the uncapped linear entitlement `floor(elapsed * amount / duration)`.
pub proof fn lemma_linear_bounds(amount: int, duration: int, elapsed: int)
    requires
        0 <= amount,
        0 < duration,
        0 <= elapsed,
    ensures
        elapsed * amount / duration >= 0,
        elapsed >= duration ==> elapsed * amount / duration >= amount,
        elapsed <= duration ==> elapsed * amount / duration <= amount,
{
    assert(elapsed * amount / duration >= 0) by (nonlinear_arith)
        requires
            0 <= amount,
            0 <= elapsed,
            0 < duration,
    ;
    assert(duration * amount / duration == amount) by (nonlinear_arith)
        requires
            0 < duration,
    ;
    if elapsed >= duration {
        assert(elapsed * amount >= duration * amount) by (nonlinear_arith)
            requires
                0 <= amount,
                0 < duration <= elapsed,
        ;
        vstd::arithmetic::div_mod::lemma_div_is_ordered(duration * amount, elapsed * amount, duration);
    }
    if elapsed <= duration {
        assert(elapsed * amount <= duration * amount) by (nonlinear_arith)
            requires
                0 <= amount,
                0 <= elapsed <= duration,
        ;
        vstd::arithmetic::div_mod::lemma_div_is_ordered(elapsed * amount, duration * amount, duration);
    }
}

/// The amount unlocked after `elapsed` seconds of a term of `duration`
/// seconds over a principal of `amount`: linear in time, never above `amount`.
pub fn vested_amount(amount: u64, duration: u64, elapsed: u64) -> (r: u64)
    requires
        duration > 0,
    ensures
        r == vested(amount as int, duration as int, elapsed as int),
        r <= amount,
{
    let capped: u64 = if elapsed < duration {
        elapsed
    } else {
        duration
    };
    assert(capped * amount <= u64::MAX * u64::MAX) by (nonlinear_arith)
        requires
            capped <= u64::MAX,
            amount <= u64::MAX,
    ;
    let r = get_amount_to_emit(&(amount as u128), &(duration as u128), &(capped as u128));
    proof {
        lemma_linear_bounds(amount as int, duration as int, capped as int);
        lemma_linear_bounds(amount as int, duration as int, elapsed as int);
    }
    r
}

} // verus!
