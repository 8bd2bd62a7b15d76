use vstd::prelude::*;

verus! {

/// The denominator of a rate in basis points: 10000 basis points are 100%.
pub const BASIS_POINTS_SCALE: i128 = 10000;

/// Integer division of `n` by a positive `d`, truncated toward zero.
pub open spec fn div_toward_zero(n: int, d: int) -> int
    recommends
        d > 0,
{
    if n >= 0 {
        n / d
    } else {
        -((-n) / d)
    }
}

/// Whether `amount * bips` is a value of `i128`.
pub open spec fn product_fits(amount: int, bips: int) -> bool {
    i128::MIN <= amount * bips <= i128::MAX
}

/// The fee on `amount` at a rate of `bips` basis points, rounded toward zero.
pub open spec fn fee_of(amount: int, bips: int) -> int {
    div_toward_zero(amount * bips, BASIS_POINTS_SCALE as int)
}

/// At a rate between 0% and 100%, the fee on a non-negative amount lies
/// between zero and the amount.
pub proof fn lemma_fee_bounded(amount: int, bips: int)
    requires
        0 <= bips <= 10000,
        amount >= 0,
    ensures
        0 <= fee_of(amount, bips) <= amount,
{
    assert(0 <= amount * bips <= amount * 10000) by (nonlinear_arith)
        requires
            0 <= bips <= 10000,
            amount >= 0,
    ;
    assert(0 <= (amount * bips) / 10000 <= amount) by (nonlinear_arith)
        requires
            0 <= amount * bips <= amount * 10000,
    ;
}

/// At a rate between 0% and 100%, the fee on a negative amount lies between
/// the amount and zero.
pub proof fn lemma_fee_bounded_negative(amount: int, bips: int)
    requires
        0 <= bips <= 10000,
        amount < 0,
    ensures
        amount <= fee_of(amount, bips) <= 0,
{
    let m = -amount;
    assert(0 <= m * bips <= m * 10000) by (nonlinear_arith)
        requires
            0 <= bips <= 10000,
            m > 0,
    ;
    assert(0 <= (m * bips) / 10000 <= m) by (nonlinear_arith)
        requires
            0 <= m * bips <= m * 10000,
    ;
    assert(amount * bips == -(m * bips)) by (nonlinear_arith)
        requires
            m == -amount,
    ;
}

/// The fee on `amount` at `bips` basis points, or `None` where
/// `amount * bips` does not fit in 128 bits.
pub fn compute_fee(amount: i128, bips: i128) -> (r: Option<i128>)
    ensures
        r == (if product_fits(amount as int, bips as int) {
            Some(fee_of(amount as int, bips as int) as i128)
        } else {
            None::<i128>
        }),
        r is Some ==> r->Some_0 as int == fee_of(amount as int, bips as int),
{
    match amount.checked_mul(bips) {
        None => None,
        // Division of a signed integer truncates toward zero.
        Some(p) => Some(p / BASIS_POINTS_SCALE),
    }
}

} // verus!
