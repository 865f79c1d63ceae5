//! The split calculator: how a resolved escrow is divided between the agent
//! and the provider.

use vstd::prelude::*;

use crate::error::EscrowError;

verus! {

/// The refund owed to the agent for `amount` at `refund_percentage` percent,
/// rounded down.
pub open spec fn refund_of(amount: int, refund_percentage: int) -> int {
    amount * refund_percentage / 100
}

/// What the provider keeps: the rest of the amount.
pub open spec fn payment_of(amount: int, refund_percentage: int) -> int {
    amount - refund_of(amount, refund_percentage)
}

/// At no more than 100 percent the refund lies between nothing and the whole
/// amount, so both parts of the split can be represented.
pub proof fn lemma_refund_within_amount(amount: int, refund_percentage: int)
    requires
        0 <= amount,
        0 <= refund_percentage <= 100,
    ensures
        0 <= refund_of(amount, refund_percentage) <= amount,
        refund_of(amount, 0) == 0,
        refund_of(amount, 100) == amount,
{
    assert(0 <= amount * refund_percentage <= amount * 100) by (nonlinear_arith)
        requires
            0 <= amount,
            0 <= refund_percentage <= 100,
    ;
    assert(amount * 0 == 0);
}

/// The refund grows with the percentage.
pub proof fn lemma_refund_monotone(amount: int, lower: int, higher: int)
    requires
        0 <= amount,
        0 <= lower <= higher,
    ensures
        refund_of(amount, lower) <= refund_of(amount, higher),
{
    assert(amount * lower <= amount * higher) by (nonlinear_arith)
        requires
            0 <= amount,
            0 <= lower <= higher,
    ;
}

/// Splits `amount` into the agent's refund and the provider's payment.
///
/// The product is formed in 128 bits and every step is checked. The split
/// fails exactly when the refund would exceed the amount, which no percentage
/// up to 100 can cause.
pub fn calculate_split(amount: u64, refund_percentage: u8) -> (r: Result<(u64, u64), EscrowError>)
    ensures
        r.is_ok() <==> refund_of(amount as int, refund_percentage as int) <= amount,
        refund_percentage <= 100 ==> r.is_ok(),
        r matches Ok((refund, payment)) ==> {
            &&& refund == refund_of(amount as int, refund_percentage as int)
            &&& payment == payment_of(amount as int, refund_percentage as int)
            &&& refund + payment == amount
        },
        r matches Err(e) ==> e == EscrowError::ArithmeticOverflow,
{
    proof {
        assert(0 <= (amount as int) * (refund_percentage as int) <= 0xffff_ffff_ffff_ffff * 255)
            by (nonlinear_arith)
            requires
                0 <= amount <= 0xffff_ffff_ffff_ffff,
                0 <= refund_percentage <= 255,
        ;
        if refund_percentage <= 100 {
            lemma_refund_within_amount(amount as int, refund_percentage as int);
        }
    }
    let wide_amount: u128 = amount as u128;
    let wide_percentage: u128 = refund_percentage as u128;
    let product: u128 = match wide_amount.checked_mul(wide_percentage) {
        Some(p) => p,
        None => { return Err(EscrowError::ArithmeticOverflow); },
    };
    let wide_refund: u128 = match product.checked_div(100) {
        Some(q) => q,
        None => { return Err(EscrowError::ArithmeticOverflow); },
    };
    if wide_refund > wide_amount {
        return Err(EscrowError::ArithmeticOverflow);
    }
    let refund: u64 = wide_refund as u64;
    Ok((refund, amount - refund))
}

} // verus!
