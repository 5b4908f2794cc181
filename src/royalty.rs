//! Royalty arithmetic: the creator's cut of a payment.
use vstd::prelude::*;

verus! {

/// Integer division by 100 that truncates toward zero, as Rust's `/` does.
pub open spec fn div_100_toward_zero(x: int) -> int {
    if x >= 0 {
        x / 100
    } else {
        -((-x) / 100)
    }
}

/// The cut of `amount` at `percentage` percent: `amount * percentage / 100`,
/// truncated toward zero.
pub open spec fn royalty_of(amount: int, percentage: int) -> int {
    div_100_toward_zero(amount * percentage)
}

/// Whether `amount * percentage` fits in an `i128`.
pub open spec fn product_fits(amount: int, percentage: int) -> bool {
    i128::MIN <= amount * percentage <= i128::MAX
}

/// The royalty owed on `amount` at `percentage` percent, or `None` where the
/// product `amount * percentage` does not fit in an `i128`.
pub fn royalty_amount(amount: i128, percentage: u64) -> (r: Option<i128>)
    ensures
        r.is_some() == product_fits(amount as int, percentage as int),
        r.is_some() ==> r.unwrap() as int == royalty_of(amount as int, percentage as int),
{
    let p: i128 = percentage as i128;
    match amount.checked_mul(p) {
        Some(prod) => {
            let q: i128 = prod / 100;
            Some(q)
        },
        None => None,
    }
}

} // verus!
