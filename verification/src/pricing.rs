//! Fixed-price swap arithmetic: base currency in, tokens out.

use vstd::prelude::*;
use vstd::arithmetic::div_mod::{lemma_fundamental_div_mod, lemma_mod_bound};
use crate::error::CustomError;

verus! {

/// Smallest base-currency units per whole base-currency unit: the fixed
/// scale that the pool's `token_price` is quoted against.
pub const BASE_UNIT: u64 = 1_000_000_000;

/// The exact token amount a swap owes: `token_price * lamport_amount`
/// scaled down by `BASE_UNIT`, with the fractional remainder dropped
/// (truncation favours the pool).
pub open spec fn token_out_spec(token_price: u64, lamport_amount: u64) -> int {
    (token_price * lamport_amount) / (BASE_UNIT as int)
}

/// Converts a base-currency amount into the token amount the pool owes at
/// the given fixed price. The multiplication is checked: a product beyond
/// the 64-bit range is a fatal `Overflow`, never a silent wrap.
pub fn compute_token_out(token_price: u64, lamport_amount: u64) -> (r: Result<u64, CustomError>)
    ensures
        token_price * lamport_amount <= u64::MAX
            ==> r == Ok::<u64, CustomError>(token_out_spec(token_price, lamport_amount) as u64),
        token_price * lamport_amount > u64::MAX
            ==> r == Err::<u64, CustomError>(CustomError::Overflow),
{
    match token_price.checked_mul(lamport_amount) {
        Some(product) => Ok(product / BASE_UNIT),
        None => Err(CustomError::Overflow),
    }
}

/// Whenever the product fits the 64-bit range, so does the token amount.
pub proof fn lemma_token_out_bounds(token_price: u64, lamport_amount: u64)
    requires
        token_price * lamport_amount <= u64::MAX,
    ensures
        0 <= token_out_spec(token_price, lamport_amount) <= u64::MAX,
{
    let product = token_price * lamport_amount;
    let unit = BASE_UNIT as int;
    let q = token_out_spec(token_price, lamport_amount);
    assert(0 <= product) by (nonlinear_arith)
        requires product == token_price * lamport_amount;
    lemma_fundamental_div_mod(product, unit);
    lemma_mod_bound(product, unit);
    assert(0 <= q <= product) by (nonlinear_arith)
        requires
            product == unit * q + product % unit,
            0 <= product % unit < unit,
            unit == BASE_UNIT,
            0 <= product;
}

/// The truncating division never pays out more than the exact quotient:
/// scaled back up, the token amount stays within `token_price *
/// lamport_amount`, so rounding always favours the pool.
pub proof fn lemma_token_out_round_trip(token_price: u64, lamport_amount: u64)
    ensures
        0 <= token_out_spec(token_price, lamport_amount),
        token_out_spec(token_price, lamport_amount) * BASE_UNIT <= token_price * lamport_amount,
{
    let product = token_price * lamport_amount;
    let unit = BASE_UNIT as int;
    lemma_fundamental_div_mod(product, unit);
    assert(product == unit * (product / unit) + product % unit);
    assert(0 <= product) by (nonlinear_arith)
        requires product == token_price * lamport_amount;
    assert(unit * (product / unit) == (product / unit) * unit) by (nonlinear_arith);
}

} // verus!
