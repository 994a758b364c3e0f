use vstd::prelude::*;

use crate::error::SwapError;

verus! {

/// Output share of the fixed-ratio resolver, in hundredths (a 2% spread).
pub const RATE_NUMERATOR: u64 = 98;

pub const RATE_DENOMINATOR: u64 = 100;

/// The quote for `amount_in`: `floor(amount_in * 98 / 100)`, or an
/// arithmetic error where the product leaves the `u64` range.
pub open spec fn quote_spec(amount_in: u64) -> Result<u64, SwapError> {
    if amount_in * RATE_NUMERATOR > u64::MAX {
        Err(SwapError::ArithmeticError)
    } else {
        Ok(((amount_in * RATE_NUMERATOR) / (RATE_DENOMINATOR as int)) as u64)
    }
}

/// Quote followed by the slippage check against `minimum_amount_out`.
pub open spec fn gated_quote_spec(amount_in: u64, minimum_amount_out: u64) -> Result<u64, SwapError> {
    match quote_spec(amount_in) {
        Err(e) => Err(e),
        Ok(out) => if out < minimum_amount_out {
            Err(SwapError::SlippageExceeded)
        } else {
            Ok(out)
        },
    }
}

/// Fixed-ratio exchange rate: the output amount for `amount_in`.
pub fn calculate_output_amount(amount_in: u64) -> (r: Result<u64, SwapError>)
    ensures
        r == quote_spec(amount_in),
{
    match amount_in.checked_mul(RATE_NUMERATOR) {
        None => Err(SwapError::ArithmeticError),
        Some(product) => Ok(product / RATE_DENOMINATOR),
    }
}

/// Quotes `amount_in` and refuses an output below `minimum_amount_out`.
pub fn quote_with_floor(amount_in: u64, minimum_amount_out: u64) -> (r: Result<u64, SwapError>)
    ensures
        r == gated_quote_spec(amount_in, minimum_amount_out),
{
    let out = calculate_output_amount(amount_in)?;
    if out < minimum_amount_out {
        Err(SwapError::SlippageExceeded)
    } else {
        Ok(out)
    }
}

/// The quote is the floor of 98% of the input wherever that product fits in
/// a `u64`, and an arithmetic error exactly where it does not.
pub proof fn lemma_quote_is_fixed_ratio(amount_in: u64)
    ensures
        amount_in as int * 98 <= u64::MAX ==> quote_spec(amount_in) == Ok::<u64, SwapError>(
            ((amount_in as int * 98) / 100) as u64,
        ),
        amount_in as int * 98 > u64::MAX <==> quote_spec(amount_in) == Err::<u64, SwapError>(
            SwapError::ArithmeticError,
        ),
        quote_spec(amount_in) matches Ok(out) ==> out <= amount_in,
{
}

} // verus!
