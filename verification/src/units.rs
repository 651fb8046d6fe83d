//! Exact decimal text for token amounts: an integer amount divided by a
//! power of ten, written without rounding and without needless zeros.

use crate::primitives::{hex_digit, Word};
use vstd::prelude::*;
use vstd::string::*;

verus! {

/// The largest number of decimals that an amount can be scaled by.
pub const MAX_DECIMALS: u8 = 77;

/// Ten to the power `d`.
pub open spec fn pow10(d: nat) -> nat
    decreases d,
{
    if d == 0 {
        1
    } else {
        10 * pow10((d - 1) as nat)
    }
}

/// The character of a decimal digit.
pub open spec fn decimal_digit(v: int) -> char
    recommends
        0 <= v < 10,
{
    hex_digit(v)
}

/// The decimal numeral of `n`, without leading zeros.
pub open spec fn decimal_text(n: nat) -> Seq<char>
    decreases n,
{
    if n < 10 {
        seq![decimal_digit(n as int)]
    } else {
        decimal_text(n / 10).push(decimal_digit((n % 10) as int))
    }
}

/// `s` with zeros put before it until it is `width` characters long.
pub open spec fn zero_padded(s: Seq<char>, width: nat) -> Seq<char> {
    if s.len() >= width {
        s
    } else {
        Seq::new((width - s.len()) as nat, |i: int| '0') + s
    }
}

/// The whole units of `n`, a point, and the remainder in `d` digits (in one
/// digit where `d` is zero).
pub open spec fn units_text(n: nat, d: nat) -> Seq<char> {
    decimal_text(n / pow10(d)) + seq!['.'] + zero_padded(decimal_text(n % pow10(d)), d)
}

/// `s` without the zeros at its end.
pub open spec fn without_trailing_zeros(s: Seq<char>) -> Seq<char>
    decreases s.len(),
{
    if s.len() > 0 && s.last() == '0' {
        without_trailing_zeros(s.drop_last())
    } else {
        s
    }
}

/// `s` without the point at its end, if it ends in one.
pub open spec fn without_trailing_point(s: Seq<char>) -> Seq<char> {
    if s.len() > 0 && s.last() == '.' {
        s.drop_last()
    } else {
        s
    }
}

/// `s` without the zeros at its end and without the point that they may
/// leave there.
pub open spec fn trimmed(s: Seq<char>) -> Seq<char> {
    without_trailing_point(without_trailing_zeros(s))
}

/// The text of the amount `n` in units of ten to the power `d`.
pub open spec fn amount_text(n: nat, d: nat) -> Seq<char> {
    trimmed(units_text(n, d))
}

/// Why an amount could not be written.
#[derive(Clone, Copy, Debug, PartialEq, Eq, Structural)]
pub enum UnitsFailure {
    /// The asset has more decimals than a 256-bit amount can be scaled by.
    TooManyDecimals,
}

#[verifier::external_type_specification]
#[verifier::external_body]
pub struct ExUnitsError(alloy::primitives::utils::UnitsError);

/// `alloy::primitives::utils::format_units` on a 256-bit amount and a number
/// of decimals. It fails exactly when the decimals exceed 77. Otherwise it
/// writes the quotient of the amount by the power of ten, a point, and the
/// remainder padded with zeros to as many digits as there are decimals.
#[verifier::external_body]
fn format_units(amount: &Word, decimals: u8) -> (r: Result<
    String,
    alloy::primitives::utils::UnitsError,
>)
    ensures
        r.is_ok() == (decimals <= MAX_DECIMALS),
        r matches Ok(s) ==> s@ == units_text(amount.value(), decimals as nat),
{
    let value = alloy::primitives::U256::from_be_bytes(amount.bytes);
    alloy::primitives::utils::format_units(value, decimals)
}

/// Removes the zeros at the end of `text`, and then the point if the text
/// ends in one.
pub fn trim_amount(text: &str) -> (r: String)
    ensures
        r@ == trimmed(text@),
{
    let mut end: usize = text.unicode_len();
    proof {
        assert(text@ =~= text@.subrange(0, end as int));
    }
    while end > 0 && text.get_char(end - 1) == '0'
        invariant
            end <= text@.len(),
            without_trailing_zeros(text@) == without_trailing_zeros(
                text@.subrange(0, end as int),
            ),
        decreases end,
    {
        proof {
            let cur = text@.subrange(0, end as int);
            assert(cur.drop_last() =~= text@.subrange(0, end - 1));
        }
        end -= 1;
    }
    if end > 0 && text.get_char(end - 1) == '.' {
        proof {
            let cur = text@.subrange(0, end as int);
            assert(cur.drop_last() =~= text@.subrange(0, end - 1));
        }
        end -= 1;
    }
    text.substring_char(0, end).to_owned()
}

/// The exact decimal text of `amount` for a number of decimals that is
/// known to be within reach.
pub(crate) fn amount_to_text(amount: &Word, decimals: u8) -> (r: String)
    requires
        decimals <= MAX_DECIMALS,
    ensures
        r@ == amount_text(amount.value(), decimals as nat),
{
    match format_units(amount, decimals) {
        Ok(text) => trim_amount(text.as_str()),
        Err(_) => vstd::pervasive::unreached(),
    }
}

/// The exact decimal text of `amount` for an asset with `decimals` decimals.
pub fn format_amount(amount: &Word, decimals: u8) -> (r: Result<String, UnitsFailure>)
    ensures
        decimals <= MAX_DECIMALS ==> r.is_ok(),
        decimals > MAX_DECIMALS ==> r == Err::<String, UnitsFailure>(UnitsFailure::TooManyDecimals),
        r matches Ok(s) ==> s@ == amount_text(amount.value(), decimals as nat),
{
    if decimals > MAX_DECIMALS {
        Err(UnitsFailure::TooManyDecimals)
    } else {
        Ok(amount_to_text(amount, decimals))
    }
}

} // verus!
