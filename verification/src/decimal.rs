//! Decimal rendering of samples.

use vstd::prelude::*;

verus! {

/// The ASCII digit for `d`, which is below ten.
pub open spec fn digit_byte(d: nat) -> u8 {
    (0x30 + d) as u8
}

/// The decimal numeral of `n` in ASCII, most significant digit first,
/// without leading zeros.
pub open spec fn decimal_digits(n: nat) -> Seq<u8>
    decreases n,
{
    if n < 10 {
        seq![digit_byte(n)]
    } else {
        decimal_digits(n / 10).push(digit_byte(n % 10))
    }
}

/// `itoa::Buffer::format` on a `u16`: the decimal numeral of `value`.
#[verifier::external_body]
pub(crate) fn format_u16(value: u16) -> (digits: Vec<u8>)
    ensures
        digits@ == decimal_digits(value as nat),
{
    itoa::Buffer::new().format(value).as_bytes().to_vec()
}

} // verus!
