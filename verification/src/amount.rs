//! Money amounts as rust_decimal keeps them.

use vstd::prelude::*;

verus! {

/// A decimal amount: `mantissa / 10^scale`, the two numbers by which
/// `rust_decimal::Decimal` keeps a value.
#[derive(Clone, Copy, Debug, PartialEq, Eq, Structural)]
pub struct Amount {
    pub mantissa: i128,
    pub scale: u32,
}

/// Calls `<rust_decimal::Decimal as Default>::default`, which the crate's source makes
/// `Decimal::ZERO` with all bits clear, and reads it back as mantissa 0 at scale 0.
#[verifier::external_body]
pub(crate) fn default_decimal_amount() -> (r: Amount)
    ensures
        r == (Amount { mantissa: 0, scale: 0 }),
{
    let zero = <rust_decimal::Decimal as Default>::default();
    Amount { mantissa: zero.mantissa(), scale: zero.scale() }
}

} // verus!
