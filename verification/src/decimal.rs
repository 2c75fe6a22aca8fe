//! The fixed-point number in which a price is handed out.
//!
//! `scrypto`'s `Decimal` counts subunits of 10^-18. Nothing here is proved:
//! this module states what the conversion from a whole number is trusted to
//! return.

use scrypto::math::Decimal;
use vstd::prelude::*;

verus! {

/// Makes `scrypto::math::Decimal` known to the verifier as a type whose
/// inside it does not see. Nothing is claimed of it here.
#[verifier::external_type_specification]
#[verifier::external_body]
pub struct ExDecimal(Decimal);

/// Subunits in one whole unit of a `Decimal`.
pub const ATTOS_PER_UNIT: i128 = 1_000_000_000_000_000_000;

/// The subunits of 10^-18 that a `Decimal` holds: what `Decimal::attos`
/// returns, as a mathematical integer.
pub uninterp spec fn decimal_attos(value: Decimal) -> int;

/// Calls `Decimal::from` on an `i64`. The contract claims that the result
/// holds `units` whole units and no fraction, which is `units` times 10^18
/// subunits. The product cannot leave the 192 bits of a `Decimal`, so the
/// call returns for every `i64`.
#[verifier::external_body]
pub(crate) fn decimal_from_units(units: i64) -> (value: Decimal)
    ensures
        decimal_attos(value) == units * ATTOS_PER_UNIT,
{
    Decimal::from(units)
}

} // verus!
