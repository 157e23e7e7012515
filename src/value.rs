use vstd::prelude::*;
use scrypto::prelude::Decimal;
use crate::auth::{ComponentAddress, OracleError};

verus! {

#[verifier::external_type_specification]
#[verifier::external_body]
pub struct ExDecimal(Decimal);

/// The decimal whose value is the integer `n`.
pub uninterp spec fn decimal_of(n: int) -> Decimal;

/// Relies on `Decimal::from` for `i64`: the decimal of value `n`, which
/// depends on `n` alone (the product `n * 10^18` fits the 192-bit inner integer).
#[verifier::external_body]
pub(crate) fn decimal_from_int(n: i64) -> (r: Decimal)
    ensures
        r == decimal_of(n as int),
{
    Decimal::from(n)
}

/// The result of a read: the one scalar value of the store.
#[derive(Clone, Copy, Debug, PartialEq, Eq)]
pub struct PriceData {
    pub decimal: Decimal,
}

/// The self-describing payload of a relayed call.
#[derive(Clone, Copy, Debug, PartialEq, Eq)]
pub enum CallArgs {
    Unit,
    Decimal(Decimal),
    Reference(ComponentAddress),
}

/// The self-describing response of a relayed call.
#[derive(Clone, Copy, Debug, PartialEq, Eq)]
pub enum ReturnValue {
    Unit,
    Price(PriceData),
}

/// A response read as `PriceData`; any other shape is a mismatch.
pub open spec fn price_data_of(v: ReturnValue) -> Result<PriceData, OracleError> {
    match v {
        ReturnValue::Price(p) => Ok(p),
        ReturnValue::Unit => Err(OracleError::DecodeMismatch),
    }
}

pub fn decode_price_data(v: ReturnValue) -> (r: Result<PriceData, OracleError>)
    ensures
        r == price_data_of(v),
{
    match v {
        ReturnValue::Price(p) => Ok(p),
        ReturnValue::Unit => Err(OracleError::DecodeMismatch),
    }
}

} // verus!
