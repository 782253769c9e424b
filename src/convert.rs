use vstd::prelude::*;
use crate::amount::{
    ExternalAmount, InternalAmount, Unit, ConversionError, SAT_PER_MILLIBITCOIN, external_of,
    internal_of, millibitcoin_in_sat, with_unit,
};

verus! {

/// Converts a client amount to the wire. Millibitcoin leaves as satoshi,
/// since the wire has no millibitcoin unit; the scale is checked.
pub fn to_external(a: InternalAmount) -> (r: Result<ExternalAmount, ConversionError>)
    ensures
        r == external_of(a),
{
    match a {
        InternalAmount::Millisatoshi(v) => Ok(ExternalAmount { unit: Some(Unit::Millisatoshi(v)) }),
        InternalAmount::Satoshi(v) => Ok(ExternalAmount { unit: Some(Unit::Satoshi(v)) }),
        InternalAmount::Millibitcoin(v) => match v.checked_mul(SAT_PER_MILLIBITCOIN) {
            Some(sat) => Ok(ExternalAmount { unit: Some(Unit::Satoshi(sat)) }),
            None => Err(ConversionError::ArithmeticOverflow),
        },
        InternalAmount::Bitcoin(v) => Ok(ExternalAmount { unit: Some(Unit::Bitcoin(v)) }),
    }
}

/// Converts a wire amount to the client, keeping unit and value. A message
/// without a unit is refused.
pub fn to_internal(a: &ExternalAmount) -> (r: Result<InternalAmount, ConversionError>)
    ensures
        r == internal_of(*a),
        a.unit is None <==> r == Err::<InternalAmount, ConversionError>(
            ConversionError::UnsupportedUnit,
        ),
{
    match a.unit {
        Some(Unit::Millisatoshi(v)) => Ok(InternalAmount::Millisatoshi(v)),
        Some(Unit::Satoshi(v)) => Ok(InternalAmount::Satoshi(v)),
        Some(Unit::Bitcoin(v)) => Ok(InternalAmount::Bitcoin(v)),
        None => Err(ConversionError::UnsupportedUnit),
    }
}

/// Every amount in a unit the wire carries (millisatoshi, satoshi, bitcoin)
/// comes back unchanged from the wire.
pub proof fn lemma_round_trip_shared_unit(a: InternalAmount)
    requires
        !(a is Millibitcoin),
    ensures
        external_of(a) is Ok,
        internal_of(external_of(a)->Ok_0) == Ok::<InternalAmount, ConversionError>(a),
{
}

/// Millibitcoin whose satoshi value fits in 64 bits goes to the wire as that
/// many satoshi, and comes back as satoshi, not as millibitcoin.
pub proof fn lemma_millibitcoin_comes_back_as_satoshi(v: u64)
    requires
        millibitcoin_in_sat(v) <= u64::MAX,
    ensures
        external_of(InternalAmount::Millibitcoin(v)) == Ok::<ExternalAmount, ConversionError>(
            with_unit(Unit::Satoshi(millibitcoin_in_sat(v) as u64)),
        ),
        internal_of(with_unit(Unit::Satoshi(millibitcoin_in_sat(v) as u64))) == Ok::<
            InternalAmount,
            ConversionError,
        >(InternalAmount::Satoshi(millibitcoin_in_sat(v) as u64)),
        internal_of(with_unit(Unit::Satoshi(millibitcoin_in_sat(v) as u64))) != Ok::<
            InternalAmount,
            ConversionError,
        >(InternalAmount::Millibitcoin(v)),
{
}

} // verus!
