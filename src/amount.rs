use vstd::prelude::*;

verus! {

/// Satoshi in one millibitcoin.
pub const SAT_PER_MILLIBITCOIN: u64 = 100_000;

/// An amount as the local JSON-RPC client holds it: the variant is the unit.
#[derive(Clone, Copy, Debug, PartialEq, Eq, Structural)]
pub enum InternalAmount {
    Millisatoshi(u64),
    Satoshi(u64),
    Millibitcoin(u64),
    Bitcoin(u64),
}

/// The units the wire message can carry. There is no millibitcoin unit on
/// the wire.
#[derive(Clone, Copy, Debug, PartialEq, Eq, Structural)]
pub enum Unit {
    Millisatoshi(u64),
    Satoshi(u64),
    Bitcoin(u64),
}

/// An amount as the wire message holds it; `unit` is `None` when the
/// message carries no amount.
#[derive(Clone, Copy, Debug, PartialEq, Eq, Structural)]
pub struct ExternalAmount {
    pub unit: Option<Unit>,
}

/// Why a conversion was refused.
#[derive(Clone, Copy, Debug, PartialEq, Eq, Structural)]
pub enum ConversionError {
    /// The wire amount carries no unit the client knows.
    UnsupportedUnit,
    /// Scaling millibitcoin to satoshi does not fit in 64 bits.
    ArithmeticOverflow,
}

/// The wire amount that carries exactly `u`.
pub open spec fn with_unit(u: Unit) -> ExternalAmount {
    ExternalAmount { unit: Some(u) }
}

/// The satoshi in `v` millibitcoin, as a mathematical integer.
pub open spec fn millibitcoin_in_sat(v: u64) -> int {
    v * SAT_PER_MILLIBITCOIN
}

/// What converting a client amount to the wire gives: identity on the
/// units the wire has, millibitcoin scaled to satoshi, and an overflow error
/// where that scale leaves 64 bits.
pub open spec fn external_of(a: InternalAmount) -> Result<ExternalAmount, ConversionError> {
    match a {
        InternalAmount::Millisatoshi(v) => Ok(with_unit(Unit::Millisatoshi(v))),
        InternalAmount::Satoshi(v) => Ok(with_unit(Unit::Satoshi(v))),
        InternalAmount::Millibitcoin(v) => if millibitcoin_in_sat(v) <= u64::MAX {
            Ok(with_unit(Unit::Satoshi(millibitcoin_in_sat(v) as u64)))
        } else {
            Err(ConversionError::ArithmeticOverflow)
        },
        InternalAmount::Bitcoin(v) => Ok(with_unit(Unit::Bitcoin(v))),
    }
}

/// What converting a wire amount to the client gives: the same unit and
/// value, or an error where the message carries no unit.
pub open spec fn internal_of(a: ExternalAmount) -> Result<InternalAmount, ConversionError> {
    match a.unit {
        Some(Unit::Millisatoshi(v)) => Ok(InternalAmount::Millisatoshi(v)),
        Some(Unit::Satoshi(v)) => Ok(InternalAmount::Satoshi(v)),
        Some(Unit::Bitcoin(v)) => Ok(InternalAmount::Bitcoin(v)),
        None => Err(ConversionError::UnsupportedUnit),
    }
}

} // verus!
