use vstd::prelude::*;

verus! {

/// Failures surfaced by the driver and the converters.
///
/// `I` is the transport's own error type, passed through opaquely.
#[derive(Clone, Copy, Debug, PartialEq, Eq)]
pub enum Error<I> {
    /// A bus write or write-read failed; the transport's error is inside.
    I2c(I),
    /// The identity register returned this byte instead of the expected one.
    IdMismatch(u8),
    /// A raw channel reached its saturation threshold; the reading is unusable.
    SignalOverflow,
    /// The visible-light derivation would need a negative unsigned subtraction.
    InfraredOverflow,
}

impl<I> core::convert::From<I> for Error<I> {
    fn from(error: I) -> (r: Self) {
        Error::I2c(error)
    }
}

impl<I> vstd::std_specs::convert::FromSpecImpl<I> for Error<I> {
    open spec fn obeys_from_spec() -> bool {
        true
    }

    open spec fn from_spec(error: I) -> Self {
        Error::I2c(error)
    }
}

} // verus!
