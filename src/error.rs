use vstd::prelude::*;

verus! {

/// The error type used by this library.
///
/// `E` is the error type of the bus transport: a failed transfer is carried
/// in `Spi` untouched, beside the protocol errors of the FTX 101.
#[derive(Debug, PartialEq, Eq)]
pub enum Error<E> {
    /// An SPI transfer failed.
    Spi(E),
    /// The measurement is invalid: the confirmation bit (D2) is low, so the
    /// FTX 101 has not yet completed a valid measurement.
    InvalidMeasurement,
    /// No probe is detected: the FTX 101 returned an all-zero word.
    NoProbe,
    /// The FTX 101 reports a device error (word 0x7FF8): the probe is
    /// damaged or the signal is too weak.
    DeviceError,
}

} // verus!
