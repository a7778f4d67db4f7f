use rppal::spi::Error as SpiError;
use vstd::prelude::*;

verus! {

/// Declares rppal's SPI error type so that a value of it can be held and
/// moved by verified code. Relies on `rppal::spi::Error` as an opaque value
/// only: nothing is assumed about its contents.
#[verifier::external_type_specification]
#[verifier::external_body]
pub struct ExSpiError(SpiError);

/// Everything that can go wrong while reading the MAX6675.
#[derive(Debug)]
pub enum Error {
    /// The underlying SPI transport failed; carries rppal's error as the
    /// cause, for diagnostics.
    SPI { source: SpiError },
    /// Bit D2 of the conversion word was high: the thermocouple input is
    /// open (disconnected or miswired).
    OpenCircuit,
    /// The SPI bus handed back fewer than two bytes without reporting an
    /// error of its own, so there is no full conversion word to decode.
    ReceivedNothing,
}

} // verus!
