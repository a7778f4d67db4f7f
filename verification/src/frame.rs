use vstd::prelude::*;

use crate::decode::quarters_from_word;
use crate::decode::spec_is_open;
use crate::decode::spec_quarters;
use crate::error::Error;
use rppal::spi::Error as SpiError;

verus! {

/// The two bytes of one SPI frame, read as a big-endian 16-bit word: the
/// chip shifts D15 out first, so the first byte is the most significant.
pub open spec fn spec_frame_word(b0: u8, b1: u8) -> u16 {
    ((b0 as u16) << 8) | (b1 as u16)
}

/// The raw conversion word of one SPI transfer.
///
/// `outcome` is what the transport's read reported: the number of bytes it
/// placed in the two-byte buffer, or its own error. A transport error is
/// passed on unchanged as the cause of `Error::SPI`; a transfer of fewer
/// than two bytes yields `Error::ReceivedNothing`; a full transfer yields
/// the two buffer bytes as a big-endian word.
pub fn word_from_transfer(outcome: Result<usize, SpiError>, b0: u8, b1: u8) -> (r: Result<u16, Error>)
    ensures
        outcome matches Err(cause) ==> (r matches Err(Error::SPI { source }) && source == cause),
        (outcome matches Ok(n) && n == 2) ==> (r matches Ok(w) && w == spec_frame_word(b0, b1)),
        (outcome matches Ok(n) && n != 2) ==> (r matches Err(e) && e is ReceivedNothing),
{
    match outcome {
        Ok(n) => {
            if n == 2 {
                Ok(((b0 as u16) << 8) | (b1 as u16))
            } else {
                Err(Error::ReceivedNothing)
            }
        },
        Err(cause) => Err(Error::SPI { source: cause }),
    }
}

/// The temperature of one SPI transfer, in quarters of a degree Celsius.
///
/// Composes `word_from_transfer` with the fault check and the magnitude
/// decode: a transport error and a short read fail as there; a full word
/// with the open-circuit bit high fails with `Error::OpenCircuit`; only a
/// full, unflagged word yields its magnitude.
pub fn quarters_from_transfer(outcome: Result<usize, SpiError>, b0: u8, b1: u8) -> (r: Result<u16, Error>)
    ensures
        outcome matches Err(cause) ==> (r matches Err(Error::SPI { source }) && source == cause),
        (outcome matches Ok(n) && n != 2) ==> (r matches Err(e) && e is ReceivedNothing),
        (outcome matches Ok(n) && n == 2 && spec_is_open(spec_frame_word(b0, b1))) ==> (r matches
            Err(e) && e is OpenCircuit),
        (outcome matches Ok(n) && n == 2 && !spec_is_open(spec_frame_word(b0, b1))) ==> (r matches
            Ok(q) && q == spec_quarters(spec_frame_word(b0, b1))),
{
    match word_from_transfer(outcome, b0, b1) {
        Ok(word) => quarters_from_word(word),
        Err(e) => Err(e),
    }
}

} // verus!
