use vstd::prelude::*;

use crate::error::Error;

verus! {

/// Bit D2 of the conversion word: high when the thermocouple input is open.
pub open spec fn spec_is_open(word: u16) -> bool {
    word & 0x0004 != 0
}

/// The 12-bit temperature magnitude, bits D14..D3 of the conversion word,
/// in units of 0.25 degrees Celsius.
pub open spec fn spec_quarters(word: u16) -> u16 {
    (word >> 3) & 0x0fff
}

/// The magnitude of every word fits in 12 bits: scaled by 0.25 it spans
/// 0.0 through 1023.75 degrees Celsius.
pub proof fn lemma_quarters_range(word: u16)
    ensures
        spec_quarters(word) <= 4095,
{
    assert((word >> 3) & 0x0fff <= 4095) by (bit_vector);
}

/// Decoding reads the word alone: equal words give an equal fault flag and
/// an equal magnitude, whatever else differs between two reads.
pub proof fn lemma_decode_pure(w1: u16, w2: u16)
    requires
        w1 == w2,
    ensures
        spec_is_open(w1) == spec_is_open(w2),
        spec_quarters(w1) == spec_quarters(w2),
{
}

/// Whether the MAX6675 reports an open thermocouple input in this word.
///
/// Meaningful only when the thermocouple's minus terminal is grounded, which
/// no software test can see; the bit itself is reported as-is.
pub fn is_open(bytes: u16) -> (r: bool)
    ensures
        r == spec_is_open(bytes),
{
    (bytes & 0x0004) != 0
}

/// The temperature held in this word, in quarters of a degree Celsius.
///
/// Masks the 12-bit magnitude out of D14..D3; the caller scales it by 0.25
/// to reach degrees.
pub fn parse_quarter_celsius(bytes: u16) -> (r: u16)
    ensures
        r == spec_quarters(bytes),
        r <= 4095,
{
    proof {
        lemma_quarters_range(bytes);
    }
    (bytes >> 3) & 0x0fff
}

/// The temperature of a full conversion word, unless the word carries the
/// open-circuit fault: a fault-flagged sample is never reported as a value.
pub fn quarters_from_word(word: u16) -> (r: Result<u16, Error>)
    ensures
        spec_is_open(word) ==> (r matches Err(e) && e is OpenCircuit),
        !spec_is_open(word) ==> (r matches Ok(q) && q == spec_quarters(word)),
{
    if is_open(word) {
        Err(Error::OpenCircuit)
    } else {
        Ok(parse_quarter_celsius(word))
    }
}

} // verus!
