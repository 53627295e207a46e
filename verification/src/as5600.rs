//! Readings of the AS5600 magnetic angle sensor.
use vstd::prelude::*;

verus! {

/// The raw 16-bit angle of a 12-bit AS5600 reading: the reading shifted left
/// by four bits, so that the sensor's full turn (`0..4096`) covers the full
/// `u16` turn. Bits beyond the twelfth are shifted out.
pub fn raw_angle_from_reading(reading: u16) -> (r: u16)
    ensures
        r == (reading * 16) % 65536,
        reading < 4096 ==> r == reading * 16,
{
    let r = reading << 4u32;
    assert(r == (reading * 16) % 65536) by (bit_vector)
        requires
            r == reading << 4u32,
    ;
    r
}

} // verus!
