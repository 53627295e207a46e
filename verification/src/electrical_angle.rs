use vstd::prelude::*;
use crate::angle::Angle;

verus! {

/// An electrical rotor angle on the raw 16-bit scale.
#[derive(Debug, Clone, Copy, PartialEq, Eq, Structural)]
pub struct ElectricalAngle(pub u16);

/// The electrical angle of a mechanical reading: the reading minus the
/// encoder offset (wrapping at a full turn), times the pole pairs, reduced
/// modulo `u16::MAX`.
pub open spec fn spec_electrical_from_mechanical(raw: u16, offset: u16, pole_pairs: u8) -> int {
    ((((raw - offset) % 65536) * pole_pairs) % 65535)
}

/// The electrical angle is zero at the encoder offset and for zero pole
/// pairs; with one pole pair it is the mechanical distance from the offset
/// (the full-turn value reduced to zero); it always lies below `u16::MAX`;
/// and one step of the mechanical angle past the offset moves it by the
/// number of pole pairs.
pub proof fn lemma_electrical_from_mechanical(raw: u16, offset: u16, pole_pairs: u8)
    ensures
        spec_electrical_from_mechanical(offset, offset, pole_pairs) == 0,
        spec_electrical_from_mechanical(raw, offset, 0) == 0,
        spec_electrical_from_mechanical(raw, offset, 1) == ((raw - offset) % 65536) % 65535,
        0 <= spec_electrical_from_mechanical(raw, offset, pole_pairs) < 65535,
        spec_electrical_from_mechanical((offset + 1) as u16, offset, pole_pairs) == pole_pairs as int,
{
    assert((((offset + 1) as u16) - offset) % 65536 == 1) by (bit_vector);
}

impl ElectricalAngle {
    pub fn from_angle(angle: &Angle, offset: u16, pole_pairs: u8) -> (r: Self)
        ensures
            r.0 == spec_electrical_from_mechanical(angle.raw(), offset, pole_pairs),
    {
        let delta: u16 = angle.get_raw().wrapping_sub(offset);
        proof {
            assert(0 <= delta as int * pole_pairs as int <= 65535 * 255) by (nonlinear_arith)
                requires
                    0 <= delta <= 65535,
                    0 <= pole_pairs <= 255,
            ;
        }
        ElectricalAngle(((delta as u32 * pole_pairs as u32) % 65535u32) as u16)
    }
}

} // verus!
