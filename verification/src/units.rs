//! A plain raw angle value, as the hardware layer hands it around.
use vstd::prelude::*;

verus! {

/// A raw angle where the full `u16` range is one revolution.
#[derive(Debug, Clone, Copy, PartialEq, Eq, Structural)]
pub struct Angle(pub u16);

impl Angle {
    /// Converts whole degrees (below 360) to the raw scale, rounding down.
    pub fn from_degrees(degrees: u16) -> (r: Self)
        requires
            degrees < 360,
        ensures
            r.0 == degrees * 65535 / 360,
    {
        Angle(((degrees as u32 * 65535u32) / 360) as u16)
    }
}

} // verus!
