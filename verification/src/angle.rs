use vstd::prelude::*;

verus! {

/// Sense of rotation between two angle readings.
#[derive(Debug, Clone, Copy, PartialEq, Eq, Structural)]
pub enum Direction {
    Clockwise,
    CounterClockwise,
}

/// A mechanical angle measured by the shaft encoder, as a raw 16-bit value
/// where the full range `0..=u16::MAX` maps to one revolution.
#[derive(Debug, Clone, Copy, PartialEq, Eq, Structural)]
pub struct Angle(u16);

/// `u16::MAX / 2`, the raw distance at which a step is counted as clockwise.
pub const HALF_TURN_RAW: u16 = 32767;

/// Wrapping difference `to - from` modulo 2^16.
pub open spec fn raw_diff(from: u16, to: u16) -> int {
    (to - from) % 65536
}

pub open spec fn spec_min(x: int, y: int) -> int {
    if x <= y { x } else { y }
}

/// The direction of the step from `from` to `to`, as the encoder reports it.
pub open spec fn spec_direction(from: u16, to: u16) -> Option<Direction> {
    let d = raw_diff(from, to);
    if d == 0 {
        None
    } else if d < HALF_TURN_RAW {
        Some(Direction::CounterClockwise)
    } else {
        Some(Direction::Clockwise)
    }
}

impl Angle {
    pub closed spec fn raw(self) -> u16 {
        self.0
    }

    /// Returns always the smallest distance between two angles, always positive,
    /// wrapping at a full turn.
    pub fn get_abs(&self, other: &Self) -> (r: Self)
        ensures
            r.raw() == spec_min(raw_diff(other.raw(), self.raw()), raw_diff(self.raw(), other.raw())),
    {
        let d1 = self.0.wrapping_sub(other.0);
        let d2 = other.0.wrapping_sub(self.0);
        let diff = if d1 <= d2 { d1 } else { d2 };
        Angle(diff)
    }

    /// Direction of the step from `self` to `other`: `None` when they coincide,
    /// counterclockwise for a forward step shorter than half a turn, clockwise
    /// otherwise.
    pub fn get_direction(&self, other: &Self) -> (r: Option<Direction>)
        ensures
            r == spec_direction(self.raw(), other.raw()),
    {
        let diff = other.0.wrapping_sub(self.0);
        if diff == 0 {
            None
        } else if diff < HALF_TURN_RAW {
            Some(Direction::CounterClockwise)
        } else {
            Some(Direction::Clockwise)
        }
    }

    pub fn get_raw(&self) -> (r: u16)
        ensures
            r == self.raw(),
    {
        self.0
    }

    pub fn from_raw(raw: u16) -> (r: Self)
        ensures
            r.raw() == raw,
    {
        Angle(raw)
    }

    /// Converts whole degrees (below 360) to the raw scale.
    pub fn from_degrees(degrees: u16) -> (r: Self)
        requires
            degrees < 360,
        ensures
            r.raw() == degrees * 65535 / 360,
    {
        Angle(((degrees as u32 * 65535u32) / 360) as u16)
    }

    /// Converts the raw value back to whole degrees, rounding down.
    pub fn to_degrees(&self) -> (r: u16)
        ensures
            r == self.raw() * 360 / 65535,
    {
        ((self.0 as u32 * 360) / 65535u32) as u16
    }
}

/// The distance of `get_abs` does not depend on the order of the two angles
/// and is never more than half a turn; it is zero exactly for equal angles.
pub proof fn lemma_distance_symmetric_and_short(a: u16, b: u16)
    ensures
        spec_min(raw_diff(a, b), raw_diff(b, a)) == spec_min(raw_diff(b, a), raw_diff(a, b)),
        0 <= spec_min(raw_diff(a, b), raw_diff(b, a)) <= 32768,
        spec_min(raw_diff(a, b), raw_diff(b, a)) == 0 <==> a == b,
{
}

/// Two readings are in no direction of each other exactly when they are
/// equal, and a counterclockwise step read backwards is a clockwise one.
pub proof fn lemma_direction_reversal(a: u16, b: u16)
    ensures
        spec_direction(a, b) is None <==> a == b,
        spec_direction(a, b) == Some(Direction::CounterClockwise) ==> spec_direction(b, a) == Some(
            Direction::Clockwise,
        ),
{
}

/// Whole degrees survive the trip to the raw scale and back up to the
/// rounding of the two divisions: at most one degree is lost.
pub proof fn lemma_degrees_round_trip(degrees: u16)
    requires
        degrees < 360,
    ensures
        degrees - 1 <= ((degrees * 65535 / 360) * 360 / 65535) <= degrees,
{
    let d = degrees as int;
    let x = d * 65535 / 360;
    assert(d * 65535 - 359 <= x * 360 <= d * 65535) by (nonlinear_arith)
        requires
            x == d * 65535 / 360,
            d >= 0,
    ;
    let y = x * 360 / 65535;
    assert(d - 1 <= y <= d) by (nonlinear_arith)
        requires
            y == x * 360 / 65535,
            d * 65535 - 359 <= x * 360 <= d * 65535,
            x >= 0,
    ;
}

} // verus!
