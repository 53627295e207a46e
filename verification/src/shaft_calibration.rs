//! The decisions of the shaft (encoder) calibration: the motor is turned by a
//! commanded electrical angle, first slowly and then fast, while the encoder is
//! read; comparing the two runs gives the encoder offset and its latency.
use vstd::prelude::*;
use crate::angle::{spec_direction, Angle, Direction};

verus! {

/// Speed of the slow run, in raw electrical units per millisecond.
pub const SPEED_SLOW: u64 = 256;
/// Speed of the fast run, in raw electrical units per millisecond.
pub const SPEED_FAST: u64 = 1024;
/// Difference of the two speeds.
pub const SPEED_DELTA: u64 = 768;

/// An angle reading of the shaft sensor.
#[derive(Debug, Clone, Copy, PartialEq, Eq, Structural)]
pub enum AngleReading {
    Mechanical(u16),
    Electrical(u16),
}

/// Where the calibration run stands, with the electrical angle it commands.
#[derive(Debug, Clone, Copy, PartialEq, Eq, Structural)]
pub enum CalibrationPhase {
    Slow(u16),
    Fast(u16),
    Done,
}

/// What the calibration loop does with a reading.
#[derive(Debug, Clone, Copy, PartialEq, Eq, Structural)]
pub enum CalibrationStep {
    /// The sensor reports electrical angles: nothing to calibrate.
    Stop,
    /// The commanded angle has not moved since the last reading: wait.
    Wait,
    /// The first reading of a run: remember the commanded angle.
    Start,
    /// Add the previous commanded angle and this mechanical reading as a sample
    /// of the slow (or the fast) run.
    Record { fast: bool, commanded: u16, mechanical: u16 },
    /// Both runs are over: compute the calibration.
    Finish,
}

pub open spec fn spec_calibration_step(last_cmd: Option<u16>, reading: AngleReading, phase: CalibrationPhase) -> (
    Option<u16>,
    CalibrationStep,
) {
    match reading {
        AngleReading::Electrical(_) => (last_cmd, CalibrationStep::Stop),
        AngleReading::Mechanical(mech) => {
            let (cmd, fast) = match phase {
                CalibrationPhase::Slow(c) => (Some(c), false),
                CalibrationPhase::Fast(c) => (Some(c), true),
                CalibrationPhase::Done => (None, false),
            };
            match cmd {
                None => (last_cmd, CalibrationStep::Finish),
                Some(c) => if last_cmd == Some(c) {
                    (last_cmd, CalibrationStep::Wait)
                } else {
                    match last_cmd {
                        Some(l) => (Some(c), CalibrationStep::Record { fast, commanded: l, mechanical: mech }),
                        None => (Some(c), CalibrationStep::Start),
                    }
                },
            }
        },
    }
}

/// One turn of the calibration loop: given the commanded angle seen last, the
/// new reading and the phase of the run, the step to take and the commanded
/// angle to remember.
pub fn calibration_step(last_cmd: Option<u16>, reading: AngleReading, phase: CalibrationPhase) -> (r: (
    Option<u16>,
    CalibrationStep,
))
    ensures
        r == spec_calibration_step(last_cmd, reading, phase),
{
    match reading {
        AngleReading::Electrical(_) => (last_cmd, CalibrationStep::Stop),
        AngleReading::Mechanical(mech) => {
            let (cmd, fast) = match phase {
                CalibrationPhase::Slow(c) => (Some(c), false),
                CalibrationPhase::Fast(c) => (Some(c), true),
                CalibrationPhase::Done => (None, false),
            };
            match cmd {
                None => (last_cmd, CalibrationStep::Finish),
                Some(c) => {
                    let same = match last_cmd {
                        Some(l) => l == c,
                        None => false,
                    };
                    if same {
                        (last_cmd, CalibrationStep::Wait)
                    } else {
                        match last_cmd {
                            Some(l) => (
                                Some(c),
                                CalibrationStep::Record { fast, commanded: l, mechanical: mech },
                            ),
                            None => (Some(c), CalibrationStep::Start),
                        }
                    }
                },
            }
        },
    }
}

/// What a step of the calibration loop does, for every input: an electrical
/// reading stops the run and a finished run finishes, both keeping the
/// remembered command; while a run goes on, the step waits exactly when the
/// commanded angle has not moved, and otherwise remembers the new commanded
/// angle. A recorded sample belongs to the run the phase names (the fast
/// run exactly when the phase is `Fast`) and pairs the previously commanded
/// angle with this mechanical reading; a run's first command starts it.
pub proof fn lemma_calibration_step_follows_phase(
    last_cmd: Option<u16>,
    reading: AngleReading,
    phase: CalibrationPhase,
)
    ensures
        reading is Electrical ==> spec_calibration_step(last_cmd, reading, phase) == (
            last_cmd,
            CalibrationStep::Stop,
        ),
        reading is Mechanical && phase is Done ==> spec_calibration_step(last_cmd, reading, phase)
            == (last_cmd, CalibrationStep::Finish),
        spec_calibration_step(last_cmd, reading, phase).1 matches CalibrationStep::Record {
            fast,
            commanded,
            mechanical,
        } ==> (fast <==> phase is Fast) && (phase is Slow || phase is Fast) && last_cmd == Some(
            commanded,
        ) && reading == AngleReading::Mechanical(mechanical),
        reading is Mechanical && (phase matches CalibrationPhase::Slow(c) || phase matches CalibrationPhase::Fast(c))
            ==> {
            let c = match phase {
                CalibrationPhase::Slow(c) => c,
                CalibrationPhase::Fast(c) => c,
                CalibrationPhase::Done => 0,
            };
            &&& (last_cmd == Some(c) <==> spec_calibration_step(last_cmd, reading, phase).1
                == CalibrationStep::Wait)
            &&& last_cmd == Some(c) ==> spec_calibration_step(last_cmd, reading, phase).0 == last_cmd
            &&& last_cmd != Some(c) ==> spec_calibration_step(last_cmd, reading, phase).0 == Some(c)
            &&& last_cmd != Some(c) ==> (spec_calibration_step(last_cmd, reading, phase).1
                is Start <==> last_cmd is None)
            &&& last_cmd != Some(c) && last_cmd is Some ==> spec_calibration_step(
                last_cmd,
                reading,
                phase,
            ).1 is Record
        },
{
}

/// The calibration of the shaft sensor.
#[derive(Debug, Clone, Copy, PartialEq, Eq, Structural)]
pub struct ShaftCalibrationConstants {
    pub offset: u16,
    pub pole_pairs: i16,
    pub measurement_delay_us: u64,
}

impl Default for ShaftCalibrationConstants {
    /// The calibration assumed before one is measured: no offset, one pole
    /// pair, no delay.
    fn default() -> (r: Self)
        ensures
            r.offset == 0,
            r.pole_pairs == 1,
            r.measurement_delay_us == 0,
    {
        ShaftCalibrationConstants { offset: 0, pole_pairs: 1, measurement_delay_us: 0 }
    }
}

/// The sensor latency (µs) implied by the offset difference of the two runs:
/// the same latency lags further behind at the higher speed.
pub open spec fn spec_latency_us(offset_delta: u16) -> int {
    offset_delta * 1000 / (SPEED_DELTA as int)
}

/// The angle (raw) by which the slow run lags behind because of the latency.
pub open spec fn spec_slow_error(latency_us: int) -> int {
    latency_us * (SPEED_SLOW as int) / 1000
}

pub open spec fn spec_shaft_calibration(slow_offset: u16, fast_offset: u16, pole_pairs: i16) -> Option<
    ShaftCalibrationConstants,
> {
    if fast_offset < slow_offset {
        None
    } else {
        let latency = spec_latency_us((fast_offset - slow_offset) as u16);
        let error = spec_slow_error(latency);
        if slow_offset < error {
            None
        } else {
            Some(
                ShaftCalibrationConstants {
                    offset: (slow_offset - error) as u16,
                    pole_pairs,
                    measurement_delay_us: latency as u64,
                },
            )
        }
    }
}

/// The calibration from the offsets of the slow and the fast run and the pole
/// pairs of the slow run: the latency follows from how far the fast run's
/// offset lies beyond the slow one's, and the offset is the slow run's minus
/// what it lagged during that latency. `None` when either subtraction would go
/// below zero (the calibration is then to be repeated).
pub fn compute_shaft_calibration(slow_offset: u16, fast_offset: u16, pole_pairs: i16) -> (r: Option<
    ShaftCalibrationConstants,
>)
    ensures
        r == spec_shaft_calibration(slow_offset, fast_offset, pole_pairs),
{
    let offset_delta = match fast_offset.checked_sub(slow_offset) {
        Some(v) => v,
        None => {
            return None;
        },
    };
    let latency_micro: u64 = offset_delta as u64 * 1000 / SPEED_DELTA;
    proof {
        assert(latency_micro <= 85332);
    }
    let error_slow = (latency_micro * SPEED_SLOW / 1000) as u16;
    let offset = match slow_offset.checked_sub(error_slow) {
        Some(v) => v,
        None => {
            return None;
        },
    };
    Some(ShaftCalibrationConstants { offset, pole_pairs, measurement_delay_us: latency_micro })
}

/// The calibrated offset never exceeds the slow run's offset, and equal offsets
/// of the two runs mean no latency and no correction.
pub proof fn lemma_shaft_calibration_bounds(slow_offset: u16, fast_offset: u16, pole_pairs: i16)
    ensures
        spec_shaft_calibration(slow_offset, fast_offset, pole_pairs) matches Some(c) ==> c.offset
            <= slow_offset && c.pole_pairs == pole_pairs,
        slow_offset == fast_offset ==> spec_shaft_calibration(slow_offset, fast_offset, pole_pairs)
            == Some(
            ShaftCalibrationConstants { offset: slow_offset, pole_pairs, measurement_delay_us: 0 },
        ),
{
}

/// More latency, less offset: for the same slow run, a fast run whose offset
/// lies further ahead gives a latency at least as long and a calibrated
/// offset no larger. The latency is the offset difference divided by the
/// speed difference, rounded down, and the correction is what the slow run
/// covers in that time, rounded down.
pub proof fn lemma_shaft_calibration_monotonic(slow_offset: u16, fast1: u16, fast2: u16, pole_pairs: i16)
    requires
        fast1 <= fast2,
        spec_shaft_calibration(slow_offset, fast1, pole_pairs) is Some,
        spec_shaft_calibration(slow_offset, fast2, pole_pairs) is Some,
    ensures
        spec_shaft_calibration(slow_offset, fast1, pole_pairs)->0.measurement_delay_us
            <= spec_shaft_calibration(slow_offset, fast2, pole_pairs)->0.measurement_delay_us,
        spec_shaft_calibration(slow_offset, fast2, pole_pairs)->0.offset <= spec_shaft_calibration(
            slow_offset,
            fast1,
            pole_pairs,
        )->0.offset,
{
    let d1 = (fast1 - slow_offset) as int;
    let d2 = (fast2 - slow_offset) as int;
    let l1 = d1 * 1000 / 768;
    let l2 = d2 * 1000 / 768;
    assert(l1 <= l2) by (nonlinear_arith)
        requires
            0 <= d1 <= d2,
            l1 == d1 * 1000 / 768,
            l2 == d2 * 1000 / 768,
    ;
    assert(l1 * 256 / 1000 <= l2 * 256 / 1000) by (nonlinear_arith)
        requires
            0 <= l1 <= l2,
    ;
}

/// What a step of the direction measurement does, for every input: an
/// electrical reading stops it and a finished measurement decides the
/// direction (clockwise exactly when the sensor agreed with the command more
/// than once on balance), both keeping the tracker; while measuring, an
/// unchanged command waits, and a new one is remembered with the reading,
/// the balance moving up by one when the sensor turned the way the command
/// did and down by one otherwise (it stays for the first command).
pub proof fn lemma_direction_step_counts_agreement(
    t: DirectionTracker,
    reading: AngleReading,
    phase: DirectionPhase,
)
    requires
        i32::MIN < t.correlation < i32::MAX,
    ensures
        reading is Electrical ==> spec_direction_step(t, reading, phase) == (t, DirectionStep::Stop),
        reading is Mechanical && phase is Done ==> spec_direction_step(t, reading, phase) == (
            t,
            DirectionStep::Finish(
                if t.correlation > 1 {
                    Direction::Clockwise
                } else {
                    Direction::CounterClockwise
                },
            ),
        ),
        reading matches AngleReading::Mechanical(m) ==> (phase matches DirectionPhase::Measuring(c) ==> {
            let (t2, step) = spec_direction_step(t, reading, phase);
            &&& (t.last_cmd == Some(c) <==> step == DirectionStep::Wait)
            &&& t.last_cmd == Some(c) ==> t2 == t
            &&& t.last_cmd != Some(c) ==> step == DirectionStep::Continue && t2.last_cmd == Some(c)
                && t2.last_mech == Some(m)
            &&& t.last_cmd != Some(c) && t.last_mech is Some && t.last_cmd is Some ==> (t2.correlation
                == t.correlation + 1 <==> spec_direction(t.last_mech->0, m) == spec_direction(
                t.last_cmd->0,
                c,
            ))
            &&& t.last_cmd != Some(c) && t.last_mech is Some && t.last_cmd is Some ==> (t2.correlation
                == t.correlation + 1 || t2.correlation == t.correlation - 1)
            &&& t.last_cmd != Some(c) && !(t.last_mech is Some && t.last_cmd is Some)
                ==> t2.correlation == t.correlation
        }),
{
}

/// Where the direction measurement stands, with the commanded electrical angle.
#[derive(Debug, Clone, Copy, PartialEq, Eq, Structural)]
pub enum DirectionPhase {
    Measuring(u16),
    Done,
}

/// What the direction measurement does with a reading.
#[derive(Debug, Clone, Copy, PartialEq, Eq, Structural)]
pub enum DirectionStep {
    Stop,
    Wait,
    Continue,
    Finish(Direction),
}

/// The state of the direction measurement: the last commanded and mechanical
/// angles, and how often the sensor moved the way the command did (+1) or the
/// other way (-1).
#[derive(Debug, Clone, Copy, PartialEq, Eq, Structural)]
pub struct DirectionTracker {
    pub last_mech: Option<u16>,
    pub last_cmd: Option<u16>,
    pub correlation: i32,
}

/// The sensor's sense of rotation: clockwise when it agreed with the command
/// more than once on balance.
pub open spec fn spec_direction_of(correlation: i32) -> Direction {
    if correlation > 1 {
        Direction::Clockwise
    } else {
        Direction::CounterClockwise
    }
}

pub open spec fn spec_direction_step(t: DirectionTracker, reading: AngleReading, phase: DirectionPhase) -> (
    DirectionTracker,
    DirectionStep,
) {
    match reading {
        AngleReading::Electrical(_) => (t, DirectionStep::Stop),
        AngleReading::Mechanical(mech) => match phase {
            DirectionPhase::Done => (t, DirectionStep::Finish(spec_direction_of(t.correlation))),
            DirectionPhase::Measuring(cmd) => if t.last_cmd == Some(cmd) {
                (t, DirectionStep::Wait)
            } else {
                let correlation = match (t.last_mech, t.last_cmd) {
                    (Some(lm), Some(lc)) => if spec_direction(lm, mech) == spec_direction(lc, cmd) {
                        t.correlation + 1
                    } else {
                        t.correlation - 1
                    },
                    _ => t.correlation as int,
                };
                (
                    DirectionTracker {
                        last_mech: Some(mech),
                        last_cmd: Some(cmd),
                        correlation: correlation as i32,
                    },
                    DirectionStep::Continue,
                )
            },
        },
    }
}

impl DirectionTracker {
    pub fn new() -> (r: Self)
        ensures
            r.last_mech is None,
            r.last_cmd is None,
            r.correlation == 0,
    {
        DirectionTracker { last_mech: None, last_cmd: None, correlation: 0 }
    }

    /// One turn of the direction measurement. While measuring, each new
    /// commanded angle is compared with the sensor's movement since the last
    /// one; when the measurement is over the direction is decided.
    pub fn step(&mut self, reading: AngleReading, phase: DirectionPhase) -> (r: DirectionStep)
        requires
            i32::MIN < old(self).correlation < i32::MAX,
        ensures
            (*final(self), r) == spec_direction_step(*old(self), reading, phase),
    {
        match reading {
            AngleReading::Electrical(_) => DirectionStep::Stop,
            AngleReading::Mechanical(mech) => match phase {
                DirectionPhase::Done => {
                    let d = if self.correlation > 1 {
                        Direction::Clockwise
                    } else {
                        Direction::CounterClockwise
                    };
                    DirectionStep::Finish(d)
                },
                DirectionPhase::Measuring(cmd) => {
                    let same = match self.last_cmd {
                        Some(l) => l == cmd,
                        None => false,
                    };
                    if same {
                        return DirectionStep::Wait;
                    }
                    match (self.last_mech, self.last_cmd) {
                        (Some(lm), Some(lc)) => {
                            let mech_dir = Angle::from_raw(lm).get_direction(&Angle::from_raw(mech));
                            let cmd_dir = Angle::from_raw(lc).get_direction(&Angle::from_raw(cmd));
                            let agree = match (mech_dir, cmd_dir) {
                                (None, None) => true,
                                (Some(a), Some(b)) => a == b,
                                _ => false,
                            };
                            if agree {
                                self.correlation = self.correlation + 1;
                            } else {
                                self.correlation = self.correlation - 1;
                            }
                        },
                        _ => {},
                    }
                    self.last_mech = Some(mech);
                    self.last_cmd = Some(cmd);
                    DirectionStep::Continue
                },
            },
        }
    }
}

} // verus!
