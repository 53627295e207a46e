//! The decisions of the current-reading task: while the motor calibrates its
//! current sensor, raw samples of the powered phase are collected; when the
//! calibration is over, their zero levels are handed to the sensor once, and
//! from then on converted outputs are read.
use vstd::prelude::*;
use crate::current::{
    calibrating_phase, can_add, powered_phase_sample, spec_average, CalibrationAccumulator,
    RawOutput,
};
use crate::state::{CalibratingCurrentSensorState, InitializationState, MotorState};

verus! {

/// Where the task stands.
#[derive(Debug, Clone, Copy, PartialEq, Eq, Structural)]
pub enum CurrentTaskPoint {
    /// At the top of the task's loop.
    Top,
    /// Collecting raw samples while the current sensor is calibrated.
    Collecting,
    /// The zero levels were handed to the sensor; a converted output follows.
    Calibrated,
}

/// What the task does next.
#[derive(Debug, Clone, Copy, PartialEq, Eq, Structural)]
pub enum CurrentTaskAction {
    /// A calibration run starts: the samples collected so far are dropped.
    StartCollecting,
    /// Read a raw sample while the given phase is powered, and record it.
    ReadRaw(CalibratingCurrentSensorState),
    /// Hand these zero levels of phases A, B and C to the sensor.
    Calibrate(u16, u16, u16),
    /// Read a converted output and store the phase currents.
    ReadConverted,
}

/// The point that follows `p` when the motor is in `state`.
pub open spec fn spec_next_point(p: CurrentTaskPoint, state: MotorState) -> CurrentTaskPoint {
    match p {
        CurrentTaskPoint::Top => if spec_calibrating(state) {
            CurrentTaskPoint::Collecting
        } else {
            CurrentTaskPoint::Top
        },
        CurrentTaskPoint::Collecting => if spec_calibrating(state) {
            CurrentTaskPoint::Collecting
        } else {
            CurrentTaskPoint::Calibrated
        },
        CurrentTaskPoint::Calibrated => CurrentTaskPoint::Top,
    }
}

/// The motor calibrates its current sensor.
pub open spec fn spec_calibrating(state: MotorState) -> bool {
    state matches MotorState::Initializing(InitializationState::CalibratingCurrentSensor(_))
}

/// The zero levels of the collected samples.
pub open spec fn spec_zero_levels(samples: (Seq<u16>, Seq<u16>, Seq<u16>)) -> (int, int, int) {
    (spec_average(samples.0), spec_average(samples.1), spec_average(samples.2))
}

/// The action taken at point `p` with the motor in `state` and `samples`
/// collected.
pub open spec fn spec_action(
    p: CurrentTaskPoint,
    state: MotorState,
    samples: (Seq<u16>, Seq<u16>, Seq<u16>),
) -> CurrentTaskAction {
    match p {
        CurrentTaskPoint::Top => if spec_calibrating(state) {
            CurrentTaskAction::StartCollecting
        } else {
            CurrentTaskAction::ReadConverted
        },
        CurrentTaskPoint::Collecting => match state {
            MotorState::Initializing(InitializationState::CalibratingCurrentSensor(phase)) =>
                CurrentTaskAction::ReadRaw(phase),
            _ => CurrentTaskAction::Calibrate(
                spec_zero_levels(samples).0 as u16,
                spec_zero_levels(samples).1 as u16,
                spec_zero_levels(samples).2 as u16,
            ),
        },
        CurrentTaskPoint::Calibrated => CurrentTaskAction::ReadConverted,
    }
}

pub open spec fn no_samples() -> (Seq<u16>, Seq<u16>, Seq<u16>) {
    (Seq::empty(), Seq::empty(), Seq::empty())
}

/// The current-reading task: its point and the samples of the calibration run.
pub struct CurrentTask {
    point: CurrentTaskPoint,
    accumulator: CalibrationAccumulator,
}

impl CurrentTask {
    pub closed spec fn point(&self) -> CurrentTaskPoint {
        self.point
    }

    pub closed spec fn samples(&self) -> (Seq<u16>, Seq<u16>, Seq<u16>) {
        self.accumulator@
    }

    /// A task at the top of its loop, with no samples.
    pub fn new() -> (r: Self)
        ensures
            r.point() == CurrentTaskPoint::Top,
            r.samples() == no_samples(),
    {
        CurrentTask { point: CurrentTaskPoint::Top, accumulator: CalibrationAccumulator::new() }
    }

    /// Decides the next action from the motor state. A calibration run starts
    /// with no samples; when the motor leaves the calibration, the zero levels
    /// of the run are handed over (the samples are then dropped) and the task
    /// goes on with a converted output.
    pub fn step(&mut self, state: MotorState) -> (r: CurrentTaskAction)
        ensures
            r == spec_action(old(self).point(), state, old(self).samples()),
            final(self).point() == spec_next_point(old(self).point(), state),
            final(self).samples() == (if r is StartCollecting || r is Calibrate {
                no_samples()
            } else {
                old(self).samples()
            }),
    {
        match self.point {
            CurrentTaskPoint::Top => {
                match calibrating_phase(state) {
                    Some(_) => {
                        self.point = CurrentTaskPoint::Collecting;
                        self.accumulator = CalibrationAccumulator::new();
                        CurrentTaskAction::StartCollecting
                    },
                    None => CurrentTaskAction::ReadConverted,
                }
            },
            CurrentTaskPoint::Collecting => {
                match calibrating_phase(state) {
                    Some(phase) => CurrentTaskAction::ReadRaw(phase),
                    None => {
                        let mut finished = CalibrationAccumulator::new();
                        core::mem::swap(&mut finished, &mut self.accumulator);
                        let (a, b, c) = finished.finalize();
                        self.point = CurrentTaskPoint::Calibrated;
                        CurrentTaskAction::Calibrate(a, b, c)
                    },
                }
            },
            CurrentTaskPoint::Calibrated => {
                self.point = CurrentTaskPoint::Top;
                CurrentTaskAction::ReadConverted
            },
        }
    }

    /// Records a raw sample read while `phase` was powered: the sample of
    /// that phase joins its channel.
    pub fn record_raw(&mut self, phase: CalibratingCurrentSensorState, raw: RawOutput)
        requires
            phase == CalibratingCurrentSensorState::PhaseAPowered ==> can_add(
                old(self).samples().0,
                powered_phase_sample(phase, raw),
            ),
            phase == CalibratingCurrentSensorState::PhaseBPowered ==> can_add(
                old(self).samples().1,
                powered_phase_sample(phase, raw),
            ),
            phase == CalibratingCurrentSensorState::PhaseCPowered ==> can_add(
                old(self).samples().2,
                powered_phase_sample(phase, raw),
            ),
        ensures
            final(self).point() == old(self).point(),
            final(self).samples().0 == (if phase == CalibratingCurrentSensorState::PhaseAPowered {
                old(self).samples().0.push(powered_phase_sample(phase, raw))
            } else {
                old(self).samples().0
            }),
            final(self).samples().1 == (if phase == CalibratingCurrentSensorState::PhaseBPowered {
                old(self).samples().1.push(powered_phase_sample(phase, raw))
            } else {
                old(self).samples().1
            }),
            final(self).samples().2 == (if phase == CalibratingCurrentSensorState::PhaseCPowered {
                old(self).samples().2.push(powered_phase_sample(phase, raw))
            } else {
                old(self).samples().2
            }),
    {
        self.accumulator.update(phase, raw);
    }
}

/// The hand-over comes exactly once per calibration run, before any
/// converted output: no converted output is read while samples are
/// collected; the zero levels are handed over exactly when the motor leaves
/// the calibration, and only from the collecting point, which is then left;
/// right after the hand-over a converted output is read and the task is back
/// at the top. The levels handed over are the mean levels of phases A, B and
/// C, in that order, and a raw sample is read for the phase being powered.
pub proof fn lemma_calibrated_once_before_output(
    state: MotorState,
    samples: (Seq<u16>, Seq<u16>, Seq<u16>),
)
    ensures
        spec_action(CurrentTaskPoint::Collecting, state, samples) != CurrentTaskAction::ReadConverted,
        spec_action(CurrentTaskPoint::Collecting, state, samples) is Calibrate <==> !spec_calibrating(
            state,
        ),
        spec_action(CurrentTaskPoint::Collecting, state, samples) is Calibrate ==> spec_next_point(
            CurrentTaskPoint::Collecting,
            state,
        ) == CurrentTaskPoint::Calibrated,
        !(spec_action(CurrentTaskPoint::Top, state, samples) is Calibrate),
        spec_action(CurrentTaskPoint::Calibrated, state, samples) == CurrentTaskAction::ReadConverted,
        spec_next_point(CurrentTaskPoint::Calibrated, state) == CurrentTaskPoint::Top,
        spec_action(CurrentTaskPoint::Collecting, state, samples) matches CurrentTaskAction::Calibrate(
            a,
            b,
            c,
        ) ==> a == spec_average(samples.0) && b == spec_average(samples.1) && c == spec_average(
            samples.2,
        ),
        spec_action(CurrentTaskPoint::Collecting, state, samples) matches CurrentTaskAction::ReadRaw(
            p,
        ) ==> state == MotorState::Initializing(InitializationState::CalibratingCurrentSensor(p)),
        spec_calibrating(state) <==> (spec_action(CurrentTaskPoint::Top, state, samples)
            == CurrentTaskAction::StartCollecting),
{
    lemma_average_in_u16(samples.0);
    lemma_average_in_u16(samples.1);
    lemma_average_in_u16(samples.2);
}

proof fn lemma_average_in_u16(s: Seq<u16>)
    ensures
        0 <= spec_average(s) <= u16::MAX,
{
    if s.len() > 0 {
        crate::current::lemma_average_within_sample_range(s, 0, 65535);
    }
}

} // verus!
