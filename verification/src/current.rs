use vstd::prelude::*;
use crate::state::{
    CalibratingCurrentSensorState, InitializationState, MotorState, PhaseCurrent,
};

verus! {

/// Converted phase currents (milliamps) as a current sensor delivers them.
#[derive(Debug, Clone, Copy, PartialEq, Eq, Structural)]
pub enum Output {
    TwoPhases(i32, i32),
    ThreePhases(i32, i32, i32),
}

/// Raw ADC samples of the phase currents.
#[derive(Debug, Clone, Copy, PartialEq, Eq, Structural)]
pub enum RawOutput {
    TwoPhases(u16, u16),
    ThreePhases(u16, u16, u16),
}

/// Sum of a sequence of samples.
pub open spec fn sample_sum(s: Seq<u16>) -> int
    decreases s.len(),
{
    if s.len() == 0 {
        0
    } else {
        sample_sum(s.drop_last()) + s.last()
    }
}

/// The zero level reported for a channel: the mean of its samples rounded
/// down, or mid-scale (`u16::MAX / 2`) when it has none.
pub open spec fn spec_average(s: Seq<u16>) -> int {
    if s.len() > 0 {
        sample_sum(s) / (s.len() as int)
    } else {
        32767
    }
}

proof fn lemma_sample_sum_bounds(s: Seq<u16>, lo: int, hi: int)
    requires
        forall|i: int| 0 <= i < s.len() ==> lo <= #[trigger] s[i] <= hi,
    ensures
        s.len() * lo <= sample_sum(s) <= s.len() * hi,
    decreases s.len(),
{
    if s.len() > 0 {
        let t = s.drop_last();
        assert forall|i: int| 0 <= i < t.len() implies lo <= #[trigger] t[i] <= hi by {
            assert(t[i] == s[i]);
        }
        lemma_sample_sum_bounds(t, lo, hi);
        assert(s.len() * lo == t.len() * lo + lo) by (nonlinear_arith)
            requires
                s.len() == t.len() + 1,
        ;
        assert(s.len() * hi == t.len() * hi + hi) by (nonlinear_arith)
            requires
                s.len() == t.len() + 1,
        ;
    }
}

/// Accumulates the raw samples of one channel.
pub struct ChannelAccumulator {
    sum: u64,
    count: u64,
    samples: Ghost<Seq<u16>>,
}

impl View for ChannelAccumulator {
    type V = Seq<u16>;

    closed spec fn view(&self) -> Seq<u16> {
        self.samples@
    }
}

impl ChannelAccumulator {
    #[verifier::type_invariant]
    spec fn inv(self) -> bool {
        &&& self.sum == sample_sum(self.samples@)
        &&& self.count == self.samples@.len()
    }

    pub fn new() -> (r: Self)
        ensures
            r@ == Seq::<u16>::empty(),
    {
        ChannelAccumulator { sum: 0, count: 0, samples: Ghost(Seq::empty()) }
    }

    /// Adds one sample. The running sum and the count are 64-bit and must not
    /// overflow.
    pub fn add(&mut self, value: u16)
        requires
            old(self)@.len() < u64::MAX,
            sample_sum(old(self)@) + value <= u64::MAX,
        ensures
            final(self)@ == old(self)@.push(value),
    {
        proof {
            use_type_invariant(&*self);
        }
        let ghost new_samples = self.samples@.push(value);
        proof {
            assert(new_samples.drop_last() =~= self.samples@);
        }
        *self = ChannelAccumulator {
            sum: self.sum + value as u64,
            count: self.count + 1,
            samples: Ghost(new_samples),
        };
    }

    /// The mean of the samples, rounded down, or `u16::MAX / 2` if there are none.
    pub fn average(&self) -> (r: u16)
        ensures
            r == spec_average(self@),
    {
        proof {
            use_type_invariant(self);
            lemma_sample_sum_bounds(self.samples@, 0, 65535);
        }
        if self.count > 0 {
            proof {
                let n = self.count as int;
                let s = self.sum as int;
                assert(s / n <= 65535) by (nonlinear_arith)
                    requires
                        n > 0,
                        0 <= s <= n * 65535,
                ;
            }
            (self.sum / self.count) as u16
        } else {
            32767
        }
    }
}

/// The mean of samples that all lie within `lo..=hi` lies there too.
pub proof fn lemma_average_within_sample_range(s: Seq<u16>, lo: int, hi: int)
    requires
        s.len() > 0,
        forall|i: int| 0 <= i < s.len() ==> lo <= #[trigger] s[i] <= hi,
    ensures
        lo <= spec_average(s) <= hi,
{
    lemma_sample_sum_bounds(s, lo, hi);
    let n = s.len() as int;
    let t = sample_sum(s);
    assert(lo <= t / n <= hi) by (nonlinear_arith)
        requires
            n > 0,
            n * lo <= t <= n * hi,
    ;
}

/// The zero level is the mean rounded down: `level · n <= sum < (level + 1)
/// · n` for `n` samples; a channel whose samples are all equal reports that
/// value, and a channel without samples reports mid-scale.
pub proof fn lemma_average_is_floor_of_mean(s: Seq<u16>)
    ensures
        s.len() > 0 ==> spec_average(s) * s.len() <= sample_sum(s) < (spec_average(s) + 1)
            * s.len(),
        s.len() == 0 ==> spec_average(s) == 32767,
{
    if s.len() > 0 {
        let n = s.len() as int;
        let t = sample_sum(s);
        let q = t / n;
        assert(q * n <= t < (q + 1) * n) by (nonlinear_arith)
            requires
                q == t / n,
                n > 0,
        ;
    }
}

/// A channel whose samples all equal `x` reports `x`.
pub proof fn lemma_average_of_equal_samples(s: Seq<u16>, x: u16)
    requires
        s.len() > 0,
        forall|i: int| 0 <= i < s.len() ==> #[trigger] s[i] == x,
    ensures
        spec_average(s) == x,
{
    lemma_sample_sum_bounds(s, x as int, x as int);
    let n = s.len() as int;
    assert(sample_sum(s) == n * x);
    assert((n * x) / n == x as int) by (nonlinear_arith)
        requires
            n > 0,
    ;
}

/// Which sample of a raw reading belongs to the powered phase: the phase A
/// value while A is powered, the phase B value while B is powered, and the
/// phase C value while C is powered (none, counted as zero, when the reading
/// has only two phases).
pub proof fn lemma_powered_phase_sample(a: u16, b: u16, c: u16)
    ensures
        powered_phase_sample(CalibratingCurrentSensorState::PhaseAPowered, RawOutput::ThreePhases(a, b, c)) == a,
        powered_phase_sample(CalibratingCurrentSensorState::PhaseAPowered, RawOutput::TwoPhases(a, b)) == a,
        powered_phase_sample(CalibratingCurrentSensorState::PhaseBPowered, RawOutput::ThreePhases(a, b, c)) == b,
        powered_phase_sample(CalibratingCurrentSensorState::PhaseBPowered, RawOutput::TwoPhases(a, b)) == b,
        powered_phase_sample(CalibratingCurrentSensorState::PhaseCPowered, RawOutput::ThreePhases(a, b, c)) == c,
        powered_phase_sample(CalibratingCurrentSensorState::PhaseCPowered, RawOutput::TwoPhases(a, b)) == 0,
{
}

/// Accumulates the zero levels of the three phases while the current sensor is
/// calibrated: the sample of phase A while phase A is powered, and so on.
pub struct CalibrationAccumulator {
    a: ChannelAccumulator,
    b: ChannelAccumulator,
    c: ChannelAccumulator,
}

impl View for CalibrationAccumulator {
    type V = (Seq<u16>, Seq<u16>, Seq<u16>);

    closed spec fn view(&self) -> (Seq<u16>, Seq<u16>, Seq<u16>) {
        (self.a@, self.b@, self.c@)
    }
}

/// The sample of the powered phase in a raw reading; a two-phase reading has
/// no phase C and counts as zero there.
pub open spec fn powered_phase_sample(state: CalibratingCurrentSensorState, raw: RawOutput) -> u16 {
    match state {
        CalibratingCurrentSensorState::PhaseAPowered => match raw {
            RawOutput::TwoPhases(a, _) => a,
            RawOutput::ThreePhases(a, _, _) => a,
        },
        CalibratingCurrentSensorState::PhaseBPowered => match raw {
            RawOutput::TwoPhases(_, b) => b,
            RawOutput::ThreePhases(_, b, _) => b,
        },
        CalibratingCurrentSensorState::PhaseCPowered => match raw {
            RawOutput::ThreePhases(_, _, c) => c,
            RawOutput::TwoPhases(_, _) => 0,
        },
    }
}

/// Whether a channel can take one more sample without its sum or count overflowing.
pub open spec fn can_add(s: Seq<u16>, value: u16) -> bool {
    s.len() < u64::MAX && sample_sum(s) + value <= u64::MAX
}

impl CalibrationAccumulator {
    pub fn new() -> (r: Self)
        ensures
            r@.0 == Seq::<u16>::empty(),
            r@.1 == Seq::<u16>::empty(),
            r@.2 == Seq::<u16>::empty(),
    {
        CalibrationAccumulator {
            a: ChannelAccumulator::new(),
            b: ChannelAccumulator::new(),
            c: ChannelAccumulator::new(),
        }
    }

    /// Records the sample of the powered phase.
    pub fn update(&mut self, state: CalibratingCurrentSensorState, raw_output: RawOutput)
        requires
            state == CalibratingCurrentSensorState::PhaseAPowered ==> can_add(
                old(self)@.0,
                powered_phase_sample(state, raw_output),
            ),
            state == CalibratingCurrentSensorState::PhaseBPowered ==> can_add(
                old(self)@.1,
                powered_phase_sample(state, raw_output),
            ),
            state == CalibratingCurrentSensorState::PhaseCPowered ==> can_add(
                old(self)@.2,
                powered_phase_sample(state, raw_output),
            ),
        ensures
            final(self)@.0 == (if state == CalibratingCurrentSensorState::PhaseAPowered {
                old(self)@.0.push(powered_phase_sample(state, raw_output))
            } else {
                old(self)@.0
            }),
            final(self)@.1 == (if state == CalibratingCurrentSensorState::PhaseBPowered {
                old(self)@.1.push(powered_phase_sample(state, raw_output))
            } else {
                old(self)@.1
            }),
            final(self)@.2 == (if state == CalibratingCurrentSensorState::PhaseCPowered {
                old(self)@.2.push(powered_phase_sample(state, raw_output))
            } else {
                old(self)@.2
            }),
    {
        match state {
            CalibratingCurrentSensorState::PhaseAPowered => {
                let a = match raw_output {
                    RawOutput::TwoPhases(a, _) => a,
                    RawOutput::ThreePhases(a, _, _) => a,
                };
                self.a.add(a);
            },
            CalibratingCurrentSensorState::PhaseBPowered => {
                let b = match raw_output {
                    RawOutput::TwoPhases(_, b) => b,
                    RawOutput::ThreePhases(_, b, _) => b,
                };
                self.b.add(b);
            },
            CalibratingCurrentSensorState::PhaseCPowered => {
                let c = match raw_output {
                    RawOutput::ThreePhases(_, _, c) => c,
                    _ => 0,
                };
                self.c.add(c);
            },
        }
    }

    /// The zero levels of phases A, B and C.
    pub fn finalize(self) -> (r: (u16, u16, u16))
        ensures
            r.0 == spec_average(self@.0),
            r.1 == spec_average(self@.1),
            r.2 == spec_average(self@.2),
    {
        (self.a.average(), self.b.average(), self.c.average())
    }
}

/// The phase being calibrated, if the motor is calibrating its current sensor.
pub fn calibrating_phase(state: MotorState) -> (r: Option<CalibratingCurrentSensorState>)
    ensures
        r == (match state {
            MotorState::Initializing(InitializationState::CalibratingCurrentSensor(p)) => Some(p),
            _ => None::<CalibratingCurrentSensorState>,
        }),
{
    match state {
        MotorState::Initializing(InitializationState::CalibratingCurrentSensor(p)) => Some(p),
        _ => None,
    }
}

impl PhaseCurrent {
    /// The three phase currents of a sensor output; with two measured phases the
    /// third is `-a - b`, since the currents of a balanced motor sum to zero.
    pub fn from_output(output: Output) -> (r: Self)
        requires
            output matches Output::TwoPhases(a, b) ==> a > i32::MIN && i32::MIN <= -a - b <= i32::MAX,
        ensures
            match output {
                Output::TwoPhases(a, b) => r.a == a && r.b == b && r.c == -a - b,
                Output::ThreePhases(a, b, c) => r.a == a && r.b == b && r.c == c,
            },
    {
        match output {
            Output::TwoPhases(a, b) => PhaseCurrent { a, b, c: -a - b },
            Output::ThreePhases(a, b, c) => PhaseCurrent { a, b, c },
        }
    }
}

} // verus!
