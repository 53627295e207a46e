use pyrion::angle_calibration::{
    normalize_offset_rad, CalibrationAccumulator, Direction2, PhaseErrorTrig, PI_I3F29,
};

const ONE: i64 = 1 << 48;

fn to_bits(x: f64) -> i64 {
    let b = (x * ONE as f64).round() as i64;
    b.clamp(-ONE, ONE)
}

fn raw_to_rad(raw: u16) -> f64 {
    raw as f64 / 65536.0 * 2.0 * std::f64::consts::PI
}

/// The electrical angle that a mechanical reading gives for a signed count.
fn electrical(mech: u16, pole_pairs: i16) -> u16 {
    (mech as i32 * pole_pairs as i32) as u16
}

fn sample(mech: u16, commanded: u16, max: usize) -> Vec<PhaseErrorTrig> {
    (1..=max)
        .map(|p| {
            let cw = commanded.wrapping_sub(electrical(mech, p as i16));
            let ccw = commanded.wrapping_sub(electrical(mech, -(p as i16)));
            PhaseErrorTrig {
                sin_cw: to_bits(raw_to_rad(cw).sin()),
                cos_cw: to_bits(raw_to_rad(cw).cos()),
                sin_ccw: to_bits(raw_to_rad(ccw).sin()),
                cos_ccw: to_bits(raw_to_rad(ccw).cos()),
            }
        })
        .collect()
}

/// A small deterministic generator of noise in `-limit..=limit`.
struct Noise(u64);

impl Noise {
    fn next(&mut self, limit: u16) -> i32 {
        self.0 ^= self.0 << 13;
        self.0 ^= self.0 >> 7;
        self.0 ^= self.0 << 17;
        let span = 2 * limit as u64 + 1;
        (self.0 % span) as i32 - limit as i32
    }
}

fn run_case_with_noise(true_poles: i16, noise_raw: u16) -> pyrion::angle_calibration::CalibrationResult {
    let mut noise = Noise(0x9E37_79B9_7F4A_7C15);
    let mut acc = CalibrationAccumulator::<12>::new();
    for i in 0..10u32 {
        let mut mech = (i * 65535 / 360) as u16;
        if noise_raw > 0 {
            mech = mech.wrapping_add(noise.next(noise_raw) as u16);
        }
        acc.add_sample(&sample(mech, electrical(mech, true_poles), 12));
    }
    acc.finalize()
}

fn run_case(true_poles: i16) -> pyrion::angle_calibration::CalibrationResult {
    run_case_with_noise(true_poles, 0)
}

#[test]
fn test_multiple_pole_cases() {
    for poles in 1..=12 {
        assert_eq!(run_case(poles).pole_pairs, poles, "Failed for true_poles = {}", poles);
    }
    for poles in -12..=-1 {
        assert_eq!(run_case(poles).pole_pairs, poles, "Failed for true_poles = {}", poles);
    }
}

#[test]
fn test_with_noise() {
    // ±1° of noise in raw units
    let noise_raw = u16::MAX / 360;
    assert_eq!(run_case_with_noise(7, noise_raw).pole_pairs, 7);
    assert_eq!(run_case_with_noise(-5, noise_raw).pole_pairs, -5);
}

#[test]
fn perfect_samples_give_unit_vector_and_coherence() {
    let r = run_case(7);
    // every phase error is zero: the averaged vector is (0, 1) exactly
    assert_eq!(r.offset_direction, Some(Direction2 { sin: 0, cos: ONE }));
    // strength 1 over 10 samples: 0.1 in I1F15, rounded down
    assert_eq!(r.coherence, 3276);
    // a counter-clockwise winner still reports the clockwise vector of its count
    let r = run_case(-5);
    let expected_sin = {
        let mut acc = CalibrationAccumulator::<12>::new();
        let mut sum = 0i64;
        for i in 0..10u32 {
            let mech = (i * 65535 / 360) as u16;
            let s = sample(mech, electrical(mech, -5), 12);
            sum += s[4].sin_cw;
            acc.add_sample(&s);
        }
        sum / 10
    };
    assert_eq!(r.pole_pairs, -5);
    assert_eq!(r.offset_direction.unwrap().sin, expected_sin);
}

#[test]
fn empty_or_incoherent_accumulators_are_refused() {
    let acc = CalibrationAccumulator::<4>::new();
    assert_eq!(acc.try_finalize(), None);
    // one perfect sample: the coherence would be exactly 1, which I1F15 cannot hold
    let mut acc = CalibrationAccumulator::<1>::new();
    acc.add_sample(&vec![PhaseErrorTrig { sin_cw: 0, cos_cw: ONE, sin_ccw: 0, cos_ccw: 0 }]);
    assert_eq!(acc.try_finalize(), None);
    // two such samples: coherence 1/2
    acc.add_sample(&vec![PhaseErrorTrig { sin_cw: 0, cos_cw: ONE, sin_ccw: 0, cos_ccw: 0 }]);
    let r = acc.try_finalize().unwrap();
    assert_eq!(r.pole_pairs, 1);
    assert_eq!(r.coherence, 16384);
    assert_eq!(r, acc.finalize());
}

#[test]
fn no_positive_strength_selects_nothing() {
    let mut acc = CalibrationAccumulator::<3>::new();
    let zero = PhaseErrorTrig { sin_cw: 0, cos_cw: 0, sin_ccw: 0, cos_ccw: 0 };
    acc.add_sample(&vec![zero; 3]);
    acc.add_sample(&vec![zero; 3]);
    let r = acc.finalize();
    assert_eq!(r.pole_pairs, 0);
    assert_eq!(r.offset_direction, None);
    assert_eq!(r.coherence, 0);
}

#[test]
fn ties_keep_the_earlier_candidate() {
    // count 1 clockwise and count 2 counter-clockwise both have strength 1/2
    let mut acc = CalibrationAccumulator::<2>::new();
    let s = vec![
        PhaseErrorTrig { sin_cw: ONE / 2, cos_cw: 0, sin_ccw: 0, cos_ccw: 0 },
        PhaseErrorTrig { sin_cw: 0, cos_cw: 0, sin_ccw: ONE / 2, cos_ccw: ONE / 2 },
    ];
    acc.add_sample(&s);
    acc.add_sample(&s);
    let r = acc.finalize();
    // clockwise 1: sqrt(1/4) = 1/2; counter-clockwise 2: 1/4 + 1/4 = 1/2, not stronger
    assert_eq!(r.pole_pairs, 1);
    assert_eq!(r.offset_direction, Some(Direction2 { sin: ONE / 2, cos: 0 }));
}

#[test]
fn offset_angle_is_made_positive() {
    assert_eq!(PI_I3F29, 1686629713);
    assert_eq!(normalize_offset_rad(0), 0);
    assert_eq!(normalize_offset_rad(1_000_000), 1_000_000);
    // -3 rad in I3F29 plus 2π
    let minus_three = -(3 << 29);
    assert_eq!(normalize_offset_rad(minus_three) as i64, minus_three as i64 + 2 * PI_I3F29 as i64);
}
