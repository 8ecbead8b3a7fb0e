//! Scene inputs: the radar configuration and the target list, their
//! validity rules, defaults, and the explicit merge-with-defaults step used
//! when loading persisted state.

use vstd::prelude::*;
use crate::errors::RadarError;
use crate::units::{
    MAX_CHIRP_COUNT, MAX_CHIRP_PS, MAX_FREQUENCY_HZ, MAX_RANGE_MM, MAX_SAMPLING_DURATION_PS,
    MAX_SAMPLING_HZ, MAX_VELOCITY_MM_PER_S, PS_PER_S, SPEED_OF_LIGHT_MM_PER_S,
};

verus! {

/// Radar parameters. Frequencies are in hertz, durations in picoseconds.
#[derive(Debug)]
pub struct Configuration {
    /// Carrier frequency at the bottom of every chirp ramp (Hz).
    pub carrier_frequency: i64,
    /// Swept bandwidth of every chirp ramp (Hz).
    pub bandwidth: i64,
    /// One sawtooth period per entry (ps); walked in order.
    pub chirp_durations: Vec<i64>,
    /// Rate at which a capture window is sampled (Hz).
    pub sampling_frequency: i64,
    /// Length of a capture window (ps).
    pub sampling_duration: i64,
}

/// One simulated reflector.
#[derive(Clone, Copy, Debug)]
pub struct Target {
    /// Distance from the radar (mm), non-negative.
    pub range: i64,
    /// Radial velocity (mm/s); positive is receding.
    pub velocity: i64,
    /// Disabled targets contribute nothing to any derived series.
    pub enabled: bool,
    /// Display-only identity, as an RGB triple.
    pub color: (u8, u8, u8),
}

/// Number of samples in a capture window: `duration * frequency` in
/// seconds-times-hertz, rounded half up.
pub open spec fn sample_count_spec(duration_ps: int, sampling_hz: int) -> int {
    (2 * duration_ps * sampling_hz + PS_PER_S) / (2 * PS_PER_S as int)
}

impl Configuration {
    /// Every chirp entry present and positive.
    pub open spec fn chirps_positive(&self) -> bool {
        &&& self.chirp_durations@.len() > 0
        &&& forall|i: int|
            0 <= i < self.chirp_durations@.len() ==> self.chirp_durations@[i] > 0
    }

    /// The validity rules checked before any computation proceeds.
    pub open spec fn valid(&self) -> bool {
        &&& self.carrier_frequency > 0
        &&& self.bandwidth > 0
        &&& self.chirps_positive()
        &&& self.sampling_frequency > 0
        &&& self.sampling_duration > 0
        &&& sample_count_spec(self.sampling_duration as int, self.sampling_frequency as int) >= 2
    }

    /// Magnitude caps under which the fixed-point arithmetic of the crate
    /// is proved free of overflow. They lie far beyond the physically
    /// sensible parameter ranges.
    pub open spec fn bounded(&self) -> bool {
        &&& -MAX_FREQUENCY_HZ <= self.carrier_frequency <= MAX_FREQUENCY_HZ
        &&& -MAX_FREQUENCY_HZ <= self.bandwidth <= MAX_FREQUENCY_HZ
        &&& self.chirp_durations@.len() <= MAX_CHIRP_COUNT
        &&& forall|i: int|
            0 <= i < self.chirp_durations@.len()
                ==> -MAX_CHIRP_PS <= #[trigger] self.chirp_durations@[i] <= MAX_CHIRP_PS
        &&& -MAX_SAMPLING_HZ <= self.sampling_frequency <= MAX_SAMPLING_HZ
        &&& -MAX_SAMPLING_DURATION_PS <= self.sampling_duration <= MAX_SAMPLING_DURATION_PS
    }
}

impl Target {
    /// Magnitude caps under which the beat-frequency arithmetic is proved
    /// free of overflow.
    pub open spec fn bounded(&self) -> bool {
        &&& 0 <= self.range <= MAX_RANGE_MM
        &&& -MAX_VELOCITY_MM_PER_S <= self.velocity <= MAX_VELOCITY_MM_PER_S
    }
}

/// All targets slower than light, so the Doppler term of each is free of
/// its division singularity.
pub open spec fn velocities_admissible(targets: Seq<Target>) -> bool {
    forall|i: int|
        0 <= i < targets.len()
            ==> -SPEED_OF_LIGHT_MM_PER_S < #[trigger] targets[i].velocity
                < SPEED_OF_LIGHT_MM_PER_S
}

/// Checks the scene inputs before any computation: configuration rules
/// first, then the speed-of-light bound on every target.
pub fn validate(config: &Configuration, targets: &Vec<Target>) -> (r: Result<(), RadarError>)
    ensures
        r is Ok <==> config.valid() && velocities_admissible(targets@),
        r is Err ==> (r->Err_0 == RadarError::InvalidConfig && !config.valid()) || (
        r->Err_0 == RadarError::NumericDegeneracy && config.valid() && !velocities_admissible(
            targets@,
        )),
{
    if config.carrier_frequency <= 0 || config.bandwidth <= 0 || config.sampling_frequency <= 0
        || config.sampling_duration <= 0 {
        return Err(RadarError::InvalidConfig);
    }
    if config.chirp_durations.len() == 0 {
        return Err(RadarError::InvalidConfig);
    }
    let mut i: usize = 0;
    while i < config.chirp_durations.len()
        invariant
            0 <= i <= config.chirp_durations@.len(),
            forall|j: int| 0 <= j < i ==> config.chirp_durations@[j] > 0,
        decreases config.chirp_durations@.len() - i,
    {
        if config.chirp_durations[i] <= 0 {
            return Err(RadarError::InvalidConfig);
        }
        i = i + 1;
    }
    let d = config.sampling_duration as i128;
    let f = config.sampling_frequency as i128;
    proof {
        assert(d * f <= 0x7fff_ffff_ffff_ffff * (0x7fff_ffff_ffff_ffff as int))
            by (nonlinear_arith)
            requires 1 <= d <= 0x7fff_ffff_ffff_ffff && 1 <= f <= 0x7fff_ffff_ffff_ffff;
        assert(d * f >= 1) by (nonlinear_arith)
            requires d >= 1 && f >= 1;
    }
    let numerator = 2 * (d * f) + (PS_PER_S as i128);
    let n = (numerator as u128) / (2 * (PS_PER_S as u128));
    proof {
        assert(2 * (d * f) == 2 * d * f) by (nonlinear_arith);
        assert(n == sample_count_spec(
            config.sampling_duration as int,
            config.sampling_frequency as int,
        ));
    }
    if n < 2 {
        return Err(RadarError::InvalidConfig);
    }
    let mut k: usize = 0;
    while k < targets.len()
        invariant
            config.valid(),
            0 <= k <= targets@.len(),
            forall|j: int|
                0 <= j < k
                    ==> -SPEED_OF_LIGHT_MM_PER_S < #[trigger] targets@[j].velocity
                        < SPEED_OF_LIGHT_MM_PER_S,
        decreases targets@.len() - k,
    {
        let v = targets[k].velocity;
        if v <= -SPEED_OF_LIGHT_MM_PER_S || v >= SPEED_OF_LIGHT_MM_PER_S {
            return Err(RadarError::NumericDegeneracy);
        }
        k = k + 1;
    }
    Ok(())
}

impl Default for Configuration {
    /// The demo scene's radar parameters: a 77 GHz carrier swept over
    /// 1.6 GHz, three chirps of 40, 20 and 60 microseconds, sampled at
    /// 50 MHz for 40 microseconds.
    fn default() -> (c: Configuration)
        ensures
            c.carrier_frequency == 77_000_000_000,
            c.bandwidth == 1_600_000_000,
            c.chirp_durations@ == seq![40_000_000i64, 20_000_000i64, 60_000_000i64],
            c.sampling_frequency == 50_000_000,
            c.sampling_duration == 40_000_000,
            c.valid(),
            c.bounded(),
    {
        let mut chirps: Vec<i64> = Vec::new();
        chirps.push(40_000_000);
        chirps.push(20_000_000);
        chirps.push(60_000_000);
        proof {
            assert(chirps@ =~= seq![40_000_000i64, 20_000_000i64, 60_000_000i64]);
            assert(sample_count_spec(40_000_000, 50_000_000) == 2000) by {
                assert(2 * 40_000_000int * 50_000_000int == 4_000_000_000_000_000int)
                    by (nonlinear_arith);
                assert(PS_PER_S == 1_000_000_000_000int);
                assert((4_000_000_000_000_000int + 1_000_000_000_000int)
                    / 2_000_000_000_000int == 2000int);
            };
        }
        Configuration {
            carrier_frequency: 77_000_000_000,
            bandwidth: 1_600_000_000,
            chirp_durations: chirps,
            sampling_frequency: 50_000_000,
            sampling_duration: 40_000_000,
        }
    }
}

/// The demo scene's targets: one enabled reflector at 10 m standing still,
/// and two disabled ones at 30 m receding and 40 m approaching.
pub fn default_targets() -> (ts: Vec<Target>)
    ensures
        ts@.len() == 3,
        ts@[0] == (Target { range: 10_000, velocity: 0, enabled: true, color: (0, 255, 0) }),
        ts@[1] == (Target { range: 30_000, velocity: 20_000, enabled: false, color: (0, 0, 255) }),
        ts@[2] == (Target {
            range: 40_000,
            velocity: -10_000i64,
            enabled: false,
            color: (255, 0, 0),
        }),
        forall|i: int| 0 <= i < 3 ==> ts@[i].bounded(),
{
    let mut ts: Vec<Target> = Vec::new();
    ts.push(Target { range: 10_000, velocity: 0, enabled: true, color: (0, 255, 0) });
    ts.push(Target { range: 30_000, velocity: 20_000, enabled: false, color: (0, 0, 255) });
    ts.push(Target { range: 40_000, velocity: -10_000, enabled: false, color: (255, 0, 0) });
    ts
}

/// The explicit merge-with-defaults step used when loading persisted
/// state: a missing field takes the default scene's value.
pub fn merge_with_defaults(
    carrier_frequency: Option<i64>,
    bandwidth: Option<i64>,
    chirp_durations: Option<Vec<i64>>,
    sampling_frequency: Option<i64>,
    sampling_duration: Option<i64>,
) -> (c: Configuration)
    ensures
        c.carrier_frequency == (match carrier_frequency {
            Option::Some(v) => v,
            Option::None => 77_000_000_000i64,
        }),
        c.bandwidth == (match bandwidth {
            Option::Some(v) => v,
            Option::None => 1_600_000_000i64,
        }),
        c.chirp_durations@ == (match chirp_durations {
            Option::Some(v) => v@,
            Option::None => seq![40_000_000i64, 20_000_000i64, 60_000_000i64],
        }),
        c.sampling_frequency == (match sampling_frequency {
            Option::Some(v) => v,
            Option::None => 50_000_000i64,
        }),
        c.sampling_duration == (match sampling_duration {
            Option::Some(v) => v,
            Option::None => 40_000_000i64,
        }),
{
    let defaults = Configuration::default();
    Configuration {
        carrier_frequency: match carrier_frequency {
            Some(v) => v,
            None => defaults.carrier_frequency,
        },
        bandwidth: match bandwidth {
            Some(v) => v,
            None => defaults.bandwidth,
        },
        chirp_durations: match chirp_durations {
            Some(v) => v,
            None => defaults.chirp_durations,
        },
        sampling_frequency: match sampling_frequency {
            Some(v) => v,
            None => defaults.sampling_frequency,
        },
        sampling_duration: match sampling_duration {
            Some(v) => v,
            None => defaults.sampling_duration,
        },
    }
}

} // verus!
