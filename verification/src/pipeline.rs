//! The pipeline around the floating-point edges: everything from the
//! validated scene inputs up to each capture window's tone frequencies,
//! and everything from a window's FFT magnitudes down to its ambiguity
//! lines. Rendering a window's tones into a sampled sine signal and
//! taking its FFT magnitudes happen outside this crate, between
//! `prepare_scene` and `analyze_window`.

use vstd::prelude::*;
use crate::ambiguity::{ambiguity_lines, projected_range_spec, AmbiguityLine};
use crate::beat::{beat_series, beat_spec};
use crate::config::{sample_count_spec, validate, velocities_admissible, Configuration, Target};
use crate::errors::RadarError;
use crate::grid::{idx_at_t, nearest_index_spec, sample_time_spec, sample_times, window_start_spec, window_starts};
use crate::peaks::{find_peaks, peaks_spec};
use crate::spectrum::{bin_frequency_spec, spectrum};
use crate::units::{
    MAX_CHIRP_PS, MAX_FREQUENCY_HZ, MAX_SAMPLING_HZ, MAX_TONE_HZ, MAX_VELOCITY_MM_PER_S,
    MIN_PROJECTION_BANDWIDTH_HZ, PS_PER_S,
};
use crate::waveform::{frequency_at_spec, frequency_timeline, sum_chirps, total_duration};

verus! {

/// Number of samples of the display time grid.
pub const DISPLAY_SAMPLES: usize = 1000;

/// One capture window, derived from one chirp segment.
pub struct CaptureWindow {
    /// Start time (ps): 98% of the way into its chirp segment.
    pub start_time: i64,
    /// Sample times (ps) of the window.
    pub grid: Vec<i64>,
    /// One beat tone (Hz) per enabled target, read at the display grid
    /// time nearest the window's start.
    pub tone_frequencies: Vec<i64>,
    /// Duration (ps) of the chirp segment the window belongs to.
    pub chirp_duration: i64,
    /// Transmitted frequency (Hz) at the display grid time nearest the
    /// window's start.
    pub f0: i64,
}

/// Everything the pipeline derives before the per-window signals are
/// rendered and transformed.
pub struct ScenePrep {
    /// Display time grid (ps), three sawtooth periods long.
    pub times: Vec<i64>,
    /// Transmitted frequency (Hz) at each display grid time.
    pub frequencies: Vec<i64>,
    /// One beat-frequency series per target, aligned to `times`.
    pub beat_series: Vec<Vec<i64>>,
    /// One capture window per chirp segment.
    pub windows: Vec<CaptureWindow>,
}

/// The views of a list of beat series.
pub open spec fn beats_view(bs: Seq<Vec<i64>>) -> Seq<Seq<i64>> {
    bs.map_values(|v: Vec<i64>| v@)
}

/// The beat tones of the enabled targets among `targets[k..]`, read from
/// each target's series at index `idx`.
pub open spec fn tones_from(beats: Seq<Seq<i64>>, targets: Seq<Target>, idx: int, k: int) -> Seq<
    i64,
>
    decreases targets.len() - k,
{
    if k < 0 || k >= targets.len() {
        Seq::empty()
    } else {
        let rest = tones_from(beats, targets, idx, k + 1);
        if targets[k].enabled {
            seq![beats[k][idx]] + rest
        } else {
            rest
        }
    }
}

/// What one capture window holds, as a function of the scene inputs and
/// the display-grid stages.
pub open spec fn window_matches(
    win: CaptureWindow,
    w: int,
    config: Configuration,
    targets: Seq<Target>,
    times: Seq<i64>,
    frequencies: Seq<i64>,
    beats: Seq<Seq<i64>>,
) -> bool {
    let chirps = config.chirp_durations@;
    let n = sample_count_spec(config.sampling_duration as int, config.sampling_frequency as int);
    let start = window_start_spec(chirps, w);
    let idx = nearest_index_spec(times, start);
    &&& win.start_time == start
    &&& win.chirp_duration == chirps[w]
    &&& win.grid@.len() == n
    &&& forall|j: int|
        0 <= j < n ==> win.grid@[j] == sample_time_spec(
            start,
            config.sampling_duration as int,
            n - 1,
            j,
        )
    &&& win.f0 == frequencies[idx]
    &&& win.tone_frequencies@ == tones_from(beats, targets, idx, 0)
}

/// What a prepared scene holds, as a function of the configuration and
/// the target list alone.
pub open spec fn scene_prep_matches(prep: ScenePrep, config: Configuration, targets: Seq<Target>) -> bool {
    let chirps = config.chirp_durations@;
    let span = 3 * total_duration(chirps);
    let carrier = config.carrier_frequency as int;
    let bw = config.bandwidth as int;
    &&& prep.times@.len() == DISPLAY_SAMPLES
    &&& forall|i: int|
        0 <= i < DISPLAY_SAMPLES ==> prep.times@[i] == sample_time_spec(
            0,
            span,
            DISPLAY_SAMPLES as int,
            i,
        )
    &&& prep.frequencies@.len() == DISPLAY_SAMPLES
    &&& forall|i: int|
        0 <= i < DISPLAY_SAMPLES ==> prep.frequencies@[i] == frequency_at_spec(
            prep.times@[i] as int,
            chirps,
            carrier,
            bw,
        )
    &&& prep.beat_series@.len() == targets.len()
    &&& forall|k: int|
        0 <= k < targets.len() ==> (#[trigger] prep.beat_series@[k])@.len() == DISPLAY_SAMPLES
    &&& forall|k: int, i: int|
        0 <= k < targets.len() && 0 <= i < DISPLAY_SAMPLES
            ==> #[trigger] prep.beat_series@[k]@[i] == beat_spec(
            prep.times@[i] as int,
            prep.frequencies@[i] as int,
            targets[k].range as int,
            targets[k].velocity as int,
            chirps,
            carrier,
            bw,
        )
    &&& prep.windows@.len() == chirps.len()
    &&& forall|w: int|
        0 <= w < chirps.len() ==> window_matches(
            #[trigger] prep.windows@[w],
            w,
            config,
            targets,
            prep.times@,
            prep.frequencies@,
            beats_view(prep.beat_series@),
        )
}

/// Runs the pipeline's first half: validation, the display grid, the
/// transmitted-frequency timeline, every target's beat series, and one
/// capture window per chirp segment.
#[verifier::rlimit(50)]
pub fn prepare_scene(config: &Configuration, targets: &Vec<Target>) -> (r: Result<
    ScenePrep,
    RadarError,
>)
    requires
        config.bounded(),
        forall|k: int| 0 <= k < targets@.len() ==> (#[trigger] targets@[k]).bounded(),
    ensures
        match r {
            Ok(prep) => config.valid() && velocities_admissible(targets@) && scene_prep_matches(
                prep,
                *config,
                targets@,
            ),
            Err(e) => (e == RadarError::InvalidConfig && !config.valid()) || (
            e == RadarError::NumericDegeneracy && config.valid() && !velocities_admissible(
                targets@,
            )),
        },
{
    match validate(config, targets) {
        Ok(()) => (),
        Err(e) => {
            return Err(e);
        },
    }
    let total = match sum_chirps(&config.chirp_durations) {
        Ok(t) => t,
        Err(e) => {
            return Err(e);
        },
    };
    let span = 3 * total;
    proof {
        assert(config.chirp_durations@.len() * MAX_CHIRP_PS <= 4096 * MAX_CHIRP_PS);
        assert(span <= 12_300_000_000_000_000);
    }
    let times = sample_times(0, span, DISPLAY_SAMPLES, DISPLAY_SAMPLES);
    let frequencies = match frequency_timeline(
        &times,
        &config.chirp_durations,
        config.carrier_frequency,
        config.bandwidth,
    ) {
        Ok(f) => f,
        Err(e) => {
            return Err(e);
        },
    };
    let mut bs: Vec<Vec<i64>> = Vec::new();
    let mut k: usize = 0;
    while k < targets.len()
        invariant
            config.bounded(),
            config.valid(),
            forall|j: int| 0 <= j < targets@.len() ==> (#[trigger] targets@[j]).bounded(),
            times@.len() == DISPLAY_SAMPLES,
            forall|i: int| 0 <= i < times@.len() ==> 0 <= #[trigger] times@[i] <= 12_300_000_000_000_000,
            frequencies@.len() == DISPLAY_SAMPLES,
            forall|i: int|
                0 <= i < frequencies@.len() ==> config.carrier_frequency <= #[trigger] frequencies@[i]
                    <= config.carrier_frequency + config.bandwidth,
            forall|i: int|
                0 <= i < DISPLAY_SAMPLES ==> frequencies@[i] == frequency_at_spec(
                    times@[i] as int,
                    config.chirp_durations@,
                    config.carrier_frequency as int,
                    config.bandwidth as int,
                ),
            0 <= k <= targets@.len(),
            bs@.len() == k,
            forall|j: int| 0 <= j < k ==> (#[trigger] bs@[j])@.len() == DISPLAY_SAMPLES,
            forall|j: int, i: int|
                0 <= j < k && 0 <= i < DISPLAY_SAMPLES ==> #[trigger] bs@[j]@[i] == beat_spec(
                    times@[i] as int,
                    frequencies@[i] as int,
                    targets@[j].range as int,
                    targets@[j].velocity as int,
                    config.chirp_durations@,
                    config.carrier_frequency as int,
                    config.bandwidth as int,
                ),
        decreases targets@.len() - k,
    {
        let target = targets[k];
        let series = match beat_series(
            &times,
            &frequencies,
            target.range,
            target.velocity,
            config.carrier_frequency,
            config.bandwidth,
            &config.chirp_durations,
        ) {
            Ok(s) => s,
            Err(e) => {
                return Err(e);
            },
        };
        bs.push(series);
        k = k + 1;
    }
    let starts = match window_starts(&config.chirp_durations) {
        Ok(s) => s,
        Err(e) => {
            return Err(e);
        },
    };
    let d = config.sampling_duration as i128;
    let f = config.sampling_frequency as i128;
    proof {
        assert(d * f <= 10_000_000_000_000_000_000 && 1 <= d * f) by (nonlinear_arith)
            requires
                1 <= d <= 10_000_000_000,
                1 <= f <= 1_000_000_000;
        assert(2 * (d * f) == 2 * d * f) by (nonlinear_arith);
    }
    let numerator = 2 * (d * f) + (PS_PER_S as i128);
    let n_wide = (numerator as u128) / (2 * (PS_PER_S as u128));
    let n = n_wide as usize;
    proof {
        assert(n_wide == sample_count_spec(
            config.sampling_duration as int,
            config.sampling_frequency as int,
        ));
        assert(n_wide < 10_000_001) by {
            crate::mathutil::lemma_div_below(
                numerator as int,
                2 * (PS_PER_S as int),
                10_000_001,
            );
        };
    }
    let mut windows: Vec<CaptureWindow> = Vec::new();
    let mut w: usize = 0;
    while w < config.chirp_durations.len()
        invariant
            config.bounded(),
            config.valid(),
            forall|j: int| 0 <= j < targets@.len() ==> (#[trigger] targets@[j]).bounded(),
            times@.len() == DISPLAY_SAMPLES,
            frequencies@.len() == DISPLAY_SAMPLES,
            bs@.len() == targets@.len(),
            starts@.len() == config.chirp_durations@.len(),
            forall|j: int|
                0 <= j < starts@.len() ==> starts@[j] == window_start_spec(
                    config.chirp_durations@,
                    j,
                ),
            forall|j: int| 0 <= j < starts@.len() ==> 0 <= #[trigger] starts@[j] < 4_200_000_000_000_000,
            forall|j: int| 0 <= j < k ==> (#[trigger] bs@[j])@.len() == DISPLAY_SAMPLES,
            k == targets@.len(),
            2 <= n == sample_count_spec(
                config.sampling_duration as int,
                config.sampling_frequency as int,
            ) < 10_000_001,
            0 <= w <= config.chirp_durations@.len(),
            windows@.len() == w,
            forall|j: int|
                0 <= j < w ==> window_matches(
                    #[trigger] windows@[j],
                    j,
                    *config,
                    targets@,
                    times@,
                    frequencies@,
                    beats_view(bs@),
                ),
        decreases config.chirp_durations@.len() - w,
    {
        let start = starts[w];
        let grid = sample_times(start, config.sampling_duration, n, n - 1);
        let idx = idx_at_t(&times, start);
        let mut tones: Vec<i64> = Vec::new();
        let mut j: usize = 0;
        while j < targets.len()
            invariant
                bs@.len() == targets@.len(),
                forall|m: int| 0 <= m < bs@.len() ==> (#[trigger] bs@[m])@.len() == DISPLAY_SAMPLES,
                idx < DISPLAY_SAMPLES,
                0 <= j <= targets@.len(),
                tones_from(beats_view(bs@), targets@, idx as int, 0) == tones@ + tones_from(
                    beats_view(bs@),
                    targets@,
                    idx as int,
                    j as int,
                ),
            decreases targets@.len() - j,
        {
            let ghost prev_tones = tones@;
            if targets[j].enabled {
                tones.push(bs[j][idx]);
                proof {
                    let beats = beats_view(bs@);
                    let rest = tones_from(beats, targets@, idx as int, j + 1);
                    assert(beats[j as int] == bs@[j as int]@);
                    assert(tones_from(beats, targets@, idx as int, j as int) == seq![
                        beats[j as int][idx as int],
                    ] + rest);
                    assert(prev_tones + (seq![beats[j as int][idx as int]] + rest) =~= tones@
                        + rest);
                }
            }
            j = j + 1;
        }
        proof {
            assert(tones@ + tones_from(beats_view(bs@), targets@, idx as int, targets@.len() as int)
                =~= tones@);
        }
        windows.push(
            CaptureWindow {
                start_time: start,
                grid,
                tone_frequencies: tones,
                chirp_duration: config.chirp_durations[w],
                f0: frequencies[idx],
            },
        );
        w = w + 1;
    }
    Ok(ScenePrep { times, frequencies, beat_series: bs, windows })
}

/// What one analyzed window holds, as a function of its magnitudes and
/// scene parameters alone.
pub open spec fn window_analysis_matches(
    spectrum_out: Seq<(i64, u64)>,
    peaks_out: Seq<(i64, u64)>,
    lines_out: Seq<AmbiguityLine>,
    magnitudes: Seq<u64>,
    fs: int,
    chirp_ps: int,
    f0: int,
    bw: int,
    v_min: int,
    v_max: int,
) -> bool {
    let half = magnitudes.len() as int / 2;
    let one_sided = magnitudes.take(half);
    let peak_idxs = peaks_spec(one_sided);
    &&& spectrum_out.len() == half
    &&& forall|i: int|
        0 <= i < half ==> (#[trigger] spectrum_out[i]).0 == bin_frequency_spec(
            i,
            magnitudes.len() as int,
            fs,
        ) && spectrum_out[i].1 == magnitudes[i]
    &&& peaks_out.len() == peak_idxs.len()
    &&& forall|p: int| 0 <= p < peak_idxs.len() ==> #[trigger] peaks_out[p] == spectrum_out[peak_idxs[p]]
    &&& lines_out.len() == peak_idxs.len()
    &&& forall|p: int|
        0 <= p < peak_idxs.len() ==> (#[trigger] lines_out[p]).range_a == projected_range_spec(
            f0,
            v_min,
            peaks_out[p].0 as int,
            chirp_ps,
            bw,
        ) && lines_out[p].velocity_a == -v_min && lines_out[p].range_b == projected_range_spec(
            f0,
            v_max,
            peaks_out[p].0 as int,
            chirp_ps,
            bw,
        ) && lines_out[p].velocity_b == -v_max
}

/// The pipeline's second half for one capture window: the one-sided
/// spectrum of the FFT magnitudes handed in, its detected peaks, and one
/// ambiguity line per peak.
pub struct WindowAnalysis {
    /// One-sided spectrum: `(frequency, magnitude)` per kept bin.
    pub spectrum: Vec<(i64, u64)>,
    /// The `(frequency, magnitude)` pairs at the detected peak bins.
    pub peaks: Vec<(i64, u64)>,
    /// One ambiguity line per detected peak.
    pub lines: Vec<AmbiguityLine>,
}

/// Analyzes one capture window from its FFT magnitude array: keeps the
/// one-sided spectrum, detects its peaks, and projects each into an
/// ambiguity line between the two search velocities.
pub fn analyze_window(
    magnitudes: &Vec<u64>,
    sampling_frequency: i64,
    chirp_duration: i64,
    f0: i64,
    bandwidth: i64,
    v_min: i64,
    v_max: i64,
) -> (r: Result<WindowAnalysis, RadarError>)
    requires
        0 <= sampling_frequency <= MAX_SAMPLING_HZ,
        0 < chirp_duration <= MAX_CHIRP_PS,
        -MAX_TONE_HZ <= f0 <= MAX_TONE_HZ,
        MIN_PROJECTION_BANDWIDTH_HZ <= bandwidth <= MAX_FREQUENCY_HZ,
        -MAX_VELOCITY_MM_PER_S <= v_min <= MAX_VELOCITY_MM_PER_S,
        -MAX_VELOCITY_MM_PER_S <= v_max <= MAX_VELOCITY_MM_PER_S,
    ensures
        match r {
            Ok(a) => magnitudes@.len() > 0 && window_analysis_matches(
                a.spectrum@,
                a.peaks@,
                a.lines@,
                magnitudes@,
                sampling_frequency as int,
                chirp_duration as int,
                f0 as int,
                bandwidth as int,
                v_min as int,
                v_max as int,
            ),
            Err(e) => e == RadarError::InvalidInput && magnitudes@.len() == 0,
        },
{
    let s = match spectrum(magnitudes, sampling_frequency) {
        Ok(s) => s,
        Err(e) => {
            return Err(e);
        },
    };
    let mut half_mags: Vec<u64> = Vec::new();
    let mut i: usize = 0;
    while i < s.len()
        invariant
            0 <= i <= s@.len(),
            half_mags@.len() == i,
            forall|j: int| 0 <= j < i ==> half_mags@[j] == (#[trigger] s@[j]).1,
        decreases s@.len() - i,
    {
        let (_freq, mag) = s[i];
        half_mags.push(mag);
        i = i + 1;
    }
    proof {
        let half = magnitudes@.len() as int / 2;
        assert forall|j: int| 0 <= j < half_mags@.len() implies half_mags@[j] == magnitudes@.take(
            half,
        )[j] by {
            assert(half_mags@[j] == s@[j].1);
            assert(s@[j].1 == magnitudes@[j]);
        };
        assert(half_mags@ =~= magnitudes@.take(half));
    }
    let peak_idxs = find_peaks(&half_mags);
    let mut peaks: Vec<(i64, u64)> = Vec::new();
    let mut p: usize = 0;
    while p < peak_idxs.len()
        invariant
            half_mags@.len() == s@.len(),
            peak_idxs@.map_values(|x: usize| x as int) == peaks_spec(half_mags@),
            forall|q: int| 0 <= q < peak_idxs@.len() ==> (#[trigger] peak_idxs@[q]) < s@.len(),
            forall|q: int|
                0 <= q < s@.len() ==> 0 <= (#[trigger] s@[q]).0 <= MAX_SAMPLING_HZ,
            0 <= p <= peak_idxs@.len(),
            peaks@.len() == p,
            forall|q: int|
                0 <= q < p ==> #[trigger] peaks@[q] == s@[peaks_spec(half_mags@)[q] as int],
        decreases peak_idxs@.len() - p,
    {
        let idx = peak_idxs[p];
        proof {
            assert(peak_idxs@.map_values(|x: usize| x as int)[p as int] == peak_idxs@[p as int]
                as int);
        }
        peaks.push(s[idx]);
        p = p + 1;
    }
    let lines = ambiguity_lines(f0, &peaks, chirp_duration, bandwidth, v_min, v_max);
    Ok(WindowAnalysis { spectrum: s, peaks, lines })
}

/// A prepared scene is a function of the configuration and targets
/// alone: two preparations from equal inputs agree everywhere.
pub proof fn lemma_prepare_deterministic(
    a: ScenePrep,
    b: ScenePrep,
    config: Configuration,
    targets: Seq<Target>,
)
    requires
        scene_prep_matches(a, config, targets),
        scene_prep_matches(b, config, targets),
    ensures
        a.times@ == b.times@,
        a.frequencies@ == b.frequencies@,
        forall|k: int|
            0 <= k < targets.len() ==> (#[trigger] a.beat_series@[k])@ == b.beat_series@[k]@,
        a.windows@.len() == b.windows@.len(),
        forall|w: int|
            0 <= w < a.windows@.len() ==> (#[trigger] a.windows@[w]).start_time
                == b.windows@[w].start_time && a.windows@[w].chirp_duration
                == b.windows@[w].chirp_duration && a.windows@[w].f0 == b.windows@[w].f0
                && a.windows@[w].grid@ == b.windows@[w].grid@ && a.windows@[w].tone_frequencies@
                == b.windows@[w].tone_frequencies@,
{
    assert(a.times@ =~= b.times@);
    assert(a.frequencies@ =~= b.frequencies@);
    assert forall|k: int|
        0 <= k < targets.len() implies (#[trigger] a.beat_series@[k])@ == b.beat_series@[k]@ by {
        assert(a.beat_series@[k]@ =~= b.beat_series@[k]@);
    };
    assert(beats_view(a.beat_series@) =~= beats_view(b.beat_series@));
    assert forall|w: int|
        0 <= w < a.windows@.len() implies (#[trigger] a.windows@[w]).start_time
            == b.windows@[w].start_time && a.windows@[w].chirp_duration
            == b.windows@[w].chirp_duration && a.windows@[w].f0 == b.windows@[w].f0
            && a.windows@[w].grid@ == b.windows@[w].grid@ && a.windows@[w].tone_frequencies@
            == b.windows@[w].tone_frequencies@ by {
        assert(window_matches(
            a.windows@[w],
            w,
            config,
            targets,
            a.times@,
            a.frequencies@,
            beats_view(a.beat_series@),
        ));
        assert(window_matches(
            b.windows@[w],
            w,
            config,
            targets,
            b.times@,
            b.frequencies@,
            beats_view(b.beat_series@),
        ));
        assert(a.windows@[w].grid@ =~= b.windows@[w].grid@);
    };
}

/// An analyzed window is a function of its magnitudes and scene
/// parameters alone: two analyses from equal inputs agree everywhere.
pub proof fn lemma_analyze_deterministic(
    a: WindowAnalysis,
    b: WindowAnalysis,
    magnitudes: Seq<u64>,
    fs: int,
    chirp_ps: int,
    f0: int,
    bw: int,
    v_min: int,
    v_max: int,
)
    requires
        window_analysis_matches(a.spectrum@, a.peaks@, a.lines@, magnitudes, fs, chirp_ps, f0, bw, v_min, v_max),
        window_analysis_matches(b.spectrum@, b.peaks@, b.lines@, magnitudes, fs, chirp_ps, f0, bw, v_min, v_max),
    ensures
        a.spectrum@ == b.spectrum@,
        a.peaks@ == b.peaks@,
        a.lines@ == b.lines@,
{
    assert(a.spectrum@ =~= b.spectrum@);
    assert(a.peaks@ =~= b.peaks@);
    assert(a.lines@ =~= b.lines@);
}

} // verus!
