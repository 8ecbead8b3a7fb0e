use fmcw_radar::config::{Configuration, Target};
use fmcw_radar::errors::RadarError;
use fmcw_radar::pipeline::{analyze_window, prepare_scene, ScenePrep, WindowAnalysis};
use rustfft::{num_complex::Complex, FftPlanner};

const V_MIN: i64 = -50_000;
const V_MAX: i64 = 50_000;

fn one_target(range_mm: i64, velocity_mm_s: i64) -> Vec<Target> {
    vec![Target { range: range_mm, velocity: velocity_mm_s, enabled: true, color: (0, 255, 0) }]
}

/// Sum of unit sines at the given tones over the window's grid times.
fn render_signal(grid_ps: &[i64], tones_hz: &[i64]) -> Vec<f64> {
    grid_ps
        .iter()
        .map(|&t_ps| {
            let t = t_ps as f64 * 1e-12;
            tones_hz
                .iter()
                .map(|&f| (2.0 * std::f64::consts::PI * f as f64 * t).sin())
                .sum::<f64>()
        })
        .collect()
}

/// Full-length FFT magnitudes, single-sided scaling, in counts of one
/// millionth.
fn fft_magnitudes(signal: &[f64]) -> Vec<u64> {
    let n = signal.len();
    let mut planner = FftPlanner::<f64>::new();
    let fft = planner.plan_fft_forward(n);
    let mut buffer: Vec<Complex<f64>> =
        signal.iter().map(|&x| Complex { re: x, im: 0.0 }).collect();
    fft.process(&mut buffer);
    buffer
        .iter()
        .map(|c| ((c.norm() / n as f64) * 2.0 * 1_000_000.0).round() as u64)
        .collect()
}

fn analyze(prep: &ScenePrep, w: usize, config: &Configuration) -> WindowAnalysis {
    let win = &prep.windows[w];
    let signal = render_signal(&win.grid, &win.tone_frequencies);
    let mags = fft_magnitudes(&signal);
    analyze_window(
        &mags,
        config.sampling_frequency,
        win.chirp_duration,
        win.f0,
        config.bandwidth,
        V_MIN,
        V_MAX,
    )
    .unwrap()
}

/// Distance from a point to a segment, all in meters and meters/second.
fn point_segment_distance(px: f64, py: f64, ax: f64, ay: f64, bx: f64, by: f64) -> f64 {
    let (dx, dy) = (bx - ax, by - ay);
    let len2 = dx * dx + dy * dy;
    let t = if len2 == 0.0 { 0.0 } else { ((px - ax) * dx + (py - ay) * dy) / len2 };
    let t = t.clamp(0.0, 1.0);
    let (cx, cy) = (ax + t * dx, ay + t * dy);
    ((px - cx).powi(2) + (py - cy).powi(2)).sqrt()
}

#[test]
fn scene_preparation_shapes() {
    let config = Configuration::default();
    let targets = one_target(30_000, 10_000);
    let prep = prepare_scene(&config, &targets).unwrap();
    assert_eq!(prep.times.len(), 1000);
    assert_eq!(prep.frequencies.len(), 1000);
    assert_eq!(prep.beat_series.len(), 1);
    assert_eq!(prep.beat_series[0].len(), 1000);
    assert_eq!(prep.windows.len(), 3);
    // 40 us at 50 MHz: 2000 samples per capture window.
    assert_eq!(prep.windows[0].grid.len(), 2000);
    // Window starts sit at 98% of each chirp.
    assert_eq!(prep.windows[0].start_time, 39_200_000);
    assert_eq!(prep.windows[1].start_time, 40_000_000 + 19_600_000);
    assert_eq!(prep.windows[2].start_time, 60_000_000 + 58_800_000);
    // One enabled target: one tone per window.
    assert_eq!(prep.windows[0].tone_frequencies.len(), 1);
}

#[test]
fn disabled_targets_contribute_no_tone() {
    let config = Configuration::default();
    let mut targets = one_target(30_000, 10_000);
    targets.push(Target { range: 40_000, velocity: 0, enabled: false, color: (255, 0, 0) });
    let prep = prepare_scene(&config, &targets).unwrap();
    assert_eq!(prep.beat_series.len(), 2);
    assert_eq!(prep.windows[0].tone_frequencies.len(), 1);
}

#[test]
fn invalid_scene_is_rejected_before_computation() {
    let mut config = Configuration::default();
    config.chirp_durations = vec![];
    let r = prepare_scene(&config, &one_target(30_000, 10_000));
    assert!(matches!(r, Err(RadarError::InvalidConfig)));
}

#[test]
fn end_to_end_ambiguity_line_passes_near_the_target() {
    let config = Configuration::default();
    let targets = one_target(30_000, 10_000);
    let prep = prepare_scene(&config, &targets).unwrap();
    let analysis = analyze(&prep, 0, &config);
    assert!(analysis.lines.len() > 0);
    // The target's true state lies on its own ambiguity line: the closest
    // approach to (30 m, 10 m/s) over all lines stays within one unit of
    // combined range/velocity error.
    let mut best = f64::INFINITY;
    for line in &analysis.lines {
        let d = point_segment_distance(
            30.0,
            10.0,
            line.range_a as f64 / 1000.0,
            line.velocity_a as f64 / 1000.0,
            line.range_b as f64 / 1000.0,
            line.velocity_b as f64 / 1000.0,
        );
        if d < best {
            best = d;
        }
    }
    assert!(best < 1.0, "closest approach {best}");
}

#[test]
fn rerunning_the_pipeline_is_deterministic() {
    let config = Configuration::default();
    let targets = one_target(30_000, 10_000);
    let prep1 = prepare_scene(&config, &targets).unwrap();
    let prep2 = prepare_scene(&config, &targets).unwrap();
    assert_eq!(prep1.times, prep2.times);
    assert_eq!(prep1.frequencies, prep2.frequencies);
    assert_eq!(prep1.beat_series, prep2.beat_series);
    assert_eq!(prep1.windows.len(), prep2.windows.len());
    for (a, b) in prep1.windows.iter().zip(prep2.windows.iter()) {
        assert_eq!(a.start_time, b.start_time);
        assert_eq!(a.chirp_duration, b.chirp_duration);
        assert_eq!(a.f0, b.f0);
        assert_eq!(a.grid, b.grid);
        assert_eq!(a.tone_frequencies, b.tone_frequencies);
    }
    let a1 = analyze(&prep1, 0, &config);
    let a2 = analyze(&prep2, 0, &config);
    assert_eq!(a1.spectrum, a2.spectrum);
    assert_eq!(a1.peaks, a2.peaks);
    assert_eq!(a1.lines, a2.lines);
}
