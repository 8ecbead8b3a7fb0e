use fmcw_radar::errors::RadarError;
use fmcw_radar::peaks::find_peaks;
use fmcw_radar::spectrum::spectrum;
use rustfft::{num_complex::Complex, FftPlanner};

/// One-sided FFT magnitudes of a real signal, scaled to fixed-point
/// counts of one millionth.
fn fft_magnitudes(signal: &[f64]) -> Vec<u64> {
    let n = signal.len();
    let mut planner = FftPlanner::<f64>::new();
    let fft = planner.plan_fft_forward(n);
    let mut buffer: Vec<Complex<f64>> =
        signal.iter().map(|&x| Complex { re: x, im: 0.0 }).collect();
    fft.process(&mut buffer);
    buffer
        .iter()
        .map(|c| ((c.norm() / n as f64) * 2.0 * 1_000_000.0).round() as u64)
        .collect()
}

#[test]
fn spectrum_has_half_the_bins() {
    let mags: Vec<u64> = vec![0; 8];
    let s = spectrum(&mags, 8_000).unwrap();
    assert_eq!(s.len(), 4);
    for (i, &(freq, mag)) in s.iter().enumerate() {
        assert_eq!(freq, i as i64 * 1_000);
        assert_eq!(mag, 0);
    }
    let odd: Vec<u64> = vec![0; 9];
    assert_eq!(spectrum(&odd, 8_000).unwrap().len(), 4);
}

#[test]
fn empty_signal_rejected() {
    let mags: Vec<u64> = vec![];
    assert_eq!(spectrum(&mags, 8_000), Err(RadarError::InvalidInput));
}

#[test]
fn bin_aligned_tone_peaks_at_its_bin() {
    let n = 64usize;
    let k = 5usize;
    let signal: Vec<f64> = (0..n)
        .map(|i| (2.0 * std::f64::consts::PI * k as f64 * i as f64 / n as f64).sin())
        .collect();
    let mags = fft_magnitudes(&signal);
    let s = spectrum(&mags, 64_000).unwrap();
    assert_eq!(s.len(), 32);
    // The magnitude maximum sits at bin k, whose frequency is k * fs / n.
    let mut best = 0usize;
    for i in 0..s.len() {
        if s[i].1 > s[best].1 {
            best = i;
        }
    }
    assert_eq!(best, k);
    assert_eq!(s[k].0, 5_000);
    // The single-sided scaling puts the tone's amplitude near one.
    assert!(s[k].1 > 990_000 && s[k].1 < 1_010_000);
    // The peak detector agrees.
    let half: Vec<u64> = s.iter().map(|&(_, m)| m).collect();
    assert_eq!(find_peaks(&half), vec![k]);
}
