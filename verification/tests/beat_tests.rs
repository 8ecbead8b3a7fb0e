use fmcw_radar::beat::{beat_series, doppler_shift, range_delay};
use fmcw_radar::waveform::frequency_timeline;

const CARRIER: i64 = 77_000_000_000;
const BANDWIDTH: i64 = 1_600_000_000;

fn chirps() -> Vec<i64> {
    vec![40_000_000, 20_000_000, 60_000_000]
}

fn grid() -> Vec<i64> {
    (0..100).map(|i| i * 1_200_000).collect()
}

#[test]
fn doppler_shift_exact_value() {
    // -2 * 10_000 * 77e9 / (299_999_000_000 + 10_000), floored.
    assert_eq!(doppler_shift(77_000_000_000, 10_000), -5134);
    assert_eq!(doppler_shift(77_000_000_000, 0), 0);
    // Approaching targets shift the tone up.
    assert!(doppler_shift(77_000_000_000, -10_000) > 0);
}

#[test]
fn range_delay_exact_value() {
    // 30 m of range: 2 * 30_000 mm * 1e12 / c, about 200 ns.
    assert_eq!(range_delay(30_000), 200_000);
    assert_eq!(range_delay(0), 0);
}

#[test]
fn zero_target_beats_at_zero() {
    let t = grid();
    let f = frequency_timeline(&t, &chirps(), CARRIER, BANDWIDTH).unwrap();
    let b = beat_series(&t, &f, 0, 0, CARRIER, BANDWIDTH, &chirps()).unwrap();
    assert_eq!(b.len(), t.len());
    assert!(b.iter().all(|&x| x == 0));
}

#[test]
fn pure_doppler_beat_is_the_doppler_shift() {
    let t = grid();
    let f = frequency_timeline(&t, &chirps(), CARRIER, BANDWIDTH).unwrap();
    let v: i64 = 20_000;
    let b = beat_series(&t, &f, 0, v, CARRIER, BANDWIDTH, &chirps()).unwrap();
    for i in 0..t.len() {
        assert_eq!(b[i], doppler_shift(f[i], v));
    }
}

#[test]
fn range_only_beat_is_negative_on_a_ramp() {
    // A delayed ramp sits below the transmitted one away from the wrap.
    let t: Vec<i64> = vec![10_000_000, 20_000_000, 30_000_000];
    let f = frequency_timeline(&t, &chirps(), CARRIER, BANDWIDTH).unwrap();
    let b = beat_series(&t, &f, 30_000, 0, CARRIER, BANDWIDTH, &chirps()).unwrap();
    // Slope 1.6 GHz / 40 us over a 200 ns delay: 8 MHz below.
    for &x in &b {
        assert_eq!(x, -8_000_000);
    }
}
