use fmcw_radar::errors::RadarError;
use fmcw_radar::waveform::{frequency_at, frequency_timeline, sum_chirps};

const CARRIER: i64 = 77_000_000_000;
const BANDWIDTH: i64 = 1_600_000_000;

#[test]
fn single_chirp_ramp_values() {
    // One 40 us chirp: the ramp starts at the carrier, reaches half the
    // bandwidth halfway through, and wraps back at the period.
    let chirps: Vec<i64> = vec![40_000_000];
    assert_eq!(frequency_at(0, &chirps, CARRIER, BANDWIDTH), Ok(CARRIER));
    assert_eq!(
        frequency_at(20_000_000, &chirps, CARRIER, BANDWIDTH),
        Ok(CARRIER + BANDWIDTH / 2)
    );
    assert_eq!(frequency_at(40_000_000, &chirps, CARRIER, BANDWIDTH), Ok(CARRIER));
}

#[test]
fn frequency_stays_in_band() {
    let chirps: Vec<i64> = vec![40_000_000, 20_000_000, 60_000_000];
    for &t in &[
        -120_000_000i64,
        -1,
        0,
        1,
        39_999_999,
        40_000_000,
        55_000_000,
        119_999_999,
        120_000_000,
        360_000_001,
    ] {
        let f = frequency_at(t, &chirps, CARRIER, BANDWIDTH).unwrap();
        assert!(f >= CARRIER && f < CARRIER + BANDWIDTH, "t={t} f={f}");
    }
}

#[test]
fn frequency_is_periodic() {
    let chirps: Vec<i64> = vec![40_000_000, 20_000_000, 60_000_000];
    let total: i64 = 120_000_000;
    for &t in &[-50_000_000i64, -1, 0, 17, 39_999_999, 71_234_567, 119_999_999] {
        let a = frequency_at(t, &chirps, CARRIER, BANDWIDTH).unwrap();
        let b = frequency_at(t + total, &chirps, CARRIER, BANDWIDTH).unwrap();
        assert_eq!(a, b, "t={t}");
    }
}

#[test]
fn negative_time_wraps_into_period() {
    // -20 us lands 20 us before the period's end: inside the third chirp.
    let chirps: Vec<i64> = vec![40_000_000, 20_000_000, 60_000_000];
    let a = frequency_at(-20_000_000, &chirps, CARRIER, BANDWIDTH).unwrap();
    let b = frequency_at(100_000_000, &chirps, CARRIER, BANDWIDTH).unwrap();
    assert_eq!(a, b);
}

#[test]
fn second_segment_selected() {
    // 50 us lies 10 us into the 20 us second chirp: fraction one half.
    let chirps: Vec<i64> = vec![40_000_000, 20_000_000, 60_000_000];
    assert_eq!(
        frequency_at(50_000_000, &chirps, CARRIER, BANDWIDTH),
        Ok(CARRIER + BANDWIDTH / 2)
    );
}

#[test]
fn empty_chirps_rejected() {
    let chirps: Vec<i64> = vec![];
    assert_eq!(frequency_at(0, &chirps, CARRIER, BANDWIDTH), Err(RadarError::InvalidConfig));
    assert_eq!(sum_chirps(&chirps), Err(RadarError::InvalidConfig));
}

#[test]
fn nonpositive_chirp_rejected() {
    let chirps: Vec<i64> = vec![40_000_000, 0, 60_000_000];
    assert_eq!(frequency_at(0, &chirps, CARRIER, BANDWIDTH), Err(RadarError::InvalidConfig));
    let chirps2: Vec<i64> = vec![-40_000_000];
    assert_eq!(sum_chirps(&chirps2), Err(RadarError::InvalidConfig));
}

#[test]
fn sum_of_chirps() {
    let chirps: Vec<i64> = vec![40_000_000, 20_000_000, 60_000_000];
    assert_eq!(sum_chirps(&chirps), Ok(120_000_000));
}

#[test]
fn timeline_matches_pointwise_lookup() {
    let chirps: Vec<i64> = vec![40_000_000, 20_000_000];
    let grid: Vec<i64> = vec![0, 10_000_000, 45_000_000, 59_999_999];
    let f = frequency_timeline(&grid, &chirps, CARRIER, BANDWIDTH).unwrap();
    assert_eq!(f.len(), grid.len());
    for (i, &t) in grid.iter().enumerate() {
        assert_eq!(f[i], frequency_at(t, &chirps, CARRIER, BANDWIDTH).unwrap());
    }
}
