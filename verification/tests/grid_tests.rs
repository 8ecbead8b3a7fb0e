use fmcw_radar::grid::{idx_at_t, sample_times, window_starts};

#[test]
fn evenly_spaced_times() {
    let r = sample_times(100, 90, 9, 9);
    assert_eq!(r.len(), 9);
    for (i, &t) in r.iter().enumerate() {
        assert_eq!(t, 100 + i as i64 * 10);
    }
    // A capture grid's last sample lands on start + span.
    let r = sample_times(0, 30, 4, 3);
    assert_eq!(r, vec![0, 10, 20, 30]);
}

#[test]
fn nearest_index_basics() {
    let times: Vec<i64> = vec![0, 10, 20, 30];
    assert_eq!(idx_at_t(&times, -5), 0);
    assert_eq!(idx_at_t(&times, 12), 1);
    assert_eq!(idx_at_t(&times, 29), 3);
    assert_eq!(idx_at_t(&times, 1000), 3);
}

#[test]
fn nearest_index_tie_takes_first_match() {
    // 15 is as close to 10 as to 20: the first wins.
    let times: Vec<i64> = vec![0, 10, 20, 30];
    assert_eq!(idx_at_t(&times, 15), 1);
    // Duplicate times: again the first.
    let dup: Vec<i64> = vec![7, 7, 7];
    assert_eq!(idx_at_t(&dup, 7), 0);
}

#[test]
fn nearest_index_of_empty_grid_is_zero() {
    let times: Vec<i64> = vec![];
    assert_eq!(idx_at_t(&times, 42), 0);
}

#[test]
fn window_starts_sit_inside_their_chirps() {
    let chirps: Vec<i64> = vec![40_000_000, 20_000_000, 60_000_000];
    let s = window_starts(&chirps).unwrap();
    assert_eq!(s, vec![39_200_000, 59_600_000, 118_800_000]);
}
