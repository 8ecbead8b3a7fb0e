use fmcw_radar::peaks::find_peaks;

#[test]
fn two_bumps_give_their_maxima() {
    let s: Vec<u64> = vec![0, 5, 3, 1, 2, 6, 4, 2];
    assert_eq!(find_peaks(&s), vec![1, 5]);
}

#[test]
fn empty_input_gives_no_peaks() {
    let s: Vec<u64> = vec![];
    assert_eq!(find_peaks(&s), Vec::<usize>::new());
}

#[test]
fn flat_input_gives_no_peaks() {
    let s: Vec<u64> = vec![4, 4, 4, 4];
    assert_eq!(find_peaks(&s), Vec::<usize>::new());
}

#[test]
fn single_value_gives_no_peak() {
    // The forward window clamps to the value itself at the last index.
    let s: Vec<u64> = vec![7];
    assert_eq!(find_peaks(&s), Vec::<usize>::new());
}

#[test]
fn open_candidate_at_end_is_emitted() {
    let s: Vec<u64> = vec![5, 3, 1];
    assert_eq!(find_peaks(&s), vec![0]);
}

#[test]
fn candidate_tracks_largest_value_seen() {
    // Both descending values stand above their baselines; the open
    // candidate keeps the larger one and is emitted at the end.
    let s: Vec<u64> = vec![2, 9, 8, 1, 1, 1];
    assert_eq!(find_peaks(&s), vec![1]);
}

#[test]
fn bump_peaking_at_last_index_is_not_opened() {
    // A final rise never exceeds the clamped baseline, so no candidate
    // opens for a maximum sitting on the last index.
    let s: Vec<u64> = vec![3, 1, 2, 5];
    assert_eq!(find_peaks(&s), vec![0]);
}
