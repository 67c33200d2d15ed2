use whisper_mel::channels::group_channels;
use whisper_mel::filterbank::mel_filter_count;
use whisper_mel::introspect::type_of;
use whisper_mel::layout::{N_FRAMES, N_FREQ_BINS, N_MELS, SAMPLE_RATE};
use whisper_mel::matrix::{flatten_rows, to_band_major, transpose};

#[test]
fn group_channels_splits_by_instant() {
    let groups = group_channels(&vec![1, 2, 3, 4, 5, 6], 2);
    assert_eq!(groups, vec![vec![1, 2], vec![3, 4], vec![5, 6]]);
}

#[test]
fn group_channels_keeps_a_short_tail() {
    let groups = group_channels(&vec![1, 2, 3, 4, 5], 2);
    assert_eq!(groups, vec![vec![1, 2], vec![3, 4], vec![5]]);
}

#[test]
fn group_channels_of_mono_and_empty() {
    assert_eq!(group_channels(&vec![9, 8], 1), vec![vec![9], vec![8]]);
    assert_eq!(group_channels(&Vec::<i16>::new(), 3), Vec::<Vec<i16>>::new());
}

#[test]
fn identical_channels_group_into_copies() {
    let x: Vec<i16> = vec![3, -4, 5, 0];
    let mut s = Vec::new();
    for &v in &x {
        for _ in 0..3 {
            s.push(v);
        }
    }
    let groups = group_channels(&s, 3);
    assert_eq!(groups.len(), x.len());
    for (g, &v) in groups.iter().zip(x.iter()) {
        assert_eq!(g, &vec![v, v, v]);
    }
}

#[test]
fn transpose_swaps_rows_and_columns() {
    let m = vec![vec![1, 2], vec![3, 4], vec![5, 6]];
    assert_eq!(transpose(m), vec![vec![1, 3, 5], vec![2, 4, 6]]);
}

#[test]
fn transpose_of_empty_rows() {
    let m: Vec<Vec<i32>> = vec![vec![], vec![]];
    assert_eq!(transpose(m), Vec::<Vec<i32>>::new());
}

#[test]
fn flatten_rows_concatenates() {
    let m = vec![vec![1, 2], vec![], vec![3]];
    assert_eq!(flatten_rows(m), vec![1, 2, 3]);
    assert_eq!(flatten_rows(Vec::<Vec<u8>>::new()), Vec::<u8>::new());
}

#[test]
fn band_major_layout_of_whisper_shape() {
    let mel: Vec<Vec<u32>> = (0..N_FRAMES as u32)
        .map(|t| (0..N_MELS as u32).map(|m| t * 1000 + m).collect())
        .collect();
    let flat = to_band_major(mel);
    assert_eq!(flat.len(), 240000);
    for m in [0usize, 1, 40, 79] {
        for t in [0usize, 1, 1500, 2999] {
            assert_eq!(flat[m * N_FRAMES + t], (t * 1000 + m) as u32);
        }
    }
}

#[test]
fn band_major_layout_small() {
    let flat = to_band_major(vec![vec![1, 2, 3], vec![4, 5, 6]]);
    assert_eq!(flat, vec![1, 4, 2, 5, 3, 6]);
}

#[test]
fn layout_constants() {
    assert_eq!(SAMPLE_RATE, 16000);
    assert_eq!(N_FRAMES, 3000);
    assert_eq!(N_MELS, 80);
    assert_eq!(N_FREQ_BINS, 201);
}

#[test]
fn type_of_names_sample_types() {
    assert_eq!(type_of(&3i16), "&i16");
    assert_eq!(type_of(&3u32), "&u32");
    assert_eq!(type_of(&3usize), "&usize");
}

#[test]
fn mel_filter_count_needs_three_edges() {
    assert_eq!(mel_filter_count(82), Some(80));
    assert_eq!(mel_filter_count(3), Some(1));
    assert_eq!(mel_filter_count(2), None);
    assert_eq!(mel_filter_count(0), None);
}
