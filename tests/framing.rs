use whisper_mel::framing::{copy_range, frame_signal, pad_or_truncate, whisper_frames};
use whisper_mel::layout::{HOP_LENGTH, N_FFT, N_FRAMES, N_SAMPLES};

#[test]
fn pad_or_truncate_fills_short_input() {
    let r = pad_or_truncate(vec![1, 2, 3], 5, 4, 0);
    assert_eq!(r, vec![0, 0, 1, 2, 3, 0, 0, 0, 0]);
}

#[test]
fn pad_or_truncate_cuts_long_input() {
    let r = pad_or_truncate(vec![1, 2, 3, 4, 5, 6, 7], 4, 2, 9);
    assert_eq!(r, vec![9, 1, 2, 3, 4, 9]);
}

#[test]
fn pad_or_truncate_halves_odd_frame_length_down() {
    let r = pad_or_truncate(vec![7, 8], 2, 5, 0);
    assert_eq!(r, vec![0, 0, 7, 8, 0, 0]);
}

#[test]
fn pad_or_truncate_of_empty_input_is_all_fill() {
    let r: Vec<i32> = pad_or_truncate(Vec::new(), 3, 0, -1);
    assert_eq!(r, vec![-1, -1, -1]);
}

#[test]
fn pad_or_truncate_whisper_length() {
    let r = pad_or_truncate(vec![1i16; 100], N_SAMPLES, N_FFT, 0);
    assert_eq!(r.len(), 480400);
    assert_eq!(r[199], 0);
    assert_eq!(r[200], 1);
    assert_eq!(r[299], 1);
    assert_eq!(r[300], 0);
}

#[test]
fn frame_signal_cuts_overlapping_frames() {
    let s: Vec<i32> = (0..10).collect();
    let frames = frame_signal(s, 4, 3);
    assert_eq!(frames, vec![vec![0, 1, 2, 3], vec![3, 4, 5, 6], vec![6, 7, 8, 9]]);
}

#[test]
fn frame_signal_of_exact_frame_length_gives_one_frame() {
    let frames = frame_signal(vec![1, 2, 3], 3, 5);
    assert_eq!(frames, vec![vec![1, 2, 3]]);
}

#[test]
fn frame_signal_count_on_whisper_padding() {
    let frames = frame_signal(vec![0u8; 480400], 400, 160);
    assert_eq!(frames.len(), 3001);
    assert!(frames.iter().all(|f| f.len() == 400));
}

#[test]
fn copy_range_copies_the_slice() {
    let s = vec![5, 6, 7, 8];
    assert_eq!(copy_range(&s, 1, 3), vec![6, 7]);
    assert_eq!(copy_range(&s, 2, 2), Vec::<i32>::new());
}

#[test]
fn whisper_frames_shape_and_positions() {
    let s: Vec<u32> = (1..=480000).collect();
    let frames = whisper_frames(s, 0);
    assert_eq!(frames.len(), N_FRAMES);
    assert!(frames.iter().all(|f| f.len() == N_FFT));
    // frame 0 holds 200 fill samples, then the first 200 samples
    assert!(frames[0][..200].iter().all(|&v| v == 0));
    assert_eq!(frames[0][200], 1);
    assert_eq!(frames[0][399], 200);
    // frame i starts at padded index i * 160, i.e. sample i * 160 - 200
    assert_eq!(frames[10][0], (10 * HOP_LENGTH - 200 + 1) as u32);
    // the last kept frame reaches into the trailing padding
    let last = &frames[N_FRAMES - 1];
    assert_eq!(last[0], (2999 * 160 - 200 + 1) as u32);
    assert_eq!(last[359], 480000);
    assert_eq!(last[360], 0);
}

#[test]
fn whisper_frames_ignore_samples_beyond_thirty_seconds() {
    let long: Vec<i32> = (0..600000).collect();
    let cut: Vec<i32> = (0..480000).collect();
    assert_eq!(whisper_frames(long, -1), whisper_frames(cut, -1));
}

#[test]
fn whisper_frames_are_deterministic() {
    let s: Vec<i16> = (0..20000).map(|i| ((i * 7919) % 65536 - 32768) as i16).collect();
    assert_eq!(whisper_frames(s.clone(), 0), whisper_frames(s, 0));
}

#[test]
fn short_noise_is_zero_padded_to_thirty_seconds() {
    // 0.5 s of pseudo-random noise at 16 kHz
    let mut state: u32 = 12345;
    let s: Vec<i16> = (0..8000)
        .map(|_| {
            state = state.wrapping_mul(1103515245).wrapping_add(12345);
            ((state >> 16) as i16) | 1
        })
        .collect();
    let frames = whisper_frames(s, 0);
    assert_eq!(frames.len(), 3000);
    // frames up to index 51 reach into the signal (51 * 160 < 200 + 8000)
    for f in &frames[..52] {
        assert!(f.iter().any(|&v| v != 0));
    }
    // every later frame lies wholly in the zero fill
    for f in &frames[52..] {
        assert!(f.iter().all(|&v| v == 0));
    }
}

#[test]
fn square_wave_with_hop_period_gives_identical_interior_frames() {
    // 100 Hz square wave at 16 kHz: a period of 160 samples, the hop length
    let s: Vec<i16> = (0..480000).map(|n| if n % 160 < 80 { 32767 } else { -32767 }).collect();
    let frames = whisper_frames(s, 0);
    for i in 2..=2998 {
        assert_eq!(frames[i], frames[2]);
    }
    assert_ne!(frames[0], frames[2]);
}
