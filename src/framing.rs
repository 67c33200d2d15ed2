//! Padding of a sample stream to the analysis window and its cutting into
//! overlapping frames.
use vstd::prelude::*;
use vstd::arithmetic::div_mod::{lemma_div_plus_one, lemma_fundamental_div_mod};
use crate::layout::{HOP_LENGTH, N_FFT, N_FRAMES, N_SAMPLES};

verus! {

/// Sample `i` of `s` cut or filled to `target` samples, with `pad` fill
/// samples added before and after.
pub open spec fn padded_at<T>(s: Seq<T>, target: nat, pad: nat, fill: T, i: int) -> T {
    if pad <= i && i < pad + target && i - pad < s.len() {
        s[i - pad]
    } else {
        fill
    }
}

/// `s` cut or filled to `target` samples, with `pad` fill samples added
/// before and after.
pub open spec fn padded<T>(s: Seq<T>, target: nat, pad: nat, fill: T) -> Seq<T> {
    Seq::new(target + 2 * pad, |i: int| padded_at(s, target, pad, fill, i))
}

/// How many frames of `frame_length` samples, `hop` apart, are cut from
/// `len` samples.
pub open spec fn frame_count(len: nat, frame_length: nat, hop: nat) -> int {
    (len - frame_length + hop) / (hop as int)
}

/// Frame `i` of a stream: the `frame_length` samples from `i * hop` on.
pub open spec fn frame_of<T>(s: Seq<T>, frame_length: nat, hop: nat, i: int) -> Seq<T> {
    s.subrange(i * hop, i * hop + frame_length)
}

/// The padded stream that the Whisper frames are cut from.
pub open spec fn whisper_padded<T>(s: Seq<T>, fill: T) -> Seq<T> {
    padded(s, N_SAMPLES as nat, (N_FFT / 2) as nat, fill)
}

/// The frames that the Whisper front end analyses, cut from `s`.
pub open spec fn whisper_frames_of<T>(s: Seq<T>, fill: T) -> Seq<Seq<T>> {
    Seq::new(
        N_FRAMES as nat,
        |i: int| frame_of(whisper_padded(s, fill), N_FFT as nat, HOP_LENGTH as nat, i),
    )
}

/// Whatever the input, the front end analyses exactly `N_FRAMES` frames of
/// `N_FFT` samples each.
pub proof fn lemma_whisper_frames_shape<T>(s: Seq<T>, fill: T)
    ensures
        whisper_frames_of(s, fill).len() == N_FRAMES,
        forall|i: int| 0 <= i < N_FRAMES ==> #[trigger] whisper_frames_of(s, fill)[i].len() == N_FFT,
{
    let p = whisper_padded(s, fill);
    assert(p.len() == 480400);
    assert forall|i: int| 0 <= i < N_FRAMES implies #[trigger] whisper_frames_of(s, fill)[i].len() == N_FFT by {
        assert(i * 160 + 400 <= 480400);
    }
}

/// Every frame whose index is below the frame count lies inside the stream.
proof fn lemma_frame_fits(len: int, frame_length: int, hop: int, i: int)
    requires
        0 < hop,
        0 <= frame_length <= len,
        0 <= i < (len - frame_length + hop) / hop,
    ensures
        i * hop + frame_length <= len,
{
    let x = len - frame_length;
    lemma_div_plus_one(x, hop);
    assert(hop + x == len - frame_length + hop);
    lemma_fundamental_div_mod(x, hop);
    let q = x / hop;
    assert(i <= q);
    assert(i * hop <= q * hop) by (nonlinear_arith)
        requires
            i <= q,
            0 < hop,
    ;
    assert(q * hop == hop * q) by (nonlinear_arith);
}

/// A copy of `s[start..end]`.
pub fn copy_range<T: Copy>(s: &Vec<T>, start: usize, end: usize) -> (r: Vec<T>)
    requires
        start <= end <= s.len(),
    ensures
        r@ == s@.subrange(start as int, end as int),
{
    let mut r: Vec<T> = Vec::with_capacity(end - start);
    let mut k: usize = start;
    while k < end
        invariant
            start <= k <= end <= s.len(),
            r@ == s@.subrange(start as int, k as int),
        decreases end - k,
    {
        r.push(s[k]);
        k += 1;
        assert(r@ =~= s@.subrange(start as int, k as int));
    }
    r
}

/// Cuts `samples` to `target_len` samples, or fills it up to that length with
/// `fill`, then adds `frame_length / 2` fill samples before and after.
pub fn pad_or_truncate<T: Copy>(samples: Vec<T>, target_len: usize, frame_length: usize, fill: T) -> (r: Vec<T>)
    requires
        target_len + 2 * (frame_length / 2) <= usize::MAX,
    ensures
        r@ == padded(samples@, target_len as nat, (frame_length / 2) as nat, fill),
{
    let pad_each = frame_length / 2;
    let ghost want = padded(samples@, target_len as nat, pad_each as nat, fill);
    let mut out: Vec<T> = Vec::with_capacity(pad_each + target_len + pad_each);
    let mut k: usize = 0;
    while k < pad_each
        invariant
            k <= pad_each,
            out@ =~= want.take(k as int),
            want == padded(samples@, target_len as nat, pad_each as nat, fill),
            want.len() == target_len + 2 * pad_each,
        decreases pad_each - k,
    {
        out.push(fill);
        k += 1;
        assert(out@ =~= want.take(k as int));
    }
    k = 0;
    while k < target_len
        invariant
            k <= target_len,
            out@ =~= want.take(pad_each + k),
            want == padded(samples@, target_len as nat, pad_each as nat, fill),
            want.len() == target_len + 2 * pad_each,
            pad_each == frame_length / 2,
        decreases target_len - k,
    {
        if k < samples.len() {
            out.push(samples[k]);
        } else {
            out.push(fill);
        }
        k += 1;
        assert(out@ =~= want.take(pad_each + k));
    }
    k = 0;
    while k < pad_each
        invariant
            k <= pad_each,
            out@ =~= want.take(pad_each + target_len + k),
            want == padded(samples@, target_len as nat, pad_each as nat, fill),
            want.len() == target_len + 2 * pad_each,
            pad_each == frame_length / 2,
        decreases pad_each - k,
    {
        out.push(fill);
        k += 1;
        assert(out@ =~= want.take(pad_each + target_len + k));
    }
    assert(out@ =~= want);
    out
}

/// Cuts `samples` into frames of `frame_length` samples whose starts are
/// `hop_length` apart, as many as fit.
pub fn frame_signal<T: Copy>(samples: Vec<T>, frame_length: usize, hop_length: usize) -> (frames: Vec<Vec<T>>)
    requires
        hop_length > 0,
        frame_length <= samples.len(),
        samples.len() - frame_length + hop_length <= usize::MAX,
    ensures
        frames.len() == frame_count(samples.len() as nat, frame_length as nat, hop_length as nat),
        forall|i: int| 0 <= i < frames.len() ==>
            #[trigger] frames[i]@ == frame_of(samples@, frame_length as nat, hop_length as nat, i),
{
    let num_frames: usize = (samples.len() - frame_length + hop_length) / hop_length;
    let mut frames: Vec<Vec<T>> = Vec::with_capacity(num_frames);
    let mut i: usize = 0;
    while i < num_frames
        invariant
            i <= num_frames,
            num_frames == frame_count(samples.len() as nat, frame_length as nat, hop_length as nat),
            hop_length > 0,
            frame_length <= samples.len(),
            frames.len() == i,
            forall|f: int| 0 <= f < i ==>
                #[trigger] frames[f]@ == frame_of(samples@, frame_length as nat, hop_length as nat, f),
        decreases num_frames - i,
    {
        proof {
            lemma_frame_fits(samples.len() as int, frame_length as int, hop_length as int, i as int);
        }
        let start = i * hop_length;
        let end = start + frame_length;
        let frame = copy_range(&samples, start, end);
        frames.push(frame);
        i += 1;
    }
    frames
}

/// The frames that the Whisper front end analyses: `samples` is cut or
/// filled to 30 s, padded by half a frame on each side, and cut into
/// `N_FRAMES` frames of `N_FFT` samples, `HOP_LENGTH` apart.
pub fn whisper_frames<T: Copy>(samples: Vec<T>, fill: T) -> (frames: Vec<Vec<T>>)
    ensures
        frames@.map_values(|f: Vec<T>| f@) == whisper_frames_of(samples@, fill),
{
    let padded_samples = pad_or_truncate(samples, N_SAMPLES, N_FFT, fill);
    assert(frame_count(480400, 400, 160) == 3001);
    let ghost p = padded_samples@;
    let mut frames = frame_signal(padded_samples, N_FFT, HOP_LENGTH);
    frames.truncate(N_FRAMES);
    assert(frames@.map_values(|f: Vec<T>| f@) =~= whisper_frames_of(samples@, fill)) by {
        assert(p == whisper_padded(samples@, fill));
    }
    frames
}

} // verus!
