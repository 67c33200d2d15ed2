//! Grouping of interleaved multi-channel samples into one group per instant.
use vstd::prelude::*;
use vstd::arithmetic::div_mod::{lemma_fundamental_div_mod, lemma_fundamental_div_mod_converse};
use crate::framing::copy_range;

verus! {

/// How many groups of `channels` samples `len` samples make, the last one
/// possibly short.
pub open spec fn group_count(len: nat, channels: nat) -> int {
    (len + channels - 1) / (channels as int)
}

/// Group `i` of `s`: the samples from `i * channels` on, `channels` of them or
/// as many as are left.
pub open spec fn group_of<T>(s: Seq<T>, channels: nat, i: int) -> Seq<T> {
    let start = i * channels;
    let end = if start + channels <= s.len() { start + channels } else { s.len() as int };
    s.subrange(start, end)
}

/// The stream of `channels` channels that all carry the signal `x`.
pub open spec fn interleaved_copies<T>(x: Seq<T>, channels: nat) -> Seq<T> {
    Seq::new(x.len() * channels, |k: int| x[k / (channels as int)])
}

/// Splits interleaved samples into consecutive groups of `channels` samples,
/// one group per instant; a short tail forms a last, shorter group.
pub fn group_channels<T: Copy>(samples: &Vec<T>, channels: usize) -> (groups: Vec<Vec<T>>)
    requires
        channels > 0,
    ensures
        groups.len() == group_count(samples.len() as nat, channels as nat),
        forall|i: int| 0 <= i < groups.len() ==>
            #[trigger] groups[i]@ == group_of(samples@, channels as nat, i),
{
    let len = samples.len();
    let full = len / channels;
    let rem = len % channels;
    proof {
        lemma_fundamental_div_mod(len as int, channels as int);
        assert(channels * full == full * channels) by (nonlinear_arith);
    }
    let mut groups: Vec<Vec<T>> = Vec::new();
    let mut g: usize = 0;
    while g < full
        invariant
            g <= full,
            full * channels + rem == len,
            len == samples.len(),
            channels > 0,
            groups.len() == g,
            forall|f: int| 0 <= f < g ==>
                #[trigger] groups[f]@ == group_of(samples@, channels as nat, f),
        decreases full - g,
    {
        assert((g + 1) * channels <= full * channels) by (nonlinear_arith)
            requires
                g < full,
                channels > 0,
        ;
        assert((g + 1) * channels == g * channels + channels) by (nonlinear_arith);
        let start = g * channels;
        groups.push(copy_range(samples, start, start + channels));
        g += 1;
    }
    if rem > 0 {
        let start = full * channels;
        groups.push(copy_range(samples, start, len));
        proof {
            assert((full + 1) * channels == full * channels + channels) by (nonlinear_arith);
            lemma_fundamental_div_mod_converse(
                len + channels - 1,
                channels as int,
                full + 1,
                rem - 1,
            );
        }
    } else {
        proof {
            lemma_fundamental_div_mod_converse(
                len + channels - 1,
                channels as int,
                full as int,
                channels - 1,
            );
        }
    }
    groups
}

/// A stream whose channels all carry the same signal groups into one group
/// per sample of that signal, each made of that sample once per channel.
pub proof fn lemma_identical_channels_group<T>(x: Seq<T>, channels: nat)
    requires
        channels > 0,
    ensures
        group_count(interleaved_copies(x, channels).len(), channels) == x.len(),
        forall|i: int| 0 <= i < x.len() ==>
            #[trigger] group_of(interleaved_copies(x, channels), channels, i)
                == Seq::new(channels, |_j: int| x[i]),
{
    let s = interleaved_copies(x, channels);
    let c = channels as int;
    lemma_fundamental_div_mod_converse(x.len() * c + c - 1, c, x.len() as int, c - 1);
    assert forall|i: int| 0 <= i < x.len() implies
        #[trigger] group_of(s, channels, i) == Seq::new(channels, |_j: int| x[i]) by {
        assert((i + 1) * c <= x.len() * c) by (nonlinear_arith)
            requires
                i < x.len(),
                c > 0,
        ;
        assert((i + 1) * c == i * c + c) by (nonlinear_arith);
        assert(0 <= i * c) by (nonlinear_arith)
            requires
                0 <= i,
                c > 0,
        ;
        assert(group_of(s, channels, i).len() == channels);
        assert forall|j: int| 0 <= j < c implies #[trigger] group_of(s, channels, i)[j] == x[i] by {
            lemma_fundamental_div_mod_converse(i * c + j, c, i, j);
            assert(group_of(s, channels, i)[j] == s[i * c + j]);
        }
        assert(group_of(s, channels, i) =~= Seq::new(channels, |_j: int| x[i]));
    }
}

} // verus!
