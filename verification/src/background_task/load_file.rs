use vstd::prelude::*;

use vstd::arithmetic::div_mod::{lemma_fundamental_div_mod, lemma_fundamental_div_mod_converse, lemma_mod_bound};

verus! {

/// The samples among the first `end` of an interleaved stream of
/// `channel_count` channels that belong to channel `channel`, i.e. those at
/// the positions `i` with `i % channel_count == channel`, in order.
pub open spec fn channel_part<T>(samples: Seq<T>, channel_count: int, channel: int, end: int) -> Seq<
    T,
>
    decreases end,
{
    if end <= 0 {
        Seq::empty()
    } else {
        let before = channel_part(samples, channel_count, channel, end - 1);
        if (end - 1) % channel_count == channel {
            before.push(samples[end - 1])
        } else {
            before
        }
    }
}

/// Channel `channel` of the first `end` samples of an interleaved stream of
/// `channel_count` channels holds `(end + channel_count - 1 - channel) /
/// channel_count` of them.
pub proof fn lemma_channel_part_len<T>(samples: Seq<T>, channel_count: int, channel: int, end: int)
    requires
        0 <= channel < channel_count,
        0 <= end,
    ensures
        channel_part(samples, channel_count, channel, end).len() == (end + channel_count - 1
            - channel) / channel_count,
    decreases end,
{
    let n = channel_count;
    let c = channel;
    if end == 0 {
        lemma_fundamental_div_mod_converse(n - 1 - c, n, 0, n - 1 - c);
    } else {
        lemma_channel_part_len(samples, n, c, end - 1);
        let e = end - 1;
        lemma_fundamental_div_mod(e, n);
        lemma_mod_bound(e, n);
        let q = e / n;
        let r = e % n;
        assert((q + 1) * n == q * n + n) by (nonlinear_arith);
        assert(e == q * n + r) by (nonlinear_arith)
            requires
                e == n * q + r,
        ;
        if r == c {
            lemma_fundamental_div_mod_converse(e + n - c, n, q + 1, 0);
            lemma_fundamental_div_mod_converse(e + n - 1 - c, n, q, n - 1);
        } else if r > c {
            lemma_fundamental_div_mod_converse(e + n - c, n, q + 1, r - c);
            lemma_fundamental_div_mod_converse(e + n - 1 - c, n, q + 1, r - c - 1);
        } else {
            lemma_fundamental_div_mod_converse(e + n - c, n, q, r + n - c);
            lemma_fundamental_div_mod_converse(e + n - 1 - c, n, q, r + n - c - 1);
        }
    }
}

/// Sample `j` of an interleaved stream of `channel_count` channels is
/// sample `j / channel_count` of channel `j % channel_count`, counted
/// within the first `end` samples, for every `end` past `j`.
pub proof fn lemma_channel_part_index<T>(samples: Seq<T>, channel_count: int, end: int, j: int)
    requires
        channel_count > 0,
        0 <= j < end <= samples.len(),
    ensures
        j / channel_count < channel_part(samples, channel_count, j % channel_count, end).len(),
        channel_part(samples, channel_count, j % channel_count, end)[j / channel_count]
            == samples[j],
    decreases end,
{
    let n = channel_count;
    lemma_mod_bound(j, n);
    let c = j % n;
    lemma_channel_part_len(samples, n, c, end - 1);
    if j < end - 1 {
        lemma_channel_part_index(samples, n, end - 1, j);
    } else {
        lemma_fundamental_div_mod(j, n);
        let q = j / n;
        assert(j == q * n + c) by (nonlinear_arith)
            requires
                j == n * q + c,
        ;
        lemma_fundamental_div_mod_converse(j + n - 1 - c, n, q, n - 1);
    }
}

/// A block of whole frames, `frames` samples of each of `channel_count`
/// channels, gives every channel `frames` samples.
pub proof fn lemma_whole_frames_split_evenly<T>(samples: Seq<T>, channel_count: int, frames: int)
    requires
        channel_count > 0,
        frames >= 0,
        samples.len() == frames * channel_count,
    ensures
        forall|c: int|
            0 <= c < channel_count ==> #[trigger] channel_part(
                samples,
                channel_count,
                c,
                samples.len() as int,
            ).len() == frames,
{
    assert forall|c: int| 0 <= c < channel_count implies #[trigger] channel_part(
        samples,
        channel_count,
        c,
        samples.len() as int,
    ).len() == frames by {
        lemma_channel_part_len(samples, channel_count, c, samples.len() as int);
        lemma_fundamental_div_mod_converse(
            frames * channel_count + channel_count - 1 - c,
            channel_count,
            frames,
            channel_count - 1 - c,
        );
    }
}

/// Splits a block of interleaved samples (`ch0, ch1, .., ch0, ch1, ..`)
/// over the channel buffers: sample `i` of the block is appended to buffer
/// `i % channels.len()`.
pub fn deinterleave_into<T: Copy>(channels: &mut Vec<Vec<T>>, samples: &[T])
    requires
        old(channels)@.len() > 0 || samples@.len() == 0,
    ensures
        final(channels)@.len() == old(channels)@.len(),
        forall|c: int|
            0 <= c < old(channels)@.len() ==> #[trigger] final(channels)@[c]@ == old(
                channels,
            )@[c]@ + channel_part(samples@, old(channels)@.len() as int, c, samples@.len() as int),
{
    let count = channels.len();
    let mut i: usize = 0;
    while i < samples.len()
        invariant
            count == old(channels)@.len(),
            count > 0 || samples@.len() == 0,
            i <= samples@.len(),
            channels@.len() == count,
            forall|c: int|
                0 <= c < count ==> #[trigger] channels@[c]@ == old(channels)@[c]@ + channel_part(
                    samples@,
                    count as int,
                    c,
                    i as int,
                ),
        decreases samples@.len() - i,
    {
        let c = i % count;
        let ghost before = channels@;
        channels[c].push(samples[i]);
        assert forall|d: int| 0 <= d < count implies #[trigger] channels@[d]@ == old(channels)@[d]@
            + channel_part(samples@, count as int, d, i + 1) by {
            if d == c {
                assert(channels@[d]@ =~= before[d]@.push(samples@[i as int]));
            }
        }
        i = i + 1;
    }
}

} // verus!
