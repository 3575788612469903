use vstd::prelude::*;
use crate::audio::ring::{SampleRing, ring_items, ring_capacity, ring_vacant, ring_wf};

verus! {

/// Default length of the scratch buffer that samples are converted into before a push.
pub const DEFAULT_SCRATCH_LEN: usize = 8192;

/// How many samples one push placed in the ring, and how many it had to drop.
#[derive(Clone, Copy, Debug)]
pub struct PushStats {
    pub pushed: usize,
    pub dropped: usize,
}

/// The smaller of two integers.
pub open spec fn min_int(a: int, b: int) -> int {
    if a <= b { a } else { b }
}

/// The number of whole frames in `len` interleaved samples of `channels` channels.
pub open spec fn frame_count(len: int, channels: int) -> int {
    if channels <= 0 { 0 } else { len / channels }
}

/// What a push of `frames` frames through a scratch of `scratch_len` into a ring with
/// `vacant` free places yields: the frames that fit are pushed, the rest dropped.
pub open spec fn push_outcome(frames: int, scratch_len: int, vacant: int) -> (int, int) {
    if scratch_len == 0 || frames <= 0 {
        (0, 0)
    } else {
        (min_int(frames, vacant), frames - min_int(frames, vacant))
    }
}

/// The ring after such a push: its old samples, then `pushed` new ones, the `k`-th of
/// them a conversion of the sample at `k * stride` in `data`.
pub open spec fn pushed_conversions<S, F: Fn(S) -> u32>(
    before: Seq<u32>,
    after: Seq<u32>,
    data: Seq<S>,
    stride: int,
    pushed: int,
    convert: F,
) -> bool {
    &&& after.len() == before.len() + pushed
    &&& after.subrange(0, before.len() as int) == before
    &&& forall|i: int|
        before.len() <= i < after.len() ==> convert.ensures(
            (data[(i - before.len()) * stride],),
            #[trigger] after[i],
        )
}

proof fn lemma_frame_in_bounds(f: int, stride: int, len: int)
    requires
        stride > 0,
        0 <= f < len / stride,
        len >= 0,
    ensures
        f * stride + stride <= len,
        0 <= f * stride,
{
    assert(f * stride + stride <= len) by (nonlinear_arith)
        requires
            stride > 0,
            0 <= f,
            f + 1 <= len / stride,
            len >= 0,
    {
        assert((f + 1) * stride <= (len / stride) * stride);
        assert((len / stride) * stride <= len);
    }
    assert(0 <= f * stride) by (nonlinear_arith)
        requires
            stride > 0,
            0 <= f,
    ;
}

/// Pushes the sample at `k * stride` of `data` for each frame `k < frames`, converted,
/// in chunks of at most `scratch.len()` samples, until the ring has no more room.
fn push_strided<S: Copy, F: Fn(S) -> u32>(
    data: &[S],
    stride: usize,
    frames: usize,
    scratch: &mut [u32],
    producer: &mut SampleRing,
    convert: &F,
) -> (stats: PushStats)
    requires
        stride > 0,
        0 < frames,
        frames <= (data@.len() as int) / (stride as int),
        old(scratch)@.len() > 0,
        forall|s: S| convert.requires((s,)),
        ring_wf(*old(producer)),
    ensures
        ({
            let vacant = ring_vacant(*old(producer));
            &&& stats.pushed == min_int(frames as int, vacant)
            &&& stats.dropped == frames - stats.pushed
            &&& pushed_conversions(
                ring_items(*old(producer)),
                ring_items(*final(producer)),
                data@,
                stride as int,
                stats.pushed as int,
                *convert,
            )
        }),
        ring_capacity(*final(producer)) == ring_capacity(*old(producer)),
        ring_wf(*final(producer)),
        final(scratch)@.len() == old(scratch)@.len(),
{
    let ghost before = ring_items(*producer);
    let ghost cap = ring_capacity(*producer);
    let ghost vacant0 = cap - before.len();
    let mut offset: usize = 0;
    let mut pushed_total: usize = 0;
    let mut dropped_total: usize = 0;
    let ghost v0 = vacant0;
    let data_len: usize = data.len();
    assert(before.subrange(0, before.len() as int) =~= before);

    while offset < frames
        invariant_except_break
            offset <= frames,
            pushed_total + dropped_total == offset,
        invariant
            stride > 0,
            0 < frames <= (data@.len() as int) / (stride as int),
            scratch@.len() == old(scratch)@.len(),
            scratch@.len() > 0,
            forall|s: S| convert.requires((s,)),
            before == ring_items(*old(producer)),
            cap == ring_capacity(*old(producer)),
            vacant0 == v0,
            data_len == data@.len(),
            v0 + before.len() == cap,
            v0 >= 0,
            ring_capacity(*producer) == cap,
            offset <= frames,
            pushed_total <= v0,
            dropped_total == 0 || pushed_total == v0,
            pushed_total <= offset,
            ring_wf(*producer),
            pushed_conversions(
                before,
                ring_items(*producer),
                data@,
                stride as int,
                pushed_total as int,
                *convert,
            ),
        ensures
            pushed_total + dropped_total == frames,
            pushed_total <= v0,
            dropped_total == 0 || pushed_total == v0,
            pushed_total <= frames,
            v0 >= 0,
            ring_wf(*producer),
            ring_capacity(*producer) == cap,
            scratch@.len() == old(scratch)@.len(),
            pushed_conversions(
                before,
                ring_items(*producer),
                data@,
                stride as int,
                pushed_total as int,
                *convert,
            ),
        decreases frames - offset,
    {
        let remaining: usize = frames - offset;
        let count: usize = if remaining < scratch.len() { remaining } else { scratch.len() };

        let vacant: usize = producer.vacant_len();
        if vacant == 0 {
            dropped_total = dropped_total + (frames - offset);
            break;
        }

        let convert_count: usize = if count < vacant { count } else { vacant };

        let ghost items_before_chunk = ring_items(*producer);
        let mut i: usize = 0;
        while i < convert_count
            invariant
                stride > 0,
                0 < frames <= (data@.len() as int) / (stride as int),
                offset + convert_count <= frames,
                data_len == data@.len(),
                convert_count <= scratch@.len(),
                scratch@.len() == old(scratch)@.len(),
                forall|s: S| convert.requires((s,)),
                0 <= i <= convert_count,
                forall|j: int|
                    0 <= j < i ==> convert.ensures(
                        (data@[(offset + j) * stride],),
                        #[trigger] scratch@[j],
                    ),
            decreases convert_count - i,
        {
            proof {
                lemma_frame_in_bounds(offset + i, stride as int, data@.len() as int);
                assert((offset + i) * stride <= data@.len());
            }
            let index: usize = if stride == 1 { offset + i } else { (offset + i) * stride };
            assert(index == (offset + i) * stride) by (nonlinear_arith)
                requires
                    stride == 1 ==> index == offset + i,
                    stride != 1 ==> index == (offset + i) * stride,
            ;
            let sample: u32 = convert(data[index]);
            let ghost prev = scratch@;
            scratch[i] = sample;
            assert(scratch@ == prev.update(i as int, sample));
            i = i + 1;
        }

        let pushed: usize = producer.push_slice(&scratch[0..convert_count]);
        proof {
            let after = ring_items(*producer);
            let n = pushed_total as int;
            assert(after.subrange(0, before.len() as int) == before) by {
                assert(after.subrange(0, items_before_chunk.len() as int) == items_before_chunk);
                assert(items_before_chunk.subrange(0, before.len() as int) == before);
            }
            assert forall|i: int| before.len() <= i < after.len() implies convert.ensures(
                (data@[(i - before.len()) * (stride as int)],),
                #[trigger] after[i],
            ) by {
                let k = i - before.len();
                if k < n {
                    assert(after[i] == items_before_chunk[i]);
                } else {
                    let j = k - n;
                    assert(after[i] == scratch@[j]);
                    assert(offset + j == k);
                }
            }
        }
        pushed_total = pushed_total + pushed;
        dropped_total = dropped_total + (count - pushed);
        offset = offset + count;
    }

    PushStats { pushed: pushed_total, dropped: dropped_total }
}

/// Pushes the first channel of each whole frame of the interleaved `data` into the ring,
/// each sample converted by `convert`, through `scratch` in chunks.
/// Frames that find no room are dropped and counted.
pub fn push_interleaved_first_channel_to_ringbuf<S: Copy, F: Fn(S) -> u32>(
    data: &[S],
    channels: usize,
    scratch: &mut [u32],
    producer: &mut SampleRing,
    convert: F,
) -> (stats: PushStats)
    requires
        forall|s: S| convert.requires((s,)),
        ring_wf(*old(producer)),
    ensures
        ({
            let frames = frame_count(data@.len() as int, channels as int);
            let vacant = ring_vacant(*old(producer));
            let outcome = push_outcome(frames, old(scratch)@.len() as int, vacant);
            &&& stats.pushed == outcome.0
            &&& stats.dropped == outcome.1
            &&& pushed_conversions(
                ring_items(*old(producer)),
                ring_items(*final(producer)),
                data@,
                channels as int,
                stats.pushed as int,
                convert,
            )
        }),
        ring_capacity(*final(producer)) == ring_capacity(*old(producer)),
        ring_wf(*final(producer)),
        final(scratch)@.len() == old(scratch)@.len(),
        old(scratch)@.len() == 0 || frame_count(data@.len() as int, channels as int) <= 0
            ==> final(scratch)@ == old(scratch)@,
{
    if scratch.len() == 0 {
        assert(ring_items(*producer).subrange(0, ring_items(*producer).len() as int) =~= ring_items(*producer));
        return PushStats { pushed: 0, dropped: 0 };
    }
    if channels == 0 {
        assert(ring_items(*producer).subrange(0, ring_items(*producer).len() as int) =~= ring_items(*producer));
        return PushStats { pushed: 0, dropped: 0 };
    }
    let frames: usize = data.len() / channels;
    if frames == 0 {
        assert(ring_items(*producer).subrange(0, ring_items(*producer).len() as int) =~= ring_items(*producer));
        return PushStats { pushed: 0, dropped: 0 };
    }
    push_strided(data, channels, frames, scratch, producer, &convert)
}

/// Pushes every sample of `samples` into the ring, each converted by `convert`, through
/// `scratch` in chunks. Samples that find no room are dropped and counted.
pub fn convert_and_push_to_ringbuf<T: Copy, F: Fn(T) -> u32>(
    samples: &[T],
    scratch: &mut [u32],
    producer: &mut SampleRing,
    convert: F,
) -> (stats: PushStats)
    requires
        forall|s: T| convert.requires((s,)),
        ring_wf(*old(producer)),
    ensures
        ({
            let vacant = ring_vacant(*old(producer));
            let outcome = push_outcome(samples@.len() as int, old(scratch)@.len() as int, vacant);
            &&& stats.pushed == outcome.0
            &&& stats.dropped == outcome.1
            &&& pushed_conversions(
                ring_items(*old(producer)),
                ring_items(*final(producer)),
                samples@,
                1,
                stats.pushed as int,
                convert,
            )
        }),
        ring_capacity(*final(producer)) == ring_capacity(*old(producer)),
        ring_wf(*final(producer)),
        final(scratch)@.len() == old(scratch)@.len(),
        old(scratch)@.len() == 0 || samples@.len() == 0 ==> final(scratch)@ == old(scratch)@,
{
    if scratch.len() == 0 {
        assert(ring_items(*producer).subrange(0, ring_items(*producer).len() as int) =~= ring_items(*producer));
        return PushStats { pushed: 0, dropped: 0 };
    }
    if samples.len() == 0 {
        assert(ring_items(*producer).subrange(0, ring_items(*producer).len() as int) =~= ring_items(*producer));
        return PushStats { pushed: 0, dropped: 0 };
    }
    push_strided(samples, 1, samples.len(), scratch, producer, &convert)
}

/// Pushes `data` (samples as `f32` bit patterns) straight into the ring: as many as fit,
/// the rest dropped and counted.
pub fn push_f32_to_ringbuf(data: &[u32], producer: &mut SampleRing) -> (stats: PushStats)
    requires
        ring_wf(*old(producer)),
    ensures
        ({
            let vacant = ring_vacant(*old(producer));
            &&& stats.pushed == min_int(data@.len() as int, vacant)
            &&& stats.dropped == data@.len() - stats.pushed
            &&& ring_items(*final(producer)) == ring_items(*old(producer)) + data@.subrange(
                0,
                stats.pushed as int,
            )
        }),
        ring_capacity(*final(producer)) == ring_capacity(*old(producer)),
        ring_wf(*final(producer)),
{
    if data.len() == 0 {
        assert(ring_items(*producer) + data@.subrange(0, 0) =~= ring_items(*producer));
        return PushStats { pushed: 0, dropped: 0 };
    }
    let pushed: usize = producer.push_slice(data);
    PushStats { pushed, dropped: data.len() - pushed }
}

}
