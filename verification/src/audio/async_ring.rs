use vstd::prelude::*;
use crate::audio::ring::{SampleRing, ring_items, ring_capacity, ring_wf};
use crate::audio::rt_ring::min_int;

verus! {

/// Minimum time between two reports of dropped samples, in nanoseconds (one second).
pub const DROPPED_LOG_INTERVAL_NS: u64 = 1_000_000_000;

/// What one poll of the reader yields: a sample, the end of the stream, or nothing yet.
#[derive(Clone, Copy, Debug, PartialEq, Eq, Structural)]
pub enum SamplePoll {
    Ready(u32),
    Finished,
    Pending,
}

/// The outcome of one poll, and whether it had to take a new chunk from the ring.
#[derive(Clone, Copy, Debug)]
pub struct PollNextSample {
    pub poll: SamplePoll,
    pub did_pop_chunk: bool,
}

/// What a poll step is told: a poll begins, the producer's alive flag was read, or the
/// waker was armed.
#[derive(Clone, Copy, Debug, PartialEq, Eq, Structural)]
pub enum PollEvent {
    /// A new poll begins.
    Poll,
    /// The producer's alive flag read `alive` (`true` where the reader has no such flag);
    /// `armed` is what the step that asked for the reading said.
    Alive { alive: bool, armed: bool },
    /// The wake-pending flag was set and the polling task's waker registered.
    WakerArmed,
}

/// What the caller of a poll step does next.
#[derive(Clone, Copy, Debug)]
pub enum PollAction {
    /// The poll is over: store `wake_pending` in the wake-pending flag where it is given,
    /// and return `result`.
    Done { result: PollNextSample, wake_pending: Option<bool> },
    /// Read the producer's alive flag and pass it back, with `armed`.
    ReadAlive { armed: bool },
    /// Set the wake-pending flag, register the polling task's waker, then pass back
    /// `WakerArmed`, so that the ring is checked again only once a push would wake the task.
    ArmWaker,
}

/// What the reader needs to report samples that its producer dropped: the drop counter
/// it shares with the producer, a clock, and a log.
pub trait ReaderHooks {
    /// Takes the number of samples the producer dropped since the last call, resetting it.
    fn take_dropped(&self) -> usize;

    /// A monotonic clock, in nanoseconds.
    fn now_ns(&self) -> u64;

    /// Reports `dropped` samples under `message`.
    fn log_dropped(&self, message: &str, dropped: usize);
}

/// Reads samples one at a time from a ring, taking them out in chunks of the size of
/// its read buffer.
pub struct RingbufAsyncReader {
    tracks_dropped: bool,
    dropped_log_message: String,
    dropped_log_pending: usize,
    dropped_log_last: Option<u64>,
    read_buffer: Vec<u32>,
    read_len: usize,
    read_idx: usize,
}

/// The drop count still to report, when the last report was made, and the count reported
/// now, if any.
#[derive(Clone, Copy, Debug, PartialEq, Eq, Structural)]
pub struct DroppedReport {
    pub pending: usize,
    pub last: Option<u64>,
    pub report: Option<usize>,
}

/// The report step: `dropped` samples join the `pending` count (saturating); when a
/// report is due at `now` the total is reported and the count starts afresh; nothing
/// changes when nothing was dropped.
pub open spec fn spec_dropped_report(pending: usize, last: Option<u64>, dropped: usize, now: u64) -> DroppedReport {
    if dropped == 0 {
        DroppedReport { pending, last, report: None }
    } else {
        let total = if pending + dropped > usize::MAX { usize::MAX } else { (pending + dropped) as usize };
        if log_due(last, now) {
            DroppedReport { pending: 0, last: Some(now), report: Some(total) }
        } else {
            DroppedReport { pending: total, last, report: None }
        }
    }
}

/// Adds `dropped` samples to the `pending` count; reports the total when a report is due at
/// `now` (none made yet, or the last at least a second ago), and starts counting afresh.
/// Nothing changes when nothing was dropped.
pub fn dropped_report(pending: usize, last: Option<u64>, dropped: usize, now: u64) -> (r: DroppedReport)
    ensures
        r == spec_dropped_report(pending, last, dropped, now),
        dropped == 0 ==> r == (DroppedReport { pending, last, report: None }),
        dropped > 0 ==> ({
            let total = if pending + dropped > usize::MAX { usize::MAX as int } else { pending + dropped };
            if log_due(last, now) {
                r.pending == 0 && r.last == Some(now) && r.report == Some(total as usize)
            } else {
                r.pending == total && r.last == last && r.report is None
            }
        }),
{
    if dropped == 0 {
        return DroppedReport { pending, last, report: None };
    }
    let total: usize = pending.saturating_add(dropped);
    let due = match last {
        None => true,
        Some(l) => now >= l && now - l >= DROPPED_LOG_INTERVAL_NS,
    };
    if due {
        DroppedReport { pending: 0, last: Some(now), report: Some(total) }
    } else {
        DroppedReport { pending: total, last, report: None }
    }
}

/// Whether a report of dropped samples is due at `now`, given when the last one was made.
pub open spec fn log_due(last: Option<u64>, now: u64) -> bool {
    match last {
        None => true,
        Some(l) => now >= l && now - l >= DROPPED_LOG_INTERVAL_NS,
    }
}

/// One poll on the queue `q`: its first sample, and what is left; nothing when it is empty.
pub open spec fn poll_step(q: Seq<u32>) -> (Option<u32>, Seq<u32>) {
    if q.len() > 0 {
        (Some(q[0]), q.drop_first())
    } else {
        (None, q)
    }
}

/// The samples that `n` polls hand out of the queue `q`.
pub open spec fn drained(q: Seq<u32>, n: nat) -> Seq<u32>
    decreases n,
{
    if n == 0 {
        Seq::empty()
    } else {
        match poll_step(q).0 {
            Some(x) => seq![x] + drained(poll_step(q).1, (n - 1) as nat),
            None => Seq::empty(),
        }
    }
}

/// The reader is first in, first out: polling as many times as samples are queued hands
/// out exactly the queued samples, in order.
pub proof fn law_reader_is_fifo(q: Seq<u32>)
    ensures
        drained(q, q.len()) == q,
    decreases q.len(),
{
    if q.len() > 0 {
        law_reader_is_fifo(q.drop_first());
        assert(seq![q[0]] + q.drop_first() =~= q);
    } else {
        assert(q =~= Seq::<u32>::empty());
    }
}

/// Samples pushed into the ring (as `push_f32_to_ringbuf` pushes them: the front of
/// `data` that fits in the `vacant` places) are handed out after every sample the reader
/// held and the ring held before, in the order they were pushed.
pub proof fn law_pushed_samples_come_last(held: Seq<u32>, ring_before: Seq<u32>, data: Seq<u32>, vacant: int)
    requires
        vacant >= 0,
    ensures
        ({
            let pushed = data.subrange(0, min_int(data.len() as int, vacant));
            let q = held + (ring_before + pushed);
            drained(q, q.len()) == (held + ring_before) + pushed
        }),
{
    let pushed = data.subrange(0, min_int(data.len() as int, vacant));
    let q = held + (ring_before + pushed);
    assert(q =~= (held + ring_before) + pushed);
    law_reader_is_fifo(q);
}

impl RingbufAsyncReader {
    pub closed spec fn wf(&self) -> bool {
        &&& self.read_idx <= self.read_len
        &&& self.read_len <= self.read_buffer@.len()
    }

    /// The samples already taken from the ring and not yet handed out, in order.
    pub closed spec fn buffered(&self) -> Seq<u32> {
        self.read_buffer@.subrange(self.read_idx as int, self.read_len as int)
    }

    /// Every sample the reader will still hand out from `ring`, in order: what it holds,
    /// then what the ring holds.
    pub open spec fn queue(&self, ring: SampleRing) -> Seq<u32> {
        self.buffered() + ring_items(ring)
    }

    pub closed spec fn chunk_len(&self) -> nat {
        self.read_buffer@.len()
    }

    pub closed spec fn tracks_dropped(&self) -> bool {
        self.tracks_dropped
    }

    /// The dropped samples not yet reported, and when the last report was made (if any).
    pub closed spec fn dropped_state(&self) -> (usize, Option<u64>) {
        (self.dropped_log_pending, self.dropped_log_last)
    }

    pub closed spec fn message(&self) -> Seq<char> {
        self.dropped_log_message@
    }

    /// A reader that takes at most `read_buffer.len()` samples at a time out of a ring.
    pub fn new(read_buffer: Vec<u32>) -> (r: Self)
        ensures
            r.wf(),
            r.buffered() == Seq::<u32>::empty(),
            r.chunk_len() == read_buffer@.len(),
            !r.tracks_dropped(),
            r.dropped_state() == (0usize, None::<u64>),
            r.message() == "samples_dropped"@,
    {
        RingbufAsyncReader {
            tracks_dropped: false,
            dropped_log_message: String::from_str("samples_dropped"),
            dropped_log_pending: 0,
            dropped_log_last: None,
            read_buffer,
            read_len: 0,
            read_idx: 0,
        }
    }

    /// The same reader, now reporting samples that its producer drops, under `message`.
    pub fn with_dropped_samples(self, message: &str) -> (r: Self)
        requires
            self.wf(),
        ensures
            r.wf(),
            r.buffered() == self.buffered(),
            r.chunk_len() == self.chunk_len(),
            r.tracks_dropped(),
            r.dropped_state() == self.dropped_state(),
            r.message() == message@,
    {
        let mut r = self;
        r.tracks_dropped = true;
        r.dropped_log_message = String::from_str(message);
        r
    }

    /// Whether samples taken from the ring are still waiting to be handed out.
    pub fn has_buffered_samples(&self) -> (b: bool)
        requires
            self.wf(),
        ensures
            b == (self.buffered().len() > 0),
    {
        self.read_idx < self.read_len
    }

    /// Takes the producer's drop count and adds it to the pending report; makes the
    /// report when at least a second has passed since the last one (or none was made).
    /// Returns the number reported, if a report was made.
    fn maybe_log_dropped<H: ReaderHooks>(&mut self, hooks: &H) -> (reported: Option<usize>)
        requires
            old(self).wf(),
        ensures
            final(self).wf(),
            final(self).buffered() == old(self).buffered(),
            final(self).chunk_len() == old(self).chunk_len(),
            final(self).tracks_dropped() == old(self).tracks_dropped(),
            final(self).message() == old(self).message(),
            !old(self).tracks_dropped() ==> reported is None
                && final(self).dropped_log_pending == old(self).dropped_log_pending
                && final(self).dropped_log_last == old(self).dropped_log_last,
            old(self).tracks_dropped() ==> exists|dropped: usize, now: u64|
                #[trigger] spec_dropped_report(
                    old(self).dropped_log_pending,
                    old(self).dropped_log_last,
                    dropped,
                    now,
                ) == (DroppedReport {
                    pending: final(self).dropped_log_pending,
                    last: final(self).dropped_log_last,
                    report: reported,
                }),
            reported matches Some(n) ==> n >= old(self).dropped_log_pending && n >= 1
                && final(self).dropped_log_pending == 0,
    {
        if !self.tracks_dropped {
            return None;
        }
        let dropped: usize = hooks.take_dropped();
        let now: u64 = if dropped == 0 { 0 } else { hooks.now_ns() };
        let step = dropped_report(self.dropped_log_pending, self.dropped_log_last, dropped, now);
        assert(spec_dropped_report(old(self).dropped_log_pending, old(self).dropped_log_last, dropped, now) == step);
        self.dropped_log_pending = step.pending;
        self.dropped_log_last = step.last;
        match step.report {
            Some(n) => {
                hooks.log_dropped(self.dropped_log_message.as_str(), n);
                Some(n)
            },
            None => None,
        }
    }

    /// Takes the next chunk of samples out of the ring into the read buffer.
    /// Returns how many it took.
    fn refill(&mut self, ring: &mut SampleRing) -> (popped: usize)
        requires
            old(self).wf(),
            ring_wf(*old(ring)),
            old(self).buffered().len() == 0,
        ensures
            final(self).wf(),
            ring_wf(*final(ring)),
            ring_capacity(*final(ring)) == ring_capacity(*old(ring)),
            final(self).queue(*final(ring)) == old(self).queue(*old(ring)),
            popped == final(self).buffered().len(),
            final(self).read_idx == 0,
            final(self).read_len == popped,
            popped == if old(self).chunk_len() <= ring_items(*old(ring)).len() {
                old(self).chunk_len() as int
            } else {
                ring_items(*old(ring)).len() as int
            },
            final(self).chunk_len() == old(self).chunk_len(),
            final(self).tracks_dropped() == old(self).tracks_dropped(),
            final(self).dropped_state() == old(self).dropped_state(),
            final(self).message() == old(self).message(),
    {
        let ghost items = ring_items(*ring);
        let popped: usize = ring.pop_slice(self.read_buffer.as_mut_slice());
        self.read_len = popped;
        self.read_idx = 0;
        proof {
            assert(self.buffered() =~= items.subrange(0, popped as int));
            assert(old(self).buffered() =~= Seq::<u32>::empty());
            assert(self.queue(*ring) =~= old(self).queue(*old(ring)));
        }
        popped
    }

    /// Hands out the next sample held in the read buffer, or else takes a new chunk out of
    /// the ring and hands out its first sample. Returns `None` when both are empty.
    fn take_next(&mut self, ring: &mut SampleRing) -> (r: Option<(u32, bool)>)
        requires
            old(self).wf(),
            ring_wf(*old(ring)),
        ensures
            final(self).wf(),
            ring_wf(*final(ring)),
            ring_capacity(*final(ring)) == ring_capacity(*old(ring)),
            final(self).chunk_len() == old(self).chunk_len(),
            final(self).tracks_dropped() == old(self).tracks_dropped(),
            final(self).message() == old(self).message(),
            final(self).dropped_log_pending == old(self).dropped_log_pending,
            final(self).dropped_log_last == old(self).dropped_log_last,
            ({
                let t = take_step(old(self).buffered(), ring_items(*old(ring)), old(self).chunk_len());
                &&& r == match t.0 {
                    Some(x) => Some((x, t.3)),
                    None => None::<(u32, bool)>,
                }
                &&& final(self).buffered() == t.1
                &&& ring_items(*final(ring)) == t.2
            }),
    {
        if self.read_idx < self.read_len {
            let sample: u32 = self.read_buffer[self.read_idx];
            self.read_idx = self.read_idx + 1;
            proof {
                assert(self.buffered() =~= old(self).buffered().drop_first());
            }
            return Some((sample, false));
        }
        let ghost items = ring_items(*ring);
        let popped: usize = self.refill(ring);
        let ghost mid_buffered = self.buffered();
        if popped > 0 {
            let sample: u32 = self.read_buffer[0];
            self.read_idx = 1;
            proof {
                assert(mid_buffered =~= items.subrange(0, popped as int));
                assert(self.buffered() =~= items.subrange(1, popped as int));
            }
            return Some((sample, true));
        }
        None
    }

    /// One step of a poll, driven by the caller as the returned action says:
    /// - a poll hands out the next sample from the read buffer, or else from a new chunk
    ///   taken out of the ring (reporting dropped samples first), clearing the
    ///   wake-pending flag; with nothing to hand out it asks for the producer's alive flag;
    /// - a dead producer ends the stream;
    /// - a live one has the waker armed, then the ring is checked again; still nothing,
    ///   and the alive flag is read once more: a dead producer ends the stream, a live
    ///   one leaves the poll pending with the wake-pending flag set.
    pub fn poll_next_sample<H: ReaderHooks>(
        &mut self,
        ring: &mut SampleRing,
        hooks: &H,
        event: PollEvent,
    ) -> (r: PollAction)
        requires
            old(self).wf(),
            ring_wf(*old(ring)),
        ensures
            final(self).wf(),
            ring_wf(*final(ring)),
            ring_capacity(*final(ring)) == ring_capacity(*old(ring)),
            final(self).chunk_len() == old(self).chunk_len(),
            final(self).tracks_dropped() == old(self).tracks_dropped(),
            final(self).message() == old(self).message(),
            r == poll_action(event, old(self).buffered(), ring_items(*old(ring)), old(self).chunk_len()),
            final(self).buffered() == poll_state(
                event,
                old(self).buffered(),
                ring_items(*old(ring)),
                old(self).chunk_len(),
            ).0,
            ring_items(*final(ring)) == poll_state(
                event,
                old(self).buffered(),
                ring_items(*old(ring)),
                old(self).chunk_len(),
            ).1,
            event != PollEvent::Poll || old(self).buffered().len() > 0 || !old(self).tracks_dropped()
                ==> final(self).dropped_state() == old(self).dropped_state(),
            event == PollEvent::Poll && old(self).buffered().len() == 0 && old(self).tracks_dropped()
                ==> exists|dropped: usize, now: u64|
                #![trigger spec_dropped_report(old(self).dropped_state().0, old(self).dropped_state().1, dropped, now)]
                spec_dropped_report(old(self).dropped_state().0, old(self).dropped_state().1, dropped, now).pending
                    == final(self).dropped_state().0
                    && spec_dropped_report(old(self).dropped_state().0, old(self).dropped_state().1, dropped, now).last
                    == final(self).dropped_state().1,
    {
        match event {
            PollEvent::Alive { alive, armed } => {
                empty_poll_outcome(alive, armed)
            },
            PollEvent::Poll => {
                let ghost before = self.dropped_state();
                if self.read_idx >= self.read_len {
                    let reported = self.maybe_log_dropped(hooks);
                    proof {
                        if old(self).tracks_dropped() {
                            let (d, n): (usize, u64) = choose|d: usize, n: u64|
                                #[trigger] spec_dropped_report(before.0, before.1, d, n) == (DroppedReport {
                                    pending: self.dropped_state().0,
                                    last: self.dropped_state().1,
                                    report: reported,
                                });
                            assert(spec_dropped_report(before.0, before.1, d, n).pending == self.dropped_state().0);
                            assert(spec_dropped_report(before.0, before.1, d, n).last == self.dropped_state().1);
                        }
                    }
                }
                match self.take_next(ring) {
                    Some((sample, did_pop_chunk)) => PollAction::Done {
                        result: PollNextSample { poll: SamplePoll::Ready(sample), did_pop_chunk },
                        wake_pending: if did_pop_chunk { Some(false) } else { None },
                    },
                    None => PollAction::ReadAlive { armed: false },
                }
            },
            PollEvent::WakerArmed => {
                match self.take_next(ring) {
                    Some((sample, did_pop_chunk)) => PollAction::Done {
                        result: PollNextSample { poll: SamplePoll::Ready(sample), did_pop_chunk },
                        wake_pending: if did_pop_chunk { Some(false) } else { None },
                    },
                    None => PollAction::ReadAlive { armed: true },
                }
            },
        }
    }
}

/// What one take from the reader gives, with `buffered` in its read buffer, `ring` in the
/// ring and chunks of `chunk_len`: the sample handed out, the read buffer and ring after,
/// and whether a chunk was taken from the ring.
pub open spec fn take_step(buffered: Seq<u32>, ring: Seq<u32>, chunk_len: nat) -> (
    Option<u32>,
    Seq<u32>,
    Seq<u32>,
    bool,
) {
    if buffered.len() > 0 {
        (Some(buffered[0]), buffered.drop_first(), ring, false)
    } else {
        let k = min_int(chunk_len as int, ring.len() as int);
        if k > 0 {
            (Some(ring[0]), ring.subrange(1, k), ring.subrange(k, ring.len() as int), true)
        } else {
            (None, buffered, ring, false)
        }
    }
}

/// What the caller is asked to do after a poll step on `event`.
pub open spec fn poll_action(event: PollEvent, buffered: Seq<u32>, ring: Seq<u32>, chunk_len: nat) -> PollAction {
    match event {
        PollEvent::Alive { alive, armed } => spec_empty_poll_outcome(alive, armed),
        _ => {
            let t = take_step(buffered, ring, chunk_len);
            match t.0 {
                Some(x) => PollAction::Done {
                    result: PollNextSample { poll: SamplePoll::Ready(x), did_pop_chunk: t.3 },
                    wake_pending: if t.3 { Some(false) } else { None },
                },
                None => PollAction::ReadAlive { armed: event == PollEvent::WakerArmed },
            }
        },
    }
}

/// The read buffer and the ring after a poll step on `event`.
pub open spec fn poll_state(event: PollEvent, buffered: Seq<u32>, ring: Seq<u32>, chunk_len: nat) -> (
    Seq<u32>,
    Seq<u32>,
) {
    match event {
        PollEvent::Alive { .. } => (buffered, ring),
        _ => {
            let t = take_step(buffered, ring, chunk_len);
            (t.1, t.2)
        },
    }
}

/// What follows a reading of the producer's alive flag when the reader has nothing to
/// hand out: a dead producer ends the stream; a live one has the waker armed first, and
/// once it is armed leaves the poll pending with the wake-pending flag set.
pub open spec fn spec_empty_poll_outcome(alive: bool, armed: bool) -> PollAction {
    if !alive {
        PollAction::Done {
            result: PollNextSample { poll: SamplePoll::Finished, did_pop_chunk: false },
            wake_pending: None,
        }
    } else if !armed {
        PollAction::ArmWaker
    } else {
        PollAction::Done {
            result: PollNextSample { poll: SamplePoll::Pending, did_pop_chunk: false },
            wake_pending: Some(true),
        }
    }
}

/// Decides a poll that found nothing to hand out, from a reading of the producer's alive
/// flag and whether the waker is armed yet.
pub fn empty_poll_outcome(alive: bool, armed: bool) -> (r: PollAction)
    ensures
        r == spec_empty_poll_outcome(alive, armed),
{
    if !alive {
        PollAction::Done {
            result: PollNextSample { poll: SamplePoll::Finished, did_pop_chunk: false },
            wake_pending: None,
        }
    } else if !armed {
        PollAction::ArmWaker
    } else {
        PollAction::Done {
            result: PollNextSample { poll: SamplePoll::Pending, did_pop_chunk: false },
            wake_pending: Some(true),
        }
    }
}

/// With chunks of at least one sample (or samples already held), one take from the reader
/// is one step on its queue, the read buffer then the ring: the same sample comes out, and
/// what is left, read buffer then ring, is the rest of the queue.
pub proof fn lemma_take_step_follows_queue(buffered: Seq<u32>, ring: Seq<u32>, chunk_len: nat)
    requires
        chunk_len > 0 || buffered.len() > 0,
    ensures
        take_step(buffered, ring, chunk_len).0 == poll_step(buffered + ring).0,
        take_step(buffered, ring, chunk_len).1 + take_step(buffered, ring, chunk_len).2
            == poll_step(buffered + ring).1,
{
    let q = buffered + ring;
    if buffered.len() > 0 {
        assert(buffered.drop_first() + ring =~= q.drop_first());
    } else {
        assert(q =~= ring);
        let k = min_int(chunk_len as int, ring.len() as int);
        if k > 0 {
            assert(ring.subrange(1, k) + ring.subrange(k, ring.len() as int) =~= ring.drop_first());
        }
    }
}

/// One thing that happens to a reader's queue: samples pushed into its ring (those the
/// ring took), or a poll that takes one sample out.
pub enum QueueOp {
    Push(Seq<u32>),
    Take,
}

/// The samples handed out by `ops` run on the queue `q`, and what is left queued.
pub open spec fn replay(q: Seq<u32>, ops: Seq<QueueOp>) -> (Seq<u32>, Seq<u32>)
    decreases ops.len(),
{
    if ops.len() == 0 {
        (Seq::empty(), q)
    } else {
        let (out, left) = replay(q, ops.drop_last());
        match ops.last() {
            QueueOp::Push(s) => (out, left + s),
            QueueOp::Take => match poll_step(left).0 {
                Some(x) => (out.push(x), poll_step(left).1),
                None => (out, left),
            },
        }
    }
}

/// Every sample that `ops` push, in order.
pub open spec fn pushed_by(ops: Seq<QueueOp>) -> Seq<u32>
    decreases ops.len(),
{
    if ops.len() == 0 {
        Seq::empty()
    } else {
        match ops.last() {
            QueueOp::Push(s) => pushed_by(ops.drop_last()) + s,
            QueueOp::Take => pushed_by(ops.drop_last()),
        }
    }
}

/// Over any run of pushes and polls, what the reader hands out, followed by what it still
/// holds, is what was queued at the start followed by everything pushed, in order: no
/// sample is lost, repeated, reordered or invented. So a poll that finds nothing comes
/// only once every sample queued or pushed before it has been handed out.
pub proof fn law_samples_come_out_as_pushed(q: Seq<u32>, ops: Seq<QueueOp>)
    ensures
        replay(q, ops).0 + replay(q, ops).1 == q + pushed_by(ops),
        replay(q, ops).1.len() == 0 ==> replay(q, ops).0 == q + pushed_by(ops),
    decreases ops.len(),
{
    if ops.len() == 0 {
        assert(q + Seq::<u32>::empty() =~= q);
        assert(Seq::<u32>::empty() + q =~= q);
    } else {
        law_samples_come_out_as_pushed(q, ops.drop_last());
        let (out, left) = replay(q, ops.drop_last());
        match ops.last() {
            QueueOp::Push(s) => {
                assert(out + (left + s) =~= (out + left) + s);
                assert((q + pushed_by(ops.drop_last())) + s =~= q + (pushed_by(ops.drop_last()) + s));
            },
            QueueOp::Take => {
                if left.len() > 0 {
                    assert(out.push(left[0]) + left.drop_first() =~= out + left);
                }
            },
        }
    }
    if replay(q, ops).1.len() == 0 {
        assert(replay(q, ops).0 + replay(q, ops).1 =~= replay(q, ops).0);
    }
}

}

verus! {

/// The report step run over successive polls, the `i`th taking `steps[i].0` dropped samples
/// at time `steps[i].1`: the count still pending and the last report time after them, and
/// the total of the counts reported.
pub open spec fn report_run(pending: usize, last: Option<u64>, steps: Seq<(usize, u64)>) -> (
    usize,
    Option<u64>,
    int,
)
    decreases steps.len(),
{
    if steps.len() == 0 {
        (pending, last, 0)
    } else {
        let prev = report_run(pending, last, steps.drop_last());
        let r = spec_dropped_report(prev.0, prev.1, steps.last().0, steps.last().1);
        (r.pending, r.last, prev.2 + match r.report {
            Some(n) => n as int,
            None => 0,
        })
    }
}

/// The samples dropped over `steps`, in all.
pub open spec fn dropped_sum(steps: Seq<(usize, u64)>) -> int
    decreases steps.len(),
{
    if steps.len() == 0 {
        0
    } else {
        dropped_sum(steps.drop_last()) + steps.last().0
    }
}

/// Over successive polls, every dropped sample is reported exactly once or is still
/// pending: the counts reported plus the count pending make the pending count at the start
/// plus all samples dropped since (as long as that total fits in a `usize`, past which the
/// count saturates).
pub proof fn law_dropped_samples_reported_once(pending: usize, last: Option<u64>, steps: Seq<(usize, u64)>)
    requires
        pending + dropped_sum(steps) <= usize::MAX,
    ensures
        report_run(pending, last, steps).2 + report_run(pending, last, steps).0 == pending + dropped_sum(
            steps,
        ),
        report_run(pending, last, steps).2 >= 0,
    decreases steps.len(),
{
    if steps.len() > 0 {
        assert(dropped_sum(steps) == dropped_sum(steps.drop_last()) + steps.last().0);
        law_dropped_samples_reported_once(pending, last, steps.drop_last());
        let prev = report_run(pending, last, steps.drop_last());
        let (d, now) = steps.last();
        assert(prev.0 + d <= usize::MAX);
        let r = spec_dropped_report(prev.0, prev.1, d, now);
        assert(report_run(pending, last, steps) == (r.pending, r.last, prev.2 + match r.report {
            Some(n) => n as int,
            None => 0,
        }));
        if d > 0 {
            assert(r.pending + match r.report {
                Some(n) => n as int,
                None => 0,
            } == prev.0 + d);
        }
    }
}

/// What happens to a reader and its ring: samples pushed into the ring (those it took),
/// or one poll step on `event`.
pub enum ReaderOp {
    Push(Seq<u32>),
    Step(PollEvent),
}

/// The samples handed out by `ops` (the `Ready` results of the poll steps, in order),
/// and the read buffer and ring after them, from `buffered` and `ring` with chunks of
/// `chunk_len`, each step as `poll_next_sample` states it.
pub open spec fn run_reader(buffered: Seq<u32>, ring: Seq<u32>, chunk_len: nat, ops: Seq<ReaderOp>) -> (
    Seq<u32>,
    Seq<u32>,
    Seq<u32>,
)
    decreases ops.len(),
{
    if ops.len() == 0 {
        (Seq::empty(), buffered, ring)
    } else {
        let prev = run_reader(buffered, ring, chunk_len, ops.drop_last());
        match ops.last() {
            ReaderOp::Push(s) => (prev.0, prev.1, prev.2 + s),
            ReaderOp::Step(event) => {
                let next = poll_state(event, prev.1, prev.2, chunk_len);
                match poll_action(event, prev.1, prev.2, chunk_len) {
                    PollAction::Done { result, .. } => match result.poll {
                        SamplePoll::Ready(x) => (prev.0.push(x), next.0, next.1),
                        _ => (prev.0, next.0, next.1),
                    },
                    _ => (prev.0, next.0, next.1),
                }
            },
        }
    }
}

/// Every sample that `ops` push, in order.
pub open spec fn pushed_into(ops: Seq<ReaderOp>) -> Seq<u32>
    decreases ops.len(),
{
    if ops.len() == 0 {
        Seq::empty()
    } else {
        match ops.last() {
            ReaderOp::Push(s) => pushed_into(ops.drop_last()) + s,
            ReaderOp::Step(_) => pushed_into(ops.drop_last()),
        }
    }
}

/// Over any run of pushes and poll steps of a reader whose chunks hold at least one
/// sample, the samples handed out, then those still in the read buffer, then those in the
/// ring, are the samples queued at the start followed by everything pushed, in order: no
/// sample is lost, repeated, reordered or invented.
pub proof fn law_polls_hand_out_samples_as_pushed(
    buffered: Seq<u32>,
    ring: Seq<u32>,
    chunk_len: nat,
    ops: Seq<ReaderOp>,
)
    requires
        chunk_len > 0,
    ensures
        ({
            let (out, b, r) = run_reader(buffered, ring, chunk_len, ops);
            out + (b + r) == (buffered + ring) + pushed_into(ops)
        }),
    decreases ops.len(),
{
    if ops.len() == 0 {
        assert(Seq::<u32>::empty() + (buffered + ring) =~= (buffered + ring) + Seq::<u32>::empty());
    } else {
        law_polls_hand_out_samples_as_pushed(buffered, ring, chunk_len, ops.drop_last());
        let (out, b, r) = run_reader(buffered, ring, chunk_len, ops.drop_last());
        let init = buffered + ring;
        match ops.last() {
            ReaderOp::Push(s) => {
                assert(out + (b + (r + s)) =~= (out + (b + r)) + s);
                assert((init + pushed_into(ops.drop_last())) + s =~= init + (pushed_into(ops.drop_last()) + s));
            },
            ReaderOp::Step(event) => {
                match event {
                    PollEvent::Alive { .. } => {},
                    _ => {
                        lemma_take_step_follows_queue(b, r, chunk_len);
                        let t = take_step(b, r, chunk_len);
                        if t.0 is Some {
                            let q = b + r;
                            assert(out.push(q[0]) + q.drop_first() =~= out + q);
                        }
                    },
                }
            },
        }
    }
}

/// A poll step asks for the producer's alive flag (the only way to the end of the stream
/// or a pending poll) only when the reader and its ring are empty, that is once every
/// sample queued at the start or pushed before it has been handed out, in order.
pub proof fn law_poll_finds_nothing_only_when_all_handed_out(
    buffered: Seq<u32>,
    ring: Seq<u32>,
    chunk_len: nat,
    ops: Seq<ReaderOp>,
    event: PollEvent,
)
    requires
        chunk_len > 0,
        ({
            let (out, b, r) = run_reader(buffered, ring, chunk_len, ops);
            poll_action(event, b, r, chunk_len) is ReadAlive
        }),
    ensures
        ({
            let (out, b, r) = run_reader(buffered, ring, chunk_len, ops);
            &&& b.len() == 0
            &&& r.len() == 0
            &&& out == (buffered + ring) + pushed_into(ops)
        }),
{
    law_polls_hand_out_samples_as_pushed(buffered, ring, chunk_len, ops);
    let (out, b, r) = run_reader(buffered, ring, chunk_len, ops);
    if let PollEvent::Alive { alive, armed } = event {
        assert(!(spec_empty_poll_outcome(alive, armed) is ReadAlive));
    }
    assert(take_step(b, r, chunk_len).0 is None);
    assert(b + r =~= Seq::<u32>::empty());
    assert(out + (b + r) =~= out);
}

}
