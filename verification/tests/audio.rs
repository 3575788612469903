use std::cell::{Cell, RefCell};

use hyprnote::audio::async_ring::{
    dropped_report, empty_poll_outcome, DroppedReport, PollAction, PollEvent, PollNextSample, ReaderHooks,
    RingbufAsyncReader, SamplePoll,
};
use hyprnote::audio::input::{
    default_device_display_name, visible_mic_devices, AudioInput, AudioSource, AudioStream, MicInput,
    SpeakerInput, TAP_DEVICE_NAME,
};
use hyprnote::audio::ring::SampleRing;
use hyprnote::audio::rt_ring::{
    convert_and_push_to_ringbuf, push_f32_to_ringbuf, push_interleaved_first_channel_to_ringbuf,
};

fn bits(x: f32) -> u32 {
    x.to_bits()
}

fn drain(ring: &mut SampleRing) -> Vec<u32> {
    let mut buf = vec![0u32; ring.occupied_len()];
    let n = ring.pop_slice(&mut buf);
    buf.truncate(n);
    buf
}

#[test]
fn interleaved_push_takes_first_channel_of_each_frame() {
    let mut ring = SampleRing::new(16);
    let data: Vec<i16> = vec![1, 100, 2, 200, 3, 300];
    let mut scratch = vec![0u32; 8];
    let stats = push_interleaved_first_channel_to_ringbuf(&data, 2, &mut scratch, &mut ring, |s: i16| {
        bits(s as f32)
    });
    assert_eq!(stats.pushed, 3);
    assert_eq!(stats.dropped, 0);
    assert_eq!(drain(&mut ring), vec![bits(1.0), bits(2.0), bits(3.0)]);
}

#[test]
fn interleaved_push_drops_frames_without_room() {
    let mut ring = SampleRing::new(2);
    let data: Vec<u32> = vec![10, 11, 12, 20, 21, 22, 30, 31, 32, 40, 41, 42];
    let mut scratch = vec![0u32; 3];
    let stats = push_interleaved_first_channel_to_ringbuf(&data, 3, &mut scratch, &mut ring, |s: u32| s);
    assert_eq!(stats.pushed, 2);
    assert_eq!(stats.dropped, 2);
    assert_eq!(stats.pushed + stats.dropped, data.len() / 3);
    assert_eq!(drain(&mut ring), vec![10, 20]);
}

#[test]
fn interleaved_push_in_small_chunks_fills_in_order() {
    let mut ring = SampleRing::new(5);
    let data: Vec<u32> = (0..14).collect();
    let mut scratch = vec![0u32; 2];
    let stats = push_interleaved_first_channel_to_ringbuf(&data, 2, &mut scratch, &mut ring, |s: u32| s * 10);
    assert_eq!(stats.pushed, 5);
    assert_eq!(stats.dropped, 2);
    assert_eq!(drain(&mut ring), vec![0, 20, 40, 60, 80]);
}

#[test]
fn interleaved_push_ignores_a_partial_last_frame() {
    let mut ring = SampleRing::new(8);
    let data: Vec<u32> = vec![1, 2, 3, 4, 5];
    let mut scratch = vec![0u32; 8];
    let stats = push_interleaved_first_channel_to_ringbuf(&data, 2, &mut scratch, &mut ring, |s: u32| s);
    assert_eq!(stats.pushed, 2);
    assert_eq!(stats.dropped, 0);
    assert_eq!(drain(&mut ring), vec![1, 3]);
}

#[test]
fn interleaved_push_degenerate_inputs_push_nothing() {
    let mut ring = SampleRing::new(4);
    let data: Vec<u32> = vec![1, 2, 3, 4];
    let mut empty_scratch: Vec<u32> = Vec::new();
    let s1 = push_interleaved_first_channel_to_ringbuf(&data, 2, &mut empty_scratch, &mut ring, |s: u32| s);
    assert_eq!((s1.pushed, s1.dropped), (0, 0));
    let mut scratch = vec![5u32; 4];
    let s2 = push_interleaved_first_channel_to_ringbuf(&data, 0, &mut scratch, &mut ring, |s: u32| s);
    assert_eq!((s2.pushed, s2.dropped), (0, 0));
    let s3 = push_interleaved_first_channel_to_ringbuf(&data, 5, &mut scratch, &mut ring, |s: u32| s);
    assert_eq!((s3.pushed, s3.dropped), (0, 0));
    assert_eq!(scratch, vec![5u32; 4]);
    assert_eq!(ring.occupied_len(), 0);
}

#[test]
fn interleaved_push_into_full_ring_drops_everything() {
    let mut ring = SampleRing::new(1);
    ring.push_slice(&[7]);
    let data: Vec<u32> = vec![1, 2, 3, 4];
    let mut scratch = vec![0u32; 4];
    let stats = push_interleaved_first_channel_to_ringbuf(&data, 1, &mut scratch, &mut ring, |s: u32| s);
    assert_eq!(stats.pushed, 0);
    assert_eq!(stats.dropped, 4);
    assert_eq!(drain(&mut ring), vec![7]);
}

#[test]
fn convert_and_push_counts_every_sample() {
    let mut ring = SampleRing::new(3);
    let samples: Vec<u8> = vec![1, 2, 3, 4, 5];
    let mut scratch = vec![0u32; 2];
    let stats = convert_and_push_to_ringbuf(&samples, &mut scratch, &mut ring, |s: u8| s as u32 + 100);
    assert_eq!(stats.pushed, 3);
    assert_eq!(stats.dropped, 2);
    assert_eq!(drain(&mut ring), vec![101, 102, 103]);
    let empty: Vec<u8> = Vec::new();
    let none = convert_and_push_to_ringbuf(&empty, &mut scratch, &mut ring, |s: u8| s as u32);
    assert_eq!((none.pushed, none.dropped), (0, 0));
}

#[test]
fn push_f32_pushes_what_fits() {
    let mut ring = SampleRing::new(2);
    let data = vec![bits(0.5), bits(-0.25), bits(1.0)];
    let stats = push_f32_to_ringbuf(&data, &mut ring);
    assert_eq!(stats.pushed, 2);
    assert_eq!(stats.dropped, 1);
    assert_eq!(ring.vacant_len(), 0);
    let out = drain(&mut ring);
    assert_eq!(out.iter().map(|b| f32::from_bits(*b)).collect::<Vec<_>>(), vec![0.5, -0.25]);
    let empty = push_f32_to_ringbuf(&[], &mut ring);
    assert_eq!((empty.pushed, empty.dropped), (0, 0));
}

struct TestHooks {
    dropped: Cell<usize>,
    now: Cell<u64>,
    logs: RefCell<Vec<(String, usize)>>,
}

impl TestHooks {
    fn new() -> Self {
        TestHooks { dropped: Cell::new(0), now: Cell::new(0), logs: RefCell::new(Vec::new()) }
    }
}

impl ReaderHooks for TestHooks {
    fn take_dropped(&self) -> usize {
        self.dropped.replace(0)
    }
    fn now_ns(&self) -> u64 {
        self.now.get()
    }
    fn log_dropped(&self, message: &str, dropped: usize) {
        self.logs.borrow_mut().push((message.to_string(), dropped));
    }
}

struct Flags {
    alive: Option<bool>,
    wake_pending: Cell<bool>,
    registered: Cell<usize>,
}

impl Flags {
    fn new(alive: Option<bool>) -> Self {
        Flags { alive, wake_pending: Cell::new(false), registered: Cell::new(0) }
    }
}

/// Runs one poll to its end, doing what each step asks.
fn poll(reader: &mut RingbufAsyncReader, ring: &mut SampleRing, hooks: &TestHooks, flags: &Flags) -> PollNextSample {
    let mut event = PollEvent::Poll;
    loop {
        match reader.poll_next_sample(ring, hooks, event) {
            PollAction::Done { result, wake_pending } => {
                if let Some(p) = wake_pending {
                    flags.wake_pending.set(p);
                }
                return result;
            }
            PollAction::ReadAlive { armed } => {
                event = PollEvent::Alive { alive: flags.alive.unwrap_or(true), armed };
            }
            PollAction::ArmWaker => {
                flags.wake_pending.set(true);
                flags.registered.set(flags.registered.get() + 1);
                event = PollEvent::WakerArmed;
            }
        }
    }
}

#[test]
fn reader_hands_out_samples_in_order_in_chunks() {
    let mut ring = SampleRing::new(8);
    ring.push_slice(&[1, 2, 3, 4, 5]);
    let hooks = TestHooks::new();
    let flags = Flags::new(None);
    let mut reader = RingbufAsyncReader::new(vec![0u32; 2]);
    let mut got = Vec::new();
    let mut pops = 0;
    loop {
        let r = poll(&mut reader, &mut ring, &hooks, &flags);
        if r.did_pop_chunk {
            pops += 1;
        }
        match r.poll {
            SamplePoll::Ready(x) => got.push(x),
            _ => {
                assert_eq!(r.poll, SamplePoll::Pending);
                break;
            }
        }
    }
    assert_eq!(got, vec![1, 2, 3, 4, 5]);
    assert_eq!(pops, 3);
    assert!(flags.wake_pending.get());
    assert_eq!(flags.registered.get(), 1);
    assert!(!reader.has_buffered_samples());
}

#[test]
fn reader_buffers_a_chunk_before_taking_more() {
    let mut ring = SampleRing::new(8);
    ring.push_slice(&[1, 2, 3]);
    let hooks = TestHooks::new();
    let flags = Flags::new(Some(true));
    flags.wake_pending.set(true);
    let mut reader = RingbufAsyncReader::new(vec![0u32; 4]);
    let first = poll(&mut reader, &mut ring, &hooks, &flags);
    assert_eq!(first.poll, SamplePoll::Ready(1));
    assert!(first.did_pop_chunk);
    assert!(!flags.wake_pending.get());
    assert!(reader.has_buffered_samples());
    assert_eq!(ring.occupied_len(), 0);
    ring.push_slice(&[9]);
    let second = poll(&mut reader, &mut ring, &hooks, &flags);
    assert_eq!(second.poll, SamplePoll::Ready(2));
    assert!(!second.did_pop_chunk);
    assert_eq!(poll(&mut reader, &mut ring, &hooks, &flags).poll, SamplePoll::Ready(3));
    assert_eq!(poll(&mut reader, &mut ring, &hooks, &flags).poll, SamplePoll::Ready(9));
}

#[test]
fn reader_delivers_queued_samples_after_the_producer_is_gone() {
    let mut ring = SampleRing::new(8);
    ring.push_slice(&[bits(0.25), bits(-0.5)]);
    let hooks = TestHooks::new();
    let flags = Flags::new(Some(false));
    let mut reader = RingbufAsyncReader::new(vec![0u32; 4]);
    let out = poll(&mut reader, &mut ring, &hooks, &flags);
    assert_eq!(out.poll, SamplePoll::Ready(bits(0.25)));
    assert!(out.did_pop_chunk);
    assert!(reader.has_buffered_samples());
    assert_eq!(poll(&mut reader, &mut ring, &hooks, &flags).poll, SamplePoll::Ready(bits(-0.5)));
    assert_eq!(poll(&mut reader, &mut ring, &hooks, &flags).poll, SamplePoll::Finished);
}

#[test]
fn reader_finishes_once_the_producer_is_gone() {
    let mut ring = SampleRing::new(4);
    let hooks = TestHooks::new();
    let flags = Flags::new(Some(false));
    let mut reader = RingbufAsyncReader::new(vec![0u32; 4]);
    let r = poll(&mut reader, &mut ring, &hooks, &flags);
    assert_eq!(r.poll, SamplePoll::Finished);
    assert!(!r.did_pop_chunk);
    assert_eq!(flags.registered.get(), 0);
    assert!(!flags.wake_pending.get());
    assert!(!reader.has_buffered_samples());
    ring.push_slice(&[5]);
    assert_eq!(poll(&mut reader, &mut ring, &hooks, &flags).poll, SamplePoll::Ready(5));
}

#[test]
fn reader_arms_the_waker_before_checking_again() {
    let mut ring = SampleRing::new(4);
    let hooks = TestHooks::new();
    let mut reader = RingbufAsyncReader::new(vec![0u32; 4]);
    assert!(matches!(
        reader.poll_next_sample(&mut ring, &hooks, PollEvent::Poll),
        PollAction::ReadAlive { armed: false }
    ));
    assert!(matches!(
        reader.poll_next_sample(&mut ring, &hooks, PollEvent::Alive { alive: true, armed: false }),
        PollAction::ArmWaker
    ));
    assert!(matches!(
        reader.poll_next_sample(&mut ring, &hooks, PollEvent::WakerArmed),
        PollAction::ReadAlive { armed: true }
    ));
    match reader.poll_next_sample(&mut ring, &hooks, PollEvent::Alive { alive: true, armed: true }) {
        PollAction::Done { result, wake_pending } => {
            assert_eq!(result.poll, SamplePoll::Pending);
            assert!(!result.did_pop_chunk);
            assert_eq!(wake_pending, Some(true));
        }
        other => panic!("unexpected {other:?}"),
    }
    match reader.poll_next_sample(&mut ring, &hooks, PollEvent::Alive { alive: false, armed: true }) {
        PollAction::Done { result, wake_pending } => {
            assert_eq!(result.poll, SamplePoll::Finished);
            assert_eq!(wake_pending, None);
        }
        other => panic!("unexpected {other:?}"),
    }
    ring.push_slice(&[7, 8]);
    match reader.poll_next_sample(&mut ring, &hooks, PollEvent::WakerArmed) {
        PollAction::Done { result, wake_pending } => {
            assert_eq!(result.poll, SamplePoll::Ready(7));
            assert!(result.did_pop_chunk);
            assert_eq!(wake_pending, Some(false));
        }
        other => panic!("unexpected {other:?}"),
    }
    assert!(matches!(empty_poll_outcome(false, false), PollAction::Done { result: PollNextSample { poll: SamplePoll::Finished, .. }, wake_pending: None }));
    assert!(matches!(empty_poll_outcome(true, false), PollAction::ArmWaker));
}

#[test]
fn reader_reports_dropped_samples_at_most_once_a_second() {
    let mut ring = SampleRing::new(4);
    let hooks = TestHooks::new();
    let flags = Flags::new(None);
    let mut reader = RingbufAsyncReader::new(vec![0u32; 4]).with_dropped_samples("mic_samples_dropped");
    hooks.dropped.set(3);
    hooks.now.set(5_000_000_000);
    poll(&mut reader, &mut ring, &hooks, &flags);
    hooks.dropped.set(4);
    hooks.now.set(5_999_999_999);
    poll(&mut reader, &mut ring, &hooks, &flags);
    hooks.dropped.set(1);
    hooks.now.set(6_000_000_000);
    poll(&mut reader, &mut ring, &hooks, &flags);
    assert_eq!(
        *hooks.logs.borrow(),
        vec![("mic_samples_dropped".to_string(), 3), ("mic_samples_dropped".to_string(), 5)]
    );
}

#[test]
fn reader_without_drop_tracking_never_reports() {
    let mut ring = SampleRing::new(4);
    let hooks = TestHooks::new();
    let flags = Flags::new(None);
    let mut reader = RingbufAsyncReader::new(vec![0u32; 4]);
    hooks.dropped.set(3);
    poll(&mut reader, &mut ring, &hooks, &flags);
    assert!(hooks.logs.borrow().is_empty());
    assert_eq!(hooks.dropped.get(), 3);
}

#[test]
fn mic_input_reports_its_device() {
    let input = AudioInput::from_mic(MicInput { device_name: "USB Mic".to_string(), sample_rate: 48_000 });
    assert_eq!(input.sample_rate(), 48_000);
    assert_eq!(input.device_name(), "USB Mic");
    let mut input = input;
    let stream = input.stream();
    assert!(matches!(stream, AudioStream::RealtimeMic { .. }));
    assert_eq!(stream.sample_rate(), 48_000);
    assert_eq!(input.sample_rate(), 48_000);
}

#[test]
fn speaker_input_streams_once() {
    let mut input = AudioInput::from_speaker(SpeakerInput { sample_rate: 44_100 });
    assert_eq!(input.sample_rate(), 44_100);
    assert_eq!(input.device_name(), "RealtimeSpeaker");
    let stream = input.stream();
    assert!(matches!(stream, AudioStream::RealtimeSpeaker { .. }));
    assert_eq!(stream.sample_rate(), 44_100);
    assert_eq!(input.device_name(), "RealtimeSpeaker");
}

#[test]
fn recorded_stream_decodes_little_endian_pcm() {
    let bytes = vec![0x01, 0x00, 0xff, 0x7f, 0x00, 0x80, 0xff, 0xff, 0x42];
    let mut input = AudioInput::from_recorded(bytes.clone());
    assert_eq!(input.sample_rate(), 16_000);
    assert_eq!(input.device_name(), "Recorded");
    let mut stream = input.stream();
    assert_eq!(stream.sample_rate(), 16_000);
    let mut got = Vec::new();
    while let Some(s) = stream.next_recorded_sample() {
        got.push(s);
    }
    assert_eq!(got, vec![1, 32767, -32768, -1]);
    let expected: Vec<i16> = bytes.chunks_exact(2).map(|c| i16::from_le_bytes([c[0], c[1]])).collect();
    assert_eq!(got, expected);
    assert_eq!(stream.next_recorded_sample(), None);
    assert!(matches!(stream, AudioStream::Recorded { position: 8, .. }));
    let again = input.stream();
    assert!(matches!(again, AudioStream::Recorded { position: 0, .. }));
}

#[test]
fn microphone_list_leaves_out_the_tap() {
    let names = vec![
        "Built-in".to_string(),
        TAP_DEVICE_NAME.to_string(),
        "USB".to_string(),
        "hypr-audio-tap ".to_string(),
    ];
    assert_eq!(
        visible_mic_devices(names),
        vec!["Built-in".to_string(), "USB".to_string(), "hypr-audio-tap ".to_string()]
    );
    assert!(visible_mic_devices(Vec::new()).is_empty());
}

#[test]
fn default_device_name_falls_back() {
    assert_eq!(default_device_display_name(Some("MacBook Mic".to_string())), "MacBook Mic");
    assert_eq!(default_device_display_name(None), "Unknown Microphone");
    assert_eq!(AudioSource::Recorded, AudioSource::Recorded);
}

#[test]
fn dropped_reports_wait_a_second_between_reports() {
    assert_eq!(
        dropped_report(0, None, 0, 10),
        DroppedReport { pending: 0, last: None, report: None }
    );
    assert_eq!(
        dropped_report(2, None, 3, 10),
        DroppedReport { pending: 0, last: Some(10), report: Some(5) }
    );
    assert_eq!(
        dropped_report(0, Some(10), 4, 1_000_000_009),
        DroppedReport { pending: 4, last: Some(10), report: None }
    );
    assert_eq!(
        dropped_report(4, Some(10), 1, 1_000_000_010),
        DroppedReport { pending: 0, last: Some(1_000_000_010), report: Some(5) }
    );
    assert_eq!(
        dropped_report(usize::MAX, Some(10), 1, 20),
        DroppedReport { pending: usize::MAX, last: Some(10), report: None }
    );
    assert_eq!(
        dropped_report(1, Some(500), 1, 20),
        DroppedReport { pending: 2, last: Some(500), report: None }
    );
}

#[test]
fn reader_hands_out_interleaved_pushes_in_order() {
    let mut ring = SampleRing::new(4);
    ring.push_slice(&[1, 2, 3]);
    let hooks = TestHooks::new();
    let flags = Flags::new(Some(false));
    let mut reader = RingbufAsyncReader::new(vec![0u32; 2]);
    let mut got = Vec::new();
    for batch in [vec![4u32, 5], vec![], vec![6, 7, 8]] {
        for _ in 0..2 {
            if let SamplePoll::Ready(x) = poll(&mut reader, &mut ring, &hooks, &flags).poll {
                got.push(x);
            }
        }
        ring.push_slice(&batch);
    }
    loop {
        match poll(&mut reader, &mut ring, &hooks, &flags).poll {
            SamplePoll::Ready(x) => got.push(x),
            other => {
                assert_eq!(other, SamplePoll::Finished);
                break;
            }
        }
    }
    assert_eq!(got, vec![1, 2, 3, 4, 5, 6, 7, 8]);
}

#[test]
fn dropped_counts_add_up_across_reports() {
    let mut state = DroppedReport { pending: 0, last: None, report: None };
    let mut reported = 0usize;
    for (dropped, now) in [(2usize, 10u64), (3, 500_000_000), (4, 900_000_000), (1, 1_000_000_010), (5, 1_200_000_000)] {
        state = dropped_report(state.pending, state.last, dropped, now);
        reported += state.report.unwrap_or(0);
    }
    assert_eq!(reported + state.pending, 15);
    assert_eq!(reported, 10);
    assert_eq!(state.pending, 5);
}
