use vstd::prelude::*;
use crate::text::text_eq;

verus! {

/// The name of the virtual device that captures what the speakers play; it is not a
/// microphone and is left out of the microphone list.
pub const TAP_DEVICE_NAME: &'static str = "hypr-audio-tap";

/// Sample rate of recorded audio, in hertz.
pub const RECORDED_SAMPLE_RATE: u32 = 16000;

/// Plays audio on the default output device.
pub struct AudioOutput {}

/// Where an input's audio comes from.
#[derive(Clone, Copy, Debug, PartialEq, Eq, Structural)]
pub enum AudioSource {
    RealtimeMic,
    RealtimeSpeaker,
    Recorded,
}

/// An opened microphone: its device name and the rate at which it delivers samples.
pub struct MicInput {
    pub device_name: String,
    pub sample_rate: u32,
}

/// The opened capture of the speaker output, and the rate at which it delivers samples.
pub struct SpeakerInput {
    pub sample_rate: u32,
}

/// The running capture of a microphone.
pub struct MicStream {
    pub sample_rate: u32,
}

/// The running capture of the speaker output.
pub struct SpeakerStream {
    pub sample_rate: u32,
}

impl MicInput {
    pub fn stream(&self) -> (s: MicStream)
        ensures
            s.sample_rate == self.sample_rate,
    {
        MicStream { sample_rate: self.sample_rate }
    }
}

impl SpeakerInput {
    pub fn stream(self) -> (s: SpeakerStream)
        ensures
            s.sample_rate == self.sample_rate,
    {
        SpeakerStream { sample_rate: self.sample_rate }
    }
}

/// A source of audio: a microphone, the speaker output, or recorded 16-bit PCM.
pub struct AudioInput {
    source: AudioSource,
    mic: Option<MicInput>,
    speaker: Option<SpeakerInput>,
    data: Option<Vec<u8>>,
}

impl AudioInput {
    /// Each source holds what it reads from; the speaker capture is held until it is
    /// turned into a stream.
    pub closed spec fn wf(&self) -> bool {
        &&& self.source == AudioSource::RealtimeMic ==> self.mic is Some
        &&& self.source == AudioSource::Recorded ==> self.data is Some
    }

    pub closed spec fn source(&self) -> AudioSource {
        self.source
    }

    /// Whether the speaker capture has not been turned into a stream yet.
    pub closed spec fn has_speaker(&self) -> bool {
        self.speaker is Some
    }

    pub closed spec fn spec_sample_rate(&self) -> u32 {
        match self.source {
            AudioSource::RealtimeMic => self.mic.unwrap().sample_rate,
            AudioSource::RealtimeSpeaker => self.speaker.unwrap().sample_rate,
            AudioSource::Recorded => RECORDED_SAMPLE_RATE,
        }
    }

    pub closed spec fn spec_device_name(&self) -> Seq<char> {
        match self.source {
            AudioSource::RealtimeMic => self.mic.unwrap().device_name@,
            AudioSource::RealtimeSpeaker => "RealtimeSpeaker"@,
            AudioSource::Recorded => "Recorded"@,
        }
    }

    pub closed spec fn recorded_data(&self) -> Seq<u8> {
        self.data.unwrap()@
    }

    /// Audio from the opened microphone `mic`.
    pub fn from_mic(mic: MicInput) -> (r: Self)
        ensures
            r.wf(),
            r.source() == AudioSource::RealtimeMic,
            r.spec_sample_rate() == mic.sample_rate,
            r.spec_device_name() == mic.device_name@,
    {
        AudioInput { source: AudioSource::RealtimeMic, mic: Some(mic), speaker: None, data: None }
    }

    /// Audio from the opened speaker capture `speaker`.
    pub fn from_speaker(speaker: SpeakerInput) -> (r: Self)
        ensures
            r.wf(),
            r.source() == AudioSource::RealtimeSpeaker,
            r.has_speaker(),
            r.spec_sample_rate() == speaker.sample_rate,
            r.spec_device_name() == "RealtimeSpeaker"@,
    {
        AudioInput {
            source: AudioSource::RealtimeSpeaker,
            mic: None,
            speaker: Some(speaker),
            data: None,
        }
    }

    /// Audio from recorded little-endian 16-bit PCM at 16 kHz.
    pub fn from_recorded(data: Vec<u8>) -> (r: Self)
        ensures
            r.wf(),
            r.source() == AudioSource::Recorded,
            r.recorded_data() == data@,
            r.spec_sample_rate() == RECORDED_SAMPLE_RATE,
            r.spec_device_name() == "Recorded"@,
    {
        AudioInput { source: AudioSource::Recorded, mic: None, speaker: None, data: Some(data) }
    }

    /// The rate at which the source delivers samples, in hertz.
    pub fn sample_rate(&self) -> (rate: u32)
        requires
            self.wf(),
            self.source() == AudioSource::RealtimeSpeaker ==> self.has_speaker(),
        ensures
            rate == self.spec_sample_rate(),
    {
        match &self.source {
            AudioSource::RealtimeMic => self.mic.as_ref().unwrap().sample_rate,
            AudioSource::RealtimeSpeaker => self.speaker.as_ref().unwrap().sample_rate,
            AudioSource::Recorded => RECORDED_SAMPLE_RATE,
        }
    }

    /// The name under which the source is shown.
    pub fn device_name(&self) -> (name: String)
        requires
            self.wf(),
        ensures
            name@ == self.spec_device_name(),
    {
        match &self.source {
            AudioSource::RealtimeMic => self.mic.as_ref().unwrap().device_name.clone(),
            AudioSource::RealtimeSpeaker => String::from_str("RealtimeSpeaker"),
            AudioSource::Recorded => String::from_str("Recorded"),
        }
    }

    /// Starts the source. The speaker capture is handed to its stream, so a speaker input
    /// streams once.
    pub fn stream(&mut self) -> (s: AudioStream)
        requires
            old(self).wf(),
            old(self).source() == AudioSource::RealtimeSpeaker ==> old(self).has_speaker(),
        ensures
            final(self).wf(),
            final(self).source() == old(self).source(),
            final(self).spec_device_name() == old(self).spec_device_name(),
            s.spec_sample_rate() == old(self).spec_sample_rate(),
            old(self).source() == AudioSource::RealtimeMic ==> s is RealtimeMic
                && final(self).spec_sample_rate() == old(self).spec_sample_rate()
                && final(self).spec_device_name() == old(self).spec_device_name(),
            old(self).source() == AudioSource::RealtimeSpeaker ==> s is RealtimeSpeaker
                && !final(self).has_speaker(),
            old(self).source() == AudioSource::Recorded ==> s == (AudioStream::Recorded {
                data: s->data,
                position: 0,
            }) && s->data@ == old(self).recorded_data()
                && final(self).recorded_data() == old(self).recorded_data(),
    {
        match &self.source {
            AudioSource::RealtimeMic => AudioStream::RealtimeMic {
                mic: self.mic.as_ref().unwrap().stream(),
            },
            AudioSource::RealtimeSpeaker => AudioStream::RealtimeSpeaker {
                speaker: self.speaker.take().unwrap().stream(),
            },
            AudioSource::Recorded => AudioStream::Recorded {
                data: self.data.as_ref().unwrap().clone(),
                position: 0,
            },
        }
    }
}

/// The 16-bit signed value of the little-endian byte pair `lo`, `hi`.
pub open spec fn le_i16(lo: u8, hi: u8) -> int {
    let u = lo + 256 * hi;
    if u >= 32768 { u - 65536 } else { u }
}

/// One read of recorded bytes `data` at position `pos`: the sample there and the next
/// position, or nothing once fewer than two bytes remain.
pub open spec fn recorded_step(data: Seq<u8>, pos: int) -> (Option<int>, int) {
    if 0 <= pos && pos + 2 <= data.len() {
        (Some(le_i16(data[pos], data[pos + 1])), pos + 2)
    } else {
        (None, pos)
    }
}

/// The samples that `n` reads from position `pos` give.
pub open spec fn recorded_reads(data: Seq<u8>, pos: int, n: nat) -> Seq<int>
    decreases n,
{
    if n == 0 {
        Seq::empty()
    } else {
        match recorded_step(data, pos).0 {
            Some(x) => seq![x] + recorded_reads(data, recorded_step(data, pos).1, (n - 1) as nat),
            None => Seq::empty(),
        }
    }
}

/// The 16-bit samples that recorded bytes encode, in order (a trailing odd byte is left out).
pub open spec fn pcm_samples(data: Seq<u8>) -> Seq<int> {
    Seq::new((data.len() / 2) as nat, |k: int| le_i16(data[2 * k], data[2 * k + 1]))
}

proof fn lemma_reads_from(data: Seq<u8>, j: int)
    requires
        0 <= j <= data.len() / 2,
    ensures
        recorded_reads(data, 2 * j, (data.len() / 2 - j) as nat) =~= pcm_samples(data).subrange(
            j,
            data.len() as int / 2,
        ),
    decreases data.len() / 2 - j,
{
    if j < data.len() / 2 {
        lemma_reads_from(data, j + 1);
        assert(2 * j + 2 <= data.len());
        assert(recorded_step(data, 2 * j) == (Some(le_i16(data[2 * j], data[2 * j + 1])), 2 * j + 2));
        assert(2 * (j + 1) == 2 * j + 2);
    }
}

/// A recorded stream read from its start gives exactly the samples its bytes encode, in
/// order, and then nothing more.
pub proof fn law_recorded_stream_plays_all_samples(data: Seq<u8>)
    ensures
        recorded_reads(data, 0, (data.len() / 2) as nat) == pcm_samples(data),
        recorded_step(data, 2 * (data.len() as int / 2)).0 is None,
{
    lemma_reads_from(data, 0);
    assert(pcm_samples(data).subrange(0, data.len() as int / 2) =~= pcm_samples(data));
}

/// A running source of samples.
pub enum AudioStream {
    RealtimeMic { mic: MicStream },
    RealtimeSpeaker { speaker: SpeakerStream },
    Recorded { data: Vec<u8>, position: usize },
}

impl AudioStream {
    pub open spec fn spec_sample_rate(&self) -> u32 {
        match self {
            AudioStream::RealtimeMic { mic } => mic.sample_rate,
            AudioStream::RealtimeSpeaker { speaker } => speaker.sample_rate,
            AudioStream::Recorded { .. } => RECORDED_SAMPLE_RATE,
        }
    }

    /// The rate at which the stream delivers samples, in hertz.
    pub fn sample_rate(&self) -> (rate: u32)
        ensures
            rate == self.spec_sample_rate(),
    {
        match self {
            AudioStream::RealtimeMic { mic } => mic.sample_rate,
            AudioStream::RealtimeSpeaker { speaker } => speaker.sample_rate,
            AudioStream::Recorded { .. } => RECORDED_SAMPLE_RATE,
        }
    }

    /// The next sample of a recorded stream: the little-endian 16-bit value at the
    /// current position, which then moves past it; `None` once fewer than two bytes remain.
    pub fn next_recorded_sample(&mut self) -> (sample: Option<i16>)
        requires
            *old(self) is Recorded,
        ensures
            *final(self) is Recorded,
            (*final(self))->data == (*old(self))->data,
            ({
                let step = recorded_step((*old(self))->data@, (*old(self))->position as int);
                &&& (*final(self))->position == step.1
                &&& match step.0 {
                    Some(x) => sample == Some(x as i16),
                    None => sample is None,
                }
            }),
    {
        match self {
            AudioStream::Recorded { data, position } => {
                if *position <= data.len() && data.len() - *position >= 2 {
                    let lo: u8 = data[*position];
                    let hi: u8 = data[*position + 1];
                    let u: u32 = lo as u32 + 256 * (hi as u32);
                    let value: i16 = if u >= 32768 {
                        (u as i32 - 65536) as i16
                    } else {
                        u as i16
                    };
                    *position = *position + 2;
                    Some(value)
                } else {
                    None
                }
            },
            _ => None,
        }
    }
}

/// The name shown for the default microphone: its description when it has one.
pub fn default_device_display_name(description: Option<String>) -> (name: String)
    ensures
        name@ == match description {
            Some(d) => d@,
            None => "Unknown Microphone"@,
        },
{
    match description {
        Some(d) => d,
        None => String::from_str("Unknown Microphone"),
    }
}

/// The microphones among the input devices `names` (those whose description could be
/// read): all but the speaker tap, in order.
pub fn visible_mic_devices(names: Vec<String>) -> (r: Vec<String>)
    ensures
        r@.map_values(|n: String| n@) == names@.map_values(|n: String| n@).filter(
            |n: Seq<char>| n != TAP_DEVICE_NAME@,
        ),
{
    let ghost views = names@.map_values(|n: String| n@);
    let ghost keep = |n: Seq<char>| n != TAP_DEVICE_NAME@;
    let mut out: Vec<String> = Vec::new();
    let mut i: usize = 0;
    while i < names.len()
        invariant
            i <= names@.len(),
            views == names@.map_values(|n: String| n@),
            keep == (|n: Seq<char>| n != TAP_DEVICE_NAME@),
            out@.map_values(|n: String| n@) == views.take(i as int).filter(keep),
        decreases names@.len() - i,
    {
        proof {
            assert(views.take(i + 1).drop_last() =~= views.take(i as int));
            reveal_with_fuel(Seq::filter, 1);
        }
        let ghost before = out@;
        if !text_eq(names[i].as_str(), TAP_DEVICE_NAME) {
            out.push(names[i].clone());
            proof {
                assert(out@.map_values(|n: String| n@) =~= before.map_values(|n: String| n@).push(views[i as int]));
            }
        }
        i = i + 1;
    }
    proof {
        assert(views.take(names@.len() as int) =~= views);
    }
    out
}

}
