//! Audio capture + mixing.
//!
//! The target mix is selected-app audio + Discord + microphone. Where applications
//! cannot be captured on their own, a system render-endpoint loopback that holds
//! them all takes their place, with a clear warning.
//!
//! Every source is normalised to stereo f32 @ 48 kHz; the mixer pulls a fixed
//! slice per tick, applies gain, sums, clamps, converts to s16le, and pushes the
//! result to the pipeline (which relays it to FFmpeg over TCP). Samples pass
//! through this module as the bits of single-precision numbers: it buffers,
//! decodes and accounts for them, and the mixer alone computes with them.

use std::collections::VecDeque;

use vstd::prelude::*;
use vstd::string::*;

use crate::config::Gain;
use crate::error::EncoderError;
use crate::text;

verus! {

pub const SAMPLE_RATE: u32 = 48000;

pub const CHANNELS: u32 = 2;

/// How often the mixer emits a slice.
pub const TICK_MS: u64 = 10;

/// Max buffered audio per source (~1s) before oldest samples are dropped.
pub const RING_CAP: usize = 96000;

/// How many interleaved samples the mixer emits per tick.
pub const SAMPLES_PER_TICK: usize = 960;

#[derive(Debug, Clone)]
pub struct MicrophoneInfo {
    pub id: String,
    pub name: String,
}

/// What the system reports of a capture endpoint, as far as it could be read.
#[derive(Debug, Clone)]
pub struct EndpointRecord {
    pub id: Option<String>,
    pub name: Option<String>,
}

/// A microphone with its strings as characters.
pub struct MicrophoneView {
    pub id: Seq<char>,
    pub name: Seq<char>,
}

impl View for MicrophoneInfo {
    type V = MicrophoneView;

    open spec fn view(&self) -> MicrophoneView {
        MicrophoneView { id: self.id@, name: self.name@ }
    }
}

/// The contents of a list of microphones.
pub open spec fn microphones(list: Seq<MicrophoneInfo>) -> Seq<MicrophoneView> {
    list.map_values(|m: MicrophoneInfo| m@)
}

/// The endpoints that have an id, under their names or a stand-in.
pub open spec fn usable_endpoints(records: Seq<EndpointRecord>) -> Seq<MicrophoneView>
    decreases records.len(),
{
    if records.len() == 0 {
        seq![]
    } else {
        let before = usable_endpoints(records.drop_last());
        match records.last().id {
            Some(id) => before.push(
                MicrophoneView {
                    id: id@,
                    name: match records.last().name {
                        Some(name) => name@,
                        None => "Microphone"@,
                    },
                },
            ),
            None => before,
        }
    }
}

/// List available microphone (capture) endpoints.
pub fn list_microphones(records: &Vec<EndpointRecord>) -> (r: Vec<MicrophoneInfo>)
    ensures
        microphones(r@) == usable_endpoints(records@),
{
    let mut out: Vec<MicrophoneInfo> = Vec::new();
    let n: usize = records.len();
    assert(microphones(out@) =~= usable_endpoints(records@.take(0)));
    for i in 0..n
        invariant
            n == records@.len(),
            microphones(out@) == usable_endpoints(records@.take(i as int)),
    {
        let ghost before = out@;
        proof {
            let seen = records@.take(i + 1);
            assert(seen.drop_last() =~= records@.take(i as int));
            assert(seen.last() == records@[i as int]);
        }
        if let Some(id) = &records[i].id {
            let name = match &records[i].name {
                Some(name) => name.clone(),
                None => "Microphone".to_string(),
            };
            let mic = MicrophoneInfo { id: id.clone(), name };
            out.push(mic);
            assert(microphones(out@) =~= microphones(before).push(mic@));
        }
    }
    assert(records@.take(n as int) =~= records@);
    out
}

/// Interleaved stereo @ 48 kHz ring buffer, each sample as its bits.
#[derive(Debug)]
pub struct SampleRing {
    samples: VecDeque<u32>,
}

impl View for SampleRing {
    type V = Seq<u32>;

    closed spec fn view(&self) -> Seq<u32> {
        self.samples@
    }
}

/// The newest samples, as many as a ring holds.
pub open spec fn newest(samples: Seq<u32>) -> Seq<u32> {
    if samples.len() <= RING_CAP {
        samples
    } else {
        samples.skip(samples.len() - RING_CAP)
    }
}

impl SampleRing {
    /// The ring holds no more than its capacity.
    pub open spec fn wf(self) -> bool {
        self@.len() <= RING_CAP
    }

    /// How many samples are waiting.
    pub fn len(&self) -> (r: usize)
        ensures
            r == self@.len(),
    {
        self.samples.len()
    }

    /// Take up to `n` of the oldest samples out of the ring.
    pub fn take(&mut self, n: usize) -> (r: Vec<u32>)
        ensures
            r@ == old(self)@.take(
                if n <= old(self)@.len() {
                    n as int
                } else {
                    old(self)@.len() as int
                },
            ),
            final(self)@ == old(self)@.skip(r@.len() as int),
    {
        let mut out: Vec<u32> = Vec::new();
        let ghost start = self@;
        assert(start.skip(0) =~= start);
        assert(start.take(0) =~= Seq::empty());
        while out.len() < n && self.samples.len() > 0
            invariant
                out@.len() <= n,
                out@.len() <= start.len(),
                out@ == start.take(out@.len() as int),
                self@ == start.skip(out@.len() as int),
            decreases n - out@.len(),
        {
            let ghost taken = out@.len() as int;
            match self.samples.pop_front() {
                Some(s) => {
                    out.push(s);
                    assert(start.take(taken + 1) =~= start.take(taken).push(s));
                    assert(self@ =~= start.skip(taken + 1));
                },
                None => {},
            }
        }
        out
    }
}

pub fn new_ring() -> (r: SampleRing)
    ensures
        r@ == Seq::<u32>::empty(),
        r.wf(),
{
    SampleRing { samples: VecDeque::new() }
}

/// Push samples into a ring, dropping oldest data past the cap.
pub fn push_samples(ring: &mut SampleRing, samples: &[u32])
    requires
        old(ring).wf(),
    ensures
        final(ring)@ == newest(old(ring)@ + samples@),
        final(ring).wf(),
{
    let ghost start = ring@;
    let n: usize = samples.len();
    assert(start + samples@.take(0) =~= start);
    for i in 0..n
        invariant
            n == samples@.len(),
            ring@ == newest(start + samples@.take(i as int)),
            ring.wf(),
    {
        let ghost before = ring@;
        let ghost fed = start + samples@.take(i as int);
        if ring.samples.len() >= RING_CAP {
            let _ = ring.samples.pop_front();
        }
        ring.samples.push_back(samples[i]);
        proof {
            let next = start + samples@.take(i + 1);
            assert(next =~= fed.push(samples@[i as int]));
            assert(ring@ =~= newest(next));
        }
    }
    assert(samples@.take(n as int) =~= samples@);
}

/// A ring that is fed in two batches holds what it would hold after one.
pub proof fn feeding_in_batches(held: Seq<u32>, first: Seq<u32>, second: Seq<u32>)
    ensures
        newest(newest(held + first) + second) == newest(held + (first + second)),
        newest(held + first).len() <= RING_CAP,
{
    let all = held + (first + second);
    assert(all =~= held + first + second);
    let part = newest(held + first);
    assert(newest(part + second) =~= newest(all));
}

/// A single capture target for the engine.
#[derive(Debug, Clone)]
pub enum AudioCapture {
    /// Default render endpoint loopback (whole desktop mix).
    SystemLoopback,
    /// A capture endpoint by id (None = default mic).
    Microphone { device_id: Option<String> },
    /// A process's audio via Windows process loopback (app tree at this pid).
    Application { process_id: u32 },
}

/// A capture target with its id as characters.
pub enum CaptureView {
    SystemLoopback,
    Microphone { device_id: Option<Seq<char>> },
    Application { process_id: u32 },
}

impl View for AudioCapture {
    type V = CaptureView;

    open spec fn view(&self) -> CaptureView {
        match self {
            AudioCapture::SystemLoopback => CaptureView::SystemLoopback,
            AudioCapture::Microphone { device_id } => CaptureView::Microphone {
                device_id: text::opt_text(*device_id),
            },
            AudioCapture::Application { process_id } => CaptureView::Application {
                process_id: *process_id,
            },
        }
    }
}

/// One resolved mixer channel: what to capture and at what gain.
#[derive(Debug, Clone)]
pub struct AudioPlanSource {
    pub capture: AudioCapture,
    pub gain: Gain,
    /// Label for warnings / logs.
    pub label: String,
}

/// A mixer channel with its label as characters.
pub struct ChannelView {
    pub capture: CaptureView,
    pub gain: Gain,
    pub label: Seq<char>,
}

impl View for AudioPlanSource {
    type V = ChannelView;

    open spec fn view(&self) -> ChannelView {
        ChannelView { capture: self.capture@, gain: self.gain, label: self.label@ }
    }
}

/// What the engine should capture and mix. Built from the config's live
/// channels by the caller (see `commands::build_audio_plan`).
#[derive(Debug, Clone)]
pub struct AudioPlan {
    pub sources: Vec<AudioPlanSource>,
}

impl View for AudioPlan {
    type V = Seq<ChannelView>;

    open spec fn view(&self) -> Seq<ChannelView> {
        self.sources@.map_values(|s: AudioPlanSource| s@)
    }
}

impl Default for AudioPlan {
    fn default() -> (r: Self)
        ensures
            r@ == Seq::<ChannelView>::empty(),
    {
        let r = AudioPlan { sources: Vec::new() };
        assert(r@ =~= Seq::<ChannelView>::empty());
        r
    }
}

impl AudioPlan {
    pub fn any_enabled(&self) -> (r: bool)
        ensures
            r == (self@.len() > 0),
    {
        self.sources.len() > 0
    }
}

/// How an engine came up.
#[derive(Debug, Clone)]
pub struct StartReport {
    /// The channels (by their place in the plan) that are being captured.
    pub live: Vec<usize>,
    pub warnings: Vec<String>,
}

/// The channels that did start, by their place in the plan.
pub open spec fn live_channels(failures: Seq<Option<EncoderError>>) -> Seq<usize>
    decreases failures.len(),
{
    if failures.len() == 0 {
        seq![]
    } else if failures.last() is None {
        live_channels(failures.drop_last()).push((failures.len() - 1) as usize)
    } else {
        live_channels(failures.drop_last())
    }
}

/// One warning for each channel that did not start.
pub open spec fn channel_warnings(
    plan: Seq<ChannelView>,
    failures: Seq<Option<EncoderError>>,
) -> Seq<Seq<char>>
    decreases failures.len(),
{
    if failures.len() == 0 {
        seq![]
    } else {
        let before = channel_warnings(plan, failures.drop_last());
        match failures.last() {
            Some(e) => before.push(
                "'"@ + plan[failures.len() - 1].label + "' capture failed: "@ + e@.message(),
            ),
            None => before,
        }
    }
}

/// What the operator is told about the start of a plan.
pub open spec fn start_warnings(
    plan: Seq<ChannelView>,
    windows: bool,
    shared: bool,
    failures: Seq<Option<EncoderError>>,
) -> Seq<Seq<char>> {
    if !windows {
        seq!["audio capture is only supported on Windows"@]
    } else {
        (if shared {
            seq!["application audio cannot be captured on its own; using the desktop mix instead"@]
        } else {
            seq![]
        }) + channel_warnings(plan, failures) + (if live_channels(failures).len() == 0 && plan.len() > 0 {
            seq!["no audio channel could be started; streaming video only"@]
        } else {
            seq![]
        })
    }
}

/// Account for the start of a plan's channels, given why each failed, if it did.
/// `shared` tells if the system mix stands in for application channels.
pub fn start(plan: &AudioPlan, windows: bool, shared: bool, failures: &Vec<Option<EncoderError>>) -> (r:
    StartReport)
    requires
        windows ==> failures@.len() == plan@.len(),
    ensures
        r.live@ == (if windows {
            live_channels(failures@)
        } else {
            seq![]
        }),
        text::texts(r.warnings@) == start_warnings(plan@, windows, shared, failures@),
{
    let mut live: Vec<usize> = Vec::new();
    let mut warnings: Vec<String> = Vec::new();
    if !windows {
        text::push_all(&mut warnings, &["audio capture is only supported on Windows"]);
        assert(text::texts(warnings@) =~= start_warnings(plan@, windows, shared, failures@));
        return StartReport { live, warnings };
    }
    let ghost mut first: Seq<Seq<char>> = seq![];
    if shared {
        text::push_all(
            &mut warnings,
            &["application audio cannot be captured on its own; using the desktop mix instead"],
        );
        proof {
            first = seq!["application audio cannot be captured on its own; using the desktop mix instead"@];
        }
    }
    let n: usize = failures.len();
    assert(text::texts(warnings@) =~= first + channel_warnings(plan@, failures@.take(0)));
    for i in 0..n
        invariant
            n == failures@.len(),
            n == plan@.len(),
            live@ == live_channels(failures@.take(i as int)),
            text::texts(warnings@) == first + channel_warnings(plan@, failures@.take(i as int)),
    {
        proof {
            let seen = failures@.take(i + 1);
            assert(seen.drop_last() =~= failures@.take(i as int));
            assert(seen.last() == failures@[i as int]);
            assert(plan@[i as int].label == plan.sources@[i as int].label@);
        }
        match &failures[i] {
            None => {
                live.push(i);
            },
            Some(e) => {
                text::push_text(
                    &mut warnings,
                    "'".to_string().concat(plan.sources[i].label.as_str()).concat(
                        "' capture failed: ",
                    ).concat(e.message().as_str()),
                );
                assert(text::texts(warnings@) =~= first + channel_warnings(plan@, failures@.take(i + 1)));
            },
        }
    }
    assert(failures@.take(n as int) =~= failures@);
    if live.len() == 0 && plan.sources.len() > 0 {
        text::push_text(
            &mut warnings,
            "no audio channel could be started; streaming video only".to_string(),
        );
    }
    assert(text::texts(warnings@) =~= start_warnings(plan@, windows, shared, failures@));
    StartReport { live, warnings }
}

/// One channel's value in one frame, as the endpoint delivers it.
#[derive(Debug, Clone, Copy, PartialEq, Eq, Structural)]
pub enum Sample {
    /// The bits of a single-precision number.
    Float(u32),
    /// A signed 16-bit integer; full scale is 32768.
    Int16(i16),
    Silence,
}

/// The little-endian unsigned number in four bytes.
pub open spec fn le32(data: Seq<u8>, at: int) -> u32 {
    (data[at] + 256 * data[at + 1] + 65536 * data[at + 2] + 16777216 * data[at + 3]) as u32
}

/// The little-endian two's complement number in two bytes.
pub open spec fn le16(data: Seq<u8>, at: int) -> i16 {
    let n = data[at] + 256 * data[at + 1];
    (if n < 32768 {
        n
    } else {
        n - 65536
    }) as i16
}

/// The sample that starts at a byte. What is cut off, or in a format other than
/// 32-bit float and 16-bit integer, is silence.
pub open spec fn sample_at(data: Seq<u8>, at: int, bits: u16) -> Sample {
    if at + bits / 8 > data.len() {
        Sample::Silence
    } else if bits == 32 {
        Sample::Float(le32(data, at))
    } else if bits == 16 {
        Sample::Int16(le16(data, at))
    } else {
        Sample::Silence
    }
}

/// The left and right samples of the frames of a block: the first two channels,
/// or a mono channel twice.
pub open spec fn stereo(data: Seq<u8>, frames: nat, channels: u16, bits: u16) -> Seq<Sample>
    decreases frames,
{
    if frames == 0 {
        seq![]
    } else {
        let base = (frames - 1) * (bits / 8 * channels);
        let left = sample_at(data, base, bits);
        let right = if channels >= 2 {
            sample_at(data, base + bits / 8, bits)
        } else {
            left
        };
        stereo(data, (frames - 1) as nat, channels, bits).push(left).push(right)
    }
}

fn read_sample(data: &[u8], at: usize, bits: u16) -> (r: Sample)
    requires
        at + bits / 8 <= usize::MAX,
    ensures
        r == sample_at(data@, at as int, bits),
{
    let width: usize = (bits / 8) as usize;
    if at + width > data.len() {
        return Sample::Silence;
    }
    if bits == 32 {
        // WASAPI shared mix format is IEEE float32.
        let n: u32 = data[at] as u32 + 256 * data[at + 1] as u32 + 65536 * data[at + 2] as u32
            + 16777216 * data[at + 3] as u32;
        Sample::Float(n)
    } else if bits == 16 {
        let n: i32 = data[at] as i32 + 256 * data[at + 1] as i32;
        if n < 32768 {
            Sample::Int16(n as i16)
        } else {
            Sample::Int16((n - 65536) as i16)
        }
    } else {
        Sample::Silence
    }
}

/// Convert an interleaved native-format frame block to interleaved stereo.
pub fn to_stereo(data: &[u8], frames: usize, channels: u16, bits: u16) -> (r: Vec<Sample>)
    requires
        frames * (bits / 8 * channels) + bits / 8 <= usize::MAX,
    ensures
        r@ == stereo(data@, frames as nat, channels, bits),
{
    let width: usize = (bits / 8) as usize;
    assert(width * channels <= 0x1fff * 0xffff) by (nonlinear_arith)
        requires
            width <= 0x1fff,
            channels <= 0xffff,
    ;
    let frame_bytes: usize = width * channels as usize;
    let mut out: Vec<Sample> = Vec::new();
    let mut base: usize = 0;
    assert(0 * frame_bytes == 0) by (nonlinear_arith);
    for f in 0..frames
        invariant
            width == bits / 8,
            frame_bytes == bits / 8 * channels,
            base == f * frame_bytes,
            frames * frame_bytes + width <= usize::MAX,
            out@ == stereo(data@, f as nat, channels, bits),
    {
        proof {
            assert((f + 1) * frame_bytes == f * frame_bytes + frame_bytes) by (nonlinear_arith);
            assert((f + 1) * frame_bytes <= frames * frame_bytes) by (nonlinear_arith)
                requires
                    f + 1 <= frames,
            ;
            if channels >= 2 {
                assert(frame_bytes >= 2 * width) by (nonlinear_arith)
                    requires
                        frame_bytes == width * channels,
                        channels >= 2,
                ;
            }
        }
        let left = read_sample(data, base, bits);
        let right = if channels >= 2 {
            read_sample(data, base + width, bits)
        } else {
            left
        };
        out.push(left);
        out.push(right);
        base = base + frame_bytes;
    }
    out
}

/// A packet of samples: silence where the endpoint says so or hands out no data.
pub open spec fn packet_samples(
    data: Option<Seq<u8>>,
    silent: bool,
    frames: nat,
    channels: u16,
    bits: u16,
) -> Seq<Sample> {
    match data {
        Some(bytes) if !silent => stereo(bytes, frames, channels, bits),
        _ => Seq::new(2 * frames, |i: int| Sample::Silence),
    }
}

/// Convert a packet that an endpoint delivered to interleaved stereo.
pub fn decode_packet(data: Option<&[u8]>, silent: bool, frames: usize, channels: u16, bits: u16) -> (r: Vec<
    Sample,
>)
    requires
        frames * (bits / 8 * channels) + bits / 8 <= usize::MAX,
    ensures
        r@ == packet_samples(
            match data {
                Some(bytes) => Some(bytes@),
                None => None,
            },
            silent,
            frames as nat,
            channels,
            bits,
        ),
{
    if let Some(bytes) = data {
        if !silent {
            return to_stereo(bytes, frames, channels, bits);
        }
    }
    let mut out: Vec<Sample> = Vec::new();
    for f in 0..frames
        invariant
            out@ == Seq::new(2 * f as nat, |i: int| Sample::Silence),
    {
        out.push(Sample::Silence);
        out.push(Sample::Silence);
        assert(out@ =~= Seq::new((2 * (f + 1)) as nat, |i: int| Sample::Silence));
    }
    out
}

/// Where a channel's audio is captured.
#[derive(Debug, Clone)]
pub enum Endpoint {
    /// What the default output device plays.
    DefaultRender,
    /// The default microphone.
    DefaultCapture,
    /// The microphone with this id.
    CaptureById(String),
    /// What a process (and its children) plays.
    Process(u32),
}

/// What a channel captures is looped back from an output.
pub open spec fn is_looped_back(capture: CaptureView) -> bool {
    match capture {
        CaptureView::SystemLoopback => true,
        CaptureView::Microphone { .. } => false,
        CaptureView::Application { .. } => true,
    }
}

/// Where a channel's audio is captured, and whether it is looped back from an
/// output.
pub fn endpoint_for(capture: &AudioCapture) -> (r: (Endpoint, bool))
    ensures
        match capture@ {
            CaptureView::SystemLoopback => r.0 is DefaultRender && r.1,
            CaptureView::Microphone { device_id: Some(id) } => !r.1 && match r.0 {
                Endpoint::CaptureById(found) => found@ == id,
                _ => false,
            },
            CaptureView::Microphone { device_id: None } => r.0 is DefaultCapture && !r.1,
            CaptureView::Application { process_id } => r == (Endpoint::Process(process_id), true),
        },
        r.1 == is_looped_back(capture@),
{
    match capture {
        AudioCapture::SystemLoopback => (Endpoint::DefaultRender, true),
        AudioCapture::Microphone { device_id } => match device_id {
            Some(id) => (Endpoint::CaptureById(id.clone()), false),
            None => (Endpoint::DefaultCapture, false),
        },
        AudioCapture::Application { process_id } => (Endpoint::Process(*process_id), true),
    }
}

/// A signed 16-bit number as an unsigned one with the same bits.
pub open spec fn bits16(n: i16) -> int {
    if n >= 0 {
        n as int
    } else {
        n + 65536
    }
}

/// Samples as little-endian bytes.
pub open spec fn s16le(samples: Seq<i16>) -> Seq<u8>
    decreases samples.len(),
{
    if samples.len() == 0 {
        seq![]
    } else {
        s16le(samples.drop_last()).push((bits16(samples.last()) % 256) as u8).push(
            (bits16(samples.last()) / 256) as u8,
        )
    }
}

/// The mixed samples as FFmpeg takes them: signed 16-bit, little-endian.
pub fn pcm_bytes(samples: &[i16]) -> (r: Vec<u8>)
    ensures
        r@ == s16le(samples@),
{
    let mut out: Vec<u8> = Vec::new();
    let n: usize = samples.len();
    for i in 0..n
        invariant
            n == samples@.len(),
            out@ == s16le(samples@.take(i as int)),
    {
        proof {
            let seen = samples@.take(i + 1);
            assert(seen.drop_last() =~= samples@.take(i as int));
            assert(seen.last() == samples@[i as int]);
        }
        let s: i32 = samples[i] as i32;
        let bits: i32 = if s >= 0 {
            s
        } else {
            s + 65536
        };
        out.push((bits % 256) as u8);
        out.push((bits / 256) as u8);
    }
    assert(samples@.take(n as int) =~= samples@);
    out
}

/// What the mixer writes is what a 16-bit little-endian reader reads back.
pub proof fn pcm_reads_back(samples: Seq<i16>, i: int)
    requires
        0 <= i < samples.len(),
    ensures
        s16le(samples).len() == 2 * samples.len(),
        le16(s16le(samples), 2 * i) == samples[i],
    decreases samples.len(),
{
    let head = samples.drop_last();
    if i < head.len() {
        pcm_reads_back(head, i);
        assert(s16le(samples)[2 * i] == s16le(head)[2 * i]);
        assert(s16le(samples)[2 * i + 1] == s16le(head)[2 * i + 1]);
    } else if head.len() > 0 {
        pcm_reads_back(head, 0);
    } else {
        assert(s16le(head).len() == 0);
    }
}

/// A tick's slice and a ring's capacity, in samples: ten milliseconds and one
/// second of stereo.
pub proof fn buffers_match_the_sample_rate()
    ensures
        SAMPLES_PER_TICK == SAMPLE_RATE as int * TICK_MS as int / 1000 * CHANNELS as int,
        RING_CAP == SAMPLE_RATE * CHANNELS,
{
}

/// A block converts to two samples per frame.
pub proof fn stereo_has_two_samples_per_frame(data: Seq<u8>, frames: nat, channels: u16, bits: u16)
    ensures
        stereo(data, frames, channels, bits).len() == 2 * frames,
    decreases frames,
{
    if frames > 0 {
        stereo_has_two_samples_per_frame(data, (frames - 1) as nat, channels, bits);
    }
}

/// A 32-bit sample reads back from its little-endian bytes, wherever they stand.
pub proof fn float_samples_read_back(before: Seq<u8>, n: u32, after: Seq<u8>)
    ensures
        ({
            let bytes = seq![
                (n % 256) as u8,
                (n / 256 % 256) as u8,
                (n / 65536 % 256) as u8,
                (n / 16777216) as u8,
            ];
            sample_at(before + bytes + after, before.len() as int, 32) == Sample::Float(n)
        }),
{
    let bytes = seq![
        (n % 256) as u8,
        (n / 256 % 256) as u8,
        (n / 65536 % 256) as u8,
        (n / 16777216) as u8,
    ];
    let data = before + bytes + after;
    let at = before.len() as int;
    assert(data[at] == bytes[0] && data[at + 1] == bytes[1] && data[at + 2] == bytes[2] && data[at + 3]
        == bytes[3]);
    assert(n == n % 256 + 256 * (n / 256 % 256) + 65536 * (n / 65536 % 256) + 16777216 * (n / 16777216));
}

/// A 16-bit sample reads back from the bytes that the mixer would write for it,
/// wherever they stand.
pub proof fn integer_samples_read_back(before: Seq<u8>, n: i16, after: Seq<u8>)
    ensures
        sample_at(before + s16le(seq![n]) + after, before.len() as int, 16) == Sample::Int16(n),
{
    pcm_reads_back(seq![n], 0);
    let data = before + s16le(seq![n]) + after;
    let at = before.len() as int;
    assert(data[at] == s16le(seq![n])[0]);
    assert(data[at + 1] == s16le(seq![n])[1]);
}

/// Frame after frame, the left and the right of the result are the first two
/// channels of the frame, or its only one twice; what is cut off is silent.
pub proof fn frames_keep_their_sides(data: Seq<u8>, frames: nat, channels: u16, bits: u16, f: int)
    requires
        0 <= f < frames,
    ensures
        ({
            let r = packet_samples(Some(data), false, frames, channels, bits);
            let width = bits / 8;
            let at = f * (width * channels);
            &&& r.len() == 2 * frames
            &&& r[2 * f] == sample_at(data, at, bits)
            &&& channels >= 2 ==> r[2 * f + 1] == sample_at(data, at + width, bits)
            &&& channels < 2 ==> r[2 * f + 1] == r[2 * f]
            &&& at >= data.len() && width > 0 ==> r[2 * f] == Sample::Silence
            &&& bits != 32 && bits != 16 ==> r[2 * f] == Sample::Silence
        }),
    decreases frames,
{
    stereo_has_two_samples_per_frame(data, frames, channels, bits);
    stereo_has_two_samples_per_frame(data, (frames - 1) as nat, channels, bits);
    if f < frames - 1 {
        frames_keep_their_sides(data, (frames - 1) as nat, channels, bits, f);
        let before = stereo(data, (frames - 1) as nat, channels, bits);
        assert(stereo(data, frames, channels, bits)[2 * f] == before[2 * f]);
        assert(stereo(data, frames, channels, bits)[2 * f + 1] == before[2 * f + 1]);
    }
}

/// A packet that is silent or holds no data is two silent samples per frame.
pub proof fn silent_packets_are_silent(data: Option<Seq<u8>>, frames: nat, channels: u16, bits: u16, i: int)
    requires
        0 <= i < 2 * frames,
    ensures
        packet_samples(data, true, frames, channels, bits).len() == 2 * frames,
        packet_samples(data, true, frames, channels, bits)[i] == Sample::Silence,
        packet_samples(None, false, frames, channels, bits) == packet_samples(
            data,
            true,
            frames,
            channels,
            bits,
        ),
{
}

/// A ring holds the samples that came last, in the order of coming, up to one second
/// of them: the last one that was fed is the last one it holds.
pub proof fn rings_hold_what_came_last(held: Seq<u32>, fed: Seq<u32>, i: int)
    requires
        0 <= i < fed.len(),
        i < 96000,
    ensures
        ({
            let after = newest(held + fed);
            &&& after.len() <= 96000
            &&& held.len() + fed.len() <= 96000 ==> after == held + fed
            &&& held.len() + fed.len() > 96000 ==> after.len() == 96000
            &&& after[after.len() - 1 - i] == fed[fed.len() - 1 - i]
        }),
{
}

/// What FFmpeg is fed is little-endian: the low byte of every sample comes first,
/// and both bytes together are the sample, in two's complement.
pub proof fn pcm_is_little_endian(samples: Seq<i16>, i: int)
    requires
        0 <= i < samples.len(),
    ensures
        s16le(samples).len() == 2 * samples.len(),
        ({
            let word = s16le(samples)[2 * i] + 256 * s16le(samples)[2 * i + 1];
            samples[i] == word || samples[i] == word - 65536
        }),
    decreases samples.len(),
{
    let head = samples.drop_last();
    if i < head.len() {
        pcm_is_little_endian(head, i);
        assert(s16le(samples)[2 * i] == s16le(head)[2 * i]);
        assert(s16le(samples)[2 * i + 1] == s16le(head)[2 * i + 1]);
    } else {
        if head.len() > 0 {
            pcm_is_little_endian(head, 0);
        } else {
            assert(s16le(head).len() == 0);
        }
        let bits = bits16(samples.last());
        assert(s16le(samples)[2 * i] == bits % 256);
        assert(s16le(samples)[2 * i + 1] == bits / 256);
    }
}

/// Every endpoint that has an id is offered as a microphone, under its name or, if it has
/// none, as one; an endpoint without an id is not.
pub proof fn endpoints_with_an_id_are_offered(records: Seq<EndpointRecord>, i: int)
    ensures
        0 <= i < records.len() && records[i].id is Some ==> exists|j: int|
            0 <= j < usable_endpoints(records).len() && (#[trigger] usable_endpoints(records)[j]).id
                == records[i].id->0@ && (records[i].name is Some ==> usable_endpoints(records)[j].name
                == records[i].name->0@) && (records[i].name is None ==> usable_endpoints(records)[j].name
                == "Microphone"@),
        0 <= i < usable_endpoints(records).len() ==> exists|j: int|
            0 <= j < records.len() && (#[trigger] records[j]).id is Some && usable_endpoints(records)[i].id
                == records[j].id->0@,
        usable_endpoints(records).len() <= records.len(),
    decreases records.len(),
{
    if records.len() > 0 {
        let head = records.drop_last();
        let before = usable_endpoints(head);
        let all = usable_endpoints(records);
        endpoints_with_an_id_are_offered(head, i);
        if 0 <= i < records.len() && records[i].id is Some {
            if i < head.len() {
                assert(head[i] == records[i]);
                let j = choose|j: int|
                    0 <= j < before.len() && (#[trigger] before[j]).id == records[i].id->0@ && (records[i].name
                        is Some ==> before[j].name == records[i].name->0@) && (records[i].name is None
                        ==> before[j].name == "Microphone"@);
                assert(all[j] == before[j]);
            } else {
                assert(all[all.len() - 1].id == records[i].id->0@);
            }
        }
        if 0 <= i < all.len() {
            if i < before.len() {
                let j = choose|j: int|
                    0 <= j < head.len() && (#[trigger] head[j]).id is Some && before[i].id == head[j].id->0@;
                assert(records[j] == head[j]);
            } else {
                assert(records[records.len() - 1].id is Some);
            }
        }
    }
}

/// A channel is live exactly if its capture did not fail, and the live ones stand in the
/// order of the mixer.
pub proof fn live_channels_did_not_fail(failures: Seq<Option<EncoderError>>, i: int)
    requires
        failures.len() <= usize::MAX,
    ensures
        0 <= i < failures.len() ==> (live_channels(failures).contains(i as usize) <==> failures[i] is None),
        forall|k: int| 0 <= k < live_channels(failures).len() ==> (#[trigger] live_channels(failures)[k])
            < failures.len(),
        forall|k: int, m: int|
            0 <= k < m < live_channels(failures).len() ==> (#[trigger] live_channels(failures)[k])
                < #[trigger] live_channels(failures)[m],
    decreases failures.len(),
{
    if failures.len() > 0 {
        let head = failures.drop_last();
        let before = live_channels(head);
        let all = live_channels(failures);
        live_channels_did_not_fail(head, i);
        if 0 <= i < failures.len() {
            if i < head.len() {
                assert(head[i] == failures[i]);
                if before.contains(i as usize) {
                    assert(all[before.index_of(i as usize)] == i as usize);
                }
                if all.contains(i as usize) {
                    let k = all.index_of(i as usize);
                    assert(k < before.len() ==> before[k] == i as usize);
                    assert(k < before.len());
                }
            } else if failures[i] is None {
                assert(all[before.len() as int] == i as usize);
            } else if all.contains(i as usize) {
                let k = all.index_of(i as usize);
                assert(before[k] < head.len());
            }
        }
    }
}

/// Each channel that failed is warned of once, under its label and with the reason; a
/// mixer whose channels all failed is warned of last, and a shared mix first.
pub proof fn failed_channels_are_warned_of(
    plan: Seq<ChannelView>,
    shared: bool,
    failures: Seq<Option<EncoderError>>,
    i: int,
)
    requires
        failures.len() == plan.len(),
        0 <= i < failures.len(),
        failures[i] is Some,
    ensures
        start_warnings(plan, true, shared, failures).contains(
            "'"@ + plan[i].label + "' capture failed: "@ + (failures[i]->0)@.message(),
        ),
        live_channels(failures).len() == 0 ==> start_warnings(plan, true, shared, failures).last()
            == "no audio channel could be started; streaming video only"@,
        shared ==> start_warnings(plan, true, shared, failures)[0]
            == "application audio cannot be captured on its own; using the desktop mix instead"@,
        start_warnings(plan, false, shared, failures) == seq!["audio capture is only supported on Windows"@],
{
    warnings_name_the_channel(plan, failures, i);
    let warning = "'"@ + plan[i].label + "' capture failed: "@ + (failures[i]->0)@.message();
    let middle = channel_warnings(plan, failures);
    let all = start_warnings(plan, true, shared, failures);
    let k = middle.index_of(warning);
    if shared {
        assert(all[k + 1] == warning);
    } else {
        assert(all[k] == warning);
    }
}

proof fn warnings_name_the_channel(plan: Seq<ChannelView>, failures: Seq<Option<EncoderError>>, i: int)
    requires
        0 <= i < failures.len(),
        failures[i] is Some,
    ensures
        channel_warnings(plan, failures).contains(
            "'"@ + plan[i].label + "' capture failed: "@ + (failures[i]->0)@.message(),
        ),
    decreases failures.len(),
{
    let head = failures.drop_last();
    let all = channel_warnings(plan, failures);
    let warning = "'"@ + plan[i].label + "' capture failed: "@ + (failures[i]->0)@.message();
    if i < head.len() {
        assert(head[i] == failures[i]);
        warnings_name_the_channel(plan, head, i);
        let before = channel_warnings(plan, head);
        assert(all[before.index_of(warning)] == warning);
    } else {
        assert(all[all.len() - 1] == warning);
    }
}

/// There is nothing to warn of where every channel was captured on its own.
pub proof fn captured_channels_are_not_warned_of(plan: Seq<ChannelView>, failures: Seq<Option<EncoderError>>)
    requires
        failures.len() == plan.len(),
        forall|i: int| 0 <= i < failures.len() ==> (#[trigger] failures[i]) is None,
    ensures
        start_warnings(plan, true, false, failures).len() == 0,
        live_channels(failures).len() == failures.len(),
    decreases failures.len(),
{
    if failures.len() > 0 {
        let head = failures.drop_last();
        assert(forall|i: int| 0 <= i < head.len() ==> #[trigger] head[i] == failures[i]);
        assert(failures[failures.len() - 1] is None);
        captured_channels_are_not_warned_of(plan.drop_last(), head);
        no_failure_no_warning(plan, head);
    }
}

proof fn no_failure_no_warning(plan: Seq<ChannelView>, failures: Seq<Option<EncoderError>>)
    requires
        forall|i: int| 0 <= i < failures.len() ==> (#[trigger] failures[i]) is None,
    ensures
        channel_warnings(plan, failures).len() == 0,
    decreases failures.len(),
{
    if failures.len() > 0 {
        let head = failures.drop_last();
        assert(forall|i: int| 0 <= i < head.len() ==> #[trigger] head[i] == failures[i]);
        assert(failures[failures.len() - 1] is None);
        no_failure_no_warning(plan, head);
    }
}

/// Microphones are offered in the order in which the system reports them: more of them only
/// add to the list.
pub proof fn endpoints_keep_their_order(first: Seq<EndpointRecord>, more: Seq<EndpointRecord>)
    ensures
        usable_endpoints(first + more) == usable_endpoints(first) + usable_endpoints(more),
    decreases more.len(),
{
    if more.len() == 0 {
        assert(first + more =~= first);
        assert(usable_endpoints(first) + usable_endpoints(more) =~= usable_endpoints(first));
    } else {
        assert((first + more).drop_last() =~= first + more.drop_last());
        endpoints_keep_their_order(first, more.drop_last());
        assert(usable_endpoints(first + more) =~= usable_endpoints(first) + usable_endpoints(more));
    }
}

/// What is played is looped back; only what is spoken into a microphone is not.
pub proof fn only_microphones_are_not_looped_back(capture: CaptureView)
    ensures
        is_looped_back(capture) <==> !(capture is Microphone),
{
}

} // verus!
