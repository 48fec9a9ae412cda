//! SMPTE ST 2110 output via GStreamer.
//!
//! ST 2110 is fundamentally different from the SRT path: it carries
//! *uncompressed* essence over RTP/UDP (usually multicast) with PTP timing,
//! so it is not "just another FFmpeg output URL". We drive it with GStreamer,
//! which has mature RFC 4175 (2110-20 video) and L24 (2110-30 audio) payloaders
//! plus a PTP clock, and which can source a capture device directly.
//!
//! This module builds the plan, the arguments and the SDP; it spawns nothing.

use vstd::prelude::*;
use vstd::string::*;

use crate::error;
use crate::error::EncoderError;
use crate::error::ErrorView;
use crate::error::Result;
use crate::ipv4::Ipv4Addr;
use crate::ipv4;
use crate::presets::QualityPreset;
use crate::presets::ScanMode;
use crate::text;

verus! {

/// RTP clock rate for video RTP (90 kHz, fixed by RFC 4175 / ST 2110-20).
pub const VIDEO_CLOCK_RATE: u32 = 90000;

/// L24 audio essence: 48 kHz, 24-bit, stereo (ST 2110-30, class defaults).
pub const AUDIO_SAMPLE_RATE: u32 = 48000;

pub const AUDIO_CHANNELS: u32 = 2;

/// RTP MTU tuned so RFC 4175 lines pack into standard 1500-byte frames.
pub const RTP_MTU: u32 = 1420;

/// A validated ST 2110 RTP essence destination.
#[derive(Debug, Clone, Copy, PartialEq, Eq, Structural)]
pub struct EssenceTarget {
    pub ip: Ipv4Addr,
    pub port: u16,
    pub multicast: bool,
}

/// Audio essence (ST 2110-30) plan.
#[derive(Debug, Clone, Copy, PartialEq, Eq, Structural)]
pub struct Gst2110Audio {
    pub target: EssenceTarget,
    pub payload_type: u8,
    pub sample_rate: u32,
    pub channels: u32,
}

/// Everything needed to assemble an ST 2110 GStreamer invocation + SDP.
#[derive(Debug, Clone, PartialEq, Eq)]
pub struct Gst2110Plan {
    /// DirectShow friendly name of the capture device.
    pub device_name: String,
    pub width: u32,
    pub height: u32,
    pub frame_rate: u32,
    pub interlaced: bool,
    pub video: EssenceTarget,
    pub video_payload_type: u8,
    /// PTP (ST 2059) domain the media network runs on.
    pub ptp_domain: u8,
    /// Local NIC identifier for multicast egress (empty = OS default).
    pub interface: Option<String>,
    pub audio: Option<Gst2110Audio>,
}

/// A plan with its strings as characters.
pub struct Gst2110View {
    pub device_name: Seq<char>,
    pub width: u32,
    pub height: u32,
    pub frame_rate: u32,
    pub interlaced: bool,
    pub video: EssenceTarget,
    pub video_payload_type: u8,
    pub ptp_domain: u8,
    pub interface: Option<Seq<char>>,
    pub audio: Option<Gst2110Audio>,
}

impl View for EssenceTarget {
    type V = EssenceTarget;

    open spec fn view(&self) -> EssenceTarget {
        *self
    }
}

impl View for Gst2110Plan {
    type V = Gst2110View;

    open spec fn view(&self) -> Gst2110View {
        Gst2110View {
            device_name: self.device_name@,
            width: self.width,
            height: self.height,
            frame_rate: self.frame_rate,
            interlaced: self.interlaced,
            video: self.video,
            video_payload_type: self.video_payload_type,
            ptp_domain: self.ptp_domain,
            interface: text::opt_text(self.interface),
            audio: self.audio,
        }
    }
}

/// The destination that an address and a port mean, or why they mean none.
pub open spec fn target_of(ip: Seq<char>, port: u16) -> std::result::Result<EssenceTarget, ErrorView> {
    let ip = text::trimmed(ip);
    match ipv4::addr_of(ip) {
        None => Err(
            ErrorView::Config("ST 2110 destination '"@ + ip + "' is not a valid IPv4 address"@),
        ),
        Some(addr) => if port == 0 {
            Err(ErrorView::Config("ST 2110 destination port must be 1-65535"@))
        } else {
            Ok(EssenceTarget { ip: addr, port, multicast: addr.multicast() })
        },
    }
}

impl EssenceTarget {
    pub fn parse(ip: &str, port: u16) -> (r: Result<Self>)
        ensures
            error::outcome(r) == target_of(ip@, port),
    {
        let ip = text::trim(ip);
        match Ipv4Addr::parse(ip) {
            None => Err(
                EncoderError::Config(
                    "ST 2110 destination '".to_string().concat(ip).concat(
                        "' is not a valid IPv4 address",
                    ),
                ),
            ),
            Some(addr) => {
                if port == 0 {
                    return Err(
                        EncoderError::Config("ST 2110 destination port must be 1-65535".to_string()),
                    );
                }
                Ok(EssenceTarget { ip: addr, port, multicast: addr.is_multicast() })
            },
        }
    }
}

/// The plan for a profile and validated destinations, or why there is none.
pub open spec fn planned(
    device_name: Seq<char>,
    preset: QualityPreset,
    video: EssenceTarget,
    video_payload_type: u8,
    ptp_domain: u8,
    interface: Option<Seq<char>>,
    audio: Option<Gst2110Audio>,
) -> std::result::Result<Gst2110View, ErrorView> {
    if text::trimmed(device_name).len() == 0 {
        Err(ErrorView::Config("no capture device selected for ST 2110 output"@))
    } else if !(96 <= video_payload_type <= 127) {
        Err(
            ErrorView::Config(
                "ST 2110 payload type "@ + text::decimal(video_payload_type as nat)
                    + " must be a dynamic type (96-127)"@,
            ),
        )
    } else {
        Ok(
            Gst2110View {
                device_name: text::trimmed(device_name),
                width: preset.width,
                height: preset.height,
                frame_rate: preset.frame_rate,
                interlaced: preset.scan == ScanMode::Interlaced,
                video,
                video_payload_type,
                ptp_domain,
                interface,
                audio,
            },
        )
    }
}

/// `elements` with the gst-launch link operator between them.
pub open spec fn linked(elements: Seq<Seq<char>>) -> Seq<Seq<char>>
    decreases elements.len(),
{
    if elements.len() == 0 {
        seq![]
    } else if elements.len() == 1 {
        seq![elements[0]]
    } else {
        linked(elements.drop_last()) + seq!["!"@, elements.last()]
    }
}

/// The address that the SDP names as the sender.
pub open spec fn sender(source_ip: Seq<char>) -> Seq<char> {
    if text::trimmed(source_ip).len() == 0 {
        "0.0.0.0"@
    } else {
        text::trimmed(source_ip)
    }
}

impl Gst2110View {
    pub open spec fn interlace_mode(self) -> Seq<char> {
        if self.interlaced {
            "interleaved"@
        } else {
            "progressive"@
        }
    }

    /// Sink properties that both essences share.
    pub open spec fn sink_options(self) -> Seq<Seq<char>> {
        let shared = seq!["auto-multicast=true"@, "ttl-mc=16"@];
        match self.interface {
            Some(iface) => if text::trimmed(iface).len() == 0 {
                shared
            } else {
                shared.push("multicast-iface="@ + text::trimmed(iface))
            },
            None => shared,
        }
    }

    /// The element that sends an essence to its destination.
    pub open spec fn sink(self, target: EssenceTarget) -> Seq<char> {
        "udpsink host="@ + target.ip.dotted() + " port="@ + text::decimal(target.port as nat) + " "@
            + text::joined(self.sink_options(), " "@)
    }

    pub open spec fn raster_caps(self) -> Seq<char> {
        "video/x-raw,width="@ + text::decimal(self.width as nat) + ",height="@ + text::decimal(
            self.height as nat,
        ) + ",framerate="@ + text::decimal(self.frame_rate as nat) + "/1,interlace-mode="@
            + self.interlace_mode()
    }

    pub open spec fn payloaded_caps(self) -> Seq<char> {
        "application/x-rtp,media=video,clock-rate="@ + text::decimal(VIDEO_CLOCK_RATE as nat)
            + ",encoding-name=RAW,sampling=YCbCr-4:2:2,depth=(string)10,width=(string)"@ + text::decimal(
            self.width as nat,
        ) + ",height=(string)"@ + text::decimal(self.height as nat)
    }

    /// The video branch (ST 2110-20): the device as 10-bit 4:2:2, payloaded and sent.
    pub open spec fn video_chain(self) -> Seq<Seq<char>> {
        seq![
            "dshowvideosrc device-name=\""@ + self.device_name + "\""@,
            "queue"@,
            "videoconvert"@,
            "video/x-raw,format=I422_10LE"@,
            self.raster_caps(),
            "rtpvrawpay pt="@ + text::decimal(self.video_payload_type as nat) + " mtu="@ + text::decimal(
                RTP_MTU as nat,
            ),
            self.payloaded_caps(),
            self.sink(self.video),
        ]
    }

    /// The audio branch (ST 2110-30): L24, payloaded and sent.
    pub open spec fn audio_chain(self, audio: Gst2110Audio) -> Seq<Seq<char>> {
        seq![
            "dshowaudiosrc"@,
            "queue"@,
            "audioconvert"@,
            "audioresample"@,
            "audio/x-raw,rate="@ + text::decimal(audio.sample_rate as nat) + ",channels="@ + text::decimal(
                audio.channels as nat,
            ) + ",format=S24BE"@,
            "rtpL24pay pt="@ + text::decimal(audio.payload_type as nat) + " mtu="@ + text::decimal(
                RTP_MTU as nat,
            ),
            self.sink(audio.target),
        ]
    }

    /// The `gst-launch-1.0` arguments: independent chains for video and audio.
    pub open spec fn pipeline_args(self) -> Seq<Seq<char>> {
        seq!["-e"@, "-v"@] + linked(self.video_chain()) + (match self.audio {
            Some(audio) => seq!["\n"@] + linked(self.audio_chain(audio)),
            None => seq![],
        })
    }

    pub open spec fn refclk(self) -> Seq<char> {
        "ts-refclk:ptp=IEEE1588-2008:traceable:"@ + text::decimal(self.ptp_domain as nat)
    }

    pub open spec fn fmtp_params(self) -> Seq<Seq<char>> {
        seq![
            "sampling=YCbCr-4:2:2"@,
            "width="@ + text::decimal(self.width as nat),
            "height="@ + text::decimal(self.height as nat),
            "exactframerate="@ + text::decimal(self.frame_rate as nat),
            "depth=10"@,
            "TCS=SDR"@,
            "colorimetry=BT709"@,
            "PM=2110GPM"@,
            "SSN=ST2110-20:2017"@,
            "TP=2110TPN"@,
        ] + (if self.interlaced {
            seq!["interlace"@]
        } else {
            seq![]
        })
    }

    pub open spec fn fmtp(self) -> Seq<char> {
        text::joined(self.fmtp_params(), "; "@)
    }

    pub open spec fn session_lines(self, source_ip: Seq<char>) -> Seq<char> {
        "v=0\r\n"@ + "o=- 0 0 IN IP4 "@ + sender(source_ip) + "\r\n"@
            + "s=RHEncoder ST 2110 Stream\r\n"@ + "t=0 0\r\n"@
    }

    pub open spec fn video_lines(self) -> Seq<char> {
        let pt = text::decimal(self.video_payload_type as nat);
        "m=video "@ + text::decimal(self.video.port as nat) + " RTP/AVP "@ + pt + "\r\n"@
            + "c=IN IP4 "@ + self.video.ip.dotted() + "/64\r\n"@ + "a=rtpmap:"@ + pt + " raw/"@
            + text::decimal(VIDEO_CLOCK_RATE as nat) + "\r\n"@ + "a=fmtp:"@ + pt + " "@ + self.fmtp()
            + "\r\n"@ + "a=mediaclk:direct=0\r\n"@ + "a="@ + self.refclk() + "\r\n"@
    }

    pub open spec fn audio_lines(self, audio: Gst2110Audio) -> Seq<char> {
        let pt = text::decimal(audio.payload_type as nat);
        "m=audio "@ + text::decimal(audio.target.port as nat) + " RTP/AVP "@ + pt + "\r\n"@
            + "c=IN IP4 "@ + audio.target.ip.dotted() + "/64\r\n"@ + "a=rtpmap:"@ + pt + " L24/"@
            + text::decimal(audio.sample_rate as nat) + "/"@ + text::decimal(audio.channels as nat)
            + "\r\n"@ + "a=ptime:1\r\n"@ + "a=mediaclk:direct=0\r\n"@ + "a="@ + self.refclk() + "\r\n"@
    }

    /// The SDP that receivers subscribe with.
    pub open spec fn sdp(self, source_ip: Seq<char>) -> Seq<char> {
        self.session_lines(source_ip) + self.video_lines() + (match self.audio {
            Some(audio) => self.audio_lines(audio),
            None => Seq::empty(),
        })
    }
}

impl Gst2110Plan {
    /// Resolve a plan from a broadcast profile + validated destinations.
    pub fn from_profile(
        device_name: &str,
        preset: &QualityPreset,
        video: EssenceTarget,
        video_payload_type: u8,
        ptp_domain: u8,
        interface: Option<String>,
        audio: Option<Gst2110Audio>,
    ) -> (r: Result<Self>)
        ensures
            error::outcome(r) == planned(
                device_name@,
                *preset,
                video,
                video_payload_type,
                ptp_domain,
                text::opt_text(interface),
                audio,
            ),
    {
        let device = text::trim(device_name);
        if device.unicode_len() == 0 {
            return Err(
                EncoderError::Config("no capture device selected for ST 2110 output".to_string()),
            );
        }
        if !(96 <= video_payload_type && video_payload_type <= 127) {
            return Err(
                EncoderError::Config(
                    "ST 2110 payload type ".to_string().concat(
                        text::number(video_payload_type as u64).as_str(),
                    ).concat(" must be a dynamic type (96-127)"),
                ),
            );
        }
        Ok(
            Gst2110Plan {
                device_name: device.to_string(),
                width: preset.width,
                height: preset.height,
                frame_rate: preset.frame_rate,
                interlaced: preset.scan.is_interlaced(),
                video,
                video_payload_type,
                ptp_domain,
                interface,
                audio,
            },
        )
    }

    fn interlace_mode(&self) -> (r: &'static str)
        ensures
            r@ == self@.interlace_mode(),
    {
        if self.interlaced {
            "interleaved"
        } else {
            "progressive"
        }
    }

    fn udpsink_extra(&self) -> (r: Vec<String>)
        ensures
            text::texts(r@) == self@.sink_options(),
    {
        let mut args: Vec<String> = Vec::new();
        text::push_all(&mut args, &["auto-multicast=true", "ttl-mc=16"]);
        if let Some(iface) = &self.interface {
            let iface = text::trim(iface.as_str());
            if iface.unicode_len() > 0 {
                text::push_text(&mut args, "multicast-iface=".to_string().concat(iface));
            }
        }
        assert(text::texts(args@) =~= self@.sink_options());
        args
    }

    fn udpsink(&self, target: EssenceTarget) -> (r: String)
        ensures
            r@ == self@.sink(target),
    {
        let extra = self.udpsink_extra();
        "udpsink host=".to_string().concat(target.ip.to_text().as_str()).concat(" port=").concat(
            text::number(target.port as u64).as_str(),
        ).concat(" ").concat(text::join(&extra, " ").as_str())
    }

    fn video_elements(&self) -> (r: Vec<String>)
        ensures
            text::texts(r@) == self@.video_chain(),
    {
        let source = "dshowvideosrc device-name=\"".to_string().concat(
            self.device_name.as_str(),
        ).concat("\"");
        let width = text::number(self.width as u64);
        let height = text::number(self.height as u64);
        let raster_caps = "video/x-raw,width=".to_string().concat(width.as_str()).concat(
            ",height=",
        ).concat(height.as_str()).concat(",framerate=").concat(
            text::number(self.frame_rate as u64).as_str(),
        ).concat("/1,interlace-mode=").concat(self.interlace_mode());
        let payloader = "rtpvrawpay pt=".to_string().concat(
            text::number(self.video_payload_type as u64).as_str(),
        ).concat(" mtu=").concat(text::number(RTP_MTU as u64).as_str());
        let payloaded_caps = "application/x-rtp,media=video,clock-rate=".to_string().concat(
            text::number(VIDEO_CLOCK_RATE as u64).as_str(),
        ).concat(
            ",encoding-name=RAW,sampling=YCbCr-4:2:2,depth=(string)10,width=(string)",
        ).concat(width.as_str()).concat(",height=(string)").concat(height.as_str());
        let sink = self.udpsink(self.video);
        let mut chain: Vec<String> = Vec::new();
        text::push_all(
            &mut chain,
            &[
                source.as_str(),
                "queue",
                "videoconvert",
                "video/x-raw,format=I422_10LE",
                raster_caps.as_str(),
                payloader.as_str(),
                payloaded_caps.as_str(),
                sink.as_str(),
            ],
        );
        assert(text::texts(chain@) =~= self@.video_chain());
        chain
    }

    fn audio_elements(&self, audio: &Gst2110Audio) -> (r: Vec<String>)
        ensures
            text::texts(r@) == self@.audio_chain(*audio),
    {
        let caps = "audio/x-raw,rate=".to_string().concat(
            text::number(audio.sample_rate as u64).as_str(),
        ).concat(",channels=").concat(text::number(audio.channels as u64).as_str()).concat(
            ",format=S24BE",
        );
        let payloader = "rtpL24pay pt=".to_string().concat(
            text::number(audio.payload_type as u64).as_str(),
        ).concat(" mtu=").concat(text::number(RTP_MTU as u64).as_str());
        let sink = self.udpsink(audio.target);
        let mut chain: Vec<String> = Vec::new();
        text::push_all(
            &mut chain,
            &[
                "dshowaudiosrc",
                "queue",
                "audioconvert",
                "audioresample",
                caps.as_str(),
                payloader.as_str(),
                sink.as_str(),
            ],
        );
        assert(text::texts(chain@) =~= self@.audio_chain(*audio));
        chain
    }

    /// Build the `gst-launch-1.0` argument vector (excluding the program name).
    ///
    /// The pipeline sources the DirectShow device, converts to 10-bit 4:2:2,
    /// RFC 4175 payloads it (ST 2110-20), and sends it over UDP. When audio is
    /// enabled a parallel L24 (ST 2110-30) branch is appended.
    pub fn build_pipeline_args(&self) -> (r: Vec<String>)
        ensures
            text::texts(r@) == self@.pipeline_args(),
    {
        let mut args: Vec<String> = Vec::new();
        text::push_all(&mut args, &["-e", "-v"]);
        assert(text::texts(args@) =~= seq!["-e"@, "-v"@]);

        // gst-launch expresses linked elements as `a ! b ! c`. Separate parallel
        // branches (video, audio) are independent top-level chains.
        push_linked(&mut args, &self.video_elements());
        if let Some(audio) = &self.audio {
            text::push_all(&mut args, &["\n"]);
            push_linked(&mut args, &self.audio_elements(audio));
        }
        assert(text::texts(args@) =~= self@.pipeline_args());
        args
    }

    /// Whether the media network clock is expressed as a PTP reference in the SDP.
    fn ptp_refclk(&self) -> (r: String)
        ensures
            r@ == self@.refclk(),
    {
        // Grandmaster identity is unknown until PTP locks; SDP carries the domain
        // and a traceable clock, receivers match on the actual gmid at runtime.
        "ts-refclk:ptp=IEEE1588-2008:traceable:".to_string().concat(
            text::number(self.ptp_domain as u64).as_str(),
        )
    }

    fn video_media(&self) -> (r: String)
        ensures
            r@ == self@.video_lines(),
    {
        let pt = text::number(self.video_payload_type as u64);
        "m=video ".to_string().concat(text::number(self.video.port as u64).as_str()).concat(
            " RTP/AVP ",
        ).concat(pt.as_str()).concat("\r\n").concat("c=IN IP4 ").concat(
            self.video.ip.to_text().as_str(),
        ).concat("/64\r\n").concat("a=rtpmap:").concat(pt.as_str()).concat(" raw/").concat(
            text::number(VIDEO_CLOCK_RATE as u64).as_str(),
        ).concat("\r\n").concat("a=fmtp:").concat(pt.as_str()).concat(" ").concat(
            self.video_fmtp().as_str(),
        ).concat("\r\n").concat("a=mediaclk:direct=0\r\n").concat("a=").concat(
            self.ptp_refclk().as_str(),
        ).concat("\r\n")
    }

    fn audio_media(&self, audio: &Gst2110Audio) -> (r: String)
        ensures
            r@ == self@.audio_lines(*audio),
    {
        let pt = text::number(audio.payload_type as u64);
        // 1 ms packet time is the ST 2110-30 default (48 samples @ 48 kHz).
        "m=audio ".to_string().concat(text::number(audio.target.port as u64).as_str()).concat(
            " RTP/AVP ",
        ).concat(pt.as_str()).concat("\r\n").concat("c=IN IP4 ").concat(
            audio.target.ip.to_text().as_str(),
        ).concat("/64\r\n").concat("a=rtpmap:").concat(pt.as_str()).concat(" L24/").concat(
            text::number(audio.sample_rate as u64).as_str(),
        ).concat("/").concat(text::number(audio.channels as u64).as_str()).concat("\r\n").concat(
            "a=ptime:1\r\n",
        ).concat("a=mediaclk:direct=0\r\n").concat("a=").concat(self.ptp_refclk().as_str()).concat(
            "\r\n",
        )
    }

    /// Generate the session SDP receivers use to subscribe to this stream.
    ///
    /// Follows the ST 2110-20 SDP conventions (RFC 4175 media, `fmtp` with
    /// sampling / depth / colorimetry, `ts-refclk` PTP + `mediaclk:direct`).
    pub fn to_sdp(&self, source_ip: &str) -> (r: String)
        ensures
            r@ == self@.sdp(source_ip@),
    {
        let mut sdp = "v=0\r\n".to_string().concat("o=- 0 0 IN IP4 ").concat(
            sdp_source(source_ip).as_str(),
        ).concat("\r\n").concat("s=RHEncoder ST 2110 Stream\r\n").concat("t=0 0\r\n");
        sdp.append(self.video_media().as_str());
        if let Some(audio) = &self.audio {
            sdp.append(self.audio_media(audio).as_str());
        }
        assert(sdp@ =~= self@.sdp(source_ip@));
        sdp
    }

    fn video_fmtp(&self) -> (r: String)
        ensures
            r@ == self@.fmtp(),
    {
        let width = "width=".to_string().concat(text::number(self.width as u64).as_str());
        let height = "height=".to_string().concat(text::number(self.height as u64).as_str());
        let rate = "exactframerate=".to_string().concat(text::number(self.frame_rate as u64).as_str());
        let mut params: Vec<String> = Vec::new();
        text::push_all(
            &mut params,
            &[
                "sampling=YCbCr-4:2:2",
                width.as_str(),
                height.as_str(),
                rate.as_str(),
                "depth=10",
                "TCS=SDR",
                "colorimetry=BT709",
                "PM=2110GPM",
                "SSN=ST2110-20:2017",
                "TP=2110TPN",
            ],
        );
        if self.interlaced {
            text::push_all(&mut params, &["interlace"]);
        }
        assert(text::texts(params@) =~= self@.fmtp_params());
        text::join(&params, "; ")
    }
}

fn sdp_source(source_ip: &str) -> (r: String)
    ensures
        r@ == sender(source_ip@),
{
    let ip = text::trim(source_ip);
    if ip.unicode_len() == 0 {
        "0.0.0.0".to_string()
    } else {
        ip.to_string()
    }
}

/// Append `elements` joined by the gst-launch link operator ` ! `.
fn push_linked(out: &mut Vec<String>, elements: &Vec<String>)
    ensures
        text::texts(final(out)@) == text::texts(old(out)@) + linked(text::texts(elements@)),
{
    let ghost before = text::texts(out@);
    let ghost all = text::texts(elements@);
    let n: usize = elements.len();
    assert(all.take(0) =~= Seq::empty());
    assert(before + linked(all.take(0)) =~= before);
    for i in 0..n
        invariant
            n == elements@.len(),
            all == text::texts(elements@),
            text::texts(out@) == before + linked(all.take(i as int)),
    {
        let ghost sofar = text::texts(out@);
        if i > 0 {
            text::push_all(out, &["!"]);
        }
        text::push_text(out, elements[i].clone());
        proof {
            let next = all.take(i + 1);
            assert(next.drop_last() =~= all.take(i as int));
            assert(next.last() == elements@[i as int]@);
            assert(text::texts(out@) =~= before + linked(next));
        }
    }
    assert(all.take(n as int) =~= all);
}

/// Adding audio leaves the video chain alone: it appends one independent chain.
pub proof fn audio_is_a_parallel_branch(plan: Gst2110View, audio: Gst2110Audio)
    requires
        plan.audio == Some(audio),
    ensures
        plan.pipeline_args() == (Gst2110View { audio: None, ..plan }).pipeline_args() + seq!["\n"@]
            + linked(plan.audio_chain(audio)),
{
    let silent = Gst2110View { audio: None, ..plan };
    assert(silent.video_chain() =~= plan.video_chain());
    assert(plan.pipeline_args() =~= silent.pipeline_args() + seq!["\n"@] + linked(
        plan.audio_chain(audio),
    ));
}

/// The SDP of a plan with audio is that of the plan without it, followed by the
/// audio media section.
pub proof fn audio_media_follows_video(plan: Gst2110View, audio: Gst2110Audio, source_ip: Seq<char>)
    requires
        plan.audio == Some(audio),
    ensures
        plan.sdp(source_ip) == (Gst2110View { audio: None, ..plan }).sdp(source_ip)
            + plan.audio_lines(audio),
{
    let silent = Gst2110View { audio: None, ..plan };
    assert(silent.video_lines() == plan.video_lines());
    assert(plan.sdp(source_ip) =~= silent.sdp(source_ip) + plan.audio_lines(audio));
}

/// An accepted plan has a device, a dynamic payload type and the profile's
/// geometry and scan.
pub proof fn accepted_plans_are_playable(
    device_name: Seq<char>,
    preset: QualityPreset,
    video: EssenceTarget,
    video_payload_type: u8,
    ptp_domain: u8,
    interface: Option<Seq<char>>,
    audio: Option<Gst2110Audio>,
)
    ensures
        match planned(device_name, preset, video, video_payload_type, ptp_domain, interface, audio) {
            Ok(plan) => {
                &&& plan.device_name.len() > 0
                &&& 96 <= plan.video_payload_type <= 127
                &&& plan.width == preset.width && plan.height == preset.height
                &&& plan.frame_rate == preset.frame_rate
                &&& plan.interlaced == (preset.scan == ScanMode::Interlaced)
            },
            Err(_) => text::trimmed(device_name).len() == 0 || video_payload_type < 96
                || video_payload_type > 127,
        },
{
}

/// Linked elements stand in their order, with the link operator between them.
pub proof fn links_keep_the_order(elements: Seq<Seq<char>>, i: int)
    requires
        0 <= i < elements.len(),
    ensures
        linked(elements).len() == 2 * elements.len() - 1,
        linked(elements)[2 * i] == elements[i],
        i > 0 ==> linked(elements)[2 * i - 1] == "!"@,
    decreases elements.len(),
{
    if elements.len() > 1 {
        let head = elements.drop_last();
        if i < head.len() {
            links_keep_the_order(head, i);
            assert(head[i] == elements[i]);
        } else {
            links_keep_the_order(head, 0);
        }
    }
}

/// A literal before a number lacks what neither holds.
proof fn labels_lack(label: Seq<char>, n: nat, c: char)
    requires
        text::lacks(label, c),
        !text::is_digit(c),
    ensures
        text::lacks(label + text::decimal(n), c),
{
    text::decimals_lack(n, c);
    let s = label + text::decimal(n);
    assert forall|i: int| 0 <= i < s.len() implies #[trigger] s[i] != c by {
        if i < label.len() {
            assert(s[i] == label[i]);
        } else {
            assert(s[i] == text::decimal(n)[i - label.len()]);
        }
    }
}

/// The raw video caps, comma by comma.
#[verifier::spinoff_prover]
proof fn raster_caps_are_read(plan: Gst2110View)
    ensures
        text::pieces(plan.raster_caps(), ',') == seq![
            "video/x-raw"@,
            "width="@ + text::decimal(plan.width as nat),
            "height="@ + text::decimal(plan.height as nat),
            "framerate="@ + text::decimal(plan.frame_rate as nat) + "/1"@,
            "interlace-mode="@ + (if plan.interlaced {
                "interleaved"@
            } else {
                "progressive"@
            }),
        ],
{
    reveal_strlit("video/x-raw");
    reveal_strlit("video/x-raw,width=");
    reveal_strlit("width=");
    reveal_strlit("height=");
    reveal_strlit(",height=");
    reveal_strlit("framerate=");
    reveal_strlit(",framerate=");
    reveal_strlit("/1");
    reveal_strlit("/1,interlace-mode=");
    reveal_strlit("interlace-mode=");
    reveal_strlit("interleaved");
    reveal_strlit("progressive");
    let comma = seq![','];
    let a = "video/x-raw"@;
    let w = "width="@ + text::decimal(plan.width as nat);
    let h = "height="@ + text::decimal(plan.height as nat);
    let f0 = "framerate="@ + text::decimal(plan.frame_rate as nat);
    let f = f0 + "/1"@;
    let m = "interlace-mode="@ + plan.interlace_mode();
    labels_lack("width="@, plan.width as nat, ',');
    labels_lack("height="@, plan.height as nat, ',');
    labels_lack("framerate="@, plan.frame_rate as nat, ',');
    assert forall|i: int| 0 <= i < f.len() implies #[trigger] f[i] != ',' by {
        if i < f0.len() {
            assert(f[i] == f0[i]);
        }
    }
    assert(text::lacks(m, ','));
    text::pieces_split(f, ',', m);
    text::pieces_split(h, ',', f + comma + m);
    text::pieces_split(w, ',', h + comma + (f + comma + m));
    text::pieces_split(a, ',', w + comma + (h + comma + (f + comma + m)));
    assert("video/x-raw,width="@ =~= a + comma + "width="@);
    assert(",height="@ =~= comma + "height="@);
    assert(",framerate="@ =~= comma + "framerate="@);
    assert("/1,interlace-mode="@ =~= "/1"@ + comma + "interlace-mode="@);
    assert(plan.raster_caps() =~= a + comma + (w + comma + (h + comma + (f + comma + m))));
}

/// The payloaded video caps, comma by comma.
#[verifier::spinoff_prover]
proof fn payloaded_caps_are_read(plan: Gst2110View)
    ensures
        text::pieces(plan.payloaded_caps(), ',') == seq![
            "application/x-rtp"@,
            "media=video"@,
            "clock-rate="@ + text::decimal(90000),
            "encoding-name=RAW"@,
            "sampling=YCbCr-4:2:2"@,
            "depth=(string)10"@,
            "width=(string)"@ + text::decimal(plan.width as nat),
            "height=(string)"@ + text::decimal(plan.height as nat),
        ],
{
    reveal_strlit("application/x-rtp");
    reveal_strlit("media=video");
    reveal_strlit("clock-rate=");
    reveal_strlit("application/x-rtp,media=video,clock-rate=");
    reveal_strlit("encoding-name=RAW");
    reveal_strlit("sampling=YCbCr-4:2:2");
    reveal_strlit("depth=(string)10");
    reveal_strlit("width=(string)");
    reveal_strlit(",encoding-name=RAW,sampling=YCbCr-4:2:2,depth=(string)10,width=(string)");
    reveal_strlit("height=(string)");
    reveal_strlit(",height=(string)");
    let comma = seq![','];
    let a = "application/x-rtp"@;
    let b = "media=video"@;
    let c = "clock-rate="@ + text::decimal(90000);
    let d = "encoding-name=RAW"@;
    let e = "sampling=YCbCr-4:2:2"@;
    let f = "depth=(string)10"@;
    let w = "width=(string)"@ + text::decimal(plan.width as nat);
    let h = "height=(string)"@ + text::decimal(plan.height as nat);
    labels_lack("clock-rate="@, 90000, ',');
    labels_lack("width=(string)"@, plan.width as nat, ',');
    labels_lack("height=(string)"@, plan.height as nat, ',');
    let r7 = w + comma + h;
    let r6 = f + comma + r7;
    let r5 = e + comma + r6;
    let r4 = d + comma + r5;
    let r3 = c + comma + r4;
    let r2 = b + comma + r3;
    text::pieces_split(w, ',', h);
    text::pieces_split(f, ',', r7);
    text::pieces_split(e, ',', r6);
    text::pieces_split(d, ',', r5);
    text::pieces_split(c, ',', r4);
    text::pieces_split(b, ',', r3);
    text::pieces_split(a, ',', r2);
    assert("application/x-rtp,media=video,clock-rate="@ =~= a + comma + b + comma + "clock-rate="@);
    let middle = ",encoding-name=RAW,sampling=YCbCr-4:2:2,depth=(string)10,width=(string)"@;
    assert(middle =~= comma + d + comma + e + comma + f + comma + "width=(string)"@);
    assert(",height=(string)"@ =~= comma + "height=(string)"@);
    let lead = a + comma + b + comma + c;
    assert("application/x-rtp,media=video,clock-rate="@ + text::decimal(90000) =~= lead);
    let tail = text::decimal(plan.width as nat) + ",height=(string)"@ + text::decimal(plan.height as nat);
    assert(plan.payloaded_caps() =~= lead + (middle + tail));
    assert(middle + tail =~= comma + r4);
    assert(lead + (comma + r4) =~= a + comma + r2);
}

/// The pipeline sends what the plan says: the device's video as 10-bit 4:2:2 with
/// the plan's width, height, frame rate and scan, payloaded under the plan's payload
/// type with the same width and height, and sent to the plan's address and port.
pub proof fn pipelines_follow_the_plan(plan: Gst2110View)
    ensures
        ({
            let args = plan.pipeline_args();
            let width = text::decimal(plan.width as nat);
            let height = text::decimal(plan.height as nat);
            let raster = text::pieces(args[10], ',');
            let payloaded = text::pieces(args[14], ',');
            &&& args.len() >= 17
            &&& args[2] == "dshowvideosrc device-name=\""@ + plan.device_name + "\""@
            &&& args[0] == "-e"@ && args[1] == "-v"@
            &&& args[4] == "queue"@ && args[6] == "videoconvert"@
            &&& args[8] == "video/x-raw,format=I422_10LE"@
            &&& raster.len() == 5 && raster[0] == "video/x-raw"@
            &&& raster[1] == "width="@ + width && raster[2] == "height="@ + height
            &&& raster[3] == "framerate="@ + text::decimal(plan.frame_rate as nat) + "/1"@
            &&& plan.interlaced ==> raster[4] == "interlace-mode="@ + "interleaved"@
            &&& !plan.interlaced ==> raster[4] == "interlace-mode="@ + "progressive"@
            &&& payloaded.len() == 8 && payloaded[0] == "application/x-rtp"@
            &&& payloaded.contains("width=(string)"@ + width) && payloaded.contains(
                "height=(string)"@ + height,
            )
            &&& payloaded.contains("sampling=YCbCr-4:2:2"@) && payloaded.contains("depth=(string)10"@)
            &&& payloaded.contains("clock-rate="@ + text::decimal(90000))
            &&& args[12] == "rtpvrawpay pt="@ + text::decimal(plan.video_payload_type as nat) + " mtu="@
                + text::decimal(1420)
            &&& text::begins_with(
                args[16],
                "udpsink host="@ + plan.video.ip.dotted() + " port="@ + text::decimal(plan.video.port as nat)
                    + " auto-multicast=true ttl-mc=16"@,
            )
            &&& forall|i: int| 3 <= i < 17 && i % 2 == 1 ==> #[trigger] args[i] == "!"@
            &&& plan.audio is None <==> args.len() == 17
        }),
{
    let chain = plan.video_chain();
    let args = plan.pipeline_args();
    assert forall|i: int| 0 <= i < 8 implies args[2 + 2 * i] == #[trigger] chain[i] && (i > 0 ==> args[1 + 2 * i]
        == "!"@) by {
        links_keep_the_order(chain, i);
    }
    links_keep_the_order(chain, 0);
    assert(args[2] == chain[0]);
    assert(args[4] == chain[1] && args[6] == chain[2]);
    assert(args[8] == chain[3]);
    assert(args[10] == chain[4]);
    assert(args[12] == chain[5]);
    assert(args[14] == chain[6]);
    assert(args[16] == chain[7]);
    assert forall|i: int| 3 <= i < 17 && i % 2 == 1 implies #[trigger] args[i] == "!"@ by {
        let j = (i - 1) / 2;
        assert(args[2 + 2 * j] == chain[j]);
        assert(i == 1 + 2 * j);
    }
    raster_caps_are_read(plan);
    payloaded_caps_are_read(plan);
    let payloaded = text::pieces(args[14], ',');
    assert(payloaded[6] == "width=(string)"@ + text::decimal(plan.width as nat));
    assert(payloaded[7] == "height=(string)"@ + text::decimal(plan.height as nat));
    assert(payloaded[4] == "sampling=YCbCr-4:2:2"@);
    assert(payloaded[5] == "depth=(string)10"@);
    assert(payloaded[2] == "clock-rate="@ + text::decimal(90000));
    sinks_name_the_target(plan, plan.video);
}

/// An essence is sent to the target's address and port, and leaves by the interface
/// that the plan names, if it names one.
pub proof fn sinks_name_the_target(plan: Gst2110View, target: EssenceTarget)
    ensures
        ({
            let lead = "udpsink host="@ + target.ip.dotted() + " port="@ + text::decimal(target.port as nat)
                + " auto-multicast=true ttl-mc=16"@;
            &&& text::begins_with(plan.sink(target), lead)
            &&& plan.interface is None ==> plan.sink(target) == lead
            &&& plan.interface is Some && text::trimmed(plan.interface->0).len() > 0 ==> plan.sink(target) == lead
                + " multicast-iface="@ + text::trimmed(plan.interface->0)
            &&& plan.interface is Some && text::trimmed(plan.interface->0).len() == 0 ==> plan.sink(target)
                == lead
        }),
{
    reveal_strlit(" ");
    reveal_strlit(" auto-multicast=true ttl-mc=16");
    reveal_strlit("auto-multicast=true");
    reveal_strlit("ttl-mc=16");
    reveal_strlit(" multicast-iface=");
    reveal_strlit("multicast-iface=");
    let shared = seq!["auto-multicast=true"@, "ttl-mc=16"@];
    let start = "udpsink host="@ + target.ip.dotted() + " port="@ + text::decimal(target.port as nat);
    let lead = start + " auto-multicast=true ttl-mc=16"@;
    reveal_with_fuel(text::joined, 4);
    assert(shared.drop_last() =~= seq!["auto-multicast=true"@]);
    assert(text::joined(shared, " "@) =~= "auto-multicast=true"@ + " "@ + "ttl-mc=16"@);
    assert(" auto-multicast=true ttl-mc=16"@ =~= " "@ + text::joined(shared, " "@));
    let options = plan.sink_options();
    if options.len() == 2 {
        assert(plan.sink(target) =~= lead);
    } else {
        let iface = text::trimmed(plan.interface->0);
        assert(options.drop_last() =~= shared);
        assert(text::joined(options, " "@) =~= text::joined(shared, " "@) + " "@ + ("multicast-iface="@ + iface));
        assert(" multicast-iface="@ =~= " "@ + "multicast-iface="@);
        assert(plan.sink(target) =~= lead + " multicast-iface="@ + iface);
    }
    assert(plan.sink(target).subrange(0, lead.len() as int) =~= lead);
}

/// The format parameters of the video hold no line feed.
#[verifier::spinoff_prover]
proof fn parameters_are_one_line(plan: Gst2110View, c: char)
    requires
        c == '\n' || c == ';',
    ensures
        forall|i: int| 0 <= i < plan.fmtp_params().len() ==> text::lacks(#[trigger] plan.fmtp_params()[i], c),
        c == '\n' ==> text::lacks(plan.fmtp(), c),
{
    reveal_strlit("sampling=YCbCr-4:2:2");
    reveal_strlit("width=");
    reveal_strlit("height=");
    reveal_strlit("exactframerate=");
    reveal_strlit("depth=10");
    reveal_strlit("TCS=SDR");
    reveal_strlit("colorimetry=BT709");
    reveal_strlit("PM=2110GPM");
    reveal_strlit("SSN=ST2110-20:2017");
    reveal_strlit("TP=2110TPN");
    reveal_strlit("interlace");
    reveal_strlit("; ");
    labels_lack("width="@, plan.width as nat, c);
    labels_lack("height="@, plan.height as nat, c);
    labels_lack("exactframerate="@, plan.frame_rate as nat, c);
    assert(text::lacks("sampling=YCbCr-4:2:2"@, c));
    assert(text::lacks("depth=10"@, c));
    assert(text::lacks("TCS=SDR"@, c));
    assert(text::lacks("colorimetry=BT709"@, c));
    assert(text::lacks("PM=2110GPM"@, c));
    assert(text::lacks("SSN=ST2110-20:2017"@, c));
    assert(text::lacks("TP=2110TPN"@, c));
    assert(text::lacks("interlace"@, c));
    if c == '\n' {
        text::joined_lacks(plan.fmtp_params(), "; "@, c);
    }
}

/// The lines of the video media section.
#[verifier::rlimit(60)]
#[verifier::spinoff_prover]
proof fn video_section_is_read(plan: Gst2110View, rest: Seq<char>)
    ensures
        ({
            let pt = text::decimal(plan.video_payload_type as nat);
            text::lines_of(plan.video_lines() + rest) == seq![
                "m=video "@ + text::decimal(plan.video.port as nat) + " RTP/AVP "@ + pt,
                "c=IN IP4 "@ + plan.video.ip.dotted() + "/64"@,
                "a=rtpmap:"@ + pt + " raw/"@ + text::decimal(90000),
                "a=fmtp:"@ + pt + " "@ + plan.fmtp(),
                "a=mediaclk:direct=0"@,
                "a="@ + plan.refclk(),
            ] + text::lines_of(rest)
        }),
{
    let c = '\n';
    let e = "\r\n"@;
    let pt = text::decimal(plan.video_payload_type as nat);
    let port = text::decimal(plan.video.port as nat);
    let dotted = plan.video.ip.dotted();
    text::decimals_lack(plan.video_payload_type as nat, c);
    text::decimals_lack(plan.video.port as nat, c);
    text::decimals_lack(90000, c);
    text::decimals_lack(plan.ptp_domain as nat, c);
    ipv4::octets_stand_in_order(plan.video.ip);
    assert(text::lacks(dotted, c));
    parameters_are_one_line(plan, c);
    let l1 = "m=video "@ + port + " RTP/AVP "@ + pt;
    let l2 = "c=IN IP4 "@ + dotted + "/64"@;
    let l3 = "a=rtpmap:"@ + pt + " raw/"@ + text::decimal(90000);
    let l4 = "a=fmtp:"@ + pt + " "@ + plan.fmtp();
    let l5 = "a=mediaclk:direct=0"@;
    let l6 = "a="@ + plan.refclk();
    section_labels();
    text::both_lack("m=video "@, port, c);
    text::both_lack("m=video "@ + port, " RTP/AVP "@, c);
    text::both_lack("m=video "@ + port + " RTP/AVP "@, pt, c);
    text::both_lack("c=IN IP4 "@, dotted, c);
    text::both_lack("c=IN IP4 "@ + dotted, "/64"@, c);
    text::both_lack("a=rtpmap:"@, pt, c);
    text::both_lack("a=rtpmap:"@ + pt, " raw/"@, c);
    text::both_lack("a=rtpmap:"@ + pt + " raw/"@, text::decimal(90000), c);
    text::both_lack("a=fmtp:"@, pt, c);
    text::both_lack("a=fmtp:"@ + pt, " "@, c);
    text::both_lack("a=fmtp:"@ + pt + " "@, plan.fmtp(), c);
    text::both_lack("ts-refclk:ptp=IEEE1588-2008:traceable:"@, text::decimal(plan.ptp_domain as nat), c);
    text::both_lack("a="@, plan.refclk(), c);
    let t6 = l6 + e + rest;
    let t5 = l5 + e + t6;
    let t4 = l4 + e + t5;
    let t3 = l3 + e + t4;
    let t2 = l2 + e + t3;
    let t1 = l1 + e + t2;
    text::first_line_is_read(l6, rest);
    text::first_line_is_read(l5, t6);
    text::first_line_is_read(l4, t5);
    text::first_line_is_read(l3, t4);
    text::first_line_is_read(l2, t3);
    text::first_line_is_read(l1, t2);
    let s1 = l1 + e;
    let s2 = s1 + "c=IN IP4 "@ + dotted + "/64\r\n"@;
    let s3 = s2 + "a=rtpmap:"@ + pt + " raw/"@ + text::decimal(90000) + e;
    let s4 = s3 + "a=fmtp:"@ + pt + " "@ + plan.fmtp() + e;
    let s5 = s4 + "a=mediaclk:direct=0\r\n"@;
    let s6 = s5 + "a="@ + plan.refclk() + e;
    assert(plan.video_lines() == s6);
    assert(s2 =~= s1 + (l2 + e));
    assert(s3 =~= s2 + (l3 + e));
    assert(s4 =~= s3 + (l4 + e));
    assert(s5 =~= s4 + (l5 + e));
    assert(s6 =~= s5 + (l6 + e));
    assert(s6 + rest =~= s5 + t6);
    assert(s5 + t6 =~= s4 + t5);
    assert(s4 + t5 =~= s3 + t4);
    assert(s3 + t4 =~= s2 + t3);
    assert(s2 + t3 =~= t1);
    assert(text::lines_of(t1) =~= seq![l1, l2, l3, l4, l5, l6] + text::lines_of(rest));
}

/// What the lines of the media sections are made of holds no line feed.
proof fn section_labels()
    ensures
        text::lacks("m=video "@, '\n'),
        text::lacks("m=audio "@, '\n'),
        text::lacks(" RTP/AVP "@, '\n'),
        text::lacks("c=IN IP4 "@, '\n'),
        text::lacks("/64"@, '\n'),
        text::lacks("a=rtpmap:"@, '\n'),
        text::lacks(" raw/"@, '\n'),
        text::lacks(" L24/"@, '\n'),
        text::lacks("/"@, '\n'),
        text::lacks("a=fmtp:"@, '\n'),
        text::lacks(" "@, '\n'),
        text::lacks("a=mediaclk:direct=0"@, '\n'),
        text::lacks("a=ptime:1"@, '\n'),
        text::lacks("ts-refclk:ptp=IEEE1588-2008:traceable:"@, '\n'),
        text::lacks("a="@, '\n'),
        "/64\r\n"@ == "/64"@ + "\r\n"@,
        "a=mediaclk:direct=0\r\n"@ == "a=mediaclk:direct=0"@ + "\r\n"@,
        "a=ptime:1\r\n"@ == "a=ptime:1"@ + "\r\n"@,
{
    reveal_strlit("m=video ");
    reveal_strlit("m=audio ");
    reveal_strlit(" RTP/AVP ");
    reveal_strlit("c=IN IP4 ");
    reveal_strlit("/64");
    reveal_strlit("/64\r\n");
    reveal_strlit("\r\n");
    reveal_strlit("a=rtpmap:");
    reveal_strlit(" raw/");
    reveal_strlit(" L24/");
    reveal_strlit("/");
    reveal_strlit("a=fmtp:");
    reveal_strlit(" ");
    reveal_strlit("a=mediaclk:direct=0");
    reveal_strlit("a=mediaclk:direct=0\r\n");
    reveal_strlit("a=ptime:1");
    reveal_strlit("a=ptime:1\r\n");
    reveal_strlit("ts-refclk:ptp=IEEE1588-2008:traceable:");
    reveal_strlit("a=");
    assert("/64\r\n"@ =~= "/64"@ + "\r\n"@);
    assert("a=mediaclk:direct=0\r\n"@ =~= "a=mediaclk:direct=0"@ + "\r\n"@);
    assert("a=ptime:1\r\n"@ =~= "a=ptime:1"@ + "\r\n"@);
}

/// The lines of the audio media section.
#[verifier::spinoff_prover]
proof fn audio_section_is_read(plan: Gst2110View, audio: Gst2110Audio)
    ensures
        ({
            let pt = text::decimal(audio.payload_type as nat);
            text::lines_of(plan.audio_lines(audio)) == seq![
                "m=audio "@ + text::decimal(audio.target.port as nat) + " RTP/AVP "@ + pt,
                "c=IN IP4 "@ + audio.target.ip.dotted() + "/64"@,
                "a=rtpmap:"@ + pt + " L24/"@ + text::decimal(audio.sample_rate as nat) + "/"@ + text::decimal(
                    audio.channels as nat,
                ),
                "a=ptime:1"@,
                "a=mediaclk:direct=0"@,
                "a="@ + plan.refclk(),
            ]
        }),
{
    let c = '\n';
    let e = "\r\n"@;
    let pt = text::decimal(audio.payload_type as nat);
    let port = text::decimal(audio.target.port as nat);
    let rate = text::decimal(audio.sample_rate as nat);
    let channels = text::decimal(audio.channels as nat);
    let dotted = audio.target.ip.dotted();
    text::decimals_lack(audio.payload_type as nat, c);
    text::decimals_lack(audio.target.port as nat, c);
    text::decimals_lack(audio.sample_rate as nat, c);
    text::decimals_lack(audio.channels as nat, c);
    text::decimals_lack(plan.ptp_domain as nat, c);
    ipv4::octets_stand_in_order(audio.target.ip);
    assert(text::lacks(dotted, c));
    let l1 = "m=audio "@ + port + " RTP/AVP "@ + pt;
    let l2 = "c=IN IP4 "@ + dotted + "/64"@;
    let l3 = "a=rtpmap:"@ + pt + " L24/"@ + rate + "/"@ + channels;
    let l4 = "a=ptime:1"@;
    let l5 = "a=mediaclk:direct=0"@;
    let l6 = "a="@ + plan.refclk();
    section_labels();
    text::both_lack("m=audio "@, port, c);
    text::both_lack("m=audio "@ + port, " RTP/AVP "@, c);
    text::both_lack("m=audio "@ + port + " RTP/AVP "@, pt, c);
    text::both_lack("c=IN IP4 "@, dotted, c);
    text::both_lack("c=IN IP4 "@ + dotted, "/64"@, c);
    text::both_lack("a=rtpmap:"@, pt, c);
    text::both_lack("a=rtpmap:"@ + pt, " L24/"@, c);
    text::both_lack("a=rtpmap:"@ + pt + " L24/"@, rate, c);
    text::both_lack("a=rtpmap:"@ + pt + " L24/"@ + rate, "/"@, c);
    text::both_lack("a=rtpmap:"@ + pt + " L24/"@ + rate + "/"@, channels, c);
    text::both_lack("ts-refclk:ptp=IEEE1588-2008:traceable:"@, text::decimal(plan.ptp_domain as nat), c);
    text::both_lack("a="@, plan.refclk(), c);
    let none = Seq::<char>::empty();
    let t6 = l6 + e + none;
    let t5 = l5 + e + t6;
    let t4 = l4 + e + t5;
    let t3 = l3 + e + t4;
    let t2 = l2 + e + t3;
    let t1 = l1 + e + t2;
    text::first_line_is_read(l6, none);
    text::first_line_is_read(l5, t6);
    text::first_line_is_read(l4, t5);
    text::first_line_is_read(l3, t4);
    text::first_line_is_read(l2, t3);
    text::first_line_is_read(l1, t2);
    let s1 = l1 + e;
    let s2 = s1 + "c=IN IP4 "@ + dotted + "/64\r\n"@;
    let s3 = s2 + "a=rtpmap:"@ + pt + " L24/"@ + rate + "/"@ + channels + e;
    let s4 = s3 + "a=ptime:1\r\n"@;
    let s5 = s4 + "a=mediaclk:direct=0\r\n"@;
    let s6 = s5 + "a="@ + plan.refclk() + e;
    assert(plan.audio_lines(audio) == s6);
    assert(s2 =~= s1 + (l2 + e));
    assert(s3 =~= s2 + (l3 + e));
    assert(s4 =~= s3 + (l4 + e));
    assert(s5 =~= s4 + (l5 + e));
    assert(s6 =~= s5 + (l6 + e));
    assert(s6 =~= s5 + t6);
    assert(s5 + t6 =~= s4 + t5);
    assert(s4 + t5 =~= s3 + t4);
    assert(s3 + t4 =~= s2 + t3);
    assert(s2 + t3 =~= t1);
    assert(text::lines_of(none) =~= Seq::empty());
    assert(text::lines_of(t1) =~= seq![l1, l2, l3, l4, l5, l6]);
}

/// What a receiver reads out of the SDP is what the pipeline sends: the addresses,
/// ports and payload types of both essences, and the video's width, height, frame
/// rate and scan.
#[verifier::rlimit(60)]
#[verifier::spinoff_prover]
pub proof fn descriptions_follow_the_plan(plan: Gst2110View, source_ip: Seq<char>)
    requires
        text::lacks(source_ip, '\n'),
    ensures
        ({
            let lines = text::lines_of(plan.sdp(source_ip));
            let pt = text::decimal(plan.video_payload_type as nat);
            let format = text::pieces(lines[7], ';');
            let clock = "a=ts-refclk:ptp=IEEE1588-2008:traceable:"@ + text::decimal(plan.ptp_domain as nat);
            &&& lines[0] == "v=0"@
            &&& text::begins_with(lines[1], "o=- 0 0 IN IP4 "@)
            &&& text::trimmed(source_ip).len() > 0 ==> lines[1] == "o=- 0 0 IN IP4 "@ + text::trimmed(source_ip)
            &&& text::trimmed(source_ip).len() == 0 ==> lines[1] == "o=- 0 0 IN IP4 "@ + "0.0.0.0"@
            &&& lines[2] == "s=RHEncoder ST 2110 Stream"@ && lines[3] == "t=0 0"@
            &&& lines[4] == "m=video "@ + text::decimal(plan.video.port as nat) + " RTP/AVP "@ + pt
            &&& lines[5] == "c=IN IP4 "@ + plan.video.ip.dotted() + "/64"@
            &&& lines[6] == "a=rtpmap:"@ + pt + " raw/"@ + text::decimal(90000)
            &&& format.len() == if plan.interlaced {
                11nat
            } else {
                10nat
            }
            &&& format[0] == "a=fmtp:"@ + pt + " "@ + "sampling=YCbCr-4:2:2"@
            &&& format[1] == " width="@ + text::decimal(plan.width as nat)
            &&& format[2] == " height="@ + text::decimal(plan.height as nat)
            &&& format[3] == " exactframerate="@ + text::decimal(plan.frame_rate as nat)
            &&& format[4] == " depth=10"@ && format[5] == " TCS=SDR"@ && format[6] == " colorimetry=BT709"@
            &&& format[7] == " PM=2110GPM"@ && format[8] == " SSN=ST2110-20:2017"@ && format[9] == " TP=2110TPN"@
            &&& plan.interlaced ==> format[10] == " interlace"@
            &&& lines[8] == "a=mediaclk:direct=0"@
            &&& lines[9] == clock
            &&& match plan.audio {
                None => lines.len() == 10,
                Some(audio) => {
                    let audio_pt = text::decimal(audio.payload_type as nat);
                    &&& lines.len() == 16
                    &&& lines[10] == "m=audio "@ + text::decimal(audio.target.port as nat) + " RTP/AVP "@ + audio_pt
                    &&& lines[11] == "c=IN IP4 "@ + audio.target.ip.dotted() + "/64"@
                    &&& lines[12] == "a=rtpmap:"@ + audio_pt + " L24/"@ + text::decimal(audio.sample_rate as nat)
                        + "/"@ + text::decimal(audio.channels as nat)
                    &&& lines[13] == "a=ptime:1"@
                    &&& lines[14] == "a=mediaclk:direct=0"@
                    &&& lines[15] == clock
                },
            }
        }),
{
    let c = '\n';
    let e = "\r\n"@;
    let from = sender(source_ip);
    reveal_strlit("v=0");
    reveal_strlit("v=0\r\n");
    reveal_strlit("\r\n");
    reveal_strlit("o=- 0 0 IN IP4 ");
    reveal_strlit("0.0.0.0");
    reveal_strlit("s=RHEncoder ST 2110 Stream");
    reveal_strlit("s=RHEncoder ST 2110 Stream\r\n");
    reveal_strlit("t=0 0");
    reveal_strlit("t=0 0\r\n");
    reveal_strlit("a=");
    reveal_strlit("ts-refclk:ptp=IEEE1588-2008:traceable:");
    reveal_strlit("a=ts-refclk:ptp=IEEE1588-2008:traceable:");
    text::trimming_adds_nothing(source_ip, c);
    assert(text::lacks(from, c));
    let l1 = "o=- 0 0 IN IP4 "@ + from;
    text::both_lack("o=- 0 0 IN IP4 "@, from, c);
    let audio = match plan.audio {
        Some(audio) => plan.audio_lines(audio),
        None => Seq::empty(),
    };
    let media = plan.video_lines() + audio;
    let t3 = "t=0 0"@ + e + media;
    let t2 = "s=RHEncoder ST 2110 Stream"@ + e + t3;
    let t1 = l1 + e + t2;
    let t0 = "v=0"@ + e + t1;
    text::first_line_is_read("t=0 0"@, media);
    text::first_line_is_read("s=RHEncoder ST 2110 Stream"@, t3);
    text::first_line_is_read(l1, t2);
    text::first_line_is_read("v=0"@, t1);
    assert("v=0\r\n"@ =~= "v=0"@ + e);
    assert("s=RHEncoder ST 2110 Stream\r\n"@ =~= "s=RHEncoder ST 2110 Stream"@ + e);
    assert("t=0 0\r\n"@ =~= "t=0 0"@ + e);
    let s = plan.session_lines(source_ip);
    assert(plan.sdp(source_ip) =~= s + media);
    assert(s =~= "v=0"@ + e + (l1 + e + ("s=RHEncoder ST 2110 Stream"@ + e + ("t=0 0"@ + e))));
    assert(s + media =~= t0);
    video_section_is_read(plan, audio);
    match plan.audio {
        Some(a) => {
            audio_section_is_read(plan, a);
        },
        None => {
            assert(text::lines_of(audio) =~= Seq::empty());
        },
    }
    let lines = text::lines_of(plan.sdp(source_ip));
    assert(lines[1] == l1);
    assert(l1.subrange(0, "o=- 0 0 IN IP4 "@.len() as int) =~= "o=- 0 0 IN IP4 "@);
    assert("a=ts-refclk:ptp=IEEE1588-2008:traceable:"@ =~= "a="@ + "ts-refclk:ptp=IEEE1588-2008:traceable:"@);
    assert("a="@ + plan.refclk() =~= "a=ts-refclk:ptp=IEEE1588-2008:traceable:"@ + text::decimal(
        plan.ptp_domain as nat,
    ));
    formats_are_read(plan);
}

/// The format line of the video, semicolon by semicolon.
#[verifier::spinoff_prover]
proof fn formats_are_read(plan: Gst2110View)
    ensures
        ({
            let pt = text::decimal(plan.video_payload_type as nat);
            let format = text::pieces("a=fmtp:"@ + pt + " "@ + plan.fmtp(), ';');
            &&& format.len() == if plan.interlaced {
                11nat
            } else {
                10nat
            }
            &&& format[0] == "a=fmtp:"@ + pt + " "@ + "sampling=YCbCr-4:2:2"@
            &&& format[1] == " width="@ + text::decimal(plan.width as nat)
            &&& format[2] == " height="@ + text::decimal(plan.height as nat)
            &&& format[3] == " exactframerate="@ + text::decimal(plan.frame_rate as nat)
            &&& format[4] == " depth=10"@ && format[5] == " TCS=SDR"@ && format[6] == " colorimetry=BT709"@
            &&& format[7] == " PM=2110GPM"@ && format[8] == " SSN=ST2110-20:2017"@ && format[9] == " TP=2110TPN"@
            &&& plan.interlaced ==> format[10] == " interlace"@
        }),
{
    let pt = text::decimal(plan.video_payload_type as nat);
    let lead = "a=fmtp:"@ + pt + " "@;
    let params = plan.fmtp_params();
    reveal_strlit("a=fmtp:");
    reveal_strlit(" ");
    reveal_strlit("; ");
    text::decimals_lack(plan.video_payload_type as nat, ';');
    text::both_lack("a=fmtp:"@, pt, ';');
    text::both_lack("a=fmtp:"@ + pt, " "@, ';');
    parameters_are_one_line(plan, ';');
    assert("; "@ =~= seq![';'] + " "@);
    text::padded_parts_are_pieces(lead, params, ';', " "@);
    reveal_strlit("width=");
    reveal_strlit(" width=");
    reveal_strlit("height=");
    reveal_strlit(" height=");
    reveal_strlit("exactframerate=");
    reveal_strlit(" exactframerate=");
    reveal_strlit("depth=10");
    reveal_strlit(" depth=10");
    reveal_strlit("interlace");
    reveal_strlit(" interlace");
    assert(" "@ + ("width="@ + text::decimal(plan.width as nat)) =~= " width="@ + text::decimal(plan.width as nat));
    assert(" "@ + ("height="@ + text::decimal(plan.height as nat)) =~= " height="@ + text::decimal(
        plan.height as nat,
    ));
    assert(" "@ + ("exactframerate="@ + text::decimal(plan.frame_rate as nat)) =~= " exactframerate="@
        + text::decimal(plan.frame_rate as nat));
    assert(" "@ + "depth=10"@ =~= " depth=10"@);
    reveal_strlit("TCS=SDR");
    reveal_strlit(" TCS=SDR");
    reveal_strlit("colorimetry=BT709");
    reveal_strlit(" colorimetry=BT709");
    reveal_strlit("PM=2110GPM");
    reveal_strlit(" PM=2110GPM");
    reveal_strlit("SSN=ST2110-20:2017");
    reveal_strlit(" SSN=ST2110-20:2017");
    reveal_strlit("TP=2110TPN");
    reveal_strlit(" TP=2110TPN");
    assert(" "@ + "TCS=SDR"@ =~= " TCS=SDR"@);
    assert(" "@ + "colorimetry=BT709"@ =~= " colorimetry=BT709"@);
    assert(" "@ + "PM=2110GPM"@ =~= " PM=2110GPM"@);
    assert(" "@ + "SSN=ST2110-20:2017"@ =~= " SSN=ST2110-20:2017"@);
    assert(" "@ + "TP=2110TPN"@ =~= " TP=2110TPN"@);
    assert(" "@ + "interlace"@ =~= " interlace"@);
}

/// Audio is sent as big-endian 24-bit samples at the plan's rate and with its
/// channels, under its own payload type and to its own address and port.
pub proof fn sound_follows_the_plan(plan: Gst2110View, audio: Gst2110Audio)
    requires
        plan.audio == Some(audio),
    ensures
        ({
            let args = plan.pipeline_args();
            let caps = text::pieces(args[26], ',');
            &&& args.len() == 31
            &&& args[17] == "\n"@ && args[18] == "dshowaudiosrc"@ && args[20] == "queue"@
            &&& args[22] == "audioconvert"@ && args[24] == "audioresample"@
            &&& caps.len() == 4 && caps[0] == "audio/x-raw"@
            &&& caps[1] == "rate="@ + text::decimal(audio.sample_rate as nat)
            &&& caps[2] == "channels="@ + text::decimal(audio.channels as nat)
            &&& caps[3] == "format=S24BE"@
            &&& args[28] == "rtpL24pay pt="@ + text::decimal(audio.payload_type as nat) + " mtu="@
                + text::decimal(1420)
            &&& text::begins_with(
                args[30],
                "udpsink host="@ + audio.target.ip.dotted() + " port="@ + text::decimal(
                    audio.target.port as nat,
                ) + " auto-multicast=true ttl-mc=16"@,
            )
            &&& forall|i: int| 19 <= i < 31 && i % 2 == 1 ==> #[trigger] args[i] == "!"@
        }),
{
    let video = plan.video_chain();
    let chain = plan.audio_chain(audio);
    let args = plan.pipeline_args();
    links_keep_the_order(video, 0);
    assert forall|i: int| 0 <= i < 7 implies args[18 + 2 * i] == #[trigger] chain[i] && (i > 0 ==> args[17 + 2
        * i] == "!"@) by {
        links_keep_the_order(chain, i);
    }
    links_keep_the_order(chain, 0);
    assert(args[18] == chain[0] && args[20] == chain[1] && args[22] == chain[2] && args[24] == chain[3]);
    assert(args[26] == chain[4]);
    assert(args[28] == chain[5]);
    assert(args[30] == chain[6]);
    assert forall|i: int| 19 <= i < 31 && i % 2 == 1 implies #[trigger] args[i] == "!"@ by {
        let j = (i - 17) / 2;
        assert(args[18 + 2 * j] == chain[j]);
        assert(i == 17 + 2 * j);
    }
    sinks_name_the_target(plan, audio.target);
    reveal_strlit("audio/x-raw");
    reveal_strlit("audio/x-raw,rate=");
    reveal_strlit("rate=");
    reveal_strlit(",channels=");
    reveal_strlit("channels=");
    reveal_strlit(",format=S24BE");
    reveal_strlit("format=S24BE");
    let comma = seq![','];
    let a = "audio/x-raw"@;
    let r = "rate="@ + text::decimal(audio.sample_rate as nat);
    let c = "channels="@ + text::decimal(audio.channels as nat);
    let f = "format=S24BE"@;
    labels_lack("rate="@, audio.sample_rate as nat, ',');
    labels_lack("channels="@, audio.channels as nat, ',');
    text::pieces_split(c, ',', f);
    text::pieces_split(r, ',', c + comma + f);
    text::pieces_split(a, ',', r + comma + (c + comma + f));
    assert("audio/x-raw,rate="@ =~= a + comma + "rate="@);
    assert(",channels="@ =~= comma + "channels="@);
    assert(",format=S24BE"@ =~= comma + f);
    assert(chain[4] =~= a + comma + (r + comma + (c + comma + f)));
}

/// An address and a port that are accepted are kept as they are, and the target is
/// multicast exactly if its address is.
pub proof fn targets_are_kept(ip: ipv4::Ipv4Addr, port: u16)
    ensures
        port > 0 ==> target_of(ip.dotted(), port) == Ok::<EssenceTarget, ErrorView>(
            EssenceTarget { ip, port, multicast: ip.a / 16 == 14 },
        ),
        port == 0 ==> target_of(ip.dotted(), port) is Err,
{
    ipv4::dotted_names_one_address(ip);
    ipv4::octets_stand_in_order(ip);
    let s = ip.dotted();
    assert(text::trimmed(s) == s) by {
        text::decimal_is_plain(ip.a as nat);
        text::decimal_is_plain(ip.d as nat);
        let a = text::decimal(ip.a as nat);
        let d = text::decimal(ip.d as nat);
        assert(s[0] == a[0] && text::is_digit(a[0]));
        assert(s.last() == d.last() && text::is_digit(d[d.len() - 1]));
        text::trimmed_start_unique(s, 0);
        text::trimmed_end_unique(s, s.len() as int);
        assert(s.skip(0) =~= s);
        assert(s.take(s.len() as int) =~= s);
    }
}

/// An address that is none is refused with its own text, and a port that is none with the
/// range of ports; both are matters of configuration, and so is a plan that cannot be.
pub proof fn refused_targets_are_named(ip: Seq<char>, port: u16)
    ensures
        target_of(ip, port) matches Err(e) ==> e is Config,
        ipv4::addr_of(text::trimmed(ip)) is None ==> (target_of(ip, port) matches Err(e) && text::begins_with(
            e->Config_0,
            "ST 2110 destination '"@ + text::trimmed(ip) + "'"@,
        )),
        target_of(ip, port) is Ok <==> ipv4::addr_of(text::trimmed(ip)) is Some && port > 0,
{
    reveal_strlit("ST 2110 destination '");
    reveal_strlit("'");
    reveal_strlit("' is not a valid IPv4 address");
    let lead = "ST 2110 destination '"@ + text::trimmed(ip) + "'"@;
    let all = "ST 2110 destination '"@ + text::trimmed(ip) + "' is not a valid IPv4 address"@;
    assert(all.subrange(0, lead.len() as int) =~= lead);
}

} // verus!
