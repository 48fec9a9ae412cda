//! Client configuration + player / session identity.
//!
//! `playerId` is stable across runs (identifies the human). `sessionId` is fresh
//! per app launch (identifies one connection lifecycle), so the operator can tell
//! "Idan reconnected / restarted PC" apart in the control plane. Neither is tied
//! to a matrix input or slot — routing is server-owned.

use vstd::prelude::*;
use vstd::string::*;

use crate::presets::DEFAULT_PRESET_ID;
use crate::srt::SrtMode;
use crate::srt::DEFAULT_LATENCY_MS;
use crate::text;

verus! {

/// Maximum callers an SRT listener may serve at once.
pub const MAX_SRT_CALLERS: u8 = 3;

/// The bits of the single-precision number one.
pub const UNITY_GAIN_BITS: u32 = 0x3f80_0000;

fn default_max_callers() -> (r: u8)
    ensures
        r == 1,
{
    1
}

/// What a single mixer channel captures.
///
/// * `System`      - the default render endpoint loopback (whole desktop mix).
/// * `Microphone`  - a specific capture endpoint (by `device_id`, else default).
/// * `Application` - a single process's audio via Windows process loopback
///                   (captures the app tree rooted at `process_id`).
#[derive(Debug, Clone, Copy, PartialEq, Eq, Structural)]
pub enum AudioSourceKind {
    System,
    Microphone,
    Application,
}

impl Default for AudioSourceKind {
    fn default() -> (r: Self)
        ensures
            r == AudioSourceKind::System,
    {
        AudioSourceKind::System
    }
}

/// A linear gain, held as the bits of a single-precision number. The mixer alone
/// computes with it.
#[derive(Debug, Clone, Copy, PartialEq, Eq, Structural)]
pub struct Gain {
    pub bits: u32,
}

impl Gain {
    /// The gain that leaves a channel as it is.
    pub open spec fn one() -> Gain {
        Gain { bits: UNITY_GAIN_BITS }
    }

    pub fn unity() -> (r: Self)
        ensures
            r == Gain::one(),
    {
        Gain { bits: UNITY_GAIN_BITS }
    }
}

/// One channel in the audio mixer. Several may be active at once and are summed
/// (per-channel gain applied, then clamped) into the single broadcast track.
#[derive(Debug, Clone)]
pub struct AudioSource {
    /// Stable id for the UI. Not interpreted natively.
    pub id: String,
    pub kind: AudioSourceKind,
    pub enabled: bool,
    pub muted: bool,
    /// 0.0 - 2.0 linear gain. 1.0 is unity.
    pub gain: Gain,
    /// For `Microphone`: the capture endpoint id (empty / None = default mic).
    pub device_id: Option<String>,
    /// For `Application`: the target process id whose audio to capture.
    pub process_id: Option<u32>,
    /// Human label shown in the UI (device / app name).
    pub label: Option<String>,
}

impl AudioSource {
    /// The channel contributes to the mix.
    pub open spec fn live(self) -> bool {
        self.enabled && !self.muted
    }

    /// Whether this channel contributes to the mix (enabled and not muted).
    pub fn is_live(&self) -> (r: bool)
        ensures
            r == self.live(),
    {
        self.enabled && !self.muted
    }
}

/// The mixer configuration: an ordered list of channels.
#[derive(Debug, Clone)]
pub struct AudioConfig {
    pub sources: Vec<AudioSource>,
}

impl AudioConfig {
    /// One live channel with the desktop mix at unity gain.
    pub open spec fn is_seed(self) -> bool {
        &&& self.sources@.len() == 1
        &&& self.sources@[0].id@ == "system"@
        &&& self.sources@[0].kind == AudioSourceKind::System
        &&& self.sources@[0].enabled && !self.sources@[0].muted
        &&& self.sources@[0].gain == Gain::one()
        &&& self.sources@[0].device_id is None
        &&& self.sources@[0].process_id is None
        &&& text::opt_text(self.sources@[0].label) == Some("Desktop audio"@)
    }
}

impl Default for AudioConfig {
    fn default() -> (r: Self)
        ensures
            r.is_seed(),
    {
        // Seed with the desktop mix so program audio is captured out of the box;
        // users add microphones / per-app channels from the UI.
        let mut sources: Vec<AudioSource> = Vec::new();
        sources.push(
            AudioSource {
                id: "system".to_string(),
                kind: AudioSourceKind::System,
                enabled: true,
                muted: false,
                gain: Gain::unity(),
                device_id: None,
                process_id: None,
                label: Some("Desktop audio".to_string()),
            },
        );
        AudioConfig { sources }
    }
}

#[derive(Debug, Clone, Copy)]
pub struct EncoderConfig {
    /// Allow the CPU software fallback. Off by default for broadcast safety.
    pub allow_software: bool,
    /// Expose / use the experimental HEVC backend.
    pub experimental_hevc: bool,
}

impl Default for EncoderConfig {
    fn default() -> (r: Self)
        ensures
            !r.allow_software,
            !r.experimental_hevc,
    {
        EncoderConfig { allow_software: false, experimental_hevc: false }
    }
}

/// Where the video comes from. `Window` is the legacy game-window capture path
/// (WGC); `Device` is a physical camera / capture card exposed to Windows.
#[derive(Debug, Clone, Copy, PartialEq, Eq, Structural)]
pub enum VideoSourceKind {
    Window,
    Device,
}

impl Default for VideoSourceKind {
    fn default() -> (r: Self)
        ensures
            r == VideoSourceKind::Window,
    {
        VideoSourceKind::Window
    }
}

/// Generalized video source selection. A `Window` source keeps the persisted
/// title / process name so it re-resolves across launches (the HWND changes).
#[derive(Debug, Clone)]
pub struct VideoSourceConfig {
    pub kind: VideoSourceKind,
    /// For `Device`: the capture device's stable name (DirectShow friendly
    /// name, which both FFmpeg `-f dshow` and GStreamer `dshowvideosrc` accept).
    pub device_name: Option<String>,
    /// For `Window` (legacy): title + process, re-resolved on next launch.
    pub window_title: Option<String>,
    pub process_name: Option<String>,
}

impl VideoSourceConfig {
    /// A window that is yet to be picked.
    pub open spec fn is_unset(self) -> bool {
        &&& self.kind == VideoSourceKind::Window
        &&& self.device_name is None
        &&& self.window_title is None
        &&& self.process_name is None
    }

    /// The name of the chosen device, trimmed, unless it is blank.
    pub open spec fn device(self) -> Option<Seq<char>> {
        match self.device_name {
            Some(name) => if text::trimmed(name@).len() == 0 {
                None
            } else {
                Some(text::trimmed(name@))
            },
            None => None,
        }
    }
}

impl Default for VideoSourceConfig {
    fn default() -> (r: Self)
        ensures
            r.is_unset(),
    {
        VideoSourceConfig {
            kind: VideoSourceKind::Window,
            device_name: None,
            window_title: None,
            process_name: None,
        }
    }
}

/// Output transport family. `Srt` is the legacy compressed uplink; `St2110` is
/// uncompressed SMPTE ST 2110 over RTP for in-facility broadcast IP.
#[derive(Debug, Clone, Copy, PartialEq, Eq, Structural)]
pub enum TransportKind {
    Srt,
    St2110,
}

impl Default for TransportKind {
    fn default() -> (r: Self)
        ensures
            r == TransportKind::Srt,
    {
        TransportKind::Srt
    }
}

/// SMPTE ST 2110 output configuration. Video (2110-20) is mandatory; audio
/// (2110-30) is optional. Destinations are typically multicast group addresses.
#[derive(Debug, Clone)]
pub struct St2110Config {
    /// 2110-20 video RTP destination (multicast group or unicast host).
    pub video_dest_ip: String,
    pub video_dest_port: u16,
    /// 2110-30 audio RTP destination. Ignored when `audio_enabled` is false.
    pub audio_dest_ip: String,
    pub audio_dest_port: u16,
    /// Local NIC address to send from (empty = OS default route). Broadcast IP
    /// deployments usually pin this to the media NIC.
    pub interface_ip: String,
    /// Dynamic RTP payload type for the video essence (96-127).
    pub payload_type: u8,
    /// PTP (ST 2059) clock domain the media network runs on.
    pub ptp_domain: u8,
    /// Emit a 2110-30 PCM audio essence alongside video.
    pub audio_enabled: bool,
}

impl St2110Config {
    /// The facility defaults: two multicast groups, video with audio.
    pub open spec fn is_facility_default(self) -> bool {
        &&& self.video_dest_ip@ == "239.20.20.20"@
        &&& self.video_dest_port == 20000
        &&& self.audio_dest_ip@ == "239.20.20.30"@
        &&& self.audio_dest_port == 20030
        &&& self.interface_ip@.len() == 0
        &&& self.payload_type == 96
        &&& self.ptp_domain == 0
        &&& self.audio_enabled
    }
}

impl Default for St2110Config {
    fn default() -> (r: Self)
        ensures
            r.is_facility_default(),
    {
        St2110Config {
            video_dest_ip: "239.20.20.20".to_string(),
            video_dest_port: 20000,
            audio_dest_ip: "239.20.20.30".to_string(),
            audio_dest_port: 20030,
            interface_ip: String::new(),
            payload_type: 96,
            ptp_domain: 0,
            audio_enabled: true,
        }
    }
}

#[derive(Debug, Clone)]
pub struct ClientConfig {
    /// Stable player identity (persisted).
    pub player_id: String,
    pub display_name: String,
    /// Destination the operator handed the player (caller mode), or the
    /// advisory address the player shares with the caller (listener mode).
    pub destination_host: String,
    pub destination_port: u32,
    pub latency_ms: u32,
    /// Whether this encoder calls out (default) or listens for a puller.
    pub srt_mode: SrtMode,
    /// In listener mode, how many callers may pull at once (1-3). Each caller
    /// connects to its own consecutive port starting at `destination_port`.
    pub srt_max_callers: u8,
    /// Quality / broadcast profile id (see `presets`).
    pub preset_id: String,
    /// Output transport family (SRT legacy vs ST 2110 broadcast IP).
    pub transport: TransportKind,
    /// SMPTE ST 2110 output settings (used when `transport == St2110`).
    pub st2110: St2110Config,
    /// Generalized video source (window capture or physical device).
    pub video_source: VideoSourceConfig,
    /// Selected capture source (window). Retained for backward compatibility and
    /// mirrored from / into `video_source` so older configs keep re-resolving.
    pub source_window_title: Option<String>,
    pub source_process_name: Option<String>,
    pub audio: AudioConfig,
    pub encoder: EncoderConfig,
    /// Control-plane Control Channel endpoint, e.g. `ws://1.2.3.4:8800/ws/encoder`.
    pub control_channel_url: Option<String>,
}

/// `c` is a lower-case hexadecimal digit.
pub open spec fn is_hex(c: char) -> bool {
    '0' <= c <= '9' || 'a' <= c <= 'f'
}

/// A random (version 4) UUID in its hyphenated lower-case form.
pub open spec fn is_random_uuid(s: Seq<char>) -> bool {
    &&& s.len() == 36
    &&& s[8] == '-' && s[13] == '-' && s[18] == '-' && s[23] == '-'
    &&& forall|i: int|
        0 <= i < 36 && i != 8 && i != 13 && i != 18 && i != 23 ==> is_hex(#[trigger] s[i])
    &&& s[14] == '4'
    &&& s[19] == '8' || s[19] == '9' || s[19] == 'a' || s[19] == 'b'
}

/// `uuid::Uuid::new_v4`, written out by `Uuid`'s `Display`: 36 characters, lower-case
/// hexadecimal digits in groups of 8, 4, 4, 4 and 12 with hyphens between them,
/// the version digit 4 and one of the four variant digits. Which digits stand
/// elsewhere is left to chance.
#[verifier::external_body]
fn random_uuid() -> (r: String)
    ensures
        is_random_uuid(r@),
{
    uuid::Uuid::new_v4().to_string()
}

impl ClientConfig {
    /// The configuration of a first run, for a player with the given id.
    pub open spec fn is_first_run(self, player_id: Seq<char>) -> bool {
        &&& self.player_id@ == player_id
        &&& self.display_name@.len() == 0
        &&& self.destination_host@.len() == 0
        &&& self.destination_port == 0
        &&& self.latency_ms == DEFAULT_LATENCY_MS
        &&& self.srt_mode == SrtMode::Caller
        &&& self.srt_max_callers == 1
        &&& self.preset_id@ == DEFAULT_PRESET_ID@
        &&& self.transport == TransportKind::Srt
        &&& self.st2110.is_facility_default()
        &&& self.video_source.is_unset()
        &&& self.source_window_title is None
        &&& self.source_process_name is None
        &&& self.audio.is_seed()
        &&& !self.encoder.allow_software && !self.encoder.experimental_hevc
        &&& self.control_channel_url is None
    }

    /// The configuration of a first run. The player is named after the first
    /// eight characters of `uuid`.
    pub fn first_run(uuid: &str) -> (r: Self)
        requires
            uuid@.len() >= 8,
        ensures
            r.is_first_run("player-"@ + uuid@.take(8)),
    {
        assert(uuid@.subrange(0, 8) =~= uuid@.take(8));
        ClientConfig {
            player_id: "player-".to_string().concat(uuid.substring_char(0, 8)),
            display_name: String::new(),
            destination_host: String::new(),
            destination_port: 0,
            latency_ms: DEFAULT_LATENCY_MS,
            srt_mode: SrtMode::default(),
            srt_max_callers: default_max_callers(),
            preset_id: DEFAULT_PRESET_ID.to_string(),
            transport: TransportKind::default(),
            st2110: St2110Config::default(),
            video_source: VideoSourceConfig::default(),
            source_window_title: None,
            source_process_name: None,
            audio: AudioConfig::default(),
            encoder: EncoderConfig::default(),
            control_channel_url: None,
        }
    }
}

impl ClientConfig {
    /// Name a player who has no id after the first eight characters of `uuid`.
    pub fn adopt_player_id(&mut self, uuid: &str)
        requires
            uuid@.len() >= 8,
        ensures
            final(self).player_id@ == (if old(self).player_id@.len() == 0 {
                "player-"@ + uuid@.take(8)
            } else {
                old(self).player_id@
            }),
            *final(self) == (ClientConfig { player_id: final(self).player_id, ..*old(self) }),
    {
        if self.player_id.as_str().unicode_len() == 0 {
            assert(uuid@.subrange(0, 8) =~= uuid@.take(8));
            self.player_id = "player-".to_string().concat(uuid.substring_char(0, 8));
        }
    }

    /// Give a player who has no id a fresh one.
    pub fn ensure_player_id(&mut self)
        ensures
            old(self).player_id@.len() > 0 ==> final(self).player_id@ == old(self).player_id@,
            old(self).player_id@.len() == 0 ==> is_player_id(final(self).player_id@),
            *final(self) == (ClientConfig { player_id: final(self).player_id, ..*old(self) }),
    {
        let uuid = random_uuid();
        self.adopt_player_id(uuid.as_str());
        proof {
            uuid_names_a_player(uuid@);
        }
    }
}

/// The first eight characters of a random UUID make a player id.
proof fn uuid_names_a_player(uuid: Seq<char>)
    requires
        is_random_uuid(uuid),
    ensures
        is_player_id("player-"@ + uuid.take(8)),
{
    let tag = uuid.take(8);
    assert forall|i: int| 0 <= i < 8 implies is_hex(#[trigger] tag[i]) by {
        assert(tag[i] == uuid[i]);
    }
}

/// `id` is `player-` and eight hexadecimal digits.
pub open spec fn is_player_id(id: Seq<char>) -> bool {
    exists|tag: Seq<char>|
        id == #[trigger] ("player-"@ + tag) && tag.len() == 8 && (forall|i: int|
            0 <= i < 8 ==> is_hex(#[trigger] tag[i]))
}

impl Default for ClientConfig {
    fn default() -> (r: Self)
        ensures
            is_player_id(r.player_id@),
            r.is_first_run(r.player_id@),
    {
        let uuid = random_uuid();
        let r = ClientConfig::first_run(uuid.as_str());
        proof {
            uuid_names_a_player(uuid@);
        }
        r
    }
}

/// Identity emitted on the Control Channel. `session_id` is generated once per
/// process launch and never persisted.
#[derive(Debug, Clone)]
pub struct Identity {
    pub player_id: String,
    pub session_id: String,
    pub display_name: String,
}

impl Identity {
    /// The identity of the configured player in the given session.
    pub fn in_session(config: &ClientConfig, session_id: String) -> (r: Self)
        ensures
            r.player_id@ == config.player_id@,
            r.session_id@ == session_id@,
            r.display_name@ == config.display_name@,
    {
        Identity {
            player_id: config.player_id.clone(),
            session_id,
            display_name: config.display_name.clone(),
        }
    }

    /// The identity of the configured player in a session of its own.
    pub fn new(config: &ClientConfig) -> (r: Self)
        ensures
            r.player_id@ == config.player_id@,
            is_random_uuid(r.session_id@),
            r.display_name@ == config.display_name@,
    {
        Identity::in_session(config, random_uuid())
    }
}

/// A player id says that it is one: `player-` and eight lower-case hexadecimal digits.
pub proof fn player_ids_are_recognised(id: Seq<char>)
    requires
        is_player_id(id),
    ensures
        id.len() == 15,
        text::begins_with(id, "player-"@),
        forall|i: int| 7 <= i < 15 ==> ('0' <= #[trigger] id[i] <= '9' || 'a' <= id[i] <= 'f'),
{
    reveal_strlit("player-");
    let tag = choose|tag: Seq<char>|
        id == #[trigger] ("player-"@ + tag) && tag.len() == 8 && (forall|i: int|
            0 <= i < 8 ==> is_hex(#[trigger] tag[i]));
    assert(id.subrange(0, 7) =~= "player-"@);
    assert forall|i: int| 7 <= i < 15 implies ('0' <= #[trigger] id[i] <= '9' || 'a' <= id[i] <= 'f') by {
        assert(id[i] == tag[i - 7]);
        assert(is_hex(tag[i - 7]));
    }
}

/// A first run is ready for nothing but a destination and a source: it calls out over SRT
/// with the default profile and the desktop mix, and spends no CPU on encoding.
pub proof fn first_runs_are_plain(config: ClientConfig, player_id: Seq<char>)
    requires
        config.is_first_run(player_id),
    ensures
        config.player_id@ == player_id,
        config.transport == TransportKind::Srt && config.srt_mode == SrtMode::Caller,
        config.latency_ms == 200 && config.srt_max_callers == 1,
        config.preset_id@ == "1080p60"@,
        config.video_source.device() is None,
        config.destination_host@.len() == 0 && config.destination_port == 0,
        !config.encoder.allow_software && !config.encoder.experimental_hevc,
        config.audio.sources@.len() == 1 && config.audio.sources@[0].live(),
        config.audio.sources@[0].kind == AudioSourceKind::System,
        config.audio.sources@[0].gain.bits == 127 * 0x80_0000,
        config.st2110.video_dest_port != config.st2110.audio_dest_port,
        config.st2110.video_dest_ip@ != config.st2110.audio_dest_ip@,
        config.st2110.payload_type == 96 && config.st2110.ptp_domain == 0 && config.st2110.audio_enabled,
{
    reveal_strlit("239.20.20.20");
    reveal_strlit("239.20.20.30");
    assert("239.20.20.20"@[10] == '2' && "239.20.20.30"@[10] == '3');
}

/// A channel is heard exactly if it is switched on and not muted.
pub proof fn muted_channels_are_silent(source: AudioSource)
    ensures
        source.live() ==> source.enabled,
        source.muted ==> !source.live(),
        source.enabled && !source.muted ==> source.live(),
{
}

/// A device is chosen by its name, without the white space round it; a blank name
/// chooses none.
pub proof fn blank_names_choose_no_device(source: VideoSourceConfig)
    ensures
        source.device() is Some <==> source.device_name is Some && text::trimmed(source.device_name->0@).len() > 0,
        source.device() is Some ==> source.device()->0 == text::trimmed(source.device_name->0@),
{
}

} // verus!
