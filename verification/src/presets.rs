//! Broadcast quality profiles.
//!
//! Operators never tune raw bitrate ladders. They pick a named broadcast
//! profile; the client resolves it to resolution / scan mode / rate / bitrate.
//!
//! Profiles are modelled explicitly for broadcast: `scan` distinguishes
//! progressive from interlaced, `display_rate` is the rate as it appears in the
//! profile name (field rate for interlaced, frame rate for progressive), and
//! `frame_rate` is the number of actual frames per second delivered to the
//! encoder / ST 2110 payloader (for interlaced this is `display_rate / 2`).
//!
//! The H.264 / HEVC bitrates target compressed SRT delivery. `st2110_mbps` is a
//! feasibility estimate for uncompressed 4:2:2 10-bit ST 2110-20, used to warn
//! when a machine / network almost certainly cannot carry a profile.

use vstd::prelude::*;
use vstd::string::*;

use crate::text;

verus! {

#[derive(Debug, Clone, Copy, PartialEq, Eq, Structural)]
pub enum ScanMode {
    Progressive,
    Interlaced,
}

impl ScanMode {
    pub fn is_interlaced(&self) -> (r: bool)
        ensures
            r == (*self == ScanMode::Interlaced),
    {
        match self {
            ScanMode::Interlaced => true,
            ScanMode::Progressive => false,
        }
    }
}

#[derive(Debug, Clone, Copy, PartialEq, Eq)]
pub struct QualityPreset {
    /// Stable identifier used in config + control-channel commands, e.g. `1080p60`.
    pub id: &'static str,
    pub label: &'static str,
    pub width: u32,
    pub height: u32,
    pub scan: ScanMode,
    /// Actual frames per second delivered to the encoder / payloader.
    pub frame_rate: u32,
    /// Rate as it appears in the profile name (field rate when interlaced).
    pub display_rate: u32,
    /// Target video bitrate in kbps for H.264 (compressed SRT delivery).
    pub h264_kbps: u32,
    /// Target video bitrate in kbps for HEVC (experimental, ~30% lower).
    pub hevc_kbps: u32,
    /// Approximate uncompressed 4:2:2 10-bit ST 2110-20 bandwidth in Mbit/s.
    pub st2110_mbps: u32,
}

/// Default profile id used on first run.
pub const DEFAULT_PRESET_ID: &'static str = "1080p60";

/// The profiles on offer, in the order in which they are shown.
pub open spec fn catalogue() -> Seq<QualityPreset> {
    seq![
        QualityPreset {
            id: "4Kp60",
            label: "4K p60",
            width: 3840,
            height: 2160,
            scan: ScanMode::Progressive,
            frame_rate: 60,
            display_rate: 60,
            h264_kbps: 60000,
            hevc_kbps: 42000,
            st2110_mbps: 9953,
        },
        QualityPreset {
            id: "4Kp50",
            label: "4K p50",
            width: 3840,
            height: 2160,
            scan: ScanMode::Progressive,
            frame_rate: 50,
            display_rate: 50,
            h264_kbps: 55000,
            hevc_kbps: 38000,
            st2110_mbps: 8294,
        },
        QualityPreset {
            id: "1080p60",
            label: "1080 p60",
            width: 1920,
            height: 1080,
            scan: ScanMode::Progressive,
            frame_rate: 60,
            display_rate: 60,
            h264_kbps: 12000,
            hevc_kbps: 8400,
            st2110_mbps: 2488,
        },
        QualityPreset {
            id: "1080p50",
            label: "1080 p50",
            width: 1920,
            height: 1080,
            scan: ScanMode::Progressive,
            frame_rate: 50,
            display_rate: 50,
            h264_kbps: 10000,
            hevc_kbps: 7000,
            st2110_mbps: 2074,
        },
        QualityPreset {
            id: "1080p30",
            label: "1080 p30",
            width: 1920,
            height: 1080,
            scan: ScanMode::Progressive,
            frame_rate: 30,
            display_rate: 30,
            h264_kbps: 6000,
            hevc_kbps: 4200,
            st2110_mbps: 1244,
        },
        QualityPreset {
            id: "720p30",
            label: "720 p30",
            width: 1280,
            height: 720,
            scan: ScanMode::Progressive,
            frame_rate: 30,
            display_rate: 30,
            h264_kbps: 3000,
            hevc_kbps: 2100,
            st2110_mbps: 553,
        },
        QualityPreset {
            id: "4Ki60",
            label: "4K i60",
            width: 3840,
            height: 2160,
            scan: ScanMode::Interlaced,
            frame_rate: 30,
            display_rate: 60,
            h264_kbps: 40000,
            hevc_kbps: 28000,
            st2110_mbps: 4977,
        },
        QualityPreset {
            id: "4Ki50",
            label: "4K i50",
            width: 3840,
            height: 2160,
            scan: ScanMode::Interlaced,
            frame_rate: 25,
            display_rate: 50,
            h264_kbps: 36000,
            hevc_kbps: 25000,
            st2110_mbps: 4147,
        },
        QualityPreset {
            id: "1080i60",
            label: "1080 i60",
            width: 1920,
            height: 1080,
            scan: ScanMode::Interlaced,
            frame_rate: 30,
            display_rate: 60,
            h264_kbps: 8000,
            hevc_kbps: 5600,
            st2110_mbps: 1244,
        },
        QualityPreset {
            id: "1080i50",
            label: "1080 i50",
            width: 1920,
            height: 1080,
            scan: ScanMode::Interlaced,
            frame_rate: 25,
            display_rate: 50,
            h264_kbps: 7000,
            hevc_kbps: 4900,
            st2110_mbps: 1037,
        },
    ]
}

/// The first profile of `list` with the given id.
pub open spec fn first_with_id(list: Seq<QualityPreset>, id: Seq<char>) -> Option<QualityPreset>
    decreases list.len(),
{
    if list.len() == 0 {
        None
    } else if list[0].id@ == id {
        Some(list[0])
    } else {
        first_with_id(list.drop_first(), id)
    }
}

/// The profile that an id names.
pub open spec fn named(id: Seq<char>) -> Option<QualityPreset> {
    first_with_id(catalogue(), id)
}

/// The profile that the default id names.
pub open spec fn fallback() -> QualityPreset {
    catalogue()[2]
}

/// The profile that an id names, or the default one.
pub open spec fn resolved(id: Seq<char>) -> QualityPreset {
    match named(id) {
        Some(p) => p,
        None => fallback(),
    }
}

/// Every profile on offer.
pub fn presets() -> (r: [QualityPreset; 10])
    ensures
        r@ == catalogue(),
{
    let r: [QualityPreset; 10] = [
        QualityPreset {
            id: "4Kp60",
            label: "4K p60",
            width: 3840,
            height: 2160,
            scan: ScanMode::Progressive,
            frame_rate: 60,
            display_rate: 60,
            h264_kbps: 60000,
            hevc_kbps: 42000,
            st2110_mbps: 9953,
        },
        QualityPreset {
            id: "4Kp50",
            label: "4K p50",
            width: 3840,
            height: 2160,
            scan: ScanMode::Progressive,
            frame_rate: 50,
            display_rate: 50,
            h264_kbps: 55000,
            hevc_kbps: 38000,
            st2110_mbps: 8294,
        },
        QualityPreset {
            id: "1080p60",
            label: "1080 p60",
            width: 1920,
            height: 1080,
            scan: ScanMode::Progressive,
            frame_rate: 60,
            display_rate: 60,
            h264_kbps: 12000,
            hevc_kbps: 8400,
            st2110_mbps: 2488,
        },
        QualityPreset {
            id: "1080p50",
            label: "1080 p50",
            width: 1920,
            height: 1080,
            scan: ScanMode::Progressive,
            frame_rate: 50,
            display_rate: 50,
            h264_kbps: 10000,
            hevc_kbps: 7000,
            st2110_mbps: 2074,
        },
        QualityPreset {
            id: "1080p30",
            label: "1080 p30",
            width: 1920,
            height: 1080,
            scan: ScanMode::Progressive,
            frame_rate: 30,
            display_rate: 30,
            h264_kbps: 6000,
            hevc_kbps: 4200,
            st2110_mbps: 1244,
        },
        QualityPreset {
            id: "720p30",
            label: "720 p30",
            width: 1280,
            height: 720,
            scan: ScanMode::Progressive,
            frame_rate: 30,
            display_rate: 30,
            h264_kbps: 3000,
            hevc_kbps: 2100,
            st2110_mbps: 553,
        },
        QualityPreset {
            id: "4Ki60",
            label: "4K i60",
            width: 3840,
            height: 2160,
            scan: ScanMode::Interlaced,
            frame_rate: 30,
            display_rate: 60,
            h264_kbps: 40000,
            hevc_kbps: 28000,
            st2110_mbps: 4977,
        },
        QualityPreset {
            id: "4Ki50",
            label: "4K i50",
            width: 3840,
            height: 2160,
            scan: ScanMode::Interlaced,
            frame_rate: 25,
            display_rate: 50,
            h264_kbps: 36000,
            hevc_kbps: 25000,
            st2110_mbps: 4147,
        },
        QualityPreset {
            id: "1080i60",
            label: "1080 i60",
            width: 1920,
            height: 1080,
            scan: ScanMode::Interlaced,
            frame_rate: 30,
            display_rate: 60,
            h264_kbps: 8000,
            hevc_kbps: 5600,
            st2110_mbps: 1244,
        },
        QualityPreset {
            id: "1080i50",
            label: "1080 i50",
            width: 1920,
            height: 1080,
            scan: ScanMode::Interlaced,
            frame_rate: 25,
            display_rate: 50,
            h264_kbps: 7000,
            hevc_kbps: 4900,
            st2110_mbps: 1037,
        },
    ];
    assert(r@ =~= catalogue());
    r
}

/// The profile that an id names, if there is one.
pub fn find(id: &str) -> (r: Option<QualityPreset>)
    ensures
        r == named(id@),
{
    let list = presets();
    let ghost all = catalogue();
    assert(all.skip(0) =~= all);
    for i in 0..10usize
        invariant
            list@ == all,
            all == catalogue(),
            named(id@) == first_with_id(all.skip(i as int), id@),
    {
        assert(all.skip(i as int).drop_first() =~= all.skip(i + 1));
        if text::same_text(list[i].id, id) {
            return Some(list[i]);
        }
    }
    assert(all.skip(10).len() == 0);
    None
}

/// Resolve a profile id, falling back to the default if unknown.
pub fn resolve_or_default(id: &str) -> (r: QualityPreset)
    ensures
        r == resolved(id@),
{
    match find(id) {
        Some(preset) => preset,
        None => presets()[2],
    }
}

/// Every profile can be found under its own id, so no two share one.
pub proof fn every_profile_is_found_by_id(i: int)
    requires
        0 <= i < catalogue().len(),
    ensures
        named(catalogue()[i].id@) == Some(catalogue()[i]),
{
    reveal_ids();
    reveal_with_fuel(first_with_id, 11);
}

/// The default id names a profile.
pub proof fn default_profile_exists()
    ensures
        named(DEFAULT_PRESET_ID@) == Some(fallback()),
{
    every_profile_is_found_by_id(2);
}

/// Resolving never yields anything but a profile on offer.
pub proof fn resolving_yields_a_profile(id: Seq<char>)
    ensures
        catalogue().contains(resolved(id)),
        named(id) is Some ==> resolved(id).id@ == id,
{
    first_with_id_is_member(catalogue(), id);
    assert(catalogue()[2] == fallback());
}

/// An interlaced profile delivers one frame per two fields; a progressive one
/// delivers a frame at its displayed rate.
pub proof fn frame_rate_follows_scan(i: int)
    requires
        0 <= i < catalogue().len(),
    ensures
        catalogue()[i].scan == ScanMode::Interlaced ==> catalogue()[i].frame_rate * 2
            == catalogue()[i].display_rate,
        catalogue()[i].scan == ScanMode::Progressive ==> catalogue()[i].frame_rate
            == catalogue()[i].display_rate,
{
}

/// HEVC needs less bitrate than H.264 in every profile.
pub proof fn hevc_needs_less_than_h264(i: int)
    requires
        0 <= i < catalogue().len(),
    ensures
        0 < catalogue()[i].hevc_kbps < catalogue()[i].h264_kbps,
{
}

/// Every profile is a 4K, a 1080-line or a 720-line raster, and its rates are far
/// from overflowing when they are doubled.
pub proof fn rasters_are_broadcast_sizes(i: int)
    requires
        0 <= i < catalogue().len(),
    ensures
        (catalogue()[i].width == 3840 && catalogue()[i].height == 2160) || (catalogue()[i].width == 1920
            && catalogue()[i].height == 1080) || (catalogue()[i].width == 1280 && catalogue()[i].height
            == 720),
        25 <= catalogue()[i].frame_rate <= 60,
{
}

proof fn first_with_id_is_member(list: Seq<QualityPreset>, id: Seq<char>)
    ensures
        first_with_id(list, id) is Some ==> list.contains(first_with_id(list, id)->0) && first_with_id(
            list,
            id,
        )->0.id@ == id,
    decreases list.len(),
{
    if list.len() > 0 {
        if list[0].id@ != id {
            let rest = list.drop_first();
            first_with_id_is_member(rest, id);
            if first_with_id(rest, id) is Some {
                let p = first_with_id(rest, id)->0;
                let k = choose|k: int| 0 <= k < rest.len() && rest[k] == p;
                assert(list[k + 1] == p);
            }
        }
    }
}

/// What the profile ids hold.
proof fn reveal_ids()
    ensures
        "4Kp60"@ == seq!['4', 'K', 'p', '6', '0'],
        "4Kp50"@ == seq!['4', 'K', 'p', '5', '0'],
        "1080p60"@ == seq!['1', '0', '8', '0', 'p', '6', '0'],
        "1080p50"@ == seq!['1', '0', '8', '0', 'p', '5', '0'],
        "1080p30"@ == seq!['1', '0', '8', '0', 'p', '3', '0'],
        "720p30"@ == seq!['7', '2', '0', 'p', '3', '0'],
        "4Ki60"@ == seq!['4', 'K', 'i', '6', '0'],
        "4Ki50"@ == seq!['4', 'K', 'i', '5', '0'],
        "1080i60"@ == seq!['1', '0', '8', '0', 'i', '6', '0'],
        "1080i50"@ == seq!['1', '0', '8', '0', 'i', '5', '0'],
{
    reveal_strlit("4Kp60");
    reveal_strlit("4Kp50");
    reveal_strlit("1080p60");
    reveal_strlit("1080p50");
    reveal_strlit("1080p30");
    reveal_strlit("720p30");
    reveal_strlit("4Ki60");
    reveal_strlit("4Ki50");
    reveal_strlit("1080i60");
    reveal_strlit("1080i50");
}

/// What a raster is called.
pub open spec fn raster_name(height: u32) -> Seq<char> {
    if height == 2160 {
        "4K"@
    } else {
        text::decimal(height as nat)
    }
}

/// A profile is named after what it is: its raster, its scan and its rate.
#[verifier::rlimit(60)]
#[verifier::spinoff_prover]
pub proof fn profiles_are_named_after_what_they_are(i: int)
    requires
        0 <= i < catalogue().len(),
    ensures
        ({
            let p = catalogue()[i];
            let scan = if p.scan == ScanMode::Interlaced {
                "i"@
            } else {
                "p"@
            };
            let rate = text::decimal(p.display_rate as nat);
            &&& p.id@ == raster_name(p.height) + scan + rate
            &&& p.label@ == raster_name(p.height) + " "@ + scan + rate
        }),
{
    reveal_with_fuel(text::decimal, 5);
    reveal_strlit("4K");
    reveal_strlit("i");
    reveal_strlit("p");
    reveal_strlit(" ");
    reveal_strlit("4Kp60");
    reveal_strlit("4Kp50");
    reveal_strlit("1080p60");
    reveal_strlit("1080p50");
    reveal_strlit("1080p30");
    reveal_strlit("720p30");
    reveal_strlit("4Ki60");
    reveal_strlit("4Ki50");
    reveal_strlit("1080i60");
    reveal_strlit("1080i50");
    reveal_strlit("4K p60");
    reveal_strlit("4K p50");
    reveal_strlit("1080 p60");
    reveal_strlit("1080 p50");
    reveal_strlit("1080 p30");
    reveal_strlit("720 p30");
    reveal_strlit("4K i60");
    reveal_strlit("4K i50");
    reveal_strlit("1080 i60");
    reveal_strlit("1080 i50");
    assert(text::decimal(2160).len() == 4);
    assert(text::decimal(1080) =~= seq!['1', '0', '8', '0']);
    assert(text::decimal(720) =~= seq!['7', '2', '0']);
    assert(text::decimal(60) =~= seq!['6', '0']);
    assert(text::decimal(50) =~= seq!['5', '0']);
    assert(text::decimal(30) =~= seq!['3', '0']);
    let p = catalogue()[i];
    let scan = if p.scan == ScanMode::Interlaced {
        "i"@
    } else {
        "p"@
    };
    let rate = text::decimal(p.display_rate as nat);
    assert(p.id@ =~= raster_name(p.height) + scan + rate);
    assert(p.label@ =~= raster_name(p.height) + " "@ + scan + rate);
}

/// The bandwidth of a profile on a media network is that of 20 bits per pixel, to
/// the nearest megabit; and compressed, HEVC needs 69 to 70 percent of what H.264
/// needs.
pub proof fn bandwidths_follow_the_raster(i: int)
    requires
        0 <= i < catalogue().len(),
    ensures
        ({
            let p = catalogue()[i];
            let bits = p.width * p.height * p.frame_rate * 20;
            &&& bits - 500_000 <= p.st2110_mbps * 1_000_000 < bits + 500_000
            &&& 69 * p.h264_kbps <= 100 * p.hevc_kbps <= 70 * p.h264_kbps
            &&& 9 * p.width == 16 * p.height
        }),
{
    let p = catalogue()[i];
    assert(3840 * 2160 * 60 * 20 == 9953280000int) by (nonlinear_arith);
    assert(3840 * 2160 * 50 * 20 == 8294400000int) by (nonlinear_arith);
    assert(1920 * 1080 * 60 * 20 == 2488320000int) by (nonlinear_arith);
    assert(1920 * 1080 * 50 * 20 == 2073600000int) by (nonlinear_arith);
    assert(1920 * 1080 * 30 * 20 == 1244160000int) by (nonlinear_arith);
    assert(1280 * 720 * 30 * 20 == 552960000int) by (nonlinear_arith);
    assert(3840 * 2160 * 30 * 20 == 4976640000int) by (nonlinear_arith);
    assert(3840 * 2160 * 25 * 20 == 4147200000int) by (nonlinear_arith);
    assert(1920 * 1080 * 25 * 20 == 1036800000int) by (nonlinear_arith);
}

/// The profiles are shown with the progressive ones first, and those of a scan from
/// the most demanding one down. An interlaced profile needs 65 to 70 percent of the
/// bitrate of the progressive one of the same raster and rate.
pub proof fn profiles_stand_in_order(i: int, j: int)
    requires
        0 <= i < j < catalogue().len(),
    ensures
        ({
            let p = catalogue()[i];
            let q = catalogue()[j];
            &&& p.scan == ScanMode::Interlaced ==> q.scan == ScanMode::Interlaced
            &&& p.scan == q.scan ==> p.h264_kbps > q.h264_kbps && p.hevc_kbps > q.hevc_kbps && p.st2110_mbps
                > q.st2110_mbps
            &&& p.scan != q.scan && p.height == q.height && p.display_rate == q.display_rate ==> 65 * p.h264_kbps
                <= 100 * q.h264_kbps <= 70 * p.h264_kbps
        }),
{
}

/// An id that names no profile means the default one; each other id means the
/// profile that bears it.
pub proof fn unknown_ids_mean_the_default(id: Seq<char>)
    ensures
        resolved(id).id@ == id || resolved(id).id@ == DEFAULT_PRESET_ID@,
        (exists|i: int| 0 <= i < catalogue().len() && (#[trigger] catalogue()[i]).id@ == id) ==> resolved(id).id@
            == id,
{
    resolving_yields_a_profile(id);
    if exists|i: int| 0 <= i < catalogue().len() && (#[trigger] catalogue()[i]).id@ == id {
        let i = choose|i: int| 0 <= i < catalogue().len() && (#[trigger] catalogue()[i]).id@ == id;
        every_profile_is_found_by_id(i);
    }
}

/// Bitrates follow the frames: 200 kbit for each frame of a 1080-line progressive profile,
/// half of that for one of 720 lines and five times as much for one of 4K at 60, where a
/// profile at 50 may spend up to a tenth more on each. An interlaced profile at 60 needs
/// two thirds of the progressive one. HEVC takes seven tenths, in whole megabits for 4K.
pub proof fn bitrates_follow_the_frames(i: int)
    requires
        0 <= i < catalogue().len(),
    ensures
        ({
            let p = catalogue()[i];
            let progressive = p.scan == ScanMode::Progressive;
            &&& progressive && p.height == 1080 ==> p.h264_kbps == 200 * p.frame_rate
            &&& progressive && p.height == 720 ==> p.h264_kbps == 100 * p.frame_rate
            &&& progressive && p.height == 2160 && p.frame_rate == 60 ==> p.h264_kbps == 1000 * p.frame_rate
            &&& progressive && p.height == 2160 && p.frame_rate == 50 ==> p.h264_kbps == 1100 * p.frame_rate
            &&& !progressive && p.display_rate == 60 && p.height == 1080 ==> 3 * p.h264_kbps == 2 * (200
                * p.display_rate)
            &&& !progressive && p.display_rate == 60 && p.height == 2160 ==> 3 * p.h264_kbps == 2 * (1000
                * p.display_rate)
            &&& !progressive && p.display_rate == 50 && p.height == 1080 ==> p.h264_kbps == 280 * p.frame_rate
            &&& !progressive && p.display_rate == 50 && p.height == 2160 ==> p.h264_kbps == 1440 * p.frame_rate
            &&& p.height < 2160 ==> 10 * p.hevc_kbps == 7 * p.h264_kbps
            &&& p.height == 2160 ==> p.hevc_kbps % 1000 == 0 && 10 * p.hevc_kbps <= 7 * p.h264_kbps < 10 * (
            p.hevc_kbps + 1000)
        }),
{
}

} // verus!
