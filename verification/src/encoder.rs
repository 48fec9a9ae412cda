//! Encoder backend selection.
//!
//! H.264 is the default codec, HEVC is experimental. Hardware vendor selection
//! (NVENC / QSV / AMF) is isolated here behind a capability probe rather than
//! scattered across the app.

use vstd::prelude::*;

use crate::text;

verus! {

#[derive(Debug, Clone, Copy, PartialEq, Eq, Structural)]
pub enum Codec {
    H264,
    Hevc,
}

#[derive(Debug, Clone, Copy, PartialEq, Eq, Structural)]
pub enum Vendor {
    Nvidia,
    Intel,
    Amd,
    Software,
}

/// A concrete FFmpeg encoder name + the hardware family it belongs to.
#[derive(Debug, Clone, Copy, PartialEq, Eq)]
pub struct EncoderBackend {
    pub codec: Codec,
    /// FFmpeg encoder, e.g. `h264_nvenc`, `hevc_qsv`, `libx264`.
    pub ffmpeg_name: &'static str,
    pub vendor: Vendor,
    /// Software encoders are a last resort; they can overload the machine.
    pub hardware: bool,
}

impl Codec {
    /// The codec's lower-case name.
    pub open spec fn name(self) -> Seq<char> {
        match self {
            Codec::H264 => "h264"@,
            Codec::Hevc => "hevc"@,
        }
    }

    pub fn as_str(&self) -> (r: &'static str)
        ensures
            r@ == self.name(),
    {
        match self {
            Codec::H264 => "h264",
            Codec::Hevc => "hevc",
        }
    }
}

/// The backends for `codec`, best (lowest server + client cost) first.
pub open spec fn ranking(codec: Codec) -> Seq<EncoderBackend> {
    match codec {
        Codec::H264 => seq![
            EncoderBackend { codec, ffmpeg_name: "h264_nvenc", vendor: Vendor::Nvidia, hardware: true },
            EncoderBackend { codec, ffmpeg_name: "h264_qsv", vendor: Vendor::Intel, hardware: true },
            EncoderBackend { codec, ffmpeg_name: "h264_amf", vendor: Vendor::Amd, hardware: true },
            EncoderBackend { codec, ffmpeg_name: "libx264", vendor: Vendor::Software, hardware: false },
        ],
        Codec::Hevc => seq![
            EncoderBackend { codec, ffmpeg_name: "hevc_nvenc", vendor: Vendor::Nvidia, hardware: true },
            EncoderBackend { codec, ffmpeg_name: "hevc_qsv", vendor: Vendor::Intel, hardware: true },
            EncoderBackend { codec, ffmpeg_name: "hevc_amf", vendor: Vendor::Amd, hardware: true },
            EncoderBackend { codec, ffmpeg_name: "libx265", vendor: Vendor::Software, hardware: false },
        ],
    }
}

/// FFmpeg reports the backend as built in.
pub open spec fn is_available(b: EncoderBackend, available: Seq<Seq<char>>) -> bool {
    available.contains(b.ffmpeg_name@)
}

/// The backend may be picked: FFmpeg has it, and it is hardware unless software
/// is allowed.
pub open spec fn is_usable(b: EncoderBackend, available: Seq<Seq<char>>, allow_software: bool) -> bool {
    (b.hardware || allow_software) && is_available(b, available)
}

/// The first backend of `list` that may be picked.
pub open spec fn first_usable(
    list: Seq<EncoderBackend>,
    available: Seq<Seq<char>>,
    allow_software: bool,
) -> Option<EncoderBackend>
    decreases list.len(),
{
    if list.len() == 0 {
        None
    } else if is_usable(list[0], available, allow_software) {
        Some(list[0])
    } else {
        first_usable(list.drop_first(), available, allow_software)
    }
}

/// The backend that a codec is encoded with.
pub open spec fn selected(
    codec: Codec,
    available: Seq<Seq<char>>,
    allow_software: bool,
) -> Option<EncoderBackend> {
    first_usable(ranking(codec), available, allow_software)
}

fn preference(codec: Codec) -> (r: [EncoderBackend; 4])
    ensures
        r@ == ranking(codec),
{
    let r: [EncoderBackend; 4] = match codec {
        Codec::H264 => [
            EncoderBackend {
                codec: Codec::H264,
                ffmpeg_name: "h264_nvenc",
                vendor: Vendor::Nvidia,
                hardware: true,
            },
            EncoderBackend {
                codec: Codec::H264,
                ffmpeg_name: "h264_qsv",
                vendor: Vendor::Intel,
                hardware: true,
            },
            EncoderBackend {
                codec: Codec::H264,
                ffmpeg_name: "h264_amf",
                vendor: Vendor::Amd,
                hardware: true,
            },
            EncoderBackend {
                codec: Codec::H264,
                ffmpeg_name: "libx264",
                vendor: Vendor::Software,
                hardware: false,
            },
        ],
        Codec::Hevc => [
            EncoderBackend {
                codec: Codec::Hevc,
                ffmpeg_name: "hevc_nvenc",
                vendor: Vendor::Nvidia,
                hardware: true,
            },
            EncoderBackend {
                codec: Codec::Hevc,
                ffmpeg_name: "hevc_qsv",
                vendor: Vendor::Intel,
                hardware: true,
            },
            EncoderBackend {
                codec: Codec::Hevc,
                ffmpeg_name: "hevc_amf",
                vendor: Vendor::Amd,
                hardware: true,
            },
            EncoderBackend {
                codec: Codec::Hevc,
                ffmpeg_name: "libx265",
                vendor: Vendor::Software,
                hardware: false,
            },
        ],
    };
    assert(r@ =~= ranking(codec));
    r
}

/// Select the best available encoder for a codec given the set of FFmpeg encoder
/// names the local FFmpeg build reports as available.
///
/// `allow_software` gates the CPU fallback. For normal broadcast use we keep it
/// off so a machine without a hardware encoder fails loudly instead of melting.
pub fn select(codec: Codec, available: &[String], allow_software: bool) -> (r: Option<EncoderBackend>)
    ensures
        r == selected(codec, text::texts(available@), allow_software),
{
    let list = preference(codec);
    let ghost all = ranking(codec);
    assert(all.skip(0) =~= all);
    for i in 0..4usize
        invariant
            list@ == all,
            all == ranking(codec),
            selected(codec, text::texts(available@), allow_software) == first_usable(
                all.skip(i as int),
                text::texts(available@),
                allow_software,
            ),
    {
        let backend = list[i];
        let ghost rest = all.skip(i as int);
        assert(rest.drop_first() =~= all.skip(i + 1));
        if (backend.hardware || allow_software) && text::list_has(available, backend.ffmpeg_name) {
            return Some(backend);
        }
    }
    assert(all.skip(4).len() == 0);
    None
}

/// The backends, across both codecs, that are available locally.
pub open spec fn backends_present(available: Seq<Seq<char>>) -> Seq<EncoderBackend> {
    (ranking(Codec::H264) + ranking(Codec::Hevc)).filter(|b: EncoderBackend| is_available(b, available))
}

/// All encoders (across both codecs) that are available locally. Used to drive
/// the capability payload and the UI's preset gating.
pub fn available_backends(available: &[String]) -> (r: Vec<EncoderBackend>)
    ensures
        r@ == backends_present(text::texts(available@)),
{
    let mut out: Vec<EncoderBackend> = Vec::new();
    let h264 = preference(Codec::H264);
    let hevc = preference(Codec::Hevc);
    let ghost all = ranking(Codec::H264) + ranking(Codec::Hevc);
    let ghost present = |b: EncoderBackend| is_available(b, text::texts(available@));
    assert(all.take(0) =~= Seq::<EncoderBackend>::empty());
    proof {
        reveal(Seq::filter);
    }
    for i in 0..8usize
        invariant
            h264@ == ranking(Codec::H264),
            hevc@ == ranking(Codec::Hevc),
            all == h264@ + hevc@,
            all.len() == 8,
            present == (|b: EncoderBackend| is_available(b, text::texts(available@))),
            out@ == all.take(i as int).filter(present),
    {
        let backend = if i < 4 {
            h264[i]
        } else {
            hevc[i - 4]
        };
        proof {
            reveal(Seq::filter);
            assert(all.take(i + 1).drop_last() =~= all.take(i as int));
            assert(all.take(i + 1).last() == backend);
        }
        if text::list_has(available, backend.ffmpeg_name) {
            out.push(backend);
        }
    }
    assert(all.take(8) =~= all);
    out
}

/// What is selected can be used, and nothing better can: every backend that is
/// ranked before it cannot be used. Nothing is selected only if nothing can be
/// used.
pub proof fn selection_is_the_best_usable(codec: Codec, available: Seq<Seq<char>>, allow_software: bool)
    ensures
        match selected(codec, available, allow_software) {
            Some(b) => exists|i: int|
                #![trigger ranking(codec)[i]]
                0 <= i < ranking(codec).len() && ranking(codec)[i] == b && is_usable(
                    b,
                    available,
                    allow_software,
                ) && b.codec == codec && forall|j: int|
                    0 <= j < i ==> !is_usable(#[trigger] ranking(codec)[j], available, allow_software),
            None => forall|j: int|
                0 <= j < ranking(codec).len() ==> !is_usable(
                    #[trigger] ranking(codec)[j],
                    available,
                    allow_software,
                ),
        },
{
    first_usable_is_first(ranking(codec), available, allow_software);
}

proof fn first_usable_is_first(list: Seq<EncoderBackend>, available: Seq<Seq<char>>, allow_software: bool)
    ensures
        match first_usable(list, available, allow_software) {
            Some(b) => exists|i: int|
                #![trigger list[i]]
                0 <= i < list.len() && list[i] == b && is_usable(b, available, allow_software)
                    && forall|j: int|
                    0 <= j < i ==> !is_usable(#[trigger] list[j], available, allow_software),
            None => forall|j: int|
                0 <= j < list.len() ==> !is_usable(#[trigger] list[j], available, allow_software),
        },
    decreases list.len(),
{
    if list.len() > 0 {
        if is_usable(list[0], available, allow_software) {
            assert(list[0] == first_usable(list, available, allow_software)->0);
        } else {
            let rest = list.drop_first();
            first_usable_is_first(rest, available, allow_software);
            match first_usable(rest, available, allow_software) {
                Some(b) => {
                    let i = choose|i: int|
                        #![trigger rest[i]]
                        0 <= i < rest.len() && rest[i] == b && is_usable(b, available, allow_software)
                            && forall|j: int|
                            0 <= j < i ==> !is_usable(#[trigger] rest[j], available, allow_software);
                    assert(list[i + 1] == b);
                    assert forall|j: int| 0 <= j < i + 1 implies !is_usable(
                        #[trigger] list[j],
                        available,
                        allow_software,
                    ) by {
                        if j > 0 {
                            assert(rest[j - 1] == list[j]);
                        }
                    }
                },
                None => {
                    assert forall|j: int| 0 <= j < list.len() implies !is_usable(
                        #[trigger] list[j],
                        available,
                        allow_software,
                    ) by {
                        if j > 0 {
                            assert(rest[j - 1] == list[j]);
                        }
                    }
                },
            }
        }
    }
}

/// The CPU is never made to encode unless that is allowed.
pub proof fn software_needs_permission(codec: Codec, available: Seq<Seq<char>>)
    ensures
        selected(codec, available, false) is Some ==> selected(codec, available, false)->0.hardware,
{
    selection_is_the_best_usable(codec, available, false);
}

/// NVENC is preferred to QSV, QSV to AMF, and the CPU encodes only where FFmpeg has
/// none of them and it is allowed to. A hardware encoder is named after its codec.
pub proof fn hardware_is_preferred_in_order(codec: Codec, available: Seq<Seq<char>>, allow_software: bool)
    ensures
        ({
            let nvenc = codec.name() + "_nvenc"@;
            let qsv = codec.name() + "_qsv"@;
            let amf = codec.name() + "_amf"@;
            let cpu = if codec == Codec::H264 {
                "libx264"@
            } else {
                "libx265"@
            };
            match selected(codec, available, allow_software) {
                Some(b) => {
                    &&& b.codec == codec
                    &&& available.contains(b.ffmpeg_name@)
                    &&& b.hardware <==> b.vendor != Vendor::Software
                    &&& b.vendor == Vendor::Nvidia <==> b.ffmpeg_name@ == nvenc
                    &&& b.vendor == Vendor::Intel <==> b.ffmpeg_name@ == qsv
                    &&& b.vendor == Vendor::Amd <==> b.ffmpeg_name@ == amf
                    &&& b.vendor == Vendor::Software <==> b.ffmpeg_name@ == cpu
                    &&& available.contains(nvenc) ==> b.vendor == Vendor::Nvidia
                    &&& !available.contains(nvenc) && available.contains(qsv) ==> b.vendor == Vendor::Intel
                    &&& !available.contains(nvenc) && !available.contains(qsv) && available.contains(amf)
                        ==> b.vendor == Vendor::Amd
                    &&& b.vendor == Vendor::Software ==> allow_software && !available.contains(nvenc)
                        && !available.contains(qsv) && !available.contains(amf)
                },
                None => {
                    &&& !available.contains(nvenc)
                    &&& !available.contains(qsv)
                    &&& !available.contains(amf)
                    &&& allow_software ==> !available.contains(cpu)
                },
            }
        }),
{
    reveal_strlit("h264");
    reveal_strlit("hevc");
    reveal_strlit("_nvenc");
    reveal_strlit("_qsv");
    reveal_strlit("_amf");
    reveal_strlit("h264_nvenc");
    reveal_strlit("h264_qsv");
    reveal_strlit("h264_amf");
    reveal_strlit("libx264");
    reveal_strlit("hevc_nvenc");
    reveal_strlit("hevc_qsv");
    reveal_strlit("hevc_amf");
    reveal_strlit("libx265");
    assert("h264"@ + "_nvenc"@ =~= "h264_nvenc"@);
    assert("h264"@ + "_qsv"@ =~= "h264_qsv"@);
    assert("h264"@ + "_amf"@ =~= "h264_amf"@);
    assert("hevc"@ + "_nvenc"@ =~= "hevc_nvenc"@);
    assert("hevc"@ + "_qsv"@ =~= "hevc_qsv"@);
    assert("hevc"@ + "_amf"@ =~= "hevc_amf"@);
    assert("h264_qsv"@[5] == 'q' && "h264_amf"@[5] == 'a' && "hevc_qsv"@[5] == 'q' && "hevc_amf"@[5] == 'a');
    assert("libx264"@.len() == 7 && "libx265"@.len() == 7);
    reveal_with_fuel(first_usable, 5);
    let all = ranking(codec);
    assert(all.drop_first()[0] == all[1]);
    assert(all.drop_first().drop_first()[0] == all[2]);
    assert(all.drop_first().drop_first().drop_first()[0] == all[3]);
}

/// Allowing software never takes a selection away or changes one: it only adds one
/// where there was none. One more encoder never takes the selection away either.
pub proof fn software_is_a_last_resort(codec: Codec, available: Seq<Seq<char>>, more: Seq<Seq<char>>)
    ensures
        selected(codec, available, false) is Some ==> selected(codec, available, true) == selected(
            codec,
            available,
            false,
        ),
        selected(codec, available, true) is Some && selected(codec, available, false) is None ==> selected(
            codec,
            available,
            true,
        )->0.vendor == Vendor::Software,
        selected(codec, available, false) is Some ==> selected(codec, available + more, false) is Some,
{
    hardware_is_preferred_in_order(codec, available, false);
    hardware_is_preferred_in_order(codec, available, true);
    hardware_is_preferred_in_order(codec, available + more, false);
    reveal_with_fuel(first_usable, 5);
    let all = ranking(codec);
    assert(all.drop_first()[0] == all[1]);
    assert(all.drop_first().drop_first()[0] == all[2]);
    assert(all.drop_first().drop_first().drop_first()[0] == all[3]);
    assert forall|x: Seq<char>| available.contains(x) implies #[trigger] (available + more).contains(x) by {
        let k = choose|k: int| 0 <= k < available.len() && available[k] == x;
        assert((available + more)[k] == x);
    }
}

/// The capability payload lists a backend exactly if FFmpeg has it: every encoder
/// that could be selected for either codec stands in it, and nothing else does.
pub proof fn listed_backends_are_those_present(available: Seq<Seq<char>>, codec: Codec, allow_software: bool, i: int)
    ensures
        selected(codec, available, allow_software) is Some ==> backends_present(available).contains(
            selected(codec, available, allow_software)->0,
        ),
        0 <= i < backends_present(available).len() ==> available.contains(
            backends_present(available)[i].ffmpeg_name@,
        ) && (backends_present(available)[i].hardware || backends_present(available)[i].vendor
            == Vendor::Software),
{
    let all = ranking(Codec::H264) + ranking(Codec::Hevc);
    let present = |b: EncoderBackend| is_available(b, available);
    selection_is_the_best_usable(codec, available, allow_software);
    if selected(codec, available, allow_software) is Some {
        let b = selected(codec, available, allow_software)->0;
        let k = choose|k: int|
            #![trigger ranking(codec)[k]]
            0 <= k < ranking(codec).len() && ranking(codec)[k] == b && is_usable(
                b,
                available,
                allow_software,
            );
        let at = if codec == Codec::H264 {
            k
        } else {
            k + 4
        };
        assert(all[at] == b);
        all.lemma_filter_contains(present, at);
    }
    if 0 <= i < backends_present(available).len() {
        all.lemma_filter_pred(present, i);
        let b = backends_present(available)[i];
        all.lemma_filter_contains_rev(present, b);
        let k = choose|k: int| 0 <= k < all.len() && all[k] == b;
        assert(all[k] == b);
    }
}

/// The backends that are there are listed with those for H.264 before those for HEVC, and
/// for each codec the preferred ones first and the CPU last.
pub proof fn backends_are_listed_in_order(available: Seq<Seq<char>>, i: int, j: int)
    requires
        0 <= i < j < backends_present(available).len(),
    ensures
        ({
            let a = backends_present(available)[i];
            let b = backends_present(available)[j];
            &&& a.codec == Codec::Hevc ==> b.codec == Codec::Hevc
            &&& a.codec == b.codec ==> a.hardware
            &&& a.codec == b.codec && b.vendor == Vendor::Intel ==> a.vendor == Vendor::Nvidia
            &&& a.codec == b.codec && b.vendor == Vendor::Amd ==> a.vendor == Vendor::Nvidia || a.vendor
                == Vendor::Intel
            &&& a.codec == b.codec ==> b.vendor != Vendor::Nvidia
        }),
{
    let all = ranking(Codec::H264) + ranking(Codec::Hevc);
    let present = |b: EncoderBackend| is_available(b, available);
    text::filtering_keeps_order(all, present, i, j);
    let (a, b) = choose|a: int, b: int|
        0 <= a < b < all.len() && #[trigger] all[a] == all.filter(present)[i] && #[trigger] all[b]
            == all.filter(present)[j];
    assert(all[a] == backends_present(available)[i]);
    assert(all[b] == backends_present(available)[j]);
}

} // verus!
