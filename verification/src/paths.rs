//! Where the bundled FFmpeg binary, GStreamer and the client's own files are
//! looked for. A place is given as the components of its path.

use vstd::prelude::*;
use vstd::string::*;

use crate::text;

verus! {

/// The contents of a list of places.
pub open spec fn places(list: Seq<Vec<String>>) -> Seq<Seq<Seq<char>>> {
    list.map_values(|place: Vec<String>| text::texts(place@))
}

pub open spec fn ffmpeg_name(windows: bool) -> Seq<char> {
    if windows {
        "ffmpeg.exe"@
    } else {
        "ffmpeg"@
    }
}

pub open spec fn gstreamer_name(windows: bool) -> Seq<char> {
    if windows {
        "gst-launch-1.0.exe"@
    } else {
        "gst-launch-1.0"@
    }
}

pub fn ffmpeg_filename(windows: bool) -> (r: &'static str)
    ensures
        r@ == ffmpeg_name(windows),
{
    if windows {
        "ffmpeg.exe"
    } else {
        "ffmpeg"
    }
}

pub fn gstreamer_filename(windows: bool) -> (r: &'static str)
    ensures
        r@ == gstreamer_name(windows),
{
    if windows {
        "gst-launch-1.0.exe"
    } else {
        "gst-launch-1.0"
    }
}

/// Where FFmpeg may lie beside the executable, in order of preference.
pub open spec fn ffmpeg_places(windows: bool) -> Seq<Seq<Seq<char>>> {
    seq![
        seq!["binaries"@, ffmpeg_name(windows)],
        seq![ffmpeg_name(windows)],
        seq!["resources"@, "binaries"@, ffmpeg_name(windows)],
    ]
}

/// A place from its components.
fn place(components: &[&str]) -> (r: Vec<String>)
    ensures
        text::texts(r@) == text::strs(components@),
{
    let mut out: Vec<String> = Vec::new();
    text::push_all(&mut out, components);
    assert(text::texts(out@) =~= text::strs(components@));
    out
}

/// Where FFmpeg may lie beside the executable, in order of preference:
/// `binaries/` (where the installer puts it), the directory itself, and
/// `resources/binaries/` (where resources may be unpacked).
pub fn ffmpeg_candidates(windows: bool) -> (r: Vec<Vec<String>>)
    ensures
        places(r@) == ffmpeg_places(windows),
{
    let name = ffmpeg_filename(windows);
    let mut out: Vec<Vec<String>> = Vec::new();
    out.push(place(&["binaries", name]));
    out.push(place(&[name]));
    out.push(place(&["resources", "binaries", name]));
    proof {
        assert(text::texts(out@[0]@) =~= ffmpeg_places(windows)[0]);
        assert(text::texts(out@[1]@) =~= ffmpeg_places(windows)[1]);
        assert(text::texts(out@[2]@) =~= ffmpeg_places(windows)[2]);
        assert(places(out@) =~= ffmpeg_places(windows));
    }
    out
}

/// The first of several candidates that is there.
pub open spec fn first_present(present: Seq<bool>) -> Option<int>
    decreases present.len(),
{
    if present.len() == 0 {
        None
    } else {
        match first_present(present.drop_last()) {
            Some(i) => Some(i),
            None => if present.last() {
                Some(present.len() - 1)
            } else {
                None
            },
        }
    }
}

/// The place in the list of the first candidate that is there.
pub fn choose_candidate(present: &Vec<bool>) -> (r: Option<usize>)
    ensures
        match r {
            Some(i) => first_present(present@) == Some(i as int),
            None => first_present(present@) is None,
        },
{
    let n: usize = present.len();
    let mut found: Option<usize> = None;
    for i in 0..n
        invariant
            n == present@.len(),
            match found {
                Some(k) => first_present(present@.take(i as int)) == Some(k as int),
                None => first_present(present@.take(i as int)) is None,
            },
    {
        proof {
            let seen = present@.take(i + 1);
            assert(seen.drop_last() =~= present@.take(i as int));
            assert(seen.last() == present@[i as int]);
        }
        if found.is_none() && present[i] {
            found = Some(i);
        }
    }
    assert(present@.take(n as int) =~= present@);
    found
}

/// Resolve the FFmpeg executable.
///
/// Order of preference:
///   1. A `binaries/ffmpeg.exe` shipped next to the Galahad executable (the
///      installer places it there), or one of the other places beside it.
///   2. `ffmpeg` on PATH (developer machines / fallback): `None` here.
///
/// `present` tells of each candidate whether it is there.
pub fn locate_ffmpeg(windows: bool, present: &Vec<bool>) -> (r: Option<Vec<String>>)
    requires
        present@.len() <= 3,
    ensures
        match r {
            Some(place) => first_present(present@) is Some && text::texts(place@)
                == ffmpeg_places(windows)[first_present(present@)->0],
            None => first_present(present@) is None,
        },
{
    proof {
        first_present_is_first(present@);
    }
    match choose_candidate(present) {
        Some(i) => {
            let mut candidates = ffmpeg_candidates(windows);
            assert(places(candidates@).len() == 3);
            assert(places(candidates@)[i as int] == text::texts(candidates@[i as int]@));
            Some(candidates.swap_remove(i))
        },
        None => None,
    }
}

/// The environment variables that may name GStreamer's root, in order.
pub open spec fn gstreamer_variables() -> Seq<Seq<char>> {
    seq![
        "GSTREAMER_1_0_ROOT_MSVC_X86_64"@,
        "GSTREAMER_1_0_ROOT_X86_64"@,
        "GSTREAMER_1_0_ROOT_MINGW_X86_64"@,
    ]
}

pub fn gstreamer_root_variables() -> (r: Vec<String>)
    ensures
        text::texts(r@) == gstreamer_variables(),
{
    let r = place(
        &[
            "GSTREAMER_1_0_ROOT_MSVC_X86_64",
            "GSTREAMER_1_0_ROOT_X86_64",
            "GSTREAMER_1_0_ROOT_MINGW_X86_64",
        ],
    );
    assert(text::texts(r@) =~= gstreamer_variables());
    r
}

/// `bin/<name>` below each root that is set.
pub open spec fn below_roots(roots: Seq<Option<String>>, name: Seq<char>) -> Seq<Seq<Seq<char>>>
    decreases roots.len(),
{
    if roots.len() == 0 {
        seq![]
    } else {
        match roots.last() {
            Some(root) => below_roots(roots.drop_last(), name).push(seq![root@, "bin"@, name]),
            None => below_roots(roots.drop_last(), name),
        }
    }
}

/// The default install places of GStreamer.
pub open spec fn install_places(windows: bool) -> Seq<Seq<Seq<char>>> {
    if windows {
        seq![
            seq!["C:\\gstreamer\\1.0\\msvc_x86_64\\bin"@, gstreamer_name(windows)],
            seq!["C:\\Program Files\\gstreamer\\1.0\\msvc_x86_64\\bin"@, gstreamer_name(windows)],
        ]
    } else {
        seq![]
    }
}

/// `<name>` in each directory of the search path.
pub open spec fn on_search_path(dirs: Seq<String>, name: Seq<char>) -> Seq<Seq<Seq<char>>> {
    Seq::new(dirs.len(), |i: int| seq![dirs[i]@, name])
}

/// Where `gst-launch-1.0` may lie, in order of preference.
pub open spec fn gstreamer_places(
    windows: bool,
    roots: Seq<Option<String>>,
    dirs: Seq<String>,
) -> Seq<Seq<Seq<char>>> {
    below_roots(roots, gstreamer_name(windows)) + install_places(windows) + on_search_path(
        dirs,
        gstreamer_name(windows),
    )
}

/// Where the `gst-launch-1.0` executable for ST 2110 output is looked for.
///
/// GStreamer is not bundled (its ST 2110 / PTP stack is large and often
/// installed system-wide), so we look for a standard install:
///   1. below the roots that the environment names;
///   2. the default MSVC install paths (on Windows);
///   3. in the directories of the search path.
pub fn gstreamer_candidates(windows: bool, roots: &Vec<Option<String>>, dirs: &Vec<String>) -> (r: Vec<
    Vec<String>,
>)
    ensures
        places(r@) == gstreamer_places(windows, roots@, dirs@),
{
    let name = gstreamer_filename(windows);
    let mut out: Vec<Vec<String>> = Vec::new();
    let n: usize = roots.len();
    assert(places(out@) =~= below_roots(roots@.take(0), name@));
    for i in 0..n
        invariant
            n == roots@.len(),
            places(out@) == below_roots(roots@.take(i as int), name@),
    {
        let ghost before = out@;
        proof {
            let seen = roots@.take(i + 1);
            assert(seen.drop_last() =~= roots@.take(i as int));
            assert(seen.last() == roots@[i as int]);
        }
        if let Some(root) = &roots[i] {
            let p = place(&[root.as_str(), "bin", name]);
            out.push(p);
            proof {
                assert(text::texts(p@) =~= seq![root@, "bin"@, name@]);
                assert(places(out@) =~= places(before).push(text::texts(p@)));
            }
        }
    }
    assert(roots@.take(n as int) =~= roots@);
    let ghost first = places(out@);
    if windows {
        let a = place(&["C:\\gstreamer\\1.0\\msvc_x86_64\\bin", name]);
        let b = place(&["C:\\Program Files\\gstreamer\\1.0\\msvc_x86_64\\bin", name]);
        out.push(a);
        out.push(b);
        proof {
            assert(text::texts(a@) =~= install_places(windows)[0]);
            assert(text::texts(b@) =~= install_places(windows)[1]);
        }
    }
    assert(places(out@) =~= first + install_places(windows));
    let ghost second = places(out@);
    let m: usize = dirs.len();
    assert(on_search_path(dirs@, name@).take(0) =~= seq![]);
    assert(places(out@) =~= second + on_search_path(dirs@, name@).take(0));
    for i in 0..m
        invariant
            m == dirs@.len(),
            places(out@) == second + on_search_path(dirs@, name@).take(i as int),
    {
        let ghost before = out@;
        let p = place(&[dirs[i].as_str(), name]);
        out.push(p);
        proof {
            let all = on_search_path(dirs@, name@);
            assert(text::texts(p@) =~= all[i as int]);
            assert(all.take(i + 1) =~= all.take(i as int).push(all[i as int]));
            assert(places(out@) =~= places(before).push(text::texts(p@)));
        }
    }
    assert(on_search_path(dirs@, name@).take(m as int) =~= on_search_path(dirs@, name@));
    out
}

/// Where the configuration lies below the system's configuration directory.
pub fn config_file() -> (r: Vec<String>)
    ensures
        text::texts(r@) == seq!["Galahad Encoder"@, "config.json"@],
{
    let r = place(&["Galahad Encoder", "config.json"]);
    assert(text::texts(r@) =~= seq!["Galahad Encoder"@, "config.json"@]);
    r
}

/// Where the rolling local logs lie below the system's configuration directory.
pub fn log_dir() -> (r: Vec<String>)
    ensures
        text::texts(r@) == seq!["Galahad Encoder"@, "logs"@],
{
    let r = place(&["Galahad Encoder", "logs"]);
    assert(text::texts(r@) =~= seq!["Galahad Encoder"@, "logs"@]);
    r
}

/// The chosen candidate is there, and none before it is.
pub proof fn first_present_is_first(present: Seq<bool>)
    ensures
        match first_present(present) {
            Some(i) => 0 <= i < present.len() && present[i] && forall|j: int|
                0 <= j < i ==> !#[trigger] present[j],
            None => forall|j: int| 0 <= j < present.len() ==> !#[trigger] present[j],
        },
    decreases present.len(),
{
    if present.len() > 0 {
        first_present_is_first(present.drop_last());
        let before = present.drop_last();
        assert(forall|j: int| 0 <= j < before.len() ==> before[j] == #[trigger] present[j]);
    }
}

/// FFmpeg is looked for under its platform's name only, beside the executable and
/// below it: first where the installer puts it.
pub proof fn ffmpeg_is_looked_for_by_name(windows: bool, i: int)
    requires
        0 <= i < ffmpeg_places(windows).len(),
    ensures
        windows ==> ffmpeg_places(windows)[i].last() == "ffmpeg.exe"@,
        !windows ==> ffmpeg_places(windows)[i].last() == "ffmpeg"@,
        ffmpeg_places(windows)[i].len() > 1 ==> text::says(
            ffmpeg_places(windows)[i],
            "binaries"@,
            ffmpeg_places(windows)[i].last(),
        ),
        ffmpeg_places(windows)[0].len() == 2,
        i > 0 ==> ffmpeg_places(windows)[i].len() != 2,
        ffmpeg_places(windows)[i].len() == 3 ==> text::says(ffmpeg_places(windows)[i], "resources"@, "binaries"@),
{
    let place = ffmpeg_places(windows)[i];
    assert(i == 0 || i == 1 || i == 2);
    if i == 0 {
        assert(place[0] == "binaries"@ && place[1] == place.last());
    } else if i == 2 {
        assert(place[0] == "resources"@ && place[1] == "binaries"@ && place[2] == place.last());
    }
}

/// How many roots are set.
pub open spec fn roots_set(roots: Seq<Option<String>>) -> nat
    decreases roots.len(),
{
    if roots.len() == 0 {
        0
    } else {
        roots_set(roots.drop_last()) + if roots.last() is Some {
            1nat
        } else {
            0nat
        }
    }
}

proof fn roots_come_first(roots: Seq<Option<String>>, name: Seq<char>, i: int)
    ensures
        below_roots(roots, name).len() == roots_set(roots),
        0 <= i < roots.len() && roots[i] is Some ==> below_roots(roots, name)[roots_set(roots.take(i)) as int]
            == seq![roots[i]->0@, "bin"@, name] && roots_set(roots.take(i)) < roots_set(roots),
    decreases roots.len(),
{
    if roots.len() > 0 {
        let head = roots.drop_last();
        roots_come_first(head, name, i);
        if 0 <= i < head.len() {
            assert(head.take(i) =~= roots.take(i));
            assert(head[i] == roots[i]);
        } else if i == head.len() {
            assert(roots.take(i) =~= head);
        }
    }
}

/// GStreamer is looked for below every root that is set, in order; then, on Windows,
/// in the two default places; then in every directory of the search path, in order.
pub proof fn gstreamer_is_looked_for_in_order(
    windows: bool,
    roots: Seq<Option<String>>,
    dirs: Seq<String>,
    i: int,
)
    ensures
        ({
            let places = gstreamer_places(windows, roots, dirs);
            let name = if windows {
                "gst-launch-1.0.exe"@
            } else {
                "gst-launch-1.0"@
            };
            let fixed = if windows {
                2int
            } else {
                0int
            };
            let first = roots_set(roots);
            &&& places.len() == first + fixed + dirs.len()
            &&& 0 <= i < roots.len() && roots[i] is Some ==> places[roots_set(roots.take(i)) as int] == seq![
                roots[i]->0@,
                "bin"@,
                name,
            ]
            &&& 0 <= i < fixed ==> places[first + i].len() == 2 && places[first + i][1] == name
            &&& 0 <= i < dirs.len() ==> places[first + fixed + i] == seq![dirs[i]@, name]
        }),
{
    roots_come_first(roots, gstreamer_name(windows), i);
    roots_come_first(roots, gstreamer_name(windows), 0);
    assert(i == 0 || i == 1 || i < 0 || i > 1);
}

/// Every default place of GStreamer is the same directory of a 64-bit MSVC install, at the
/// root of the system drive first; the variables that name a root are GStreamer's own, that
/// of an MSVC install first.
pub proof fn gstreamer_is_installed_by_default(i: int)
    ensures
        0 <= i < 2 ==> text::begins_with(install_places(true)[i][0], "C:\\"@) && text::finishes_with(
            install_places(true)[i][0],
            "\\gstreamer\\1.0\\msvc_x86_64\\bin"@,
        ),
        install_places(true)[0][0] == "C:"@ + "\\gstreamer\\1.0\\msvc_x86_64\\bin"@,
        install_places(true)[1][0] == "C:\\Program Files"@ + "\\gstreamer\\1.0\\msvc_x86_64\\bin"@,
        install_places(false).len() == 0,
        0 <= i < gstreamer_variables().len() ==> text::begins_with(gstreamer_variables()[i], "GSTREAMER_1_0_ROOT_"@)
            && text::finishes_with(gstreamer_variables()[i], "X86_64"@),
        text::has_text(gstreamer_variables()[0], "MSVC"@) && text::has_text(gstreamer_variables()[2], "MINGW"@),
        gstreamer_variables().len() == 3 && gstreamer_variables()[1] == "GSTREAMER_1_0_ROOT_"@ + "X86_64"@,
{
    reveal_strlit("C:");
    reveal_strlit("C:\\");
    reveal_strlit("C:\\Program Files");
    reveal_strlit("\\gstreamer\\1.0\\msvc_x86_64\\bin");
    reveal_strlit("C:\\gstreamer\\1.0\\msvc_x86_64\\bin");
    reveal_strlit("C:\\Program Files\\gstreamer\\1.0\\msvc_x86_64\\bin");
    reveal_strlit("GSTREAMER_1_0_ROOT_");
    reveal_strlit("X86_64");
    reveal_strlit("MSVC");
    reveal_strlit("MINGW");
    reveal_strlit("GSTREAMER_1_0_ROOT_MSVC_X86_64");
    reveal_strlit("GSTREAMER_1_0_ROOT_X86_64");
    reveal_strlit("GSTREAMER_1_0_ROOT_MINGW_X86_64");
    let dir = "\\gstreamer\\1.0\\msvc_x86_64\\bin"@;
    let a = "C:\\gstreamer\\1.0\\msvc_x86_64\\bin"@;
    let b = "C:\\Program Files\\gstreamer\\1.0\\msvc_x86_64\\bin"@;
    assert(a =~= "C:"@ + dir);
    assert(b =~= "C:\\Program Files"@ + dir);
    assert(a.subrange(0, 3) =~= "C:\\"@);
    assert(b.subrange(0, 3) =~= "C:\\"@);
    assert(a.subrange(a.len() - dir.len(), a.len() as int) =~= dir);
    assert(b.subrange(b.len() - dir.len(), b.len() as int) =~= dir);
    let x = "GSTREAMER_1_0_ROOT_MSVC_X86_64"@;
    let y = "GSTREAMER_1_0_ROOT_X86_64"@;
    let z = "GSTREAMER_1_0_ROOT_MINGW_X86_64"@;
    assert(x.subrange(0, 19) =~= "GSTREAMER_1_0_ROOT_"@ && x.subrange(24, 30) =~= "X86_64"@);
    assert(y.subrange(0, 19) =~= "GSTREAMER_1_0_ROOT_"@ && y.subrange(19, 25) =~= "X86_64"@);
    assert(z.subrange(0, 19) =~= "GSTREAMER_1_0_ROOT_"@ && z.subrange(25, 31) =~= "X86_64"@);
    assert(y =~= "GSTREAMER_1_0_ROOT_"@ + "X86_64"@);
    assert(x.subrange(19, 23) =~= "MSVC"@ && z.subrange(19, 24) =~= "MINGW"@);
    assert(text::stands_at(x, "MSVC"@, 19) && text::stands_at(z, "MINGW"@, 19));
    assert(i < 0 || i == 0 || i == 1 || i == 2 || i > 2);
}

} // verus!
