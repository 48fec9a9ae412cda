use galahad_encoder::paths;

#[test]
fn ffmpeg_is_looked_for_beside_the_executable() {
    assert_eq!(
        paths::ffmpeg_candidates(true),
        vec![
            vec!["binaries", "ffmpeg.exe"],
            vec!["ffmpeg.exe"],
            vec!["resources", "binaries", "ffmpeg.exe"],
        ]
    );
    assert_eq!(
        paths::locate_ffmpeg(false, &vec![false, true, true]),
        Some(vec!["ffmpeg".to_string()])
    );
    assert_eq!(
        paths::locate_ffmpeg(true, &vec![false, false, true]),
        Some(vec!["resources".to_string(), "binaries".to_string(), "ffmpeg.exe".to_string()])
    );
    assert_eq!(paths::locate_ffmpeg(true, &vec![false, false, false]), None);
    assert_eq!(paths::locate_ffmpeg(true, &vec![]), None);
}

#[test]
fn gstreamer_is_looked_for_in_order() {
    let roots = vec![None, Some("D:\\gst".to_string()), None];
    let dirs = vec!["C:\\tools".to_string()];
    assert_eq!(
        paths::gstreamer_candidates(true, &roots, &dirs),
        vec![
            vec!["D:\\gst", "bin", "gst-launch-1.0.exe"],
            vec!["C:\\gstreamer\\1.0\\msvc_x86_64\\bin", "gst-launch-1.0.exe"],
            vec!["C:\\Program Files\\gstreamer\\1.0\\msvc_x86_64\\bin", "gst-launch-1.0.exe"],
            vec!["C:\\tools", "gst-launch-1.0.exe"],
        ]
    );
    assert_eq!(
        paths::gstreamer_candidates(false, &vec![], &dirs),
        vec![vec!["C:\\tools", "gst-launch-1.0"]]
    );
    assert_eq!(
        paths::gstreamer_root_variables(),
        vec![
            "GSTREAMER_1_0_ROOT_MSVC_X86_64",
            "GSTREAMER_1_0_ROOT_X86_64",
            "GSTREAMER_1_0_ROOT_MINGW_X86_64",
        ]
    );
}

#[test]
fn first_candidate_that_is_there_is_chosen() {
    assert_eq!(paths::choose_candidate(&vec![false, true, true]), Some(1));
    assert_eq!(paths::choose_candidate(&vec![false, false]), None);
}

#[test]
fn own_files_lie_below_the_config_directory() {
    assert_eq!(paths::config_file(), vec!["Galahad Encoder", "config.json"]);
    assert_eq!(paths::log_dir(), vec!["Galahad Encoder", "logs"]);
}
