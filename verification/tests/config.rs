use galahad_encoder::config::{ClientConfig, Identity, TransportKind, VideoSourceKind};
use galahad_encoder::presets::DEFAULT_PRESET_ID;
use galahad_encoder::srt::SrtMode;

#[test]
fn defaults_generate_player_id() {
    let cfg = ClientConfig::default();
    assert!(cfg.player_id.starts_with("player-"));
    assert_eq!(cfg.preset_id, DEFAULT_PRESET_ID);
}

#[test]
fn identity_session_is_unique_per_call() {
    let cfg = ClientConfig::default();
    let a = Identity::new(&cfg);
    let b = Identity::new(&cfg);
    assert_eq!(a.player_id, b.player_id);
    assert_ne!(a.session_id, b.session_id);
}

fn is_hex(s: &str) -> bool {
    s.chars().all(|c| c.is_ascii_digit() || ('a'..='f').contains(&c))
}

#[test]
fn generated_ids_have_their_form() {
    let cfg = ClientConfig::default();
    let tag = cfg.player_id.strip_prefix("player-").unwrap();
    assert_eq!(tag.len(), 8);
    assert!(is_hex(tag));

    let id = Identity::new(&cfg).session_id;
    let groups: Vec<&str> = id.split('-').collect();
    assert_eq!(groups.iter().map(|g| g.len()).collect::<Vec<_>>(), vec![8, 4, 4, 4, 12]);
    assert!(groups.iter().all(|g| is_hex(g)));
    assert!(groups[2].starts_with('4'));
    assert!(["8", "9", "a", "b"].iter().any(|v| groups[3].starts_with(v)));
}

#[test]
fn first_run_is_named_after_the_uuid() {
    let cfg = ClientConfig::first_run("0123abcd-0000-4000-8000-000000000000");
    assert_eq!(cfg.player_id, "player-0123abcd");
    assert_eq!(cfg.latency_ms, 200);
    assert_eq!(cfg.srt_mode, SrtMode::Caller);
    assert_eq!(cfg.srt_max_callers, 1);
    assert_eq!(cfg.transport, TransportKind::Srt);
    assert_eq!(cfg.video_source.kind, VideoSourceKind::Window);
    assert_eq!(cfg.st2110.video_dest_ip, "239.20.20.20");
    assert_eq!(cfg.st2110.audio_dest_port, 20030);
    assert_eq!(cfg.audio.sources.len(), 1);
    assert_eq!(cfg.audio.sources[0].label.as_deref(), Some("Desktop audio"));
    assert_eq!(f32::from_bits(cfg.audio.sources[0].gain.bits), 1.0);
    assert!(!cfg.encoder.allow_software && !cfg.encoder.experimental_hevc);
}

#[test]
fn only_a_missing_player_id_is_filled_in() {
    let mut cfg = ClientConfig::first_run("0123abcd");
    cfg.ensure_player_id();
    assert_eq!(cfg.player_id, "player-0123abcd");
    cfg.player_id = String::new();
    cfg.adopt_player_id("feedc0de-1");
    assert_eq!(cfg.player_id, "player-feedc0de");
    cfg.player_id = String::new();
    cfg.ensure_player_id();
    assert_eq!(cfg.player_id.len(), 15);
}

#[test]
fn muted_or_disabled_channels_are_not_live() {
    let mut source = ClientConfig::first_run("01234567").audio.sources.remove(0);
    assert!(source.is_live());
    source.muted = true;
    assert!(!source.is_live());
    source.muted = false;
    source.enabled = false;
    assert!(!source.is_live());
}

#[test]
fn sessions_carry_the_players_identity() {
    let mut cfg = ClientConfig::first_run("01234567");
    cfg.display_name = "Idan".into();
    let identity = Identity::in_session(&cfg, "s-1".into());
    assert_eq!(identity.player_id, "player-01234567");
    assert_eq!(identity.session_id, "s-1");
    assert_eq!(identity.display_name, "Idan");
}
