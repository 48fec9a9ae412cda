use galahad_encoder::srt::{SrtDestination, SrtMode, DEFAULT_LATENCY_MS};

#[test]
fn builds_caller_url() {
    let dest = SrtDestination::parse("1.2.3.4", 9003, 200, SrtMode::Caller).unwrap();
    assert_eq!(
        dest.to_url(),
        "srt://1.2.3.4:9003?mode=caller&latency=200&pkt_size=1316"
    );
}

#[test]
fn builds_listener_url_binds_all_interfaces() {
    let dest = SrtDestination::parse("203.0.113.7", 9003, 200, SrtMode::Listener).unwrap();
    assert_eq!(
        dest.to_url(),
        "srt://0.0.0.0:9003?mode=listener&latency=200&pkt_size=1316"
    );
}

#[test]
fn listener_allows_empty_host() {
    let dest = SrtDestination::parse("", 9003, 200, SrtMode::Listener).unwrap();
    assert!(dest.to_url().starts_with("srt://0.0.0.0:9003?mode=listener"));
}

#[test]
fn trims_host_and_defaults_latency() {
    let dest = SrtDestination::parse("  example.lan  ", 9001, 0, SrtMode::Caller).unwrap();
    assert_eq!(dest.host, "example.lan");
    assert_eq!(dest.latency_ms, DEFAULT_LATENCY_MS);
}

#[test]
fn rejects_empty_host_in_caller_mode() {
    assert!(SrtDestination::parse("   ", 9001, 200, SrtMode::Caller).is_err());
}

#[test]
fn rejects_scheme_in_host() {
    assert!(SrtDestination::parse("srt://1.2.3.4", 9001, 200, SrtMode::Caller).is_err());
}

#[test]
fn rejects_bad_port() {
    assert!(SrtDestination::parse("1.2.3.4", 0, 200, SrtMode::Caller).is_err());
    assert!(SrtDestination::parse("1.2.3.4", 70000, 200, SrtMode::Caller).is_err());
    assert!(SrtDestination::parse("", 0, 200, SrtMode::Listener).is_err());
}

#[test]
fn caller_has_single_endpoint_regardless_of_max() {
    let dest = SrtDestination::parse("1.2.3.4", 9003, 200, SrtMode::Caller).unwrap();
    assert_eq!(dest.endpoints(3).len(), 1);
}

#[test]
fn listener_fans_out_to_consecutive_ports() {
    let dest = SrtDestination::parse("203.0.113.7", 9003, 200, SrtMode::Listener).unwrap();
    let urls = dest.endpoints(3);
    assert_eq!(urls.len(), 3);
    assert!(urls[0].starts_with("srt://0.0.0.0:9003?mode=listener"));
    assert!(urls[1].starts_with("srt://0.0.0.0:9004?mode=listener"));
    assert!(urls[2].starts_with("srt://0.0.0.0:9005?mode=listener"));
}

#[test]
fn listener_clamps_max_callers() {
    let dest = SrtDestination::parse("", 9003, 200, SrtMode::Listener).unwrap();
    assert_eq!(dest.endpoints(0).len(), 1);
    assert_eq!(dest.endpoints(9).len(), 3);
}

#[test]
fn listener_drops_ports_past_range() {
    let dest = SrtDestination::parse("", 65535, 200, SrtMode::Listener).unwrap();
    // Only 65535 fits; 65536+ are dropped.
    assert_eq!(dest.endpoints(3).len(), 1);
}

#[test]
fn each_refusal_says_why() {
    let why = |host: &str, port: u32| {
        SrtDestination::parse(host, port, 200, SrtMode::Caller).unwrap_err().message()
    };
    assert_eq!(why(" ", 0), "configuration error: destination host is empty");
    assert_eq!(
        why("http://a b", 0),
        "configuration error: destination host must be an IP or hostname, not a URL"
    );
    assert_eq!(why("a b", 0), "configuration error: destination host contains whitespace");
    assert_eq!(why("a", 70000), "configuration error: port 70000 is out of range (1-65535)");
}

#[test]
fn accepted_destinations_parse_again() {
    let d = SrtDestination::parse("\thost ", 9001, 0, SrtMode::Caller).unwrap();
    let again = SrtDestination::parse(&d.host, d.port as u32, d.latency_ms, d.mode).unwrap();
    assert_eq!(d, again);
    assert_eq!(SrtMode::default(), SrtMode::Caller);
}
