use galahad_encoder::preview::{
    is_stale, parse_request_target, requested_file, resolve_file, response_header, PreviewManager,
};

#[test]
fn parses_get_target_and_strips_query() {
    assert_eq!(
        parse_request_target("GET /preview.m3u8?_=1 HTTP/1.1\r\nHost: x\r\n\r\n"),
        Some("preview.m3u8".to_string())
    );
}

#[test]
fn rejects_non_get() {
    assert_eq!(parse_request_target("POST /preview.m3u8 HTTP/1.1"), None);
}

#[test]
fn resolves_playlist_and_segments() {
    assert_eq!(
        resolve_file("preview.m3u8".into()),
        Some(("preview.m3u8".into(), "application/vnd.apple.mpegurl"))
    );
    assert_eq!(
        resolve_file("preview3.ts".into()),
        Some(("preview3.ts".into(), "video/mp2t"))
    );
}

#[test]
fn rejects_traversal_and_other_files() {
    assert_eq!(resolve_file("../secret.ts".into()), None);
    assert_eq!(resolve_file("sub/dir.ts".into()), None);
    assert_eq!(resolve_file("config.json".into()), None);
}

#[test]
fn preview_state_decides_the_status() {
    let mut m = PreviewManager::new("/tmp/preview".into());
    assert_eq!(m.dir(), "/tmp/preview");
    let idle = "Start an SRT stream to preview the encoded output.";
    assert_eq!(m.status().reason.as_deref(), Some(idle));
    m.set_active(true);
    // No server yet.
    assert!(!m.status().available);
    assert!(m.needs_server());
    m.server_started(4100);
    m.server_started(4200);
    assert!(!m.needs_server());
    let status = m.status();
    assert!(status.available);
    assert_eq!(status.url.as_deref(), Some("http://127.0.0.1:4100/preview.m3u8"));
    assert_eq!(status.reason, None);
    m.begin_unsupported("ST 2110 cannot be previewed".into());
    assert_eq!(m.status().reason.as_deref(), Some("ST 2110 cannot be previewed"));
    m.set_active(false);
    assert_eq!(m.status().reason.as_deref(), Some("ST 2110 cannot be previewed"));
    m.end();
    assert_eq!(m.status().reason.as_deref(), Some(idle));
    assert_eq!(m.status().url, None);
}

#[test]
fn requests_map_to_files() {
    assert_eq!(
        requested_file("GET ///preview7.ts?x=/.. HTTP/1.1\r\n\r\n"),
        Some(("preview7.ts".to_string(), "video/mp2t"))
    );
    assert_eq!(requested_file("GET /a\\b.ts HTTP/1.1"), None);
    assert_eq!(requested_file("GET / HTTP/1.1"), None);
    assert_eq!(requested_file("GET"), None);
    assert_eq!(requested_file(""), None);
}

#[test]
fn leftovers_are_known_by_extension() {
    assert!(is_stale("ts") && is_stale("TS") && is_stale("M3u8"));
    assert!(!is_stale("json") && !is_stale("") && !is_stale("tss"));
}

#[test]
fn responses_are_never_cached() {
    assert_eq!(
        response_header("404 Not Found", "text/plain", 9),
        "HTTP/1.1 404 Not Found\r\nContent-Type: text/plain\r\nContent-Length: 9\r\n\
         Cache-Control: no-cache, no-store, must-revalidate\r\n\
         Access-Control-Allow-Origin: *\r\nConnection: close\r\n\r\n"
    );
}

#[test]
fn previews_need_a_server_and_an_active_stream() {
    let mut m = PreviewManager::new("/tmp/p".into());
    m.set_active(true);
    assert!(!m.status().available);
    m.server_started(5050);
    m.server_started(6060);
    assert_eq!(m.status().url.as_deref(), Some("http://127.0.0.1:5050/preview.m3u8"));
    assert_eq!(m.status().reason, None);
    m.begin_unsupported("no".into());
    assert_eq!(m.status().reason.as_deref(), Some("no"));
    m.set_active(false);
    assert!(!m.status().available);
    m.set_active(true);
    assert!(m.status().available);
    m.end();
    assert!(!m.status().available && m.status().url.is_none());
}
