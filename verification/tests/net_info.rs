use galahad_encoder::ipv4::Ipv4Addr;
use galahad_encoder::net_info::{
    detect, ip_request, local_ip, next_provider, parse_ip_from_response, parse_ipv4, providers,
};

#[test]
fn parses_ip_from_plain_body() {
    let response = "HTTP/1.1 200 OK\r\nContent-Length: 11\r\n\r\n203.0.113.9";
    assert_eq!(
        parse_ip_from_response(response),
        Some("203.0.113.9".to_string())
    );
}

#[test]
fn parses_ip_with_trailing_newline() {
    let response = "HTTP/1.1 200 OK\r\n\r\n198.51.100.4\n";
    assert_eq!(
        parse_ip_from_response(response),
        Some("198.51.100.4".to_string())
    );
}

#[test]
fn parses_ip_from_chunked_body() {
    // Chunk size "b" then the IP then terminating chunk.
    let response = "HTTP/1.1 200 OK\r\nTransfer-Encoding: chunked\r\n\r\nb\r\n192.0.2.55\r\n0\r\n\r\n";
    assert_eq!(
        parse_ip_from_response(response),
        Some("192.0.2.55".to_string())
    );
}

#[test]
fn ignores_non_ip_bodies() {
    let response = "HTTP/1.1 500 Error\r\n\r\nservice unavailable";
    assert_eq!(parse_ip_from_response(response), None);
}

#[test]
fn rejects_out_of_range_octets() {
    assert_eq!(parse_ipv4("999.1.1.1"), None);
}

#[test]
fn services_are_asked_over_http() {
    let hosts: Vec<&str> = providers().iter().map(|p| p.host).collect();
    assert_eq!(hosts, vec!["api.ipify.org", "checkip.amazonaws.com", "ifconfig.me"]);
    assert_eq!(
        ip_request("ifconfig.me", "/ip"),
        "GET /ip HTTP/1.1\r\nHost: ifconfig.me\r\nUser-Agent: galahad-encoder\r\n\
         Accept: text/plain\r\nConnection: close\r\n\r\n"
    );
}

#[test]
fn the_first_reply_with_an_address_counts() {
    let replies = vec![
        None,
        Some("HTTP/1.1 503\r\n\r\nbusy".to_string()),
        Some("HTTP/1.1 200\r\n\r\n203.0.113.9\n".to_string()),
        Some("198.51.100.4".to_string()),
    ];
    let info = detect(&replies, Some(Ipv4Addr::new(192, 168, 1, 7)));
    assert_eq!(info.public.as_deref(), Some("203.0.113.9"));
    assert_eq!(info.local.as_deref(), Some("192.168.1.7"));
    let info = detect(&vec![], Some(Ipv4Addr::new(0, 0, 0, 0)));
    assert_eq!((info.public, info.local), (None, None));
    assert_eq!(local_ip(None), None);
}

#[test]
fn services_are_asked_until_one_answers() {
    let mut replies: Vec<Option<String>> = vec![];
    assert_eq!(next_provider(&replies).unwrap().host, "api.ipify.org");
    replies.push(None);
    assert_eq!(next_provider(&replies).unwrap().host, "checkip.amazonaws.com");
    replies.push(Some("HTTP/1.1 500 Error\r\n\r\nservice unavailable".into()));
    let last = next_provider(&replies).unwrap();
    assert_eq!((last.host, last.path), ("ifconfig.me", "/ip"));
    replies.push(None);
    assert!(next_provider(&replies).is_none());
    assert!(next_provider(&vec![Some("HTTP/1.1 200 OK\r\n\r\n203.0.113.9".into())]).is_none());
}
