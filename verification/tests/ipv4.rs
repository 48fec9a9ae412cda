use galahad_encoder::ipv4::Ipv4Addr;

#[test]
fn addresses_read_back_from_their_text() {
    for a in [0u8, 9, 10, 99, 100, 255] {
        for d in [0u8, 1, 42, 254] {
            let ip = Ipv4Addr::new(a, 20, 0, d);
            assert_eq!(ip.to_text(), format!("{a}.20.0.{d}"));
            assert_eq!(Ipv4Addr::parse(&ip.to_text()), Some(ip));
        }
    }
}

#[test]
fn only_plain_dotted_decimal_is_an_address() {
    for s in ["", "1.2.3", "1.2.3.4.5", "01.2.3.4", "1.2.3.256", "1.2.3.-4", "1.2.3.4 ", "a.b.c.d",
        "1..3.4", "1.2.3.", ".1.2.3", "1.2.3.1000", "+1.2.3.4", "0x1.2.3.4", "1.2.3.00"]
    {
        assert_eq!(Ipv4Addr::parse(s), None, "{s}");
    }
    assert_eq!(Ipv4Addr::parse("0.0.0.0"), Some(Ipv4Addr::new(0, 0, 0, 0)));
}

#[test]
fn multicast_is_class_d() {
    assert!(!Ipv4Addr::new(223, 255, 255, 255).is_multicast());
    assert!(Ipv4Addr::new(224, 0, 0, 0).is_multicast());
    assert!(Ipv4Addr::new(239, 255, 255, 255).is_multicast());
    assert!(!Ipv4Addr::new(240, 0, 0, 0).is_multicast());
}
