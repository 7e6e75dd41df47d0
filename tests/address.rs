use pico_link::address::{
    address_config, config_from_parsed, endpoint_from_parsed, remote_endpoint, AddressConfig,
    Endpoint, Ipv4, STATIC_PREFIX_LEN,
};

#[test]
fn static_address_needs_no_negotiation() {
    let cfg = address_config("192.0.2.10");
    assert_eq!(
        cfg,
        AddressConfig::Static { address: Ipv4 { a: 192, b: 0, c: 2, d: 10 }, prefix_len: 24 }
    );
    assert!(!cfg.needs_negotiation());
    assert_eq!(cfg.configured_address(), Some(Ipv4 { a: 192, b: 0, c: 2, d: 10 }));
    assert_eq!(STATIC_PREFIX_LEN, 24);
}

#[test]
fn no_address_means_dynamic() {
    for text in ["", "dhcp", "192.0.2", "256.1.1.1", "192.0.2.10/24"] {
        let cfg = address_config(text);
        assert_eq!(cfg, AddressConfig::Dynamic);
        assert!(cfg.needs_negotiation());
        assert_eq!(cfg.configured_address(), None);
    }
}

#[test]
fn config_from_octets() {
    assert_eq!(
        config_from_parsed(Some((10, 0, 0, 7))),
        AddressConfig::Static { address: Ipv4 { a: 10, b: 0, c: 0, d: 7 }, prefix_len: 24 }
    );
    assert_eq!(config_from_parsed(None), AddressConfig::Dynamic);
}

#[test]
fn remote_endpoint_parses() {
    assert_eq!(
        remote_endpoint("198.51.100.3", 47900),
        Some(Endpoint { address: Ipv4 { a: 198, b: 51, c: 100, d: 3 }, port: 47900 })
    );
    assert_eq!(remote_endpoint("peer", 47900), None);
    assert_eq!(
        endpoint_from_parsed(Some((1, 2, 3, 4)), 5),
        Some(Endpoint { address: Ipv4 { a: 1, b: 2, c: 3, d: 4 }, port: 5 })
    );
}
