use haval_tool::errors::ApiError;
use haval_tool::network::{is_haval_hotspot, telnet_addr};

#[test]
fn hotspot_gateway_accepted() {
    assert!(is_haval_hotspot(b"192.168.3.1").is_ok());
    assert!(is_haval_hotspot(b"192.168.3.254").is_ok());
    assert!(is_haval_hotspot(b"192.168.3.").is_ok());
}

#[test]
fn foreign_gateway_refused_with_observed_address() {
    match is_haval_hotspot(b"10.0.0.1") {
        Err(ApiError::NotHavalHotspot(seen)) => assert_eq!(seen, b"10.0.0.1".to_vec()),
        other => panic!("expected NotHavalHotspot, got {:?}", other),
    }
}

#[test]
fn near_miss_subnet_refused() {
    assert!(is_haval_hotspot(b"192.168.33.1").is_err());
    assert!(is_haval_hotspot(b"192.168.30.1").is_err());
    assert!(is_haval_hotspot(b"192.168.3").is_err());
}

#[test]
fn telnet_addr_appends_port() {
    assert_eq!(telnet_addr(b"192.168.3.1"), b"192.168.3.1:23".to_vec());
}
