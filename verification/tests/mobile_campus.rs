use campus_login::mobile::campus::{campus_decision, pick_campus_source_ip};
use campus_login::mobile::url_host::{portal_host_of, url_host_of};
use campus_login::net::IpValue;

fn ifc(name: &str, ip: &str) -> (String, IpValue) {
    let o: Vec<u8> = ip.split('.').map(|p| p.parse().unwrap()).collect();
    (name.to_string(), IpValue::V4(o[0], o[1], o[2], o[3]))
}

#[test]
fn wlan0_campus_ip_is_preferred() {
    let ifs = vec![ifc("rmnet_data0", "10.44.5.6"), ifc("wlan0", "10.2.99.31")];
    let picked = pick_campus_source_ip(&ifs).unwrap();
    assert_eq!(picked, IpValue::V4(10, 2, 99, 31));
}

#[test]
fn cellular_interface_never_returned() {
    let ifs = vec![ifc("rmnet_data0", "10.44.5.6")];
    assert!(pick_campus_source_ip(&ifs).is_none());
}

#[test]
fn link_local_address_excluded() {
    let ifs = vec![ifc("wlan0", "169.254.10.2")];
    assert!(pick_campus_source_ip(&ifs).is_none());
}

#[test]
fn without_wlan0_any_private_ipv4_is_taken() {
    let ifs = vec![ifc("eth0", "10.2.120.8")];
    assert!(pick_campus_source_ip(&ifs).is_some());
}

#[test]
fn portal_host_extraction() {
    assert_eq!(portal_host_of("http://10.1.99.100"), "10.1.99.100");
    assert_eq!(portal_host_of("http://10.1.99.100:8080/x"), "10.1.99.100");
    assert_eq!(portal_host_of("10.1.99.100"), "10.1.99.100");
    assert_eq!(portal_host_of("http://portal.example.com/"), "portal.example.com");
}

#[test]
fn source_prefers_wlan0_over_earlier_interfaces() {
    let ifs = vec![ifc("eth0", "10.2.120.8"), ifc("ccmni1", "10.9.9.9"), ifc("wlan0", "10.2.99.31")];
    assert_eq!(pick_campus_source_ip(&ifs), Some(IpValue::V4(10, 2, 99, 31)));
    let ifs = vec![ifc("lo", "127.0.0.1"), ifc("eth0", "10.2.120.8"), ifc("eth1", "10.2.120.9")];
    assert_eq!(pick_campus_source_ip(&ifs), Some(IpValue::V4(10, 2, 120, 8)));
}

#[test]
fn host_reading_edge_cases() {
    assert_eq!(portal_host_of("http://a:8://x"), "a");
    assert_eq!(portal_host_of("http://host:abc/x"), "host:abc");
    assert_eq!(url_host_of("http://host:abc/x"), None);
    assert_eq!(url_host_of("nohost"), None);
    assert_eq!(url_host_of("https://github.com:443/a").as_deref(), Some("github.com"));
}

#[test]
fn campus_decision_is_any_probe() {
    assert!(campus_decision(false, false, true));
    assert!(!campus_decision(false, false, false));
}
