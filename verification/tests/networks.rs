use qarax::errors::Error;
use qarax::ipv4::{attach_network_failure, compute_dhcp_range, default_gateway, network_attachment, ip_to_string, next_available_ip, normalize_inet, subnet_mask_from_cidr};

#[test]
fn subnet_masks() {
    assert_eq!(subnet_mask_from_cidr("10.0.0.0/24").as_deref(), Some("255.255.255.0"));
    assert_eq!(subnet_mask_from_cidr("10.0.0.0/0").as_deref(), Some("0.0.0.0"));
    assert_eq!(subnet_mask_from_cidr("10.0.0.0/20").as_deref(), Some("255.255.240.0"));
    assert_eq!(subnet_mask_from_cidr("10.0.0.0/33"), None);
    assert_eq!(subnet_mask_from_cidr("10.0.0.0"), None);
    assert_eq!(subnet_mask_from_cidr("10.0.0.0/x"), None);
}

#[test]
fn default_gateway_is_first_address() {
    assert_eq!(default_gateway("192.168.5.0/24"), "192.168.5.1");
    assert_eq!(default_gateway("nonsense"), "10.0.0.1");
    assert_eq!(default_gateway("10.0.0.5/24"), "10.0.0.1");
    assert_eq!(default_gateway("172.16.9.200/20"), "172.16.0.1");
    assert_eq!(default_gateway("192.168.1.255/24"), "192.168.1.1");
    assert_eq!(default_gateway("10.1.2.3/0"), "0.0.0.1");
    assert_eq!(default_gateway("10.1.2.3/32"), "10.1.2.4");
    assert_eq!(default_gateway("10.1.2.3/x"), "10.1.2.1");
    assert_eq!(default_gateway("10.1.2.3/33"), "10.0.0.1");
    assert_eq!(default_gateway("255.255.255.255/32"), "10.0.0.1");
    assert_eq!(default_gateway("10.1.2/24"), "10.0.0.1");
}

#[test]
fn dhcp_range_skips_gateway() {
    assert_eq!(
        compute_dhcp_range("10.0.0.0/24", Some("10.0.0.1")),
        ("10.0.0.2".to_string(), "10.0.0.254".to_string())
    );
    assert_eq!(
        compute_dhcp_range("10.0.0.0/24", Some("10.0.0.100")),
        ("10.0.0.1".to_string(), "10.0.0.254".to_string())
    );
    assert_eq!(
        compute_dhcp_range("172.16.4.7/22", None),
        ("172.16.4.1".to_string(), "172.16.7.254".to_string())
    );
}

#[test]
fn dhcp_start_is_first_allocated_address() {
    let (start, _) = compute_dhcp_range("10.0.0.0/24", Some("10.0.0.1"));
    assert_eq!(next_available_ip("10.0.0.0/24", Some("10.0.0.1"), &vec![]), Some(start));
}

#[test]
fn next_ip_skips_gateway_and_allocated() {
    let allocated = vec!["10.0.0.2".to_string(), "10.0.0.3".to_string()];
    assert_eq!(next_available_ip("10.0.0.0/24", Some("10.0.0.1"), &allocated).as_deref(), Some("10.0.0.4"));
    assert_eq!(next_available_ip("10.0.0.0/30", Some("10.0.0.1"), &allocated), None);
    assert_eq!(next_available_ip("10.0.0.0", None, &vec![]), None);
}

#[test]
fn addresses_render_and_normalize() {
    assert_eq!(ip_to_string(0x0a000001), "10.0.0.1");
    assert_eq!(normalize_inet(Some("10.0.0.5/32".to_string())).as_deref(), Some("10.0.0.5"));
    assert_eq!(normalize_inet(Some("10.0.0.5".to_string())).as_deref(), Some("10.0.0.5"));
    assert_eq!(normalize_inet(None), None);
}

#[test]
fn network_attachment_plans() {
    assert!(network_attachment(Some("passt"), "10.0.0.0/24", None, None).is_none());
    let a = network_attachment(Some("isolated"), "10.0.5.0/24", Some("10.0.5.1"), Some("1.1.1.1")).unwrap();
    assert_eq!((a.gateway.as_str(), a.dns.as_str()), ("10.0.5.1", "1.1.1.1"));
    assert_eq!((a.dhcp_start.as_str(), a.dhcp_end.as_str()), ("10.0.5.2", "10.0.5.254"));
    let b = network_attachment(None, "10.0.5.0/24", None, None).unwrap();
    assert_eq!((b.gateway.as_str(), b.dns.as_str()), ("10.0.5.1", "10.0.5.1"));
    assert_eq!(b.dhcp_start, "10.0.5.1");
    match attach_network_failure("bridge busy") {
        Error::UnprocessableEntity(m) => assert_eq!(m, "Failed to attach network to node: bridge busy"),
        other => panic!("unexpected {:?}", other),
    }
}
