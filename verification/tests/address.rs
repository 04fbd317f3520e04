use netns_bridge::address::{IpAddress, IpNetwork};
use netns_bridge::naming::host_veth_name;

fn v4(a: u8, b: u8, c: u8, d: u8) -> IpAddress {
    IpAddress::V4(u32::from_be_bytes([a, b, c, d]))
}

#[test]
fn ipv4_network_accepts_prefix_up_to_32() {
    let net = IpNetwork::new(v4(10, 88, 0, 5), 16).unwrap();
    assert_eq!(net.addr(), v4(10, 88, 0, 5));
    assert_eq!(net.prefix_len(), 16);
    assert!(IpNetwork::new(v4(10, 88, 0, 5), 0).is_some());
    assert!(IpNetwork::new(v4(10, 88, 0, 5), 32).is_some());
}

#[test]
fn ipv4_network_refuses_prefix_over_32() {
    assert_eq!(IpNetwork::new(v4(10, 1, 1, 0), 33), None);
    assert_eq!(IpNetwork::new(v4(10, 1, 1, 0), 255), None);
}

#[test]
fn ipv6_network_accepts_prefix_up_to_128() {
    let addr = IpAddress::V6(0xfd00_0000_0000_0000_0000_0000_0000_0001);
    let net = IpNetwork::new(addr, 64).unwrap();
    assert_eq!(net.addr(), addr);
    assert_eq!(net.prefix_len(), 64);
    assert!(IpNetwork::new(addr, 128).is_some());
    assert_eq!(IpNetwork::new(addr, 129), None);
}

#[test]
fn ipv4_netmask_values() {
    let mask = |p: u8| IpNetwork::new(v4(10, 1, 0, 0), p).unwrap().netmask();
    assert_eq!(mask(20), v4(255, 255, 240, 0));
    assert_eq!(mask(16), v4(255, 255, 0, 0));
    assert_eq!(mask(0), v4(0, 0, 0, 0));
    assert_eq!(mask(1), v4(128, 0, 0, 0));
    assert_eq!(mask(32), v4(255, 255, 255, 255));
}

#[test]
fn ipv6_netmask_values() {
    let addr = IpAddress::V6(0xfd00_0000_0000_0000_0000_0000_0000_0000);
    let mask = |p: u8| IpNetwork::new(addr, p).unwrap().netmask();
    assert_eq!(mask(24), IpAddress::V6(0xffff_ff00_0000_0000_0000_0000_0000_0000));
    assert_eq!(mask(0), IpAddress::V6(0));
    assert_eq!(mask(64), IpAddress::V6(0xffff_ffff_ffff_ffff_0000_0000_0000_0000));
    assert_eq!(mask(128), IpAddress::V6(u128::MAX));
}

#[test]
fn netmask_does_not_depend_on_the_address() {
    let a = IpNetwork::new(v4(10, 1, 0, 0), 12).unwrap().netmask();
    let b = IpNetwork::new(v4(192, 168, 7, 9), 12).unwrap().netmask();
    assert_eq!(a, b);
    assert_eq!(a, v4(255, 240, 0, 0));
}

#[test]
fn longest_prefix_of_each_family() {
    assert_eq!(v4(1, 2, 3, 4).max_prefix_len(), 32);
    assert_eq!(IpAddress::V6(1).max_prefix_len(), 128);
}

#[test]
fn host_veth_name_is_veth_and_lower_case_hex() {
    assert_eq!(host_veth_name(0xdeadbeef), "vethdeadbeef");
    assert_eq!(host_veth_name(0), "veth0");
    assert_eq!(host_veth_name(9), "veth9");
    assert_eq!(host_veth_name(10), "vetha");
    assert_eq!(host_veth_name(15), "vethf");
    assert_eq!(host_veth_name(16), "veth10");
    assert_eq!(host_veth_name(255), "vethff");
    assert_eq!(host_veth_name(0x1a2b3c), "veth1a2b3c");
    assert_eq!(host_veth_name(u32::MAX), "vethffffffff");
}

#[test]
fn host_veth_name_agrees_with_hex_formatting() {
    let mut n: u32 = 1;
    for _ in 0..200 {
        assert_eq!(host_veth_name(n), format!("veth{:x}", n));
        n = n.wrapping_mul(2654435761).wrapping_add(12345);
    }
}
