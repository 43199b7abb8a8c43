use lu_handshake::addr::{
    get_ipv4, is_ipv4_mappable, normalize_address, IpAddress, Ipv4Address, Ipv6Address,
    SocketAddress, SystemAddress,
};

fn loopback6() -> Ipv6Address {
    Ipv6Address { s0: 0, s1: 0, s2: 0, s3: 0, s4: 0, s5: 0, s6: 0, s7: 1 }
}

#[test]
fn ipv4_input_is_kept_unchanged() {
    let ip = Ipv4Address { a: 10, b: 20, c: 30, d: 40 };
    assert_eq!(get_ipv4(IpAddress::V4(ip)), ip);
}

#[test]
fn normalization_is_idempotent_on_ipv4() {
    let sa = SocketAddress { ip: IpAddress::V4(Ipv4Address { a: 8, b: 8, c: 8, d: 8 }), port: 53 };
    let once = normalize_address(sa);
    let again = normalize_address(SocketAddress { ip: IpAddress::V4(once.ip), port: once.port });
    assert_eq!(once, again);
    assert_eq!(once, SystemAddress { ip: Ipv4Address { a: 8, b: 8, c: 8, d: 8 }, port: 53 });
}

#[test]
fn v6_loopback_maps_to_ipv4_loopback_whatever_the_port() {
    for port in [0u16, 1, 3000, 65535] {
        let sa = SocketAddress { ip: IpAddress::V6(loopback6()), port };
        let sys = normalize_address(sa);
        assert_eq!(sys.ip, Ipv4Address { a: 127, b: 0, c: 0, d: 1 });
        assert_eq!(sys.port, port);
    }
}

#[test]
fn mappability_is_decided_correctly() {
    assert!(is_ipv4_mappable(IpAddress::V4(Ipv4Address { a: 0, b: 0, c: 0, d: 0 })));
    assert!(is_ipv4_mappable(IpAddress::V6(loopback6())));
    let unspecified = Ipv6Address { s0: 0, s1: 0, s2: 0, s3: 0, s4: 0, s5: 0, s6: 0, s7: 0 };
    assert!(!is_ipv4_mappable(IpAddress::V6(unspecified)));
    let global = Ipv6Address { s0: 0x2001, s1: 0xdb8, s2: 0, s3: 0, s4: 0, s5: 0, s6: 0, s7: 1 };
    assert!(!is_ipv4_mappable(IpAddress::V6(global)));
}
