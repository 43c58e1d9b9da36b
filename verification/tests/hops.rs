use ifcfg::{Endpoint, Hops, IpAddress};

fn v4(a: u8, b: u8, c: u8, d: u8) -> Endpoint {
    Endpoint::new(IpAddress::V4([a, b, c, d]), 0)
}

#[test]
fn broadcast_gateway_is_a_broadcast_hop() {
    let gateway = v4(255, 255, 255, 255);
    assert_eq!(Hops::toward(gateway), Hops::Broadcast(gateway));
    assert!(gateway.ip.is_broadcast());
}

#[test]
fn unicast_gateway_is_a_destination_hop() {
    let gateway = v4(10, 0, 0, 1);
    assert_eq!(Hops::toward(gateway), Hops::Destination(gateway));
    assert!(!gateway.ip.is_broadcast());
}

#[test]
fn nearly_broadcast_gateways_are_destinations() {
    for gateway in [v4(255, 255, 255, 254), v4(0, 255, 255, 255), v4(255, 255, 0, 255), v4(192, 168, 1, 255)] {
        assert_eq!(Hops::toward(gateway), Hops::Destination(gateway));
    }
}

#[test]
fn ipv6_gateway_is_always_a_destination_hop() {
    let all_ones = Endpoint::new(IpAddress::V6([0xffff; 8]), 0);
    let link_local = Endpoint::new(IpAddress::V6([0xfe80, 0, 0, 0, 0, 0, 0, 1]), 0);
    let mapped_broadcast = Endpoint::new(IpAddress::V6([0, 0, 0, 0, 0, 0xffff, 0xffff, 0xffff]), 0);
    for gateway in [all_ones, link_local, mapped_broadcast] {
        assert_eq!(Hops::toward(gateway), Hops::Destination(gateway));
        assert!(!gateway.ip.is_broadcast());
    }
}

#[test]
fn the_port_of_a_gateway_does_not_decide() {
    let gateway = Endpoint::new(IpAddress::V4([255, 255, 255, 255]), 67);
    assert_eq!(Hops::toward(gateway), Hops::Broadcast(gateway));
}

#[test]
fn no_gateway_is_no_hop_at_all() {
    assert_eq!(Hops::resolve(None), None);
    assert_eq!(
        Hops::resolve(Some(v4(10, 0, 0, 1))),
        Some(Hops::Destination(v4(10, 0, 0, 1)))
    );
    assert_eq!(
        Hops::resolve(Some(v4(255, 255, 255, 255))),
        Some(Hops::Broadcast(v4(255, 255, 255, 255)))
    );
}

#[test]
fn endpoint_new_keeps_address_and_port() {
    let endpoint = Endpoint::new(IpAddress::V4([1, 2, 3, 4]), 8080);
    assert_eq!(endpoint.ip, IpAddress::V4([1, 2, 3, 4]));
    assert_eq!(endpoint.port, 8080);
}
