use ifcfg::unix::{Address, FamilyCodes, Interface, Kind, NextHop};
use ifcfg::{AddressFamily, Endpoint, Hops, IfCfg, InterfaceAddress, IpAddress};

fn v4(a: u8, b: u8, c: u8, d: u8) -> Endpoint {
    Endpoint { ip: IpAddress::V4([a, b, c, d]), port: 0 }
}

fn interface(name: &str, addresses: Vec<Address>) -> Interface {
    Interface {
        name: name.to_string(),
        addresses,
        hardware_addr: "02:42:ac:11:00:02".to_string(),
    }
}

#[test]
fn kinds_keep_their_family() {
    assert_eq!(AddressFamily::from(Kind::Ipv4), AddressFamily::IPv4);
    assert_eq!(AddressFamily::from(Kind::Ipv6), AddressFamily::IPv6);
    assert_eq!(AddressFamily::from(Kind::Link), AddressFamily::Link);
    assert_eq!(AddressFamily::from(Kind::Packet), AddressFamily::Packet);
    assert_eq!(AddressFamily::from(Kind::Unknown(42)), AddressFamily::Unknown(42));
    assert_eq!(AddressFamily::from(Kind::Unknown(-1)), AddressFamily::Unknown(-1));
}

#[test]
fn next_hops_keep_their_variant_and_endpoint() {
    assert_eq!(
        Hops::from(NextHop::Broadcast(v4(192, 168, 1, 255))),
        Hops::Broadcast(v4(192, 168, 1, 255))
    );
    assert_eq!(
        Hops::from(NextHop::Destination(v4(10, 0, 0, 1))),
        Hops::Destination(v4(10, 0, 0, 1))
    );
}

#[test]
fn addresses_keep_every_field() {
    let native = Address {
        kind: Kind::Ipv4,
        addr: Some(v4(192, 168, 1, 7)),
        mask: Some(v4(255, 255, 255, 0)),
        hop: Some(NextHop::Broadcast(v4(192, 168, 1, 255))),
    };
    assert_eq!(
        InterfaceAddress::from(native),
        InterfaceAddress {
            address_family: AddressFamily::IPv4,
            address: Some(v4(192, 168, 1, 7)),
            mask: Some(v4(255, 255, 255, 0)),
            hop: Some(Hops::Broadcast(v4(192, 168, 1, 255))),
        }
    );
    let bare = Address { kind: Kind::Packet, addr: None, mask: None, hop: None };
    assert_eq!(
        InterfaceAddress::from(bare),
        InterfaceAddress {
            address_family: AddressFamily::Packet,
            address: None,
            mask: None,
            hop: None,
        }
    );
}

#[test]
fn record_of_an_interface_reverses_its_addresses() {
    let first = Address { kind: Kind::Packet, addr: None, mask: None, hop: None };
    let second = Address {
        kind: Kind::Ipv4,
        addr: Some(v4(172, 17, 0, 2)),
        mask: Some(v4(255, 255, 0, 0)),
        hop: Some(NextHop::Broadcast(v4(172, 17, 255, 255))),
    };
    let third = Address {
        kind: Kind::Ipv6,
        addr: Some(Endpoint { ip: IpAddress::V6([0xfe80, 0, 0, 0, 0, 0, 0, 2]), port: 0 }),
        mask: Some(Endpoint { ip: IpAddress::V6([0xffff, 0xffff, 0xffff, 0xffff, 0, 0, 0, 0]), port: 0 }),
        hop: None,
    };
    let record = IfCfg::from(&interface("eth0", vec![first, second, third]));
    assert_eq!(
        record,
        IfCfg {
            name: "eth0".to_string(),
            mac: "02:42:ac:11:00:02".to_string(),
            addresses: vec![
                InterfaceAddress::from(third),
                InterfaceAddress::from(second),
                InterfaceAddress::from(first),
            ],
            description: "".to_string(),
        }
    );
}

#[test]
fn record_of_an_interface_without_addresses() {
    let record = IfCfg::from(&interface("lo", vec![]));
    assert_eq!(record.name, "lo");
    assert_eq!(record.addresses, vec![]);
    assert_eq!(record.description, "");
}

#[test]
fn records_come_in_the_order_of_the_listing() {
    let listing = vec![interface("lo", vec![]), interface("eth0", vec![]), interface("wlan0", vec![])];
    let records = IfCfg::get(&listing).unwrap();
    let names: Vec<&str> = records.iter().map(|record| record.name.as_str()).collect();
    assert_eq!(names, vec!["lo", "eth0", "wlan0"]);
}

#[test]
fn empty_listing_has_no_records() {
    let listing: Vec<Interface> = Vec::new();
    let records = IfCfg::get(&listing);
    assert!(records.is_ok());
    assert!(records.unwrap().is_empty());
}

#[test]
fn kind_of_a_family_code() {
    let linux = FamilyCodes { inet: 2, inet6: 10, link: None, packet: Some(17) };
    assert_eq!(Kind::of(2, linux), Kind::Ipv4);
    assert_eq!(Kind::of(10, linux), Kind::Ipv6);
    assert_eq!(Kind::of(17, linux), Kind::Packet);
    assert_eq!(Kind::of(18, linux), Kind::Unknown(18));
    assert_eq!(Kind::of(0, linux), Kind::Unknown(0));
    let bsd = FamilyCodes { inet: 2, inet6: 30, link: Some(18), packet: None };
    assert_eq!(Kind::of(2, bsd), Kind::Ipv4);
    assert_eq!(Kind::of(30, bsd), Kind::Ipv6);
    assert_eq!(Kind::of(18, bsd), Kind::Link);
    assert_eq!(Kind::of(17, bsd), Kind::Unknown(17));
    assert_eq!(Kind::of(10, bsd), Kind::Unknown(10));
}

#[test]
fn next_hop_of_a_peer_address() {
    let peer = v4(192, 168, 1, 255);
    assert_eq!(NextHop::of(true, false, Some(peer)), Some(NextHop::Broadcast(peer)));
    assert_eq!(NextHop::of(true, true, Some(peer)), Some(NextHop::Broadcast(peer)));
    assert_eq!(NextHop::of(false, true, Some(peer)), Some(NextHop::Destination(peer)));
    assert_eq!(NextHop::of(false, false, Some(peer)), None);
    assert_eq!(NextHop::of(true, false, None), None);
    assert_eq!(NextHop::of(false, true, None), None);
}
