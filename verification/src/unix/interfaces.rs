//! Interfaces of a Unix host and their conversion to portable records.
use vstd::prelude::*;
use vstd::std_specs::convert::FromSpecImpl;
use crate::endpoint::Endpoint;
use crate::record::{views, AddressFamily, Enumeration, Hops, IfCfg, IfCfgView, InterfaceAddress};

verus! {

/// The kind of an address as the platform names it.
#[derive(Clone, Copy, Debug, PartialEq, Eq)]
pub enum Kind {
    Ipv4,
    Ipv6,
    Link,
    Packet,
    Unknown(i32),
}

/// The next hop of an address as the platform names it.
#[derive(Clone, Copy, Debug, PartialEq, Eq)]
pub enum NextHop {
    Broadcast(Endpoint),
    Destination(Endpoint),
}

/// One address of an interface as the platform lists it.
#[derive(Clone, Copy, Debug, PartialEq, Eq)]
pub struct Address {
    pub kind: Kind,
    pub addr: Option<Endpoint>,
    pub mask: Option<Endpoint>,
    pub hop: Option<NextHop>,
}

/// One interface as the platform lists it: its name, its addresses in the
/// order of the listing, and its hardware address as text.
#[derive(Clone, Debug, PartialEq, Eq)]
pub struct Interface {
    pub name: String,
    pub addresses: Vec<Address>,
    pub hardware_addr: String,
}

/// The codes by which one Unix platform names the address families that the
/// library knows. A platform has a code for link-layer addresses, or one for
/// packet addresses, or neither.
#[derive(Clone, Copy, Debug, PartialEq, Eq)]
pub struct FamilyCodes {
    pub inet: i32,
    pub inet6: i32,
    pub link: Option<i32>,
    pub packet: Option<i32>,
}

impl Kind {
    /// The kind that a family code stands for on a platform with the given
    /// codes. Where several families share a code, the first of IPv4, IPv6,
    /// link and packet has it; a code of none of them is kept as it is.
    pub open spec fn spec_of(code: i32, codes: FamilyCodes) -> Kind {
        if code == codes.inet {
            Kind::Ipv4
        } else if code == codes.inet6 {
            Kind::Ipv6
        } else if codes.link == Some(code) {
            Kind::Link
        } else if codes.packet == Some(code) {
            Kind::Packet
        } else {
            Kind::Unknown(code)
        }
    }

    /// Reads the kind of an address off its family code.
    pub fn of(code: i32, codes: FamilyCodes) -> (r: Kind)
        ensures
            r == Kind::spec_of(code, codes),
    {
        if code == codes.inet {
            Kind::Ipv4
        } else if code == codes.inet6 {
            Kind::Ipv6
        } else if Kind::names(codes.link, code) {
            Kind::Link
        } else if Kind::names(codes.packet, code) {
            Kind::Packet
        } else {
            Kind::Unknown(code)
        }
    }

    fn names(family: Option<i32>, code: i32) -> (r: bool)
        ensures
            r == (family == Some(code)),
    {
        match family {
            Some(own) => own == code,
            None => false,
        }
    }

    /// The portable family of the kind: the same family by its portable
    /// name, and an unknown code kept as it is.
    pub open spec fn family(self) -> AddressFamily {
        match self {
            Kind::Ipv4 => AddressFamily::IPv4,
            Kind::Ipv6 => AddressFamily::IPv6,
            Kind::Link => AddressFamily::Link,
            Kind::Packet => AddressFamily::Packet,
            Kind::Unknown(code) => AddressFamily::Unknown(code),
        }
    }
}

impl NextHop {
    /// The next hop of an address on an interface that can broadcast, or
    /// that is one end of a point-to-point link, where `peer` is the other
    /// address that the interface gives for it: a broadcast address on a
    /// broadcasting interface, and else a destination on a point-to-point
    /// link. Without a peer, or on an interface of neither sort, there is
    /// no next hop.
    pub open spec fn spec_of(broadcast: bool, point_to_point: bool, peer: Option<Endpoint>) -> Option<
        NextHop,
    > {
        match peer {
            Some(e) if broadcast => Some(NextHop::Broadcast(e)),
            Some(e) if point_to_point => Some(NextHop::Destination(e)),
            _ => None,
        }
    }

    /// Resolves the next hop of an address from the sort of its interface
    /// and the peer address that the interface gives for it.
    pub fn of(broadcast: bool, point_to_point: bool, peer: Option<Endpoint>) -> (r: Option<NextHop>)
        ensures
            r == NextHop::spec_of(broadcast, point_to_point, peer),
            peer is None ==> r is None,
    {
        match peer {
            Some(e) => {
                if broadcast {
                    Some(NextHop::Broadcast(e))
                } else if point_to_point {
                    Some(NextHop::Destination(e))
                } else {
                    None
                }
            },
            None => None,
        }
    }

    /// The portable next hop: the same variant with the same endpoint.
    pub open spec fn hops(self) -> Hops {
        match self {
            NextHop::Broadcast(e) => Hops::Broadcast(e),
            NextHop::Destination(e) => Hops::Destination(e),
        }
    }
}

impl Address {
    /// The portable entry of the address: every field carried over, absent
    /// where it is absent here.
    pub open spec fn entry(self) -> InterfaceAddress {
        InterfaceAddress {
            address_family: self.kind.family(),
            address: self.addr,
            mask: self.mask,
            hop: match self.hop {
                Some(next_hop) => Some(next_hop.hops()),
                None => None,
            },
        }
    }
}

impl Interface {
    /// The portable record of the interface: its name, its hardware address,
    /// the entries of its addresses in the reverse of the listing's order,
    /// and an empty description.
    pub open spec fn record(self) -> IfCfgView {
        IfCfgView {
            name: self.name@,
            mac: self.hardware_addr@,
            addresses: self.addresses@.map_values(|address: Address| address.entry()).reverse(),
            description: Seq::empty(),
        }
    }
}

impl From<Kind> for AddressFamily {
    fn from(kind: Kind) -> (r: AddressFamily) {
        match kind {
            Kind::Ipv4 => AddressFamily::IPv4,
            Kind::Ipv6 => AddressFamily::IPv6,
            Kind::Link => AddressFamily::Link,
            Kind::Packet => AddressFamily::Packet,
            Kind::Unknown(v) => AddressFamily::Unknown(v),
        }
    }
}

impl FromSpecImpl<Kind> for AddressFamily {
    open spec fn obeys_from_spec() -> bool {
        true
    }

    open spec fn from_spec(kind: Kind) -> AddressFamily {
        kind.family()
    }
}

impl From<NextHop> for Hops {
    fn from(next_hop: NextHop) -> (r: Hops) {
        match next_hop {
            NextHop::Broadcast(v) => Hops::Broadcast(v),
            NextHop::Destination(v) => Hops::Destination(v),
        }
    }
}

impl FromSpecImpl<NextHop> for Hops {
    open spec fn obeys_from_spec() -> bool {
        true
    }

    open spec fn from_spec(next_hop: NextHop) -> Hops {
        next_hop.hops()
    }
}

impl From<Address> for InterfaceAddress {
    fn from(address: Address) -> (r: InterfaceAddress) {
        InterfaceAddress {
            address_family: AddressFamily::from(address.kind),
            address: address.addr,
            mask: address.mask,
            hop: match address.hop {
                Some(next_hop) => Some(Hops::from(next_hop)),
                None => None,
            },
        }
    }
}

impl FromSpecImpl<Address> for InterfaceAddress {
    open spec fn obeys_from_spec() -> bool {
        true
    }

    open spec fn from_spec(address: Address) -> InterfaceAddress {
        address.entry()
    }
}

impl<'a> FromSpecImpl<&'a Interface> for IfCfg {
    /// No spec function can build the strings of a record, so the conversion
    /// states what it returns in its own contract, over the record's view.
    open spec fn obeys_from_spec() -> bool {
        false
    }

    open spec fn from_spec(interface: &'a Interface) -> IfCfg {
        choose|r: IfCfg| r@ == interface.record()
    }
}

impl<'a> From<&'a Interface> for IfCfg {
    /// Assembles the portable record of an interface. The addresses come out
    /// in the reverse of the order in which the platform lists them.
    fn from(interface: &'a Interface) -> (r: IfCfg)
        ensures
            r@ == interface.record(),
    {
        let ghost entries = interface.addresses@.map_values(|address: Address| address.entry());
        let n = interface.addresses.len();
        let mut addresses: Vec<InterfaceAddress> = Vec::new();
        let mut i: usize = n;
        while i > 0
            invariant
                i <= n,
                n == interface.addresses@.len(),
                entries == interface.addresses@.map_values(|address: Address| address.entry()),
                addresses@.len() == n - i,
                forall|k: int| 0 <= k < n - i ==> addresses@[k] == entries[n - 1 - k],
            decreases i,
        {
            i -= 1;
            addresses.push(InterfaceAddress::from(interface.addresses[i]));
        }
        proof {
            assert(addresses@ =~= entries.reverse());
        }
        IfCfg {
            name: interface.name.clone(),
            mac: interface.hardware_addr.clone(),
            addresses,
            description: String::new(),
        }
    }
}

impl Enumeration for Vec<Interface> {
    /// The record of each interface, in the order of the listing.
    open spec fn portable(&self) -> Seq<IfCfgView> {
        self@.map_values(|interface: Interface| interface.record())
    }

    fn records(&self) -> (r: Vec<IfCfg>) {
        let mut results: Vec<IfCfg> = Vec::new();
        let mut i: usize = 0;
        while i < self.len()
            invariant
                i <= self@.len(),
                results@.len() == i,
                forall|k: int| 0 <= k < i ==> (#[trigger] results@[k])@ == self@[k].record(),
            decreases self@.len() - i,
        {
            results.push(IfCfg::from(&self[i]));
            i += 1;
        }
        proof {
            assert(views(results@) =~= self.portable());
        }
        results
    }
}

} // verus!
