//! The portable interface record and its parts.
use vstd::prelude::*;
use crate::endpoint::{Endpoint, IpAddress};
use crate::error::IfCfgError;

verus! {

/// The address family of one address entry. A platform code that names none
/// of the known families is kept as it came.
#[derive(Clone, Copy, Debug, PartialEq, Eq)]
pub enum AddressFamily {
    IPv4,
    IPv6,
    Link,
    Packet,
    Unknown(i32),
}

/// Where traffic from an address goes next: to every host of the subnet, or
/// to one routed destination.
#[derive(Clone, Copy, Debug, PartialEq, Eq)]
pub enum Hops {
    Broadcast(Endpoint),
    Destination(Endpoint),
}

/// One address of an interface. `address` is absent where the native address
/// could not be read as an endpoint, `mask` where the prefix length is out of
/// range, `hop` where no gateway goes with the address.
#[derive(Clone, Copy, Debug, PartialEq, Eq)]
pub struct InterfaceAddress {
    pub address_family: AddressFamily,
    pub address: Option<Endpoint>,
    pub mask: Option<Endpoint>,
    pub hop: Option<Hops>,
}

/// One network interface of the host: its name, its hardware address as
/// text (empty where it has none), its addresses in order, and a free-text
/// description (empty where the platform gives none).
#[derive(Clone, Debug, PartialEq, Eq)]
pub struct IfCfg {
    pub name: String,
    pub mac: String,
    pub addresses: Vec<InterfaceAddress>,
    pub description: String,
}

/// What a portable interface record holds.
pub struct IfCfgView {
    pub name: Seq<char>,
    pub mac: Seq<char>,
    pub addresses: Seq<InterfaceAddress>,
    pub description: Seq<char>,
}

impl View for IfCfg {
    type V = IfCfgView;

    open spec fn view(&self) -> IfCfgView {
        IfCfgView {
            name: self.name@,
            mac: self.mac@,
            addresses: self.addresses@,
            description: self.description@,
        }
    }
}

/// What each of a sequence of records holds.
pub open spec fn views(records: Seq<IfCfg>) -> Seq<IfCfgView> {
    records.map_values(|record: IfCfg| record@)
}

/// The native interface records of one enumeration, of whichever platform.
pub trait Enumeration {
    /// The portable records that the native records stand for, one for each
    /// interface and in the order of the enumeration.
    spec fn portable(&self) -> Seq<IfCfgView>;

    /// Assembles the portable record of every interface.
    fn records(&self) -> (r: Vec<IfCfg>)
        ensures
            views(r@) == self.portable(),
    ;
}

impl IfCfg {
    /// The interfaces of a host as portable records, from the native records
    /// of one enumeration of them: one record for each interface, in the
    /// order of the enumeration. Once the native records are at hand nothing
    /// can fail: the result is always `Ok`, and for a host without interfaces
    /// it is an empty list.
    pub fn get<E: Enumeration>(source: &E) -> (r: Result<Vec<IfCfg>, IfCfgError>)
        ensures
            r matches Ok(records) && views(records@) == source.portable(),
            source.portable().len() == 0 ==> (r matches Ok(records) && records@.len() == 0),
    {
        Ok(source.records())
    }
}

impl AddressFamily {
    /// The family that an IP address belongs to.
    pub open spec fn of_ip(ip: IpAddress) -> AddressFamily {
        match ip {
            IpAddress::V4(_) => AddressFamily::IPv4,
            IpAddress::V6(_) => AddressFamily::IPv6,
        }
    }
}

impl Hops {
    /// The gateway that the hop leads to.
    pub open spec fn endpoint(self) -> Endpoint {
        match self {
            Hops::Broadcast(e) => e,
            Hops::Destination(e) => e,
        }
    }

    /// The hop that a gateway stands for: a broadcast where its address is
    /// the IPv4 broadcast address, a destination for every other address.
    pub open spec fn spec_toward(gateway: Endpoint) -> Hops {
        if gateway.ip.spec_is_broadcast() {
            Hops::Broadcast(gateway)
        } else {
            Hops::Destination(gateway)
        }
    }

    /// Classifies a gateway. The IPv4 broadcast address makes a `Broadcast`;
    /// any other IPv4 address, and every IPv6 address, makes a `Destination`.
    pub fn toward(gateway: Endpoint) -> (r: Hops)
        ensures
            r == Hops::spec_toward(gateway),
            r.endpoint() == gateway,
            r is Broadcast <==> gateway.ip.spec_is_broadcast(),
            gateway.ip is V6 ==> r is Destination,
    {
        if gateway.ip.is_broadcast() {
            Hops::Broadcast(gateway)
        } else {
            Hops::Destination(gateway)
        }
    }

    /// The next hop of an address whose gateway, if it has one, is `gateway`.
    pub open spec fn spec_resolve(gateway: Option<Endpoint>) -> Option<Hops> {
        match gateway {
            Some(e) => Some(Hops::spec_toward(e)),
            None => None,
        }
    }

    /// Resolves the next hop of an address from its gateway. Without a
    /// gateway there is no next hop at all.
    pub fn resolve(gateway: Option<Endpoint>) -> (r: Option<Hops>)
        ensures
            r == Hops::spec_resolve(gateway),
            r is Some <==> gateway is Some,
    {
        match gateway {
            Some(e) => Some(Hops::toward(e)),
            None => None,
        }
    }
}

impl InterfaceAddress {
    /// True where the mask, if the entry has one, is of the same family as
    /// the address, if the entry has one, and both are of the family that the
    /// entry names.
    pub open spec fn families_agree(self) -> bool {
        &&& self.address matches Some(a) ==> AddressFamily::of_ip(a.ip) == self.address_family
        &&& self.mask matches Some(m) ==> AddressFamily::of_ip(m.ip) == self.address_family
    }
}

} // verus!
