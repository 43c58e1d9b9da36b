//! Network endpoints: an IP address and a port.
use vstd::prelude::*;

verus! {

/// An IPv4 or IPv6 address, held in network order: four octets, or eight
/// sixteen-bit groups.
#[derive(Clone, Copy, Debug, PartialEq, Eq)]
pub enum IpAddress {
    V4([u8; 4]),
    V6([u16; 8]),
}

/// An IP address together with a port. Records that only describe addressing
/// carry port zero.
#[derive(Clone, Copy, Debug, PartialEq, Eq)]
pub struct Endpoint {
    pub ip: IpAddress,
    pub port: u16,
}

/// The four octets of the IPv4 limited-broadcast address, 255.255.255.255.
pub open spec fn broadcast_octets() -> Seq<u8> {
    seq![255u8, 255u8, 255u8, 255u8]
}

impl IpAddress {
    /// True for the IPv4 limited-broadcast address and for nothing else.
    pub open spec fn spec_is_broadcast(self) -> bool {
        match self {
            IpAddress::V4(o) => o@ == broadcast_octets(),
            IpAddress::V6(_) => false,
        }
    }

    /// Tells whether this is the IPv4 limited-broadcast address.
    pub fn is_broadcast(&self) -> (r: bool)
        ensures
            r == self.spec_is_broadcast(),
    {
        match self {
            IpAddress::V4(o) => {
                let r = o[0] == 255 && o[1] == 255 && o[2] == 255 && o[3] == 255;
                proof {
                    if r {
                        assert(o@ =~= broadcast_octets());
                    } else {
                        assert(broadcast_octets()[0] == 255u8 && broadcast_octets()[1] == 255u8
                            && broadcast_octets()[2] == 255u8 && broadcast_octets()[3] == 255u8);
                    }
                }
                r
            },
            IpAddress::V6(_) => false,
        }
    }
}

impl Endpoint {
    /// An endpoint for `ip` with the given port.
    pub fn new(ip: IpAddress, port: u16) -> (r: Endpoint)
        ensures
            r.ip == ip,
            r.port == port,
    {
        Endpoint { ip, port }
    }
}

} // verus!
