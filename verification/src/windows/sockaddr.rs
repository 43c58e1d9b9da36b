//! Reading raw socket addresses: the family that one is of, and the endpoint
//! that it holds.
use vstd::prelude::*;
use vstd::std_specs::convert::FromSpecImpl;
use crate::endpoint::{Endpoint, IpAddress};
use crate::record::AddressFamily;
use crate::windows::native::SocketAddress;

verus! {

/// The family code of IPv4 socket addresses.
pub const AF_INET: i32 = 2;

/// The family code of IPv6 socket addresses.
pub const AF_INET6: i32 = 23;

/// How many bytes after the family code an IPv4 socket address needs for its
/// port and its four octets.
pub const INET_DATA_LENGTH: usize = 6;

/// How many bytes after the family code an IPv6 socket address needs for its
/// port, its flow label and its sixteen octets.
pub const INET6_DATA_LENGTH: usize = 22;

/// The sixteen-bit number whose high octet is `hi` and whose low octet is
/// `lo`.
pub open spec fn group_of(hi: u8, lo: u8) -> u16 {
    (hi * 256 + lo) as u16
}

/// The IPv4 address in the bytes that follow the family code: the four
/// octets after the two of the port.
pub open spec fn inet_octets(data: Seq<u8>) -> [u8; 4] {
    [data[2], data[3], data[4], data[5]]
}

/// The IPv6 address in the bytes that follow the family code: eight groups
/// in network order, after the two bytes of the port and the four of the
/// flow label.
pub open spec fn inet6_groups(data: Seq<u8>) -> [u16; 8] {
    [
        group_of(data[6], data[7]),
        group_of(data[8], data[9]),
        group_of(data[10], data[11]),
        group_of(data[12], data[13]),
        group_of(data[14], data[15]),
        group_of(data[16], data[17]),
        group_of(data[18], data[19]),
        group_of(data[20], data[21]),
    ]
}

impl SocketAddress {
    /// The family that the address declares: IPv4 and IPv6 by their codes,
    /// and any other code kept as it is.
    pub open spec fn family(self) -> AddressFamily {
        if self.sa_family as i32 == AF_INET {
            AddressFamily::IPv4
        } else if self.sa_family as i32 == AF_INET6 {
            AddressFamily::IPv6
        } else {
            AddressFamily::Unknown(self.sa_family as i32)
        }
    }

    /// The endpoint that the address holds, with port zero: the IPv4 or IPv6
    /// address of a socket address of that family that is long enough to
    /// hold one, and nothing for any other.
    pub open spec fn endpoint(self) -> Option<Endpoint> {
        if self.sa_family as i32 == AF_INET && self.sa_data@.len() >= INET_DATA_LENGTH {
            Some(Endpoint { ip: IpAddress::V4(inet_octets(self.sa_data@)), port: 0 })
        } else if self.sa_family as i32 == AF_INET6 && self.sa_data@.len() >= INET6_DATA_LENGTH {
            Some(Endpoint { ip: IpAddress::V6(inet6_groups(self.sa_data@)), port: 0 })
        } else {
            None
        }
    }
}

impl<'a> From<&'a SocketAddress> for AddressFamily {
    /// Reads the family of a socket address off its family code.
    fn from(sockaddr: &'a SocketAddress) -> (r: AddressFamily) {
        let code: i32 = sockaddr.sa_family as i32;
        if code == AF_INET {
            AddressFamily::IPv4
        } else if code == AF_INET6 {
            AddressFamily::IPv6
        } else {
            AddressFamily::Unknown(code)
        }
    }
}

impl<'a> FromSpecImpl<&'a SocketAddress> for AddressFamily {
    open spec fn obeys_from_spec() -> bool {
        true
    }

    open spec fn from_spec(sockaddr: &'a SocketAddress) -> AddressFamily {
        sockaddr.family()
    }
}

fn group(hi: u8, lo: u8) -> (r: u16)
    ensures
        r == group_of(hi, lo),
{
    hi as u16 * 256 + lo as u16
}

/// Reads the endpoint out of a raw socket address. An IPv4 or IPv6 socket
/// address gives its IP address with port zero; one of another family, or one
/// too short to hold an address of its family, gives `None`.
pub fn sockaddr_to_net_socket_addr(sockaddr: &SocketAddress) -> (r: Option<Endpoint>)
    ensures
        r == sockaddr.endpoint(),
        r matches Some(e) ==> AddressFamily::of_ip(e.ip) == sockaddr.family(),
        r is Some ==> sockaddr.family() is IPv4 || sockaddr.family() is IPv6,
{
    let d = &sockaddr.sa_data;
    match AddressFamily::from(sockaddr) {
        AddressFamily::IPv4 => {
            if d.len() >= INET_DATA_LENGTH {
                let ip = IpAddress::V4([d[2], d[3], d[4], d[5]]);
                Some(Endpoint::new(ip, 0))
            } else {
                None
            }
        },
        AddressFamily::IPv6 => {
            if d.len() >= INET6_DATA_LENGTH {
                let ip = IpAddress::V6(
                    [
                        group(d[6], d[7]),
                        group(d[8], d[9]),
                        group(d[10], d[11]),
                        group(d[12], d[13]),
                        group(d[14], d[15]),
                        group(d[16], d[17]),
                        group(d[18], d[19]),
                        group(d[20], d[21]),
                    ],
                );
                Some(Endpoint::new(ip, 0))
            } else {
                None
            }
        },
        _ => None,
    }
}

} // verus!
