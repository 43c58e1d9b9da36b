//! Adapter records in the shape the operating system gives them, with every
//! pointer replaced by what it leads to: a chain link by the next record, a
//! string by its buffer, a socket address by its bytes.
use vstd::prelude::*;
use crate::text::{
    c_char_array_to_string, contents, hardware_text, narrow_text, octets_in_use,
    physical_address_to_string, u16_array_to_string, wide_text,
};

verus! {

/// The size in bytes of the buffer that the first query for adapters offers.
pub const WORKING_BUFFER_SIZEL: u32 = 15000;

/// The number of octets that an adapter record reserves for its hardware
/// address.
pub const MAX_ADAPTER_ADDRESS_LENGTH: usize = 8;

/// Head of a record: its length in bytes, and the index of its interface.
#[derive(Clone, Copy, Debug, PartialEq, Eq)]
pub struct LengthIfIndex {
    pub length: u32,
    pub ifindex: u32,
}

/// Head of a record: its length in bytes, and its flags.
#[derive(Clone, Copy, Debug, PartialEq, Eq)]
pub struct LengthFlags {
    pub length: u32,
    pub flags: u32,
}

/// Head of a record: its length in bytes, and a reserved word.
#[derive(Clone, Copy, Debug, PartialEq, Eq)]
pub struct LengthReserved {
    pub length: u32,
    pub reserved: u32,
}

/// A socket address as raw bytes: the family code that heads it, and the
/// bytes that follow the code, as many as the record declares.
#[derive(Clone, Debug, PartialEq, Eq)]
pub struct SocketAddress {
    pub sa_family: u16,
    pub sa_data: Vec<u8>,
}

/// One address prefix of an adapter, and the rest of the adapter's prefixes.
#[derive(Debug, PartialEq, Eq)]
pub struct IpAdapterPrefix {
    pub aol: LengthIfIndex,
    pub next: Option<Box<IpAdapterPrefix>>,
    pub address: SocketAddress,
    pub prefix_length: u32,
}

/// One unicast address of an adapter, and the rest of the adapter's unicast
/// addresses.
#[derive(Debug, PartialEq, Eq)]
pub struct IpAdapterUnicastAddress {
    pub aol: LengthFlags,
    pub next: Option<Box<IpAdapterUnicastAddress>>,
    pub address: SocketAddress,
    pub on_link_prefix_length: u8,
}

/// One WINS server of an adapter, and the rest of them.
#[derive(Debug, PartialEq, Eq)]
pub struct IpAdapterWinsServerAddress {
    pub aol: LengthReserved,
    pub next: Option<Box<IpAdapterWinsServerAddress>>,
    pub address: SocketAddress,
}

/// One gateway of an adapter, and the rest of them.
#[derive(Debug, PartialEq, Eq)]
pub struct IpAdapterGatewayAddress {
    pub aol: LengthReserved,
    pub next: Option<Box<IpAdapterGatewayAddress>>,
    pub address: SocketAddress,
}

/// One adapter, and the rest of the host's adapters. A string is `None` where
/// the record holds a null pointer, and else the buffer that the pointer
/// leads to.
#[derive(Debug, PartialEq, Eq)]
pub struct IpAdapterAddresses {
    pub aol: LengthIfIndex,
    pub next: Option<Box<IpAdapterAddresses>>,
    pub adapter_name: Option<Vec<u8>>,
    pub first_unicast_address: Option<Box<IpAdapterUnicastAddress>>,
    pub dns_suffix: Option<Vec<u16>>,
    pub description: Option<Vec<u16>>,
    pub friendly_name: Option<Vec<u16>>,
    pub physical_address: [u8; MAX_ADAPTER_ADDRESS_LENGTH],
    pub physical_address_length: u32,
    pub first_prefix: Option<Box<IpAdapterPrefix>>,
    pub first_wins_server_address: Option<Box<IpAdapterWinsServerAddress>>,
    pub first_gateway_address: Option<Box<IpAdapterGatewayAddress>>,
}

impl IpAdapterPrefix {
    /// This prefix and all that follow it, in the order of the chain.
    pub open spec fn chain(self) -> Seq<IpAdapterPrefix>
        decreases self,
    {
        match self.next {
            None => seq![self],
            Some(rest) => seq![self] + rest.chain(),
        }
    }
}

impl IpAdapterUnicastAddress {
    /// This address and all that follow it, in the order of the chain.
    pub open spec fn chain(self) -> Seq<IpAdapterUnicastAddress>
        decreases self,
    {
        match self.next {
            None => seq![self],
            Some(rest) => seq![self] + rest.chain(),
        }
    }
}

impl IpAdapterAddresses {
    /// This adapter and all that follow it, in the order of the chain.
    pub open spec fn chain(self) -> Seq<IpAdapterAddresses>
        decreases self,
    {
        match self.next {
            None => seq![self],
            Some(rest) => seq![self] + rest.chain(),
        }
    }
}

/// The records of a chain from its head on; none where the head is null.
pub open spec fn prefixes_from(head: Option<Box<IpAdapterPrefix>>) -> Seq<IpAdapterPrefix> {
    match head {
        None => Seq::empty(),
        Some(first) => first.chain(),
    }
}

/// The records of a chain from its head on; none where the head is null.
pub open spec fn unicast_from(head: Option<Box<IpAdapterUnicastAddress>>) -> Seq<
    IpAdapterUnicastAddress,
> {
    match head {
        None => Seq::empty(),
        Some(first) => first.chain(),
    }
}

/// The records of a chain from its head on; none where the head is null.
pub open spec fn adapters_from(head: Option<Box<IpAdapterAddresses>>) -> Seq<IpAdapterAddresses> {
    match head {
        None => Seq::empty(),
        Some(first) => first.chain(),
    }
}

/// What a string field of a record leads to: nothing for a null pointer, and
/// else the buffer's contents.
pub open spec fn field_contents<T>(field: Option<Vec<T>>) -> Option<Seq<T>> {
    match field {
        None => None,
        Some(buf) => Some(buf@),
    }
}

fn as_buffer<T>(field: &Option<Vec<T>>) -> (r: Option<&[T]>)
    ensures
        contents(r) == field_contents(*field),
{
    match field {
        None => None,
        Some(buf) => Some(buf.as_slice()),
    }
}

impl IpAdapterAddresses {
    /// The hardware address of the adapter as text: the octets in use, in
    /// upper-case hexadecimal, joined by `-`.
    pub open spec fn spec_mac_address(self) -> Seq<char> {
        hardware_text(self.physical_address@.take(octets_in_use(self.physical_address_length)))
    }

    /// The adapter's name: the stable identifier that the system gave it.
    pub fn name(&self) -> (r: String)
        ensures
            r@ == narrow_text(field_contents(self.adapter_name)),
    {
        c_char_array_to_string(as_buffer(&self.adapter_name))
    }

    /// The name under which users know the adapter.
    pub fn friendly_name(&self) -> (r: String)
        ensures
            r@ == wide_text(field_contents(self.friendly_name)),
    {
        u16_array_to_string(as_buffer(&self.friendly_name))
    }

    /// The adapter's hardware address as text, empty where it has none.
    pub fn mac_address(&self) -> (r: String)
        ensures
            r@ == self.spec_mac_address(),
    {
        physical_address_to_string(self.physical_address, self.physical_address_length)
    }

    /// The adapter's description.
    pub fn description(&self) -> (r: String)
        ensures
            r@ == wide_text(field_contents(self.description)),
    {
        u16_array_to_string(as_buffer(&self.description))
    }

    /// The DNS suffix of the adapter's connection.
    pub fn dns_suffix(&self) -> (r: String)
        ensures
            r@ == wide_text(field_contents(self.dns_suffix)),
    {
        u16_array_to_string(as_buffer(&self.dns_suffix))
    }
}

} // verus!
