//! The Windows side: adapter records as the operating system chains them, and
//! what turns them into portable records.
pub mod assemble;
pub mod fetch;
pub mod native;
pub mod sockaddr;
pub mod walk;

pub use fetch::{after_query, first_buffer_size, Step, ERROR_BUFFER_OVERFLOW, ERROR_SUCCESS};
pub use native::{
    IpAdapterAddresses, IpAdapterGatewayAddress, IpAdapterPrefix, IpAdapterUnicastAddress,
    IpAdapterWinsServerAddress, LengthFlags, LengthIfIndex, LengthReserved, SocketAddress,
};
pub use sockaddr::{sockaddr_to_net_socket_addr, AF_INET, AF_INET6};
pub use walk::{Adapters, IfAddrsIterator, PrefixesIterator, UnicastAddressesIterator};
