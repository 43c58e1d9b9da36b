//! Portable records for a host's network interfaces.
//!
//! The operating system describes its interfaces in native records: chained
//! adapter, address, prefix and gateway entries on Windows, a flat list of
//! interfaces with their addresses on Unix. This library turns such records
//! into one platform-neutral shape, [`IfCfg`], and proves what each step of
//! that normalisation returns.

pub mod endpoint;
pub mod error;
pub mod netmask;
pub mod record;
pub mod text;
pub mod unix;
pub mod windows;

pub use endpoint::{Endpoint, IpAddress};
pub use error::{IfCfgError, InterfacesError};
pub use record::{AddressFamily, Enumeration, Hops, IfCfg, IfCfgView, InterfaceAddress};
