//! The Unix side: interfaces as the platform lists them, flat, each with its
//! addresses, and what turns them into portable records.
pub mod interfaces;

pub use interfaces::{Address, FamilyCodes, Interface, Kind, NextHop};
