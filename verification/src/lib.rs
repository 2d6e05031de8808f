//! State engine for a local Bluetooth adapter and the devices it has seen.
//!
//! The engine keeps a snapshot of the adapter, a registry with one entry
//! for each remote device, a flag that tells whether a discovery runs,
//! and the one consumer that its notifications may have. It does no
//! input or output of its own: whoever drives it reads from the
//! Bluetooth stack, hands the engine what was read, and carries out what
//! the engine answers.
//!
//! - [`utils`] decodes class-of-device values and service UUIDs, with the
//!   tables in [`constants`].
//! - [`address`] and [`text`] hold hardware addresses and the order of names.
//! - [`device`] and [`adapter_info`] hold the snapshots and the property
//!   changes that shape them.
//! - [`device_list`] is the registry of devices.
//! - [`adapter`] is the engine itself, with the steps of its two
//!   background tasks.
//! - [`client`] picks the adapter to use and holds the engine for it.

pub mod adapter;
pub mod adapter_info;
pub mod address;
pub mod client;
pub mod constants;
pub mod device;
pub mod device_list;
pub mod text;
pub mod utils;
