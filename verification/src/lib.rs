//! A typed configuration and lifecycle layer for a host hypervisor.
//!
//! The library models the client-side rules of a native virtual-machine
//! framework: type-state builders that only allow `build` once every
//! mandatory field is present, an owned-handle discipline that releases
//! each foreign reference exactly once, value adapters between native
//! text/paths and their foreign counterparts, and the virtual machine's
//! configuration and lifecycle state machine. Every rule is stated as a
//! contract and verified; the unverified platform driver that realises a
//! configuration against the real hypervisor lives outside the library.

pub mod base;
pub mod boot_loader;
pub mod entropy_device;
pub mod graphics_device;
pub mod host;
pub mod keyboard;
pub mod memory_device;
pub mod network_device;
pub mod pointing_device;
pub mod serial_port;
pub mod socket_device;
pub mod storage_device;
pub mod virtual_machine;
