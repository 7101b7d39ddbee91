//! Socket devices: communication channels between the guest and the
//! host. The library defines the capability and its description; users
//! of the library implement the capability for the socket device kinds
//! their platform offers.

use vstd::prelude::*;

verus! {

/// The socket-device description a virtual-machine configuration
/// stores.
#[derive(Clone, Copy, PartialEq, Eq, Structural, Debug)]
pub enum SocketDeviceDesc {
    /// A paravirtualized socket device.
    Virtio,
}

/// The capability of standing in the socket-device list of a
/// virtual-machine configuration.
pub trait VZSocketDeviceConfiguration {
    /// The description of this socket device.
    spec fn socket_device_view(&self) -> SocketDeviceDesc;

    /// The description a virtual-machine configuration stores.
    fn socket_device_config(&self) -> (r: SocketDeviceDesc)
        ensures
            r == self.socket_device_view(),
    ;
}

} // verus!
