//! Entropy devices: sources of randomness exposed to the guest.

use vstd::prelude::*;

verus! {

/// The entropy-device description a virtual-machine configuration
/// stores.
#[derive(Clone, Copy, PartialEq, Eq, Structural, Debug)]
pub enum EntropyDeviceDesc {
    /// A paravirtualized entropy device.
    Virtio,
}

/// The capability of standing in the entropy-device list of a
/// virtual-machine configuration.
pub trait VZEntropyDeviceConfiguration {
    /// The description of this entropy device.
    spec fn entropy_device_view(&self) -> EntropyDeviceDesc;

    /// The description a virtual-machine configuration stores.
    fn entropy_device_config(&self) -> (r: EntropyDeviceDesc)
        ensures
            r == self.entropy_device_view(),
    ;
}

/// A paravirtualized entropy device; it has no state of its own.
pub struct VZVirtioEntropyDeviceConfiguration {}

impl View for VZVirtioEntropyDeviceConfiguration {
    type V = EntropyDeviceDesc;

    open spec fn view(&self) -> EntropyDeviceDesc {
        EntropyDeviceDesc::Virtio
    }
}

impl VZVirtioEntropyDeviceConfiguration {
    /// A new paravirtualized entropy device.
    pub fn new() -> (r: VZVirtioEntropyDeviceConfiguration)
        ensures
            r@ == EntropyDeviceDesc::Virtio,
    {
        VZVirtioEntropyDeviceConfiguration {  }
    }
}

impl VZEntropyDeviceConfiguration for VZVirtioEntropyDeviceConfiguration {
    open spec fn entropy_device_view(&self) -> EntropyDeviceDesc {
        self@
    }

    fn entropy_device_config(&self) -> (r: EntropyDeviceDesc) {
        EntropyDeviceDesc::Virtio
    }
}

} // verus!
