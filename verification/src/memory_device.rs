//! Memory balloon devices: they let the host reclaim guest memory.

use vstd::prelude::*;

verus! {

/// The memory-balloon description a virtual-machine configuration
/// stores.
#[derive(Clone, Copy, PartialEq, Eq, Structural, Debug)]
pub enum MemoryBalloonDeviceDesc {
    /// A paravirtualized traditional memory balloon device.
    VirtioTraditional,
}

/// The capability of standing in the memory-balloon list of a
/// virtual-machine configuration.
pub trait VZMemoryBalloonDeviceConfiguration {
    /// The description of this memory balloon device.
    spec fn memory_balloon_device_view(&self) -> MemoryBalloonDeviceDesc;

    /// The description a virtual-machine configuration stores.
    fn memory_balloon_device_config(&self) -> (r: MemoryBalloonDeviceDesc)
        ensures
            r == self.memory_balloon_device_view(),
    ;
}

/// A paravirtualized traditional memory balloon device; it has no state
/// of its own.
pub struct VZVirtioTraditionalMemoryBalloonDeviceConfiguration {}

impl View for VZVirtioTraditionalMemoryBalloonDeviceConfiguration {
    type V = MemoryBalloonDeviceDesc;

    open spec fn view(&self) -> MemoryBalloonDeviceDesc {
        MemoryBalloonDeviceDesc::VirtioTraditional
    }
}

impl VZVirtioTraditionalMemoryBalloonDeviceConfiguration {
    /// A new traditional memory balloon device.
    pub fn new() -> (r: VZVirtioTraditionalMemoryBalloonDeviceConfiguration)
        ensures
            r@ == MemoryBalloonDeviceDesc::VirtioTraditional,
    {
        VZVirtioTraditionalMemoryBalloonDeviceConfiguration {  }
    }
}

impl VZMemoryBalloonDeviceConfiguration for VZVirtioTraditionalMemoryBalloonDeviceConfiguration {
    open spec fn memory_balloon_device_view(&self) -> MemoryBalloonDeviceDesc {
        self@
    }

    fn memory_balloon_device_config(&self) -> (r: MemoryBalloonDeviceDesc) {
        MemoryBalloonDeviceDesc::VirtioTraditional
    }
}

} // verus!
