//! Pointing devices.

use vstd::prelude::*;

verus! {

/// The description of a pointing device.
#[derive(Clone, Copy, PartialEq, Eq, Structural, Debug)]
pub enum PointingDeviceDesc {
    /// The trackpad of a Mac guest.
    MacTrackpad,
    /// An emulated USB pointing device reporting absolute screen
    /// coordinates.
    UsbScreenCoordinate,
}

/// The capability of configuring a pointing device for a guest.
pub trait VZPointingDeviceConfiguration {
    /// The description of this pointing device.
    spec fn pointing_device_view(&self) -> PointingDeviceDesc;

    /// The stored description of this pointing device.
    fn pointing_device_config(&self) -> (r: PointingDeviceDesc)
        ensures
            r == self.pointing_device_view(),
    ;
}

/// The configuration of a Mac trackpad; guests that predate it need a
/// USB pointing device beside it.
pub struct VZMacTrackpadConfiguration {}

impl View for VZMacTrackpadConfiguration {
    type V = PointingDeviceDesc;

    open spec fn view(&self) -> PointingDeviceDesc {
        PointingDeviceDesc::MacTrackpad
    }
}

impl VZMacTrackpadConfiguration {
    /// A new Mac trackpad configuration.
    pub fn new() -> (r: VZMacTrackpadConfiguration)
        ensures
            r@ == PointingDeviceDesc::MacTrackpad,
    {
        VZMacTrackpadConfiguration {  }
    }
}

impl VZPointingDeviceConfiguration for VZMacTrackpadConfiguration {
    open spec fn pointing_device_view(&self) -> PointingDeviceDesc {
        self@
    }

    fn pointing_device_config(&self) -> (r: PointingDeviceDesc) {
        PointingDeviceDesc::MacTrackpad
    }
}

/// The configuration of a USB pointing device that reports absolute
/// screen coordinates.
pub struct VZUSBScreenCoordinatePointingDeviceConfiguration {}

impl View for VZUSBScreenCoordinatePointingDeviceConfiguration {
    type V = PointingDeviceDesc;

    open spec fn view(&self) -> PointingDeviceDesc {
        PointingDeviceDesc::UsbScreenCoordinate
    }
}

impl VZUSBScreenCoordinatePointingDeviceConfiguration {
    /// A new USB screen-coordinate pointing device configuration.
    pub fn new() -> (r: VZUSBScreenCoordinatePointingDeviceConfiguration)
        ensures
            r@ == PointingDeviceDesc::UsbScreenCoordinate,
    {
        VZUSBScreenCoordinatePointingDeviceConfiguration {  }
    }
}

impl VZPointingDeviceConfiguration for VZUSBScreenCoordinatePointingDeviceConfiguration {
    open spec fn pointing_device_view(&self) -> PointingDeviceDesc {
        self@
    }

    fn pointing_device_config(&self) -> (r: PointingDeviceDesc) {
        PointingDeviceDesc::UsbScreenCoordinate
    }
}

} // verus!
