//! Keyboard devices.

use vstd::prelude::*;

verus! {

/// The description of a keyboard device.
#[derive(Clone, Copy, PartialEq, Eq, Structural, Debug)]
pub enum KeyboardDesc {
    /// An emulated USB keyboard.
    Usb,
}

/// The capability of configuring a keyboard for a guest.
pub trait VZKeyboardConfiguration {
    /// The description of this keyboard.
    spec fn keyboard_view(&self) -> KeyboardDesc;

    /// The stored description of this keyboard.
    fn keyboard_config(&self) -> (r: KeyboardDesc)
        ensures
            r == self.keyboard_view(),
    ;
}

/// The configuration of an emulated USB keyboard; it has no state of its
/// own.
pub struct VZUSBKeyboardConfiguration {}

impl View for VZUSBKeyboardConfiguration {
    type V = KeyboardDesc;

    open spec fn view(&self) -> KeyboardDesc {
        KeyboardDesc::Usb
    }
}

impl VZUSBKeyboardConfiguration {
    /// A new USB keyboard configuration.
    pub fn new() -> (r: VZUSBKeyboardConfiguration)
        ensures
            r@ == KeyboardDesc::Usb,
    {
        VZUSBKeyboardConfiguration {  }
    }
}

impl VZKeyboardConfiguration for VZUSBKeyboardConfiguration {
    open spec fn keyboard_view(&self) -> KeyboardDesc {
        self@
    }

    fn keyboard_config(&self) -> (r: KeyboardDesc) {
        KeyboardDesc::Usb
    }
}

} // verus!
