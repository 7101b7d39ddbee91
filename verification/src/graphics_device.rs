//! Graphics devices: display and scanout dimensions for Mac and
//! paravirtualized graphics.

use vstd::prelude::*;

verus! {

/// The dimensions and density of one display of a Mac graphics device.
#[derive(Clone, Copy, PartialEq, Eq, Structural, Debug)]
pub struct DisplayDesc {
    /// The width of the display in pixels.
    pub width_in_pixels: i64,
    /// The height of the display in pixels.
    pub height_in_pixels: i64,
    /// The pixel density of the display.
    pub pixels_per_inch: i64,
}

/// The dimensions of one scanout of a paravirtualized graphics device.
#[derive(Clone, Copy, PartialEq, Eq, Structural, Debug)]
pub struct ScanoutDesc {
    /// The width of the scanout in pixels.
    pub width_in_pixels: i64,
    /// The height of the scanout in pixels.
    pub height_in_pixels: i64,
}

/// The mathematical description of a graphics device.
#[verifier::ext_equal]
pub enum GraphicsDeviceView {
    /// A Mac graphics device and its displays.
    Mac { displays: Seq<DisplayDesc> },
    /// A paravirtualized graphics device and its scanouts.
    Virtio { scanouts: Seq<ScanoutDesc> },
}

/// The stored description of a graphics device.
pub enum GraphicsDeviceDesc {
    /// A Mac graphics device and its displays.
    Mac {
        /// The displays of the device, in the order they were given.
        displays: Vec<DisplayDesc>,
    },
    /// A paravirtualized graphics device and its scanouts.
    Virtio {
        /// The scanouts of the device, in the order they were given.
        scanouts: Vec<ScanoutDesc>,
    },
}

impl View for GraphicsDeviceDesc {
    type V = GraphicsDeviceView;

    open spec fn view(&self) -> GraphicsDeviceView {
        match self {
            GraphicsDeviceDesc::Mac { displays } => GraphicsDeviceView::Mac {
                displays: displays@,
            },
            GraphicsDeviceDesc::Virtio { scanouts } => GraphicsDeviceView::Virtio {
                scanouts: scanouts@,
            },
        }
    }
}

/// The capability of configuring a graphics device for a guest.
pub trait VZGraphicsDeviceConfiguration {
    /// The mathematical description of this graphics device.
    spec fn graphics_device_view(&self) -> GraphicsDeviceView;

    /// The stored description of this graphics device.
    fn graphics_device_config(&self) -> (r: GraphicsDeviceDesc)
        ensures
            r@ == self.graphics_device_view(),
    ;
}

/// The configuration of one display of a Mac graphics device, by pixel
/// dimensions and density.
pub struct VZMacGraphicsDisplayConfiguration {
    desc: DisplayDesc,
}

impl View for VZMacGraphicsDisplayConfiguration {
    type V = DisplayDesc;

    closed spec fn view(&self) -> DisplayDesc {
        self.desc
    }
}

impl VZMacGraphicsDisplayConfiguration {
    /// A display with the given pixel dimensions and density.
    pub fn new_with(width_in_pixels: i64, height_in_pixels: i64, pixels_per_inch: i64) -> (r:
        VZMacGraphicsDisplayConfiguration)
        ensures
            r@ == (DisplayDesc { width_in_pixels, height_in_pixels, pixels_per_inch }),
    {
        VZMacGraphicsDisplayConfiguration {
            desc: DisplayDesc { width_in_pixels, height_in_pixels, pixels_per_inch },
        }
    }
}

/// The configuration of a Mac graphics device and its displays.
pub struct VZMacGraphicsDeviceConfiguration {
    displays: Vec<DisplayDesc>,
}

impl View for VZMacGraphicsDeviceConfiguration {
    type V = GraphicsDeviceView;

    closed spec fn view(&self) -> GraphicsDeviceView {
        GraphicsDeviceView::Mac { displays: self.displays@ }
    }
}

impl VZMacGraphicsDeviceConfiguration {
    /// A Mac graphics device with the given displays, kept in order.
    pub fn new(displays: Vec<VZMacGraphicsDisplayConfiguration>) -> (r:
        VZMacGraphicsDeviceConfiguration)
        ensures
            r@ == (GraphicsDeviceView::Mac {
                displays: Seq::new(displays@.len(), |i: int| displays@[i]@),
            }),
    {
        let mut descs: Vec<DisplayDesc> = Vec::new();
        let mut i: usize = 0;
        while i < displays.len()
            invariant
                i <= displays.len(),
                descs@.len() == i,
                forall|j: int| 0 <= j < i ==> descs@[j] == displays@[j]@,
            decreases displays.len() - i,
        {
            descs.push(displays[i].desc);
            i += 1;
        }
        let r = VZMacGraphicsDeviceConfiguration { displays: descs };
        proof {
            assert(r@->Mac_displays =~= Seq::new(displays@.len(), |i: int| displays@[i]@));
        }
        r
    }
}

impl VZGraphicsDeviceConfiguration for VZMacGraphicsDeviceConfiguration {
    open spec fn graphics_device_view(&self) -> GraphicsDeviceView {
        self@
    }

    fn graphics_device_config(&self) -> (r: GraphicsDeviceDesc) {
        let mut descs: Vec<DisplayDesc> = Vec::new();
        let mut i: usize = 0;
        while i < self.displays.len()
            invariant
                i <= self.displays.len(),
                descs@.len() == i,
                forall|j: int| 0 <= j < i ==> descs@[j] == self.displays@[j],
            decreases self.displays.len() - i,
        {
            descs.push(self.displays[i]);
            i += 1;
        }
        proof {
            assert(descs@ =~= self.displays@);
        }
        GraphicsDeviceDesc::Mac { displays: descs }
    }
}

/// The configuration of one scanout of a paravirtualized graphics
/// device, by pixel dimensions.
pub struct VZVirtioGraphicsScanoutConfiguration {
    desc: ScanoutDesc,
}

impl View for VZVirtioGraphicsScanoutConfiguration {
    type V = ScanoutDesc;

    closed spec fn view(&self) -> ScanoutDesc {
        self.desc
    }
}

impl VZVirtioGraphicsScanoutConfiguration {
    /// A scanout with the given pixel dimensions.
    pub fn new(width_in_pixels: i64, height_in_pixels: i64) -> (r:
        VZVirtioGraphicsScanoutConfiguration)
        ensures
            r@ == (ScanoutDesc { width_in_pixels, height_in_pixels }),
    {
        VZVirtioGraphicsScanoutConfiguration {
            desc: ScanoutDesc { width_in_pixels, height_in_pixels },
        }
    }
}

/// The configuration of a paravirtualized graphics device and its
/// scanouts.
pub struct VZVirtioGraphicsDeviceConfiguration {
    scanouts: Vec<ScanoutDesc>,
}

impl View for VZVirtioGraphicsDeviceConfiguration {
    type V = GraphicsDeviceView;

    closed spec fn view(&self) -> GraphicsDeviceView {
        GraphicsDeviceView::Virtio { scanouts: self.scanouts@ }
    }
}

impl VZVirtioGraphicsDeviceConfiguration {
    /// A paravirtualized graphics device with the given scanouts, kept
    /// in order.
    pub fn new(scanouts: Vec<VZVirtioGraphicsScanoutConfiguration>) -> (r:
        VZVirtioGraphicsDeviceConfiguration)
        ensures
            r@ == (GraphicsDeviceView::Virtio {
                scanouts: Seq::new(scanouts@.len(), |i: int| scanouts@[i]@),
            }),
    {
        let mut descs: Vec<ScanoutDesc> = Vec::new();
        let mut i: usize = 0;
        while i < scanouts.len()
            invariant
                i <= scanouts.len(),
                descs@.len() == i,
                forall|j: int| 0 <= j < i ==> descs@[j] == scanouts@[j]@,
            decreases scanouts.len() - i,
        {
            descs.push(scanouts[i].desc);
            i += 1;
        }
        let r = VZVirtioGraphicsDeviceConfiguration { scanouts: descs };
        proof {
            assert(r@->Virtio_scanouts =~= Seq::new(scanouts@.len(), |i: int| scanouts@[i]@));
        }
        r
    }
}

impl VZGraphicsDeviceConfiguration for VZVirtioGraphicsDeviceConfiguration {
    open spec fn graphics_device_view(&self) -> GraphicsDeviceView {
        self@
    }

    fn graphics_device_config(&self) -> (r: GraphicsDeviceDesc) {
        let mut descs: Vec<ScanoutDesc> = Vec::new();
        let mut i: usize = 0;
        while i < self.scanouts.len()
            invariant
                i <= self.scanouts.len(),
                descs@.len() == i,
                forall|j: int| 0 <= j < i ==> descs@[j] == self.scanouts@[j],
            decreases self.scanouts.len() - i,
        {
            descs.push(self.scanouts[i]);
            i += 1;
        }
        proof {
            assert(descs@ =~= self.scanouts@);
        }
        GraphicsDeviceDesc::Virtio { scanouts: descs }
    }
}

} // verus!
