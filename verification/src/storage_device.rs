//! Storage devices: the disk-image attachment with its type-state
//! builder, the caching and synchronization modes, and the storage
//! device configurations that carry an attachment.

use vstd::prelude::*;
use crate::base::absolutized;
use crate::base::CODE_ATTACHMENT_CREATION;
use crate::base::NSError;
use crate::base::NSURL;
use crate::host::Host;

verus! {

/// An integer that describes the disk-image caching mode.
#[derive(Clone, Copy)]
pub struct VZDiskImageCachingMode {
    value: i64,
}

impl View for VZDiskImageCachingMode {
    type V = int;

    closed spec fn view(&self) -> int {
        self.value as int
    }
}

impl VZDiskImageCachingMode {
    /// Let the hypervisor decide whether to cache data.
    pub fn automatic() -> (r: Self)
        ensures
            r@ == 0,
    {
        VZDiskImageCachingMode { value: 0 }
    }

    /// Disable data caching.
    pub fn uncached() -> (r: Self)
        ensures
            r@ == 1,
    {
        VZDiskImageCachingMode { value: 1 }
    }

    /// Enable data caching.
    pub fn cached() -> (r: Self)
        ensures
            r@ == 2,
    {
        VZDiskImageCachingMode { value: 2 }
    }
}

/// An integer that describes the disk-image synchronization mode.
#[derive(Clone, Copy)]
pub struct VZDiskImageSynchronizationMode {
    value: i64,
}

impl View for VZDiskImageSynchronizationMode {
    type V = int;

    closed spec fn view(&self) -> int {
        self.value as int
    }
}

impl VZDiskImageSynchronizationMode {
    /// Synchronize data all the way to the permanent storage holding
    /// the disk image.
    pub fn full() -> (r: Self)
        ensures
            r@ == 1,
    {
        VZDiskImageSynchronizationMode { value: 1 }
    }

    /// Synchronize data with the drive on a best-effort basis.
    pub fn fsync() -> (r: Self)
        ensures
            r@ == 2,
    {
        VZDiskImageSynchronizationMode { value: 2 }
    }

    /// Disable data synchronization with the permanent storage.
    pub fn none() -> (r: Self)
        ensures
            r@ == 3,
    {
        VZDiskImageSynchronizationMode { value: 3 }
    }
}

/// The mathematical description of a storage attachment: the disk
/// image's absolute path, whether the guest sees it read-only, and the
/// caching and synchronization modes when the pair was supplied.
#[verifier::ext_equal]
pub struct StorageAttachmentView {
    pub path: Seq<char>,
    pub read_only: bool,
    pub caching_mode: Option<int>,
    pub synchronization_mode: Option<int>,
}

/// Type-state builder for [`VZDiskImageStorageDeviceAttachment`]: the
/// path is mandatory; the read-only flag defaults to `true`, so a caller
/// must opt into writable mode; the caching and synchronization modes
/// are optional but coupled — `build` exists for the builder with
/// neither and for the builder with both, never for one alone.
pub struct VZDiskImageStorageDeviceAttachmentBuilder<
    Path,
    ReadOnly,
    CachingMode,
    SynchronizationMode,
> {
    /// The path of the disk image, once supplied.
    pub path: Path,
    /// Whether the guest sees the disk read-only; `true` until set.
    pub read_only: ReadOnly,
    /// The caching mode, once supplied.
    pub caching_mode: CachingMode,
    /// The synchronization mode, once supplied.
    pub synchronization_mode: SynchronizationMode,
}

impl VZDiskImageStorageDeviceAttachmentBuilder<(), bool, (), ()> {
    /// A builder with no path, the read-only flag defaulted to `true`,
    /// and no modes.
    pub fn new() -> (r: Self)
        ensures
            r == (VZDiskImageStorageDeviceAttachmentBuilder {
                path: (),
                read_only: true,
                caching_mode: (),
                synchronization_mode: (),
            }),
    {
        VZDiskImageStorageDeviceAttachmentBuilder {
            path: (),
            read_only: true,
            caching_mode: (),
            synchronization_mode: (),
        }
    }
}

impl<Path, ReadOnly, CachingMode, SynchronizationMode> VZDiskImageStorageDeviceAttachmentBuilder<
    Path,
    ReadOnly,
    CachingMode,
    SynchronizationMode,
> {
    /// Supply the path of the disk image; the other fields are kept.
    pub fn path(self, path: String) -> (r: VZDiskImageStorageDeviceAttachmentBuilder<
        String,
        ReadOnly,
        CachingMode,
        SynchronizationMode,
    >)
        ensures
            r.path == path,
            r.read_only == self.read_only,
            r.caching_mode == self.caching_mode,
            r.synchronization_mode == self.synchronization_mode,
    {
        VZDiskImageStorageDeviceAttachmentBuilder {
            path,
            read_only: self.read_only,
            caching_mode: self.caching_mode,
            synchronization_mode: self.synchronization_mode,
        }
    }

    /// Set whether the guest sees the disk read-only; the other fields
    /// are kept.
    pub fn read_only(self, read_only: bool) -> (r: VZDiskImageStorageDeviceAttachmentBuilder<
        Path,
        bool,
        CachingMode,
        SynchronizationMode,
    >)
        ensures
            r.path == self.path,
            r.read_only == read_only,
            r.caching_mode == self.caching_mode,
            r.synchronization_mode == self.synchronization_mode,
    {
        VZDiskImageStorageDeviceAttachmentBuilder {
            path: self.path,
            read_only,
            caching_mode: self.caching_mode,
            synchronization_mode: self.synchronization_mode,
        }
    }

    /// Supply the caching mode; the other fields are kept.
    pub fn caching_mode(self, caching_mode: VZDiskImageCachingMode) -> (r:
        VZDiskImageStorageDeviceAttachmentBuilder<
        Path,
        ReadOnly,
        VZDiskImageCachingMode,
        SynchronizationMode,
    >)
        ensures
            r.path == self.path,
            r.read_only == self.read_only,
            r.caching_mode == caching_mode,
            r.synchronization_mode == self.synchronization_mode,
    {
        VZDiskImageStorageDeviceAttachmentBuilder {
            path: self.path,
            read_only: self.read_only,
            caching_mode,
            synchronization_mode: self.synchronization_mode,
        }
    }

    /// Supply the synchronization mode; the other fields are kept.
    pub fn synchronization_mode(self, synchronization_mode: VZDiskImageSynchronizationMode) -> (r:
        VZDiskImageStorageDeviceAttachmentBuilder<
        Path,
        ReadOnly,
        CachingMode,
        VZDiskImageSynchronizationMode,
    >)
        ensures
            r.path == self.path,
            r.read_only == self.read_only,
            r.caching_mode == self.caching_mode,
            r.synchronization_mode == synchronization_mode,
    {
        VZDiskImageStorageDeviceAttachmentBuilder {
            path: self.path,
            read_only: self.read_only,
            caching_mode: self.caching_mode,
            synchronization_mode,
        }
    }
}

impl VZDiskImageStorageDeviceAttachmentBuilder<String, bool, (), ()> {
    /// Build the attachment without modes. The disk image's path is
    /// brought to absolute form; building fails exactly when the host
    /// cannot reach a file there.
    pub fn build(self, host: &Host) -> (r: Result<VZDiskImageStorageDeviceAttachment, NSError>)
        ensures
            r is Ok <==> host@.files.contains(absolutized(self.path@)),
            r matches Ok(a) ==> a@ == (StorageAttachmentView {
                path: absolutized(self.path@),
                read_only: self.read_only,
                caching_mode: None,
                synchronization_mode: None,
            }),
            r matches Err(e) ==> e@.code == CODE_ATTACHMENT_CREATION,
    {
        VZDiskImageStorageDeviceAttachment::new(self.path.as_str(), self.read_only, host)
    }
}

impl VZDiskImageStorageDeviceAttachmentBuilder<
    String,
    bool,
    VZDiskImageCachingMode,
    VZDiskImageSynchronizationMode,
> {
    /// Build the attachment with the coupled caching and synchronization
    /// modes. The disk image's path is brought to absolute form;
    /// building fails exactly when the host cannot reach a file there.
    pub fn build(self, host: &Host) -> (r: Result<VZDiskImageStorageDeviceAttachment, NSError>)
        ensures
            r is Ok <==> host@.files.contains(absolutized(self.path@)),
            r matches Ok(a) ==> a@ == (StorageAttachmentView {
                path: absolutized(self.path@),
                read_only: self.read_only,
                caching_mode: Some(self.caching_mode@),
                synchronization_mode: Some(self.synchronization_mode@),
            }),
            r matches Err(e) ==> e@.code == CODE_ATTACHMENT_CREATION,
    {
        VZDiskImageStorageDeviceAttachment::new_with_mode(
            self.path.as_str(),
            self.read_only,
            self.caching_mode,
            self.synchronization_mode,
            host,
        )
    }
}

/// A disk-image storage attachment: a disk image file the host can
/// reach, seen by the guest through a storage device.
#[derive(Debug)]
pub struct VZDiskImageStorageDeviceAttachment {
    url: NSURL,
    read_only: bool,
    caching_mode: Option<i64>,
    synchronization_mode: Option<i64>,
}

impl View for VZDiskImageStorageDeviceAttachment {
    type V = StorageAttachmentView;

    closed spec fn view(&self) -> StorageAttachmentView {
        StorageAttachmentView {
            path: self.url@.path,
            read_only: self.read_only,
            caching_mode: match self.caching_mode {
                Some(m) => Some(m as int),
                None => None,
            },
            synchronization_mode: match self.synchronization_mode {
                Some(m) => Some(m as int),
                None => None,
            },
        }
    }
}

impl Clone for VZDiskImageStorageDeviceAttachment {
    /// Cloning an attachment keeps its description.
    fn clone(&self) -> (r: Self)
        ensures
            r@ == self@,
    {
        VZDiskImageStorageDeviceAttachment {
            url: self.url.clone(),
            read_only: self.read_only,
            caching_mode: self.caching_mode,
            synchronization_mode: self.synchronization_mode,
        }
    }
}

impl VZDiskImageStorageDeviceAttachment {
    /// Attach the disk image at `path` without modes; fails exactly when
    /// the host cannot reach a file at the absolute form of `path`.
    fn new(path: &str, read_only: bool, host: &Host) -> (r: Result<
        VZDiskImageStorageDeviceAttachment,
        NSError,
    >)
        ensures
            r is Ok <==> host@.files.contains(absolutized(path@)),
            r matches Ok(a) ==> a@ == (StorageAttachmentView {
                path: absolutized(path@),
                read_only,
                caching_mode: None,
                synchronization_mode: None,
            }),
            r matches Err(e) ==> e@.code == CODE_ATTACHMENT_CREATION,
    {
        let url = NSURL::file_url_with_path(path, false).absolute_url();
        if host.file_reachable(url.path().as_str()) {
            Ok(
                VZDiskImageStorageDeviceAttachment {
                    url,
                    read_only,
                    caching_mode: None,
                    synchronization_mode: None,
                },
            )
        } else {
            Err(
                NSError::new(
                    CODE_ATTACHMENT_CREATION,
                    String::from_str("the host cannot reach a disk image at the given path"),
                ),
            )
        }
    }

    /// Attach the disk image at `path` with the coupled caching and
    /// synchronization modes; fails exactly when the host cannot reach a
    /// file at the absolute form of `path`.
    fn new_with_mode(
        path: &str,
        read_only: bool,
        caching_mode: VZDiskImageCachingMode,
        synchronization_mode: VZDiskImageSynchronizationMode,
        host: &Host,
    ) -> (r: Result<VZDiskImageStorageDeviceAttachment, NSError>)
        ensures
            r is Ok <==> host@.files.contains(absolutized(path@)),
            r matches Ok(a) ==> a@ == (StorageAttachmentView {
                path: absolutized(path@),
                read_only,
                caching_mode: Some(caching_mode@),
                synchronization_mode: Some(synchronization_mode@),
            }),
            r matches Err(e) ==> e@.code == CODE_ATTACHMENT_CREATION,
    {
        let url = NSURL::file_url_with_path(path, false).absolute_url();
        if host.file_reachable(url.path().as_str()) {
            Ok(
                VZDiskImageStorageDeviceAttachment {
                    url,
                    read_only,
                    caching_mode: Some(caching_mode.value),
                    synchronization_mode: Some(synchronization_mode.value),
                },
            )
        } else {
            Err(
                NSError::new(
                    CODE_ATTACHMENT_CREATION,
                    String::from_str("the host cannot reach a disk image at the given path"),
                ),
            )
        }
    }

    /// The absolute path of the attached disk image.
    pub fn path(&self) -> (r: &String)
        ensures
            r@ == self@.path,
    {
        self.url.path()
    }

    /// Whether the guest sees the disk read-only.
    pub fn read_only(&self) -> (r: bool)
        ensures
            r == self@.read_only,
    {
        self.read_only
    }

    /// The caching mode, when the coupled pair was supplied.
    pub fn caching_mode(&self) -> (r: Option<i64>)
        ensures
            match r {
                Some(m) => self@.caching_mode == Some(m as int),
                None => self@.caching_mode is None,
            },
    {
        self.caching_mode
    }

    /// The synchronization mode, when the coupled pair was supplied.
    pub fn synchronization_mode(&self) -> (r: Option<i64>)
        ensures
            match r {
                Some(m) => self@.synchronization_mode == Some(m as int),
                None => self@.synchronization_mode is None,
            },
    {
        self.synchronization_mode
    }
}

/// The capability of backing a storage device: every storage attachment
/// is described by a disk image path, a read-only flag and the optional
/// mode pair.
pub trait VZStorageDeviceAttachment: Sized {
    /// The mathematical description of this attachment.
    spec fn attachment_view(&self) -> StorageAttachmentView;

    /// The attachment description a storage device stores. The device
    /// takes ownership: an attachment-bearing device is never observed
    /// without its attachment.
    fn attachment_config(self) -> (r: VZDiskImageStorageDeviceAttachment)
        ensures
            r@ == self.attachment_view(),
    ;
}

impl VZStorageDeviceAttachment for VZDiskImageStorageDeviceAttachment {
    open spec fn attachment_view(&self) -> StorageAttachmentView {
        self@
    }

    fn attachment_config(self) -> (r: VZDiskImageStorageDeviceAttachment) {
        self
    }
}

/// Which interface a storage device exposes to the guest.
#[derive(Clone, Copy, PartialEq, Eq, Structural, Debug)]
pub enum StorageInterface {
    /// A paravirtualized block device.
    VirtioBlock,
    /// An emulated USB mass-storage device.
    UsbMassStorage,
}

/// The mathematical description of a storage device: its interface and
/// its attachment.
#[verifier::ext_equal]
pub struct StorageDeviceView {
    pub interface: StorageInterface,
    pub attachment: StorageAttachmentView,
}

/// The storage-device description a virtual-machine configuration
/// stores.
pub struct StorageDeviceDesc {
    interface: StorageInterface,
    attachment: VZDiskImageStorageDeviceAttachment,
}

impl View for StorageDeviceDesc {
    type V = StorageDeviceView;

    closed spec fn view(&self) -> StorageDeviceView {
        StorageDeviceView { interface: self.interface, attachment: self.attachment@ }
    }
}

impl StorageDeviceDesc {
    /// Which interface the device exposes.
    pub fn interface(&self) -> (r: StorageInterface)
        ensures
            r == self@.interface,
    {
        self.interface
    }

    /// The attachment backing the device.
    pub fn attachment(&self) -> (r: &VZDiskImageStorageDeviceAttachment)
        ensures
            r@ == self@.attachment,
    {
        &self.attachment
    }
}

/// The capability of standing in the storage-device list of a
/// virtual-machine configuration.
pub trait VZStorageDeviceConfiguration {
    /// The mathematical description of this storage device.
    spec fn storage_device_view(&self) -> StorageDeviceView;

    /// The description a virtual-machine configuration stores.
    fn storage_device_config(&self) -> (r: StorageDeviceDesc)
        ensures
            r@ == self.storage_device_view(),
    ;
}

/// A storage device exposed to the guest through the paravirtualized
/// block interface, never observed without its attachment.
pub struct VZVirtioBlockDeviceConfiguration {
    attachment: VZDiskImageStorageDeviceAttachment,
}

impl View for VZVirtioBlockDeviceConfiguration {
    type V = StorageDeviceView;

    closed spec fn view(&self) -> StorageDeviceView {
        StorageDeviceView { interface: StorageInterface::VirtioBlock, attachment: self.attachment@ }
    }
}

impl VZVirtioBlockDeviceConfiguration {
    /// A block device backed by the given attachment, which the device
    /// takes ownership of at construction.
    pub fn new<T: VZStorageDeviceAttachment>(attachment: T) -> (r: VZVirtioBlockDeviceConfiguration)
        ensures
            r@ == (StorageDeviceView {
                interface: StorageInterface::VirtioBlock,
                attachment: attachment.attachment_view(),
            }),
    {
        VZVirtioBlockDeviceConfiguration { attachment: attachment.attachment_config() }
    }
}

impl VZStorageDeviceConfiguration for VZVirtioBlockDeviceConfiguration {
    open spec fn storage_device_view(&self) -> StorageDeviceView {
        self@
    }

    fn storage_device_config(&self) -> (r: StorageDeviceDesc) {
        StorageDeviceDesc {
            interface: StorageInterface::VirtioBlock,
            attachment: self.attachment.clone(),
        }
    }
}

/// A storage device exposed to the guest as a USB mass-storage device,
/// never observed without its attachment.
pub struct VZUSBMassStorageDeviceConfiguration {
    attachment: VZDiskImageStorageDeviceAttachment,
}

impl View for VZUSBMassStorageDeviceConfiguration {
    type V = StorageDeviceView;

    closed spec fn view(&self) -> StorageDeviceView {
        StorageDeviceView {
            interface: StorageInterface::UsbMassStorage,
            attachment: self.attachment@,
        }
    }
}

impl VZUSBMassStorageDeviceConfiguration {
    /// A USB mass-storage device backed by the given attachment, which
    /// the device takes ownership of at construction.
    pub fn new<T: VZStorageDeviceAttachment>(attachment: T) -> (r:
        VZUSBMassStorageDeviceConfiguration)
        ensures
            r@ == (StorageDeviceView {
                interface: StorageInterface::UsbMassStorage,
                attachment: attachment.attachment_view(),
            }),
    {
        VZUSBMassStorageDeviceConfiguration { attachment: attachment.attachment_config() }
    }
}

impl VZStorageDeviceConfiguration for VZUSBMassStorageDeviceConfiguration {
    open spec fn storage_device_view(&self) -> StorageDeviceView {
        self@
    }

    fn storage_device_config(&self) -> (r: StorageDeviceDesc) {
        StorageDeviceDesc {
            interface: StorageInterface::UsbMassStorage,
            attachment: self.attachment.clone(),
        }
    }
}

} // verus!
