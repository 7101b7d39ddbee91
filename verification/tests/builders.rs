//! Tests of the builders: the mandatory setters gate `build`, every
//! setter order ends in the same result, and defaults fall where the
//! platform puts them.

use virtualization_rs::base::CODE_ATTACHMENT_CREATION;
use virtualization_rs::base::FileHandleKind;
use virtualization_rs::base::NSFileHandle;
use virtualization_rs::boot_loader::BootLoaderConfig;
use virtualization_rs::boot_loader::VZBootLoader;
use virtualization_rs::boot_loader::VZEFIBootLoaderBuilder;
use virtualization_rs::boot_loader::VZEFIVariableStore;
use virtualization_rs::boot_loader::VZEFIVariableStoreInitializationOption;
use virtualization_rs::boot_loader::VZEFIVariableStoreInitializationOptions;
use virtualization_rs::boot_loader::VZLinuxBootLoaderBuilder;
use virtualization_rs::host::Host;
use virtualization_rs::serial_port::VZFileHandleSerialPortAttachmentBuilder;
use virtualization_rs::serial_port::VZSerialPortConfiguration;
use virtualization_rs::serial_port::VZVirtioConsoleDeviceSerialPortConfiguration;
use virtualization_rs::storage_device::StorageInterface;
use virtualization_rs::storage_device::VZDiskImageCachingMode;
use virtualization_rs::storage_device::VZDiskImageStorageDeviceAttachmentBuilder;
use virtualization_rs::storage_device::VZDiskImageSynchronizationMode;
use virtualization_rs::storage_device::VZStorageDeviceConfiguration;
use virtualization_rs::storage_device::VZUSBMassStorageDeviceConfiguration;
use virtualization_rs::storage_device::VZVirtioBlockDeviceConfiguration;

fn linux_boot_loader_paths(config: &BootLoaderConfig) -> (String, String) {
    match config {
        BootLoaderConfig::Linux { kernel_url, initial_ramdisk_url, .. } => (
            kernel_url.path().clone(),
            initial_ramdisk_url.path().clone(),
        ),
        BootLoaderConfig::Efi { .. } => panic!("expected a kernel boot loader"),
    }
}

#[test]
fn linux_boot_loader_builder_absolutizes_paths() {
    let boot_loader = VZLinuxBootLoaderBuilder::new()
        .kernel_url(String::from("boot/vmlinuz"))
        .initial_ramdisk_url(String::from("/boot/initrd"))
        .command_line(String::from("console=hvc0"))
        .build();
    let (kernel, initrd) = linux_boot_loader_paths(&boot_loader.boot_loader_config());
    assert_eq!(kernel, "/boot/vmlinuz");
    assert_eq!(initrd, "/boot/initrd");
    match boot_loader.boot_loader_config() {
        BootLoaderConfig::Linux { command_line, .. } => {
            assert_eq!(command_line.as_str().unwrap(), "console=hvc0");
        }
        BootLoaderConfig::Efi { .. } => panic!("expected a kernel boot loader"),
    }
}

#[test]
fn linux_boot_loader_setters_in_any_order() {
    let forward = VZLinuxBootLoaderBuilder::new()
        .kernel_url(String::from("/k"))
        .initial_ramdisk_url(String::from("/i"))
        .command_line(String::from("quiet"))
        .build();
    let backward = VZLinuxBootLoaderBuilder::new()
        .command_line(String::from("quiet"))
        .initial_ramdisk_url(String::from("/i"))
        .kernel_url(String::from("/k"))
        .build();
    let (fk, fi) = linux_boot_loader_paths(&forward.boot_loader_config());
    let (bk, bi) = linux_boot_loader_paths(&backward.boot_loader_config());
    assert_eq!(fk, bk);
    assert_eq!(fi, bi);
}

#[test]
fn disk_attachment_defaults_to_read_only() {
    let mut host = Host::new(true);
    host.add_file(String::from("/vm/disk.img"));
    let attachment = VZDiskImageStorageDeviceAttachmentBuilder::new()
        .path(String::from("/vm/disk.img"))
        .build(&host)
        .unwrap();
    assert!(attachment.read_only());
    assert_eq!(attachment.path().as_str(), "/vm/disk.img");
    assert_eq!(attachment.caching_mode(), None);
    assert_eq!(attachment.synchronization_mode(), None);
}

#[test]
fn disk_attachment_opts_into_writable() {
    let mut host = Host::new(true);
    host.add_file(String::from("/vm/disk.img"));
    let attachment = VZDiskImageStorageDeviceAttachmentBuilder::new()
        .read_only(false)
        .path(String::from("/vm/disk.img"))
        .build(&host)
        .unwrap();
    assert!(!attachment.read_only());
}

#[test]
fn disk_attachment_with_coupled_modes() {
    let mut host = Host::new(true);
    host.add_file(String::from("/vm/disk.img"));
    let attachment = VZDiskImageStorageDeviceAttachmentBuilder::new()
        .path(String::from("/vm/disk.img"))
        .caching_mode(VZDiskImageCachingMode::uncached())
        .synchronization_mode(VZDiskImageSynchronizationMode::full())
        .build(&host)
        .unwrap();
    assert!(attachment.read_only());
    assert_eq!(attachment.caching_mode(), Some(1));
    assert_eq!(attachment.synchronization_mode(), Some(1));
}

#[test]
fn disk_image_mode_values() {
    let mut host = Host::new(true);
    host.add_file(String::from("/vm/disk.img"));
    let build_with = |caching: VZDiskImageCachingMode, synchronization: VZDiskImageSynchronizationMode| {
        VZDiskImageStorageDeviceAttachmentBuilder::new()
            .path(String::from("/vm/disk.img"))
            .caching_mode(caching)
            .synchronization_mode(synchronization)
            .build(&host)
            .unwrap()
    };
    let a = build_with(VZDiskImageCachingMode::automatic(), VZDiskImageSynchronizationMode::full());
    assert_eq!(a.caching_mode(), Some(0));
    assert_eq!(a.synchronization_mode(), Some(1));
    let b = build_with(VZDiskImageCachingMode::cached(), VZDiskImageSynchronizationMode::fsync());
    assert_eq!(b.caching_mode(), Some(2));
    assert_eq!(b.synchronization_mode(), Some(2));
    let c = build_with(VZDiskImageCachingMode::uncached(), VZDiskImageSynchronizationMode::none());
    assert_eq!(c.caching_mode(), Some(1));
    assert_eq!(c.synchronization_mode(), Some(3));
}

#[test]
fn disk_attachment_fails_on_unreachable_image() {
    let host = Host::new(true);
    let err = VZDiskImageStorageDeviceAttachmentBuilder::new()
        .path(String::from("/vm/missing.img"))
        .build(&host)
        .unwrap_err();
    assert_eq!(err.code(), CODE_ATTACHMENT_CREATION);
}

#[test]
fn storage_devices_carry_their_attachment() {
    let mut host = Host::new(true);
    host.add_file(String::from("/vm/disk.img"));
    let attachment = VZDiskImageStorageDeviceAttachmentBuilder::new()
        .path(String::from("/vm/disk.img"))
        .build(&host)
        .unwrap();
    let block = VZVirtioBlockDeviceConfiguration::new(attachment);
    let desc = block.storage_device_config();
    assert_eq!(desc.interface(), StorageInterface::VirtioBlock);
    assert_eq!(desc.attachment().path().as_str(), "/vm/disk.img");

    let attachment = VZDiskImageStorageDeviceAttachmentBuilder::new()
        .read_only(false)
        .path(String::from("/vm/disk.img"))
        .build(&host)
        .unwrap();
    let usb = VZUSBMassStorageDeviceConfiguration::new(attachment);
    let desc = usb.storage_device_config();
    assert_eq!(desc.interface(), StorageInterface::UsbMassStorage);
    assert!(!desc.attachment().read_only());
}

#[test]
fn serial_attachment_setters_in_any_order() {
    let forward = VZFileHandleSerialPortAttachmentBuilder::new()
        .file_handle_for_reading(NSFileHandle::file_handle_with_standard_input())
        .file_handle_for_writing(NSFileHandle::file_handle_with_standard_output())
        .build();
    let backward = VZFileHandleSerialPortAttachmentBuilder::new()
        .file_handle_for_writing(NSFileHandle::file_handle_with_standard_output())
        .file_handle_for_reading(NSFileHandle::file_handle_with_standard_input())
        .build();
    let forward_port = VZVirtioConsoleDeviceSerialPortConfiguration::new(forward);
    let backward_port = VZVirtioConsoleDeviceSerialPortConfiguration::new(backward);
    let f = forward_port.serial_port_config();
    let b = backward_port.serial_port_config();
    assert_eq!(f.attachment.reading, FileHandleKind::StandardInput);
    assert_eq!(f.attachment.writing, FileHandleKind::StandardOutput);
    assert_eq!(f, b);
}

#[test]
fn efi_variable_store_creation_and_overwrite() {
    let mut host = Host::new(true);
    let store = VZEFIVariableStore::create(
        "/nvram/store",
        VZEFIVariableStoreInitializationOptions::new(),
        &mut host,
    );
    assert!(store.is_ok());
    assert!(host.file_reachable("/nvram/store"));

    let again = VZEFIVariableStore::create(
        "/nvram/store",
        VZEFIVariableStoreInitializationOptions::new(),
        &mut host,
    );
    assert_eq!(again.unwrap_err().code(), CODE_ATTACHMENT_CREATION);

    let overwritten = VZEFIVariableStore::create(
        "/nvram/store",
        VZEFIVariableStoreInitializationOptions::new()
            .with(VZEFIVariableStoreInitializationOption::allow_overwrite()),
        &mut host,
    );
    assert!(overwritten.is_ok());
}

#[test]
fn efi_options_combine_by_bitwise_or() {
    assert_eq!(VZEFIVariableStoreInitializationOptions::new().into_raw(), 0);
    assert_eq!(
        VZEFIVariableStoreInitializationOptions::new()
            .with(VZEFIVariableStoreInitializationOption::allow_overwrite())
            .into_raw(),
        1
    );
    assert_eq!(
        VZEFIVariableStoreInitializationOptions::new()
            .with(VZEFIVariableStoreInitializationOption::allow_overwrite())
            .with(VZEFIVariableStoreInitializationOption::allow_overwrite())
            .into_raw(),
        1
    );
}

#[test]
fn efi_boot_loader_carries_its_store() {
    let boot_loader = VZEFIBootLoaderBuilder::new()
        .with_variable_store(VZEFIVariableStore::open("/nvram/store"))
        .build();
    match boot_loader.boot_loader_config() {
        BootLoaderConfig::Efi { variable_store_url } => {
            assert_eq!(variable_store_url.unwrap().path().as_str(), "/nvram/store");
        }
        BootLoaderConfig::Linux { .. } => panic!("expected a firmware boot loader"),
    }

    let bare = VZEFIBootLoaderBuilder::new().build();
    match bare.boot_loader_config() {
        BootLoaderConfig::Efi { variable_store_url } => assert!(variable_store_url.is_none()),
        BootLoaderConfig::Linux { .. } => panic!("expected a firmware boot loader"),
    }
}
