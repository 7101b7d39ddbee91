//! Tests of the host model, the owned-handle discipline, the
//! virtual-machine configuration and the lifecycle state machine.

use virtualization_rs::base::NSArray;
use virtualization_rs::base::CODE_RUNTIME_REQUEST;
use virtualization_rs::base::CODE_VALIDATION;
use virtualization_rs::boot_loader::VZLinuxBootLoaderBuilder;
use virtualization_rs::entropy_device::VZVirtioEntropyDeviceConfiguration;
use virtualization_rs::graphics_device::DisplayDesc;
use virtualization_rs::graphics_device::GraphicsDeviceDesc;
use virtualization_rs::graphics_device::VZGraphicsDeviceConfiguration;
use virtualization_rs::graphics_device::VZMacGraphicsDeviceConfiguration;
use virtualization_rs::graphics_device::VZMacGraphicsDisplayConfiguration;
use virtualization_rs::host::Handle;
use virtualization_rs::host::Host;
use virtualization_rs::keyboard::KeyboardDesc;
use virtualization_rs::keyboard::VZKeyboardConfiguration;
use virtualization_rs::keyboard::VZUSBKeyboardConfiguration;
use virtualization_rs::memory_device::VZVirtioTraditionalMemoryBalloonDeviceConfiguration;
use virtualization_rs::network_device::NetworkAttachmentDesc;
use virtualization_rs::network_device::VZMACAddress;
use virtualization_rs::network_device::VZNATNetworkDeviceAttachment;
use virtualization_rs::network_device::VZNetworkDeviceConfiguration;
use virtualization_rs::network_device::VZVirtioNetworkDeviceConfiguration;
use virtualization_rs::pointing_device::PointingDeviceDesc;
use virtualization_rs::pointing_device::VZPointingDeviceConfiguration;
use virtualization_rs::pointing_device::VZUSBScreenCoordinatePointingDeviceConfiguration;
use virtualization_rs::serial_port::VZFileHandleSerialPortAttachmentBuilder;
use virtualization_rs::serial_port::VZVirtioConsoleDeviceSerialPortConfiguration;
use virtualization_rs::base::NSFileHandle;
use virtualization_rs::storage_device::VZDiskImageStorageDeviceAttachmentBuilder;
use virtualization_rs::storage_device::VZVirtioBlockDeviceConfiguration;
use virtualization_rs::virtual_machine::state_from_raw;
use virtualization_rs::virtual_machine::VZVirtualMachine;
use virtualization_rs::virtual_machine::VZVirtualMachineConfiguration;
use virtualization_rs::virtual_machine::VZVirtualMachineConfigurationBuilder;
use virtualization_rs::virtual_machine::VZVirtualMachineState;

#[test]
fn handle_is_released_exactly_once() {
    let mut host = Host::new(true);
    let handle = host.allocate();
    let raw = handle.as_raw();
    assert_eq!(raw, 1);
    assert_eq!(host.object_count(), 1);
    assert_eq!(host.object_retains(raw), 1);
    assert_eq!(host.object_releases(raw), 0);

    // Reading the raw value takes no host at all, so it cannot touch
    // the ledger, however often it happens.
    let _ = handle.as_raw();
    let _ = handle.as_raw();
    assert_eq!(host.object_retains(raw), 1);
    assert_eq!(host.object_releases(raw), 0);

    // Releasing consumes the handle: over its whole lifetime exactly
    // one release is recorded.
    handle.release(&mut host);
    assert_eq!(host.object_retains(raw), 1);
    assert_eq!(host.object_releases(raw), 1);
}

#[test]
fn arrays_keep_references_in_order() {
    let mut host = Host::new(true);
    let first = host.allocate();
    let second = host.allocate();
    let array = NSArray::array_with_objects(vec![first.as_raw(), second.as_raw()]);
    assert_eq!(array.count(), 2);
    assert_eq!(array.object_at_index(0), first.as_raw());
    assert_eq!(array.object_at_index(1), second.as_raw());
    first.release(&mut host);
    second.release(&mut host);
}

#[test]
fn duplicating_a_handle_retains() {
    let mut host = Host::new(true);
    let first = host.allocate();
    let raw = first.as_raw();
    let second = first.duplicate(&mut host);
    assert_eq!(second.as_raw(), raw);
    assert_eq!(host.object_retains(raw), 2);
    assert_eq!(host.object_releases(raw), 0);
    first.release(&mut host);
    second.release(&mut host);
    assert_eq!(host.object_retains(raw), 2);
    assert_eq!(host.object_releases(raw), 2);
}

#[test]
fn retained_handle_owns_its_increment() {
    let mut host = Host::new(true);
    let owner = host.allocate();
    let raw = owner.as_raw();
    let retained = Handle::retained(&mut host, raw);
    assert_eq!(host.object_retains(raw), 2);
    retained.release(&mut host);
    owner.release(&mut host);
    assert_eq!(host.object_releases(raw), 2);
}

fn reachable_linux_host() -> Host {
    let mut host = Host::new(true);
    host.add_file(String::from("/boot/vmlinuz"));
    host.add_file(String::from("/boot/initrd"));
    host.add_file(String::from("/vm/disk.img"));
    host
}

fn linux_configuration(cpu: usize, memory: usize, host: &Host) -> VZVirtualMachineConfiguration {
    let boot_loader = VZLinuxBootLoaderBuilder::new()
        .kernel_url(String::from("/boot/vmlinuz"))
        .initial_ramdisk_url(String::from("/boot/initrd"))
        .command_line(String::from("console=hvc0"))
        .build();
    let attachment = VZDiskImageStorageDeviceAttachmentBuilder::new()
        .path(String::from("/vm/disk.img"))
        .build(host)
        .unwrap();
    VZVirtualMachineConfigurationBuilder::new()
        .boot_loader(boot_loader)
        .cpu_count(cpu)
        .memory_size(memory)
        .storage_devices(vec![VZVirtioBlockDeviceConfiguration::new(attachment)])
        .build()
}

#[test]
fn configuration_builder_setter_order_is_irrelevant() {
    let boot_loader = || {
        VZLinuxBootLoaderBuilder::new()
            .kernel_url(String::from("/boot/vmlinuz"))
            .initial_ramdisk_url(String::from("/boot/initrd"))
            .command_line(String::from("console=hvc0"))
            .build()
    };
    let forward = VZVirtualMachineConfigurationBuilder::new()
        .boot_loader(boot_loader())
        .cpu_count(4)
        .memory_size(2147483648)
        .build();
    let backward = VZVirtualMachineConfigurationBuilder::new()
        .memory_size(2147483648)
        .cpu_count(4)
        .boot_loader(boot_loader())
        .build();
    let mixed = VZVirtualMachineConfigurationBuilder::new()
        .cpu_count(4)
        .boot_loader(boot_loader())
        .memory_size(2147483648)
        .build();
    for conf in [&forward, &backward, &mixed] {
        assert_eq!(conf.cpu_count(), 4);
        assert_eq!(conf.memory_size(), 2147483648);
        assert!(conf.entropy_devices().is_empty());
        assert!(conf.storage_devices().is_empty());
    }
}

#[test]
fn validation_accepts_a_reachable_configuration() {
    let host = reachable_linux_host();
    let conf = linux_configuration(4, 2147483648, &host);
    assert_eq!(conf.validate_with_error(&host).unwrap(), true);
}

#[test]
fn validation_rejects_missing_kernel() {
    // The boot loader points at kernel and ramdisk images that do not
    // exist on the host: validation reports a non-zero-code error, never
    // a silently empty result.
    let mut host = Host::new(true);
    host.add_file(String::from("/vm/disk.img"));
    let boot_loader = VZLinuxBootLoaderBuilder::new()
        .kernel_url(String::from("/boot/no-such-kernel"))
        .initial_ramdisk_url(String::from("/boot/no-such-initrd"))
        .command_line(String::from("console=hvc0"))
        .build();
    let conf = VZVirtualMachineConfigurationBuilder::new()
        .boot_loader(boot_loader)
        .cpu_count(4)
        .memory_size(2147483648)
        .build();
    let err = conf.validate_with_error(&host).unwrap_err();
    assert_eq!(err.code(), CODE_VALIDATION);
    assert_ne!(err.code(), 0);
}

#[test]
fn validation_rejects_zero_sizing() {
    let host = reachable_linux_host();
    let no_cpu = linux_configuration(0, 2147483648, &host);
    assert_eq!(no_cpu.validate_with_error(&host).unwrap_err().code(), CODE_VALIDATION);
    let no_memory = linux_configuration(4, 0, &host);
    assert_eq!(no_memory.validate_with_error(&host).unwrap_err().code(), CODE_VALIDATION);
}

#[test]
fn unsupported_platform_stops_everything_early() {
    // On a host that does not support virtual machines the capability
    // check fails, and the session takes the early return: no further
    // call against the machine API is attempted, and the host shows no
    // side effect — no object was ever allocated.
    let host = Host::new(false);
    if !VZVirtualMachine::supported(&host) {
        assert_eq!(host.object_count(), 0);
        return;
    }
    unreachable!("an unsupported host must fail the capability check");
}

#[test]
fn full_lifecycle_with_nat_network_and_random_mac() {
    // The guest of the reference flow: four processors, two gibibytes,
    // one NAT network device with a generated hardware address.
    let mut host = reachable_linux_host();
    let nat = VZNATNetworkDeviceAttachment::new();
    let mut network = VZVirtioNetworkDeviceConfiguration::new(nat);
    let mac = VZMACAddress::random_locally_administered_address(&mut host);
    network.set_mac_address(mac);
    assert_eq!(network.mac_address().unwrap().value(), mac.value());

    let boot_loader = VZLinuxBootLoaderBuilder::new()
        .kernel_url(String::from("/boot/vmlinuz"))
        .initial_ramdisk_url(String::from("/boot/initrd"))
        .command_line(String::from("console=hvc0"))
        .build();
    let attachment = VZDiskImageStorageDeviceAttachmentBuilder::new()
        .path(String::from("/vm/disk.img"))
        .build(&host)
        .unwrap();
    let serial_attachment = VZFileHandleSerialPortAttachmentBuilder::new()
        .file_handle_for_reading(NSFileHandle::file_handle_with_standard_input())
        .file_handle_for_writing(NSFileHandle::file_handle_with_standard_output())
        .build();
    let conf = VZVirtualMachineConfigurationBuilder::new()
        .boot_loader(boot_loader)
        .cpu_count(4)
        .memory_size(2147483648)
        .entropy_devices(vec![VZVirtioEntropyDeviceConfiguration::new()])
        .memory_balloon_devices(vec![VZVirtioTraditionalMemoryBalloonDeviceConfiguration::new()])
        .network_devices(vec![network])
        .serial_ports(vec![VZVirtioConsoleDeviceSerialPortConfiguration::new(serial_attachment)])
        .storage_devices(vec![VZVirtioBlockDeviceConfiguration::new(attachment)])
        .build();
    assert_eq!(conf.network_devices().len(), 1);
    match conf.network_devices()[0].attachment() {
        NetworkAttachmentDesc::Nat => {}
        NetworkAttachmentDesc::Bridged { .. } => panic!("expected a NAT attachment"),
    }
    assert!(conf.validate_with_error(&host).is_ok());

    let queue = host.create_queue("vm queue");
    assert_eq!(queue, 0);
    let mut vm = VZVirtualMachine::new(conf, queue, &mut host);
    let machine_raw = host.object_count();
    assert_eq!(vm.queue(), queue);
    assert_eq!(vm.state(), VZVirtualMachineState::VZVirtualMachineStateStopped);

    vm.start_with_completion_handler();
    assert_eq!(vm.state(), VZVirtualMachineState::VZVirtualMachineStateStarting);
    vm.complete_start(0);
    assert_eq!(vm.state(), VZVirtualMachineState::VZVirtualMachineStateRunning);

    assert_eq!(vm.request_stop_with_error().unwrap(), true);
    vm.complete_stop();
    assert_eq!(vm.state(), VZVirtualMachineState::VZVirtualMachineStateStopped);

    vm.dispose(&mut host);
    assert_eq!(host.object_releases(machine_raw), 1);
}

#[test]
fn failed_start_falls_back_to_stopped() {
    let mut host = reachable_linux_host();
    let conf = linux_configuration(4, 2147483648, &host);
    assert!(conf.validate_with_error(&host).is_ok());
    let queue = host.create_queue("vm queue");
    let mut vm = VZVirtualMachine::new(conf, queue, &mut host);
    vm.start_with_completion_handler();
    vm.complete_start(3);
    assert_eq!(vm.state(), VZVirtualMachineState::VZVirtualMachineStateStopped);
}

#[test]
fn stop_request_without_start_is_rejected() {
    // The platform leaves the behaviour of a stop request on a machine
    // that never started to its own definition; this library defines it
    // as a rejection: the request returns a structured error with the
    // runtime-request code, and the machine stays stopped.
    let mut host = reachable_linux_host();
    let conf = linux_configuration(4, 2147483648, &host);
    assert!(conf.validate_with_error(&host).is_ok());
    let queue = host.create_queue("vm queue");
    let mut vm = VZVirtualMachine::new(conf, queue, &mut host);
    let err = vm.request_stop_with_error().unwrap_err();
    assert_eq!(err.code(), CODE_RUNTIME_REQUEST);
    assert_eq!(vm.state(), VZVirtualMachineState::VZVirtualMachineStateStopped);
}

#[test]
fn successive_random_macs_differ() {
    let mut host = Host::new(true);
    let first = VZMACAddress::random_locally_administered_address(&mut host);
    let second = VZMACAddress::random_locally_administered_address(&mut host);
    // The entropy counter starts at zero, so the first address is the
    // locally-administered prefix itself.
    assert_eq!(first.value(), 0x020000000000);
    assert_eq!(second.value(), 0x020000000001);
    assert_ne!(first.value(), second.value());
    for mac in [first, second] {
        assert!(mac.value() < 0x1000000000000);
        assert_eq!(mac.value() & 0x020000000000, 0x020000000000);
        assert_eq!(mac.value() & 0x010000000000, 0);
    }
}

#[test]
fn mac_address_parsing() {
    let parsed = VZMACAddress::init_with_string("01:23:45:67:89:ab").unwrap();
    assert_eq!(parsed.value(), 0x0123456789ab);
    let upper = VZMACAddress::init_with_string("0A:BC:DE:F0:12:34").unwrap();
    assert_eq!(upper.value(), 0x0abcdef01234);
    assert_eq!(VZMACAddress::new().value(), 0);

    assert!(VZMACAddress::init_with_string("").is_none());
    assert!(VZMACAddress::init_with_string("01:23:45:67:89").is_none());
    assert!(VZMACAddress::init_with_string("01:23:45:67:89:gb").is_none());
    assert!(VZMACAddress::init_with_string("01-23-45-67-89-ab").is_none());
    assert!(VZMACAddress::init_with_string("01:23:45:67:89:ab:").is_none());
}

#[test]
fn state_decoding_matches_the_platform_codes() {
    assert_eq!(state_from_raw(0), VZVirtualMachineState::VZVirtualMachineStateStopped);
    assert_eq!(state_from_raw(1), VZVirtualMachineState::VZVirtualMachineStateRunning);
    assert_eq!(state_from_raw(2), VZVirtualMachineState::VZVirtualMachineStatePaused);
    assert_eq!(state_from_raw(3), VZVirtualMachineState::VZVirtualMachineStateError);
    assert_eq!(state_from_raw(4), VZVirtualMachineState::VZVirtualMachineStateStarting);
    assert_eq!(state_from_raw(5), VZVirtualMachineState::VZVirtualMachineStatePausing);
    assert_eq!(state_from_raw(6), VZVirtualMachineState::VZVirtualMachineStateResuming);
    assert_eq!(state_from_raw(7), VZVirtualMachineState::Other);
    assert_eq!(state_from_raw(-1), VZVirtualMachineState::Other);
}

#[test]
fn stateless_devices_report_their_kind() {
    assert_eq!(VZUSBKeyboardConfiguration::new().keyboard_config(), KeyboardDesc::Usb);
    assert_eq!(
        VZUSBScreenCoordinatePointingDeviceConfiguration::new().pointing_device_config(),
        PointingDeviceDesc::UsbScreenCoordinate
    );
}

#[test]
fn graphics_devices_keep_their_displays() {
    let displays = vec![
        VZMacGraphicsDisplayConfiguration::new_with(1920, 1200, 226),
        VZMacGraphicsDisplayConfiguration::new_with(800, 600, 96),
    ];
    let device = VZMacGraphicsDeviceConfiguration::new(displays);
    match device.graphics_device_config() {
        GraphicsDeviceDesc::Mac { displays } => {
            assert_eq!(
                displays,
                vec![
                    DisplayDesc { width_in_pixels: 1920, height_in_pixels: 1200, pixels_per_inch: 226 },
                    DisplayDesc { width_in_pixels: 800, height_in_pixels: 600, pixels_per_inch: 96 },
                ]
            );
        }
        GraphicsDeviceDesc::Virtio { .. } => panic!("expected a Mac graphics device"),
    }
}
