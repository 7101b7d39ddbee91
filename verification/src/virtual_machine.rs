//! The virtual machine: the configuration that aggregates the boot
//! loader, the sizing and the device lists; its validation against the
//! host; and the machine's asynchronous lifecycle state machine.

use vstd::prelude::*;
use crate::base::CODE_RUNTIME_REQUEST;
use crate::base::CODE_VALIDATION;
use crate::base::NSError;
use crate::boot_loader::BootLoaderConfig;
use crate::boot_loader::BootLoaderView;
use crate::boot_loader::VZBootLoader;
use crate::entropy_device::EntropyDeviceDesc;
use crate::entropy_device::VZEntropyDeviceConfiguration;
use crate::host::alloc_transition;
use crate::host::object_live;
use crate::host::release_transition;
use crate::host::Handle;
use crate::host::Host;
use crate::host::HostView;
use crate::memory_device::MemoryBalloonDeviceDesc;
use crate::memory_device::VZMemoryBalloonDeviceConfiguration;
use crate::network_device::NetworkDeviceDesc;
use crate::network_device::NetworkDeviceView;
use crate::network_device::VZNetworkDeviceConfiguration;
use crate::serial_port::SerialPortDesc;
use crate::serial_port::VZSerialPortConfiguration;
use crate::socket_device::SocketDeviceDesc;
use crate::socket_device::VZSocketDeviceConfiguration;
use crate::storage_device::StorageDeviceDesc;
use crate::storage_device::StorageDeviceView;
use crate::storage_device::VZStorageDeviceConfiguration;

verus! {

/// The descriptions of a sequence of network devices.
pub open spec fn network_device_views(s: Seq<NetworkDeviceDesc>) -> Seq<NetworkDeviceView> {
    Seq::new(s.len(), |i: int| s[i]@)
}

/// The descriptions of a sequence of storage devices.
pub open spec fn storage_device_views(s: Seq<StorageDeviceDesc>) -> Seq<StorageDeviceView> {
    Seq::new(s.len(), |i: int| s[i]@)
}

/// The mathematical description of a virtual-machine configuration.
#[verifier::ext_equal]
pub struct VmConfigView {
    /// The boot loader; exactly one, mandatory.
    pub boot_loader: BootLoaderView,
    /// The number of processors of the guest.
    pub cpu_count: int,
    /// The memory of the guest, in bytes.
    pub memory_size: int,
    /// The entropy devices, in the order they were given.
    pub entropy_devices: Seq<EntropyDeviceDesc>,
    /// The memory balloon devices, in the order they were given.
    pub memory_balloon_devices: Seq<MemoryBalloonDeviceDesc>,
    /// The network devices, in the order they were given.
    pub network_devices: Seq<NetworkDeviceView>,
    /// The serial ports, in the order they were given.
    pub serial_ports: Seq<SerialPortDesc>,
    /// The socket devices, in the order they were given.
    pub socket_devices: Seq<SocketDeviceDesc>,
    /// The storage devices, in the order they were given.
    pub storage_devices: Seq<StorageDeviceView>,
}

/// The mathematical state of a configuration builder: which fields have
/// been supplied, and with what.
#[verifier::ext_equal]
pub struct VmBuilderView {
    pub boot_loader: Option<BootLoaderView>,
    pub cpu_count: Option<int>,
    pub memory_size: Option<int>,
    pub entropy_devices: Seq<EntropyDeviceDesc>,
    pub memory_balloon_devices: Seq<MemoryBalloonDeviceDesc>,
    pub network_devices: Seq<NetworkDeviceView>,
    pub serial_ports: Seq<SerialPortDesc>,
    pub socket_devices: Seq<SocketDeviceDesc>,
    pub storage_devices: Seq<StorageDeviceView>,
}

/// A fresh builder: no mandatory field supplied, every device list
/// empty.
pub open spec fn new_builder_view() -> VmBuilderView {
    VmBuilderView {
        boot_loader: None,
        cpu_count: None,
        memory_size: None,
        entropy_devices: Seq::empty(),
        memory_balloon_devices: Seq::empty(),
        network_devices: Seq::empty(),
        serial_ports: Seq::empty(),
        socket_devices: Seq::empty(),
        storage_devices: Seq::empty(),
    }
}

/// Supplying the boot loader: only that field changes.
pub open spec fn set_boot_loader_t(b: VmBuilderView, boot_loader: BootLoaderView) -> VmBuilderView {
    VmBuilderView { boot_loader: Some(boot_loader), ..b }
}

/// Supplying the processor count: only that field changes.
pub open spec fn set_cpu_count_t(b: VmBuilderView, cpu_count: int) -> VmBuilderView {
    VmBuilderView { cpu_count: Some(cpu_count), ..b }
}

/// Supplying the memory size: only that field changes.
pub open spec fn set_memory_size_t(b: VmBuilderView, memory_size: int) -> VmBuilderView {
    VmBuilderView { memory_size: Some(memory_size), ..b }
}

/// Whether every mandatory field of the builder has been supplied;
/// `build` demands it.
pub open spec fn builder_complete(b: VmBuilderView) -> bool {
    &&& b.boot_loader is Some
    &&& b.cpu_count is Some
    &&& b.memory_size is Some
}

/// The configuration a complete builder builds.
pub open spec fn build_t(b: VmBuilderView) -> VmConfigView
    recommends
        builder_complete(b),
{
    VmConfigView {
        boot_loader: b.boot_loader->0,
        cpu_count: b.cpu_count->0,
        memory_size: b.memory_size->0,
        entropy_devices: b.entropy_devices,
        memory_balloon_devices: b.memory_balloon_devices,
        network_devices: b.network_devices,
        serial_ports: b.serial_ports,
        socket_devices: b.socket_devices,
        storage_devices: b.storage_devices,
    }
}

/// One of the builder's mandatory setters.
pub enum MandatorySetter {
    /// Supplying the boot loader.
    BootLoader,
    /// Supplying the processor count.
    CpuCount,
    /// Supplying the memory size.
    MemorySize,
}

/// Apply one mandatory setter with the given values.
pub open spec fn apply_mandatory(
    b: VmBuilderView,
    tag: MandatorySetter,
    boot_loader: BootLoaderView,
    cpu_count: int,
    memory_size: int,
) -> VmBuilderView {
    match tag {
        MandatorySetter::BootLoader => set_boot_loader_t(b, boot_loader),
        MandatorySetter::CpuCount => set_cpu_count_t(b, cpu_count),
        MandatorySetter::MemorySize => set_memory_size_t(b, memory_size),
    }
}

/// Apply a chain of mandatory setters, in order, with the given values.
pub open spec fn apply_mandatory_chain(
    b: VmBuilderView,
    order: Seq<MandatorySetter>,
    boot_loader: BootLoaderView,
    cpu_count: int,
    memory_size: int,
) -> VmBuilderView
    decreases order.len(),
{
    if order.len() == 0 {
        b
    } else {
        apply_mandatory_chain(
            apply_mandatory(b, order[0], boot_loader, cpu_count, memory_size),
            order.skip(1),
            boot_loader,
            cpu_count,
            memory_size,
        )
    }
}

/// Law: calling every mandatory setter once on a fresh builder, in any
/// order, reaches a builder that `build` accepts, and the built
/// configuration does not depend on the order: the boot loader, the
/// processor count and the memory size are exactly the supplied values,
/// and every device list is empty.
pub proof fn lemma_mandatory_setters_any_order(
    order: Seq<MandatorySetter>,
    boot_loader: BootLoaderView,
    cpu_count: int,
    memory_size: int,
)
    requires
        order.len() == 3,
        order.contains(MandatorySetter::BootLoader),
        order.contains(MandatorySetter::CpuCount),
        order.contains(MandatorySetter::MemorySize),
    ensures
        builder_complete(
            apply_mandatory_chain(new_builder_view(), order, boot_loader, cpu_count, memory_size),
        ),
        build_t(
            apply_mandatory_chain(new_builder_view(), order, boot_loader, cpu_count, memory_size),
        ) == (VmConfigView {
            boot_loader,
            cpu_count,
            memory_size,
            entropy_devices: Seq::empty(),
            memory_balloon_devices: Seq::empty(),
            network_devices: Seq::empty(),
            serial_ports: Seq::empty(),
            socket_devices: Seq::empty(),
            storage_devices: Seq::empty(),
        }),
{
    let b0 = new_builder_view();
    let b1 = apply_mandatory(b0, order[0], boot_loader, cpu_count, memory_size);
    let b2 = apply_mandatory(b1, order[1], boot_loader, cpu_count, memory_size);
    let b3 = apply_mandatory(b2, order[2], boot_loader, cpu_count, memory_size);
    let rest1 = order.skip(1);
    let rest2 = rest1.skip(1);
    let rest3 = rest2.skip(1);
    assert(rest1.len() == 2 && rest2.len() == 1 && rest3.len() == 0);
    assert(rest1[0] == order[1] && rest2[0] == order[2]);
    assert(apply_mandatory_chain(b0, order, boot_loader, cpu_count, memory_size)
        == apply_mandatory_chain(b1, rest1, boot_loader, cpu_count, memory_size));
    assert(apply_mandatory_chain(b1, rest1, boot_loader, cpu_count, memory_size)
        == apply_mandatory_chain(b2, rest2, boot_loader, cpu_count, memory_size));
    assert(apply_mandatory_chain(b2, rest2, boot_loader, cpu_count, memory_size)
        == apply_mandatory_chain(b3, rest3, boot_loader, cpu_count, memory_size));
    assert(apply_mandatory_chain(b3, rest3, boot_loader, cpu_count, memory_size) == b3);
    assert(exists|i: int| 0 <= i < 3 && order[i] == MandatorySetter::BootLoader) by {
        let i = choose|i: int| 0 <= i < order.len() && order[i] == MandatorySetter::BootLoader;
        assert(0 <= i < 3 && order[i] == MandatorySetter::BootLoader);
    }
    assert(exists|i: int| 0 <= i < 3 && order[i] == MandatorySetter::CpuCount) by {
        let i = choose|i: int| 0 <= i < order.len() && order[i] == MandatorySetter::CpuCount;
        assert(0 <= i < 3 && order[i] == MandatorySetter::CpuCount);
    }
    assert(exists|i: int| 0 <= i < 3 && order[i] == MandatorySetter::MemorySize) by {
        let i = choose|i: int| 0 <= i < order.len() && order[i] == MandatorySetter::MemorySize;
        assert(0 <= i < 3 && order[i] == MandatorySetter::MemorySize);
    }
    assert(b3.boot_loader == Some(boot_loader));
    assert(b3.cpu_count == Some(cpu_count));
    assert(b3.memory_size == Some(memory_size));
}

/// Law: the mandatory setters commute — each touches only its own
/// field, so a chain of setters reaches the same builder in any order.
pub proof fn lemma_mandatory_setters_commute(
    b: VmBuilderView,
    boot_loader: BootLoaderView,
    cpu_count: int,
    memory_size: int,
)
    ensures
        set_cpu_count_t(set_boot_loader_t(b, boot_loader), cpu_count) == set_boot_loader_t(
            set_cpu_count_t(b, cpu_count),
            boot_loader,
        ),
        set_memory_size_t(set_boot_loader_t(b, boot_loader), memory_size) == set_boot_loader_t(
            set_memory_size_t(b, memory_size),
            boot_loader,
        ),
        set_memory_size_t(set_cpu_count_t(b, cpu_count), memory_size) == set_cpu_count_t(
            set_memory_size_t(b, memory_size),
            cpu_count,
        ),
{
}

/// Builder for [`VZVirtualMachineConfiguration`]. The boot loader, the
/// processor count and the memory size are mandatory: `build` demands
/// that all three were supplied. The six device lists are optional and
/// default to empty.
pub struct VZVirtualMachineConfigurationBuilder {
    boot_loader: Option<BootLoaderConfig>,
    cpu_count: Option<usize>,
    memory_size: Option<usize>,
    entropy_devices: Vec<EntropyDeviceDesc>,
    memory_balloon_devices: Vec<MemoryBalloonDeviceDesc>,
    network_devices: Vec<NetworkDeviceDesc>,
    serial_ports: Vec<SerialPortDesc>,
    socket_devices: Vec<SocketDeviceDesc>,
    storage_devices: Vec<StorageDeviceDesc>,
}

impl View for VZVirtualMachineConfigurationBuilder {
    type V = VmBuilderView;

    closed spec fn view(&self) -> VmBuilderView {
        VmBuilderView {
            boot_loader: match self.boot_loader {
                Some(b) => Some(b@),
                None => None,
            },
            cpu_count: match self.cpu_count {
                Some(c) => Some(c as int),
                None => None,
            },
            memory_size: match self.memory_size {
                Some(m) => Some(m as int),
                None => None,
            },
            entropy_devices: self.entropy_devices@,
            memory_balloon_devices: self.memory_balloon_devices@,
            network_devices: network_device_views(self.network_devices@),
            serial_ports: self.serial_ports@,
            socket_devices: self.socket_devices@,
            storage_devices: storage_device_views(self.storage_devices@),
        }
    }
}

impl VZVirtualMachineConfigurationBuilder {
    /// A fresh builder: no mandatory field supplied, every device list
    /// empty.
    pub fn new() -> (r: VZVirtualMachineConfigurationBuilder)
        ensures
            r@ == new_builder_view(),
    {
        let r = VZVirtualMachineConfigurationBuilder {
            boot_loader: None,
            cpu_count: None,
            memory_size: None,
            entropy_devices: Vec::new(),
            memory_balloon_devices: Vec::new(),
            network_devices: Vec::new(),
            serial_ports: Vec::new(),
            socket_devices: Vec::new(),
            storage_devices: Vec::new(),
        };
        proof {
            assert(r@ =~~= new_builder_view());
        }
        r
    }

    /// Supply the boot loader; every other field is kept.
    pub fn boot_loader<T: VZBootLoader>(self, boot_loader: T) -> (r:
        VZVirtualMachineConfigurationBuilder)
        ensures
            r@ == set_boot_loader_t(self@, boot_loader.boot_loader_view()),
    {
        let config = boot_loader.boot_loader_config();
        let r = VZVirtualMachineConfigurationBuilder { boot_loader: Some(config), ..self };
        proof {
            assert(r@ =~~= set_boot_loader_t(self@, boot_loader.boot_loader_view()));
        }
        r
    }

    /// Supply the number of processors; every other field is kept.
    pub fn cpu_count(self, cpu_count: usize) -> (r: VZVirtualMachineConfigurationBuilder)
        ensures
            r@ == set_cpu_count_t(self@, cpu_count as int),
    {
        let r = VZVirtualMachineConfigurationBuilder { cpu_count: Some(cpu_count), ..self };
        proof {
            assert(r@ =~~= set_cpu_count_t(self@, cpu_count as int));
        }
        r
    }

    /// Supply the memory size in bytes; every other field is kept.
    pub fn memory_size(self, memory_size: usize) -> (r: VZVirtualMachineConfigurationBuilder)
        ensures
            r@ == set_memory_size_t(self@, memory_size as int),
    {
        let r = VZVirtualMachineConfigurationBuilder { memory_size: Some(memory_size), ..self };
        proof {
            assert(r@ =~~= set_memory_size_t(self@, memory_size as int));
        }
        r
    }

    /// Supply the entropy devices; every other field is kept.
    pub fn entropy_devices<T: VZEntropyDeviceConfiguration>(self, entropy_devices: Vec<T>) -> (r:
        VZVirtualMachineConfigurationBuilder)
        ensures
            r@ == (VmBuilderView {
                entropy_devices: Seq::new(
                    entropy_devices@.len(),
                    |i: int| entropy_devices@[i].entropy_device_view(),
                ),
                ..self@
            }),
    {
        let mut descs: Vec<EntropyDeviceDesc> = Vec::new();
        let mut i: usize = 0;
        while i < entropy_devices.len()
            invariant
                i <= entropy_devices.len(),
                descs@.len() == i,
                forall|j: int|
                    0 <= j < i ==> descs@[j] == (
                    #[trigger] entropy_devices@[j].entropy_device_view()),
            decreases entropy_devices.len() - i,
        {
            descs.push(entropy_devices[i].entropy_device_config());
            i += 1;
        }
        let r = VZVirtualMachineConfigurationBuilder { entropy_devices: descs, ..self };
        proof {
            assert(r@ =~~= (VmBuilderView {
                entropy_devices: Seq::new(
                    entropy_devices@.len(),
                    |i: int| entropy_devices@[i].entropy_device_view(),
                ),
                ..self@
            }));
        }
        r
    }

    /// Supply the memory balloon devices; every other field is kept.
    pub fn memory_balloon_devices<T: VZMemoryBalloonDeviceConfiguration>(
        self,
        memory_balloon_devices: Vec<T>,
    ) -> (r: VZVirtualMachineConfigurationBuilder)
        ensures
            r@ == (VmBuilderView {
                memory_balloon_devices: Seq::new(
                    memory_balloon_devices@.len(),
                    |i: int| memory_balloon_devices@[i].memory_balloon_device_view(),
                ),
                ..self@
            }),
    {
        let mut descs: Vec<MemoryBalloonDeviceDesc> = Vec::new();
        let mut i: usize = 0;
        while i < memory_balloon_devices.len()
            invariant
                i <= memory_balloon_devices.len(),
                descs@.len() == i,
                forall|j: int|
                    0 <= j < i ==> descs@[j] == (
                    #[trigger] memory_balloon_devices@[j].memory_balloon_device_view()),
            decreases memory_balloon_devices.len() - i,
        {
            descs.push(memory_balloon_devices[i].memory_balloon_device_config());
            i += 1;
        }
        let r = VZVirtualMachineConfigurationBuilder { memory_balloon_devices: descs, ..self };
        proof {
            assert(r@ =~~= (VmBuilderView {
                memory_balloon_devices: Seq::new(
                    memory_balloon_devices@.len(),
                    |i: int| memory_balloon_devices@[i].memory_balloon_device_view(),
                ),
                ..self@
            }));
        }
        r
    }

    /// Supply the network devices; every other field is kept.
    pub fn network_devices<T: VZNetworkDeviceConfiguration>(self, network_devices: Vec<T>) -> (r:
        VZVirtualMachineConfigurationBuilder)
        ensures
            r@ == (VmBuilderView {
                network_devices: Seq::new(
                    network_devices@.len(),
                    |i: int| network_devices@[i].network_device_view(),
                ),
                ..self@
            }),
    {
        let mut descs: Vec<NetworkDeviceDesc> = Vec::new();
        let mut i: usize = 0;
        while i < network_devices.len()
            invariant
                i <= network_devices.len(),
                descs@.len() == i,
                forall|j: int|
                    0 <= j < i ==> descs@[j]@ == (
                    #[trigger] network_devices@[j].network_device_view()),
            decreases network_devices.len() - i,
        {
            descs.push(network_devices[i].network_device_config());
            i += 1;
        }
        let r = VZVirtualMachineConfigurationBuilder { network_devices: descs, ..self };
        proof {
            assert(r@.network_devices =~= Seq::new(
                network_devices@.len(),
                |i: int| network_devices@[i].network_device_view(),
            ));
            assert(r@ =~~= (VmBuilderView {
                network_devices: Seq::new(
                    network_devices@.len(),
                    |i: int| network_devices@[i].network_device_view(),
                ),
                ..self@
            }));
        }
        r
    }

    /// Supply the serial ports; every other field is kept.
    pub fn serial_ports<T: VZSerialPortConfiguration>(self, serial_ports: Vec<T>) -> (r:
        VZVirtualMachineConfigurationBuilder)
        ensures
            r@ == (VmBuilderView {
                serial_ports: Seq::new(
                    serial_ports@.len(),
                    |i: int| serial_ports@[i].serial_port_view(),
                ),
                ..self@
            }),
    {
        let mut descs: Vec<SerialPortDesc> = Vec::new();
        let mut i: usize = 0;
        while i < serial_ports.len()
            invariant
                i <= serial_ports.len(),
                descs@.len() == i,
                forall|j: int|
                    0 <= j < i ==> descs@[j] == (#[trigger] serial_ports@[j].serial_port_view()),
            decreases serial_ports.len() - i,
        {
            descs.push(serial_ports[i].serial_port_config());
            i += 1;
        }
        let r = VZVirtualMachineConfigurationBuilder { serial_ports: descs, ..self };
        proof {
            assert(r@ =~~= (VmBuilderView {
                serial_ports: Seq::new(
                    serial_ports@.len(),
                    |i: int| serial_ports@[i].serial_port_view(),
                ),
                ..self@
            }));
        }
        r
    }

    /// Supply the socket devices; every other field is kept.
    pub fn socket_devices<T: VZSocketDeviceConfiguration>(self, socket_devices: Vec<T>) -> (r:
        VZVirtualMachineConfigurationBuilder)
        ensures
            r@ == (VmBuilderView {
                socket_devices: Seq::new(
                    socket_devices@.len(),
                    |i: int| socket_devices@[i].socket_device_view(),
                ),
                ..self@
            }),
    {
        let mut descs: Vec<SocketDeviceDesc> = Vec::new();
        let mut i: usize = 0;
        while i < socket_devices.len()
            invariant
                i <= socket_devices.len(),
                descs@.len() == i,
                forall|j: int|
                    0 <= j < i ==> descs@[j] == (
                    #[trigger] socket_devices@[j].socket_device_view()),
            decreases socket_devices.len() - i,
        {
            descs.push(socket_devices[i].socket_device_config());
            i += 1;
        }
        let r = VZVirtualMachineConfigurationBuilder { socket_devices: descs, ..self };
        proof {
            assert(r@ =~~= (VmBuilderView {
                socket_devices: Seq::new(
                    socket_devices@.len(),
                    |i: int| socket_devices@[i].socket_device_view(),
                ),
                ..self@
            }));
        }
        r
    }

    /// Supply the storage devices; every other field is kept.
    pub fn storage_devices<T: VZStorageDeviceConfiguration>(self, storage_devices: Vec<T>) -> (r:
        VZVirtualMachineConfigurationBuilder)
        ensures
            r@ == (VmBuilderView {
                storage_devices: Seq::new(
                    storage_devices@.len(),
                    |i: int| storage_devices@[i].storage_device_view(),
                ),
                ..self@
            }),
    {
        let mut descs: Vec<StorageDeviceDesc> = Vec::new();
        let mut i: usize = 0;
        while i < storage_devices.len()
            invariant
                i <= storage_devices.len(),
                descs@.len() == i,
                forall|j: int|
                    0 <= j < i ==> descs@[j]@ == (
                    #[trigger] storage_devices@[j].storage_device_view()),
            decreases storage_devices.len() - i,
        {
            descs.push(storage_devices[i].storage_device_config());
            i += 1;
        }
        let r = VZVirtualMachineConfigurationBuilder { storage_devices: descs, ..self };
        proof {
            assert(r@.storage_devices =~= Seq::new(
                storage_devices@.len(),
                |i: int| storage_devices@[i].storage_device_view(),
            ));
            assert(r@ =~~= (VmBuilderView {
                storage_devices: Seq::new(
                    storage_devices@.len(),
                    |i: int| storage_devices@[i].storage_device_view(),
                ),
                ..self@
            }));
        }
        r
    }

    /// Build the configuration. Only a builder whose mandatory fields
    /// were all supplied may build; the configuration carries exactly
    /// what was supplied.
    pub fn build(self) -> (r: VZVirtualMachineConfiguration)
        requires
            builder_complete(self@),
        ensures
            r@ == build_t(self@),
    {
        let r = VZVirtualMachineConfiguration {
            boot_loader: self.boot_loader.unwrap(),
            cpu_count: self.cpu_count.unwrap(),
            memory_size: self.memory_size.unwrap(),
            entropy_devices: self.entropy_devices,
            memory_balloon_devices: self.memory_balloon_devices,
            network_devices: self.network_devices,
            serial_ports: self.serial_ports,
            socket_devices: self.socket_devices,
            storage_devices: self.storage_devices,
        };
        proof {
            assert(r@ =~~= build_t(self@));
        }
        r
    }
}

/// Whether a configuration passes the hypervisor's structural
/// validation on a host: the guest has at least one processor and a
/// positive amount of memory, and every file the boot loader points at
/// is reachable on the host.
pub open spec fn configuration_valid(c: VmConfigView, h: HostView) -> bool {
    &&& c.cpu_count >= 1
    &&& c.memory_size >= 1
    &&& boot_loader_reachable(c.boot_loader, h)
}

/// Whether the files a boot loader points at are reachable on a host.
pub open spec fn boot_loader_reachable(b: BootLoaderView, h: HostView) -> bool {
    match b {
        BootLoaderView::Linux { kernel_path, initial_ramdisk_path, command_line } => {
            &&& h.files.contains(kernel_path)
            &&& h.files.contains(initial_ramdisk_path)
        },
        BootLoaderView::Efi { variable_store_path } => match variable_store_path {
            Some(p) => h.files.contains(p),
            None => true,
        },
    }
}

/// The configuration of a virtual machine: the boot loader, the guest's
/// sizing, and the device lists. Built through
/// [`VZVirtualMachineConfigurationBuilder`]; a machine is only created
/// from a configuration that validated against the host.
pub struct VZVirtualMachineConfiguration {
    boot_loader: BootLoaderConfig,
    cpu_count: usize,
    memory_size: usize,
    entropy_devices: Vec<EntropyDeviceDesc>,
    memory_balloon_devices: Vec<MemoryBalloonDeviceDesc>,
    network_devices: Vec<NetworkDeviceDesc>,
    serial_ports: Vec<SerialPortDesc>,
    socket_devices: Vec<SocketDeviceDesc>,
    storage_devices: Vec<StorageDeviceDesc>,
}

impl View for VZVirtualMachineConfiguration {
    type V = VmConfigView;

    closed spec fn view(&self) -> VmConfigView {
        VmConfigView {
            boot_loader: self.boot_loader@,
            cpu_count: self.cpu_count as int,
            memory_size: self.memory_size as int,
            entropy_devices: self.entropy_devices@,
            memory_balloon_devices: self.memory_balloon_devices@,
            network_devices: network_device_views(self.network_devices@),
            serial_ports: self.serial_ports@,
            socket_devices: self.socket_devices@,
            storage_devices: storage_device_views(self.storage_devices@),
        }
    }
}

impl VZVirtualMachineConfiguration {
    /// Validate the configuration against the host, as the hypervisor
    /// does before a machine may be created from it: success exactly
    /// when the configuration is structurally valid on this host, and a
    /// structured error otherwise.
    pub fn validate_with_error(&self, host: &Host) -> (r: Result<bool, NSError>)
        ensures
            r is Ok <==> configuration_valid(self@, host@),
            r matches Ok(b) ==> b == true,
            r matches Err(e) ==> e@.code == CODE_VALIDATION,
    {
        if self.cpu_count < 1 {
            return Err(
                NSError::new(CODE_VALIDATION, String::from_str("the guest needs a processor")),
            );
        }
        if self.memory_size < 1 {
            return Err(NSError::new(CODE_VALIDATION, String::from_str("the guest needs memory")));
        }
        match &self.boot_loader {
            BootLoaderConfig::Linux { kernel_url, initial_ramdisk_url, .. } => {
                if !host.file_reachable(kernel_url.path().as_str()) {
                    return Err(
                        NSError::new(
                            CODE_VALIDATION,
                            String::from_str("the host cannot reach the kernel image"),
                        ),
                    );
                }
                if !host.file_reachable(initial_ramdisk_url.path().as_str()) {
                    return Err(
                        NSError::new(
                            CODE_VALIDATION,
                            String::from_str("the host cannot reach the initial ramdisk image"),
                        ),
                    );
                }
            },
            BootLoaderConfig::Efi { variable_store_url } => {
                match variable_store_url {
                    Some(url) => {
                        if !host.file_reachable(url.path().as_str()) {
                            return Err(
                                NSError::new(
                                    CODE_VALIDATION,
                                    String::from_str("the host cannot reach the variable store"),
                                ),
                            );
                        }
                    },
                    None => {},
                }
            },
        }
        Ok(true)
    }

    /// The boot loader of the configuration.
    pub fn boot_loader(&self) -> (r: &BootLoaderConfig)
        ensures
            r@ == self@.boot_loader,
    {
        &self.boot_loader
    }

    /// The number of processors of the guest.
    pub fn cpu_count(&self) -> (r: usize)
        ensures
            r as int == self@.cpu_count,
    {
        self.cpu_count
    }

    /// The memory of the guest, in bytes.
    pub fn memory_size(&self) -> (r: usize)
        ensures
            r as int == self@.memory_size,
    {
        self.memory_size
    }

    /// The entropy devices.
    pub fn entropy_devices(&self) -> (r: &Vec<EntropyDeviceDesc>)
        ensures
            r@ == self@.entropy_devices,
    {
        &self.entropy_devices
    }

    /// The memory balloon devices.
    pub fn memory_balloon_devices(&self) -> (r: &Vec<MemoryBalloonDeviceDesc>)
        ensures
            r@ == self@.memory_balloon_devices,
    {
        &self.memory_balloon_devices
    }

    /// The network devices.
    pub fn network_devices(&self) -> (r: &Vec<NetworkDeviceDesc>)
        ensures
            network_device_views(r@) == self@.network_devices,
    {
        &self.network_devices
    }

    /// The serial ports.
    pub fn serial_ports(&self) -> (r: &Vec<SerialPortDesc>)
        ensures
            r@ == self@.serial_ports,
    {
        &self.serial_ports
    }

    /// The socket devices.
    pub fn socket_devices(&self) -> (r: &Vec<SocketDeviceDesc>)
        ensures
            r@ == self@.socket_devices,
    {
        &self.socket_devices
    }

    /// The storage devices.
    pub fn storage_devices(&self) -> (r: &Vec<StorageDeviceDesc>)
        ensures
            storage_device_views(r@) == self@.storage_devices,
    {
        &self.storage_devices
    }
}

/// The state of a virtual machine. The hypervisor drives the
/// transitions; a caller only requests them and observes the state.
#[derive(Clone, Copy, PartialEq, Eq, Structural, Debug)]
pub enum VZVirtualMachineState {
    /// The initial state before the machine starts, and the terminal
    /// state after it stops.
    VZVirtualMachineStateStopped,
    /// The machine is running.
    VZVirtualMachineStateRunning,
    /// A started machine is paused; reached only from pausing.
    VZVirtualMachineStatePaused,
    /// The machine hit an internal error; unrecoverable.
    VZVirtualMachineStateError,
    /// The machine is configuring its hardware and starting.
    VZVirtualMachineStateStarting,
    /// The machine is on the way from running to paused.
    VZVirtualMachineStatePausing,
    /// The machine is on the way from paused to running.
    VZVirtualMachineStateResuming,
    /// A state this library does not know; the hypervisor may add some.
    Other,
}

/// The state the hypervisor's numeric state value encodes.
pub open spec fn state_of_code(n: int) -> VZVirtualMachineState {
    if n == 0 {
        VZVirtualMachineState::VZVirtualMachineStateStopped
    } else if n == 1 {
        VZVirtualMachineState::VZVirtualMachineStateRunning
    } else if n == 2 {
        VZVirtualMachineState::VZVirtualMachineStatePaused
    } else if n == 3 {
        VZVirtualMachineState::VZVirtualMachineStateError
    } else if n == 4 {
        VZVirtualMachineState::VZVirtualMachineStateStarting
    } else if n == 5 {
        VZVirtualMachineState::VZVirtualMachineStatePausing
    } else if n == 6 {
        VZVirtualMachineState::VZVirtualMachineStateResuming
    } else {
        VZVirtualMachineState::Other
    }
}

/// Decode the hypervisor's numeric state value.
pub fn state_from_raw(n: i64) -> (s: VZVirtualMachineState)
    ensures
        s == state_of_code(n as int),
{
    if n == 0 {
        VZVirtualMachineState::VZVirtualMachineStateStopped
    } else if n == 1 {
        VZVirtualMachineState::VZVirtualMachineStateRunning
    } else if n == 2 {
        VZVirtualMachineState::VZVirtualMachineStatePaused
    } else if n == 3 {
        VZVirtualMachineState::VZVirtualMachineStateError
    } else if n == 4 {
        VZVirtualMachineState::VZVirtualMachineStateStarting
    } else if n == 5 {
        VZVirtualMachineState::VZVirtualMachineStatePausing
    } else if n == 6 {
        VZVirtualMachineState::VZVirtualMachineStateResuming
    } else {
        VZVirtualMachineState::Other
    }
}

/// The lifecycle transitions the hypervisor may drive: starting from
/// stopped; reaching running, or falling back to stopped, off a start;
/// the pause round trip; stopping from running or paused; and an
/// internal error at any point. Every operation of
/// [`VZVirtualMachine`] steps the state along this relation.
pub open spec fn lifecycle_step(pre: VZVirtualMachineState, post: VZVirtualMachineState) -> bool {
    ||| pre == post
    ||| (pre is VZVirtualMachineStateStopped && post is VZVirtualMachineStateStarting)
    ||| (pre is VZVirtualMachineStateStarting && post is VZVirtualMachineStateRunning)
    ||| (pre is VZVirtualMachineStateStarting && post is VZVirtualMachineStateStopped)
    ||| (pre is VZVirtualMachineStateRunning && post is VZVirtualMachineStatePausing)
    ||| (pre is VZVirtualMachineStatePausing && post is VZVirtualMachineStatePaused)
    ||| (pre is VZVirtualMachineStatePaused && post is VZVirtualMachineStateResuming)
    ||| (pre is VZVirtualMachineStateResuming && post is VZVirtualMachineStateRunning)
    ||| (pre is VZVirtualMachineStateRunning && post is VZVirtualMachineStateStopped)
    ||| (pre is VZVirtualMachineStatePaused && post is VZVirtualMachineStateStopped)
    ||| post is VZVirtualMachineStateError
}

/// The mathematical state of a virtual machine.
#[verifier::ext_equal]
pub struct VmView {
    /// The raw value of the owned machine handle.
    pub machine_raw: int,
    /// The dispatch queue the machine is bound to, for its whole
    /// lifetime.
    pub queue: u64,
    /// The machine's current lifecycle state.
    pub state: VZVirtualMachineState,
    /// Whether a start was requested whose completion has not yet been
    /// delivered. The completion is delivered exactly once.
    pub start_completion_pending: bool,
    /// Whether a graceful stop was requested and not yet observed.
    pub stop_requested: bool,
}

/// A virtual machine: it owns the foreign machine handle and is bound
/// at creation to one dispatch queue, on which the platform expects all
/// further calls against it to be issued — that binding never changes.
pub struct VZVirtualMachine {
    machine: Handle,
    queue: u64,
    state: VZVirtualMachineState,
    start_completion_pending: bool,
    stop_requested: bool,
}

impl View for VZVirtualMachine {
    type V = VmView;

    closed spec fn view(&self) -> VmView {
        VmView {
            machine_raw: self.machine.raw() as int,
            queue: self.queue,
            state: self.state,
            start_completion_pending: self.start_completion_pending,
            stop_requested: self.stop_requested,
        }
    }
}

impl VZVirtualMachine {
    /// Whether the hypervisor supports virtual machines on this host.
    /// When it does not, nothing else of this type can be used: creation
    /// demands support.
    pub fn supported(host: &Host) -> (r: bool)
        ensures
            r == host@.supported,
    {
        host.supported()
    }

    /// Create a virtual machine from a validated configuration, bound to
    /// the given dispatch queue for its whole lifetime. The machine
    /// starts stopped, owning a fresh foreign machine handle.
    pub fn new(configuration: VZVirtualMachineConfiguration, queue: u64, host: &mut Host) -> (r:
        VZVirtualMachine)
        requires
            old(host)@.supported,
            configuration_valid(configuration@, old(host)@),
            old(host)@.objects.len() < usize::MAX,
        ensures
            final(host)@ == alloc_transition(old(host)@),
            r@ == (VmView {
                machine_raw: old(host)@.objects.len() + 1 as int,
                queue,
                state: VZVirtualMachineState::VZVirtualMachineStateStopped,
                start_completion_pending: false,
                stop_requested: false,
            }),
    {
        // The hypervisor absorbs the configuration into the machine it
        // creates; the model keeps the machine handle.
        let _ = configuration;
        let machine = host.allocate();
        VZVirtualMachine {
            machine,
            queue,
            state: VZVirtualMachineState::VZVirtualMachineStateStopped,
            start_completion_pending: false,
            stop_requested: false,
        }
    }

    /// Request an asynchronous start. The request returns at once with
    /// the machine starting; the completion arrives later, exactly once,
    /// through [`VZVirtualMachine::complete_start`].
    pub fn start_with_completion_handler(&mut self)
        requires
            old(self)@.state is VZVirtualMachineStateStopped,
            !old(self)@.start_completion_pending,
        ensures
            final(self)@ == (VmView {
                state: VZVirtualMachineState::VZVirtualMachineStateStarting,
                start_completion_pending: true,
                ..old(self)@
            }),
            lifecycle_step(old(self)@.state, final(self)@.state),
    {
        self.state = VZVirtualMachineState::VZVirtualMachineStateStarting;
        self.start_completion_pending = true;
    }

    /// Deliver the completion of a pending start: the hypervisor hands
    /// back the error code its callback carried. Code zero means the
    /// machine came up; any other code means the start failed and the
    /// machine fell back to stopped. After delivery no completion is
    /// pending, so it cannot be delivered twice.
    pub fn complete_start(&mut self, error_code: i64)
        requires
            old(self)@.start_completion_pending,
        ensures
            final(self)@ == (VmView {
                state: if error_code == 0 {
                    VZVirtualMachineState::VZVirtualMachineStateRunning
                } else {
                    VZVirtualMachineState::VZVirtualMachineStateStopped
                },
                start_completion_pending: false,
                ..old(self)@
            }),
            old(self)@.state is VZVirtualMachineStateStarting ==> lifecycle_step(
                old(self)@.state,
                final(self)@.state,
            ),
    {
        self.state = if error_code == 0 {
            VZVirtualMachineState::VZVirtualMachineStateRunning
        } else {
            VZVirtualMachineState::VZVirtualMachineStateStopped
        };
        self.start_completion_pending = false;
    }

    /// Request a graceful stop. The hypervisor accepts the request
    /// exactly when the machine is running or paused; acceptance does
    /// not mean the machine stopped — that is observed later through
    /// [`VZVirtualMachine::state`]. On a machine that is neither
    /// running nor paused — one that was never started, for instance —
    /// the request is rejected with a structured error and nothing
    /// changes.
    pub fn request_stop_with_error(&mut self) -> (r: Result<bool, NSError>)
        ensures
            r is Ok <==> (old(self)@.state is VZVirtualMachineStateRunning || old(
                self,
            )@.state is VZVirtualMachineStatePaused),
            r matches Ok(accepted) ==> accepted == true && final(self)@ == (VmView {
                stop_requested: true,
                ..old(self)@
            }),
            r matches Err(e) ==> e@.code == CODE_RUNTIME_REQUEST && final(self)@ == old(self)@,
            lifecycle_step(old(self)@.state, final(self)@.state),
    {
        match self.state {
            VZVirtualMachineState::VZVirtualMachineStateRunning => {
                self.stop_requested = true;
                Ok(true)
            },
            VZVirtualMachineState::VZVirtualMachineStatePaused => {
                self.stop_requested = true;
                Ok(true)
            },
            _ => Err(
                NSError::new(
                    CODE_RUNTIME_REQUEST,
                    String::from_str("the machine is not in a state a stop can be requested in"),
                ),
            ),
        }
    }

    /// Observe that a requested stop took effect: the hypervisor moved
    /// the machine to stopped.
    pub fn complete_stop(&mut self)
        requires
            old(self)@.stop_requested,
            old(self)@.state is VZVirtualMachineStateRunning || old(
                self,
            )@.state is VZVirtualMachineStatePaused,
        ensures
            final(self)@ == (VmView {
                state: VZVirtualMachineState::VZVirtualMachineStateStopped,
                stop_requested: false,
                ..old(self)@
            }),
            lifecycle_step(old(self)@.state, final(self)@.state),
    {
        self.state = VZVirtualMachineState::VZVirtualMachineStateStopped;
        self.stop_requested = false;
    }

    /// A snapshot of the machine's state: an observational read that no
    /// transition is synchronized with, so a stale value is expected and
    /// acceptable.
    pub fn state(&self) -> (s: VZVirtualMachineState)
        ensures
            s == self@.state,
    {
        self.state
    }

    /// The dispatch queue the machine was bound to at creation.
    pub fn queue(&self) -> (q: u64)
        ensures
            q == self@.queue,
    {
        self.queue
    }

    /// Give the machine up, releasing its foreign handle — exactly once,
    /// since the machine is consumed.
    pub fn dispose(self, host: &mut Host)
        requires
            self@.machine_raw >= 1,
            object_live(old(host)@, self@.machine_raw),
        ensures
            final(host)@ == release_transition(old(host)@, self@.machine_raw),
    {
        self.machine.release(host);
    }
}

} // verus!
