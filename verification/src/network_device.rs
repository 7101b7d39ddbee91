//! Network devices: the NAT and bridged attachments, hardware
//! addresses — parsed from text or generated as locally-administered
//! addresses — and the paravirtualized network device configuration.

use vstd::prelude::*;
use vstd::string::StrSliceExecFns;
use crate::host::Host;
use crate::host::HostView;
use crate::host::wrap_increment;

verus! {

/// The mathematical description of a network attachment.
#[verifier::ext_equal]
pub enum NetworkAttachmentView {
    /// Network address translation through the host.
    Nat,
    /// A bridge to the host interface with the given identifier.
    Bridged { identifier: Seq<char> },
}

/// The network-attachment description a network device stores.
pub enum NetworkAttachmentDesc {
    /// Network address translation through the host.
    Nat,
    /// A bridge to the host interface with the given identifier.
    Bridged {
        /// The identifier of the bridged host interface.
        identifier: String,
    },
}

impl View for NetworkAttachmentDesc {
    type V = NetworkAttachmentView;

    open spec fn view(&self) -> NetworkAttachmentView {
        match self {
            NetworkAttachmentDesc::Nat => NetworkAttachmentView::Nat,
            NetworkAttachmentDesc::Bridged { identifier } => NetworkAttachmentView::Bridged {
                identifier: identifier@,
            },
        }
    }
}

impl Clone for NetworkAttachmentDesc {
    /// Cloning an attachment description keeps it.
    fn clone(&self) -> (r: Self)
        ensures
            r@ == self@,
    {
        match self {
            NetworkAttachmentDesc::Nat => NetworkAttachmentDesc::Nat,
            NetworkAttachmentDesc::Bridged { identifier } => NetworkAttachmentDesc::Bridged {
                identifier: identifier.clone(),
            },
        }
    }
}

/// The capability of attaching a network device to the outside.
pub trait VZNetworkDeviceAttachment {
    /// The mathematical description of this attachment.
    spec fn network_attachment_view(&self) -> NetworkAttachmentView;

    /// The description a network device stores.
    fn network_attachment_config(&self) -> (r: NetworkAttachmentDesc)
        ensures
            r@ == self.network_attachment_view(),
    ;
}

/// A network attachment that translates the guest's addresses through
/// the host; it has no state of its own.
pub struct VZNATNetworkDeviceAttachment {}

impl View for VZNATNetworkDeviceAttachment {
    type V = NetworkAttachmentView;

    open spec fn view(&self) -> NetworkAttachmentView {
        NetworkAttachmentView::Nat
    }
}

impl VZNATNetworkDeviceAttachment {
    /// A new NAT attachment.
    pub fn new() -> (r: VZNATNetworkDeviceAttachment)
        ensures
            r@ == NetworkAttachmentView::Nat,
    {
        VZNATNetworkDeviceAttachment {  }
    }
}

impl VZNetworkDeviceAttachment for VZNATNetworkDeviceAttachment {
    open spec fn network_attachment_view(&self) -> NetworkAttachmentView {
        self@
    }

    fn network_attachment_config(&self) -> (r: NetworkAttachmentDesc) {
        NetworkAttachmentDesc::Nat
    }
}

/// The capability of standing for a host network interface a guest can
/// bridge to. Users of the library implement it for the interfaces
/// their platform reports.
pub trait VZBridgedNetworkInterface {
    /// The identifier of the interface.
    spec fn interface_identifier(&self) -> Seq<char>;

    /// The identifier of the interface, as text.
    fn identifier(&self) -> (r: String)
        ensures
            r@ == self.interface_identifier(),
    ;

    /// A human-readable name of the interface, for display only.
    fn localized_display_name(&self) -> String;
}

/// A network attachment bridged to a host interface.
pub struct VZBridgedNetworkDeviceAttachment {
    identifier: String,
}

impl View for VZBridgedNetworkDeviceAttachment {
    type V = NetworkAttachmentView;

    closed spec fn view(&self) -> NetworkAttachmentView {
        NetworkAttachmentView::Bridged { identifier: self.identifier@ }
    }
}

impl VZBridgedNetworkDeviceAttachment {
    /// An attachment bridged to the given host interface.
    pub fn new<T: VZBridgedNetworkInterface>(interface: T) -> (r: VZBridgedNetworkDeviceAttachment)
        ensures
            r@ == (NetworkAttachmentView::Bridged { identifier: interface.interface_identifier() }),
    {
        VZBridgedNetworkDeviceAttachment { identifier: interface.identifier() }
    }
}

impl VZNetworkDeviceAttachment for VZBridgedNetworkDeviceAttachment {
    open spec fn network_attachment_view(&self) -> NetworkAttachmentView {
        self@
    }

    fn network_attachment_config(&self) -> (r: NetworkAttachmentDesc) {
        NetworkAttachmentDesc::Bridged { identifier: self.identifier.clone() }
    }
}

/// Whether a character is a hexadecimal digit.
pub open spec fn is_hex_digit(c: char) -> bool {
    ||| 48 <= c as int <= 57  // '0' to '9'
    ||| 97 <= c as int <= 102  // 'a' to 'f'
    ||| 65 <= c as int <= 70  // 'A' to 'F'
}

/// The value of a hexadecimal digit.
pub open spec fn hex_digit_value(c: char) -> int {
    if 48 <= c as int <= 57 {
        c as int - 48
    } else if 97 <= c as int <= 102 {
        c as int - 87
    } else {
        c as int - 55
    }
}

/// Whether text is a well-formed hardware address: six hexadecimal
/// byte values separated by colons.
pub open spec fn mac_string_wf(s: Seq<char>) -> bool {
    &&& s.len() == 17
    &&& forall|i: int| 0 <= i < 17 && i % 3 == 2 ==> #[trigger] s[i] == ':'
    &&& forall|i: int| 0 <= i < 17 && i % 3 != 2 ==> is_hex_digit(#[trigger] s[i])
}

/// The value of the byte at position `k` of a hardware address string.
pub open spec fn mac_byte(s: Seq<char>, k: int) -> int {
    16 * hex_digit_value(s[3 * k]) + hex_digit_value(s[3 * k + 1])
}

/// The value of the first `k` bytes of a hardware address string.
pub open spec fn mac_prefix(s: Seq<char>, k: int) -> int
    decreases k,
{
    if k <= 0 {
        0
    } else {
        256 * mac_prefix(s, k - 1) + mac_byte(s, k - 1)
    }
}

/// The value of a well-formed hardware address string: its six bytes,
/// highest first.
pub open spec fn mac_of_string(s: Seq<char>) -> int {
    mac_prefix(s, 6)
}

/// An upper bound for the value of `k` address bytes.
spec fn byte_bound(k: int) -> int {
    if k <= 0 {
        1
    } else if k == 1 {
        0x100
    } else if k == 2 {
        0x10000
    } else if k == 3 {
        0x1000000
    } else if k == 4 {
        0x100000000
    } else if k == 5 {
        0x10000000000
    } else {
        0x1000000000000
    }
}

proof fn lemma_mac_prefix_bound(s: Seq<char>, k: int)
    requires
        0 <= k <= 6,
        forall|i: int| 0 <= i < 3 * k && i % 3 != 2 ==> is_hex_digit(#[trigger] s[i]),
    ensures
        0 <= mac_prefix(s, k) < byte_bound(k),
    decreases k,
{
    if k > 0 {
        lemma_mac_prefix_bound(s, k - 1);
        assert(is_hex_digit(s[3 * (k - 1)]));
        assert(is_hex_digit(s[3 * (k - 1) + 1]));
        assert(0 <= mac_byte(s, k - 1) < 256);
    }
}

/// The address derived from one value of the host's entropy counter: a
/// unicast, locally-administered address whose low forty bits come from
/// the counter.
pub open spec fn locally_administered(seed: u64) -> u64 {
    0x020000000000u64 | (seed & 0xFFFFFFFFFFu64)
}

/// A hardware address of a network device, as a forty-eight bit value.
#[derive(Clone, Copy, PartialEq, Eq, Structural, Debug)]
pub struct VZMACAddress {
    addr: u64,
}

impl View for VZMACAddress {
    type V = u64;

    closed spec fn view(&self) -> u64 {
        self.addr
    }
}

impl VZMACAddress {
    /// The zero address.
    pub fn new() -> (r: VZMACAddress)
        ensures
            r@ == 0,
    {
        VZMACAddress { addr: 0 }
    }

    /// The address as a value: the six bytes, highest first.
    pub fn value(&self) -> (r: u64)
        ensures
            r == self@,
    {
        self.addr
    }

    /// Generate a fresh unicast, locally-administered address from the
    /// host's entropy counter, stepping the counter.
    pub fn random_locally_administered_address(host: &mut Host) -> (r: VZMACAddress)
        ensures
            r@ == locally_administered(old(host)@.mac_counter),
            final(host)@ == (HostView {
                mac_counter: wrap_increment(old(host)@.mac_counter),
                ..old(host)@
            }),
    {
        let seed = host.next_mac_seed();
        VZMACAddress { addr: 0x020000000000u64 | (seed & 0xFFFFFFFFFFu64) }
    }

    /// Parse a hardware address written as six hexadecimal byte values
    /// separated by colons. Parsing succeeds exactly on well-formed
    /// address text and yields the bytes' value, highest first.
    pub fn init_with_string(s: &str) -> (r: Option<VZMACAddress>)
        ensures
            r is Some <==> mac_string_wf(s@),
            r matches Some(m) ==> m@ as int == mac_of_string(s@),
    {
        if s.unicode_len() != 17 {
            return None;
        }
        let mut addr: u64 = 0;
        let mut k: usize = 0;
        while k < 6
            invariant
                k <= 6,
                s@.len() == 17,
                forall|i: int| 0 <= i < 3 * k && i < 17 && i % 3 == 2 ==> #[trigger] s@[i] == ':',
                forall|i: int|
                    0 <= i < 3 * k && i < 17 && i % 3 != 2 ==> is_hex_digit(#[trigger] s@[i]),
                addr as int == mac_prefix(s@, k as int),
                (addr as int) < byte_bound(k as int),
            decreases 6 - k,
        {
            let c1 = s.get_char(3 * k);
            let d1 = match hex_digit(c1) {
                Some(d) => d,
                None => {
                    proof {
                        assert((3 * k as int) % 3 != 2);
                    }
                    return None;
                },
            };
            let c2 = s.get_char(3 * k + 1);
            let d2 = match hex_digit(c2) {
                Some(d) => d,
                None => {
                    proof {
                        assert((3 * k as int + 1) % 3 != 2);
                    }
                    return None;
                },
            };
            if k < 5 {
                let sep = s.get_char(3 * k + 2);
                if sep as u32 != 58 {
                    proof {
                        assert((3 * k as int + 2) % 3 == 2);
                        assert(s@[3 * k as int + 2] != ':');
                    }
                    return None;
                }
            }
            let byte: u64 = 16 * (d1 as u64) + (d2 as u64);
            proof {
                lemma_mac_prefix_bound(s@, k as int);
                assert(mac_byte(s@, k as int) == byte as int);
                assert(mac_prefix(s@, k as int + 1) == 256 * mac_prefix(s@, k as int) + mac_byte(
                    s@,
                    k as int,
                ));
            }
            addr = addr * 256 + byte;
            k += 1;
        }
        proof {
            assert(mac_string_wf(s@));
        }
        Some(VZMACAddress { addr })
    }
}

/// The value of one hexadecimal digit character, when it is one.
fn hex_digit(c: char) -> (r: Option<u8>)
    ensures
        r is Some <==> is_hex_digit(c),
        r matches Some(v) ==> v as int == hex_digit_value(c),
{
    let n = c as u32;
    if 48 <= n && n <= 57 {
        Some((n - 48) as u8)
    } else if 97 <= n && n <= 102 {
        Some((n - 87) as u8)
    } else if 65 <= n && n <= 70 {
        Some((n - 55) as u8)
    } else {
        None
    }
}

/// Law: successively generated locally-administered addresses differ —
/// stepping the entropy counter once always changes the generated
/// address, also where the counter wraps.
pub proof fn lemma_successive_random_macs_differ(seed: u64)
    ensures
        locally_administered(seed) != locally_administered(wrap_increment(seed)),
{
    let t = wrap_increment(seed);
    if seed == u64::MAX {
        assert((0x020000000000u64 | (0xFFFFFFFFFFFFFFFFu64 & 0xFFFFFFFFFFu64)) != (
        0x020000000000u64 | (0u64 & 0xFFFFFFFFFFu64))) by (bit_vector);
    } else {
        assert((0x020000000000u64 | (seed & 0xFFFFFFFFFFu64)) != (0x020000000000u64 | (t
            & 0xFFFFFFFFFFu64))) by (bit_vector)
            requires
                seed < 0xFFFFFFFFFFFFFFFFu64,
                t == seed + 1,
        ;
    }
}

/// Law: a generated address is a well-formed hardware address — it fits
/// in forty-eight bits, carries the locally-administered bit, and is
/// unicast.
pub proof fn lemma_random_mac_well_formed(seed: u64)
    ensures
        locally_administered(seed) < 0x1000000000000,
        locally_administered(seed) & 0x020000000000 == 0x020000000000,
        locally_administered(seed) & 0x010000000000 == 0,
{
    assert((0x020000000000u64 | (seed & 0xFFFFFFFFFFu64)) < 0x1000000000000) by (bit_vector);
    assert((0x020000000000u64 | (seed & 0xFFFFFFFFFFu64)) & 0x020000000000 == 0x020000000000)
        by (bit_vector);
    assert((0x020000000000u64 | (seed & 0xFFFFFFFFFFu64)) & 0x010000000000 == 0) by (bit_vector);
}

/// The mathematical description of a network device.
#[verifier::ext_equal]
pub struct NetworkDeviceView {
    pub attachment: NetworkAttachmentView,
    pub mac_address: Option<u64>,
}

/// The network-device description a virtual-machine configuration
/// stores.
pub struct NetworkDeviceDesc {
    attachment: NetworkAttachmentDesc,
    mac_address: Option<VZMACAddress>,
}

impl View for NetworkDeviceDesc {
    type V = NetworkDeviceView;

    closed spec fn view(&self) -> NetworkDeviceView {
        NetworkDeviceView {
            attachment: self.attachment@,
            mac_address: match self.mac_address {
                Some(m) => Some(m@),
                None => None,
            },
        }
    }
}

impl NetworkDeviceDesc {
    /// The attachment of the device.
    pub fn attachment(&self) -> (r: &NetworkAttachmentDesc)
        ensures
            r@ == self@.attachment,
    {
        &self.attachment
    }

    /// The hardware address of the device, when one was set.
    pub fn mac_address(&self) -> (r: Option<VZMACAddress>)
        ensures
            match r {
                Some(m) => self@.mac_address == Some(m@),
                None => self@.mac_address is None,
            },
    {
        self.mac_address
    }
}

/// The capability of standing in the network-device list of a
/// virtual-machine configuration.
pub trait VZNetworkDeviceConfiguration {
    /// The mathematical description of this network device.
    spec fn network_device_view(&self) -> NetworkDeviceView;

    /// The description a virtual-machine configuration stores.
    fn network_device_config(&self) -> (r: NetworkDeviceDesc)
        ensures
            r@ == self.network_device_view(),
    ;
}

/// A paravirtualized network device: an attachment to the outside set
/// at construction — the device is never observed without one — and an
/// optional explicit hardware address.
pub struct VZVirtioNetworkDeviceConfiguration {
    attachment: NetworkAttachmentDesc,
    mac_address: Option<VZMACAddress>,
}

impl View for VZVirtioNetworkDeviceConfiguration {
    type V = NetworkDeviceView;

    closed spec fn view(&self) -> NetworkDeviceView {
        NetworkDeviceView {
            attachment: self.attachment@,
            mac_address: match self.mac_address {
                Some(m) => Some(m@),
                None => None,
            },
        }
    }
}

impl VZVirtioNetworkDeviceConfiguration {
    /// A network device with the given attachment and no explicit
    /// hardware address: the hypervisor then picks one.
    pub fn new<T: VZNetworkDeviceAttachment>(attachment: T) -> (r:
        VZVirtioNetworkDeviceConfiguration)
        ensures
            r@ == (NetworkDeviceView {
                attachment: attachment.network_attachment_view(),
                mac_address: None,
            }),
    {
        VZVirtioNetworkDeviceConfiguration {
            attachment: attachment.network_attachment_config(),
            mac_address: None,
        }
    }

    /// Replace the attachment; the hardware address is kept.
    pub fn set_attachment<T: VZNetworkDeviceAttachment>(&mut self, attachment: T)
        ensures
            final(self)@ == (NetworkDeviceView {
                attachment: attachment.network_attachment_view(),
                ..old(self)@
            }),
    {
        self.attachment = attachment.network_attachment_config();
    }

    /// Set the hardware address; the attachment is kept.
    pub fn set_mac_address(&mut self, mac: VZMACAddress)
        ensures
            final(self)@ == (NetworkDeviceView { mac_address: Some(mac@), ..old(self)@ }),
    {
        self.mac_address = Some(mac);
    }

    /// The hardware address, when one was set.
    pub fn mac_address(&self) -> (r: Option<VZMACAddress>)
        ensures
            match r {
                Some(m) => self@.mac_address == Some(m@),
                None => self@.mac_address is None,
            },
    {
        self.mac_address
    }
}

impl VZNetworkDeviceConfiguration for VZVirtioNetworkDeviceConfiguration {
    open spec fn network_device_view(&self) -> NetworkDeviceView {
        self@
    }

    fn network_device_config(&self) -> (r: NetworkDeviceDesc) {
        NetworkDeviceDesc { attachment: self.attachment.clone(), mac_address: self.mac_address }
    }
}

} // verus!
