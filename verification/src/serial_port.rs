//! Serial ports: the file-handle attachment with its type-state builder
//! and the console serial-port configuration that carries an attachment.

use vstd::prelude::*;
use crate::base::FileHandleKind;
use crate::base::NSFileHandle;

verus! {

/// The description of a serial-port attachment: which file handle the
/// port reads from and which it writes to.
#[derive(Clone, Copy, PartialEq, Eq, Structural, Debug)]
pub struct SerialAttachmentDesc {
    /// What the port reads from.
    pub reading: FileHandleKind,
    /// What the port writes to.
    pub writing: FileHandleKind,
}

/// Type-state builder for [`VZFileHandleSerialPortAttachment`]: both
/// file handles are mandatory, and each setter moves its type parameter
/// from `()` to `NSFileHandle`; `build` is only callable once both are
/// supplied.
pub struct VZFileHandleSerialPortAttachmentBuilder<Reading, Writing> {
    /// The handle the port reads from, once supplied.
    pub file_handle_for_reading: Reading,
    /// The handle the port writes to, once supplied.
    pub file_handle_for_writing: Writing,
}

impl VZFileHandleSerialPortAttachmentBuilder<(), ()> {
    /// A builder with neither handle supplied yet.
    pub fn new() -> (r: Self)
        ensures
            r == (VZFileHandleSerialPortAttachmentBuilder {
                file_handle_for_reading: (),
                file_handle_for_writing: (),
            }),
    {
        VZFileHandleSerialPortAttachmentBuilder {
            file_handle_for_reading: (),
            file_handle_for_writing: (),
        }
    }
}

impl<Reading, Writing> VZFileHandleSerialPortAttachmentBuilder<Reading, Writing> {
    /// Supply the handle the port reads from; the other field is kept.
    pub fn file_handle_for_reading(self, file_handle_for_reading: NSFileHandle) -> (r:
        VZFileHandleSerialPortAttachmentBuilder<NSFileHandle, Writing>)
        ensures
            r.file_handle_for_reading == file_handle_for_reading,
            r.file_handle_for_writing == self.file_handle_for_writing,
    {
        VZFileHandleSerialPortAttachmentBuilder {
            file_handle_for_reading,
            file_handle_for_writing: self.file_handle_for_writing,
        }
    }

    /// Supply the handle the port writes to; the other field is kept.
    pub fn file_handle_for_writing(self, file_handle_for_writing: NSFileHandle) -> (r:
        VZFileHandleSerialPortAttachmentBuilder<Reading, NSFileHandle>)
        ensures
            r.file_handle_for_reading == self.file_handle_for_reading,
            r.file_handle_for_writing == file_handle_for_writing,
    {
        VZFileHandleSerialPortAttachmentBuilder {
            file_handle_for_reading: self.file_handle_for_reading,
            file_handle_for_writing,
        }
    }
}

impl VZFileHandleSerialPortAttachmentBuilder<NSFileHandle, NSFileHandle> {
    /// Build the attachment from the two supplied handles.
    pub fn build(self) -> (r: VZFileHandleSerialPortAttachment)
        ensures
            r@ == (SerialAttachmentDesc {
                reading: self.file_handle_for_reading@,
                writing: self.file_handle_for_writing@,
            }),
    {
        VZFileHandleSerialPortAttachment {
            file_handle_for_reading: self.file_handle_for_reading,
            file_handle_for_writing: self.file_handle_for_writing,
        }
    }
}

/// A serial-port attachment backed by a file handle for reading and one
/// for writing.
pub struct VZFileHandleSerialPortAttachment {
    file_handle_for_reading: NSFileHandle,
    file_handle_for_writing: NSFileHandle,
}

impl View for VZFileHandleSerialPortAttachment {
    type V = SerialAttachmentDesc;

    closed spec fn view(&self) -> SerialAttachmentDesc {
        SerialAttachmentDesc {
            reading: self.file_handle_for_reading@,
            writing: self.file_handle_for_writing@,
        }
    }
}

/// The capability of backing a serial port: every serial attachment is
/// described by what it reads from and writes to.
pub trait VZSerialPortAttachment: Sized {
    /// The description of this attachment.
    spec fn serial_attachment_view(&self) -> SerialAttachmentDesc;

    /// The attachment description a serial port stores. The port takes
    /// ownership: an attachment-bearing port is never observed without
    /// its attachment.
    fn serial_attachment_config(self) -> (r: SerialAttachmentDesc)
        ensures
            r == self.serial_attachment_view(),
    ;
}

impl VZSerialPortAttachment for VZFileHandleSerialPortAttachment {
    open spec fn serial_attachment_view(&self) -> SerialAttachmentDesc {
        self@
    }

    fn serial_attachment_config(self) -> (r: SerialAttachmentDesc) {
        SerialAttachmentDesc {
            reading: self.file_handle_for_reading.kind(),
            writing: self.file_handle_for_writing.kind(),
        }
    }
}

/// The serial-port description a virtual-machine configuration stores.
#[derive(Clone, Copy, PartialEq, Eq, Structural, Debug)]
pub struct SerialPortDesc {
    /// The attachment the port reads from and writes to.
    pub attachment: SerialAttachmentDesc,
}

/// The capability of standing in the serial-port list of a
/// virtual-machine configuration.
pub trait VZSerialPortConfiguration {
    /// The description of this serial port.
    spec fn serial_port_view(&self) -> SerialPortDesc;

    /// The description a virtual-machine configuration stores.
    fn serial_port_config(&self) -> (r: SerialPortDesc)
        ensures
            r == self.serial_port_view(),
    ;
}

/// A serial port exposed to the guest through the paravirtualized
/// console interface, never observed without its attachment.
pub struct VZVirtioConsoleDeviceSerialPortConfiguration {
    attachment: SerialAttachmentDesc,
}

impl View for VZVirtioConsoleDeviceSerialPortConfiguration {
    type V = SerialPortDesc;

    closed spec fn view(&self) -> SerialPortDesc {
        SerialPortDesc { attachment: self.attachment }
    }
}

impl VZVirtioConsoleDeviceSerialPortConfiguration {
    /// A console serial port backed by the given attachment, which the
    /// port takes ownership of at construction.
    pub fn new<T: VZSerialPortAttachment>(attachment: T) -> (r:
        VZVirtioConsoleDeviceSerialPortConfiguration)
        ensures
            r@ == (SerialPortDesc { attachment: attachment.serial_attachment_view() }),
    {
        VZVirtioConsoleDeviceSerialPortConfiguration {
            attachment: attachment.serial_attachment_config(),
        }
    }
}

impl VZSerialPortConfiguration for VZVirtioConsoleDeviceSerialPortConfiguration {
    open spec fn serial_port_view(&self) -> SerialPortDesc {
        self@
    }

    fn serial_port_config(&self) -> (r: SerialPortDesc) {
        SerialPortDesc { attachment: self.attachment }
    }
}

} // verus!
