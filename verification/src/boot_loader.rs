//! Boot loaders: the type-state builder for a kernel boot loader, the
//! firmware variable store with its creation options, and the firmware
//! boot loader.

use vstd::prelude::*;
use vstd::utf8::encode_utf8;
use crate::base::absolutized;
use crate::base::CODE_ATTACHMENT_CREATION;
use crate::base::NSError;
use crate::base::NSString;
use crate::base::NSURL;
use crate::base::UrlView;
use crate::host::Host;
use crate::host::HostView;

verus! {

/// The mathematical description of a boot loader.
#[verifier::ext_equal]
pub enum BootLoaderView {
    /// Boot a kernel image directly.
    Linux {
        /// The absolute path of the kernel image.
        kernel_path: Seq<char>,
        /// The absolute path of the initial ramdisk image.
        initial_ramdisk_path: Seq<char>,
        /// The encoded kernel command line.
        command_line: Seq<u8>,
    },
    /// Boot through the firmware, optionally with a variable store.
    Efi {
        /// The path of the firmware variable store, when one is set.
        variable_store_path: Option<Seq<char>>,
    },
}

/// The boot-loader description a virtual-machine configuration stores.
pub enum BootLoaderConfig {
    /// Boot a kernel image directly.
    Linux {
        /// The absolute URL of the kernel image.
        kernel_url: NSURL,
        /// The absolute URL of the initial ramdisk image.
        initial_ramdisk_url: NSURL,
        /// The encoded kernel command line.
        command_line: NSString,
    },
    /// Boot through the firmware, optionally with a variable store.
    Efi {
        /// The URL of the firmware variable store, when one is set.
        variable_store_url: Option<NSURL>,
    },
}

impl View for BootLoaderConfig {
    type V = BootLoaderView;

    open spec fn view(&self) -> BootLoaderView {
        match self {
            BootLoaderConfig::Linux { kernel_url, initial_ramdisk_url, command_line } =>
                BootLoaderView::Linux {
                    kernel_path: kernel_url@.path,
                    initial_ramdisk_path: initial_ramdisk_url@.path,
                    command_line: command_line@,
                },
            BootLoaderConfig::Efi { variable_store_url } => BootLoaderView::Efi {
                variable_store_path: match variable_store_url {
                    Some(url) => Some(url@.path),
                    None => None,
                },
            },
        }
    }
}

/// The capability of standing as the boot loader of a virtual-machine
/// configuration.
pub trait VZBootLoader {
    /// The mathematical description of this boot loader.
    spec fn boot_loader_view(&self) -> BootLoaderView;

    /// The description a virtual-machine configuration stores.
    fn boot_loader_config(&self) -> (r: BootLoaderConfig)
        ensures
            r@ == self.boot_loader_view(),
    ;
}

/// Type-state builder for [`VZLinuxBootLoader`]: each mandatory field —
/// kernel URL, initial ramdisk URL, command line — moves its type
/// parameter from `()` to `String` when supplied, and `build` is only
/// callable once all three are `String`. The setters commute, since each
/// touches only its own field.
pub struct VZLinuxBootLoaderBuilder<KernelUrl, InitialRamdiskUrl, CommandLine> {
    /// The path of the kernel image, once supplied.
    pub kernel_url: KernelUrl,
    /// The path of the initial ramdisk image, once supplied.
    pub initial_ramdisk_url: InitialRamdiskUrl,
    /// The kernel command line, once supplied.
    pub command_line: CommandLine,
}

impl VZLinuxBootLoaderBuilder<(), (), ()> {
    /// A builder with no field supplied yet.
    pub fn new() -> (r: Self)
        ensures
            r == (VZLinuxBootLoaderBuilder { kernel_url: (), initial_ramdisk_url: (), command_line: () }),
    {
        VZLinuxBootLoaderBuilder { kernel_url: (), initial_ramdisk_url: (), command_line: () }
    }
}

impl<KernelUrl, InitialRamdiskUrl, CommandLine> VZLinuxBootLoaderBuilder<
    KernelUrl,
    InitialRamdiskUrl,
    CommandLine,
> {
    /// Supply the path of the kernel image; the other fields are kept.
    pub fn kernel_url(self, kernel_url: String) -> (r: VZLinuxBootLoaderBuilder<
        String,
        InitialRamdiskUrl,
        CommandLine,
    >)
        ensures
            r.kernel_url == kernel_url,
            r.initial_ramdisk_url == self.initial_ramdisk_url,
            r.command_line == self.command_line,
    {
        VZLinuxBootLoaderBuilder {
            kernel_url,
            initial_ramdisk_url: self.initial_ramdisk_url,
            command_line: self.command_line,
        }
    }

    /// Supply the path of the initial ramdisk image; the other fields
    /// are kept.
    pub fn initial_ramdisk_url(self, initial_ramdisk_url: String) -> (r: VZLinuxBootLoaderBuilder<
        KernelUrl,
        String,
        CommandLine,
    >)
        ensures
            r.kernel_url == self.kernel_url,
            r.initial_ramdisk_url == initial_ramdisk_url,
            r.command_line == self.command_line,
    {
        VZLinuxBootLoaderBuilder {
            kernel_url: self.kernel_url,
            initial_ramdisk_url,
            command_line: self.command_line,
        }
    }

    /// Supply the kernel command line; the other fields are kept.
    pub fn command_line(self, command_line: String) -> (r: VZLinuxBootLoaderBuilder<
        KernelUrl,
        InitialRamdiskUrl,
        String,
    >)
        ensures
            r.kernel_url == self.kernel_url,
            r.initial_ramdisk_url == self.initial_ramdisk_url,
            r.command_line == command_line,
    {
        VZLinuxBootLoaderBuilder {
            kernel_url: self.kernel_url,
            initial_ramdisk_url: self.initial_ramdisk_url,
            command_line,
        }
    }
}

impl VZLinuxBootLoaderBuilder<String, String, String> {
    /// Build the boot loader from the supplied fields: both image paths
    /// are brought to absolute form — the hypervisor rejects relative
    /// paths — and the command line is encoded for the foreign runtime.
    pub fn build(self) -> (r: VZLinuxBootLoader)
        ensures
            r@ == (BootLoaderView::Linux {
                kernel_path: absolutized(self.kernel_url@),
                initial_ramdisk_path: absolutized(self.initial_ramdisk_url@),
                command_line: encode_utf8(self.command_line@),
            }),
    {
        let kernel_url = NSURL::file_url_with_path(self.kernel_url.as_str(), false).absolute_url();
        let initial_ramdisk_url = NSURL::file_url_with_path(
            self.initial_ramdisk_url.as_str(),
            false,
        ).absolute_url();
        let command_line = NSString::new(self.command_line.as_str());
        VZLinuxBootLoader { kernel_url, initial_ramdisk_url, command_line }
    }
}

/// A boot loader that boots a kernel image directly, with an initial
/// ramdisk and a command line. Built through
/// [`VZLinuxBootLoaderBuilder`], which guarantees every field is
/// supplied and the image paths are absolute.
pub struct VZLinuxBootLoader {
    kernel_url: NSURL,
    initial_ramdisk_url: NSURL,
    command_line: NSString,
}

impl View for VZLinuxBootLoader {
    type V = BootLoaderView;

    closed spec fn view(&self) -> BootLoaderView {
        BootLoaderView::Linux {
            kernel_path: self.kernel_url@.path,
            initial_ramdisk_path: self.initial_ramdisk_url@.path,
            command_line: self.command_line@,
        }
    }
}

impl VZBootLoader for VZLinuxBootLoader {
    open spec fn boot_loader_view(&self) -> BootLoaderView {
        self@
    }

    fn boot_loader_config(&self) -> (r: BootLoaderConfig) {
        BootLoaderConfig::Linux {
            kernel_url: self.kernel_url.clone(),
            initial_ramdisk_url: self.initial_ramdisk_url.clone(),
            command_line: self.command_line.clone(),
        }
    }
}

/// One option for creating a firmware variable store.
#[derive(Clone, Copy)]
pub struct VZEFIVariableStoreInitializationOption {
    bits: u64,
}

/// The bit that allows overwriting an existing variable store.
pub const OPTION_ALLOW_OVERWRITE: u64 = 1;

impl View for VZEFIVariableStoreInitializationOption {
    type V = u64;

    closed spec fn view(&self) -> u64 {
        self.bits
    }
}

impl VZEFIVariableStoreInitializationOption {
    /// Allow the framework to overwrite an existing variable store.
    pub fn allow_overwrite() -> (r: Self)
        ensures
            r@ == OPTION_ALLOW_OVERWRITE,
    {
        VZEFIVariableStoreInitializationOption { bits: OPTION_ALLOW_OVERWRITE }
    }
}

/// The combined value of a collection of options: the bitwise or of all
/// of them.
pub open spec fn combined_options(s: Seq<u64>) -> u64
    decreases s.len(),
{
    if s.len() == 0 {
        0u64
    } else {
        combined_options(s.drop_last()) | s.last()
    }
}

/// Whether a combined option value allows overwriting an existing
/// variable store.
pub open spec fn options_allow_overwrite(raw: u64) -> bool {
    raw & OPTION_ALLOW_OVERWRITE == OPTION_ALLOW_OVERWRITE
}

/// The options a firmware variable store is created with.
pub struct VZEFIVariableStoreInitializationOptions {
    options: Vec<VZEFIVariableStoreInitializationOption>,
}

impl View for VZEFIVariableStoreInitializationOptions {
    type V = Seq<u64>;

    closed spec fn view(&self) -> Seq<u64> {
        Seq::new(self.options@.len(), |i: int| self.options@[i]@)
    }
}

impl VZEFIVariableStoreInitializationOptions {
    /// No options.
    pub fn new() -> (r: Self)
        ensures
            r@ == Seq::<u64>::empty(),
    {
        let r = VZEFIVariableStoreInitializationOptions { options: Vec::new() };
        proof {
            assert(r@ =~= Seq::<u64>::empty());
        }
        r
    }

    /// Add one option.
    pub fn with(self, option: VZEFIVariableStoreInitializationOption) -> (r: Self)
        ensures
            r@ == self@.push(option@),
    {
        let mut options = self.options;
        let ghost prev = Seq::new(options@.len(), |i: int| options@[i]@);
        options.push(option);
        let r = VZEFIVariableStoreInitializationOptions { options };
        proof {
            assert(r@ =~= prev.push(option@));
        }
        r
    }

    /// The combined raw value of the options, as the foreign call takes
    /// it.
    pub fn into_raw(self) -> (r: u64)
        ensures
            r == combined_options(self@),
    {
        let ghost full = self@;
        let mut acc: u64 = 0;
        let mut i: usize = 0;
        while i < self.options.len()
            invariant
                i <= self.options.len(),
                full == self@,
                full.len() == self.options.len(),
                acc == combined_options(full.take(i as int)),
            decreases self.options.len() - i,
        {
            acc = acc | self.options[i].bits;
            proof {
                assert(full.take(i + 1).drop_last() =~= full.take(i as int));
                assert(full.take(i + 1).last() == full[i as int]);
            }
            i += 1;
        }
        proof {
            assert(full.take(self.options.len() as int) =~= full);
        }
        acc
    }
}

/// How creating a variable store changes the host's files: the store's
/// file exists afterwards, and nothing else changes.
pub open spec fn files_with(files: Seq<Seq<char>>, path: Seq<char>) -> Seq<Seq<char>> {
    if files.contains(path) {
        files
    } else {
        files.push(path)
    }
}

/// Whether creating a variable store at `path` succeeds on a host:
/// it fails exactly when a file already exists there and the options do
/// not allow overwriting it.
pub open spec fn store_creation_ok(h: HostView, path: Seq<char>, raw: u64) -> bool {
    !h.files.contains(path) || options_allow_overwrite(raw)
}

/// A firmware variable store: the file that holds the non-volatile
/// variables the firmware exposes.
#[derive(Debug)]
pub struct VZEFIVariableStore {
    url: NSURL,
}

impl View for VZEFIVariableStore {
    type V = UrlView;

    closed spec fn view(&self) -> UrlView {
        self.url@
    }
}

impl VZEFIVariableStore {
    /// Create a new variable store at the given URL with the given
    /// options. Creation fails exactly when a file already exists there
    /// and the options do not allow overwriting; on success the store's
    /// file exists on the host.
    pub fn create(file_url: &str, options: VZEFIVariableStoreInitializationOptions, host: &mut Host) -> (r: Result<
        VZEFIVariableStore,
        NSError,
    >)
        ensures
            r is Ok <==> store_creation_ok(old(host)@, file_url@, combined_options(options@)),
            r matches Ok(store) ==> store@ == (UrlView { path: file_url@, is_directory: false }),
            r is Ok ==> final(host)@ == (HostView {
                files: files_with(old(host)@.files, file_url@),
                ..old(host)@
            }),
            r matches Err(e) ==> e@.code == CODE_ATTACHMENT_CREATION,
            r is Err ==> final(host)@ == old(host)@,
    {
        let raw = options.into_raw();
        let exists = host.file_reachable(file_url);
        if exists && raw & OPTION_ALLOW_OVERWRITE != OPTION_ALLOW_OVERWRITE {
            Err(
                NSError::new(
                    CODE_ATTACHMENT_CREATION,
                    String::from_str("a file already exists at the variable store URL"),
                ),
            )
        } else {
            if !exists {
                host.add_file(file_url.to_owned());
            }
            proof {
                assert(host@ =~~= (HostView {
                    files: files_with(old(host)@.files, file_url@),
                    ..old(host)@
                }));
            }
            Ok(VZEFIVariableStore { url: NSURL::url_with_string(file_url) })
        }
    }

    /// Open the variable store in an existing file. Following the
    /// platform call it stands for, this performs no check of the file.
    pub fn open(file_url: &str) -> (r: VZEFIVariableStore)
        ensures
            r@ == (UrlView { path: file_url@, is_directory: false }),
    {
        VZEFIVariableStore { url: NSURL::url_with_string(file_url) }
    }
}

/// Builder for [`VZEFIBootLoader`]: the variable store is optional, so
/// `build` is callable at any point.
pub struct VZEFIBootLoaderBuilder {
    /// The variable store, once supplied.
    pub variable_store: Option<VZEFIVariableStore>,
}

impl VZEFIBootLoaderBuilder {
    /// A builder with no variable store.
    pub fn new() -> (r: Self)
        ensures
            r.variable_store is None,
    {
        VZEFIBootLoaderBuilder { variable_store: None }
    }

    /// Supply the variable store.
    pub fn with_variable_store(self, variable_store: VZEFIVariableStore) -> (r: Self)
        ensures
            r.variable_store == Some(variable_store),
    {
        VZEFIBootLoaderBuilder { variable_store: Some(variable_store) }
    }

    /// Build the firmware boot loader with the supplied store, if any.
    pub fn build(self) -> (r: VZEFIBootLoader)
        ensures
            r@ == (BootLoaderView::Efi {
                variable_store_path: match self.variable_store {
                    Some(s) => Some(s@.path),
                    None => None,
                },
            }),
    {
        VZEFIBootLoader { variable_store: self.variable_store }
    }
}

/// A boot loader that boots through the firmware, optionally with a
/// variable store for its non-volatile variables.
pub struct VZEFIBootLoader {
    variable_store: Option<VZEFIVariableStore>,
}

impl View for VZEFIBootLoader {
    type V = BootLoaderView;

    closed spec fn view(&self) -> BootLoaderView {
        BootLoaderView::Efi {
            variable_store_path: match self.variable_store {
                Some(s) => Some(s@.path),
                None => None,
            },
        }
    }
}

impl VZBootLoader for VZEFIBootLoader {
    open spec fn boot_loader_view(&self) -> BootLoaderView {
        self@
    }

    fn boot_loader_config(&self) -> (r: BootLoaderConfig) {
        BootLoaderConfig::Efi {
            variable_store_url: match &self.variable_store {
                Some(s) => Some(s.url.clone()),
                None => None,
            },
        }
    }
}

} // verus!
