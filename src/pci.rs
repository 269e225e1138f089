use vstd::prelude::*;
use crate::arrayvec::ArrayVec;
use crate::parse::{hex_text, push_hex};

pub mod linux_procfs;
pub mod linux_sysfs;

pub use linux_procfs::{le16, proc_subsystem_device, proc_subsystem_vendor, ProcBusProvider};
pub use linux_sysfs::SysBusProvider;

verus! {

/// `std::io::Error`, carried unopened inside `PciBackendError::IOError`.
#[verifier::external_type_specification]
#[verifier::external_body]
pub struct ExIoError(std::io::Error);

/// Why a backend could not produce a device or an attribute.
#[derive(Debug)]
pub enum PciBackendError {
    /// The source is absent: the backend's root cannot be opened, or the device's layout has
    /// no such field.
    NotAvailable,
    /// Reading the filesystem failed part way.
    IOError(std::io::Error),
    /// An entry's name or a file's content does not have the expected shape or size.
    InvalidDevice,
}

/// The provider of a device whose attributes cannot be queried yet: its address has just been
/// parsed.
#[derive(Debug, Clone)]
pub struct NoProvider;

/// A PCI device: its location, and what answers queries about its attributes.
#[derive(Debug, Clone)]
pub struct PciDevice<P> {
    pub domain: u16,
    pub bus: u8,
    pub device: u8,
    pub function: u8,
    pub provider: P,
}

impl PciDevice<NoProvider> {
    pub fn new(domain: u16, bus: u8, device: u8, function: u8) -> (r: Self)
        ensures
            r.domain == domain,
            r.bus == bus,
            r.device == device,
            r.function == function,
    {
        PciDevice { domain, bus, device, function, provider: NoProvider }
    }

    /// Attaches the provider that will answer attribute queries at this address.
    pub fn with_provider<P>(self, provider: P) -> (r: PciDevice<P>)
        ensures
            r.domain == self.domain,
            r.bus == self.bus,
            r.device == self.device,
            r.function == self.function,
            r.provider == provider,
    {
        let PciDevice { domain, bus, device, function, .. } = self;
        PciDevice { domain, bus, device, function, provider }
    }
}

/// The text `DDDD:BB:DD.F` of an address, in lower-case hex.
pub open spec fn address_text_of(domain: u16, bus: u8, device: u8, function: u8) -> Seq<u8> {
    hex_text(domain as nat, 4) + seq![0x3au8] + hex_text(bus as nat, 2) + seq![0x3au8]
        + hex_text(device as nat, 2) + seq![0x2eu8] + hex_text(function as nat, 1)
}

impl<P> PciDevice<P> {
    /// The address as sysfs names it, `DDDD:BB:DD.F`. The function takes one digit.
    pub fn address_text(&self) -> (r: Vec<u8>)
        requires
            self.function < 16,
        ensures
            r@ == address_text_of(self.domain, self.bus, self.device, self.function),
    {
        let mut out: Vec<u8> = Vec::new();
        push_hex(&mut out, self.domain, 4);
        out.push(0x3a);
        push_hex(&mut out, self.bus as u16, 2);
        out.push(0x3a);
        push_hex(&mut out, self.device as u16, 2);
        out.push(0x2e);
        push_hex(&mut out, self.function as u16, 1);
        assert(out@ == address_text_of(self.domain, self.bus, self.device, self.function));
        out
    }
}

/// A device attribute.
#[derive(Debug, Clone, Copy, PartialEq, Eq, Structural)]
pub enum Attribute {
    Class,
    Vendor,
    Device,
    SubsystemVendor,
    SubsystemDevice,
    Revision,
}

pub open spec fn attribute_file_name(a: Attribute) -> Seq<char> {
    match a {
        Attribute::Class => "class"@,
        Attribute::Vendor => "vendor"@,
        Attribute::Device => "device"@,
        Attribute::SubsystemVendor => "subsystem_vendor"@,
        Attribute::SubsystemDevice => "subsystem_device"@,
        Attribute::Revision => "revision"@,
    }
}

impl Attribute {
    /// The name of the sysfs file that holds this attribute.
    pub fn file_name(&self) -> (r: &'static str)
        ensures
            r@ == attribute_file_name(*self),
    {
        match self {
            Attribute::Class => "class",
            Attribute::Vendor => "vendor",
            Attribute::Device => "device",
            Attribute::SubsystemVendor => "subsystem_vendor",
            Attribute::SubsystemDevice => "subsystem_device",
            Attribute::Revision => "revision",
        }
    }
}

/// The answer to a query, or the attribute file that must be read to give it.
#[derive(Debug)]
pub enum Lookup<T> {
    Ready(Result<T, PciBackendError>),
    ReadAttribute(Attribute),
}

/// Whether a class (class byte first) is a display controller.
pub open spec fn is_gpu_class_spec(class: Seq<u8>) -> bool {
    class.len() > 0 && class[0] == 3
}

/// Whether a class, class byte first, is a display controller.
pub fn is_gpu_class(class: &ArrayVec<u8, 32>) -> (r: bool)
    ensures
        r == is_gpu_class_spec(class@),
{
    let s = class.as_slice();
    s.len() > 0 && s[0] == 3
}

/// The provider of a device found by automatic backend selection.
#[derive(Debug, Clone)]
pub enum AutoProvider {
    SysFS(SysBusProvider),
    ProcFS(ProcBusProvider),
}

/// Attribute queries on a device of either backend. A procfs device answers at once from its
/// bytes; a sysfs device names the attribute file to read, whose content the matching
/// `SysBusProvider::decode_*` function turns into the answer.
impl PciDevice<AutoProvider> {
    pub fn class(&self) -> (r: Lookup<ArrayVec<u8, 32>>)
        ensures
            self.provider is SysFS ==> r == Lookup::<ArrayVec<u8, 32>>::ReadAttribute(
                Attribute::Class,
            ),
            self.provider matches AutoProvider::ProcFS(p) ==> r matches Lookup::Ready(Ok(c))
                && c@ == seq![p@[11], p@[10]],
    {
        match &self.provider {
            AutoProvider::SysFS(_) => Lookup::ReadAttribute(Attribute::Class),
            AutoProvider::ProcFS(p) => Lookup::Ready(p.get_class()),
        }
    }

    pub fn vendor(&self) -> (r: Lookup<u16>)
        ensures
            self.provider is SysFS ==> r == Lookup::<u16>::ReadAttribute(Attribute::Vendor),
            self.provider matches AutoProvider::ProcFS(p) ==> r == Lookup::<u16>::Ready(
                Ok(le16(p@[0], p@[1])),
            ),
    {
        match &self.provider {
            AutoProvider::SysFS(_) => Lookup::ReadAttribute(Attribute::Vendor),
            AutoProvider::ProcFS(p) => Lookup::Ready(p.get_vendor()),
        }
    }

    pub fn device(&self) -> (r: Lookup<u16>)
        ensures
            self.provider is SysFS ==> r == Lookup::<u16>::ReadAttribute(Attribute::Device),
            self.provider matches AutoProvider::ProcFS(p) ==> r == Lookup::<u16>::Ready(
                Ok(le16(p@[2], p@[3])),
            ),
    {
        match &self.provider {
            AutoProvider::SysFS(_) => Lookup::ReadAttribute(Attribute::Device),
            AutoProvider::ProcFS(p) => Lookup::Ready(p.get_device()),
        }
    }

    pub fn susbystem_vid(&self) -> (r: Lookup<u16>)
        ensures
            self.provider is SysFS ==> r == Lookup::<u16>::ReadAttribute(
                Attribute::SubsystemVendor,
            ),
            self.provider matches AutoProvider::ProcFS(p) ==> r == Lookup::<u16>::Ready(
                proc_subsystem_vendor(p@),
            ),
    {
        match &self.provider {
            AutoProvider::SysFS(_) => Lookup::ReadAttribute(Attribute::SubsystemVendor),
            AutoProvider::ProcFS(p) => Lookup::Ready(p.get_susbystem_vid()),
        }
    }

    pub fn susbystem_did(&self) -> (r: Lookup<u16>)
        ensures
            self.provider is SysFS ==> r == Lookup::<u16>::ReadAttribute(
                Attribute::SubsystemDevice,
            ),
            self.provider matches AutoProvider::ProcFS(p) ==> r == Lookup::<u16>::Ready(
                proc_subsystem_device(p@),
            ),
    {
        match &self.provider {
            AutoProvider::SysFS(_) => Lookup::ReadAttribute(Attribute::SubsystemDevice),
            AutoProvider::ProcFS(p) => Lookup::Ready(p.get_susbystem_did()),
        }
    }

    pub fn revision(&self) -> (r: Lookup<u8>)
        ensures
            self.provider is SysFS ==> r == Lookup::<u8>::ReadAttribute(Attribute::Revision),
            self.provider matches AutoProvider::ProcFS(p) ==> r == Lookup::<u8>::Ready(
                Ok(p@[8]),
            ),
    {
        match &self.provider {
            AutoProvider::SysFS(_) => Lookup::ReadAttribute(Attribute::Revision),
            AutoProvider::ProcFS(p) => Lookup::Ready(p.get_revision()),
        }
    }

    /// Whether the device is a display controller; for a sysfs device, read the class file
    /// and apply `is_gpu_class` to what `SysBusProvider::decode_class` makes of it.
    pub fn is_gpu(&self) -> (r: Lookup<bool>)
        ensures
            self.provider is SysFS ==> r == Lookup::<bool>::ReadAttribute(Attribute::Class),
            self.provider matches AutoProvider::ProcFS(p) ==> r == Lookup::<bool>::Ready(
                Ok(p@[11] == 3),
            ),
    {
        match &self.provider {
            AutoProvider::SysFS(_) => Lookup::ReadAttribute(Attribute::Class),
            AutoProvider::ProcFS(p) => match p.get_class() {
                Ok(c) => Lookup::Ready(Ok(is_gpu_class(&c))),
                Err(e) => Lookup::Ready(Err(e)),
            },
        }
    }
}

/// Enumeration with automatic backend selection: sysfs when its root can be opened, procfs
/// otherwise. `S` and `P` are the two backends' walks.
#[derive(Debug)]
pub enum PciAutoIter<S, P> {
    SysFS(S),
    ProcFS(P),
}

impl<S, P> PciAutoIter<S, P> {
    /// Picks the backend. `sysfs` is the outcome of opening the sysfs root; `procfs` opens the
    /// procfs root and is called only when that failed. When both fail, the procfs error is
    /// the answer.
    pub fn try_init<F: FnOnce() -> Result<P, PciBackendError>>(
        sysfs: Result<S, PciBackendError>,
        procfs: F,
    ) -> (r: Result<Self, PciBackendError>)
        requires
            sysfs is Err ==> procfs.requires(()),
        ensures
            sysfs matches Ok(s) ==> r == Ok::<Self, PciBackendError>(PciAutoIter::SysFS(s)),
            sysfs is Err ==> exists|p: Result<P, PciBackendError>|
                #[trigger] procfs.ensures((), p) && r == match p {
                    Ok(b) => Ok::<Self, PciBackendError>(PciAutoIter::ProcFS(b)),
                    Err(e) => Err::<Self, PciBackendError>(e),
                },
    {
        match sysfs {
            Ok(s) => Ok(PciAutoIter::SysFS(s)),
            Err(_) => {
                let p = procfs();
                match p {
                    Ok(b) => Ok(PciAutoIter::ProcFS(b)),
                    Err(e) => Err(e),
                }
            },
        }
    }

    /// Re-wraps a sysfs walk's item as a device of either backend.
    pub fn from_sysfs_item(item: Option<Result<PciDevice<SysBusProvider>, PciBackendError>>) -> (r:
        Option<Result<PciDevice<AutoProvider>, PciBackendError>>)
        ensures
            item is None <==> r is None,
            item matches Some(Err(e)) ==> r == Some(Err::<PciDevice<AutoProvider>, PciBackendError>(e)),
            item matches Some(Ok(d)) ==> r matches Some(Ok(a)) && a.domain == d.domain && a.bus
                == d.bus && a.device == d.device && a.function == d.function && a.provider
                == AutoProvider::SysFS(d.provider),
    {
        match item {
            None => None,
            Some(Err(e)) => Some(Err(e)),
            Some(Ok(d)) => {
                let PciDevice { domain, bus, device, function, provider } = d;
                Some(Ok(PciDevice { domain, bus, device, function, provider: AutoProvider::SysFS(provider) }))
            },
        }
    }

    /// Re-wraps a procfs walk's item as a device of either backend.
    pub fn from_procfs_item(item: Option<Result<PciDevice<ProcBusProvider>, PciBackendError>>) -> (r:
        Option<Result<PciDevice<AutoProvider>, PciBackendError>>)
        ensures
            item is None <==> r is None,
            item matches Some(Err(e)) ==> r == Some(Err::<PciDevice<AutoProvider>, PciBackendError>(e)),
            item matches Some(Ok(d)) ==> r matches Some(Ok(a)) && a.domain == d.domain && a.bus
                == d.bus && a.device == d.device && a.function == d.function && a.provider
                == AutoProvider::ProcFS(d.provider),
    {
        match item {
            None => None,
            Some(Err(e)) => Some(Err(e)),
            Some(Ok(d)) => {
                let PciDevice { domain, bus, device, function, provider } = d;
                Some(Ok(PciDevice { domain, bus, device, function, provider: AutoProvider::ProcFS(provider) }))
            },
        }
    }
}

} // verus!
