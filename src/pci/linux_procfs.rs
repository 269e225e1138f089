use vstd::prelude::*;
use crate::arrayvec::{copied_count, ArrayVec};
use crate::parse::{all_hex_digits, hex_digit_value, hex_field_at, hex_value, is_hex_digit};
use crate::pci::{is_gpu_class, NoProvider, PciBackendError, PciDevice};

verus! {

/// A little-endian 16-bit value.
pub open spec fn le16(lo: u8, hi: u8) -> u16 {
    (lo + hi * 256) as u16
}

/// The layout discriminant of a configuration space: byte 14 without its multi-function bit.
pub open spec fn header_kind(config: Seq<u8>) -> u8 {
    (config[14] % 128) as u8
}

/// A 16-bit field read from `config`, or `InvalidDevice` when the bytes end before it.
pub open spec fn le16_at(config: Seq<u8>, at: int) -> Result<u16, PciBackendError> {
    if config.len() < at + 2 {
        Err(PciBackendError::InvalidDevice)
    } else {
        Ok(le16(config[at], config[at + 1]))
    }
}

/// The subsystem vendor of a configuration space, by header type.
pub open spec fn proc_subsystem_vendor(config: Seq<u8>) -> Result<u16, PciBackendError> {
    if header_kind(config) == 0 {
        le16_at(config, 47)
    } else if header_kind(config) == 2 {
        le16_at(config, 66)
    } else {
        Err(PciBackendError::NotAvailable)
    }
}

/// The subsystem device of a configuration space, by header type.
pub open spec fn proc_subsystem_device(config: Seq<u8>) -> Result<u16, PciBackendError> {
    if header_kind(config) == 0 {
        le16_at(config, 49)
    } else if header_kind(config) == 2 {
        le16_at(config, 64)
    } else {
        Err(PciBackendError::NotAvailable)
    }
}

/// Where the subsystem identifiers live depends on the header type alone: bytes 47-51 in a
/// type 0 header, bytes 64-68 in a type 2 header, and no other layout has them, which is
/// `NotAvailable` and never an I/O error.
pub proof fn lemma_subsystem_by_header_type(config: Seq<u8>)
    requires
        config.len() >= 16,
    ensures
        header_kind(config) == 0 && config.len() >= 51 ==> proc_subsystem_vendor(config) == Ok::<
            u16,
            PciBackendError,
        >(le16(config[47], config[48])) && proc_subsystem_device(config) == Ok::<
            u16,
            PciBackendError,
        >(le16(config[49], config[50])),
        header_kind(config) == 2 && config.len() >= 68 ==> proc_subsystem_device(config) == Ok::<
            u16,
            PciBackendError,
        >(le16(config[64], config[65])) && proc_subsystem_vendor(config) == Ok::<
            u16,
            PciBackendError,
        >(le16(config[66], config[67])),
        header_kind(config) != 0 && header_kind(config) != 2 ==> (proc_subsystem_vendor(config)
            matches Err(PciBackendError::NotAvailable)) && (proc_subsystem_device(config) matches Err(
            PciBackendError::NotAvailable,
        )),
{
}

/// The configuration-space bytes of one device, as its procfs file gave them.
#[derive(Debug)]
pub struct ProcBusProvider {
    buf: ArrayVec<u8, 72>,
}

impl View for ProcBusProvider {
    type V = Seq<u8>;

    /// The bytes kept: the start of the device file, up to 72 bytes.
    closed spec fn view(&self) -> Seq<u8> {
        self.buf@
    }
}

impl ProcBusProvider {
    #[verifier::type_invariant]
    spec fn holds_header(&self) -> bool {
        16 <= self.buf@.len() <= 72
    }

    /// Keeps the first 72 bytes of a device file; a file under 16 bytes has no header and is
    /// rejected.
    pub fn from_devfile(contents: &[u8]) -> (r: Result<Self, PciBackendError>)
        ensures
            r is Err <==> contents@.len() < 16,
            r is Err ==> r matches Err(PciBackendError::InvalidDevice),
            r matches Ok(p) ==> p@ == contents@.take(copied_count(72, contents@.len() as int)),
    {
        let mut buf: ArrayVec<u8, 72> = ArrayVec::new();
        buf.copy_from_slice(contents);
        if buf.len() < 16 {
            Err(PciBackendError::InvalidDevice)
        } else {
            Ok(ProcBusProvider { buf })
        }
    }

    pub fn bytes(&self) -> (r: &[u8])
        ensures
            r@ == self@,
            16 <= r@.len() <= 72,
    {
        proof {
            use_type_invariant(self);
        }
        self.buf.as_slice()
    }
}

impl Clone for ProcBusProvider {
    fn clone(&self) -> (r: Self)
        ensures
            r@ == self@,
    {
        proof {
            use_type_invariant(self);
        }
        let buf = self.buf.clone();
        assert(buf@ =~= self.buf@);
        ProcBusProvider { buf }
    }
}

/// Reads the little-endian 16-bit field at `at`.
fn read_le16(config: &[u8], at: usize) -> (r: Result<u16, PciBackendError>)
    requires
        at <= 70,
    ensures
        r == le16_at(config@, at as int),
{
    if config.len() < at + 2 {
        return Err(PciBackendError::InvalidDevice);
    }
    let lo = config[at];
    let hi = config[at + 1];
    let v = (lo as u16) | ((hi as u16) << 8);
    assert((lo as u16) | ((hi as u16) << 8) == lo + hi * 256) by (bit_vector);
    Ok(v)
}

impl ProcBusProvider {
    /// The header type, without the multi-function bit.
    pub fn header_type(&self) -> (r: u8)
        ensures
            r == header_kind(self@),
    {
        let b = self.bytes()[14];
        assert(b & 0x7f == b % 128) by (bit_vector);
        b & 0x7f
    }

    /// `[class, subclass]`, from bytes 11 and 10.
    pub fn get_class(&self) -> (r: Result<ArrayVec<u8, 32>, PciBackendError>)
        ensures
            r matches Ok(c) && c@ == seq![self@[11], self@[10]],
    {
        let config = self.bytes();
        let mut c: ArrayVec<u8, 32> = ArrayVec::new();
        c.push(config[11]);
        c.push(config[10]);
        Ok(c)
    }

    pub fn get_vendor(&self) -> (r: Result<u16, PciBackendError>)
        ensures
            r == Ok::<u16, PciBackendError>(le16(self@[0], self@[1])),
    {
        read_le16(self.bytes(), 0)
    }

    pub fn get_device(&self) -> (r: Result<u16, PciBackendError>)
        ensures
            r == Ok::<u16, PciBackendError>(le16(self@[2], self@[3])),
    {
        read_le16(self.bytes(), 2)
    }

    pub fn get_revision(&self) -> (r: Result<u8, PciBackendError>)
        ensures
            r == Ok::<u8, PciBackendError>(self@[8]),
    {
        Ok(self.bytes()[8])
    }

    /// From bytes 47-49 in a type 0 header, 66-68 in a type 2 header; other layouts have no
    /// such field.
    pub fn get_susbystem_vid(&self) -> (r: Result<u16, PciBackendError>)
        ensures
            r == proc_subsystem_vendor(self@),
    {
        let kind = self.header_type();
        if kind == 0 {
            read_le16(self.bytes(), 47)
        } else if kind == 2 {
            read_le16(self.bytes(), 66)
        } else {
            Err(PciBackendError::NotAvailable)
        }
    }

    /// From bytes 49-51 in a type 0 header, 64-66 in a type 2 header; other layouts have no
    /// such field.
    pub fn get_susbystem_did(&self) -> (r: Result<u16, PciBackendError>)
        ensures
            r == proc_subsystem_device(self@),
    {
        let kind = self.header_type();
        if kind == 0 {
            read_le16(self.bytes(), 49)
        } else if kind == 2 {
            read_le16(self.bytes(), 64)
        } else {
            Err(PciBackendError::NotAvailable)
        }
    }
}

impl PciDevice<ProcBusProvider> {
    pub fn class(&self) -> (r: Result<ArrayVec<u8, 32>, PciBackendError>)
        ensures
            r matches Ok(c) && c@ == seq![self.provider@[11], self.provider@[10]],
    {
        self.provider.get_class()
    }

    pub fn vendor(&self) -> (r: Result<u16, PciBackendError>)
        ensures
            r == Ok::<u16, PciBackendError>(le16(self.provider@[0], self.provider@[1])),
    {
        self.provider.get_vendor()
    }

    pub fn device(&self) -> (r: Result<u16, PciBackendError>)
        ensures
            r == Ok::<u16, PciBackendError>(le16(self.provider@[2], self.provider@[3])),
    {
        self.provider.get_device()
    }

    pub fn revision(&self) -> (r: Result<u8, PciBackendError>)
        ensures
            r == Ok::<u8, PciBackendError>(self.provider@[8]),
    {
        self.provider.get_revision()
    }

    pub fn susbystem_vid(&self) -> (r: Result<u16, PciBackendError>)
        ensures
            r == proc_subsystem_vendor(self.provider@),
    {
        self.provider.get_susbystem_vid()
    }

    pub fn susbystem_did(&self) -> (r: Result<u16, PciBackendError>)
        ensures
            r == proc_subsystem_device(self.provider@),
    {
        self.provider.get_susbystem_did()
    }

    /// Whether the class byte names a display controller.
    pub fn is_gpu(&self) -> (r: Result<bool, PciBackendError>)
        ensures
            r == Ok::<bool, PciBackendError>(self.provider@[11] == 3),
    {
        let class = self.provider.get_class();
        match class {
            Ok(c) => Ok(is_gpu_class(&c)),
            Err(e) => Err(e),
        }
    }
}

/// Whether a bus directory's name is two hex digits.
pub open spec fn bus_name_ok(s: Seq<u8>) -> bool {
    s.len() == 2 && all_hex_digits(s)
}

/// Reads a bus directory's name, two hex digits and nothing more.
pub fn parse_bus_name(name: &[u8]) -> (r: Result<u8, PciBackendError>)
    ensures
        r is Ok <==> bus_name_ok(name@),
        r matches Ok(b) ==> b == hex_value(name@),
        r is Err ==> r matches Err(PciBackendError::InvalidDevice),
{
    if name.len() != 2 {
        return Err(PciBackendError::InvalidDevice);
    }
    assert(name@.skip(0).take(2) == name@);
    match hex_field_at(name, 0, 2) {
        Ok(v) => {
            proof {
                reveal_with_fuel(crate::parse::pow16, 3);
            }
            Ok(v as u8)
        },
        Err(_) => Err(PciBackendError::InvalidDevice),
    }
}

/// Whether a device file's name has the shape `DD.F`.
pub open spec fn dev_file_name_ok(s: Seq<u8>) -> bool {
    s.len() == 4 && all_hex_digits(s.take(2)) && s[2] == 0x2e && is_hex_digit(s[3])
}

/// Reads a device file's name, `DD.F`: device and function, in hex.
pub fn parse_dev_file(name: &[u8]) -> (r: Result<PciDevice<NoProvider>, PciBackendError>)
    ensures
        r is Ok <==> dev_file_name_ok(name@),
        r matches Ok(d) ==> d.domain == 0 && d.bus == 0 && d.device == hex_value(name@.take(2))
            && d.function == hex_digit_value(name@[3]),
        r is Err ==> r matches Err(PciBackendError::InvalidDevice),
{
    if name.len() != 4 || name[2] != 0x2e {
        return Err(PciBackendError::InvalidDevice);
    }
    assert(name@.skip(0).take(2) == name@.take(2));
    let device = match hex_field_at(name, 0, 2) {
        Ok(v) => v,
        Err(_) => {
            return Err(PciBackendError::InvalidDevice);
        },
    };
    let ghost last = name@.skip(3).take(1);
    assert(last.drop_last().len() == 0);
    assert(last.last() == name@[3]);
    assert(all_hex_digits(last) <==> is_hex_digit(name@[3])) by {
        if is_hex_digit(name@[3]) {
            assert forall|i: int| 0 <= i < last.len() implies is_hex_digit(#[trigger] last[i]) by {
                assert(last[i] == name@[3]);
            }
        } else {
            assert(last[0] == name@[3]);
        }
    }
    let function = match hex_field_at(name, 3, 1) {
        Ok(v) => v,
        Err(_) => {
            return Err(PciBackendError::InvalidDevice);
        },
    };
    proof {
        reveal_with_fuel(crate::parse::pow16, 3);
    }
    Ok(PciDevice::new(0, 0, device as u8, function as u8))
}

/// The bytes of the name `devices`: the aggregate file beside the bus directories.
pub open spec fn devices_entry_name() -> Seq<u8> {
    seq![0x64u8, 0x65, 0x76, 0x69, 0x63, 0x65, 0x73]
}

fn is_devices_entry(name: &[u8]) -> (r: bool)
    ensures
        r == (name@ == devices_entry_name()),
{
    let r = name.len() == 7 && name[0] == 0x64 && name[1] == 0x65 && name[2] == 0x76 && name[3]
        == 0x69 && name[4] == 0x63 && name[5] == 0x65 && name[6] == 0x73;
    if r {
        assert(name@ == devices_entry_name());
    }
    r
}

/// What the walker of `/proc/bus/pci` learnt from the filesystem since its last request.
#[derive(Debug)]
pub enum ProcEvent {
    /// The caller wants the next device.
    Resume,
    /// The next entry of the root: its name, or the error that listing it gave; `None` when
    /// the root is exhausted.
    BusEntry(Option<Result<Vec<u8>, PciBackendError>>),
    /// The outcome of opening the bus directory with the given name.
    BusOpened(Vec<u8>, Result<(), PciBackendError>),
    /// The next entry of the open bus directory; `None` when it is exhausted.
    DeviceEntry(Option<Result<Vec<u8>, PciBackendError>>),
    /// The content of the device file just listed, or the error that reading it gave.
    DeviceRead(Result<Vec<u8>, PciBackendError>),
}

/// What the walker of `/proc/bus/pci` wants done next.
#[derive(Debug)]
pub enum ProcRequest {
    /// List the next entry of the root.
    NextBusEntry,
    /// Open the bus directory whose entry was just listed.
    OpenBus,
    /// List the next entry of the open bus directory.
    NextDeviceEntry,
    /// Read the device file whose entry was just listed.
    ReadDevice,
    /// Hand this to the caller; the walk goes on at its next `Resume`.
    Yield(Result<PciDevice<ProcBusProvider>, PciBackendError>),
    /// The walk is over.
    Finish,
}

/// The decisions of one walk over `/proc/bus/pci`: bus directories named by two hex digits,
/// each holding device files named `DD.F`. The directory handles stay with the caller, which
/// keeps a bus directory open exactly while `bus` is `Some`.
#[derive(Debug)]
pub struct ProcBusBackend {
    /// The bus directory being walked.
    pub bus: Option<u8>,
    /// Device and function of the device file that is being read.
    pub pending: Option<(u8, u8)>,
}

impl ProcBusBackend {
    pub fn new() -> (r: Self)
        ensures
            r.bus is None,
            r.pending is None,
    {
        ProcBusBackend { bus: None, pending: None }
    }

    /// Takes what the filesystem gave and says what to do next.
    pub fn step(&mut self, event: ProcEvent) -> (r: ProcRequest)
        ensures
            event is Resume ==> final(self).bus == old(self).bus && final(self).pending is None && (
            if old(self).bus is None {
                r is NextBusEntry
            } else {
                r is NextDeviceEntry
            }),
            event matches ProcEvent::BusEntry(None) ==> r is Finish && final(self).bus is None
                && final(self).pending is None,
            event matches ProcEvent::BusEntry(Some(Err(e))) ==> r == ProcRequest::Yield(Err(e))
                && final(self).bus is None && final(self).pending is None,
            event matches ProcEvent::BusEntry(Some(Ok(name))) ==> final(self).bus is None
                && final(self).pending is None && (if name@ == devices_entry_name() {
                r is NextBusEntry
            } else {
                r is OpenBus
            }),
            event matches ProcEvent::BusOpened(_, Err(e)) ==> r == ProcRequest::Yield(Err(e))
                && final(self).bus is None && final(self).pending is None,
            event matches ProcEvent::BusOpened(name, Ok(_)) ==> final(self).pending is None && (
            if bus_name_ok(name@) {
                r is NextDeviceEntry && final(self).bus == Some(hex_value(name@) as u8)
            } else {
                r matches ProcRequest::Yield(Err(PciBackendError::InvalidDevice))
                    && final(self).bus is None
            }),
            event matches ProcEvent::DeviceEntry(None) ==> r is NextBusEntry && final(self).bus is None
                && final(self).pending is None,
            event matches ProcEvent::DeviceEntry(Some(Err(e))) ==> r == ProcRequest::Yield(Err(e))
                && final(self).bus == old(self).bus && final(self).pending is None,
            event matches ProcEvent::DeviceEntry(Some(Ok(name))) ==> final(self).bus == old(
                self,
            ).bus && (if dev_file_name_ok(name@) && old(self).bus is Some {
                r is ReadDevice && final(self).pending == Some(
                    (hex_value(name@.take(2)) as u8, hex_digit_value(name@[3]) as u8),
                )
            } else {
                r matches ProcRequest::Yield(Err(PciBackendError::InvalidDevice))
                    && final(self).pending is None
            }),
            event matches ProcEvent::DeviceRead(Err(e)) ==> final(self).bus == old(self).bus
                && final(self).pending is None && (if old(self).pending is Some && old(self).bus is Some {
                r == ProcRequest::Yield(Err(e))
            } else {
                r matches ProcRequest::Yield(Err(PciBackendError::InvalidDevice))
            }),
            event matches ProcEvent::DeviceRead(Ok(contents)) ==> final(self).bus == old(self).bus
                && final(self).pending is None && (if old(self).pending is Some && old(self).bus is Some
                && contents@.len() >= 16 {
                r matches ProcRequest::Yield(Ok(d)) && d.domain == 0 && Some(d.bus) == old(self).bus
                    && Some((d.device, d.function)) == old(self).pending && d.provider@ == contents@.take(
                    copied_count(72, contents@.len() as int),
                )
            } else {
                r matches ProcRequest::Yield(Err(PciBackendError::InvalidDevice))
            }),
    {
        match event {
            ProcEvent::Resume => {
                self.pending = None;
                match self.bus {
                    None => ProcRequest::NextBusEntry,
                    Some(_) => ProcRequest::NextDeviceEntry,
                }
            },
            ProcEvent::BusEntry(entry) => {
                self.bus = None;
                self.pending = None;
                match entry {
                    None => ProcRequest::Finish,
                    Some(Err(e)) => ProcRequest::Yield(Err(e)),
                    Some(Ok(name)) => {
                        if is_devices_entry(name.as_slice()) {
                            ProcRequest::NextBusEntry
                        } else {
                            ProcRequest::OpenBus
                        }
                    },
                }
            },
            ProcEvent::BusOpened(name, opened) => {
                self.bus = None;
                self.pending = None;
                match opened {
                    Err(e) => ProcRequest::Yield(Err(e)),
                    Ok(_) => match parse_bus_name(name.as_slice()) {
                        Ok(b) => {
                            self.bus = Some(b);
                            ProcRequest::NextDeviceEntry
                        },
                        Err(e) => ProcRequest::Yield(Err(e)),
                    },
                }
            },
            ProcEvent::DeviceEntry(entry) => {
                self.pending = None;
                match entry {
                    None => {
                        self.bus = None;
                        ProcRequest::NextBusEntry
                    },
                    Some(Err(e)) => ProcRequest::Yield(Err(e)),
                    Some(Ok(name)) => {
                        if self.bus.is_none() {
                            return ProcRequest::Yield(Err(PciBackendError::InvalidDevice));
                        }
                        match parse_dev_file(name.as_slice()) {
                            Ok(d) => {
                                self.pending = Some((d.device, d.function));
                                ProcRequest::ReadDevice
                            },
                            Err(e) => ProcRequest::Yield(Err(e)),
                        }
                    },
                }
            },
            ProcEvent::DeviceRead(read) => {
                let pending = self.pending;
                self.pending = None;
                match (pending, self.bus) {
                    (Some((device, function)), Some(bus)) => match read {
                        Err(e) => ProcRequest::Yield(Err(e)),
                        Ok(contents) => match ProcBusProvider::from_devfile(contents.as_slice()) {
                            Ok(p) => ProcRequest::Yield(
                                Ok(PciDevice::new(0, bus, device, function).with_provider(p)),
                            ),
                            Err(e) => ProcRequest::Yield(Err(e)),
                        },
                    },
                    _ => ProcRequest::Yield(Err(PciBackendError::InvalidDevice)),
                }
            },
        }
    }
}

} // verus!
