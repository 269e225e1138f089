use vstd::prelude::*;
use vstd::arithmetic::div_mod::lemma_small_mod;
use crate::arrayvec::ArrayVec;
use crate::parse::{all_hex_digits, hex_field_at, hex_text, hex_value, lemma_hex_text_value, nibble, pow16, unhex};
use crate::pci::{address_text_of, Attribute, PciBackendError, PciDevice, NoProvider};

verus! {

/// The byte spelled by two hex characters, read permissively.
pub open spec fn hex_pair(hi: u8, lo: u8) -> u8 {
    (nibble(hi) * 16 + nibble(lo)) as u8
}

/// A 16-bit attribute from the text `0xHHHH`: the two byte pairs after the prefix, most
/// significant first.
pub open spec fn sysfs_word(text: Seq<u8>) -> Result<u16, PciBackendError> {
    if text.len() < 6 {
        Err(PciBackendError::InvalidDevice)
    } else {
        Ok((hex_pair(text[2], text[3]) * 256 + hex_pair(text[4], text[5])) as u16)
    }
}

/// An 8-bit attribute from the text `0xHH`.
pub open spec fn sysfs_byte(text: Seq<u8>) -> Result<u8, PciBackendError> {
    if text.len() < 4 {
        Err(PciBackendError::InvalidDevice)
    } else {
        Ok(hex_pair(text[2], text[3]))
    }
}

/// Decodes the two hex characters at `at`.
fn pair_at(text: &[u8], at: usize) -> (r: u8)
    requires
        at + 1 < text@.len(),
    ensures
        r == hex_pair(text@[at as int], text@[at + 1]),
{
    let hi = unhex(text[at]);
    let lo = unhex(text[at + 1]);
    assert(hi < 16 && lo < 16 ==> (hi << 4) | lo == hi * 16 + lo) by (bit_vector);
    (hi << 4) | lo
}

/// A device found under `/sys/bus/pci/devices`: its attributes are files in its directory.
#[derive(Debug, Clone)]
pub struct SysBusProvider {
    path: Vec<u8>,
}

impl SysBusProvider {
    /// A provider for the device directory at `path`.
    pub fn new(path: Vec<u8>) -> (r: Self)
        ensures
            r.path() == path@,
    {
        SysBusProvider { path }
    }

    pub closed spec fn path(&self) -> Seq<u8> {
        self.path@
    }

    /// The device directory.
    pub fn dir(&self) -> (r: &[u8])
        ensures
            r@ == self.path(),
    {
        self.path.as_slice()
    }

    /// `[class, subclass]` from the content of the `class` file, `0xCCSSPP`.
    pub fn decode_class(text: &[u8]) -> (r: Result<ArrayVec<u8, 32>, PciBackendError>)
        ensures
            r is Err <==> text@.len() < 6,
            r is Err ==> r matches Err(PciBackendError::InvalidDevice),
            r matches Ok(c) ==> c@ == seq![hex_pair(text@[2], text@[3]), hex_pair(text@[4], text@[5])],
    {
        if text.len() < 6 {
            return Err(PciBackendError::InvalidDevice);
        }
        let mut c: ArrayVec<u8, 32> = ArrayVec::new();
        c.push(pair_at(text, 2));
        c.push(pair_at(text, 4));
        Ok(c)
    }

    /// A 16-bit identifier (vendor, device, subsystem vendor, subsystem device) from the
    /// content of its file, `0xHHHH`.
    pub fn decode_word(text: &[u8]) -> (r: Result<u16, PciBackendError>)
        ensures
            r == sysfs_word(text@),
    {
        if text.len() < 6 {
            return Err(PciBackendError::InvalidDevice);
        }
        let hi = pair_at(text, 2);
        let lo = pair_at(text, 4);
        assert(((hi as u16) << 8) | (lo as u16) == hi * 256 + lo) by (bit_vector);
        Ok(((hi as u16) << 8) | (lo as u16))
    }

    /// The revision from the content of the `revision` file, `0xHH`.
    pub fn decode_byte(text: &[u8]) -> (r: Result<u8, PciBackendError>)
        ensures
            r == sysfs_byte(text@),
    {
        if text.len() < 4 {
            return Err(PciBackendError::InvalidDevice);
        }
        Ok(pair_at(text, 2))
    }
}

/// The value of a sysfs attribute file, by the attribute's kind.
#[derive(Debug)]
pub enum AttrValue {
    /// `[class, subclass]`.
    Class(ArrayVec<u8, 32>),
    /// A 16-bit identifier.
    Word(u16),
    /// The revision.
    Byte(u8),
}

/// Whether an attribute is a 16-bit identifier.
pub open spec fn is_word_attribute(attr: Attribute) -> bool {
    attr == Attribute::Vendor || attr == Attribute::Device || attr == Attribute::SubsystemVendor
        || attr == Attribute::SubsystemDevice
}

impl SysBusProvider {
    /// The value of attribute `attr` from the content of its file, decoded as that attribute
    /// is written.
    pub fn decode(attr: Attribute, text: &[u8]) -> (r: Result<AttrValue, PciBackendError>)
        ensures
            attr == Attribute::Class ==> (r is Err <==> text@.len() < 6),
            is_word_attribute(attr) ==> (r is Err <==> text@.len() < 6),
            attr == Attribute::Revision ==> (r is Err <==> text@.len() < 4),
            r is Err ==> r matches Err(PciBackendError::InvalidDevice),
            attr == Attribute::Class ==> (r matches Ok(v) ==> v matches AttrValue::Class(c) && c@
                == seq![hex_pair(text@[2], text@[3]), hex_pair(text@[4], text@[5])]),
            is_word_attribute(attr) ==> (sysfs_word(text@) matches Ok(w) ==> r matches Ok(v) && v
                == AttrValue::Word(w)),
            attr == Attribute::Revision ==> (sysfs_byte(text@) matches Ok(b) ==> r matches Ok(v)
                && v == AttrValue::Byte(b)),
    {
        match attr {
            Attribute::Class => match Self::decode_class(text) {
                Ok(c) => Ok(AttrValue::Class(c)),
                Err(e) => Err(e),
            },
            Attribute::Revision => match Self::decode_byte(text) {
                Ok(b) => Ok(AttrValue::Byte(b)),
                Err(e) => Err(e),
            },
            _ => match Self::decode_word(text) {
                Ok(w) => Ok(AttrValue::Word(w)),
                Err(e) => Err(e),
            },
        }
    }
}

/// Whether a name has the shape `DDDD:BB:DD.F`.
pub open spec fn address_ok(s: Seq<u8>) -> bool {
    &&& s.len() == 12
    &&& all_hex_digits(s.subrange(0, 4))
    &&& s[4] == 0x3a
    &&& all_hex_digits(s.subrange(5, 7))
    &&& s[7] == 0x3a
    &&& all_hex_digits(s.subrange(8, 10))
    &&& s[10] == 0x2e
    &&& all_hex_digits(s.subrange(11, 12))
}

/// Reads one field of an address text, `start..start + n`.
fn address_field(name: &[u8], start: usize, n: usize) -> (r: Option<u64>)
    requires
        start + n <= name@.len(),
        n <= 4,
    ensures
        r is Some <==> all_hex_digits(name@.subrange(start as int, start + n)),
        r matches Some(v) ==> v == hex_value(name@.subrange(start as int, start + n)) && v < 0x10000,
        r matches Some(v) ==> (n == 2 ==> v < 0x100) && (n == 1 ==> v < 0x10),
{
    assert(name@.skip(start as int).take(n as int) == name@.subrange(start as int, start + n));
    proof {
        crate::parse::lemma_pow16_monotone(n as nat, 4);
        reveal_with_fuel(crate::parse::pow16, 5);
    }
    match hex_field_at(name, start, n) {
        Ok(v) => Some(v),
        Err(_) => None,
    }
}

/// Reads a sysfs device directory's name, `DDDD:BB:DD.F`: domain, bus, device and function,
/// in hex.
pub fn parse_device(name: &[u8]) -> (r: Result<PciDevice<NoProvider>, PciBackendError>)
    ensures
        r is Ok <==> address_ok(name@),
        r matches Ok(d) ==> d.domain == hex_value(name@.subrange(0, 4)) && d.bus == hex_value(
            name@.subrange(5, 7),
        ) && d.device == hex_value(name@.subrange(8, 10)) && d.function == hex_value(
            name@.subrange(11, 12),
        ),
        r is Err ==> r matches Err(PciBackendError::InvalidDevice),
{
    if name.len() != 12 || name[4] != 0x3a || name[7] != 0x3a || name[10] != 0x2e {
        return Err(PciBackendError::InvalidDevice);
    }
    let domain = match address_field(name, 0, 4) {
        Some(v) => v,
        None => {
            return Err(PciBackendError::InvalidDevice);
        },
    };
    let bus = match address_field(name, 5, 2) {
        Some(v) => v,
        None => {
            return Err(PciBackendError::InvalidDevice);
        },
    };
    let device = match address_field(name, 8, 2) {
        Some(v) => v,
        None => {
            return Err(PciBackendError::InvalidDevice);
        },
    };
    let function = match address_field(name, 11, 1) {
        Some(v) => v,
        None => {
            return Err(PciBackendError::InvalidDevice);
        },
    };
    Ok(PciDevice::new(domain as u16, bus as u8, device as u8, function as u8))
}

/// Formatting an address and reading it back gives the same four numbers: the text that
/// `PciDevice::address_text` writes is one that `parse_device` accepts, and its fields read as
/// the domain, bus, device and function that were written. The function must fit its one digit.
pub proof fn lemma_address_round_trip(domain: u16, bus: u8, device: u8, function: u8)
    requires
        function < 16,
    ensures
        address_ok(address_text_of(domain, bus, device, function)),
        hex_value(address_text_of(domain, bus, device, function).subrange(0, 4)) == domain,
        hex_value(address_text_of(domain, bus, device, function).subrange(5, 7)) == bus,
        hex_value(address_text_of(domain, bus, device, function).subrange(8, 10)) == device,
        hex_value(address_text_of(domain, bus, device, function).subrange(11, 12)) == function,
{
    let t = address_text_of(domain, bus, device, function);
    lemma_hex_text_value(domain as nat, 4);
    lemma_hex_text_value(bus as nat, 2);
    lemma_hex_text_value(device as nat, 2);
    lemma_hex_text_value(function as nat, 1);
    reveal_with_fuel(pow16, 5);
    assert(pow16(4) == 0x10000 && pow16(2) == 0x100 && pow16(1) == 0x10);
    lemma_small_mod(domain as nat, 0x10000);
    lemma_small_mod(bus as nat, 0x100);
    lemma_small_mod(device as nat, 0x100);
    lemma_small_mod(function as nat, 0x10);
    assert(t.subrange(0, 4) == hex_text(domain as nat, 4));
    assert(t.subrange(5, 7) == hex_text(bus as nat, 2));
    assert(t.subrange(8, 10) == hex_text(device as nat, 2));
    assert(t.subrange(11, 12) == hex_text(function as nat, 1));
}

/// The device that a sysfs directory entry stands for, with `path` as its directory. An entry
/// whose name is not an address is `InvalidDevice`; the walk yields that and goes on with the
/// next entry.
pub fn device_for_entry(name: &[u8], path: Vec<u8>) -> (r: Result<
    PciDevice<SysBusProvider>,
    PciBackendError,
>)
    ensures
        r is Err <==> !address_ok(name@),
        r is Err ==> r matches Err(PciBackendError::InvalidDevice),
        r matches Ok(d) ==> d.domain == hex_value(name@.subrange(0, 4)) && d.bus == hex_value(
            name@.subrange(5, 7),
        ) && d.device == hex_value(name@.subrange(8, 10)) && d.function == hex_value(
            name@.subrange(11, 12),
        ) && d.provider.path() == path@,
{
    match parse_device(name) {
        Ok(d) => Ok(d.with_provider(SysBusProvider::new(path))),
        Err(e) => Err(e),
    }
}

} // verus!
