use vstd::prelude::*;
use crate::display::DisplayBytes;

verus! {

/// Why the account of a user id could not be looked up.
#[derive(Debug, Clone, Copy, PartialEq, Eq, Structural)]
pub enum PwuIdErr {
    /// No account has this uid.
    NotFound(u32),
    /// A signal was caught during the lookup.
    SignalCaught,
    /// An I/O error occurred.
    IOErr,
    /// The process has no file descriptor left.
    InsufficientProcessFds,
    /// The system has no file descriptor left.
    InsufficientSystemFds,
    /// The buffer for the record's strings was too small.
    BufferTooSmall,
}

/// The platform's values of the error codes that a lookup can return.
#[derive(Debug, Clone, Copy)]
pub struct ErrorCodes {
    pub eintr: i32,
    pub eio: i32,
    pub emfile: i32,
    pub enfile: i32,
    pub erange: i32,
}

/// The error for a failed lookup of `uid` that returned `code`.
pub open spec fn lookup_error(code: i32, uid: u32, codes: ErrorCodes) -> PwuIdErr {
    if code == codes.eintr {
        PwuIdErr::SignalCaught
    } else if code == codes.eio {
        PwuIdErr::IOErr
    } else if code == codes.emfile {
        PwuIdErr::InsufficientProcessFds
    } else if code == codes.enfile {
        PwuIdErr::InsufficientSystemFds
    } else if code == codes.erange {
        PwuIdErr::BufferTooSmall
    } else {
        PwuIdErr::NotFound(uid)
    }
}

impl PwuIdErr {
    /// The error for a failed lookup of `uid` that returned `code`; a code with no kind of its
    /// own means the uid was not found.
    pub fn from_code(code: i32, uid: u32, codes: &ErrorCodes) -> (r: PwuIdErr)
        ensures
            r == lookup_error(code, uid, *codes),
    {
        if code == codes.eintr {
            PwuIdErr::SignalCaught
        } else if code == codes.eio {
            PwuIdErr::IOErr
        } else if code == codes.emfile {
            PwuIdErr::InsufficientProcessFds
        } else if code == codes.enfile {
            PwuIdErr::InsufficientSystemFds
        } else if code == codes.erange {
            PwuIdErr::BufferTooSmall
        } else {
            PwuIdErr::NotFound(uid)
        }
    }
}

/// How many times a lookup is tried before a buffer that stays too small is given up on.
pub const LOOKUP_ATTEMPTS: u32 = 32;

/// What to do after a failed lookup.
#[derive(Debug, Clone, Copy, PartialEq, Eq, Structural)]
pub enum LookupStep {
    /// Grow the buffer and try again.
    Retry,
    /// Grow the buffer, then report that it stayed too small: the attempts are used up.
    GrowThenGiveUp,
    /// Report this error, with the buffer as it is.
    GiveUp(PwuIdErr),
}

/// The decision after attempt number `attempt` (counting from 0) failed with `err`. A too-small
/// buffer is grown after every such failure, the last included; it is retried only while
/// attempts remain. Any other error is reported at once.
pub fn after_failed_attempt(attempt: u32, err: PwuIdErr) -> (r: LookupStep)
    ensures
        err == PwuIdErr::BufferTooSmall && attempt + 1 < LOOKUP_ATTEMPTS ==> r == LookupStep::Retry,
        err == PwuIdErr::BufferTooSmall && attempt + 1 >= LOOKUP_ATTEMPTS ==> r
            == LookupStep::GrowThenGiveUp,
        err != PwuIdErr::BufferTooSmall ==> r == LookupStep::GiveUp(err),
{
    match err {
        PwuIdErr::BufferTooSmall => {
            if attempt < LOOKUP_ATTEMPTS - 1 {
                LookupStep::Retry
            } else {
                LookupStep::GrowThenGiveUp
            }
        },
        other => LookupStep::GiveUp(other),
    }
}

/// The capacity that a growable lookup buffer asks for when it grows: double, and at least 128.
pub fn grown_capacity(capacity: usize) -> (r: usize)
    requires
        capacity <= usize::MAX / 2,
    ensures
        r == 2 * if capacity < 64 {
            64
        } else {
            capacity
        },
{
    if capacity < 64 {
        128
    } else {
        capacity * 2
    }
}

/// Whether `cut` is `field` up to, and without, its first null byte; all of `field` when it has
/// none.
pub open spec fn cut_at_null(field: Seq<u8>, cut: Seq<u8>) -> bool {
    &&& cut.len() <= field.len()
    &&& cut == field.take(cut.len() as int)
    &&& forall|j: int| 0 <= j < cut.len() ==> cut[j] != 0
    &&& cut.len() < field.len() ==> field[cut.len() as int] == 0
}

/// Cuts a field at its first null byte.
pub fn up_to_null(field: &[u8]) -> (r: Vec<u8>)
    ensures
        cut_at_null(field@, r@),
{
    let mut r: Vec<u8> = Vec::new();
    let mut i: usize = 0;
    while i < field.len()
        invariant
            i <= field@.len(),
            r@ == field@.take(i as int),
            forall|j: int| 0 <= j < i ==> field@[j] != 0,
        decreases field@.len() - i,
    {
        if field[i] == 0 {
            return r;
        }
        r.push(field[i]);
        assert(field@.take(i + 1) == field@.take(i as int).push(field@[i as int]));
        i = i + 1;
    }
    r
}

/// The identity of the machine and its operating system, each field cut at its first null.
#[derive(Debug, Clone)]
pub struct SystemName {
    pub sysname: Vec<u8>,
    pub nodename: Vec<u8>,
    pub release: Vec<u8>,
    pub version: Vec<u8>,
    pub machine: Vec<u8>,
    pub domainname: Vec<u8>,
}

impl SystemName {
    /// The identity from the six null-terminated fields that the system reports.
    pub fn from_fields(
        sysname: &[u8],
        nodename: &[u8],
        release: &[u8],
        version: &[u8],
        machine: &[u8],
        domainname: &[u8],
    ) -> (r: Self)
        ensures
            cut_at_null(sysname@, r.sysname@),
            cut_at_null(nodename@, r.nodename@),
            cut_at_null(release@, r.release@),
            cut_at_null(version@, r.version@),
            cut_at_null(machine@, r.machine@),
            cut_at_null(domainname@, r.domainname@),
    {
        SystemName {
            sysname: up_to_null(sysname),
            nodename: up_to_null(nodename),
            release: up_to_null(release),
            version: up_to_null(version),
            machine: up_to_null(machine),
            domainname: up_to_null(domainname),
        }
    }

    /// The identity when the system call failed: every field empty.
    pub fn empty() -> (r: Self)
        ensures
            r.sysname@.len() == 0 && r.nodename@.len() == 0 && r.release@.len() == 0
                && r.version@.len() == 0 && r.machine@.len() == 0 && r.domainname@.len() == 0,
    {
        SystemName {
            sysname: Vec::new(),
            nodename: Vec::new(),
            release: Vec::new(),
            version: Vec::new(),
            machine: Vec::new(),
            domainname: Vec::new(),
        }
    }

    pub fn system(&self) -> (r: DisplayBytes)
        ensures
            r.0@ == self.sysname@,
    {
        DisplayBytes::new(self.sysname.as_slice())
    }

    pub fn node(&self) -> (r: DisplayBytes)
        ensures
            r.0@ == self.nodename@,
    {
        DisplayBytes::new(self.nodename.as_slice())
    }

    pub fn release(&self) -> (r: DisplayBytes)
        ensures
            r.0@ == self.release@,
    {
        DisplayBytes::new(self.release.as_slice())
    }

    pub fn version(&self) -> (r: DisplayBytes)
        ensures
            r.0@ == self.version@,
    {
        DisplayBytes::new(self.version.as_slice())
    }

    pub fn machine(&self) -> (r: DisplayBytes)
        ensures
            r.0@ == self.machine@,
    {
        DisplayBytes::new(self.machine.as_slice())
    }

    pub fn domain(&self) -> (r: DisplayBytes)
        ensures
            r.0@ == self.domainname@,
    {
        DisplayBytes::new(self.domainname.as_slice())
    }
}

} // verus!
