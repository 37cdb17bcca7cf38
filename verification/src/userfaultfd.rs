//! Page faults handled in user space: the requests to the kernel and what its
//! answers mean.

use vstd::endian::{endianness, Endian};
use vstd::prelude::*;
use vstd::string::StringExecFns;

use crate::error::{error_of, invalid_data, invalid_input, viewed, ErrorKind, IoError, IoErrorView};
use crate::os::{os_outcome, os_result};
use crate::text::{
    decimal, prefixed_hex, push_decimal, push_prefixed_hex, push_signed_decimal, signed_decimal,
};

verus! {

/// The version of the interface.
pub const UFFD_API: u64 = 0xaa;

/// The request code of the handshake.
pub const UFFDIO_API: u64 = 0xc018_aa3f;

/// The request code that registers a range.
pub const UFFDIO_REGISTER: u64 = 0xc020_aa00;

/// The request code that wakes the threads waiting on a range.
pub const UFFDIO_WAKE: u64 = 0x8010_aa02;

/// The request code that fills a range with zeros.
pub const UFFDIO_ZEROPAGE: u64 = 0xc020_aa04;

/// The mode that reports faults on missing pages.
pub const UFFDIO_REGISTER_MODE_MISSING: u64 = 1;

/// The event that reports a page fault.
pub const UFFD_EVENT_PAGEFAULT: u8 = 0x12;

/// The size of an event message.
pub const UFFD_MSG_SIZE: usize = 32;

/// The argument of [`UFFDIO_API`].
#[derive(Debug, Clone, Copy, PartialEq, Eq, Structural)]
pub struct UffdioApi {
    pub api: u64,
    pub features: u64,
    pub ioctls: u64,
}

/// The argument of [`UFFDIO_WAKE`], and the range of other requests.
#[derive(Debug, Clone, Copy, PartialEq, Eq, Structural)]
pub struct UffdioRange {
    pub start: u64,
    pub len: u64,
}

/// The argument of [`UFFDIO_REGISTER`].
#[derive(Debug, Clone, Copy, PartialEq, Eq, Structural)]
pub struct UffdioRegister {
    pub range: UffdioRange,
    pub mode: u64,
    pub ioctls: u64,
}

impl View for UffdioRegister {
    type V = UffdioRegister;

    open spec fn view(&self) -> UffdioRegister {
        *self
    }
}

/// The argument of [`UFFDIO_ZEROPAGE`].
#[derive(Debug, Clone, Copy, PartialEq, Eq, Structural)]
pub struct UffdioZeropage {
    pub range: UffdioRange,
    pub mode: u64,
    pub zeropage: i64,
}

/// The number that `bytes` spell, least significant byte first.
pub open spec fn little_endian_value(bytes: Seq<u8>) -> nat
    decreases bytes.len(),
{
    if bytes.len() == 0 {
        0
    } else {
        bytes[0] as nat + 256 * little_endian_value(bytes.drop_first())
    }
}

/// The number that `bytes` spell in the byte order of the machine.
pub open spec fn native_value(bytes: Seq<u8>) -> nat {
    match endianness() {
        Endian::Little => little_endian_value(bytes),
        Endian::Big => little_endian_value(bytes.reverse()),
    }
}

/// The `count` low bytes of `n`, least significant byte first.
pub open spec fn little_endian_bytes(n: nat, count: nat) -> Seq<u8>
    decreases count,
{
    if count == 0 {
        seq![]
    } else {
        seq![(n % 256) as u8] + little_endian_bytes(n / 256, (count - 1) as nat)
    }
}

/// The bytes of `value` in the byte order of the machine.
pub open spec fn native_bytes(value: u64) -> Seq<u8> {
    match endianness() {
        Endian::Little => little_endian_bytes(value as nat, 8),
        Endian::Big => little_endian_bytes(value as nat, 8).reverse(),
    }
}

/// `u64::from_ne_bytes` reads its bytes in the byte order of the machine.
#[verifier::external_body]
fn from_ne_bytes(bytes: [u8; 8]) -> (value: u64)
    ensures
        value == native_value(bytes@),
{
    u64::from_ne_bytes(bytes)
}

/// The address of the fault that a message reports. It stands in bytes 16 to
/// 23, in the byte order of the machine.
pub open spec fn pagefault_outcome(message: Seq<u8>) -> Result<u64, IoErrorView> {
    if message[0] != UFFD_EVENT_PAGEFAULT {
        Err(
            error_of(
                ErrorKind::InvalidData,
                "unexpected userfaultfd event "@ + prefixed_hex(message[0] as nat),
            ),
        )
    } else {
        Ok(native_value(message.subrange(16, 24)) as u64)
    }
}

/// The address of the fault that a message reports.
pub fn parse_pagefault_event(message: &[u8; UFFD_MSG_SIZE]) -> (result: Result<u64, IoError>)
    ensures
        viewed(result) == pagefault_outcome(message@),
{
    if message[0] != UFFD_EVENT_PAGEFAULT {
        let mut text = "unexpected userfaultfd event ".to_owned();
        push_prefixed_hex(&mut text, message[0] as u64);
        return Err(invalid_data(text.as_str()));
    }
    let bytes: [u8; 8] = [
        message[16],
        message[17],
        message[18],
        message[19],
        message[20],
        message[21],
        message[22],
        message[23],
    ];
    assert(bytes@ =~= message@.subrange(16, 24));
    Ok(from_ne_bytes(bytes))
}

/// What to do next to set up a descriptor.
#[derive(Debug, Clone, Copy, PartialEq, Eq, Structural)]
pub enum UffdStep {
    /// Create a descriptor that does not block and is closed on `exec`.
    Create,
    /// Hand `request` to the descriptor `fd` with [`UFFDIO_API`].
    Handshake { fd: i32, request: UffdioApi },
    /// Nothing: the descriptor `fd` is ready.
    Ready { fd: i32 },
}

impl View for UffdStep {
    type V = UffdStep;

    open spec fn view(&self) -> UffdStep {
        *self
    }
}

/// A descriptor that is being set up for `features`.
#[derive(Debug, Clone, Copy, PartialEq, Eq, Structural)]
pub struct UffdSetup {
    pub features: u64,
    pub step: UffdStep,
}

impl View for UffdSetup {
    type V = UffdSetup;

    open spec fn view(&self) -> UffdSetup {
        *self
    }
}

/// What becomes of a setup once its step has been answered `reply`, with the
/// error number `errno` after it.
pub open spec fn setup_outcome(setup: UffdSetup, reply: i64, errno: i32) -> Result<
    UffdSetup,
    IoErrorView,
> {
    match os_outcome(reply, errno) {
        Err(error) => Err(error),
        Ok(value) => Ok(
            UffdSetup {
                features: setup.features,
                step: match setup.step {
                    UffdStep::Create => UffdStep::Handshake {
                        fd: value as i32,
                        request: UffdioApi { api: UFFD_API, features: setup.features, ioctls: 0 },
                    },
                    UffdStep::Handshake { fd, request } => UffdStep::Ready { fd },
                    UffdStep::Ready { fd } => UffdStep::Ready { fd },
                },
            },
        ),
    }
}

impl UffdSetup {
    /// Goes on once the step has been answered `reply`, with the error number
    /// `errno` after it. A negative reply ends the setup.
    pub fn advance(self, reply: i64, errno: i32) -> (result: Result<UffdSetup, IoError>)
        ensures
            viewed(result) == setup_outcome(self, reply, errno),
    {
        let value: i64 = match os_result(reply, errno) {
            Ok(value) => value,
            Err(error) => return Err(error),
        };
        let step = match self.step {
            UffdStep::Create => UffdStep::Handshake {
                fd: value as i32,
                request: UffdioApi { api: UFFD_API, features: self.features, ioctls: 0 },
            },
            UffdStep::Handshake { fd, request: _ } => UffdStep::Ready { fd },
            UffdStep::Ready { fd } => UffdStep::Ready { fd },
        };
        Ok(UffdSetup { features: self.features, step })
    }
}

/// A request that reports the faults on missing pages of the `len` bytes at
/// `start`.
pub open spec fn register_outcome(start: u64, len: u64) -> Result<UffdioRegister, IoErrorView> {
    if len == 0 {
        Err(error_of(ErrorKind::InvalidInput, "userfaultfd range must not be empty"@))
    } else {
        Ok(
            UffdioRegister {
                range: UffdioRange { start, len },
                mode: UFFDIO_REGISTER_MODE_MISSING,
                ioctls: 0,
            },
        )
    }
}

/// A setup for `features` that has not begun.
pub open spec fn new_setup(features: u64) -> UffdSetup {
    UffdSetup { features, step: UffdStep::Create }
}

/// A request that wakes the threads waiting on the `len` bytes at `start`.
pub open spec fn wake_request(start: u64, len: u64) -> UffdioRange {
    UffdioRange { start, len }
}

/// A request that fills the `len` bytes at `start` with zeros.
pub open spec fn zero_request(start: u64, len: u64) -> UffdioZeropage {
    UffdioZeropage { range: UffdioRange { start, len }, mode: 0, zeropage: 0 }
}

/// What a read of `count` bytes into `message` means, with the error number
/// `errno` after it.
pub open spec fn read_outcome(count: i64, errno: i32, message: Seq<u8>) -> Result<
    u64,
    IoErrorView,
> {
    match os_outcome(count, errno) {
        Err(error) => Err(error),
        Ok(count) => if count != UFFD_MSG_SIZE {
            Err(
                error_of(
                    ErrorKind::UnexpectedEof,
                    "short userfaultfd message: "@ + signed_decimal(count as int) + " bytes"@,
                ),
            )
        } else {
            pagefault_outcome(message)
        },
    }
}

/// What a request to zero `len` bytes means once it has been answered `reply`,
/// with the error number `errno` after it, and says that `zeropage` bytes have
/// been zeroed. The kernel counts in signed numbers.
pub open spec fn zero_outcome(reply: i32, errno: i32, zeropage: i64, len: u64) -> Result<
    (),
    IoErrorView,
> {
    match os_outcome(reply as i64, errno) {
        Err(error) => Err(error),
        Ok(_) => if zeropage != len as i64 {
            Err(
                error_of(
                    ErrorKind::WriteZero,
                    "userfaultfd zeroed "@ + signed_decimal(zeropage as int) + " bytes, expected "@
                        + decimal(len as nat),
                ),
            )
        } else {
            Ok(())
        },
    }
}

/// A descriptor through which page faults are handled.
#[derive(Debug, Clone, Copy, PartialEq, Eq, Structural)]
pub struct Userfaultfd {
    pub fd: i32,
}

impl Userfaultfd {
    /// Starts to set up a descriptor for `features`.
    pub fn new(features: u64) -> (setup: UffdSetup)
        ensures
            setup == (UffdSetup { features, step: UffdStep::Create }),
            setup == new_setup(features),
    {
        UffdSetup { features, step: UffdStep::Create }
    }

    /// The descriptor.
    pub fn as_raw_fd(&self) -> (fd: i32)
        ensures
            fd == self.fd,
    {
        self.fd
    }

    /// The request, for [`UFFDIO_REGISTER`], that reports the faults on missing
    /// pages of the `len` bytes at `start`.
    pub fn register_missing(&self, start: u64, len: u64) -> (result: Result<
        UffdioRegister,
        IoError,
    >)
        ensures
            viewed(result) == register_outcome(start, len),
    {
        if len == 0 {
            return Err(invalid_input("userfaultfd range must not be empty"));
        }
        Ok(
            UffdioRegister {
                range: UffdioRange { start, len },
                mode: UFFDIO_REGISTER_MODE_MISSING,
                ioctls: 0,
            },
        )
    }

    /// The address of the fault that was read: `count` is what the read
    /// returned, `errno` the error number after it and `message` what it filled.
    pub fn read_pagefault(
        &self,
        count: i64,
        errno: i32,
        message: &[u8; UFFD_MSG_SIZE],
    ) -> (result: Result<u64, IoError>)
        ensures
            viewed(result) == read_outcome(count, errno, message@),
    {
        let count: i64 = match os_result(count, errno) {
            Ok(count) => count,
            Err(error) => return Err(error),
        };
        if count != UFFD_MSG_SIZE as i64 {
            let mut text = "short userfaultfd message: ".to_owned();
            push_signed_decimal(&mut text, count);
            text.append(" bytes");
            return Err(IoError::new(ErrorKind::UnexpectedEof, text));
        }
        parse_pagefault_event(message)
    }

    /// The request, for [`UFFDIO_WAKE`], that wakes the threads waiting on the
    /// `len` bytes at `start`.
    pub fn wake(&self, start: u64, len: u64) -> (request: UffdioRange)
        ensures
            request == (UffdioRange { start, len }),
            request == wake_request(start, len),
    {
        UffdioRange { start, len }
    }

    /// The request, for [`UFFDIO_ZEROPAGE`], that fills the `len` bytes at
    /// `start` with zeros.
    pub fn zero(&self, start: u64, len: u64) -> (request: UffdioZeropage)
        ensures
            request == (UffdioZeropage {
                range: UffdioRange { start, len },
                mode: 0,
                zeropage: 0,
            }),
            request == zero_request(start, len),
    {
        UffdioZeropage { range: UffdioRange { start, len }, mode: 0, zeropage: 0 }
    }

    /// Whether a request to zero `len` bytes has done so: `reply` is what it
    /// was answered, `errno` the error number after it and `zeropage` how many
    /// bytes the kernel says it has zeroed.
    pub fn zeroed(&self, reply: i32, errno: i32, zeropage: i64, len: u64) -> (result: Result<
        (),
        IoError,
    >)
        ensures
            viewed(result) == zero_outcome(reply, errno, zeropage, len),
    {
        match os_result(reply as i64, errno) {
            Ok(_) => {},
            Err(error) => return Err(error),
        }
        if zeropage != len as i64 {
            let mut text = "userfaultfd zeroed ".to_owned();
            push_signed_decimal(&mut text, zeropage);
            text.append(" bytes, expected ");
            push_decimal(&mut text, len);
            return Err(IoError::new(ErrorKind::WriteZero, text));
        }
        Ok(())
    }
}

} // verus!
