//! Connecting to the backend over a Unix sequential-packet socket.

use vstd::prelude::*;

use crate::client::Timeout;
use crate::error::{error_of, invalid_input, os_error, viewed, ErrorKind, IoError, IoErrorView};

verus! {

/// The address family of Unix sockets.
pub const AF_UNIX: u16 = 1;

/// How many bytes the path of a Unix socket address has room for.
pub const SUN_PATH_LEN: usize = 108;

/// How many bytes the family of a socket address takes.
pub const SA_FAMILY_LEN: usize = 2;

/// The address of a Unix socket.
#[derive(Debug, Clone, Copy)]
pub struct UnixAddress {
    /// The address family.
    pub family: u16,
    /// The path, padded with zeros.
    pub path: [u8; SUN_PATH_LEN],
    /// How many bytes of the address are in use: the family, the path and the
    /// zero after it.
    pub len: u32,
}

/// The mathematical content of a [`UnixAddress`].
pub struct UnixAddressView {
    pub family: u16,
    pub path: Seq<u8>,
    pub len: u32,
}

impl View for UnixAddress {
    type V = UnixAddressView;

    open spec fn view(&self) -> UnixAddressView {
        UnixAddressView { family: self.family, path: self.path@, len: self.len }
    }
}

/// `path`, padded with zeros to the room that an address has.
pub open spec fn padded_path(path: Seq<u8>) -> Seq<u8> {
    Seq::new(
        SUN_PATH_LEN as nat,
        |i: int|
            if i < path.len() {
                path[i]
            } else {
                0
            },
    )
}

/// The address of the socket at `path`. A path must leave room for a zero.
pub open spec fn address_outcome(path: Seq<u8>) -> Result<UnixAddressView, IoErrorView> {
    if path.len() >= SUN_PATH_LEN {
        Err(error_of(ErrorKind::InvalidInput, "Unix socket path is too long"@))
    } else {
        Ok(
            UnixAddressView {
                family: AF_UNIX,
                path: padded_path(path),
                len: (SA_FAMILY_LEN + path.len() + 1) as u32,
            },
        )
    }
}

/// The address of the socket at `path`.
pub fn sockaddr_un(path: &[u8]) -> (result: Result<UnixAddress, IoError>)
    ensures
        viewed(result) == address_outcome(path@),
{
    if path.len() >= SUN_PATH_LEN {
        return Err(invalid_input("Unix socket path is too long"));
    }
    let mut target: [u8; SUN_PATH_LEN] = [0;SUN_PATH_LEN];
    let mut i: usize = 0;
    while i < path.len()
        invariant
            i <= path.len() < SUN_PATH_LEN,
            target@ =~= padded_path(path@.take(i as int)),
        decreases path.len() - i,
    {
        target[i] = path[i];
        i = i + 1;
    }
    assert(path@.take(i as int) =~= path@);
    Ok(
        UnixAddress {
            family: AF_UNIX,
            path: target,
            len: (SA_FAMILY_LEN + path.len() + 1) as u32,
        },
    )
}

/// A socket option that limits how long a call on the socket may block.
#[derive(Debug, Clone, Copy, PartialEq, Eq, Structural)]
pub enum SocketOption {
    ReceiveTimeout,
    SendTimeout,
}

/// A span of time as the system takes it.
#[derive(Debug, Clone, Copy, PartialEq, Eq, Structural)]
pub struct TimeVal {
    pub tv_sec: i64,
    pub tv_usec: i64,
}

impl View for TimeVal {
    type V = TimeVal;

    open spec fn view(&self) -> TimeVal {
        *self
    }
}

/// The timeout as the system takes it.
pub open spec fn timeval_outcome(timeout: Timeout) -> Result<TimeVal, IoErrorView> {
    if timeout.secs > i64::MAX {
        Err(error_of(ErrorKind::InvalidInput, "backend timeout does not fit in libc::time_t"@))
    } else {
        Ok(TimeVal { tv_sec: timeout.secs as i64, tv_usec: timeout.subsec_micros as i64 })
    }
}

/// The value that [`SocketOption`]s are set to for a timeout.
pub fn set_socket_timeout(timeout: Timeout) -> (result: Result<TimeVal, IoError>)
    ensures
        viewed(result) == timeval_outcome(timeout),
{
    if timeout.secs > i64::MAX as u64 {
        return Err(invalid_input("backend timeout does not fit in libc::time_t"));
    }
    Ok(TimeVal { tv_sec: timeout.secs as i64, tv_usec: timeout.subsec_micros as i64 })
}

/// What to do next to connect.
#[derive(Debug, Clone, Copy)]
pub enum ConnectStep {
    /// Open a sequential-packet Unix socket that is closed on `exec`.
    Open,
    /// Connect the socket `fd` to `address`.
    Connect { fd: i32, address: UnixAddress },
    /// Set `option` of the socket `fd` to `value`.
    SetTimeout { fd: i32, option: SocketOption, value: TimeVal },
    /// Nothing: the socket `fd` is connected.
    Connected { fd: i32 },
}

/// The mathematical content of a [`ConnectStep`].
pub enum ConnectStepView {
    Open,
    Connect { fd: i32, address: UnixAddressView },
    SetTimeout { fd: i32, option: SocketOption, value: TimeVal },
    Connected { fd: i32 },
}

impl View for ConnectStep {
    type V = ConnectStepView;

    open spec fn view(&self) -> ConnectStepView {
        match self {
            ConnectStep::Open => ConnectStepView::Open,
            ConnectStep::Connect { fd, address } => ConnectStepView::Connect {
                fd: *fd,
                address: address@,
            },
            ConnectStep::SetTimeout { fd, option, value } => ConnectStepView::SetTimeout {
                fd: *fd,
                option: *option,
                value: *value,
            },
            ConnectStep::Connected { fd } => ConnectStepView::Connected { fd: *fd },
        }
    }
}

/// A sequential-packet socket on its way to the backend.
#[derive(Debug)]
pub struct Seqpacket {
    path: Vec<u8>,
    timeout: Timeout,
    step: ConnectStep,
}

/// The mathematical content of a [`Seqpacket`].
pub struct SeqpacketView {
    pub path: Seq<u8>,
    pub timeout: Timeout,
    pub step: ConnectStepView,
}

impl View for Seqpacket {
    type V = SeqpacketView;

    closed spec fn view(&self) -> SeqpacketView {
        SeqpacketView { path: self.path@, timeout: self.timeout, step: self.step@ }
    }
}

/// A socket that is to connect to `path`, before the first step.
pub open spec fn new_seqpacket(path: Seq<u8>, timeout: Timeout) -> SeqpacketView {
    SeqpacketView { path, timeout, step: ConnectStepView::Open }
}

/// The step that follows `step` once it has been answered `reply`, if it has
/// not failed.
pub open spec fn connect_step_outcome(
    path: Seq<u8>,
    timeout: Timeout,
    step: ConnectStepView,
    reply: i32,
) -> Result<ConnectStepView, IoErrorView> {
    match step {
        ConnectStepView::Open => match address_outcome(path) {
            Err(error) => Err(error),
            Ok(address) => Ok(ConnectStepView::Connect { fd: reply, address }),
        },
        ConnectStepView::Connect { fd, address } => match timeval_outcome(timeout) {
            Err(error) => Err(error),
            Ok(value) => Ok(
                ConnectStepView::SetTimeout { fd, option: SocketOption::ReceiveTimeout, value },
            ),
        },
        ConnectStepView::SetTimeout { fd, option: SocketOption::ReceiveTimeout, value } => Ok(
            ConnectStepView::SetTimeout { fd, option: SocketOption::SendTimeout, value },
        ),
        ConnectStepView::SetTimeout { fd, option: SocketOption::SendTimeout, value } => Ok(
            ConnectStepView::Connected { fd },
        ),
        ConnectStepView::Connected { fd } => Ok(ConnectStepView::Connected { fd }),
    }
}

/// What becomes of a socket once its step has been answered `reply`, with
/// the error number `errno` after it.
pub open spec fn seqpacket_outcome(
    socket: SeqpacketView,
    reply: i32,
    errno: i32,
) -> Result<SeqpacketView, IoErrorView> {
    if reply < 0 {
        Err(os_error(errno))
    } else {
        match connect_step_outcome(socket.path, socket.timeout, socket.step, reply) {
            Err(error) => Err(error),
            Ok(step) => Ok(SeqpacketView { step, ..socket }),
        }
    }
}

/// What becomes of a socket once its steps have been answered, one after the
/// other, by `replies`, each with the error number after it.
pub open spec fn seqpacket_run(socket: SeqpacketView, replies: Seq<(i32, i32)>) -> Result<
    SeqpacketView,
    IoErrorView,
>
    decreases replies.len(),
{
    if replies.len() == 0 {
        Ok(socket)
    } else {
        match seqpacket_outcome(socket, replies[0].0, replies[0].1) {
            Err(error) => Err(error),
            Ok(next) => seqpacket_run(next, replies.drop_first()),
        }
    }
}

impl Seqpacket {
    /// Starts to connect to the socket at `path`.
    pub fn connect(path: Vec<u8>, timeout: Timeout) -> (socket: Seqpacket)
        ensures
            socket@ == (SeqpacketView { path: path@, timeout, step: ConnectStepView::Open }),
            socket@ == new_seqpacket(path@, timeout),
    {
        Seqpacket { path, timeout, step: ConnectStep::Open }
    }

    /// What to do next.
    pub fn step(&self) -> (step: ConnectStep)
        ensures
            step@ == self@.step,
    {
        self.step
    }

    /// Goes on once the step has been answered `reply`, with the error number
    /// `errno` after it. A negative reply ends the connection.
    pub fn advance(self, reply: i32, errno: i32) -> (result: Result<Seqpacket, IoError>)
        ensures
            viewed(result) == seqpacket_outcome(self@, reply, errno),
    {
        if reply < 0 {
            return Err(IoError::from_raw_os_error(errno));
        }
        let step = match self.step {
            ConnectStep::Open => match sockaddr_un(self.path.as_slice()) {
                Ok(address) => ConnectStep::Connect { fd: reply, address },
                Err(error) => return Err(error),
            },
            ConnectStep::Connect { fd, address: _ } => match set_socket_timeout(self.timeout) {
                Ok(value) => ConnectStep::SetTimeout {
                    fd,
                    option: SocketOption::ReceiveTimeout,
                    value,
                },
                Err(error) => return Err(error),
            },
            ConnectStep::SetTimeout { fd, option, value } => match option {
                SocketOption::ReceiveTimeout => ConnectStep::SetTimeout {
                    fd,
                    option: SocketOption::SendTimeout,
                    value,
                },
                SocketOption::SendTimeout => ConnectStep::Connected { fd },
            },
            ConnectStep::Connected { fd } => ConnectStep::Connected { fd },
        };
        Ok(Seqpacket { path: self.path, timeout: self.timeout, step })
    }
}

} // verus!
