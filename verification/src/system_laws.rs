//! What is asked of the system, call by call, and what its replies lead to.

use vstd::endian::{endianness, Endian};
use vstd::prelude::*;

use crate::client::Timeout;
use crate::error::{ErrorKind, IoErrorView};
use crate::laws::pagefault_message_reports_its_address;
use crate::region::{
    new_registration, registered_region, registration_outcome, LazyPmemRegion, RegionView,
    RegistrationStep, RegistrationView,
};
use crate::socket::{
    address_outcome, new_seqpacket, seqpacket_outcome, timeval_outcome, ConnectStep,
    ConnectStepView, SeqpacketView, SocketOption, TimeVal, UnixAddress, UnixAddressView,
};
use crate::text::{decimal, prefixed_hex, signed_decimal};
use crate::userfaultfd::{
    little_endian_value, native_bytes, native_value, new_setup, pagefault_outcome, read_outcome,
    register_outcome, setup_outcome, wake_request, zero_outcome, zero_request, UffdSetup, UffdStep,
    UffdioApi, UffdioRange, UffdioRegister, Userfaultfd,
};

verus! {

/// Addresses, steps and requests hold what their fields say.
pub proof fn steps_hold_their_fields(
    address: UnixAddress,
    step: ConnectStep,
    value: TimeVal,
    setup: UffdSetup,
    uffd_step: UffdStep,
    register: UffdioRegister,
    region: LazyPmemRegion,
)
    ensures
        address@ == (UnixAddressView {
            family: address.family,
            path: address.path@,
            len: address.len,
        }),
        match step {
            ConnectStep::Open => step@ == ConnectStepView::Open,
            ConnectStep::Connect { fd, address } => step@ == (ConnectStepView::Connect {
                fd,
                address: address@,
            }),
            ConnectStep::SetTimeout { fd, option, value } => step@ == (
            ConnectStepView::SetTimeout { fd, option, value }),
            ConnectStep::Connected { fd } => step@ == (ConnectStepView::Connected { fd }),
        },
        value@ == value,
        setup@ == setup,
        uffd_step@ == uffd_step,
        register@ == register,
        region@ == (RegionView {
            base_hva: region.base_hva,
            size: region.size,
            data_size: region.data_size,
            backend_id: region.backend_id@,
            socket: region.socket@,
            uffd: region.uffd,
        }),
{
}

/// What begins, begins with what it was given, and with its first step.
pub proof fn beginnings_keep_what_they_are_given(
    path: Seq<u8>,
    timeout: Timeout,
    features: u64,
    base_hva: u64,
    size: u64,
    data_size: u64,
    backend_id: Seq<char>,
)
    ensures
        new_seqpacket(path, timeout).path == path,
        new_seqpacket(path, timeout).timeout == timeout,
        new_seqpacket(path, timeout).step == ConnectStepView::Open,
        new_setup(features).features == features,
        new_setup(features).step == UffdStep::Create,
        ({
            let registration = new_registration(base_hva, size, data_size, backend_id, path);
            &&& registration.base_hva == base_hva
            &&& registration.size == size
            &&& registration.data_size == data_size
            &&& registration.backend_id == backend_id
            &&& registration.socket == path
            &&& registration.step matches RegistrationStep::Setup(setup)
            &&& setup.features == 0
            &&& setup.step == UffdStep::Create
        }),
{
}

/// The requests to wake and to zero a range are for exactly that range, all of
/// it, and claim nothing to be zeroed yet.
pub proof fn requests_cover_their_range(start: u64, len: u64)
    ensures
        wake_request(start, len).start == start,
        wake_request(start, len).len == len,
        zero_request(start, len).range.start == start,
        zero_request(start, len).range.len == len,
        zero_request(start, len).mode == 0,
        zero_request(start, len).zeropage == 0,
{
}

/// A path becomes an address exactly when a zero fits behind it. The address is
/// that of a Unix socket: the path, and zeros to its end.
pub proof fn address_is_the_path_and_zeros(path: Seq<u8>)
    ensures
        match address_outcome(path) {
            Ok(address) => {
                &&& path.len() < 108
                &&& address.family == 1
                &&& address.len == 2 + path.len() + 1
                &&& address.path.len() == 108
                &&& forall|i: int|
                    0 <= i < path.len() ==> #[trigger] address.path[i] == path[i]
                &&& forall|i: int| path.len() <= i < 108 ==> #[trigger] address.path[i] == 0
            },
            Err(error) => {
                &&& path.len() >= 108
                &&& error.kind == ErrorKind::InvalidInput
                &&& error.message == "Unix socket path is too long"@
            },
        },
{
}

/// The system takes every timeout whose seconds it can count, as it is.
pub proof fn timeout_is_taken_as_it_is(timeout: Timeout)
    ensures
        match timeval_outcome(timeout) {
            Ok(value) => value.tv_sec == timeout.secs && value.tv_usec == timeout.subsec_micros,
            Err(error) => {
                &&& timeout.secs > 0x7fff_ffff_ffff_ffff
                &&& error.kind == ErrorKind::InvalidInput
                &&& error.message == "backend timeout does not fit in libc::time_t"@
            },
        },
        timeout.secs <= 0x7fff_ffff_ffff_ffff ==> timeval_outcome(timeout) is Ok,
{
}

/// A call that fails ends a connection with its error, whichever call it is.
pub proof fn failed_call_is_the_error(socket: SeqpacketView, reply: i32, errno: i32)
    ensures
        reply < 0 ==> (seqpacket_outcome(socket, reply, errno) matches Err(error) && error.kind
            == ErrorKind::Os(errno) && error.message.len() == 0),
{
}

/// The socket that was opened is connected to the address of the path, and both
/// of its timeouts are set to the timeout of the connection, before it is used.
/// Only a path that is no address and a timeout that the system cannot take
/// stop a connection whose calls all succeed.
pub proof fn opened_socket_is_connected_and_timed(
    path: Seq<u8>,
    timeout: Timeout,
    opened: i32,
    connected: i32,
    received: i32,
    sent: i32,
    errno: i32,
)
    requires
        opened >= 0,
        connected >= 0,
        received >= 0,
        sent >= 0,
    ensures
        ({
            let open = SeqpacketView { path, timeout, step: ConnectStepView::Open };
            match seqpacket_outcome(open, opened, errno) {
                Err(error) => address_outcome(path) == Err::<UnixAddressView, IoErrorView>(error),
                Ok(connect) => {
                    &&& connect.path == path
                    &&& connect.timeout == timeout
                    &&& connect.step matches ConnectStepView::Connect { fd, address }
                    &&& fd == opened
                    &&& address_outcome(path) == Ok::<UnixAddressView, IoErrorView>(address)
                    &&& match seqpacket_outcome(connect, connected, errno) {
                        Err(error) => timeval_outcome(timeout) == Err::<TimeVal, IoErrorView>(
                            error,
                        ),
                        Ok(receive) => {
                            &&& receive.path == path
                            &&& receive.timeout == timeout
                            &&& receive.step matches ConnectStepView::SetTimeout {
                                fd,
                                option,
                                value,
                            }
                            &&& fd == opened
                            &&& option == SocketOption::ReceiveTimeout
                            &&& value.tv_sec == timeout.secs
                            &&& value.tv_usec == timeout.subsec_micros
                            &&& seqpacket_outcome(receive, received, errno) == Ok::<
                                SeqpacketView,
                                IoErrorView,
                            >(
                                SeqpacketView {
                                    path,
                                    timeout,
                                    step: ConnectStepView::SetTimeout {
                                        fd: opened,
                                        option: SocketOption::SendTimeout,
                                        value,
                                    },
                                },
                            )
                            &&& seqpacket_outcome(
                                SeqpacketView {
                                    path,
                                    timeout,
                                    step: ConnectStepView::SetTimeout {
                                        fd: opened,
                                        option: SocketOption::SendTimeout,
                                        value,
                                    },
                                },
                                sent,
                                errno,
                            ) == Ok::<SeqpacketView, IoErrorView>(
                                SeqpacketView {
                                    path,
                                    timeout,
                                    step: ConnectStepView::Connected { fd: opened },
                                },
                            )
                        },
                    }
                },
            }
        }),
{
}

/// No step of a connection changes which socket it is about, and a connection
/// that is made stays made.
pub proof fn connection_keeps_its_socket(socket: SeqpacketView, reply: i32, errno: i32)
    requires
        reply >= 0,
    ensures
        seqpacket_outcome(socket, reply, errno) matches Ok(next) ==> {
            let before = match socket.step {
                ConnectStepView::Open => reply,
                ConnectStepView::Connect { fd, address } => fd,
                ConnectStepView::SetTimeout { fd, option, value } => fd,
                ConnectStepView::Connected { fd } => fd,
            };
            &&& next.path == socket.path
            &&& next.timeout == socket.timeout
            &&& match next.step {
                ConnectStepView::Open => false,
                ConnectStepView::Connect { fd, address } => fd == before && socket.step is Open,
                ConnectStepView::SetTimeout { fd, option, value } => fd == before && (match option {
                    SocketOption::ReceiveTimeout => socket.step is Connect,
                    SocketOption::SendTimeout => socket.step == (ConnectStepView::SetTimeout {
                        fd,
                        option: SocketOption::ReceiveTimeout,
                        value,
                    }),
                }),
                ConnectStepView::Connected { fd } => {
                    &&& fd == before
                    &&& match socket.step {
                        ConnectStepView::Connected { fd } => true,
                        ConnectStepView::SetTimeout { fd, option, value } => option
                            == SocketOption::SendTimeout,
                        _ => false,
                    }
                },
            }
        },
        socket.step is Connected ==> seqpacket_outcome(socket, reply, errno) == Ok::<
            SeqpacketView,
            IoErrorView,
        >(socket),
        socket.step is SetTimeout ==> seqpacket_outcome(socket, reply, errno) is Ok,
{
}

/// Eight bytes spell a number in the byte order of the machine.
pub proof fn eight_bytes_spell_a_number(b: Seq<u8>)
    requires
        b.len() == 8,
    ensures
        endianness() is Little ==> native_value(b) == b[0] + 0x100 * b[1] + 0x1_0000 * b[2]
            + 0x100_0000 * b[3] + 0x1_0000_0000 * b[4] + 0x100_0000_0000 * b[5]
            + 0x1_0000_0000_0000 * b[6] + 0x100_0000_0000_0000 * b[7],
        endianness() is Big ==> native_value(b) == b[7] + 0x100 * b[6] + 0x1_0000 * b[5]
            + 0x100_0000 * b[4] + 0x1_0000_0000 * b[3] + 0x100_0000_0000 * b[2]
            + 0x1_0000_0000_0000 * b[1] + 0x100_0000_0000_0000 * b[0],
{
    let r = b.reverse();
    match endianness() {
        Endian::Little => little_endian_of_eight(b),
        Endian::Big => little_endian_of_eight(r),
    }
}

proof fn little_endian_of_eight(b: Seq<u8>)
    requires
        b.len() == 8,
    ensures
        little_endian_value(b) == b[0] + 0x100 * b[1] + 0x1_0000 * b[2] + 0x100_0000 * b[3]
            + 0x1_0000_0000 * b[4] + 0x100_0000_0000 * b[5] + 0x1_0000_0000_0000 * b[6]
            + 0x100_0000_0000_0000 * b[7],
{
    reveal_with_fuel(little_endian_value, 9);
}

/// A message of another event reports no address, but the event.
pub proof fn other_events_are_rejected(message: Seq<u8>)
    requires
        message.len() == 32,
    ensures
        match pagefault_outcome(message) {
            Ok(address) => message[0] == 0x12 && native_value(message.subrange(16, 24)) == address,
            Err(error) => {
                &&& message[0] != 0x12
                &&& error.kind == ErrorKind::InvalidData
                &&& error.message == "unexpected userfaultfd event "@ + prefixed_hex(
                    message[0] as nat,
                )
            },
        },
{
    eight_bytes_spell_a_number(message.subrange(16, 24));
}

/// A read of a whole page fault message in which an address was written, in the
/// byte order of the machine, reports that address.
pub proof fn whole_read_reports_the_address(
    count: i64,
    errno: i32,
    message: Seq<u8>,
    address: u64,
)
    requires
        count == 32,
        message.len() == 32,
        message[0] == 0x12,
        message.subrange(16, 24) == native_bytes(address),
    ensures
        read_outcome(count, errno, message) == Ok::<u64, IoErrorView>(address),
{
    pagefault_message_reports_its_address(message, address);
}

/// A read reports an address exactly when all of a page fault message was read,
/// and then the one that the bytes of the message spell. What went wrong
/// otherwise is what is reported.
pub proof fn read_reports_exactly_page_faults(count: i64, errno: i32, message: Seq<u8>)
    requires
        message.len() == 32,
    ensures
        match read_outcome(count, errno, message) {
            Ok(address) => {
                &&& count == 32
                &&& message[0] == 0x12
                &&& native_value(message.subrange(16, 24)) == address
            },
            Err(error) => if count < 0 {
                &&& error.kind == ErrorKind::Os(errno)
                &&& error.message.len() == 0
            } else if count != 32 {
                &&& error.kind == ErrorKind::UnexpectedEof
                &&& error.message == "short userfaultfd message: "@ + signed_decimal(count as int)
                    + " bytes"@
            } else {
                &&& message[0] != 0x12
                &&& error.kind == ErrorKind::InvalidData
                &&& error.message == "unexpected userfaultfd event "@ + prefixed_hex(
                    message[0] as nat,
                )
            },
        },
{
    other_events_are_rejected(message);
}

/// Whole page fault messages report the same address exactly when they hold the
/// same bytes in its place.
pub proof fn address_is_read_from_its_place_alone(count: i64, errno: i32, a: Seq<u8>, b: Seq<u8>)
    requires
        count == 32,
        a.len() == 32,
        b.len() == 32,
        a[0] == 0x12,
        b[0] == 0x12,
    ensures
        read_outcome(count, errno, a) == read_outcome(count, errno, b) <==> a.subrange(16, 24)
            == b.subrange(16, 24),
{
    let s = a.subrange(16, 24);
    let t = b.subrange(16, 24);
    other_events_are_rejected(a);
    other_events_are_rejected(b);
    if native_value(s) == native_value(t) {
        match endianness() {
            Endian::Little => same_number_same_bytes(s, t),
            Endian::Big => {
                same_number_same_bytes(s.reverse(), t.reverse());
                assert(s =~= s.reverse().reverse());
                assert(t =~= t.reverse().reverse());
            },
        }
    }
}

proof fn same_number_same_bytes(s: Seq<u8>, t: Seq<u8>)
    requires
        s.len() == t.len(),
        little_endian_value(s) == little_endian_value(t),
    ensures
        s == t,
    decreases s.len(),
{
    if s.len() > 0 {
        let s_rest = little_endian_value(s.drop_first());
        let t_rest = little_endian_value(t.drop_first());
        assert(s[0] + 256 * s_rest == t[0] + 256 * t_rest);
        assert(s_rest == t_rest);
        same_number_same_bytes(s.drop_first(), t.drop_first());
        assert(s =~= seq![s[0]] + s.drop_first());
        assert(t =~= seq![t[0]] + t.drop_first());
    } else {
        assert(s =~= t);
    }
}

/// The request to register a range is for exactly that range, all of it, and
/// for its missing pages. Only an empty range cannot be registered.
pub proof fn registration_covers_the_range(start: u64, len: u64)
    ensures
        match register_outcome(start, len) {
            Ok(request) => {
                &&& len > 0
                &&& request.range.start == start
                &&& request.range.len == len
                &&& request.mode == 1
                &&& request.ioctls == 0
            },
            Err(error) => {
                &&& len == 0
                &&& error.kind == ErrorKind::InvalidInput
                &&& error.message == "userfaultfd range must not be empty"@
            },
        },
{
}

/// A request to zero a range has failed when the kernel says so, and is done
/// exactly when the kernel says it has zeroed all of it. The kernel counts in
/// signed numbers of 64 bits, so the counts agree modulo all of those.
pub proof fn zeroing_is_held_to_its_length(reply: i32, errno: i32, zeropage: i64, len: u64)
    ensures
        ({
            let complete = zeropage == len || zeropage == len - 0x1_0000_0000_0000_0000;
            match zero_outcome(reply, errno, zeropage, len) {
                Ok(_) => reply >= 0 && complete,
                Err(error) => if reply < 0 {
                    &&& error.kind == ErrorKind::Os(errno)
                    &&& error.message.len() == 0
                } else {
                    &&& !complete
                    &&& error.kind == ErrorKind::WriteZero
                    &&& error.message == "userfaultfd zeroed "@ + signed_decimal(zeropage as int)
                        + " bytes, expected "@ + decimal(len as nat)
                },
            }
        }),
{
    assert(len as i64 == len || len as i64 == len - 0x1_0000_0000_0000_0000) by (bit_vector);
}

/// Setting up a descriptor creates it and shakes hands over it, for the features
/// asked for, in the one version of the interface. It ends with the descriptor
/// that was created, and fails exactly when a call does.
pub proof fn setup_shakes_hands_over_its_descriptor(
    features: u64,
    created: i64,
    agreed: i64,
    errno: i32,
)
    requires
        0 <= created <= 0x7fff_ffff,
        agreed >= 0,
    ensures
        ({
            let fd = created as i32;
            let create = UffdSetup { features, step: UffdStep::Create };
            let handshake = UffdSetup {
                features,
                step: UffdStep::Handshake {
                    fd,
                    request: UffdioApi { api: 0xaa, features, ioctls: 0 },
                },
            };
            let ready = UffdSetup { features, step: UffdStep::Ready { fd } };
            &&& fd == created
            &&& setup_outcome(create, created, errno) == Ok::<UffdSetup, IoErrorView>(handshake)
            &&& setup_outcome(handshake, agreed, errno) == Ok::<UffdSetup, IoErrorView>(ready)
            &&& setup_outcome(ready, agreed, errno) == Ok::<UffdSetup, IoErrorView>(ready)
        }),
{
}

/// A call of a setup that fails ends it with its error; one that succeeds never
/// does, and changes neither the features nor, once there is one, the
/// descriptor.
pub proof fn setup_fails_exactly_with_its_calls(setup: UffdSetup, reply: i64, errno: i32)
    ensures
        match setup_outcome(setup, reply, errno) {
            Ok(next) => {
                &&& reply >= 0
                &&& next.features == setup.features
                &&& match setup.step {
                    UffdStep::Create => next.step matches UffdStep::Handshake { fd, request }
                        && fd as u32 == reply as u32 && request == (UffdioApi {
                        api: 0xaa,
                        features: setup.features,
                        ioctls: 0,
                    }),
                    UffdStep::Handshake { fd, request } => next.step == (UffdStep::Ready { fd }),
                    UffdStep::Ready { fd } => next.step == (UffdStep::Ready { fd }),
                }
            },
            Err(error) => reply < 0 && error.kind == ErrorKind::Os(errno) && error.message.len()
                == 0,
        },
{
    assert((reply as i32) as u32 == reply as u32) by (bit_vector);
}

/// Once the descriptor of a registration is created and has shaken hands, the
/// kernel is asked to report the missing pages of exactly the region, over that
/// descriptor; once it has agreed, the region is registered as it was
/// described.
pub proof fn registration_registers_exactly_the_region(
    registration: RegistrationView,
    features: u64,
    created: i64,
    agreed: i64,
    registered: i64,
    errno: i32,
)
    requires
        registration.step == RegistrationStep::Setup(
            UffdSetup { features, step: UffdStep::Create },
        ),
        registration.size > 0,
        0 <= created <= 0x7fff_ffff,
        agreed >= 0,
        registered >= 0,
    ensures
        ({
            let fd = created as i32;
            let uffd = Userfaultfd { fd };
            let handshake = RegistrationView {
                step: RegistrationStep::Setup(
                    UffdSetup {
                        features,
                        step: UffdStep::Handshake {
                            fd,
                            request: UffdioApi { api: 0xaa, features, ioctls: 0 },
                        },
                    },
                ),
                ..registration
            };
            let register = RegistrationView {
                step: RegistrationStep::Register {
                    uffd,
                    request: UffdioRegister {
                        range: UffdioRange {
                            start: registration.base_hva,
                            len: registration.size,
                        },
                        mode: 1,
                        ioctls: 0,
                    },
                },
                ..registration
            };
            let done = RegistrationView {
                step: RegistrationStep::Registered { uffd },
                ..registration
            };
            &&& fd == created
            &&& registration_outcome(registration, created, errno) == Ok::<
                RegistrationView,
                IoErrorView,
            >(handshake)
            &&& registration_outcome(handshake, agreed, errno) == Ok::<
                RegistrationView,
                IoErrorView,
            >(register)
            &&& registration_outcome(register, registered, errno) == Ok::<
                RegistrationView,
                IoErrorView,
            >(done)
            &&& registered_region(registration) is None
            &&& registered_region(handshake) is None
            &&& registered_region(register) is None
            &&& registered_region(done) == Some(
                RegionView {
                    base_hva: registration.base_hva,
                    size: registration.size,
                    data_size: registration.data_size,
                    backend_id: registration.backend_id,
                    socket: registration.socket,
                    uffd,
                },
            )
        }),
{
}

/// No step of a registration changes the region that it is for. A call that
/// fails ends it with its error; of the calls that succeed, only the handshake
/// can end it, for an empty region.
pub proof fn registration_fails_exactly_with_its_calls(
    registration: RegistrationView,
    reply: i64,
    errno: i32,
)
    requires
        !(registration.step is Registered),
    ensures
        match registration_outcome(registration, reply, errno) {
            Ok(next) => {
                &&& reply >= 0
                &&& next == (RegistrationView { step: next.step, ..registration })
                &&& match registration.step {
                    RegistrationStep::Setup(setup) => match setup.step {
                        UffdStep::Create => next.step is Setup,
                        UffdStep::Handshake { fd, request } => next.step == (
                        RegistrationStep::Register {
                            uffd: Userfaultfd { fd },
                            request: UffdioRegister {
                                range: UffdioRange {
                                    start: registration.base_hva,
                                    len: registration.size,
                                },
                                mode: 1,
                                ioctls: 0,
                            },
                        }),
                        UffdStep::Ready { fd } => true,
                    },
                    RegistrationStep::Register { uffd, request } => next.step == (
                    RegistrationStep::Registered { uffd }),
                    RegistrationStep::Registered { uffd } => true,
                }
            },
            Err(error) => if reply < 0 {
                &&& error.kind == ErrorKind::Os(errno)
                &&& error.message.len() == 0
            } else {
                &&& registration.size == 0
                &&& registration.step matches RegistrationStep::Setup(setup)
                &&& !(setup.step is Create)
                &&& error.kind == ErrorKind::InvalidInput
                &&& error.message == "userfaultfd range must not be empty"@
            },
        },
{
}

/// A registration that is done stays done, whatever is answered.
pub proof fn done_registration_stays_done(registration: RegistrationView, reply: i64, errno: i32)
    requires
        registration.step is Registered,
    ensures
        registration_outcome(registration, reply, errno) == Ok::<RegistrationView, IoErrorView>(
            registration,
        ),
{
}

} // verus!
