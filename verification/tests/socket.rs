use lazy_pmem::client::Timeout;
use lazy_pmem::error::ErrorKind;
use lazy_pmem::socket::{
    set_socket_timeout, sockaddr_un, ConnectStep, Seqpacket, SocketOption, TimeVal, AF_UNIX,
    SA_FAMILY_LEN, SUN_PATH_LEN,
};

const TIMEOUT: Timeout = Timeout { secs: 30, subsec_micros: 250 };

#[test]
fn address_holds_the_path_and_a_zero() {
    let address = sockaddr_un(b"/run/a.sock").unwrap();
    assert_eq!(address.family, AF_UNIX);
    assert_eq!(&address.path[..11], b"/run/a.sock");
    assert!(address.path[11..].iter().all(|byte| *byte == 0));
    assert_eq!(address.len, 14);
    assert_eq!(sockaddr_un(b"").unwrap().len, 3);
}

#[test]
fn longest_path_leaves_room_for_a_zero() {
    let address = sockaddr_un(&[b'x'; 107]).unwrap();
    assert_eq!(address.len, 110);
    assert_eq!(address.path[106], b'x');
    assert_eq!(address.path[107], 0);
    for len in [108, 109, 500] {
        let error = sockaddr_un(&vec![b'x'; len]).unwrap_err();
        assert_eq!(error.kind(), ErrorKind::InvalidInput);
        assert_eq!(error.message(), "Unix socket path is too long");
    }
}

#[test]
fn address_layout_is_the_system_layout() {
    let address = libc::sockaddr_un {
        sun_family: libc::AF_UNIX as libc::sa_family_t,
        sun_path: [0; SUN_PATH_LEN],
    };
    assert_eq!(address.sun_family, AF_UNIX);
    assert_eq!(std::mem::size_of::<libc::sa_family_t>(), SA_FAMILY_LEN);
}

#[test]
fn timeout_is_what_the_system_takes() {
    assert_eq!(set_socket_timeout(TIMEOUT).unwrap(), TimeVal { tv_sec: 30, tv_usec: 250 });
    let most = Timeout { secs: i64::MAX as u64, subsec_micros: 999_999 };
    assert_eq!(
        set_socket_timeout(most).unwrap(),
        TimeVal { tv_sec: i64::MAX, tv_usec: 999_999 }
    );
    let more = Timeout { secs: i64::MAX as u64 + 1, subsec_micros: 0 };
    let error = set_socket_timeout(more).unwrap_err();
    assert_eq!(error.kind(), ErrorKind::InvalidInput);
    assert_eq!(error.message(), "backend timeout does not fit in libc::time_t");
}

#[test]
fn connecting_takes_four_calls() {
    let socket = Seqpacket::connect(b"/s".to_vec(), TIMEOUT);
    assert!(matches!(socket.step(), ConnectStep::Open));
    let socket = socket.advance(5, 0).unwrap();
    match socket.step() {
        ConnectStep::Connect { fd, address } => {
            assert_eq!(fd, 5);
            assert_eq!(&address.path[..3], b"/s\0");
            assert_eq!(address.len, 5);
        }
        step => panic!("{step:?}"),
    }
    let socket = socket.advance(0, 0).unwrap();
    let value = TimeVal { tv_sec: 30, tv_usec: 250 };
    match socket.step() {
        ConnectStep::SetTimeout { fd, option, value: given } => {
            assert_eq!((fd, option, given), (5, SocketOption::ReceiveTimeout, value));
        }
        step => panic!("{step:?}"),
    }
    let socket = socket.advance(0, 0).unwrap();
    match socket.step() {
        ConnectStep::SetTimeout { fd, option, value: given } => {
            assert_eq!((fd, option, given), (5, SocketOption::SendTimeout, value));
        }
        step => panic!("{step:?}"),
    }
    let socket = socket.advance(0, 0).unwrap();
    assert!(matches!(socket.step(), ConnectStep::Connected { fd: 5 }));
    let socket = socket.advance(0, 0).unwrap();
    assert!(matches!(socket.step(), ConnectStep::Connected { fd: 5 }));
}

#[test]
fn connecting_stops_at_the_first_failure() {
    for good in 0..4 {
        let mut socket = Seqpacket::connect(b"/s".to_vec(), TIMEOUT);
        for _ in 0..good {
            socket = socket.advance(5, 0).unwrap();
        }
        let error = socket.advance(-1, 111).unwrap_err();
        assert_eq!(error.kind(), ErrorKind::Os(111));
    }
}

#[test]
fn long_path_is_noticed_once_the_socket_is_open() {
    let socket = Seqpacket::connect(vec![b'x'; 108], TIMEOUT);
    assert_eq!(socket.advance(-1, 24).unwrap_err().kind(), ErrorKind::Os(24));
    let socket = Seqpacket::connect(vec![b'x'; 108], TIMEOUT);
    let error = socket.advance(5, 0).unwrap_err();
    assert_eq!(error.message(), "Unix socket path is too long");
}

#[test]
fn long_timeout_is_noticed_once_the_socket_is_connected() {
    let timeout = Timeout { secs: u64::MAX, subsec_micros: 0 };
    let socket = Seqpacket::connect(b"/s".to_vec(), timeout).advance(5, 0).unwrap();
    let error = socket.advance(0, 0).unwrap_err();
    assert_eq!(error.message(), "backend timeout does not fit in libc::time_t");
}
