use lazy_pmem::error::ErrorKind;
use lazy_pmem::userfaultfd::{
    parse_pagefault_event, UffdStep, UffdioApi, UffdioRange, UffdioRegister, UffdioZeropage,
    Userfaultfd, UFFDIO_API, UFFDIO_REGISTER, UFFDIO_WAKE, UFFDIO_ZEROPAGE, UFFD_API,
    UFFD_EVENT_PAGEFAULT, UFFD_MSG_SIZE,
};

#[test]
fn pagefault_event_reports_fault_address() {
    let address = 0x1234_5678_u64;
    let mut message = [0_u8; UFFD_MSG_SIZE];
    message[0] = UFFD_EVENT_PAGEFAULT;
    message[16..24].copy_from_slice(&address.to_ne_bytes());

    assert_eq!(parse_pagefault_event(&message).unwrap(), address);
}

#[test]
fn non_pagefault_event_is_rejected() {
    let message = [0_u8; UFFD_MSG_SIZE];

    assert_eq!(parse_pagefault_event(&message).unwrap_err().kind(), ErrorKind::InvalidData);
}

#[test]
fn every_byte_of_the_fault_address_counts() {
    let address = 0x8877_6655_4433_2211_u64;
    let mut message = [0xff_u8; UFFD_MSG_SIZE];
    message[0] = UFFD_EVENT_PAGEFAULT;
    message[16..24].copy_from_slice(&address.to_ne_bytes());

    assert_eq!(parse_pagefault_event(&message).unwrap(), address);
}

#[test]
fn unexpected_event_is_named_in_hexadecimal() {
    let mut message = [0_u8; UFFD_MSG_SIZE];
    message[0] = 0x1b;

    let error = parse_pagefault_event(&message).unwrap_err();
    assert_eq!(error.message(), format!("unexpected userfaultfd event {:#x}", 0x1b));
    assert_eq!(error.message(), "unexpected userfaultfd event 0x1b");
}

#[test]
fn setup_creates_and_shakes_hands() {
    let setup = Userfaultfd::new(5);
    assert_eq!(setup.step, UffdStep::Create);

    let setup = setup.advance(9, 0).unwrap();
    assert_eq!(
        setup.step,
        UffdStep::Handshake { fd: 9, request: UffdioApi { api: UFFD_API, features: 5, ioctls: 0 } }
    );

    let setup = setup.advance(0, 0).unwrap();
    assert_eq!(setup.step, UffdStep::Ready { fd: 9 });
    assert_eq!(Userfaultfd { fd: 9 }.as_raw_fd(), 9);
}

#[test]
fn setup_stops_at_the_first_failure() {
    let error = Userfaultfd::new(0).advance(-1, 38).unwrap_err();
    assert_eq!(error.kind(), ErrorKind::Os(38));
    assert_eq!(error.message(), "");

    let setup = Userfaultfd::new(0).advance(3, 0).unwrap();
    assert_eq!(setup.advance(-1, 22).unwrap_err().kind(), ErrorKind::Os(22));
}

#[test]
fn empty_range_is_not_registered() {
    let uffd = Userfaultfd { fd: 3 };
    let error = uffd.register_missing(4096, 0).unwrap_err();
    assert_eq!(error.kind(), ErrorKind::InvalidInput);
    assert_eq!(error.message(), "userfaultfd range must not be empty");

    assert_eq!(
        uffd.register_missing(4096, 8192).unwrap(),
        UffdioRegister { range: UffdioRange { start: 4096, len: 8192 }, mode: 1, ioctls: 0 }
    );
}

#[test]
fn short_message_is_rejected() {
    let uffd = Userfaultfd { fd: 3 };
    let mut message = [0_u8; UFFD_MSG_SIZE];
    message[0] = UFFD_EVENT_PAGEFAULT;
    message[16..24].copy_from_slice(&7_u64.to_ne_bytes());

    assert_eq!(uffd.read_pagefault(-1, 11, &message).unwrap_err().kind(), ErrorKind::Os(11));
    let error = uffd.read_pagefault(31, 0, &message).unwrap_err();
    assert_eq!(error.kind(), ErrorKind::UnexpectedEof);
    assert_eq!(error.message(), "short userfaultfd message: 31 bytes");
    let error = uffd.read_pagefault(0, 0, &message).unwrap_err();
    assert_eq!(error.message(), "short userfaultfd message: 0 bytes");
    assert_eq!(uffd.read_pagefault(32, 0, &message).unwrap(), 7);
}

#[test]
fn wake_and_zero_name_their_range() {
    let uffd = Userfaultfd { fd: 3 };
    assert_eq!(uffd.wake(1, 2), UffdioRange { start: 1, len: 2 });
    assert_eq!(
        uffd.zero(1, 2),
        UffdioZeropage { range: UffdioRange { start: 1, len: 2 }, mode: 0, zeropage: 0 }
    );
}

#[test]
fn partial_zeroing_is_rejected() {
    let uffd = Userfaultfd { fd: 3 };
    assert!(uffd.zeroed(0, 0, 4096, 4096).is_ok());
    assert_eq!(uffd.zeroed(-1, 14, 4096, 4096).unwrap_err().kind(), ErrorKind::Os(14));

    let error = uffd.zeroed(0, 0, 4096, 8192).unwrap_err();
    assert_eq!(error.kind(), ErrorKind::WriteZero);
    assert_eq!(error.message(), "userfaultfd zeroed 4096 bytes, expected 8192");

    let error = uffd.zeroed(0, 0, -17, u64::MAX).unwrap_err();
    assert_eq!(error.message(), "userfaultfd zeroed -17 bytes, expected 18446744073709551615");
    let error = uffd.zeroed(0, 0, i64::MIN, 1).unwrap_err();
    assert_eq!(error.message(), "userfaultfd zeroed -9223372036854775808 bytes, expected 1");
    assert!(uffd.zeroed(0, 0, -1, u64::MAX).is_ok());
}

#[test]
fn request_codes_match_their_arguments() {
    let code = |direction: u64, words: u64, number: u64| {
        direction << 30 | (words * 8) << 16 | 0xaa << 8 | number
    };
    assert_eq!(UFFDIO_API, code(3, 3, 0x3f));
    assert_eq!(UFFDIO_REGISTER, code(3, 4, 0));
    assert_eq!(UFFDIO_WAKE, code(2, 2, 2));
    assert_eq!(UFFDIO_ZEROPAGE, code(3, 4, 4));
}
