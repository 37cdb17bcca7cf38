use lazy_pmem::client::{LazyPmemBackendClient, Timeout};
use lazy_pmem::error::{invalid_data, invalid_input, ErrorKind};
use lazy_pmem::os::{errno_to_io, os_result};
use lazy_pmem::socket::{set_socket_timeout, TimeVal};
use lazy_pmem::wire::FetchRange;

const PAGE: u64 = 4096;

fn client(pages: u64) -> LazyPmemBackendClient {
    LazyPmemBackendClient::new(
        b"/run/backend.sock".to_vec(),
        "image".to_string(),
        pages * PAGE,
        PAGE as i64,
        0,
    )
    .unwrap()
}

fn range(off: u64, len: u64, dev_off: u64) -> FetchRange {
    FetchRange { off, len, dev_off }
}

#[test]
fn client_keeps_what_it_was_made_of() {
    let client = client(2);
    assert_eq!(client.socket(), b"/run/backend.sock");
    assert_eq!(client.backend_id(), "image");
    assert_eq!(client.pmem_size(), 2 * PAGE);
    assert_eq!(client.page_size(), PAGE);
    assert_eq!(client.timeout(), Timeout { secs: 30, subsec_micros: 0 });
    assert_eq!(set_socket_timeout(client.timeout()).unwrap(), TimeVal { tv_sec: 30, tv_usec: 0 });
    let copy = client.clone();
    assert_eq!(copy.socket(), client.socket());
    assert_eq!(copy.pmem_size(), client.pmem_size());
}

#[test]
fn client_is_refused_in_order() {
    let new = |socket: &[u8], id: &str, size: u64, page: i64| {
        LazyPmemBackendClient::new(socket.to_vec(), id.to_string(), size, page, 5).unwrap_err()
    };
    let error = new(b"", "", 0, -1);
    assert_eq!(error.kind(), ErrorKind::InvalidInput);
    assert_eq!(error.message(), "lazy pmem backend socket must not be empty");
    let error = new(b"s", "", 0, -1);
    assert_eq!(error.kind(), ErrorKind::InvalidInput);
    assert_eq!(error.message(), "lazy pmem backend_id must not be empty");
    assert_eq!(new(b"s", "i", 0, -1).kind(), ErrorKind::Os(5));
    assert_eq!(new(b"s", "i", 0, 0).kind(), ErrorKind::Os(5));
    let error = new(b"s", "i", 0, 4096);
    assert_eq!(error.kind(), ErrorKind::InvalidInput);
    assert_eq!(error.message(), "lazy pmem size must be non-zero and page aligned");
    assert_eq!(
        new(b"s", "i", 4097, 4096).message(),
        "lazy pmem size must be non-zero and page aligned"
    );
}

#[test]
fn requests_are_whole_pages_of_the_image() {
    let client = client(4);
    assert!(client.validate_requested_range(0, 4 * PAGE).is_ok());
    assert!(client.validate_requested_range(3 * PAGE, PAGE).is_ok());
    for (pos, len) in [(0, 0), (1, PAGE), (0, PAGE + 1), (PAGE / 2, PAGE / 2)] {
        let error = client.validate_requested_range(pos, len).unwrap_err();
        assert_eq!(error.kind(), ErrorKind::InvalidInput);
        assert_eq!(error.message(), "FETCH pos and len must be non-zero and page aligned");
    }
    let last = u64::MAX - (PAGE - 1);
    let error = client.validate_requested_range(last, PAGE).unwrap_err();
    assert_eq!(error.kind(), ErrorKind::InvalidInput);
    assert_eq!(error.message(), "FETCH range overflows u64");
    let error = client.validate_requested_range(3 * PAGE, 2 * PAGE).unwrap_err();
    assert_eq!(error.kind(), ErrorKind::InvalidInput);
    assert_eq!(error.message(), "FETCH range exceeds pmem size");
}

#[test]
fn returned_ranges_contain_the_request() {
    let client = client(4);
    let check = |r: FetchRange| client.validate_returned_range(r, PAGE, 2 * PAGE);
    assert!(check(range(PAGE, 2 * PAGE, 0)).is_ok());
    assert!(check(range(PAGE, 2 * PAGE, 2 * PAGE)).is_ok());
    assert!(check(range(0, 4 * PAGE, 0)).is_ok());
    let message = |r: FetchRange| {
        let error = check(r).unwrap_err();
        assert_eq!(error.kind(), ErrorKind::InvalidData);
        error.message().to_string()
    };
    let unaligned = "lazy pmem backend returned a zero-length or unaligned range";
    assert_eq!(message(range(PAGE, 0, 0)), unaligned);
    assert_eq!(message(range(PAGE + 1, 2 * PAGE, 0)), unaligned);
    assert_eq!(message(range(PAGE, 2 * PAGE + 1, 0)), unaligned);
    assert_eq!(message(range(PAGE, 2 * PAGE, 1)), unaligned);
    let last = u64::MAX - (PAGE - 1);
    assert_eq!(message(range(last, PAGE, 0)), "lazy pmem backend range overflows u64");
    assert_eq!(message(range(0, PAGE, last)), "lazy pmem backend device range overflows u64");
    let exceeds = "lazy pmem backend range exceeds pmem size";
    assert_eq!(message(range(PAGE, 4 * PAGE, 0)), exceeds);
    assert_eq!(message(range(PAGE, 2 * PAGE, 3 * PAGE)), exceeds);
    let misses = "lazy pmem backend range does not contain the requested range";
    assert_eq!(message(range(2 * PAGE, 2 * PAGE, 0)), misses);
    assert_eq!(message(range(PAGE, PAGE, 0)), misses);
    assert_eq!(message(range(0, PAGE, 0)), misses);
}

#[test]
fn accepted_range_is_accepted_for_parts() {
    let client = client(8);
    let r = range(2 * PAGE, 4 * PAGE, 0);
    assert!(client.validate_returned_range(r, 2 * PAGE, 4 * PAGE).is_ok());
    for page in 2..6 {
        assert!(client.validate_returned_range(r, page * PAGE, PAGE).is_ok());
    }
    assert!(client.validate_returned_range(r, 6 * PAGE, PAGE).is_err());
}

#[test]
fn replies_of_system_calls_are_results() {
    assert_eq!(os_result(0, 4).unwrap(), 0);
    assert_eq!(os_result(17, 4).unwrap(), 17);
    assert_eq!(os_result(-1, 4).unwrap_err().kind(), ErrorKind::Os(4));
}

#[test]
fn socket_errors_keep_their_number() {
    let error = errno_to_io(vmm_sys_util::errno::Error::new(libc::EAGAIN));
    assert_eq!(error.kind(), ErrorKind::Os(libc::EAGAIN));
    assert_eq!(error.message(), "");
}

#[test]
fn errors_say_what_they_were_told() {
    assert_eq!(invalid_input("a").kind(), ErrorKind::InvalidInput);
    assert_eq!(invalid_input("a").message(), "a");
    assert_eq!(invalid_data("b").kind(), ErrorKind::InvalidData);
    assert_eq!(invalid_data("b").message(), "b");
}
