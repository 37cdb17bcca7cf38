use lazy_pmem::client::LazyPmemBackendClient;
use lazy_pmem::error::{ErrorKind, IoError};
use lazy_pmem::fetch::{
    set_close_on_exec, FetchReceive, FetchReply, FetchStat, PageMapping, FD_CLOEXEC,
};
use lazy_pmem::wire::{FetchRange, FetchResponse, RequestIds};

const PAGE: u64 = 4096;

fn client() -> LazyPmemBackendClient {
    LazyPmemBackendClient::new(
        b"/run/backend.sock".to_vec(),
        "instance".to_string(),
        2 * PAGE,
        PAGE as i64,
        0,
    )
    .unwrap()
}

fn served(range: FetchRange) -> FetchResponse {
    FetchResponse::FetchOk {
        protocol_version: 1,
        request_id: "cloud-hypervisor-77-8".to_string(),
        ranges: vec![range],
    }
}

const RANGE: FetchRange = FetchRange { off: 0, len: PAGE, dev_off: PAGE };

fn receive(client: &LazyPmemBackendClient) -> FetchReceive<'_> {
    let send = client.fetch(0, PAGE, &mut RequestIds { sequence: 8 }, 77).unwrap();
    let len = send.payload().len();
    send.sent(len).unwrap()
}

fn reply(client: &LazyPmemBackendClient, has_fd: bool) -> FetchReply<'_> {
    receive(client).received(b"reply, and room".to_vec(), 5, has_fd).unwrap()
}

fn stat(client: &LazyPmemBackendClient) -> FetchStat<'_> {
    let flags = reply(client, true).parsed(served(RANGE)).unwrap().descriptor_flags(0, 0).unwrap();
    flags.flags_set(0, 0).unwrap()
}

fn failure<T>(result: Result<T, IoError>) -> (ErrorKind, String) {
    match result {
        Ok(_) => panic!("the step succeeded"),
        Err(error) => (error.kind(), error.message().to_string()),
    }
}

#[test]
fn fetch_goes_through_its_steps() {
    let client = client();
    let send = client.fetch(0, PAGE, &mut RequestIds { sequence: 8 }, 77).unwrap();
    assert_eq!(
        String::from_utf8(send.payload().clone()).unwrap(),
        "{\"protocol_version\":1,\"request_id\":\"cloud-hypervisor-77-8\",\"op\":\"fetch\",\
         \"instance_id\":\"instance\",\"pos\":0,\"len\":4096}"
    );
    let len = send.payload().len();
    let receive = send.sent(len).unwrap();
    assert_eq!(receive.capacity(), 65536);
    let reply = receive.received(b"reply, and room".to_vec(), 5, true).unwrap();
    assert_eq!(reply.data(), b"reply");
    let flags = reply.parsed(served(RANGE)).unwrap().descriptor_flags(6, 0).unwrap();
    assert_eq!(flags.flags(), 7);
    let result = flags.flags_set(0, 0).unwrap().metadata(true, 2 * PAGE).unwrap();
    assert_eq!(result.range(), RANGE);
    assert_eq!(result.file_offset(), PAGE);
}

#[test]
fn requested_bytes_are_found_in_the_file() {
    let client = client();
    let send = client.fetch(PAGE, PAGE, &mut RequestIds { sequence: 8 }, 77).unwrap();
    let len = send.payload().len();
    let reply = send.sent(len).unwrap().received(vec![0; 8], 8, true).unwrap();
    let file = reply.parsed(served(FetchRange { off: 0, len: 2 * PAGE, dev_off: 0 })).unwrap();
    let flags = file.descriptor_flags(0, 0).unwrap();
    let result = flags.flags_set(0, 0).unwrap().metadata(true, 2 * PAGE).unwrap();
    assert_eq!(result.file_offset(), PAGE);
    assert_eq!(
        result.mapping(0x1000_0000),
        PageMapping { start: 0x1000_0000, len: PAGE, file_offset: PAGE }
    );
}

#[test]
fn unacceptable_request_is_not_sent() {
    let client = client();
    let mut ids = RequestIds { sequence: 8 };
    let (kind, message) = failure(client.fetch(0, 3 * PAGE, &mut ids, 77));
    assert_eq!(kind, ErrorKind::InvalidInput);
    assert_eq!(message, "FETCH range exceeds pmem size");
    assert_eq!(ids.sequence, 8);
}

#[test]
fn only_requests_that_are_sent_draw_a_number() {
    let client = client();
    let mut ids = RequestIds::new();
    let last = u64::MAX - (PAGE - 1);
    for (pos, len) in [(0, 0), (1, PAGE), (0, 1), (last, PAGE), (PAGE, 2 * PAGE)] {
        let (kind, _) = failure(client.fetch(pos, len, &mut ids, 77));
        assert_eq!(kind, ErrorKind::InvalidInput);
        assert_eq!(ids.sequence, 1);
    }
    for sequence in 1..4 {
        let send = client.fetch(0, PAGE, &mut ids, 77).unwrap();
        let text = String::from_utf8(send.payload().clone()).unwrap();
        assert!(text.contains(&format!("\"cloud-hypervisor-77-{sequence}\"")));
        assert_eq!(ids.sequence, sequence + 1);
    }
}

#[test]
fn short_write_ends_the_fetch() {
    let client = client();
    let send = client.fetch(0, PAGE, &mut RequestIds { sequence: 8 }, 77).unwrap();
    let len = send.payload().len();
    let (kind, message) = failure(send.sent(len - 1));
    assert_eq!(kind, ErrorKind::WriteZero);
    assert_eq!(message, "short lazy pmem backend request write");
}

#[test]
fn closed_socket_ends_the_fetch() {
    let client = client();
    let (kind, message) = failure(receive(&client).received(vec![0; 8], 0, true));
    assert_eq!(kind, ErrorKind::UnexpectedEof);
    assert_eq!(message, "lazy pmem backend closed the data socket");
}

#[test]
fn full_buffer_is_kept() {
    let client = client();
    let reply = receive(&client).received(vec![7; 3], 3, false).unwrap();
    assert_eq!(reply.data(), &vec![7; 3]);
    let reply = receive(&client).received(vec![7; 3], 9, false).unwrap();
    assert_eq!(reply.data(), &vec![7; 3]);
}

#[test]
fn refusal_ends_the_fetch() {
    let client = client();
    let response = FetchResponse::Error {
        protocol_version: 1,
        request_id: "cloud-hypervisor-77-8".to_string(),
        code: 503,
        msg: "range unavailable".to_string(),
    };
    let (kind, message) = failure(reply(&client, true).parsed(response));
    assert_eq!(kind, ErrorKind::Other);
    assert_eq!(message, "lazy pmem backend error 503: range unavailable");
}

#[test]
fn unacceptable_reply_ends_the_fetch() {
    let client = client();
    let wrong = FetchRange { off: PAGE, len: PAGE, dev_off: 0 };
    let (kind, message) = failure(reply(&client, false).parsed(served(wrong)));
    assert_eq!(kind, ErrorKind::InvalidData);
    assert_eq!(message, "lazy pmem backend range does not contain the requested range");
    let (kind, message) = failure(reply(&client, false).parsed(served(RANGE)));
    assert_eq!(kind, ErrorKind::InvalidData);
    assert_eq!(message, "lazy pmem backend response did not carry an fd");
}

#[test]
fn flags_that_cannot_be_read_or_set_end_the_fetch() {
    let client = client();
    let file = reply(&client, true).parsed(served(RANGE)).unwrap();
    assert_eq!(failure(file.descriptor_flags(-1, 9)).0, ErrorKind::Os(9));
    let file = reply(&client, true).parsed(served(RANGE)).unwrap();
    let flags = file.descriptor_flags(0, 0).unwrap();
    assert_eq!(failure(flags.flags_set(-1, 22)).0, ErrorKind::Os(22));
}

#[test]
fn closing_on_exec_adds_a_flag() {
    assert_eq!(FD_CLOEXEC, libc::FD_CLOEXEC);
    assert_eq!(set_close_on_exec(0, 0).unwrap(), 1);
    assert_eq!(set_close_on_exec(1, 0).unwrap(), 1);
    assert_eq!(set_close_on_exec(0x10, 0).unwrap(), 0x11);
    assert_eq!(set_close_on_exec(-1, 9).unwrap_err().kind(), ErrorKind::Os(9));
}

#[test]
fn file_must_be_regular_and_as_large_as_the_image() {
    let client = client();
    let (kind, message) = failure(stat(&client).metadata(false, 0));
    assert_eq!(kind, ErrorKind::InvalidData);
    assert_eq!(message, "lazy pmem backend fd is not a regular file");
    let (kind, message) = failure(stat(&client).metadata(true, 10));
    assert_eq!(kind, ErrorKind::InvalidData);
    assert_eq!(message, "lazy pmem backend cache fd size is 10, expected 8192");
}
