use lazy_pmem::error::ErrorKind;
use lazy_pmem::wire::{
    next_request_id, response_range, validate_response_identity, FetchOp, FetchRange, FetchRequest,
    FetchResponse, RequestIds, MAX_PACKET_SIZE, PROTOCOL_VERSION,
};
use serde_json::Value;

fn request(request_id: &str, backend_id: &str, pos: u64, len: u64) -> FetchRequest {
    FetchRequest {
        protocol_version: PROTOCOL_VERSION,
        request_id: request_id.to_string(),
        op: FetchOp::Fetch,
        backend_id: backend_id.to_string(),
        pos,
        len,
    }
}

fn object(request_id: &str, backend_id: &str, pos: u64, len: u64) -> Value {
    let mut fields = serde_json::Map::new();
    fields.insert("protocol_version".to_string(), Value::from(1));
    fields.insert("request_id".to_string(), Value::from(request_id));
    fields.insert("op".to_string(), Value::from("fetch"));
    fields.insert("instance_id".to_string(), Value::from(backend_id));
    fields.insert("pos".to_string(), Value::from(pos));
    fields.insert("len".to_string(), Value::from(len));
    Value::Object(fields)
}

#[test]
fn fetch_request_schema_matches_lazyd_v1() {
    let request = FetchRequest {
        protocol_version: PROTOCOL_VERSION,
        request_id: "req-1".to_string(),
        op: FetchOp::Fetch,
        backend_id: "erofs-sha256-content".to_string(),
        pos: 4096,
        len: 8192,
    };
    let mut expected = serde_json::Map::new();
    expected.insert("protocol_version".to_string(), Value::from(1));
    expected.insert("request_id".to_string(), Value::from("req-1"));
    expected.insert("op".to_string(), Value::from("fetch"));
    expected.insert("instance_id".to_string(), Value::from("erofs-sha256-content"));
    expected.insert("pos".to_string(), Value::from(4096));
    expected.insert("len".to_string(), Value::from(8192));
    assert_eq!(
        serde_json::from_slice::<Value>(&request.to_bytes()).unwrap(),
        Value::Object(expected)
    );
}

#[test]
fn request_fields_keep_their_order() {
    let text = String::from_utf8(request("req-1", "image", 0, 4096).to_bytes()).unwrap();
    assert_eq!(
        text,
        "{\"protocol_version\":1,\"request_id\":\"req-1\",\"op\":\"fetch\",\
         \"instance_id\":\"image\",\"pos\":0,\"len\":4096}"
    );
}

#[test]
fn names_are_escaped() {
    let mut name = String::new();
    for code in 0..0x180u32 {
        name.push(char::from_u32(code).unwrap());
    }
    name.push('\u{2028}');
    name.push('\u{1f600}');
    let bytes = request(&name, "a\"b\\c", 1, u64::MAX).to_bytes();
    assert_eq!(
        serde_json::from_slice::<Value>(&bytes).unwrap(),
        object(&name, "a\"b\\c", 1, u64::MAX)
    );
    let text = String::from_utf8(bytes).unwrap();
    assert!(text.contains("\\u0000\\u0001"));
    assert!(text.contains("\\u0007\\b\\t\\n\\u000b\\f\\r\\u000e"));
    assert!(text.contains("\\u001f !\\\""));
    assert!(text.contains("\"a\\\"b\\\\c\""));
    assert!(text.contains("~\u{7f}\u{80}"));
}

#[test]
fn different_requests_have_different_messages() {
    let messages = [
        request("a", "bc", 1, 23).to_bytes(),
        request("ab", "c", 1, 23).to_bytes(),
        request("a", "bc", 12, 3).to_bytes(),
        request("a\",\"op\":\"fetch", "bc", 1, 23).to_bytes(),
    ];
    for i in 0..messages.len() {
        for j in 0..i {
            assert_ne!(messages[i], messages[j]);
        }
    }
}

#[test]
fn request_ids_name_the_process_and_the_request() {
    let id = |process_id: u32, sequence: u64| {
        next_request_id(&mut RequestIds { sequence }, process_id)
    };
    assert_eq!(id(0, 1), "cloud-hypervisor-0-1");
    assert_eq!(id(4321, 10), "cloud-hypervisor-4321-10");
    assert_eq!(id(u32::MAX, u64::MAX), format!("cloud-hypervisor-{}-{}", u32::MAX, u64::MAX));
    assert_ne!(id(1, 23), id(12, 3));
}

#[test]
fn request_numbers_count_up_from_one_and_start_over() {
    let mut ids = RequestIds::new();
    assert_eq!(next_request_id(&mut ids, 5), "cloud-hypervisor-5-1");
    assert_eq!(next_request_id(&mut ids, 5), "cloud-hypervisor-5-2");
    let mut ids = RequestIds { sequence: u64::MAX };
    assert_eq!(next_request_id(&mut ids, 5), "cloud-hypervisor-5-18446744073709551615");
    assert_eq!(next_request_id(&mut ids, 5), "cloud-hypervisor-5-0");
}

#[test]
fn reply_of_another_version_is_rejected() {
    let error = validate_response_identity(2, "id", "id").unwrap_err();
    assert_eq!(error.kind(), ErrorKind::InvalidData);
    assert_eq!(error.message(), "lazy pmem backend returned protocol_version 2");
    assert!(validate_response_identity(1, "id", "id").is_ok());
}

#[test]
fn reply_to_another_request_is_rejected() {
    let error = validate_response_identity(1, "theirs", "ours").unwrap_err();
    assert_eq!(error.kind(), ErrorKind::InvalidData);
    assert_eq!(
        error.message(),
        "lazy pmem backend returned request_id theirs, expected ours"
    );
}

fn served(ranges: Vec<FetchRange>) -> FetchResponse {
    FetchResponse::FetchOk { protocol_version: 1, request_id: "id".to_string(), ranges }
}

#[test]
fn reply_carries_one_range() {
    let range = FetchRange { off: 1, len: 2, dev_off: 3 };
    assert_eq!(response_range(&served(vec![range]), "id").unwrap(), range);

    let error = response_range(&served(vec![]), "id").unwrap_err();
    assert_eq!(error.kind(), ErrorKind::InvalidData);
    assert_eq!(error.message(), "lazy pmem backend returned 0 ranges, expected one");
    let error = response_range(&served(vec![range, range]), "id").unwrap_err();
    assert_eq!(error.message(), "lazy pmem backend returned 2 ranges, expected one");
    let error = response_range(&served(vec![range, range]), "other").unwrap_err();
    assert_eq!(error.message(), "lazy pmem backend returned request_id id, expected other");
}

#[test]
fn refusal_is_reported() {
    let refusal = |protocol_version: u32, request_id: &str| FetchResponse::Error {
        protocol_version,
        request_id: request_id.to_string(),
        code: 503,
        msg: "range unavailable".to_string(),
    };
    let error = response_range(&refusal(1, "id"), "id").unwrap_err();
    assert_eq!(error.kind(), ErrorKind::Other);
    assert_eq!(error.message(), "lazy pmem backend error 503: range unavailable");
    let error = response_range(&refusal(0, "id"), "id").unwrap_err();
    assert_eq!(error.message(), "lazy pmem backend returned protocol_version 0");
    let error = response_range(&refusal(1, "x"), "id").unwrap_err();
    assert_eq!(error.kind(), ErrorKind::InvalidData);
}

#[test]
fn messages_are_read_up_to_64_kib() {
    assert_eq!(MAX_PACKET_SIZE, 64 << 10);
}
