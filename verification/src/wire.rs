//! The fetch protocol: its messages and what makes them acceptable.

use vstd::prelude::*;
use vstd::string::{StrSliceExecFns, StringExecFns};
use vstd::utf8::encode_utf8;

use crate::error::{error_of, invalid_data, viewed, ErrorKind, IoError, IoErrorView};
use crate::text::{decimal, digit, push_decimal};

verus! {

/// The version of the protocol that both sides speak.
pub const PROTOCOL_VERSION: u32 = 1;

/// The largest message that is read from the backend.
pub const MAX_PACKET_SIZE: usize = 0x10000;

/// What a request asks for.
#[derive(Debug, Clone, Copy, PartialEq, Eq, Structural)]
pub enum FetchOp {
    /// Bring a range of the image into the cache.
    Fetch,
}

/// A request to the backend.
#[derive(Debug)]
pub struct FetchRequest {
    pub protocol_version: u32,
    pub request_id: String,
    pub op: FetchOp,
    pub backend_id: String,
    pub pos: u64,
    pub len: u64,
}

/// The mathematical content of a [`FetchRequest`].
pub struct FetchRequestView {
    pub protocol_version: u32,
    pub request_id: Seq<char>,
    pub op: FetchOp,
    pub backend_id: Seq<char>,
    pub pos: u64,
    pub len: u64,
}

impl View for FetchRequest {
    type V = FetchRequestView;

    open spec fn view(&self) -> FetchRequestView {
        FetchRequestView {
            protocol_version: self.protocol_version,
            request_id: self.request_id@,
            op: self.op,
            backend_id: self.backend_id@,
            pos: self.pos,
            len: self.len,
        }
    }
}

/// A range that the backend has made available: `len` bytes at `off` of the
/// image, which stand at `dev_off` of the cache file.
#[derive(Debug, Clone, Copy, PartialEq, Eq, Structural)]
pub struct FetchRange {
    pub off: u64,
    pub len: u64,
    pub dev_off: u64,
}

impl View for FetchRange {
    type V = FetchRange;

    open spec fn view(&self) -> FetchRange {
        *self
    }
}

/// A reply of the backend.
#[derive(Debug)]
pub enum FetchResponse {
    /// The request was served.
    FetchOk { protocol_version: u32, request_id: String, ranges: Vec<FetchRange> },
    /// The request was refused.
    Error { protocol_version: u32, request_id: String, code: u16, msg: String },
}

/// The mathematical content of a [`FetchResponse`].
pub enum FetchResponseView {
    FetchOk { protocol_version: u32, request_id: Seq<char>, ranges: Seq<FetchRange> },
    Error { protocol_version: u32, request_id: Seq<char>, code: u16, msg: Seq<char> },
}

impl View for FetchResponse {
    type V = FetchResponseView;

    open spec fn view(&self) -> FetchResponseView {
        match self {
            FetchResponse::FetchOk { protocol_version, request_id, ranges } => {
                FetchResponseView::FetchOk {
                    protocol_version: *protocol_version,
                    request_id: request_id@,
                    ranges: ranges@,
                }
            },
            FetchResponse::Error { protocol_version, request_id, code, msg } => {
                FetchResponseView::Error {
                    protocol_version: *protocol_version,
                    request_id: request_id@,
                    code: *code,
                    msg: msg@,
                }
            },
        }
    }
}

/// The identifier of the `sequence`th request of process `process_id`.
pub open spec fn request_id_text(process_id: u32, sequence: u64) -> Seq<char> {
    "cloud-hypervisor-"@ + (decimal(process_id as nat) + ("-"@ + decimal(sequence as nat)))
}

/// The number after `sequence`. The numbers start over once they run out.
pub open spec fn next_sequence(sequence: u64) -> u64 {
    if sequence == u64::MAX {
        0
    } else {
        (sequence + 1) as u64
    }
}

/// The number that is next once `draws` numbers have been drawn from
/// `sequence` on.
pub open spec fn sequence_after(sequence: u64, draws: nat) -> u64
    decreases draws,
{
    if draws == 0 {
        sequence
    } else {
        next_sequence(sequence_after(sequence, (draws - 1) as nat))
    }
}

/// The numbers that requests are told apart by.
#[derive(Debug, PartialEq, Eq, Structural)]
pub struct RequestIds {
    /// The number of the next request.
    pub sequence: u64,
}

impl RequestIds {
    /// The numbers from one on.
    pub fn new() -> (ids: RequestIds)
        ensures
            ids.sequence == 1,
    {
        RequestIds { sequence: 1 }
    }
}

/// Draws the number of the next request, and makes the identifier of that
/// request of process `process_id`.
pub fn next_request_id(ids: &mut RequestIds, process_id: u32) -> (id: String)
    ensures
        id@ == request_id_text(process_id, old(ids).sequence),
        final(ids).sequence == next_sequence(old(ids).sequence),
{
    let sequence: u64 = ids.sequence;
    ids.sequence = sequence.wrapping_add(1);
    let mut id = "cloud-hypervisor-".to_owned();
    push_decimal(&mut id, process_id as u64);
    id.append("-");
    push_decimal(&mut id, sequence);
    id
}

/// The text of one character inside a JSON string.
pub open spec fn json_char(c: char) -> Seq<char> {
    if c == '"' || c == '\\' {
        seq!['\\', c]
    } else if c == '\u{8}' {
        seq!['\\', 'b']
    } else if c == '\t' {
        seq!['\\', 't']
    } else if c == '\n' {
        seq!['\\', 'n']
    } else if c == '\u{c}' {
        seq!['\\', 'f']
    } else if c == '\r' {
        seq!['\\', 'r']
    } else if (c as int) < 0x20 {
        seq!['\\', 'u', '0', '0', digit(c as int / 16), digit(c as int % 16)]
    } else {
        seq![c]
    }
}

/// The text of `s` between the quotes of a JSON string.
pub open spec fn json_chars(s: Seq<char>) -> Seq<char>
    decreases s.len(),
{
    if s.len() == 0 {
        seq![]
    } else {
        json_char(s[0]) + json_chars(s.drop_first())
    }
}

/// `s` as a JSON string.
pub open spec fn json_string(s: Seq<char>) -> Seq<char> {
    seq!['"'] + (json_chars(s) + seq!['"'])
}

/// `serde_json::to_string` of a string: the string between quotes, with the
/// quote, the backslash and the control characters below U+0020 escaped, in
/// their short forms where JSON has one, and every other character as it is.
/// Serializing a string does not fail.
#[verifier::external_body]
fn to_json_string(s: &str) -> (text: String)
    ensures
        text@ == json_string(s@),
{
    serde_json::to_string(s).expect("a string is serializable")
}

/// The name of an operation on the wire.
pub open spec fn op_name(op: FetchOp) -> Seq<char> {
    match op {
        FetchOp::Fetch => "\"fetch\""@,
    }
}

/// A request as JSON text. The backend is named `instance_id` on the wire.
pub open spec fn request_text(request: FetchRequestView) -> Seq<char> {
    "{\"protocol_version\":"@ + (decimal(request.protocol_version as nat) + (
    ",\"request_id\":"@ + (json_string(request.request_id) + (",\"op\":"@ + (op_name(request.op) + (
    ",\"instance_id\":"@ + (json_string(request.backend_id) + (",\"pos\":"@ + (decimal(
        request.pos as nat,
    ) + (",\"len\":"@ + (decimal(request.len as nat) + "}"@)))))))))))
}

impl FetchRequest {
    /// The message that carries the request: its JSON text in UTF-8.
    pub fn to_bytes(&self) -> (payload: Vec<u8>)
        ensures
            payload@ == encode_utf8(request_text(self@)),
    {
        let mut text = "{\"protocol_version\":".to_owned();
        push_decimal(&mut text, self.protocol_version as u64);
        text.append(",\"request_id\":");
        text.append(to_json_string(self.request_id.as_str()).as_str());
        text.append(",\"op\":");
        match self.op {
            FetchOp::Fetch => text.append("\"fetch\""),
        }
        text.append(",\"instance_id\":");
        text.append(to_json_string(self.backend_id.as_str()).as_str());
        text.append(",\"pos\":");
        push_decimal(&mut text, self.pos);
        text.append(",\"len\":");
        push_decimal(&mut text, self.len);
        text.append("}");
        assert(text@ =~= request_text(self@));
        text.as_str().as_bytes_vec()
    }
}

/// Whether a reply is of the right version and answers the request with
/// identifier `request_id`.
pub open spec fn identity_outcome(
    version: u32,
    response_id: Seq<char>,
    request_id: Seq<char>,
) -> Result<(), IoErrorView> {
    if version != PROTOCOL_VERSION {
        Err(
            error_of(
                ErrorKind::InvalidData,
                "lazy pmem backend returned protocol_version "@ + decimal(version as nat),
            ),
        )
    } else if response_id != request_id {
        Err(
            error_of(
                ErrorKind::InvalidData,
                "lazy pmem backend returned request_id "@ + response_id + ", expected "@
                    + request_id,
            ),
        )
    } else {
        Ok(())
    }
}

/// Accepts a reply only if it is of the right version and answers the request
/// with identifier `request_id`.
pub fn validate_response_identity(version: u32, response_id: &str, request_id: &str) -> (result:
    Result<(), IoError>)
    ensures
        viewed(result) == identity_outcome(version, response_id@, request_id@),
{
    if version != PROTOCOL_VERSION {
        let mut message = "lazy pmem backend returned protocol_version ".to_owned();
        push_decimal(&mut message, version as u64);
        return Err(invalid_data(message.as_str()));
    }
    if !(response_id.to_owned() == request_id.to_owned()) {
        let mut message = "lazy pmem backend returned request_id ".to_owned();
        message.append(response_id);
        message.append(", expected ");
        message.append(request_id);
        return Err(invalid_data(message.as_str()));
    }
    Ok(())
}

/// The range that a reply to the request with identifier `request_id` carries.
pub open spec fn response_outcome(response: FetchResponseView, request_id: Seq<char>) -> Result<
    FetchRange,
    IoErrorView,
> {
    match response {
        FetchResponseView::FetchOk { protocol_version, request_id: response_id, ranges } => {
            match identity_outcome(protocol_version, response_id, request_id) {
                Err(error) => Err(error),
                Ok(_) => if ranges.len() != 1 {
                    Err(
                        error_of(
                            ErrorKind::InvalidData,
                            "lazy pmem backend returned "@ + decimal(ranges.len())
                                + " ranges, expected one"@,
                        ),
                    )
                } else {
                    Ok(ranges[0])
                },
            }
        },
        FetchResponseView::Error { protocol_version, request_id: response_id, code, msg } => {
            match identity_outcome(protocol_version, response_id, request_id) {
                Err(error) => Err(error),
                Ok(_) => Err(
                    error_of(
                        ErrorKind::Other,
                        "lazy pmem backend error "@ + decimal(code as nat) + ": "@ + msg,
                    ),
                ),
            }
        },
    }
}

/// Takes the range out of a reply to the request with identifier `request_id`.
pub fn response_range(response: &FetchResponse, request_id: &str) -> (result: Result<
    FetchRange,
    IoError,
>)
    ensures
        viewed(result) == response_outcome(response@, request_id@),
{
    match response {
        FetchResponse::FetchOk { protocol_version, request_id: response_id, ranges } => {
            match validate_response_identity(*protocol_version, response_id.as_str(), request_id) {
                Err(error) => return Err(error),
                Ok(()) => {},
            }
            if ranges.len() != 1 {
                let mut message = "lazy pmem backend returned ".to_owned();
                push_decimal(&mut message, ranges.len() as u64);
                message.append(" ranges, expected one");
                return Err(invalid_data(message.as_str()));
            }
            Ok(ranges[0])
        },
        FetchResponse::Error { protocol_version, request_id: response_id, code, msg } => {
            match validate_response_identity(*protocol_version, response_id.as_str(), request_id) {
                Err(error) => return Err(error),
                Ok(()) => {},
            }
            let mut message = "lazy pmem backend error ".to_owned();
            push_decimal(&mut message, *code as u64);
            message.append(": ");
            message.append(msg.as_str());
            Err(IoError::new(ErrorKind::Other, message))
        },
    }
}

} // verus!
