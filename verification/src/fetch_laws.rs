//! What a client asks for, what it sends, and what it takes for an answer.

use vstd::prelude::*;
use vstd::utf8::{encode_utf8, encode_utf8_decode_utf8, encode_utf8_valid_utf8};

use crate::client::{
    client_outcome, requested_range_outcome, returned_range_outcome, ClientView, Timeout,
};
use crate::error::{error_of, os_error, viewed, ErrorKind, IoError, IoErrorView};
use crate::fetch::{
    close_on_exec_outcome, fetch_outcome, file_offset_of, flags_outcome, flags_set_outcome,
    metadata_outcome, parsed_outcome, received_outcome, sent_outcome, sequence_after_start,
    start_outcome, FetchAnswers, FetchView, FlagsView, ReplyView, ServedView,
};
use crate::os::os_outcome;
use crate::text::decimal;
use crate::wire::{
    identity_outcome, json_string, op_name, request_text, response_outcome, FetchOp, FetchRange,
    FetchRequest, FetchResponse, FetchResponseView,
};

verus! {

/// A result is a success or a failure as it stands, and keeps what it carries.
pub proof fn results_keep_what_they_carry<T: View>(value: T, error: IoError)
    ensures
        viewed(Ok::<T, IoError>(value)) == Ok::<T::V, IoErrorView>(value@),
        viewed(Err::<T, IoError>(error)) == Err::<T::V, IoErrorView>(error@),
{
}

/// An error keeps its kind and its message; one of the operating system has its
/// number and no message.
pub proof fn errors_keep_what_they_carry(kind: ErrorKind, message: Seq<char>, code: i32)
    ensures
        error_of(kind, message).kind == kind,
        error_of(kind, message).message == message,
        os_error(code).kind == ErrorKind::Os(code),
        os_error(code).message.len() == 0,
{
}

/// A system call has failed exactly when its reply is negative; otherwise the
/// reply is its value.
pub proof fn negative_replies_are_failures(reply: i64, errno: i32)
    ensures
        match os_outcome(reply, errno) {
            Ok(value) => reply >= 0 && value == reply,
            Err(error) => reply < 0 && error.kind == ErrorKind::Os(errno) && error.message.len()
                == 0,
        },
{
}

/// Messages and ranges hold what their fields say.
pub proof fn messages_hold_their_fields(
    request: FetchRequest,
    response: FetchResponse,
    range: FetchRange,
)
    ensures
        request@.protocol_version == request.protocol_version,
        request@.request_id == request.request_id@,
        request@.op == request.op,
        request@.backend_id == request.backend_id@,
        request@.pos == request.pos,
        request@.len == request.len,
        range@ == range,
        match response {
            FetchResponse::FetchOk { protocol_version, request_id, ranges } => response@ == (
            FetchResponseView::FetchOk {
                protocol_version,
                request_id: request_id@,
                ranges: ranges@,
            }),
            FetchResponse::Error { protocol_version, request_id, code, msg } => response@ == (
            FetchResponseView::Error {
                protocol_version,
                request_id: request_id@,
                code,
                msg: msg@,
            }),
        },
{
}

/// What every client is known for.
pub proof fn clients_have_whole_pages(client: ClientView)
    ensures
        client.wf() <==> {
            &&& client.socket.len() > 0
            &&& client.backend_id.len() > 0
            &&& client.page_size > 0
            &&& client.pmem_size > 0
            &&& client.pmem_size as int % client.page_size as int == 0
            &&& client.timeout.subsec_micros < 1_000_000
        },
{
}

/// A client can be made exactly of a socket, a name, a page size that the
/// system gave and a size of one or more whole pages, and keeps all of them.
/// Of several things that are wrong, the first in this order is reported.
pub proof fn client_is_made_of_what_it_was_given(
    socket: Seq<u8>,
    backend_id: Seq<char>,
    pmem_size: u64,
    page_size: i64,
    errno: i32,
)
    ensures
        match client_outcome(socket, backend_id, pmem_size, page_size, errno) {
            Ok(client) => {
                &&& socket.len() > 0
                &&& backend_id.len() > 0
                &&& page_size > 0
                &&& pmem_size > 0
                &&& pmem_size as int % page_size as int == 0
                &&& client.socket == socket
                &&& client.backend_id == backend_id
                &&& client.pmem_size == pmem_size
                &&& client.page_size == page_size
                &&& client.timeout == (Timeout { secs: 30, subsec_micros: 0 })
            },
            Err(error) => if socket.len() == 0 {
                &&& error.kind == ErrorKind::InvalidInput
                &&& error.message == "lazy pmem backend socket must not be empty"@
            } else if backend_id.len() == 0 {
                &&& error.kind == ErrorKind::InvalidInput
                &&& error.message == "lazy pmem backend_id must not be empty"@
            } else if page_size <= 0 {
                &&& error.kind == ErrorKind::Os(errno)
                &&& error.message.len() == 0
            } else {
                &&& pmem_size == 0 || pmem_size as int % page_size as int != 0
                &&& error.kind == ErrorKind::InvalidInput
                &&& error.message == "lazy pmem size must be non-zero and page aligned"@
            },
        },
{
}

/// A request is accepted exactly when it is for one or more whole pages of the
/// image. One that is not is refused for the first thing that is wrong with it.
pub proof fn request_is_accepted_exactly_for_whole_pages(client: ClientView, pos: u64, len: u64)
    requires
        client.page_size > 0,
    ensures
        ({
            let page = client.page_size as int;
            let whole = len > 0 && pos as int % page == 0 && len as int % page == 0;
            match requested_range_outcome(client, pos, len) {
                Ok(_) => whole && pos + len <= client.pmem_size,
                Err(error) => {
                    &&& error.kind == ErrorKind::InvalidInput
                    &&& !whole ==> error.message
                        == "FETCH pos and len must be non-zero and page aligned"@
                    &&& whole ==> pos + len > client.pmem_size
                    &&& whole && pos + len > u64::MAX ==> error.message
                        == "FETCH range overflows u64"@
                    &&& whole && pos + len <= u64::MAX ==> error.message
                        == "FETCH range exceeds pmem size"@
                },
            }
        }),
{
}

/// Requests that are accepted one after the other are accepted as one, and each
/// page of an accepted request is accepted by itself.
pub proof fn accepted_requests_join(client: ClientView, pos: u64, first: u64, second: u64)
    requires
        client.wf(),
        requested_range_outcome(client, pos, first) is Ok,
        requested_range_outcome(client, (pos + first) as u64, second) is Ok,
    ensures
        requested_range_outcome(client, pos, (first + second) as u64) is Ok,
        requested_range_outcome(client, pos, client.page_size) is Ok,
{
    let page = client.page_size as int;
    vstd::arithmetic::div_mod::lemma_add_mod_noop(first as int, second as int, page);
    vstd::arithmetic::div_mod::lemma_small_mod(0, page as nat);
    vstd::arithmetic::div_mod::lemma_mod_self_0(page);
    if first < page {
        vstd::arithmetic::div_mod::lemma_small_mod(first as nat, page as nat);
    }
}

/// A range is accepted for a request exactly when it is one or more whole pages
/// of the image, at whole pages of the cache, and contains the request. One
/// that is not is refused for the first thing that is wrong with it.
pub proof fn range_is_accepted_exactly_when_it_serves_the_request(
    client: ClientView,
    range: FetchRange,
    pos: u64,
    len: u64,
)
    requires
        client.page_size > 0,
    ensures
        ({
            let page = client.page_size as int;
            let end = range.off + range.len;
            let dev_end = range.dev_off + range.len;
            let whole = range.len > 0 && range.off as int % page == 0 && range.dev_off as int % page
                == 0 && range.len as int % page == 0;
            let fits = end <= client.pmem_size && dev_end <= client.pmem_size;
            match returned_range_outcome(client, range, pos, len) {
                Ok(_) => whole && fits && range.off <= pos && pos + len <= end,
                Err(error) => {
                    &&& error.kind == ErrorKind::InvalidData
                    &&& if !whole {
                        error.message
                            == "lazy pmem backend returned a zero-length or unaligned range"@
                    } else if end > u64::MAX {
                        error.message == "lazy pmem backend range overflows u64"@
                    } else if dev_end > u64::MAX {
                        error.message == "lazy pmem backend device range overflows u64"@
                    } else if !fits {
                        error.message == "lazy pmem backend range exceeds pmem size"@
                    } else {
                        &&& range.off > pos || end < pos + len
                        &&& error.message
                            == "lazy pmem backend range does not contain the requested range"@
                    }
                },
            }
        }),
{
}

/// The message of a request is a JSON object of its six fields, in UTF-8. The
/// name of the image goes by `instance_id`, and the operation by `fetch`.
pub proof fn message_is_the_request_as_json(fetch: FetchView)
    ensures
        ({
            let request = fetch.request;
            let text = "{\"protocol_version\":"@ + decimal(request.protocol_version as nat)
                + ",\"request_id\":"@ + json_string(request.request_id) + ",\"op\":"@
                + "\"fetch\""@ + ",\"instance_id\":"@ + json_string(request.backend_id)
                + ",\"pos\":"@ + decimal(request.pos as nat) + ",\"len\":"@ + decimal(
                request.len as nat,
            ) + "}"@;
            &&& request_text(request) == text
            &&& fetch.payload() == encode_utf8(text)
            &&& vstd::utf8::valid_utf8(fetch.payload())
            &&& vstd::utf8::decode_utf8(fetch.payload()) == text
        }),
{
    let request = fetch.request;
    assert(op_name(request.op) == "\"fetch\""@);
    let text = "{\"protocol_version\":"@ + decimal(request.protocol_version as nat)
        + ",\"request_id\":"@ + json_string(request.request_id) + ",\"op\":"@ + "\"fetch\""@
        + ",\"instance_id\":"@ + json_string(request.backend_id) + ",\"pos\":"@ + decimal(
        request.pos as nat,
    ) + ",\"len\":"@ + decimal(request.len as nat) + "}"@;
    assert(request_text(request) =~= text);
    encode_utf8_valid_utf8(text);
    encode_utf8_decode_utf8(text);
}

/// A fetch that starts sends a request for exactly the range that was asked
/// for, to the image of its client, under its own identifier. It starts exactly
/// for one or more whole pages of the image, and draws exactly one number then.
pub proof fn fetch_asks_for_what_was_asked(
    client: ClientView,
    pos: u64,
    len: u64,
    request_id: Seq<char>,
    sequence: u64,
)
    requires
        client.page_size > 0,
    ensures
        ({
            let page = client.page_size as int;
            let whole = len > 0 && pos as int % page == 0 && len as int % page == 0 && pos + len
                <= client.pmem_size;
            &&& match start_outcome(client, pos, len, request_id) {
                Ok(fetch) => {
                    &&& whole
                    &&& fetch.client == client
                    &&& fetch.request.protocol_version == 1
                    &&& fetch.request.request_id == request_id
                    &&& fetch.request.op == FetchOp::Fetch
                    &&& fetch.request.backend_id == client.backend_id
                    &&& fetch.request.pos == pos
                    &&& fetch.request.len == len
                    &&& client.wf() ==> fetch.wf()
                },
                Err(error) => !whole && requested_range_outcome(client, pos, len) == Err::<
                    (),
                    IoErrorView,
                >(error),
            }
            &&& sequence_after_start(client, pos, len, sequence) == if whole {
                (sequence + 1) % 0x1_0000_0000_0000_0000
            } else {
                sequence as int
            }
        }),
{
}

/// A fetch goes on exactly when all of its message was written, and nothing of
/// it changes.
pub proof fn fetch_goes_on_once_all_is_sent(fetch: FetchView, sent: usize)
    ensures
        match sent_outcome(fetch, sent) {
            Ok(next) => sent == encode_utf8(request_text(fetch.request)).len() && next == fetch,
            Err(error) => {
                &&& sent != encode_utf8(request_text(fetch.request)).len()
                &&& error.kind == ErrorKind::WriteZero
                &&& error.message == "short lazy pmem backend request write"@
            },
        },
{
}

/// A reply is what was read, no more and no less; to read nothing is to be hung
/// up on.
pub proof fn reply_is_what_was_read(
    fetch: FetchView,
    buffer: Seq<u8>,
    received: usize,
    has_fd: bool,
)
    ensures
        match received_outcome(fetch, buffer, received, has_fd) {
            Ok(reply) => {
                &&& received > 0
                &&& reply.fetch == fetch
                &&& reply.has_fd == has_fd
                &&& reply.data.len() == if received <= buffer.len() {
                    received as int
                } else {
                    buffer.len() as int
                }
                &&& forall|i: int|
                    0 <= i < reply.data.len() ==> #[trigger] reply.data[i] == buffer[i]
            },
            Err(error) => {
                &&& received == 0
                &&& error.kind == ErrorKind::UnexpectedEof
                &&& error.message == "lazy pmem backend closed the data socket"@
            },
        },
{
}

/// A reply answers a request exactly when it has the version of the protocol
/// and the identifier of the request. The version is looked at first.
pub proof fn reply_answers_exactly_its_request(
    version: u32,
    response_id: Seq<char>,
    request_id: Seq<char>,
)
    ensures
        match identity_outcome(version, response_id, request_id) {
            Ok(_) => version == 1 && response_id == request_id,
            Err(error) => {
                &&& error.kind == ErrorKind::InvalidData
                &&& version != 1 ==> error.message
                    == "lazy pmem backend returned protocol_version "@ + decimal(version as nat)
                &&& version == 1 ==> response_id != request_id && error.message
                    == "lazy pmem backend returned request_id "@ + response_id + ", expected "@
                    + request_id
            },
        },
{
}

/// A reply yields a range exactly when it answers the request and carries that
/// one range. Who it answers is looked at before what it says.
pub proof fn reply_yields_exactly_its_one_range(
    version: u32,
    response_id: Seq<char>,
    ranges: Seq<FetchRange>,
    request_id: Seq<char>,
)
    ensures
        ({
            let response = FetchResponseView::FetchOk {
                protocol_version: version,
                request_id: response_id,
                ranges,
            };
            match response_outcome(response, request_id) {
                Ok(range) => {
                    &&& version == 1
                    &&& response_id == request_id
                    &&& ranges == seq![range]
                },
                Err(error) => {
                    &&& error.kind == ErrorKind::InvalidData
                    &&& version != 1 || response_id != request_id ==> identity_outcome(
                        version,
                        response_id,
                        request_id,
                    ) == Err::<(), IoErrorView>(error)
                    &&& version == 1 && response_id == request_id ==> {
                        &&& ranges.len() != 1
                        &&& error.message == "lazy pmem backend returned "@ + decimal(ranges.len())
                            + " ranges, expected one"@
                    }
                },
            }
        }),
{
    if ranges.len() == 1 {
        assert(ranges =~= seq![ranges[0]]);
    }
}

/// A refusal that does not answer the request is reported as such, whatever it
/// says; one that does is reported with its code and its message.
pub proof fn refusal_is_reported_once_it_answers(
    version: u32,
    response_id: Seq<char>,
    code: u16,
    msg: Seq<char>,
    request_id: Seq<char>,
)
    ensures
        ({
            let response = FetchResponseView::Error {
                protocol_version: version,
                request_id: response_id,
                code,
                msg,
            };
            response_outcome(response, request_id) matches Err(error) && if version == 1
                && response_id == request_id {
                &&& error.kind == ErrorKind::Other
                &&& error.message == "lazy pmem backend error "@ + decimal(code as nat) + ": "@
                    + msg
            } else {
                identity_outcome(version, response_id, request_id) == Err::<(), IoErrorView>(error)
            }
        }),
{
}

/// A reply serves its fetch exactly when it yields a range that is accepted for
/// the request, and a file came with it. The first of these that fails is
/// reported, and the fetch keeps its client and its request.
pub proof fn fetch_is_served_by_an_acceptable_reply(reply: ReplyView, response: FetchResponseView)
    ensures
        ({
            let request = reply.fetch.request;
            let answer = response_outcome(response, request.request_id);
            match parsed_outcome(reply, response) {
                Ok(served) => {
                    &&& answer == Ok::<FetchRange, IoErrorView>(served.range)
                    &&& returned_range_outcome(
                        reply.fetch.client,
                        served.range,
                        request.pos,
                        request.len,
                    ) is Ok
                    &&& reply.has_fd
                    &&& served.fetch == reply.fetch
                },
                Err(error) => match answer {
                    Err(refusal) => error == refusal,
                    Ok(range) => match returned_range_outcome(
                        reply.fetch.client,
                        range,
                        request.pos,
                        request.len,
                    ) {
                        Err(refusal) => error == refusal,
                        Ok(_) => {
                            &&& !reply.has_fd
                            &&& error.kind == ErrorKind::InvalidData
                            &&& error.message == "lazy pmem backend response did not carry an fd"@
                        },
                    },
                },
            }
        }),
{
}

/// Closing a file on `exec` sets the lowest descriptor flag and no other, and
/// fails exactly when the flags could not be read.
pub proof fn closing_on_exec_sets_one_flag(served: ServedView, reply: i32, errno: i32)
    ensures
        match close_on_exec_outcome(reply, errno) {
            Ok(flags) => {
                &&& reply >= 0
                &&& flags as int / 2 == reply as int / 2
                &&& flags % 2 == 1
                &&& flags_outcome(served, reply, errno) == Ok::<FlagsView, IoErrorView>(
                    FlagsView { served, flags },
                )
            },
            Err(error) => {
                &&& reply < 0
                &&& error.kind == ErrorKind::Os(errno)
                &&& error.message.len() == 0
                &&& flags_outcome(served, reply, errno) == Err::<FlagsView, IoErrorView>(error)
            },
        },
{
    if reply >= 0 {
        assert((reply | 1i32) >= 0 && (reply | 1i32) / 2 == reply / 2 && (reply | 1i32) % 2 == 1)
            by (bit_vector)
            requires
                reply >= 0i32,
        ;
    }
}

/// Setting the descriptor flags fails exactly when the system says so, and
/// changes nothing of the fetch.
pub proof fn setting_flags_keeps_the_fetch(flags: FlagsView, reply: i32, errno: i32)
    ensures
        match flags_set_outcome(flags, reply, errno) {
            Ok(served) => reply >= 0 && served == flags.served,
            Err(error) => reply < 0 && error.kind == ErrorKind::Os(errno) && error.message.len()
                == 0,
        },
{
}

/// A fetch ends well exactly when its file is regular and as large as the image,
/// and changes in nothing.
pub proof fn fetch_ends_with_a_file_as_large_as_the_image(
    served: ServedView,
    is_file: bool,
    len: u64,
)
    ensures
        match metadata_outcome(served, is_file, len) {
            Ok(fetched) => is_file && len == served.fetch.client.pmem_size && fetched == served,
            Err(error) => {
                &&& error.kind == ErrorKind::InvalidData
                &&& !is_file ==> error.message == "lazy pmem backend fd is not a regular file"@
                &&& is_file ==> len != served.fetch.client.pmem_size && error.message
                    == "lazy pmem backend cache fd size is "@ + decimal(len as nat) + ", expected "@
                    + decimal(served.fetch.client.pmem_size as nat)
            },
        },
{
}

/// A fetch fails with the error of the first of its steps that fails.
pub proof fn fetch_fails_with_its_first_failure(
    client: ClientView,
    pos: u64,
    len: u64,
    request_id: Seq<char>,
    answers: FetchAnswers,
)
    ensures
        fetch_outcome(client, pos, len, request_id, answers) matches Err(error) ==> {
            match start_outcome(client, pos, len, request_id) {
                Err(refused) => error == refused,
                Ok(fetch) => if answers.sent != fetch.payload().len() {
                    error.kind == ErrorKind::WriteZero
                } else if answers.received == 0 {
                    error.kind == ErrorKind::UnexpectedEof
                } else {
                    match response_outcome(answers.response, request_id) {
                        Err(refused) => error == refused,
                        Ok(range) => match returned_range_outcome(client, range, pos, len) {
                            Err(refused) => error == refused,
                            Ok(_) => if !answers.has_fd {
                                error.kind == ErrorKind::InvalidData
                            } else if answers.flags < 0 {
                                error.kind == ErrorKind::Os(answers.flags_errno)
                            } else if answers.flags_set < 0 {
                                error.kind == ErrorKind::Os(answers.flags_set_errno)
                            } else {
                                &&& error.kind == ErrorKind::InvalidData
                                &&& !answers.is_file || answers.file_len != client.pmem_size
                            },
                        },
                    }
                },
            }
        },
{
}

/// A served fetch is for whole pages of the image, and its range contains them.
/// Byte by byte, the cache file holds the image shifted by one distance.
pub proof fn served_bytes_are_shifted_together(served: ServedView, byte: int)
    requires
        served.wf(),
        served.fetch.request.pos <= byte < served.fetch.request.pos + served.fetch.request.len,
    ensures
        served.fetch.request.protocol_version == 1,
        served.fetch.request.backend_id == served.fetch.client.backend_id,
        served.range.off <= byte < served.range.off + served.range.len,
        served.range.dev_off + served.range.len <= served.fetch.client.pmem_size,
        file_offset_of(served) + (byte - served.fetch.request.pos) - byte == served.range.dev_off
            - served.range.off,
        file_offset_of(served) + (byte - served.fetch.request.pos)
            < served.fetch.client.pmem_size,
{
}

} // verus!
