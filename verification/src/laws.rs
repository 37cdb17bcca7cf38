//! What holds of the library as a whole.

use vstd::arithmetic::div_mod::{
    lemma_add_mod_noop, lemma_fundamental_div_mod, lemma_mod_decreases, lemma_mod_multiples_vanish,
    lemma_small_mod, lemma_sub_mod_noop,
};
use vstd::prelude::*;
use vstd::utf8::{encode_utf8, encode_utf8_decode_utf8};

use crate::client::{
    client_outcome, requested_range_outcome, returned_range_outcome, ClientView, Timeout,
    DEFAULT_TIMEOUT_SECS, MICROS_PER_SEC,
};
use crate::error::{error_of, os_error, ErrorKind, IoErrorView};
use crate::fetch::{
    close_on_exec_outcome, fetch_outcome, file_offset_of, sequence_after_start, start_outcome,
    FetchAnswers, FetchView, PageMapping, ServedView, FD_CLOEXEC,
};
use crate::handler::{
    fault_outcome, handler_run, next_step, page_start, FaultAction, HandlerEventView, HandlerStep,
    HandlerView,
};
use crate::region::{
    registered_region, registration_run, RegionView, RegistrationStep, RegistrationView,
};
use crate::socket::{
    address_outcome, padded_path, seqpacket_run, timeval_outcome, ConnectStepView, SeqpacketView,
    TimeVal, SA_FAMILY_LEN, SUN_PATH_LEN,
};
use crate::text::{
    decimal, decimal_ends_with_the_digits, decimal_is_injective, digit_is_injective,
};
use crate::userfaultfd::{
    little_endian_bytes, little_endian_value, native_bytes, pagefault_outcome, zero_outcome,
    UffdSetup, UffdStep, Userfaultfd, UFFD_EVENT_PAGEFAULT, UFFD_MSG_SIZE,
};
use crate::wire::{
    json_char, json_chars, json_string, op_name, request_id_text, request_text, response_outcome,
    sequence_after, FetchRange, FetchRequestView, FetchResponseView, PROTOCOL_VERSION,
};

verus! {

/// The whole image may always be asked for.
pub proof fn whole_image_may_be_requested(client: ClientView)
    requires
        client.wf(),
    ensures
        requested_range_outcome(client, 0, client.pmem_size) is Ok,
{
    lemma_small_mod(0, client.page_size as nat);
}

/// A request that is refused is the fault of the caller. It ends the fetch
/// before anything is sent, whatever would have come back, and draws no number.
pub proof fn refused_request_has_no_effect(
    client: ClientView,
    pos: u64,
    len: u64,
    request_id: Seq<char>,
    answers: FetchAnswers,
    sequence: u64,
)
    requires
        len == 0 || !client.aligned(pos) || !client.aligned(len) || pos + len > client.pmem_size,
    ensures
        requested_range_outcome(client, pos, len) matches Err(error) && {
            &&& error.kind == ErrorKind::InvalidInput
            &&& start_outcome(client, pos, len, request_id) == Err::<FetchView, IoErrorView>(error)
            &&& fetch_outcome(client, pos, len, request_id, answers) == Err::<
                ServedView,
                IoErrorView,
            >(error)
        },
        sequence_after_start(client, pos, len, sequence) == sequence,
{
}

/// The timeout of a client is one that the system takes: its microseconds are
/// fewer than a second has, and its seconds are kept wherever they fit.
pub proof fn client_timeout_is_what_the_system_takes(client: ClientView)
    requires
        client.wf(),
    ensures
        timeval_outcome(client.timeout) matches Ok(value) ==> {
            &&& value.tv_sec == client.timeout.secs
            &&& value.tv_usec == client.timeout.subsec_micros
            &&& 0 <= value.tv_usec < MICROS_PER_SEC
        },
        timeval_outcome(client.timeout) is Ok <==> client.timeout.secs <= i64::MAX,
{
}

/// A new client is well-formed, and waits for as long as the default timeout.
pub proof fn new_client_has_the_default_timeout(
    socket: Seq<u8>,
    backend_id: Seq<char>,
    pmem_size: u64,
    page_size: i64,
    errno: i32,
)
    requires
        client_outcome(socket, backend_id, pmem_size, page_size, errno) is Ok,
    ensures
        ({
            let client = client_outcome(socket, backend_id, pmem_size, page_size, errno)->Ok_0;
            &&& client.wf()
            &&& timeval_outcome(client.timeout) == Ok::<TimeVal, IoErrorView>(
                TimeVal { tv_sec: DEFAULT_TIMEOUT_SECS as i64, tv_usec: 0 },
            )
        }),
{
}

/// A range that is accepted for a request holds every requested byte, and each
/// of them has its place in a cache file as large as the image.
pub proof fn accepted_range_holds_the_request(
    client: ClientView,
    range: FetchRange,
    pos: u64,
    len: u64,
    byte: int,
)
    requires
        returned_range_outcome(client, range, pos, len) is Ok,
        pos <= byte < pos + len,
    ensures
        range.off <= byte < range.off + range.len,
        0 <= range.dev_off + (byte - range.off) < client.pmem_size,
{
}

/// A backend that makes available exactly what was asked for, or the whole
/// image, is never turned away.
pub proof fn honest_ranges_are_accepted(client: ClientView, pos: u64, len: u64, dev_off: u64)
    requires
        client.wf(),
        requested_range_outcome(client, pos, len) is Ok,
        client.aligned(dev_off),
        dev_off + len <= client.pmem_size,
    ensures
        returned_range_outcome(client, FetchRange { off: pos, len, dev_off }, pos, len) is Ok,
        returned_range_outcome(
            client,
            FetchRange { off: 0, len: client.pmem_size, dev_off: 0 },
            pos,
            len,
        ) is Ok,
{
    lemma_small_mod(0, client.page_size as nat);
}

/// A range that is accepted for a request is accepted for every part of it.
pub proof fn accepted_range_serves_every_part(
    client: ClientView,
    range: FetchRange,
    pos: u64,
    len: u64,
    part_pos: u64,
    part_len: u64,
)
    requires
        returned_range_outcome(client, range, pos, len) is Ok,
        pos <= part_pos,
        part_pos + part_len <= pos + len,
    ensures
        returned_range_outcome(client, range, part_pos, part_len) is Ok,
{
}

/// The requested bytes of a served fetch stand in the cache file as whole
/// pages.
pub proof fn requested_bytes_are_pages_of_the_file(served: ServedView)
    requires
        served.wf(),
    ensures
        0 <= file_offset_of(served),
        file_offset_of(served) + served.fetch.request.len <= served.fetch.client.pmem_size,
        file_offset_of(served) % served.fetch.client.page_size as int == 0,
{
    let page = served.fetch.client.page_size as int;
    let range = served.range;
    let pos = served.fetch.request.pos as int;
    lemma_sub_mod_noop(pos, range.off as int, page);
    lemma_small_mod(0, page as nat);
    assert((pos - range.off) % page == 0);
    lemma_add_mod_noop(range.dev_off as int, pos - range.off, page);
}

proof fn common_prefix_cancels(prefix: Seq<char>, a: Seq<char>, b: Seq<char>)
    requires
        prefix + a == prefix + b,
    ensures
        a == b,
{
    assert(a =~= (prefix + a).skip(prefix.len() as int));
    assert(b =~= (prefix + b).skip(prefix.len() as int));
}

/// Requests of different processes, and different requests of one process,
/// have different identifiers.
pub proof fn request_ids_are_distinct(
    process_a: u32,
    sequence_a: u64,
    process_b: u32,
    sequence_b: u64,
)
    requires
        request_id_text(process_a, sequence_a) == request_id_text(process_b, sequence_b),
    ensures
        process_a == process_b,
        sequence_a == sequence_b,
{
    reveal_strlit("-");
    let tail_a = "-"@ + decimal(sequence_a as nat);
    let tail_b = "-"@ + decimal(sequence_b as nat);
    common_prefix_cancels(
        "cloud-hypervisor-"@,
        decimal(process_a as nat) + tail_a,
        decimal(process_b as nat) + tail_b,
    );
    decimal_ends_with_the_digits(process_a as nat, process_b as nat, tail_a, tail_b);
    common_prefix_cancels("-"@, decimal(sequence_a as nat), decimal(sequence_b as nat));
    decimal_is_injective(sequence_a as nat, sequence_b as nat);
}

proof fn draws_count_up(sequence: u64, draws: nat)
    ensures
        sequence_after(sequence, draws) == (sequence + draws) % 0x1_0000_0000_0000_0000,
    decreases draws,
{
    if draws > 0 {
        draws_count_up(sequence, (draws - 1) as nat);
    }
}

/// No two requests have the same identifier, as long as the numbers do not
/// start over between them.
pub proof fn drawn_request_ids_are_distinct(process_id: u32, sequence: u64, a: nat, b: nat)
    requires
        a < b < a + 0x1_0000_0000_0000_0000,
    ensures
        request_id_text(process_id, sequence_after(sequence, a)) != request_id_text(
            process_id,
            sequence_after(sequence, b),
        ),
{
    draws_count_up(sequence, a);
    draws_count_up(sequence, b);
    if request_id_text(process_id, sequence_after(sequence, a)) == request_id_text(
        process_id,
        sequence_after(sequence, b),
    ) {
        request_ids_are_distinct(
            process_id,
            sequence_after(sequence, a),
            process_id,
            sequence_after(sequence, b),
        );
    }
}

proof fn json_char_is_prefix_free(c: char, d: char, after_c: Seq<char>, after_d: Seq<char>)
    requires
        json_char(c) + after_c == json_char(d) + after_d,
    ensures
        c == d,
        after_c == after_d,
{
    let whole = json_char(c) + after_c;
    assert(whole == json_char(d) + after_d);
    assert(whole[0] == json_char(c)[0] && whole[0] == json_char(d)[0]);
    if json_char(c).len() > 1 {
        assert(whole[1] == json_char(c)[1]);
    }
    if json_char(d).len() > 1 {
        assert(whole[1] == json_char(d)[1]);
    }
    if json_char(c).len() == 6 && json_char(d).len() == 6 {
        assert(whole[4] == json_char(c)[4] && whole[4] == json_char(d)[4]);
        assert(whole[5] == json_char(c)[5] && whole[5] == json_char(d)[5]);
        digit_is_injective(c as int / 16, d as int / 16);
        digit_is_injective(c as int % 16, d as int % 16);
        assert(c as int == d as int);
    }
    assert(c == d);
    common_prefix_cancels(json_char(c), after_c, after_d);
}

proof fn json_chars_are_prefix_free(
    s: Seq<char>,
    t: Seq<char>,
    after_s: Seq<char>,
    after_t: Seq<char>,
)
    requires
        json_chars(s) + (seq!['"'] + after_s) == json_chars(t) + (seq!['"'] + after_t),
    ensures
        s == t,
        after_s == after_t,
    decreases s.len(),
{
    let end_s = seq!['"'] + after_s;
    let end_t = seq!['"'] + after_t;
    let whole = json_chars(s) + end_s;
    assert(whole == json_chars(t) + end_t);
    if s.len() == 0 && t.len() == 0 {
        assert(s =~= t);
        assert(whole =~= end_s);
        assert(whole =~= end_t);
        common_prefix_cancels(seq!['"'], after_s, after_t);
    } else if s.len() == 0 {
        assert(whole[0] == '"');
        assert(whole[0] == json_char(t[0])[0]);
    } else if t.len() == 0 {
        assert(whole[0] == '"');
        assert(whole[0] == json_char(s[0])[0]);
    } else {
        let rest_s = json_chars(s.drop_first()) + end_s;
        let rest_t = json_chars(t.drop_first()) + end_t;
        assert(whole =~= json_char(s[0]) + rest_s);
        assert(whole =~= json_char(t[0]) + rest_t);
        json_char_is_prefix_free(s[0], t[0], rest_s, rest_t);
        json_chars_are_prefix_free(s.drop_first(), t.drop_first(), after_s, after_t);
        assert(s =~= seq![s[0]] + s.drop_first());
        assert(t =~= seq![t[0]] + t.drop_first());
    }
}

/// A JSON string ends at its closing quote, and no other string has its text.
pub proof fn json_string_is_prefix_free(
    s: Seq<char>,
    t: Seq<char>,
    after_s: Seq<char>,
    after_t: Seq<char>,
)
    requires
        json_string(s) + after_s == json_string(t) + after_t,
    ensures
        s == t,
        after_s == after_t,
{
    let body_s = json_chars(s) + (seq!['"'] + after_s);
    let body_t = json_chars(t) + (seq!['"'] + after_t);
    assert(json_string(s) + after_s =~= seq!['"'] + body_s);
    assert(json_string(t) + after_t =~= seq!['"'] + body_t);
    common_prefix_cancels(seq!['"'], body_s, body_t);
    json_chars_are_prefix_free(s, t, after_s, after_t);
}

/// A message carries one request: requests with the same message are equal.
pub proof fn message_determines_the_request(a: FetchRequestView, b: FetchRequestView)
    requires
        encode_utf8(request_text(a)) == encode_utf8(request_text(b)),
    ensures
        a == b,
{
    encode_utf8_decode_utf8(request_text(a));
    encode_utf8_decode_utf8(request_text(b));
    reveal_strlit(",\"request_id\":");
    reveal_strlit(",\"len\":");
    reveal_strlit("}");
    let len_a = decimal(a.len as nat) + "}"@;
    let len_b = decimal(b.len as nat) + "}"@;
    let pos_a = decimal(a.pos as nat) + (",\"len\":"@ + len_a);
    let pos_b = decimal(b.pos as nat) + (",\"len\":"@ + len_b);
    let backend_a = json_string(a.backend_id) + (",\"pos\":"@ + pos_a);
    let backend_b = json_string(b.backend_id) + (",\"pos\":"@ + pos_b);
    let op_a = op_name(a.op) + (",\"instance_id\":"@ + backend_a);
    let op_b = op_name(b.op) + (",\"instance_id\":"@ + backend_b);
    let id_a = json_string(a.request_id) + (",\"op\":"@ + op_a);
    let id_b = json_string(b.request_id) + (",\"op\":"@ + op_b);
    let version_a = decimal(a.protocol_version as nat) + (",\"request_id\":"@ + id_a);
    let version_b = decimal(b.protocol_version as nat) + (",\"request_id\":"@ + id_b);
    common_prefix_cancels("{\"protocol_version\":"@, version_a, version_b);
    decimal_ends_with_the_digits(
        a.protocol_version as nat,
        b.protocol_version as nat,
        ",\"request_id\":"@ + id_a,
        ",\"request_id\":"@ + id_b,
    );
    common_prefix_cancels(",\"request_id\":"@, id_a, id_b);
    json_string_is_prefix_free(
        a.request_id,
        b.request_id,
        ",\"op\":"@ + op_a,
        ",\"op\":"@ + op_b,
    );
    common_prefix_cancels(",\"op\":"@, op_a, op_b);
    common_prefix_cancels(
        op_name(a.op),
        ",\"instance_id\":"@ + backend_a,
        ",\"instance_id\":"@ + backend_b,
    );
    common_prefix_cancels(",\"instance_id\":"@, backend_a, backend_b);
    json_string_is_prefix_free(
        a.backend_id,
        b.backend_id,
        ",\"pos\":"@ + pos_a,
        ",\"pos\":"@ + pos_b,
    );
    common_prefix_cancels(",\"pos\":"@, pos_a, pos_b);
    decimal_ends_with_the_digits(
        a.pos as nat,
        b.pos as nat,
        ",\"len\":"@ + len_a,
        ",\"len\":"@ + len_b,
    );
    common_prefix_cancels(",\"len\":"@, len_a, len_b);
    decimal_ends_with_the_digits(a.len as nat, b.len as nat, "}"@, "}"@);
}

/// A refusal by the backend yields no range, whatever it says; if it answers
/// the request, its code and its message are what is reported.
pub proof fn refusal_yields_no_range(
    protocol_version: u32,
    response_id: Seq<char>,
    code: u16,
    msg: Seq<char>,
    request_id: Seq<char>,
)
    ensures
        ({
            let outcome = response_outcome(
                FetchResponseView::Error { protocol_version, request_id: response_id, code, msg },
                request_id,
            );
            &&& outcome is Err
            &&& protocol_version == PROTOCOL_VERSION && response_id == request_id ==> outcome
                == Err::<FetchRange, IoErrorView>(
                error_of(
                    ErrorKind::Other,
                    "lazy pmem backend error "@ + decimal(code as nat) + ": "@ + msg,
                ),
            )
        }),
{
}

/// A reply that is accepted speaks the protocol, answers the request and
/// carries one range.
pub proof fn accepted_reply_answers_the_request(
    response: FetchResponseView,
    request_id: Seq<char>,
)
    requires
        response_outcome(response, request_id) is Ok,
    ensures
        response == (FetchResponseView::FetchOk {
            protocol_version: PROTOCOL_VERSION,
            request_id,
            ranges: seq![response_outcome(response, request_id)->Ok_0],
        }),
{
    assert(response->ranges =~= seq![response_outcome(response, request_id)->Ok_0]);
}

/// A fetch succeeds exactly when the request is acceptable, all of it is
/// written, a reply comes in that answers it with one acceptable range and
/// carries a file, the file can be made to close on `exec`, and it is a regular
/// file as large as the image. The result is the range of that reply.
pub proof fn fetch_succeeds_exactly_when_all_is_well(
    client: ClientView,
    pos: u64,
    len: u64,
    request_id: Seq<char>,
    answers: FetchAnswers,
)
    ensures
        fetch_outcome(client, pos, len, request_id, answers) is Ok <==> {
            &&& start_outcome(client, pos, len, request_id) matches Ok(fetch)
            &&& requested_range_outcome(client, pos, len) is Ok
            &&& answers.sent == fetch.payload().len()
            &&& answers.received > 0
            &&& answers.has_fd
            &&& response_outcome(answers.response, request_id) matches Ok(range)
            &&& returned_range_outcome(client, range, pos, len) is Ok
            &&& answers.flags >= 0
            &&& answers.flags_set >= 0
            &&& answers.is_file
            &&& answers.file_len == client.pmem_size
        },
        fetch_outcome(client, pos, len, request_id, answers) matches Ok(served) ==> {
            &&& response_outcome(answers.response, request_id) == Ok::<FetchRange, IoErrorView>(
                served.range,
            )
            &&& start_outcome(client, pos, len, request_id) == Ok::<FetchView, IoErrorView>(
                served.fetch,
            )
            &&& client.wf() ==> served.wf()
        },
{
}

/// A file that is made to close on `exec` keeps its other descriptor flags.
pub proof fn closing_on_exec_keeps_other_flags(reply: i32, errno: i32)
    requires
        reply >= 0,
    ensures
        close_on_exec_outcome(reply, errno) matches Ok(flags) && {
            &&& flags & FD_CLOEXEC == FD_CLOEXEC
            &&& flags & !FD_CLOEXEC == reply & !FD_CLOEXEC
            &&& flags >= 0
        },
{
    assert((reply | 1i32) & 1i32 == 1i32) by (bit_vector);
    assert((reply | 1i32) & !1i32 == reply & !1i32) by (bit_vector);
    assert((reply | 1i32) >= 0) by (bit_vector)
        requires
            reply >= 0i32,
    ;
}

/// The path of a socket address is the path it was made of, and a zero ends it
/// within the bytes in use.
pub proof fn socket_path_is_terminated(path: Seq<u8>)
    requires
        path.len() < SUN_PATH_LEN,
    ensures
        address_outcome(path) matches Ok(address) && {
            &&& address.path.len() == SUN_PATH_LEN
            &&& address.path.take(path.len() as int) == path
            &&& address.path[path.len() as int] == 0
            &&& address.len == SA_FAMILY_LEN + path.len() + 1
        },
{
    assert(padded_path(path).take(path.len() as int) =~= path);
}

/// A connection takes four calls: it opens the socket, connects it and sets
/// both timeouts. It is made exactly when each of them succeeds, the path fits
/// an address and the timeout fits the system, and it is the opened socket.
pub proof fn connection_takes_four_calls(path: Seq<u8>, timeout: Timeout, replies: Seq<(i32, i32)>)
    requires
        replies.len() == 4,
    ensures
        ({
            let start = SeqpacketView { path, timeout, step: ConnectStepView::Open };
            let run = seqpacket_run(start, replies);
            &&& run is Ok <==> {
                &&& forall|i: int| 0 <= i < 4 ==> (#[trigger] replies[i]).0 >= 0
                &&& path.len() < SUN_PATH_LEN
                &&& timeout.secs <= i64::MAX
            }
            &&& run matches Ok(socket) ==> socket.step == (ConnectStepView::Connected {
                fd: replies[0].0,
            })
        }),
{
    reveal_with_fuel(seqpacket_run, 5);
    let two = replies.drop_first();
    let three = two.drop_first();
    let four = three.drop_first();
    assert(two[0] == replies[1] && three[0] == replies[2] && four[0] == replies[3]);
}

/// The first call of a connection that fails ends it with its error.
pub proof fn failed_call_ends_the_connection(
    socket: SeqpacketView,
    reply: i32,
    errno: i32,
    later: Seq<(i32, i32)>,
)
    requires
        reply < 0,
    ensures
        seqpacket_run(socket, seq![(reply, errno)] + later) == Err::<SeqpacketView, IoErrorView>(
            os_error(errno),
        ),
{
}

spec fn values_of_bytes(count: nat) -> nat
    decreases count,
{
    if count == 0 {
        1
    } else {
        256 * values_of_bytes((count - 1) as nat)
    }
}

proof fn bytes_spell_their_number(n: nat, count: nat)
    requires
        n < values_of_bytes(count),
    ensures
        little_endian_bytes(n, count).len() == count,
        little_endian_value(little_endian_bytes(n, count)) == n,
    decreases count,
{
    if count > 0 {
        bytes_spell_their_number(n / 256, (count - 1) as nat);
        assert(little_endian_bytes(n, count).drop_first() =~= little_endian_bytes(
            n / 256,
            (count - 1) as nat,
        ));
    }
}

/// A page fault message in which an address was written, in the byte order of
/// the machine, reports that address.
pub proof fn pagefault_message_reports_its_address(message: Seq<u8>, address: u64)
    requires
        message.len() == UFFD_MSG_SIZE,
        message[0] == UFFD_EVENT_PAGEFAULT,
        message.subrange(16, 24) == native_bytes(address),
    ensures
        pagefault_outcome(message) == Ok::<u64, IoErrorView>(address),
{
    reveal_with_fuel(values_of_bytes, 9);
    bytes_spell_their_number(address as nat, 8);
    let bytes = little_endian_bytes(address as nat, 8);
    assert(bytes.reverse().reverse() =~= bytes);
}

/// A request to zero a range is done exactly when the kernel accepts it and
/// says that it has zeroed all of the range.
pub proof fn zeroing_is_complete(reply: i32, errno: i32, zeropage: i64, len: u64)
    requires
        len <= i64::MAX,
    ensures
        zero_outcome(reply, errno, zeropage, len) is Ok <==> reply >= 0 && zeropage == len,
{
}

/// A registration takes three calls: it creates the descriptor, shakes hands
/// and registers the range. It is made exactly when each of them succeeds and
/// the region is not empty, and the region keeps what it was described as.
pub proof fn registration_takes_three_calls(
    registration: RegistrationView,
    features: u64,
    replies: Seq<(i64, i32)>,
)
    requires
        registration.step == RegistrationStep::Setup(
            UffdSetup { features, step: UffdStep::Create },
        ),
        replies.len() == 3,
    ensures
        ({
            let run = registration_run(registration, replies);
            &&& run is Ok <==> {
                &&& forall|i: int| 0 <= i < 3 ==> (#[trigger] replies[i]).0 >= 0
                &&& registration.size > 0
            }
            &&& run matches Ok(done) ==> registered_region(done) == Some(
                RegionView {
                    base_hva: registration.base_hva,
                    size: registration.size,
                    data_size: registration.data_size,
                    backend_id: registration.backend_id,
                    socket: registration.socket,
                    uffd: Userfaultfd { fd: replies[0].0 as i32 },
                },
            )
        }),
{
    reveal_with_fuel(registration_run, 4);
    let two = replies.drop_first();
    let three = two.drop_first();
    assert(two[0] == replies[1] && three[0] == replies[2]);
}

/// The page that holds the byte at `offset` of an image holds it whole, and is
/// a page of the image.
proof fn page_is_in_the_image(client: ClientView, offset: u64)
    requires
        client.wf(),
        offset < client.pmem_size,
    ensures
        page_start(offset, client.page_size) == offset - offset % client.page_size,
        page_start(offset, client.page_size) <= offset < page_start(offset, client.page_size)
            + client.page_size,
        client.aligned(page_start(offset, client.page_size)),
        page_start(offset, client.page_size) + client.page_size <= client.pmem_size,
{
    let page = client.page_size as int;
    let size = client.pmem_size as int;
    let q = offset as int / page;
    let pages = size / page;
    lemma_mod_decreases(offset as nat, page as nat);
    lemma_fundamental_div_mod(offset as int, page);
    lemma_fundamental_div_mod(size, page);
    let start = page_start(offset, client.page_size) as int;
    assert(start == page * q);
    lemma_mod_multiples_vanish(q, 0, page);
    lemma_small_mod(0, page as nat);
    assert(q < pages) by (nonlinear_arith)
        requires
            page * q <= offset < size,
            size == page * pages,
            page > 0,
    ;
    assert(page * q + page <= page * pages) by (nonlinear_arith)
        requires
            q < pages,
            page > 0,
    ;
}

/// A fault is resolved exactly when it is in the region, and what resolves it
/// is a whole page of the region that holds the address.
pub proof fn fault_is_resolved_with_its_page(handler: HandlerView, address: u64)
    requires
        handler.client.wf(),
    ensures
        fault_outcome(handler, address) is Ok <==> handler.base_hva <= address < handler.base_hva
            + handler.client.pmem_size,
        fault_outcome(handler, address) matches Ok(action) ==> {
            let (start, len) = match action {
                FaultAction::Fetch { start, pos, len } => (start, len),
                FaultAction::Zero { start, len } => (start, len),
            };
            &&& len == handler.client.page_size
            &&& handler.base_hva <= start <= address < start + len
            &&& start + len <= handler.base_hva + handler.client.pmem_size
            &&& (start - handler.base_hva) % len as int == 0
        },
{
    if handler.base_hva <= address < handler.base_hva + handler.client.pmem_size {
        page_is_in_the_image(handler.client, (address - handler.base_hva) as u64);
    }
}

/// What a fault asks for may be fetched, and is put where it belongs.
pub proof fn fault_asks_for_what_may_be_fetched(
    handler: HandlerView,
    address: u64,
    request_id: Seq<char>,
)
    requires
        handler.client.wf(),
    ensures
        fault_outcome(handler, address) matches Ok(FaultAction::Fetch { start, pos, len }) ==> {
            &&& start == handler.base_hva + pos
            &&& start_outcome(handler.client, pos, len, request_id) is Ok
        },
{
    if handler.base_hva <= address < handler.base_hva + handler.client.pmem_size {
        page_is_in_the_image(handler.client, (address - handler.base_hva) as u64);
        let page = handler.client.page_size as int;
        assert(page % page == 0) by {
            lemma_mod_multiples_vanish(1, 0, page);
            lemma_small_mod(0, page as nat);
        }
    }
}

/// A fault on data is fetched; if the data is made of whole pages, a fault on
/// padding is zeroed.
pub proof fn data_is_fetched_and_padding_is_zeroed(handler: HandlerView, address: u64)
    requires
        handler.client.wf(),
        handler.base_hva <= address < handler.base_hva + handler.client.pmem_size,
    ensures
        address < handler.base_hva + handler.data_size ==> {
            &&& fault_outcome(handler, address) matches Ok(action)
            &&& action is Fetch
        },
        address >= handler.base_hva + handler.data_size && handler.client.aligned(
            handler.data_size,
        ) ==> {
            &&& fault_outcome(handler, address) matches Ok(action)
            &&& action is Zero
        },
{
    let offset = (address - handler.base_hva) as u64;
    page_is_in_the_image(handler.client, offset);
    if offset >= handler.data_size && handler.client.aligned(handler.data_size) {
        let page = handler.client.page_size as int;
        let q = offset as int / page;
        let data = handler.data_size as int / page;
        lemma_fundamental_div_mod(offset as int, page);
        lemma_fundamental_div_mod(handler.data_size as int, page);
        assert(data <= q) by (nonlinear_arith)
            requires
                page * data <= page * q + offset % handler.client.page_size,
                offset % handler.client.page_size < page,
                page > 0,
        ;
        assert(page * data <= page * q) by (nonlinear_arith)
            requires
                data <= q,
                page > 0,
        ;
    }
}

/// Two faults on one page are resolved alike.
pub proof fn faults_of_one_page_are_resolved_alike(handler: HandlerView, a: u64, b: u64)
    requires
        handler.client.wf(),
        fault_outcome(handler, a) is Ok,
        fault_outcome(handler, b) is Ok,
        (a - handler.base_hva) / handler.client.page_size as int == (b - handler.base_hva)
            / handler.client.page_size as int,
    ensures
        fault_outcome(handler, a) == fault_outcome(handler, b),
{
    let page = handler.client.page_size as int;
    let offset_a = (a - handler.base_hva) as u64;
    let offset_b = (b - handler.base_hva) as u64;
    page_is_in_the_image(handler.client, offset_a);
    page_is_in_the_image(handler.client, offset_b);
    lemma_fundamental_div_mod(offset_a as int, page);
    lemma_fundamental_div_mod(offset_b as int, page);
}

/// Once the page that a fault asks for has been fetched and mapped, the address
/// of the fault shows the byte of the cache file that stands for it.
pub proof fn faulting_address_shows_its_byte(
    handler: HandlerView,
    address: u64,
    served: ServedView,
    mapping: PageMapping,
)
    requires
        handler.client.wf(),
        served.wf(),
        handler_run(
            handler,
            HandlerStep::Wait,
            seq![HandlerEventView::Fault(address), HandlerEventView::Fetched(served)],
        ) == HandlerStep::MapPage(mapping),
    ensures
        mapping.start <= address < mapping.start + mapping.len,
        served.range.off <= address - handler.base_hva < served.range.off + served.range.len,
        mapping.file_offset + (address - mapping.start) == served.range.dev_off + ((address
            - handler.base_hva) - served.range.off),
        mapping.file_offset + mapping.len <= handler.client.pmem_size,
{
    let events = seq![HandlerEventView::Fault(address), HandlerEventView::Fetched(served)];
    let first = seq![HandlerEventView::Fault(address)];
    assert(events.drop_last() =~= first);
    assert(first.drop_last() =~= Seq::<HandlerEventView>::empty());
    reveal_with_fuel(handler_run, 3);
    requested_bytes_are_pages_of_the_file(served);
    fault_is_resolved_with_its_page(handler, address);
    fault_asks_for_what_may_be_fetched(handler, address, served.fetch.request.request_id);
}

/// A step that fails leads to the announcement that a fault cannot be resolved.
pub proof fn failure_is_announced(handler: HandlerView, step: HandlerStep)
    requires
        !(step is SignalFatal),
        !(step is Stopped),
    ensures
        next_step(handler, step, HandlerEventView::Failed) == HandlerStep::SignalFatal,
{
}

/// Once a fault cannot be resolved, no fault is resolved any more, whatever
/// happens.
pub proof fn nothing_is_resolved_after_a_failure(
    handler: HandlerView,
    events: Seq<HandlerEventView>,
)
    ensures
        handler_run(handler, HandlerStep::SignalFatal, events) == if events.len() == 0 {
            HandlerStep::SignalFatal
        } else {
            HandlerStep::Stopped
        },
    decreases events.len(),
{
    if events.len() > 0 {
        nothing_is_resolved_after_a_failure(handler, events.drop_last());
    }
}

/// A page is mapped only from a fetch that the client of the handler was served
/// for it, threads are woken
/// only where a page has been mapped, and zeros are filled in only for a fault
/// on padding.
pub proof fn faults_are_resolved_in_order(
    handler: HandlerView,
    step: HandlerStep,
    event: HandlerEventView,
)
    ensures
        next_step(handler, step, event) matches HandlerStep::MapPage(mapping) ==> {
            &&& event matches HandlerEventView::Fetched(served)
            &&& served.fetch.client == handler.client
            &&& step == (HandlerStep::Fetch {
                start: mapping.start,
                pos: served.fetch.request.pos,
                len: served.fetch.request.len,
            })
            &&& mapping == (PageMapping {
                start: mapping.start,
                len: served.fetch.request.len,
                file_offset: file_offset_of(served) as u64,
            })
        },
        next_step(handler, step, event) matches HandlerStep::Wake { start, len } ==> {
            &&& step matches HandlerStep::MapPage(mapping)
            &&& mapping.start == start
            &&& mapping.len == len
            &&& event is Done
        },
        next_step(handler, step, event) matches HandlerStep::Zero { start, len } ==> {
            &&& step is Wait
            &&& event matches HandlerEventView::Fault(address)
            &&& fault_outcome(handler, address) == Ok::<FaultAction, IoErrorView>(
                FaultAction::Zero { start, len },
            )
        },
        next_step(handler, step, event) matches HandlerStep::Fetch { start, pos, len } ==> {
            &&& step is Wait
            &&& event matches HandlerEventView::Fault(address)
            &&& fault_outcome(handler, address) == Ok::<FaultAction, IoErrorView>(
                FaultAction::Fetch { start, pos, len },
            )
        },
{
}

} // verus!
