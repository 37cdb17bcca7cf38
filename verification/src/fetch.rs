//! One fetch, from the request to the cache file that serves it.
//!
//! Each step of a fetch is a type of its own. It says what to do next, and its
//! one consuming method takes what came of it and gives the next step or the
//! error that ends the fetch. A [`FetchResult`] is to be had in no other way.

use vstd::prelude::*;
use vstd::string::StringExecFns;
use vstd::utf8::encode_utf8;

use crate::client::{
    requested_range_outcome, returned_range_outcome, ClientView, LazyPmemBackendClient,
};
use crate::error::{error_of, invalid_data, os_error, viewed, ErrorKind, IoError, IoErrorView};
use crate::text::{decimal, push_decimal};
use crate::wire::{
    next_request_id, next_sequence, request_id_text, request_text, response_outcome,
    response_range, FetchOp, FetchRange, FetchRequest, FetchRequestView, FetchResponse,
    FetchResponseView, RequestIds, MAX_PACKET_SIZE, PROTOCOL_VERSION,
};

verus! {

/// The descriptor flag that closes a file on `exec`.
pub const FD_CLOEXEC: i32 = 1;

/// A fetch that has started: the client and the request that it sends.
pub struct FetchView {
    pub client: ClientView,
    pub request: FetchRequestView,
}

impl FetchView {
    /// What holds of every fetch that has started.
    pub open spec fn wf(self) -> bool {
        &&& self.client.wf()
        &&& self.request.protocol_version == PROTOCOL_VERSION
        &&& self.request.backend_id == self.client.backend_id
        &&& requested_range_outcome(self.client, self.request.pos, self.request.len) is Ok
    }

    /// The message that carries the request.
    pub open spec fn payload(self) -> Seq<u8> {
        encode_utf8(request_text(self.request))
    }
}

/// A fetch whose reply has come in.
pub struct ReplyView {
    pub fetch: FetchView,
    /// The bytes of the reply.
    pub data: Seq<u8>,
    /// Whether a file came with the reply.
    pub has_fd: bool,
}

/// A fetch that the backend has served with `range`.
pub struct ServedView {
    pub fetch: FetchView,
    pub range: FetchRange,
}

impl ServedView {
    /// What holds of every fetch that has been served.
    pub open spec fn wf(self) -> bool {
        &&& self.fetch.wf()
        &&& returned_range_outcome(
            self.fetch.client,
            self.range,
            self.fetch.request.pos,
            self.fetch.request.len,
        ) is Ok
    }
}

/// A served fetch whose file is to get the descriptor flags `flags`.
pub struct FlagsView {
    pub served: ServedView,
    pub flags: i32,
}

/// What a fetch for the `len` bytes at `pos` starts with.
pub open spec fn start_outcome(
    client: ClientView,
    pos: u64,
    len: u64,
    request_id: Seq<char>,
) -> Result<FetchView, IoErrorView> {
    match requested_range_outcome(client, pos, len) {
        Err(error) => Err(error),
        Ok(_) => Ok(
            FetchView {
                client,
                request: FetchRequestView {
                    protocol_version: PROTOCOL_VERSION,
                    request_id,
                    op: FetchOp::Fetch,
                    backend_id: client.backend_id,
                    pos,
                    len,
                },
            },
        ),
    }
}

/// The number of the next request once a fetch for the `len` bytes at `pos` has
/// been started, or refused, when it was `sequence`.
pub open spec fn sequence_after_start(
    client: ClientView,
    pos: u64,
    len: u64,
    sequence: u64,
) -> u64 {
    if requested_range_outcome(client, pos, len) is Ok {
        next_sequence(sequence)
    } else {
        sequence
    }
}

/// What follows once `sent` bytes of the request have been written.
pub open spec fn sent_outcome(fetch: FetchView, sent: usize) -> Result<FetchView, IoErrorView> {
    if sent != fetch.payload().len() {
        Err(error_of(ErrorKind::WriteZero, "short lazy pmem backend request write"@))
    } else {
        Ok(fetch)
    }
}

/// What follows once `received` bytes of a reply have been read into `buffer`.
pub open spec fn received_outcome(
    fetch: FetchView,
    buffer: Seq<u8>,
    received: usize,
    has_fd: bool,
) -> Result<ReplyView, IoErrorView> {
    if received == 0 {
        Err(error_of(ErrorKind::UnexpectedEof, "lazy pmem backend closed the data socket"@))
    } else {
        Ok(
            ReplyView {
                fetch,
                data: if received <= buffer.len() {
                    buffer.take(received as int)
                } else {
                    buffer
                },
                has_fd,
            },
        )
    }
}

/// What follows once the reply has been read as `response`.
pub open spec fn parsed_outcome(reply: ReplyView, response: FetchResponseView) -> Result<
    ServedView,
    IoErrorView,
> {
    match response_outcome(response, reply.fetch.request.request_id) {
        Err(error) => Err(error),
        Ok(range) => match returned_range_outcome(
            reply.fetch.client,
            range,
            reply.fetch.request.pos,
            reply.fetch.request.len,
        ) {
            Err(error) => Err(error),
            Ok(_) => if !reply.has_fd {
                Err(
                    error_of(
                        ErrorKind::InvalidData,
                        "lazy pmem backend response did not carry an fd"@,
                    ),
                )
            } else {
                Ok(ServedView { fetch: reply.fetch, range })
            },
        },
    }
}

/// The descriptor flags to set on a file that has the flags `reply`.
pub open spec fn close_on_exec_outcome(reply: i32, errno: i32) -> Result<i32, IoErrorView> {
    if reply < 0 {
        Err(os_error(errno))
    } else {
        Ok(reply | FD_CLOEXEC)
    }
}

/// What follows once the flags of the file have been read as `reply`.
pub open spec fn flags_outcome(served: ServedView, reply: i32, errno: i32) -> Result<
    FlagsView,
    IoErrorView,
> {
    match close_on_exec_outcome(reply, errno) {
        Err(error) => Err(error),
        Ok(flags) => Ok(FlagsView { served, flags }),
    }
}

/// What follows once setting the flags of the file has been answered `reply`.
pub open spec fn flags_set_outcome(flags: FlagsView, reply: i32, errno: i32) -> Result<
    ServedView,
    IoErrorView,
> {
    if reply < 0 {
        Err(os_error(errno))
    } else {
        Ok(flags.served)
    }
}

/// What follows once the file is known to be regular or not and to have `len`
/// bytes.
pub open spec fn metadata_outcome(served: ServedView, is_file: bool, len: u64) -> Result<
    ServedView,
    IoErrorView,
> {
    if !is_file {
        Err(error_of(ErrorKind::InvalidData, "lazy pmem backend fd is not a regular file"@))
    } else if len != served.fetch.client.pmem_size {
        Err(
            error_of(
                ErrorKind::InvalidData,
                "lazy pmem backend cache fd size is "@ + decimal(len as nat) + ", expected "@
                    + decimal(served.fetch.client.pmem_size as nat),
            ),
        )
    } else {
        Ok(served)
    }
}

/// Everything that comes back in the course of a fetch.
pub struct FetchAnswers {
    /// How many bytes of the request were written.
    pub sent: usize,
    /// What the reply was read into.
    pub buffer: Seq<u8>,
    /// How many bytes were read.
    pub received: usize,
    /// Whether a file came with the reply.
    pub has_fd: bool,
    /// The reply.
    pub response: FetchResponseView,
    /// What reading the descriptor flags returned.
    pub flags: i32,
    /// The error number after reading the descriptor flags.
    pub flags_errno: i32,
    /// What setting the descriptor flags returned.
    pub flags_set: i32,
    /// The error number after setting the descriptor flags.
    pub flags_set_errno: i32,
    /// Whether the file is regular.
    pub is_file: bool,
    /// The size of the file.
    pub file_len: u64,
}

/// What a whole fetch comes to: its steps, one after the other, up to the first
/// that fails.
pub open spec fn fetch_outcome(
    client: ClientView,
    pos: u64,
    len: u64,
    request_id: Seq<char>,
    answers: FetchAnswers,
) -> Result<ServedView, IoErrorView> {
    match start_outcome(client, pos, len, request_id) {
        Err(error) => Err(error),
        Ok(send) => match sent_outcome(send, answers.sent) {
            Err(error) => Err(error),
            Ok(receive) => match received_outcome(
                receive,
                answers.buffer,
                answers.received,
                answers.has_fd,
            ) {
                Err(error) => Err(error),
                Ok(reply) => match parsed_outcome(reply, answers.response) {
                    Err(error) => Err(error),
                    Ok(file) => match flags_outcome(file, answers.flags, answers.flags_errno) {
                        Err(error) => Err(error),
                        Ok(flags) => match flags_set_outcome(
                            flags,
                            answers.flags_set,
                            answers.flags_set_errno,
                        ) {
                            Err(error) => Err(error),
                            Ok(stat) => metadata_outcome(stat, answers.is_file, answers.file_len),
                        },
                    },
                },
            },
        },
    }
}

/// The flags that close a file on `exec`, given the flags that it has, or the
/// failure to read them.
pub fn set_close_on_exec(reply: i32, errno: i32) -> (result: Result<i32, IoError>)
    ensures
        viewed(result) == close_on_exec_outcome(reply, errno),
{
    if reply < 0 {
        return Err(IoError::from_raw_os_error(errno));
    }
    Ok(reply | FD_CLOEXEC)
}

/// A client and an acceptable request of it.
struct Exchange<'a> {
    client: &'a LazyPmemBackendClient,
    request: FetchRequest,
}

impl View for Exchange<'_> {
    type V = FetchView;

    closed spec fn view(&self) -> FetchView {
        FetchView { client: self.client@, request: self.request@ }
    }
}

impl<'a> Exchange<'a> {
    #[verifier::type_invariant]
    spec fn inv(self) -> bool {
        self@.wf()
    }
}

/// The step in which the request is written.
pub struct FetchSend<'a> {
    exchange: Exchange<'a>,
    payload: Vec<u8>,
}

impl View for FetchSend<'_> {
    type V = FetchView;

    closed spec fn view(&self) -> FetchView {
        self.exchange@
    }
}

impl<'a> FetchSend<'a> {
    #[verifier::type_invariant]
    spec fn inv(self) -> bool {
        self.payload@ == self@.payload()
    }

    /// The message to write.
    pub fn payload(&self) -> (payload: &Vec<u8>)
        ensures
            payload@ == self@.payload(),
            self@.wf(),
    {
        proof {
            use_type_invariant(self);
            use_type_invariant(&self.exchange);
        }
        &self.payload
    }

    /// Goes on once `sent` bytes of the message have been written.
    pub fn sent(self, sent: usize) -> (result: Result<FetchReceive<'a>, IoError>)
        ensures
            viewed(result) == sent_outcome(self@, sent),
    {
        proof {
            use_type_invariant(&self);
        }
        if sent != self.payload.len() {
            return Err(
                IoError::new(
                    ErrorKind::WriteZero,
                    "short lazy pmem backend request write".to_owned(),
                ),
            );
        }
        Ok(FetchReceive { exchange: self.exchange })
    }
}

/// The step in which the reply is read.
pub struct FetchReceive<'a> {
    exchange: Exchange<'a>,
}

impl View for FetchReceive<'_> {
    type V = FetchView;

    closed spec fn view(&self) -> FetchView {
        self.exchange@
    }
}

impl<'a> FetchReceive<'a> {
    /// How many bytes to make room for.
    pub fn capacity(&self) -> (capacity: usize)
        ensures
            capacity == MAX_PACKET_SIZE,
    {
        MAX_PACKET_SIZE
    }

    /// Goes on once `received` bytes have been read into `buffer`, with a file
    /// or without one.
    pub fn received(self, buffer: Vec<u8>, received: usize, has_fd: bool) -> (result: Result<
        FetchReply<'a>,
        IoError,
    >)
        ensures
            viewed(result) == received_outcome(self@, buffer@, received, has_fd),
    {
        if received == 0 {
            return Err(
                IoError::new(
                    ErrorKind::UnexpectedEof,
                    "lazy pmem backend closed the data socket".to_owned(),
                ),
            );
        }
        let mut data = buffer;
        data.truncate(received);
        Ok(FetchReply { exchange: self.exchange, data, has_fd })
    }
}

/// The step in which the reply is read as a [`FetchResponse`].
pub struct FetchReply<'a> {
    exchange: Exchange<'a>,
    data: Vec<u8>,
    has_fd: bool,
}

impl View for FetchReply<'_> {
    type V = ReplyView;

    closed spec fn view(&self) -> ReplyView {
        ReplyView { fetch: self.exchange@, data: self.data@, has_fd: self.has_fd }
    }
}

impl<'a> FetchReply<'a> {
    /// The bytes of the reply.
    pub fn data(&self) -> (data: &Vec<u8>)
        ensures
            data@ == self@.data,
    {
        &self.data
    }

    /// Goes on once the reply has been read as `response`.
    pub fn parsed(self, response: FetchResponse) -> (result: Result<FetchFile<'a>, IoError>)
        ensures
            viewed(result) == parsed_outcome(self@, response@),
            result matches Ok(file) ==> file@.wf(),
    {
        proof {
            use_type_invariant(&self.exchange);
        }
        let range = match response_range(&response, self.exchange.request.request_id.as_str()) {
            Ok(range) => range,
            Err(error) => return Err(error),
        };
        let pos: u64 = self.exchange.request.pos;
        let len: u64 = self.exchange.request.len;
        match self.exchange.client.validate_returned_range(range, pos, len) {
            Ok(()) => {},
            Err(error) => return Err(error),
        }
        if !self.has_fd {
            return Err(invalid_data("lazy pmem backend response did not carry an fd"));
        }
        Ok(FetchFile { exchange: self.exchange, range })
    }
}

/// The step in which the descriptor flags of the file are read.
pub struct FetchFile<'a> {
    exchange: Exchange<'a>,
    range: FetchRange,
}

impl View for FetchFile<'_> {
    type V = ServedView;

    closed spec fn view(&self) -> ServedView {
        ServedView { fetch: self.exchange@, range: self.range }
    }
}

impl<'a> FetchFile<'a> {
    #[verifier::type_invariant]
    spec fn inv(self) -> bool {
        self@.wf()
    }

    /// Goes on once the descriptor flags have been read as `reply`, with the
    /// error number `errno` after it.
    pub fn descriptor_flags(self, reply: i32, errno: i32) -> (result: Result<
        FetchFlags<'a>,
        IoError,
    >)
        ensures
            viewed(result) == flags_outcome(self@, reply, errno),
    {
        match set_close_on_exec(reply, errno) {
            Ok(flags) => Ok(FetchFlags { file: self, flags }),
            Err(error) => Err(error),
        }
    }
}

/// The step in which the descriptor flags of the file are set.
pub struct FetchFlags<'a> {
    file: FetchFile<'a>,
    flags: i32,
}

impl View for FetchFlags<'_> {
    type V = FlagsView;

    closed spec fn view(&self) -> FlagsView {
        FlagsView { served: self.file@, flags: self.flags }
    }
}

impl<'a> FetchFlags<'a> {
    /// The flags to set.
    pub fn flags(&self) -> (flags: i32)
        ensures
            flags == self@.flags,
    {
        self.flags
    }

    /// Goes on once setting the flags has been answered `reply`, with the error
    /// number `errno` after it.
    pub fn flags_set(self, reply: i32, errno: i32) -> (result: Result<FetchStat<'a>, IoError>)
        ensures
            viewed(result) == flags_set_outcome(self@, reply, errno),
    {
        if reply < 0 {
            return Err(IoError::from_raw_os_error(errno));
        }
        Ok(FetchStat { file: self.file })
    }
}

/// The step in which the type and the size of the file are looked up.
pub struct FetchStat<'a> {
    file: FetchFile<'a>,
}

impl View for FetchStat<'_> {
    type V = ServedView;

    closed spec fn view(&self) -> ServedView {
        self.file@
    }
}

impl<'a> FetchStat<'a> {
    /// Ends the fetch once the file is known to be regular or not and to have
    /// `len` bytes.
    pub fn metadata(self, is_file: bool, len: u64) -> (result: Result<FetchResult<'a>, IoError>)
        ensures
            viewed(result) == metadata_outcome(self@, is_file, len),
            result matches Ok(fetched) ==> fetched@.wf(),
    {
        proof {
            use_type_invariant(&self.file);
        }
        if !is_file {
            return Err(invalid_data("lazy pmem backend fd is not a regular file"));
        }
        let pmem_size: u64 = self.file.exchange.client.pmem_size();
        if len != pmem_size {
            let mut message = "lazy pmem backend cache fd size is ".to_owned();
            push_decimal(&mut message, len);
            message.append(", expected ");
            push_decimal(&mut message, pmem_size);
            return Err(invalid_data(message.as_str()));
        }
        Ok(FetchResult { file: self.file })
    }
}

/// A fetch that has succeeded: the file that came with the reply holds the
/// requested bytes.
pub struct FetchResult<'a> {
    file: FetchFile<'a>,
}

impl View for FetchResult<'_> {
    type V = ServedView;

    closed spec fn view(&self) -> ServedView {
        self.file@
    }
}

impl FetchResult<'_> {
    /// The range that the backend has made available.
    pub fn range(&self) -> (range: FetchRange)
        ensures
            range == self@.range,
            self@.wf(),
    {
        proof {
            use_type_invariant(&self.file);
        }
        self.file.range
    }

    /// The client that fetched.
    pub fn client(&self) -> (client: &LazyPmemBackendClient)
        ensures
            client@ == self@.fetch.client,
    {
        self.file.exchange.client
    }

    /// Where the requested bytes start in the image.
    pub fn pos(&self) -> (pos: u64)
        ensures
            pos == self@.fetch.request.pos,
    {
        self.file.exchange.request.pos
    }

    /// How many bytes were requested.
    pub fn len(&self) -> (len: u64)
        ensures
            len == self@.fetch.request.len,
    {
        self.file.exchange.request.len
    }

    /// Where the requested bytes start in the file.
    pub fn file_offset(&self) -> (offset: u64)
        ensures
            offset == file_offset_of(self@),
    {
        proof {
            use_type_invariant(&self.file);
        }
        let range = self.file.range;
        range.dev_off + (self.file.exchange.request.pos - range.off)
    }

    /// How the requested bytes are put at address `start`.
    pub fn mapping(&self, start: u64) -> (mapping: PageMapping)
        ensures
            mapping.start == start,
            mapping.len == self@.fetch.request.len,
            mapping.file_offset == file_offset_of(self@),
            mapping == mapping_of(self@, start),
            self@.wf(),
    {
        proof {
            use_type_invariant(&self.file);
        }
        PageMapping { start, len: self.file.exchange.request.len, file_offset: self.file_offset() }
    }
}

/// Puts the `len` bytes at `file_offset` of a cache file at address `start`.
#[derive(Debug, Clone, Copy, PartialEq, Eq, Structural)]
pub struct PageMapping {
    pub start: u64,
    pub len: u64,
    pub file_offset: u64,
}

/// How the requested bytes of a served fetch are put at address `start`.
pub open spec fn mapping_of(served: ServedView, start: u64) -> PageMapping {
    PageMapping {
        start,
        len: served.fetch.request.len,
        file_offset: file_offset_of(served) as u64,
    }
}

/// Where the requested bytes of a served fetch start in the cache file.
pub open spec fn file_offset_of(served: ServedView) -> int {
    served.range.dev_off + (served.fetch.request.pos - served.range.off)
}

impl LazyPmemBackendClient {
    /// Starts a fetch for the `len` bytes at `pos`, as the next request of
    /// process `process_id`. A request that is refused draws no number.
    pub fn fetch<'a>(
        &'a self,
        pos: u64,
        len: u64,
        ids: &mut RequestIds,
        process_id: u32,
    ) -> (result: Result<FetchSend<'a>, IoError>)
        ensures
            viewed(result) == start_outcome(
                self@,
                pos,
                len,
                request_id_text(process_id, old(ids).sequence),
            ),
            final(ids).sequence == sequence_after_start(self@, pos, len, old(ids).sequence),
            result matches Ok(send) ==> send@.wf(),
    {
        match self.validate_requested_range(pos, len) {
            Ok(()) => {},
            Err(error) => return Err(error),
        }
        let request = FetchRequest {
            protocol_version: PROTOCOL_VERSION,
            request_id: next_request_id(ids, process_id),
            op: FetchOp::Fetch,
            backend_id: self.backend_id().to_owned(),
            pos,
            len,
        };
        let payload = request.to_bytes();
        Ok(FetchSend { exchange: Exchange { client: self, request }, payload })
    }
}

} // verus!
