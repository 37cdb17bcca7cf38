//! The client of the backend that fills a region.

use vstd::prelude::*;
use vstd::std_specs::cmp::PartialEqSpec;

use crate::error::{
    error_of, invalid_data, invalid_input, os_error, viewed, ErrorKind, IoError, IoErrorView,
};
use crate::wire::FetchRange;

verus! {

/// How many seconds the backend may take to accept or to answer a message.
pub const DEFAULT_TIMEOUT_SECS: u64 = 30;

/// How many microseconds a second has.
pub const MICROS_PER_SEC: u32 = 1_000_000;

/// A span of time: whole seconds and the microseconds that remain, which are
/// fewer than a second has.
#[derive(Debug, Clone, Copy, PartialEq, Eq, Structural)]
pub struct Timeout {
    pub secs: u64,
    pub subsec_micros: u32,
}

impl Timeout {
    /// Whether the microseconds are fewer than a second has.
    pub open spec fn wf(self) -> bool {
        self.subsec_micros < MICROS_PER_SEC
    }
}

/// A client of the backend of one image.
#[derive(Debug)]
pub struct LazyPmemBackendClient {
    socket: Vec<u8>,
    backend_id: String,
    pmem_size: u64,
    page_size: u64,
    timeout: Timeout,
}

/// The mathematical content of a [`LazyPmemBackendClient`].
pub struct ClientView {
    /// The path of the socket of the backend.
    pub socket: Seq<u8>,
    /// The name of the image at the backend.
    pub backend_id: Seq<char>,
    /// The size of the image in bytes.
    pub pmem_size: u64,
    /// The size of a page in bytes.
    pub page_size: u64,
    /// How long the backend may take.
    pub timeout: Timeout,
}

impl ClientView {
    /// What holds of every client.
    pub open spec fn wf(self) -> bool {
        &&& self.socket.len() > 0
        &&& self.backend_id.len() > 0
        &&& self.page_size > 0
        &&& self.pmem_size > 0
        &&& self.pmem_size % self.page_size == 0
        &&& self.timeout.wf()
    }

    /// Whether `n` is a whole number of pages.
    pub open spec fn aligned(self, n: u64) -> bool {
        n % self.page_size == 0
    }
}

impl View for LazyPmemBackendClient {
    type V = ClientView;

    closed spec fn view(&self) -> ClientView {
        ClientView {
            socket: self.socket@,
            backend_id: self.backend_id@,
            pmem_size: self.pmem_size,
            page_size: self.page_size,
            timeout: self.timeout,
        }
    }
}

/// The client of the image `backend_id` of `pmem_size` bytes behind `socket`,
/// where the system gave `page_size` as the size of a page and `errno` as the
/// error number after it.
pub open spec fn client_outcome(
    socket: Seq<u8>,
    backend_id: Seq<char>,
    pmem_size: u64,
    page_size: i64,
    errno: i32,
) -> Result<ClientView, IoErrorView> {
    if socket.len() == 0 {
        Err(error_of(ErrorKind::InvalidInput, "lazy pmem backend socket must not be empty"@))
    } else if backend_id.len() == 0 {
        Err(error_of(ErrorKind::InvalidInput, "lazy pmem backend_id must not be empty"@))
    } else if page_size <= 0 {
        Err(os_error(errno))
    } else if pmem_size == 0 || pmem_size as int % page_size as int != 0 {
        Err(error_of(ErrorKind::InvalidInput, "lazy pmem size must be non-zero and page aligned"@))
    } else {
        Ok(
            ClientView {
                socket,
                backend_id,
                pmem_size,
                page_size: page_size as u64,
                timeout: Timeout { secs: DEFAULT_TIMEOUT_SECS, subsec_micros: 0 },
            },
        )
    }
}

/// Whether the `len` bytes at `pos` may be asked for.
pub open spec fn requested_range_outcome(client: ClientView, pos: u64, len: u64) -> Result<
    (),
    IoErrorView,
> {
    if len == 0 || !client.aligned(pos) || !client.aligned(len) {
        Err(
            error_of(
                ErrorKind::InvalidInput,
                "FETCH pos and len must be non-zero and page aligned"@,
            ),
        )
    } else if pos + len > u64::MAX {
        Err(error_of(ErrorKind::InvalidInput, "FETCH range overflows u64"@))
    } else if pos + len > client.pmem_size {
        Err(error_of(ErrorKind::InvalidInput, "FETCH range exceeds pmem size"@))
    } else {
        Ok(())
    }
}

/// Whether a returned range is made of whole pages and both its ends exist.
pub open spec fn returned_range_shape(client: ClientView, range: FetchRange) -> Result<
    (),
    IoErrorView,
> {
    if range.len == 0 || !client.aligned(range.off) || !client.aligned(range.dev_off)
        || !client.aligned(range.len) {
        Err(
            error_of(
                ErrorKind::InvalidData,
                "lazy pmem backend returned a zero-length or unaligned range"@,
            ),
        )
    } else if range.off + range.len > u64::MAX {
        Err(error_of(ErrorKind::InvalidData, "lazy pmem backend range overflows u64"@))
    } else if range.dev_off + range.len > u64::MAX {
        Err(error_of(ErrorKind::InvalidData, "lazy pmem backend device range overflows u64"@))
    } else {
        Ok(())
    }
}

/// Whether `range` serves a request for the `len` bytes at `pos`.
pub open spec fn returned_range_outcome(
    client: ClientView,
    range: FetchRange,
    pos: u64,
    len: u64,
) -> Result<(), IoErrorView> {
    match returned_range_shape(client, range) {
        Err(error) => Err(error),
        Ok(_) => if range.off + range.len > client.pmem_size || range.dev_off + range.len
            > client.pmem_size {
            Err(error_of(ErrorKind::InvalidData, "lazy pmem backend range exceeds pmem size"@))
        } else if range.off > pos || range.off + range.len < pos + len {
            Err(
                error_of(
                    ErrorKind::InvalidData,
                    "lazy pmem backend range does not contain the requested range"@,
                ),
            )
        } else {
            Ok(())
        },
    }
}

impl LazyPmemBackendClient {
    #[verifier::type_invariant]
    spec fn inv(self) -> bool {
        self@.wf()
    }

    /// Makes a client of the image `backend_id` of `pmem_size` bytes behind
    /// `socket`. `page_size` is what the system gave as the size of a page and
    /// `errno` the error number after it.
    pub fn new(
        socket: Vec<u8>,
        backend_id: String,
        pmem_size: u64,
        page_size: i64,
        errno: i32,
    ) -> (result: Result<Self, IoError>)
        ensures
            viewed(result) == client_outcome(socket@, backend_id@, pmem_size, page_size, errno),
            result matches Ok(client) ==> client@.wf(),
    {
        if socket.len() == 0 {
            return Err(invalid_input("lazy pmem backend socket must not be empty"));
        }
        if backend_id.as_str().is_empty() {
            return Err(invalid_input("lazy pmem backend_id must not be empty"));
        }
        if page_size <= 0 {
            return Err(IoError::from_raw_os_error(errno));
        }
        let page_size: u64 = page_size as u64;
        if pmem_size == 0 || !pmem_size.is_multiple_of(page_size) {
            return Err(invalid_input("lazy pmem size must be non-zero and page aligned"));
        }
        Ok(
            LazyPmemBackendClient {
                socket,
                backend_id,
                pmem_size,
                page_size,
                timeout: Timeout { secs: DEFAULT_TIMEOUT_SECS, subsec_micros: 0 },
            },
        )
    }

    /// The path of the socket of the backend.
    pub fn socket(&self) -> (socket: &Vec<u8>)
        ensures
            socket@ == self@.socket,
    {
        &self.socket
    }

    /// The name of the image at the backend.
    pub fn backend_id(&self) -> (backend_id: &str)
        ensures
            backend_id@ == self@.backend_id,
    {
        self.backend_id.as_str()
    }

    /// The size of the image in bytes.
    pub fn pmem_size(&self) -> (size: u64)
        ensures
            size == self@.pmem_size,
    {
        self.pmem_size
    }

    /// The size of a page in bytes.
    pub fn page_size(&self) -> (size: u64)
        ensures
            size == self@.page_size,
            self@.wf(),
    {
        proof {
            use_type_invariant(self);
        }
        self.page_size
    }

    /// How long the backend may take to accept or to answer a message.
    pub fn timeout(&self) -> (timeout: Timeout)
        ensures
            timeout == self@.timeout,
            timeout.wf(),
    {
        proof {
            use_type_invariant(self);
        }
        self.timeout
    }

    /// Whether both are clients of the same image of the same backend, with the
    /// same sizes and timeout.
    pub fn same_as(&self, other: &Self) -> (same: bool)
        ensures
            same == (self@ == other@),
    {
        let same: bool = self.socket == other.socket && self.backend_id == other.backend_id
            && self.pmem_size == other.pmem_size && self.page_size == other.page_size
            && self.timeout == other.timeout;
        assert(self.socket.eq_spec(&other.socket) ==> self.socket@ =~= other.socket@);
        same
    }

    /// Accepts a request for the `len` bytes at `pos` only if it is made of
    /// whole pages of the image.
    pub fn validate_requested_range(&self, pos: u64, len: u64) -> (result: Result<(), IoError>)
        ensures
            viewed(result) == requested_range_outcome(self@, pos, len),
            self@.wf(),
    {
        proof {
            use_type_invariant(self);
        }
        if len == 0 || !pos.is_multiple_of(self.page_size) || !len.is_multiple_of(self.page_size) {
            return Err(invalid_input("FETCH pos and len must be non-zero and page aligned"));
        }
        let end = match pos.checked_add(len) {
            Some(end) => end,
            None => return Err(invalid_input("FETCH range overflows u64")),
        };
        if end > self.pmem_size {
            return Err(invalid_input("FETCH range exceeds pmem size"));
        }
        Ok(())
    }

    /// Accepts `range` as the answer to a request for the `requested_len` bytes
    /// at `requested_pos` only if it is made of whole pages of the image and of
    /// the cache and contains the requested range.
    pub fn validate_returned_range(
        &self,
        range: FetchRange,
        requested_pos: u64,
        requested_len: u64,
    ) -> (result: Result<(), IoError>)
        requires
            returned_range_shape(self@, range) is Ok ==> requested_pos + requested_len <= u64::MAX,
        ensures
            viewed(result) == returned_range_outcome(self@, range, requested_pos, requested_len),
    {
        proof {
            use_type_invariant(self);
        }
        if range.len == 0 || !range.off.is_multiple_of(self.page_size)
            || !range.dev_off.is_multiple_of(self.page_size) || !range.len.is_multiple_of(
            self.page_size,
        ) {
            return Err(invalid_data("lazy pmem backend returned a zero-length or unaligned range"));
        }
        let range_end = match range.off.checked_add(range.len) {
            Some(end) => end,
            None => return Err(invalid_data("lazy pmem backend range overflows u64")),
        };
        let dev_end = match range.dev_off.checked_add(range.len) {
            Some(end) => end,
            None => return Err(invalid_data("lazy pmem backend device range overflows u64")),
        };
        let requested_end: u64 = requested_pos + requested_len;
        if range_end > self.pmem_size || dev_end > self.pmem_size {
            return Err(invalid_data("lazy pmem backend range exceeds pmem size"));
        }
        if range.off > requested_pos || range_end < requested_end {
            return Err(
                invalid_data("lazy pmem backend range does not contain the requested range"),
            );
        }
        Ok(())
    }
}

impl Clone for LazyPmemBackendClient {
    fn clone(&self) -> (client: Self)
        ensures
            client@ == self@,
    {
        proof {
            use_type_invariant(self);
        }
        let socket = self.socket.clone();
        assert(socket@ =~= self.socket@);
        LazyPmemBackendClient {
            socket,
            backend_id: self.backend_id.clone(),
            pmem_size: self.pmem_size,
            page_size: self.page_size,
            timeout: self.timeout,
        }
    }
}

} // verus!
