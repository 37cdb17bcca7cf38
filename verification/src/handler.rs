//! Resolving the faults of a region.

use vstd::arithmetic::div_mod::lemma_mod_decreases;
use vstd::prelude::*;

use crate::client::{ClientView, LazyPmemBackendClient};
use crate::error::{error_of, invalid_data, viewed, ErrorKind, IoError, IoErrorView};
use crate::fetch::{file_offset_of, FetchResult, PageMapping, ServedView};

verus! {

/// How a fault is resolved.
#[derive(Debug, Clone, Copy, PartialEq, Eq, Structural)]
pub enum FaultAction {
    /// Fetch the `len` bytes at `pos` of the image, map them at address `start`
    /// and wake the threads that wait there.
    Fetch { start: u64, pos: u64, len: u64 },
    /// Fill the `len` bytes at address `start` with zeros.
    Zero { start: u64, len: u64 },
}

impl View for FaultAction {
    type V = FaultAction;

    open spec fn view(&self) -> FaultAction {
        *self
    }
}

/// What decides how the faults of a region are resolved.
#[derive(Debug)]
pub struct FaultHandler {
    base_hva: u64,
    data_size: u64,
    client: LazyPmemBackendClient,
}

/// The mathematical content of a [`FaultHandler`].
pub struct HandlerView {
    pub base_hva: u64,
    pub data_size: u64,
    pub client: ClientView,
}

impl View for FaultHandler {
    type V = HandlerView;

    closed spec fn view(&self) -> HandlerView {
        HandlerView {
            base_hva: self.base_hva,
            data_size: self.data_size,
            client: self.client@,
        }
    }
}

/// The handler of a region at `base_hva` whose first `data_size` bytes are the
/// image of `client`.
pub open spec fn new_handler(base_hva: u64, data_size: u64, client: ClientView) -> HandlerView {
    HandlerView { base_hva, data_size, client }
}

/// Where the page that holds the byte at `offset` starts.
pub open spec fn page_start(offset: u64, page_size: u64) -> u64 {
    (offset - offset % page_size) as u64
}

/// How the fault at `address` is resolved: a page that holds data is fetched,
/// a page of padding is zeroed.
pub open spec fn fault_outcome(handler: HandlerView, address: u64) -> Result<
    FaultAction,
    IoErrorView,
> {
    if address < handler.base_hva || address - handler.base_hva >= handler.client.pmem_size {
        Err(
            error_of(
                ErrorKind::InvalidData,
                "userfaultfd fault is outside the lazy pmem region"@,
            ),
        )
    } else {
        let len = handler.client.page_size;
        let pos = page_start((address - handler.base_hva) as u64, len);
        let start = (handler.base_hva + pos) as u64;
        if pos < handler.data_size {
            Ok(FaultAction::Fetch { start, pos, len })
        } else {
            Ok(FaultAction::Zero { start, len })
        }
    }
}

/// What to do next for the faults of a region.
#[derive(Debug, Clone, Copy, PartialEq, Eq, Structural)]
pub enum HandlerStep {
    /// Wait for a fault, or to be told to stop.
    Wait,
    /// Fetch the `len` bytes at `pos` of the image, for the page at address
    /// `start`.
    Fetch { start: u64, pos: u64, len: u64 },
    /// Map bytes of the fetched cache file.
    MapPage(PageMapping),
    /// Wake the threads that wait on the `len` bytes at address `start`.
    Wake { start: u64, len: u64 },
    /// Fill the `len` bytes at address `start` with zeros.
    Zero { start: u64, len: u64 },
    /// Announce that a fault cannot be resolved.
    SignalFatal,
    /// Nothing: no fault is resolved any more.
    Stopped,
}

/// What came of a step.
pub enum HandlerEvent<'a> {
    /// The handler is to stop.
    Stop,
    /// There is a fault at this address.
    Fault(u64),
    /// The fetch has succeeded. Only a fetch by the client of the handler counts.
    Fetched(&'a FetchResult<'a>),
    /// The step is done.
    Done,
    /// The step has failed.
    Failed,
}

/// The mathematical content of a [`HandlerEvent`].
pub enum HandlerEventView {
    Stop,
    Fault(u64),
    Fetched(ServedView),
    Done,
    Failed,
}

impl View for HandlerEvent<'_> {
    type V = HandlerEventView;

    open spec fn view(&self) -> HandlerEventView {
        match self {
            HandlerEvent::Stop => HandlerEventView::Stop,
            HandlerEvent::Fault(address) => HandlerEventView::Fault(*address),
            HandlerEvent::Fetched(result) => HandlerEventView::Fetched(result@),
            HandlerEvent::Done => HandlerEventView::Done,
            HandlerEvent::Failed => HandlerEventView::Failed,
        }
    }
}

/// What follows `step` once `event` has come of it. A step that fails, and an
/// event that does not answer its step, are fatal.
pub open spec fn next_step(
    handler: HandlerView,
    step: HandlerStep,
    event: HandlerEventView,
) -> HandlerStep {
    match (step, event) {
        (HandlerStep::Wait, HandlerEventView::Stop) => HandlerStep::Stopped,
        (HandlerStep::Wait, HandlerEventView::Fault(address)) => match fault_outcome(
            handler,
            address,
        ) {
            Ok(FaultAction::Fetch { start, pos, len }) => HandlerStep::Fetch { start, pos, len },
            Ok(FaultAction::Zero { start, len }) => HandlerStep::Zero { start, len },
            Err(_) => HandlerStep::SignalFatal,
        },
        (HandlerStep::Fetch { start, pos, len }, HandlerEventView::Fetched(served)) => {
            if served.fetch.client == handler.client && served.fetch.request.pos == pos
                && served.fetch.request.len == len {
                HandlerStep::MapPage(
                    PageMapping { start, len, file_offset: file_offset_of(served) as u64 },
                )
            } else {
                HandlerStep::SignalFatal
            }
        },
        (HandlerStep::MapPage(mapping), HandlerEventView::Done) => HandlerStep::Wake {
            start: mapping.start,
            len: mapping.len,
        },
        (HandlerStep::Wake { start, len }, HandlerEventView::Done) => HandlerStep::Wait,
        (HandlerStep::Zero { start, len }, HandlerEventView::Done) => HandlerStep::Wait,
        (HandlerStep::SignalFatal, _) => HandlerStep::Stopped,
        (HandlerStep::Stopped, _) => HandlerStep::Stopped,
        _ => HandlerStep::SignalFatal,
    }
}

/// The step that `events` lead to from `step`.
pub open spec fn handler_run(
    handler: HandlerView,
    step: HandlerStep,
    events: Seq<HandlerEventView>,
) -> HandlerStep
    decreases events.len(),
{
    if events.len() == 0 {
        step
    } else {
        next_step(handler, handler_run(handler, step, events.drop_last()), events.last())
    }
}

impl FaultHandler {
    /// Makes the handler of a region at `base_hva` whose first `data_size`
    /// bytes are the image of `client`.
    pub fn new(base_hva: u64, data_size: u64, client: LazyPmemBackendClient) -> (handler: Self)
        ensures
            handler@ == (HandlerView { base_hva, data_size, client: client@ }),
            handler@ == new_handler(base_hva, data_size, client@),
    {
        FaultHandler { base_hva, data_size, client }
    }

    /// The client of the backend that holds the data of the region.
    pub fn client(&self) -> (client: &LazyPmemBackendClient)
        ensures
            client@ == self@.client,
    {
        &self.client
    }

    /// How the fault at `address` is resolved.
    pub fn fault(&self, address: u64) -> (result: Result<FaultAction, IoError>)
        ensures
            viewed(result) == fault_outcome(self@, address),
            self@.client.wf(),
    {
        let len: u64 = self.client.page_size();
        if address < self.base_hva || address - self.base_hva >= self.client.pmem_size() {
            return Err(invalid_data("userfaultfd fault is outside the lazy pmem region"));
        }
        let offset: u64 = address - self.base_hva;
        proof {
            lemma_mod_decreases(offset as nat, len as nat);
        }
        let pos: u64 = offset - offset % len;
        let start: u64 = self.base_hva + pos;
        if pos < self.data_size {
            Ok(FaultAction::Fetch { start, pos, len })
        } else {
            Ok(FaultAction::Zero { start, len })
        }
    }

    /// What to do after `step` once `event` has come of it.
    pub fn advance(&self, step: HandlerStep, event: HandlerEvent<'_>) -> (next: HandlerStep)
        ensures
            next == next_step(self@, step, event@),
            next matches HandlerStep::MapPage(mapping) ==> mapping.file_offset + mapping.len
                <= self@.client.pmem_size,
    {
        match (step, event) {
            (HandlerStep::Wait, HandlerEvent::Stop) => HandlerStep::Stopped,
            (HandlerStep::Wait, HandlerEvent::Fault(address)) => match self.fault(address) {
                Ok(FaultAction::Fetch { start, pos, len }) => HandlerStep::Fetch {
                    start,
                    pos,
                    len,
                },
                Ok(FaultAction::Zero { start, len }) => HandlerStep::Zero { start, len },
                Err(_) => HandlerStep::SignalFatal,
            },
            (HandlerStep::Fetch { start, pos, len }, HandlerEvent::Fetched(result)) => {
                if result.client().same_as(&self.client) && result.pos() == pos && result.len()
                    == len {
                    HandlerStep::MapPage(result.mapping(start))
                } else {
                    HandlerStep::SignalFatal
                }
            },
            (HandlerStep::MapPage(mapping), HandlerEvent::Done) => HandlerStep::Wake {
                start: mapping.start,
                len: mapping.len,
            },
            (HandlerStep::Wake { start: _, len: _ }, HandlerEvent::Done) => HandlerStep::Wait,
            (HandlerStep::Zero { start: _, len: _ }, HandlerEvent::Done) => HandlerStep::Wait,
            (HandlerStep::SignalFatal, _) => HandlerStep::Stopped,
            (HandlerStep::Stopped, _) => HandlerStep::Stopped,
            _ => HandlerStep::SignalFatal,
        }
    }
}

} // verus!
