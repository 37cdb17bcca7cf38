//! How the faults of a region are resolved, from one to the next.

use vstd::arithmetic::div_mod::{
    lemma_fundamental_div_mod, lemma_mod_decreases, lemma_mod_multiples_vanish, lemma_small_mod,
};
use vstd::prelude::*;

use crate::client::{client_outcome, ClientView};
use crate::error::{ErrorKind, IoErrorView};
use crate::fetch::{mapping_of, FetchResult, PageMapping, ServedView};
use crate::handler::{
    fault_outcome, new_handler, next_step, FaultAction, HandlerEvent, HandlerEventView, HandlerStep,
    HandlerView,
};
use crate::laws::{fault_is_resolved_with_its_page, requested_bytes_are_pages_of_the_file};
use crate::region::{handler_outcome, RegionView};

verus! {

/// Events and actions hold what they say.
pub proof fn events_hold_what_they_say<'a>(
    address: u64,
    result: &'a FetchResult<'a>,
    action: FaultAction,
)
    ensures
        HandlerEvent::Stop@ == HandlerEventView::Stop,
        HandlerEvent::Fault(address)@ == HandlerEventView::Fault(address),
        HandlerEvent::Fetched(result)@ == HandlerEventView::Fetched(result@),
        HandlerEvent::Done@ == HandlerEventView::Done,
        HandlerEvent::Failed@ == HandlerEventView::Failed,
        action@ == action,
{
}

/// A handler keeps the region and the client that it was made of.
pub proof fn handler_keeps_what_it_is_given(base_hva: u64, data_size: u64, client: ClientView)
    ensures
        new_handler(base_hva, data_size, client).base_hva == base_hva,
        new_handler(base_hva, data_size, client).data_size == data_size,
        new_handler(base_hva, data_size, client).client == client,
{
}

/// A mapping of a served fetch covers the requested bytes, all of them, and
/// takes each from where it stands in the cache file.
pub proof fn mapping_covers_the_request(served: ServedView, start: u64)
    requires
        served.wf(),
    ensures
        mapping_of(served, start).start == start,
        mapping_of(served, start).len == served.fetch.request.len,
        mapping_of(served, start).file_offset - served.range.dev_off == served.fetch.request.pos
            - served.range.off,
{
    requested_bytes_are_pages_of_the_file(served);
}

/// The handler of a region resolves faults at the addresses of the region, from
/// the image behind its socket that has its name and its size. There is one
/// exactly when there is such a client, and otherwise the same is wrong.
pub proof fn handler_serves_its_region(region: RegionView, page_size: i64, errno: i32)
    ensures
        match handler_outcome(region, page_size, errno) {
            Ok(handler) => {
                &&& handler.base_hva == region.base_hva
                &&& handler.data_size == region.data_size
                &&& handler.client.pmem_size == region.size
                &&& handler.client.socket == region.socket
                &&& handler.client.backend_id == region.backend_id
                &&& handler.client.page_size == page_size
                &&& handler.client.wf()
                &&& client_outcome(
                    region.socket,
                    region.backend_id,
                    region.size,
                    page_size,
                    errno,
                ) == Ok::<ClientView, IoErrorView>(handler.client)
            },
            Err(error) => client_outcome(
                region.socket,
                region.backend_id,
                region.size,
                page_size,
                errno,
            ) == Err::<ClientView, IoErrorView>(error),
        },
{
}

/// The faults that are resolved are exactly those on the region. Each is
/// resolved with the page that holds its address: the page is fetched from its
/// place in the image if it holds any data, and zeroed if it holds none.
pub proof fn fault_brings_in_its_page(handler: HandlerView, address: u64)
    requires
        handler.client.wf(),
    ensures
        ({
            let page = handler.client.page_size as int;
            let offset = address - handler.base_hva;
            match fault_outcome(handler, address) {
                Ok(FaultAction::Fetch { start, pos, len }) => {
                    &&& 0 <= offset < handler.client.pmem_size
                    &&& len == page
                    &&& pos <= offset < pos + page
                    &&& pos as int % page == 0
                    &&& start == handler.base_hva + pos
                    &&& pos < handler.data_size
                },
                Ok(FaultAction::Zero { start, len }) => {
                    &&& 0 <= offset < handler.client.pmem_size
                    &&& len == page
                    &&& start <= address < start + page
                    &&& (start - handler.base_hva) % page == 0
                    &&& start - handler.base_hva >= handler.data_size
                },
                Err(error) => {
                    &&& offset < 0 || offset >= handler.client.pmem_size
                    &&& error.kind == ErrorKind::InvalidData
                    &&& error.message == "userfaultfd fault is outside the lazy pmem region"@
                },
            }
        }),
{
    fault_is_resolved_with_its_page(handler, address);
    if 0 <= address - handler.base_hva < handler.client.pmem_size {
        let page = handler.client.page_size as int;
        let offset = address - handler.base_hva;
        lemma_mod_decreases(offset as nat, page as nat);
        lemma_fundamental_div_mod(offset, page);
        lemma_mod_multiples_vanish(offset / page, 0, page);
        lemma_small_mod(0, page as nat);
    }
}

/// A page that has been mapped is followed by waking its threads, all of them
/// and no others, and then by the next fault.
pub proof fn mapped_page_is_woken(handler: HandlerView, mapping: PageMapping)
    ensures
        next_step(handler, HandlerStep::MapPage(mapping), HandlerEventView::Done) == (
        HandlerStep::Wake { start: mapping.start, len: mapping.len }),
        next_step(
            handler,
            HandlerStep::Wake { start: mapping.start, len: mapping.len },
            HandlerEventView::Done,
        ) == HandlerStep::Wait,
{
}

/// A fault on data is resolved: its page is fetched, and once the fetch is
/// served, mapped where it belongs; its threads are woken; and the handler waits
/// for the next fault. The address then shows the byte of the cache file that
/// stands for it.
pub proof fn data_fault_is_resolved(handler: HandlerView, address: u64, served: ServedView)
    requires
        handler.client.wf(),
        handler.base_hva <= address < handler.base_hva + handler.client.pmem_size,
        address < handler.base_hva + handler.data_size,
        served.wf(),
        served.fetch.client == handler.client,
        served.fetch.request.len == handler.client.page_size,
        served.fetch.request.pos <= address - handler.base_hva < served.fetch.request.pos
            + handler.client.page_size,
    ensures
        ({
            let start = (handler.base_hva + served.fetch.request.pos) as u64;
            let len = handler.client.page_size;
            let fetch = next_step(handler, HandlerStep::Wait, HandlerEventView::Fault(address));
            let map = next_step(handler, fetch, HandlerEventView::Fetched(served));
            let wake = next_step(handler, map, HandlerEventView::Done);
            &&& start == handler.base_hva + served.fetch.request.pos
            &&& start <= address < start + len
            &&& fetch == (HandlerStep::Fetch { start, pos: served.fetch.request.pos, len })
            &&& map matches HandlerStep::MapPage(mapping)
            &&& mapping.start == start
            &&& mapping.len == len
            &&& mapping.file_offset + (address - start) == served.range.dev_off + (address
                - handler.base_hva - served.range.off)
            &&& mapping.file_offset + mapping.len <= handler.client.pmem_size
            &&& wake == (HandlerStep::Wake { start, len })
            &&& next_step(handler, wake, HandlerEventView::Done) == HandlerStep::Wait
        }),
{
    let page = handler.client.page_size as int;
    let offset = address - handler.base_hva;
    let pos = served.fetch.request.pos as int;
    fault_brings_in_its_page(handler, address);
    requested_bytes_are_pages_of_the_file(served);
    lemma_fundamental_div_mod(pos, page);
    lemma_fundamental_div_mod(offset, page);
    lemma_mod_decreases(offset as nat, page as nat);
    assert(pos / page == offset / page) by (nonlinear_arith)
        requires
            page > 0,
            pos == page * (pos / page),
            offset == page * (offset / page) + offset % page,
            0 <= offset % page < page,
            pos <= offset < pos + page,
    ;
    assert(fault_outcome(handler, address) == Ok::<FaultAction, IoErrorView>(
        FaultAction::Fetch {
            start: (handler.base_hva + pos) as u64,
            pos: pos as u64,
            len: page as u64,
        },
    ));
}

/// A fault on a page that holds no data is resolved: the page is zeroed, and the
/// handler waits for the next fault.
pub proof fn padding_fault_is_resolved(handler: HandlerView, address: u64)
    requires
        handler.client.wf(),
        handler.base_hva <= address < handler.base_hva + handler.client.pmem_size,
        address - handler.base_hva >= handler.data_size + handler.client.page_size || (address
            - handler.base_hva >= handler.data_size && handler.data_size as int
            % handler.client.page_size as int == 0),
    ensures
        next_step(handler, HandlerStep::Wait, HandlerEventView::Fault(address)) matches
            HandlerStep::Zero { start, len } && {
            &&& len == handler.client.page_size
            &&& start <= address < start + len
            &&& (start - handler.base_hva) % len as int == 0
            &&& next_step(
                handler,
                HandlerStep::Zero { start, len },
                HandlerEventView::Done,
            ) == HandlerStep::Wait
        },
{
    fault_brings_in_its_page(handler, address);
    if (handler.data_size as int) % (handler.client.page_size as int) == 0 && address
        - handler.base_hva >= handler.data_size {
        crate::laws::data_is_fetched_and_padding_is_zeroed(handler, address);
    }
}

/// A handler that waits stops when it is told to, resolves each fault on its
/// region, and announces each fault that is not.
pub proof fn waiting_handler_answers_every_event(handler: HandlerView, address: u64)
    requires
        handler.client.wf(),
    ensures
        next_step(handler, HandlerStep::Wait, HandlerEventView::Stop) == HandlerStep::Stopped,
        ({
            let next = next_step(handler, HandlerStep::Wait, HandlerEventView::Fault(address));
            match fault_outcome(handler, address) {
                Ok(FaultAction::Fetch { start, pos, len }) => next == (HandlerStep::Fetch {
                    start,
                    pos,
                    len,
                }),
                Ok(FaultAction::Zero { start, len }) => next == (HandlerStep::Zero { start, len }),
                Err(_) => next == HandlerStep::SignalFatal,
            }
        }),
        handler.base_hva <= address < handler.base_hva + handler.client.pmem_size <==> next_step(
            handler,
            HandlerStep::Wait,
            HandlerEventView::Fault(address),
        ) != HandlerStep::SignalFatal,
{
    fault_brings_in_its_page(handler, address);
}

/// A fetch that was served is mapped exactly when it is the one that was asked
/// for, of the same client and for the same bytes. Its bytes are then put where
/// they were asked for.
pub proof fn exactly_the_fetch_that_was_asked_for_is_mapped(
    handler: HandlerView,
    start: u64,
    pos: u64,
    len: u64,
    served: ServedView,
)
    requires
        served.wf(),
    ensures
        ({
            let next = next_step(
                handler,
                HandlerStep::Fetch { start, pos, len },
                HandlerEventView::Fetched(served),
            );
            if served.fetch.client == handler.client && served.fetch.request.pos == pos
                && served.fetch.request.len == len {
                &&& next matches HandlerStep::MapPage(mapping)
                &&& mapping.start == start
                &&& mapping.len == len
                &&& mapping.file_offset - served.range.dev_off == pos - served.range.off
            } else {
                next == HandlerStep::SignalFatal
            }
        }),
{
    requested_bytes_are_pages_of_the_file(served);
}

/// A step that is in progress ends in one way only: with the event that answers
/// it. Every other event is announced as fatal.
pub proof fn other_events_are_fatal(
    handler: HandlerView,
    step: HandlerStep,
    event: HandlerEventView,
)
    requires
        match step {
            HandlerStep::Wait => !(event is Stop) && !(event is Fault),
            HandlerStep::Fetch { start, pos, len } => !(event is Fetched),
            HandlerStep::MapPage(mapping) => !(event is Done),
            HandlerStep::Wake { start, len } => !(event is Done),
            HandlerStep::Zero { start, len } => !(event is Done),
            HandlerStep::SignalFatal => false,
            HandlerStep::Stopped => false,
        },
    ensures
        next_step(handler, step, event) == HandlerStep::SignalFatal,
{
}

/// Once threads have been woken or a page has been zeroed, the handler waits for
/// the next fault, whatever the page.
pub proof fn resolved_page_is_followed_by_the_next_fault(
    handler: HandlerView,
    start: u64,
    len: u64,
)
    ensures
        next_step(handler, HandlerStep::Wake { start, len }, HandlerEventView::Done)
            == HandlerStep::Wait,
        next_step(handler, HandlerStep::Zero { start, len }, HandlerEventView::Done)
            == HandlerStep::Wait,
{
}

/// After its announcement a failure stops the handler, and a handler that has
/// stopped stays so, whatever happens.
pub proof fn failed_handler_stops_for_good(handler: HandlerView, event: HandlerEventView)
    ensures
        next_step(handler, HandlerStep::SignalFatal, event) == HandlerStep::Stopped,
        next_step(handler, HandlerStep::Stopped, event) == HandlerStep::Stopped,
{
}

} // verus!
