use lazy_pmem::client::LazyPmemBackendClient;
use lazy_pmem::error::ErrorKind;
use lazy_pmem::fetch::{FetchResult, PageMapping};
use lazy_pmem::handler::{FaultAction, FaultHandler, HandlerEvent, HandlerStep};
use lazy_pmem::region::{LazyPmemRegion, Registration, RegistrationStep};
use lazy_pmem::userfaultfd::{UffdStep, UffdioRange, Userfaultfd};
use lazy_pmem::wire::{FetchRange, FetchResponse, RequestIds};

const PAGE: u64 = 4096;
const BASE: u64 = 0x7f00_0000_0000;

fn registration(size: u64, data_size: u64) -> Registration {
    LazyPmemRegion::register(BASE, size, data_size, "instance".to_string(), b"/s".to_vec())
}

fn handler(pages: u64, data_size: u64) -> FaultHandler {
    let done = registration(pages * PAGE, data_size)
        .advance(7, 0)
        .unwrap()
        .advance(0, 0)
        .unwrap()
        .advance(0, 0)
        .unwrap();
    done.region().unwrap().fault_handler(PAGE as i64, 0).unwrap()
}

#[test]
fn registering_takes_three_calls() {
    let step = registration(2 * PAGE, PAGE);
    match step.step() {
        RegistrationStep::Setup(setup) => {
            assert_eq!(setup.features, 0);
            assert_eq!(setup.step, UffdStep::Create);
        }
        step => panic!("{step:?}"),
    }
    let step = step.advance(7, 0).unwrap();
    assert!(matches!(
        step.step(),
        RegistrationStep::Setup(setup) if matches!(setup.step, UffdStep::Handshake { fd: 7, .. })
    ));
    let step = step.advance(0, 0).unwrap();
    match step.step() {
        RegistrationStep::Register { uffd, request } => {
            assert_eq!(uffd, Userfaultfd { fd: 7 });
            assert_eq!(request.range, UffdioRange { start: BASE, len: 2 * PAGE });
        }
        step => panic!("{step:?}"),
    }
    let step = step.advance(0, 0).unwrap();
    let region = step.region().unwrap();
    assert_eq!(region.base_hva, BASE);
    assert_eq!(region.size, 2 * PAGE);
    assert_eq!(region.data_size, PAGE);
    assert_eq!(region.backend_id, "instance");
    assert_eq!(region.socket, b"/s");
    assert_eq!(region.uffd.as_raw_fd(), 7);
}

#[test]
fn registering_stops_at_the_first_failure() {
    for good in 0..3 {
        let mut step = registration(PAGE, PAGE);
        for _ in 0..good {
            step = step.advance(7, 0).unwrap();
        }
        assert_eq!(step.advance(-1, 1).unwrap_err().kind(), ErrorKind::Os(1));
    }
}

#[test]
fn empty_region_is_not_registered() {
    let step = registration(0, 0).advance(7, 0).unwrap();
    let error = step.advance(0, 0).unwrap_err();
    assert_eq!(error.kind(), ErrorKind::InvalidInput);
    assert_eq!(error.message(), "userfaultfd range must not be empty");
}

#[test]
fn unfinished_registration_has_no_region() {
    assert!(registration(PAGE, PAGE).region().is_none());
    assert!(registration(PAGE, PAGE).advance(7, 0).unwrap().region().is_none());
}

#[test]
fn handler_needs_an_image_of_whole_pages() {
    let region = LazyPmemRegion {
        base_hva: BASE,
        size: PAGE + 1,
        data_size: PAGE,
        backend_id: "instance".to_string(),
        socket: b"/s".to_vec(),
        uffd: Userfaultfd { fd: 7 },
    };
    let error = region.fault_handler(PAGE as i64, 0).unwrap_err();
    assert_eq!(error.message(), "lazy pmem size must be non-zero and page aligned");
    assert_eq!(region.fault_handler(-1, 22).unwrap_err().kind(), ErrorKind::Os(22));
}

#[test]
fn data_faults_are_fetched_and_padding_faults_are_zeroed() {
    let handler = handler(2, PAGE);
    let data = FaultAction::Fetch { start: BASE, pos: 0, len: PAGE };
    let padding = FaultAction::Zero { start: BASE + PAGE, len: PAGE };
    assert_eq!(handler.fault(BASE).unwrap(), data);
    assert_eq!(handler.fault(BASE + PAGE - 1).unwrap(), data);
    assert_eq!(handler.fault(BASE + PAGE).unwrap(), padding);
    assert_eq!(handler.fault(BASE + 2 * PAGE - 1).unwrap(), padding);
}

#[test]
fn page_with_some_data_is_fetched() {
    let handler = handler(3, PAGE + 1);
    assert_eq!(
        handler.fault(BASE + 2 * PAGE - 1).unwrap(),
        FaultAction::Fetch { start: BASE + PAGE, pos: PAGE, len: PAGE }
    );
    assert_eq!(
        handler.fault(BASE + 2 * PAGE).unwrap(),
        FaultAction::Zero { start: BASE + 2 * PAGE, len: PAGE }
    );
}

#[test]
fn fault_outside_the_region_is_an_error() {
    let handler = handler(2, PAGE);
    for address in [0, BASE - 1, BASE + 2 * PAGE, u64::MAX] {
        let error = handler.fault(address).unwrap_err();
        assert_eq!(error.kind(), ErrorKind::InvalidData);
        assert_eq!(error.message(), "userfaultfd fault is outside the lazy pmem region");
    }
}

#[test]
fn every_data_fault_can_be_fetched() {
    let handler = handler(8, 8 * PAGE);
    for page in 0..8 {
        match handler.fault(BASE + page * PAGE + 17).unwrap() {
            FaultAction::Fetch { start, pos, len } => {
                assert_eq!(start, BASE + pos);
                assert!(handler.client().fetch(pos, len, &mut RequestIds::new(), 7).is_ok());
            }
            action => panic!("{action:?}"),
        }
    }
}

fn fetched(client: &LazyPmemBackendClient, dev_off: u64) -> FetchResult<'_> {
    let send = client.fetch(0, PAGE, &mut RequestIds::new(), 7).unwrap();
    let sent = send.payload().len();
    let reply = send.sent(sent).unwrap().received(vec![0; 8], 8, true).unwrap();
    let response = FetchResponse::FetchOk {
        protocol_version: 1,
        request_id: "cloud-hypervisor-7-1".to_string(),
        ranges: vec![FetchRange { off: 0, len: PAGE, dev_off }],
    };
    let flags = reply.parsed(response).unwrap().descriptor_flags(0, 0).unwrap();
    flags.flags_set(0, 0).unwrap().metadata(true, client.pmem_size()).unwrap()
}

#[test]
fn fetch_of_another_client_is_not_mapped() {
    let handler = handler(2, PAGE);
    let step = handler.advance(HandlerStep::Wait, HandlerEvent::Fault(BASE));
    let client = |socket: &[u8], id: &str, pages: u64| {
        LazyPmemBackendClient::new(socket.to_vec(), id.to_string(), pages * PAGE, 4096, 0).unwrap()
    };
    for other in [client(b"/s", "instance", 9), client(b"/t", "instance", 2), client(b"/s", "i", 2)]
    {
        assert!(!other.same_as(handler.client()));
        let result = fetched(&other, other.pmem_size() - PAGE);
        assert_eq!(
            handler.advance(step, HandlerEvent::Fetched(&result)),
            HandlerStep::SignalFatal
        );
    }
    let same = client(b"/s", "instance", 2);
    assert!(same.same_as(handler.client()));
    let result = fetched(&same, PAGE);
    assert!(matches!(
        handler.advance(step, HandlerEvent::Fetched(&result)),
        HandlerStep::MapPage(_)
    ));
}

#[test]
fn data_fault_is_fetched_mapped_and_woken() {
    let handler = handler(2, PAGE);
    let step = handler.advance(HandlerStep::Wait, HandlerEvent::Fault(BASE + 17));
    assert_eq!(step, HandlerStep::Fetch { start: BASE, pos: 0, len: PAGE });

    let result = fetched(handler.client(), PAGE);
    assert_eq!((result.pos(), result.len()), (0, PAGE));

    let mapping = PageMapping { start: BASE, len: PAGE, file_offset: PAGE };
    let next = handler.advance(step, HandlerEvent::Fetched(&result));
    assert_eq!(next, HandlerStep::MapPage(mapping));
    let next = handler.advance(next, HandlerEvent::Done);
    assert_eq!(next, HandlerStep::Wake { start: BASE, len: PAGE });
    assert_eq!(handler.advance(next, HandlerEvent::Done), HandlerStep::Wait);

    let other = HandlerStep::Fetch { start: BASE + PAGE, pos: PAGE, len: PAGE };
    assert_eq!(
        handler.advance(other, HandlerEvent::Fetched(&result)),
        HandlerStep::SignalFatal
    );
    assert_eq!(
        handler.advance(HandlerStep::Wait, HandlerEvent::Fetched(&result)),
        HandlerStep::SignalFatal
    );
}

#[test]
fn padding_fault_is_zeroed() {
    let handler = handler(2, PAGE);
    let step = handler.advance(HandlerStep::Wait, HandlerEvent::Fault(BASE + PAGE));
    assert_eq!(step, HandlerStep::Zero { start: BASE + PAGE, len: PAGE });
    assert_eq!(handler.advance(step, HandlerEvent::Done), HandlerStep::Wait);
}

#[test]
fn failure_is_fatal_and_resolves_nothing() {
    let handler = handler(2, PAGE);
    for step in [
        HandlerStep::Wait,
        HandlerStep::Fetch { start: BASE, pos: 0, len: PAGE },
        HandlerStep::MapPage(PageMapping { start: BASE, len: PAGE, file_offset: 0 }),
        HandlerStep::Wake { start: BASE, len: PAGE },
        HandlerStep::Zero { start: BASE, len: PAGE },
    ] {
        assert_eq!(handler.advance(step, HandlerEvent::Failed), HandlerStep::SignalFatal);
    }
    let outside = handler.advance(HandlerStep::Wait, HandlerEvent::Fault(BASE - 1));
    assert_eq!(outside, HandlerStep::SignalFatal);
    for event in [HandlerEvent::Done, HandlerEvent::Failed, HandlerEvent::Fault(BASE)] {
        assert_eq!(handler.advance(HandlerStep::SignalFatal, event), HandlerStep::Stopped);
    }
    assert_eq!(
        handler.advance(HandlerStep::Stopped, HandlerEvent::Fault(BASE)),
        HandlerStep::Stopped
    );
}

#[test]
fn handler_stops_when_told() {
    let handler = handler(1, PAGE);
    assert_eq!(handler.advance(HandlerStep::Wait, HandlerEvent::Stop), HandlerStep::Stopped);
}
