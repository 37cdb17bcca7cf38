//! A persistent-memory region whose pages are brought in when they are first
//! touched.

use vstd::prelude::*;

use crate::client::{client_outcome, LazyPmemBackendClient};
use crate::error::{viewed, IoError, IoErrorView};
use crate::handler::{FaultHandler, HandlerView};
use crate::os::{os_outcome, os_result};
use crate::userfaultfd::{
    register_outcome, setup_outcome, UffdSetup, UffdStep, UffdioRegister, Userfaultfd,
};

verus! {

/// A region whose missing pages are reported through `uffd`. Its first
/// `data_size` bytes are an image of a backend, the rest is padding.
#[derive(Debug)]
pub struct LazyPmemRegion {
    pub base_hva: u64,
    pub size: u64,
    pub data_size: u64,
    pub backend_id: String,
    pub socket: Vec<u8>,
    pub uffd: Userfaultfd,
}

/// The mathematical content of a [`LazyPmemRegion`].
pub struct RegionView {
    pub base_hva: u64,
    pub size: u64,
    pub data_size: u64,
    pub backend_id: Seq<char>,
    pub socket: Seq<u8>,
    pub uffd: Userfaultfd,
}

impl View for LazyPmemRegion {
    type V = RegionView;

    open spec fn view(&self) -> RegionView {
        RegionView {
            base_hva: self.base_hva,
            size: self.size,
            data_size: self.data_size,
            backend_id: self.backend_id@,
            socket: self.socket@,
            uffd: self.uffd,
        }
    }
}

/// What to do next to register a region.
#[derive(Debug, Clone, Copy, PartialEq, Eq, Structural)]
pub enum RegistrationStep {
    /// Do the next step of setting up the descriptor.
    Setup(UffdSetup),
    /// Hand `request` to the descriptor of `uffd` with
    /// [`UFFDIO_REGISTER`](crate::userfaultfd::UFFDIO_REGISTER).
    Register { uffd: Userfaultfd, request: UffdioRegister },
    /// Nothing: the region is registered with `uffd`.
    Registered { uffd: Userfaultfd },
}

/// A region that is being registered.
#[derive(Debug)]
pub struct Registration {
    base_hva: u64,
    size: u64,
    data_size: u64,
    backend_id: String,
    socket: Vec<u8>,
    step: RegistrationStep,
}

/// The mathematical content of a [`Registration`].
pub struct RegistrationView {
    pub base_hva: u64,
    pub size: u64,
    pub data_size: u64,
    pub backend_id: Seq<char>,
    pub socket: Seq<u8>,
    pub step: RegistrationStep,
}

impl View for Registration {
    type V = RegistrationView;

    closed spec fn view(&self) -> RegistrationView {
        RegistrationView {
            base_hva: self.base_hva,
            size: self.size,
            data_size: self.data_size,
            backend_id: self.backend_id@,
            socket: self.socket@,
            step: self.step,
        }
    }
}

/// The registration of a region, before the first step. No features are asked
/// for.
pub open spec fn new_registration(
    base_hva: u64,
    size: u64,
    data_size: u64,
    backend_id: Seq<char>,
    socket: Seq<u8>,
) -> RegistrationView {
    RegistrationView {
        base_hva,
        size,
        data_size,
        backend_id,
        socket,
        step: RegistrationStep::Setup(UffdSetup { features: 0, step: UffdStep::Create }),
    }
}

/// The step that follows `step` once it has been answered `reply`, with the
/// error number `errno` after it.
pub open spec fn registration_step_outcome(
    base_hva: u64,
    size: u64,
    step: RegistrationStep,
    reply: i64,
    errno: i32,
) -> Result<RegistrationStep, IoErrorView> {
    match step {
        RegistrationStep::Setup(setup) => match setup_outcome(setup, reply, errno) {
            Err(error) => Err(error),
            Ok(setup) => match setup.step {
                UffdStep::Ready { fd } => match register_outcome(base_hva, size) {
                    Err(error) => Err(error),
                    Ok(request) => Ok(
                        RegistrationStep::Register { uffd: Userfaultfd { fd }, request },
                    ),
                },
                _ => Ok(RegistrationStep::Setup(setup)),
            },
        },
        RegistrationStep::Register { uffd, request } => match os_outcome(reply, errno) {
            Err(error) => Err(error),
            Ok(_) => Ok(RegistrationStep::Registered { uffd }),
        },
        RegistrationStep::Registered { uffd } => Ok(step),
    }
}

/// What becomes of a registration once its step has been answered `reply`, with
/// the error number `errno` after it.
pub open spec fn registration_outcome(
    registration: RegistrationView,
    reply: i64,
    errno: i32,
) -> Result<RegistrationView, IoErrorView> {
    match registration_step_outcome(
        registration.base_hva,
        registration.size,
        registration.step,
        reply,
        errno,
    ) {
        Err(error) => Err(error),
        Ok(step) => Ok(RegistrationView { step, ..registration }),
    }
}

/// What becomes of a registration once its steps have been answered, one after
/// the other, by `replies`, each with the error number after it.
pub open spec fn registration_run(
    registration: RegistrationView,
    replies: Seq<(i64, i32)>,
) -> Result<RegistrationView, IoErrorView>
    decreases replies.len(),
{
    if replies.len() == 0 {
        Ok(registration)
    } else {
        match registration_outcome(registration, replies[0].0, replies[0].1) {
            Err(error) => Err(error),
            Ok(next) => registration_run(next, replies.drop_first()),
        }
    }
}

/// The region of a registration that has no step left.
pub open spec fn registered_region(registration: RegistrationView) -> Option<RegionView> {
    match registration.step {
        RegistrationStep::Registered { uffd } => Some(
            RegionView {
                base_hva: registration.base_hva,
                size: registration.size,
                data_size: registration.data_size,
                backend_id: registration.backend_id,
                socket: registration.socket,
                uffd,
            },
        ),
        _ => None,
    }
}

impl Registration {
    /// What to do next.
    pub fn step(&self) -> (step: RegistrationStep)
        ensures
            step == self@.step,
    {
        self.step
    }

    /// Goes on once the step has been answered `reply`, with the error number
    /// `errno` after it. A step that fails ends the registration.
    pub fn advance(self, reply: i64, errno: i32) -> (result: Result<Registration, IoError>)
        ensures
            viewed(result) == registration_outcome(self@, reply, errno),
    {
        let step = match self.step {
            RegistrationStep::Setup(setup) => match setup.advance(reply, errno) {
                Err(error) => return Err(error),
                Ok(setup) => match setup.step {
                    UffdStep::Ready { fd } => {
                        let uffd = Userfaultfd { fd };
                        match uffd.register_missing(self.base_hva, self.size) {
                            Err(error) => return Err(error),
                            Ok(request) => RegistrationStep::Register { uffd, request },
                        }
                    },
                    _ => RegistrationStep::Setup(setup),
                },
            },
            RegistrationStep::Register { uffd, request: _ } => match os_result(reply, errno) {
                Err(error) => return Err(error),
                Ok(_) => RegistrationStep::Registered { uffd },
            },
            RegistrationStep::Registered { uffd } => RegistrationStep::Registered { uffd },
        };
        let mut registration = self;
        registration.step = step;
        Ok(registration)
    }

    /// The registered region, once no step is left.
    pub fn region(self) -> (region: Option<LazyPmemRegion>)
        ensures
            match region {
                Some(region) => registered_region(self@) == Some(region@),
                None => registered_region(self@) is None,
            },
    {
        match self.step {
            RegistrationStep::Registered { uffd } => Some(
                LazyPmemRegion {
                    base_hva: self.base_hva,
                    size: self.size,
                    data_size: self.data_size,
                    backend_id: self.backend_id,
                    socket: self.socket,
                    uffd,
                },
            ),
            _ => None,
        }
    }
}

/// The handler of the faults of a region, where the system gave `page_size` as
/// the size of a page and `errno` as the error number after it.
pub open spec fn handler_outcome(region: RegionView, page_size: i64, errno: i32) -> Result<
    HandlerView,
    IoErrorView,
> {
    match client_outcome(region.socket, region.backend_id, region.size, page_size, errno) {
        Err(error) => Err(error),
        Ok(client) => Ok(
            HandlerView { base_hva: region.base_hva, data_size: region.data_size, client },
        ),
    }
}

impl LazyPmemRegion {
    /// Starts to register the `size` bytes at `base_hva` as a region with
    /// `data_size` bytes of the image `backend_id` behind `socket`.
    pub fn register(
        base_hva: u64,
        size: u64,
        data_size: u64,
        backend_id: String,
        socket: Vec<u8>,
    ) -> (registration: Registration)
        ensures
            registration@ == (RegistrationView {
                base_hva,
                size,
                data_size,
                backend_id: backend_id@,
                socket: socket@,
                step: RegistrationStep::Setup(UffdSetup { features: 0, step: UffdStep::Create }),
            }),
            registration@ == new_registration(base_hva, size, data_size, backend_id@, socket@),
    {
        Registration {
            base_hva,
            size,
            data_size,
            backend_id,
            socket,
            step: RegistrationStep::Setup(Userfaultfd::new(0)),
        }
    }

    /// Makes the handler of the faults of the region. `page_size` is what the
    /// system gave as the size of a page and `errno` the error number after it.
    pub fn fault_handler(&self, page_size: i64, errno: i32) -> (result: Result<
        FaultHandler,
        IoError,
    >)
        ensures
            viewed(result) == handler_outcome(self@, page_size, errno),
    {
        let socket = self.socket.clone();
        assert(socket@ =~= self.socket@);
        match LazyPmemBackendClient::new(
            socket,
            self.backend_id.clone(),
            self.size,
            page_size,
            errno,
        ) {
            Ok(client) => Ok(FaultHandler::new(self.base_hva, self.data_size, client)),
            Err(error) => Err(error),
        }
    }
}

} // verus!
