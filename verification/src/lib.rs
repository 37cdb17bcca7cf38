//! The I/O-free core of a lazily populated persistent-memory region.
//!
//! Every decision of the protocol is made here, on plain values; the system
//! calls, the sockets and the threads belong to the program around it.

pub mod client;
pub mod error;
pub mod fault_laws;
pub mod fetch;
pub mod fetch_laws;
pub mod handler;
pub mod laws;
pub mod os;
pub mod region;
pub mod socket;
pub mod system_laws;
pub mod text;
pub mod text_laws;
pub mod userfaultfd;
pub mod wire;
