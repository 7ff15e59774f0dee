//! Core engine of a forward HTTP/HTTPS proxy.
//!
//! The library covers the connection-handling logic: parsing the first
//! request line of a freshly accepted connection, resolving the target
//! origin to dial, deciding the tunnel handshake, and modelling the
//! byte-transparent relay. All socket work is left to the surrounding
//! program, which drives the [`supervisor::Supervisor`] state machine.

use vstd::prelude::*;

pub mod failure;
pub mod parse;
pub mod relay;
pub mod resolve;
pub mod supervisor;

verus! {

} // verus!
