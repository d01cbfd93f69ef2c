//! Moving a host's traffic onto a tunnel device and back.
//!
//! The library decides which commands a transition runs on each platform, in
//! which order, and what they do to the host's default routes and resolver.
//! Running the commands is left to the caller, which feeds each outcome back.
use vstd::prelude::*;

pub mod action;
pub mod address;
pub mod command;
pub mod directions;
pub mod error;
pub mod execution;
pub mod gateway;
pub mod laws;
pub mod plan;
pub mod state;

verus! {

} // verus!
