//! The GRBL controller: its line protocol, code tables, flow control and
//! state projection.
use vstd::prelude::*;

pub mod buffer;
pub mod codes;
pub mod controller;
pub mod proto;
pub mod report;
pub mod parse;
pub mod state;

verus! {

/// Where the controller is attached.
#[derive(Debug, Clone, PartialEq, Eq)]
pub struct GrblControllerConfig {
    pub path: String,
}

} // verus!
