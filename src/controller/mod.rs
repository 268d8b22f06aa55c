//! Controller-independent view of a machine: its status, its positions and
//! the outcome of a submitted line.
use vstd::prelude::*;

use crate::position::Position;

pub mod grbl;

verus! {

/// Outcome of a line the controller has processed; an error carries its text.
#[derive(Debug, Clone, PartialEq, Eq)]
pub enum Response {
    Okay,
    Error(String),
}

#[derive(Debug, Clone, Copy, PartialEq, Eq, Structural)]
pub enum HoldStatus {
    Complete,
    InProgress,
}

#[derive(Debug, Clone, Copy, PartialEq, Eq, Structural)]
pub enum DoorStatus {
    Closed,
    Open,
    Holding,
    Resuming,
}

#[derive(Debug, Clone, Copy, PartialEq, Eq, Structural)]
pub enum MachineStatus {
    Idle,
    Run,
    Hold(HoldStatus),
    Jog,
    Alarm,
    Door(DoorStatus),
    Check,
    Home,
    Sleep,
}

/// A snapshot of the machine; both positions are in millimetres.
#[derive(Debug, Clone, Copy, PartialEq, Eq, Structural)]
pub struct State {
    pub status: MachineStatus,
    pub machine_position: Position,
    pub work_position: Position,
}

impl State {
    /// The snapshot before any status report: idle, at the origin.
    pub fn initial() -> (r: State)
        ensures
            r.status == MachineStatus::Idle,
            r.machine_position.coords() == (0int, 0int, 0int),
            r.work_position.coords() == (0int, 0int, 0int),
    {
        State {
            status: MachineStatus::Idle,
            machine_position: Position::zero(),
            work_position: Position::zero(),
        }
    }
}

} // verus!
