//! What the presentation layer publishes: a description of the controller
//! and flat snapshots of its state.
use vstd::prelude::*;

use crate::controller;
use crate::position::Position;

verus! {

#[derive(Debug, Clone, Copy, PartialEq, Eq, Structural)]
pub enum ControllerType {
    Grbl,
}

#[derive(Debug, Clone, PartialEq, Eq)]
pub struct Info {
    pub version: String,
    pub controller: ControllerType,
    pub description: String,
}

/// Machine status with its sub-states folded into one level.
#[derive(Debug, Clone, Copy, PartialEq, Eq, Structural)]
pub enum MachineStatus {
    Idle,
    Run,
    HoldComplete,
    HoldInProgress,
    Jog,
    Alarm,
    DoorClosed,
    DoorOpen,
    DoorHolding,
    DoorResuming,
    Check,
    Home,
    Sleep,
}

pub open spec fn flat_status(status: controller::MachineStatus) -> MachineStatus {
    match status {
        controller::MachineStatus::Idle => MachineStatus::Idle,
        controller::MachineStatus::Run => MachineStatus::Run,
        controller::MachineStatus::Hold(h) => match h {
            controller::HoldStatus::InProgress => MachineStatus::HoldInProgress,
            controller::HoldStatus::Complete => MachineStatus::HoldComplete,
        },
        controller::MachineStatus::Jog => MachineStatus::Jog,
        controller::MachineStatus::Alarm => MachineStatus::Alarm,
        controller::MachineStatus::Door(d) => match d {
            controller::DoorStatus::Closed => MachineStatus::DoorClosed,
            controller::DoorStatus::Open => MachineStatus::DoorOpen,
            controller::DoorStatus::Holding => MachineStatus::DoorHolding,
            controller::DoorStatus::Resuming => MachineStatus::DoorResuming,
        },
        controller::MachineStatus::Check => MachineStatus::Check,
        controller::MachineStatus::Home => MachineStatus::Home,
        controller::MachineStatus::Sleep => MachineStatus::Sleep,
    }
}

impl From<controller::MachineStatus> for MachineStatus {
    fn from(status: controller::MachineStatus) -> (r: MachineStatus) {
        match status {
            controller::MachineStatus::Idle => MachineStatus::Idle,
            controller::MachineStatus::Run => MachineStatus::Run,
            controller::MachineStatus::Hold(status) => match status {
                controller::HoldStatus::InProgress => MachineStatus::HoldInProgress,
                controller::HoldStatus::Complete => MachineStatus::HoldComplete,
            },
            controller::MachineStatus::Jog => MachineStatus::Jog,
            controller::MachineStatus::Alarm => MachineStatus::Alarm,
            controller::MachineStatus::Door(status) => match status {
                controller::DoorStatus::Closed => MachineStatus::DoorClosed,
                controller::DoorStatus::Open => MachineStatus::DoorOpen,
                controller::DoorStatus::Holding => MachineStatus::DoorHolding,
                controller::DoorStatus::Resuming => MachineStatus::DoorResuming,
            },
            controller::MachineStatus::Check => MachineStatus::Check,
            controller::MachineStatus::Home => MachineStatus::Home,
            controller::MachineStatus::Sleep => MachineStatus::Sleep,
        }
    }
}

impl vstd::std_specs::convert::FromSpecImpl<controller::MachineStatus> for MachineStatus {
    open spec fn obeys_from_spec() -> bool {
        true
    }

    open spec fn from_spec(status: controller::MachineStatus) -> MachineStatus {
        flat_status(status)
    }
}

/// A snapshot as published; positions in millimetres.
#[derive(Debug, Clone, Copy, PartialEq, Eq, Structural)]
pub struct ControllerState {
    pub status: MachineStatus,
    pub machine_position: Position,
    pub work_position: Position,
}

impl From<controller::State> for ControllerState {
    fn from(state: controller::State) -> (r: ControllerState) {
        ControllerState {
            status: MachineStatus::from(state.status),
            machine_position: state.machine_position,
            work_position: state.work_position,
        }
    }
}

impl vstd::std_specs::convert::FromSpecImpl<controller::State> for ControllerState {
    open spec fn obeys_from_spec() -> bool {
        true
    }

    open spec fn from_spec(state: controller::State) -> ControllerState {
        ControllerState {
            status: flat_status(state.status),
            machine_position: state.machine_position,
            work_position: state.work_position,
        }
    }
}

} // verus!
