//! Projection of inbound messages onto a metric snapshot of the machine.
use vstd::prelude::*;

use crate::controller;
use crate::decimal::LIMIT;
use crate::position::{div_toward_zero, Position};

use super::codes::SETTING_CODE_REPORT_IN_INCHES;
use super::proto::{machine_status, GrblMessage, GrblPositionStatus};

verus! {

/// Largest magnitude of a parsed coordinate once it is converted to millimetres.
pub const METRIC_LIMIT: i64 = 25_400_000_000_000_000;

/// The length unit the controller reports positions in.
#[derive(Debug, Clone, Copy, PartialEq, Eq, Structural)]
pub enum Unit {
    Millimeter,
    Inch,
}

/// A coordinate in millimetres: inches are scaled by 25.4, rounding toward
/// zero at the sixth decimal.
pub open spec fn to_mm(u: Unit, v: int) -> int {
    match u {
        Unit::Millimeter => v,
        Unit::Inch => div_toward_zero(v * 127, 5),
    }
}

pub open spec fn metric(u: Unit, p: Position) -> (int, int, int) {
    (to_mm(u, p.x.raw as int), to_mm(u, p.y.raw as int), to_mm(u, p.z.raw as int))
}

pub open spec fn minus(a: (int, int, int), b: (int, int, int)) -> (int, int, int) {
    (a.0 - b.0, a.1 - b.1, a.2 - b.2)
}

pub open spec fn plus(a: (int, int, int), b: (int, int, int)) -> (int, int, int) {
    (a.0 + b.0, a.1 + b.1, a.2 + b.2)
}

pub open spec fn metric_bounded(p: Position) -> bool {
    &&& -METRIC_LIMIT <= p.x.raw <= METRIC_LIMIT
    &&& -METRIC_LIMIT <= p.y.raw <= METRIC_LIMIT
    &&& -METRIC_LIMIT <= p.z.raw <= METRIC_LIMIT
}

proof fn lemma_to_mm_bound(u: Unit, v: int)
    requires
        -LIMIT <= v <= LIMIT,
    ensures
        -METRIC_LIMIT <= to_mm(u, v) <= METRIC_LIMIT,
{
    if v >= 0 {
        assert(v * 127 <= LIMIT * 127);
    } else {
        assert((-v) * 127 <= LIMIT * 127);
    }
}

impl Unit {
    /// `pos` converted to millimetres.
    pub fn metricize(&self, pos: Position) -> (r: Position)
        requires
            pos.in_range(),
        ensures
            r.coords() == metric(*self, pos),
            metric_bounded(r),
    {
        proof {
            lemma_to_mm_bound(*self, pos.x.raw as int);
            lemma_to_mm_bound(*self, pos.y.raw as int);
            lemma_to_mm_bound(*self, pos.z.raw as int);
        }
        match self {
            Unit::Millimeter => pos,
            Unit::Inch => pos.mul(127).div(5),
        }
    }
}

/// What the projector remembers between messages: the reporting unit and the
/// work coordinate offset in millimetres.
#[derive(Debug, Clone, Copy, PartialEq, Eq, Structural)]
pub struct State {
    pub unit: Unit,
    pub wco: Position,
}

impl State {
    pub open spec fn wf(&self) -> bool {
        metric_bounded(self.wco)
    }

    /// Millimetres, no offset.
    pub fn new() -> (r: State)
        ensures
            r.wf(),
            r.unit == Unit::Millimeter,
            r.wco.coords() == (0int, 0int, 0int),
    {
        State { unit: Unit::Millimeter, wco: Position::zero() }
    }

    /// Applies one message; returns the snapshot to publish, if the message
    /// was a status report.
    pub fn handle(&mut self, msg: GrblMessage) -> (r: Option<controller::State>)
        requires
            old(self).wf(),
            msg.in_range(),
        ensures
            final(self).wf(),
            match msg {
                GrblMessage::Setting { code, value } => {
                    &&& r is None
                    &&& final(self).wco == old(self).wco
                    &&& final(self).unit == if code != SETTING_CODE_REPORT_IN_INCHES {
                        old(self).unit
                    } else if value.raw == 0 {
                        Unit::Millimeter
                    } else {
                        Unit::Inch
                    }
                },
                GrblMessage::StatusReport(s) => {
                    &&& final(self).unit == old(self).unit
                    &&& final(self).wco.coords() == match s.wco {
                        Some(w) => metric(old(self).unit, w),
                        None => old(self).wco.coords(),
                    }
                    &&& r matches Some(snap) && {
                        &&& snap.status == machine_status(s.machine_state)
                        &&& snap.work_position.coords() == minus(
                            snap.machine_position.coords(),
                            final(self).wco.coords(),
                        )
                        &&& match s.position {
                            GrblPositionStatus::MachinePosition(p) => snap.machine_position.coords()
                                == metric(old(self).unit, p),
                            GrblPositionStatus::WorkPosition(p) => snap.work_position.coords()
                                == metric(old(self).unit, p) && snap.machine_position.coords()
                                == plus(metric(old(self).unit, p), final(self).wco.coords()),
                        }
                    }
                },
                _ => r is None && *final(self) == *old(self),
            },
    {
        match msg {
            GrblMessage::Setting { code, value } => {
                if code == SETTING_CODE_REPORT_IN_INCHES {
                    self.unit = if value.raw == 0 {
                        Unit::Millimeter
                    } else {
                        Unit::Inch
                    };
                }
                None
            },
            GrblMessage::StatusReport(status) => {
                if let Some(wco) = status.wco {
                    self.wco = self.unit.metricize(wco);
                }
                let (mpos, wpos) = match status.position {
                    GrblPositionStatus::MachinePosition(mpos) => {
                        let mpos = self.unit.metricize(mpos);
                        (mpos, mpos.sub(self.wco))
                    },
                    GrblPositionStatus::WorkPosition(wpos) => {
                        let wpos = self.unit.metricize(wpos);
                        (wpos.add(self.wco), wpos)
                    },
                };
                Some(
                    controller::State {
                        status: controller::MachineStatus::from(status.machine_state),
                        machine_position: mpos,
                        work_position: wpos,
                    },
                )
            },
            _ => None,
        }
    }
}

} // verus!
