use carbide::controller::grbl::codes::{alarm_text, build_option_text, error_text, setting, SETTING_CODE_REPORT_IN_INCHES};
use carbide::controller::grbl::controller::{description, to_response};
use carbide::controller::grbl::proto::{GrblMachineDoorStatus, GrblMachineState, GrblMessage, GrblResponse};
use carbide::controller::grbl::state::{State, Unit};
use carbide::controller::{self, DoorStatus, MachineStatus, Response};
use carbide::decimal::Fixed;
use carbide::position::Position;
use carbide::server;

fn fx(v: f64) -> Fixed {
    Fixed { raw: (v * 1_000_000.0).round() as i64 }
}

fn pos(x: f64, y: f64, z: f64) -> Position {
    Position::from((fx(x), fx(y), fx(z)))
}

fn feed(state: &mut State, line: &str) -> Option<controller::State> {
    state.handle(GrblMessage::parse(line).unwrap())
}

#[test]
fn status_round_trip() {
    let mut s = State::new();
    let snap = feed(&mut s, "<Idle|MPos:3.000,2.000,0.000|FS:0,0>").unwrap();
    assert_eq!(snap.status, MachineStatus::Idle);
    assert_eq!(snap.machine_position, pos(3.0, 2.0, 0.0));
    assert_eq!(snap.work_position, pos(3.0, 2.0, 0.0));
}

#[test]
fn inch_reports_are_converted() {
    let mut s = State::new();
    assert!(feed(&mut s, "$13=1").is_none());
    assert_eq!(s.unit, Unit::Inch);
    let snap = feed(&mut s, "<Idle|MPos:1.000,0.000,0.000|FS:0,0>").unwrap();
    assert_eq!(snap.machine_position, pos(25.4, 0.0, 0.0));
    assert!(feed(&mut s, "$13=0").is_none());
    assert_eq!(s.unit, Unit::Millimeter);
}

#[test]
fn wco_is_applied() {
    let mut s = State::new();
    let first = feed(&mut s, "<Idle|MPos:5.000,2.000,0.000|FS:0,0|WCO:0.000,0.000,0.000>").unwrap();
    assert_eq!(first.machine_position, pos(5.0, 2.0, 0.0));
    assert_eq!(first.work_position, pos(5.0, 2.0, 0.0));
    let second = feed(&mut s, "<Idle|WPos:5.000,2.000,0.000|FS:0,0>").unwrap();
    assert_eq!(second.machine_position, pos(5.0, 2.0, 0.0));
    assert_eq!(second.work_position, pos(5.0, 2.0, 0.0));
}

#[test]
fn nonzero_wco_relates_frames() {
    let mut s = State::new();
    let a = feed(&mut s, "<Run|MPos:10.000,5.000,-2.000|WCO:1.000,2.000,3.000>").unwrap();
    assert_eq!(a.work_position, pos(9.0, 3.0, -5.0));
    let b = feed(&mut s, "<Door:2|WPos:0.000,0.000,0.000>").unwrap();
    assert_eq!(b.machine_position, pos(1.0, 2.0, 3.0));
    assert_eq!(b.status, MachineStatus::Door(DoorStatus::Holding));
    assert_eq!(b.work_position, b.machine_position.sub(s.wco));
}

#[test]
fn inch_wco_is_converted() {
    let mut s = State::new();
    feed(&mut s, "$13=1");
    let snap = feed(&mut s, "<Idle|MPos:2.0000,0.0000,0.0000|WCO:1.0000,0.0000,-1.0000>").unwrap();
    assert_eq!(s.wco, pos(25.4, 0.0, -25.4));
    assert_eq!(snap.machine_position, pos(50.8, 0.0, 0.0));
    assert_eq!(snap.work_position, pos(25.4, 0.0, 25.4));
}

#[test]
fn other_messages_leave_state_alone() {
    let mut s = State::new();
    assert!(feed(&mut s, "ok").is_none());
    assert!(feed(&mut s, "[MSG:Reset to continue]").is_none());
    assert!(feed(&mut s, "$12=1").is_none());
    assert_eq!(s, State::new());
}

#[test]
fn initial_snapshot_is_idle_at_origin() {
    let init = controller::State::initial();
    assert_eq!(init.status, MachineStatus::Idle);
    assert_eq!(init.machine_position, Position::zero());
    assert_eq!(init.work_position, Position::zero());
}

#[test]
fn error_codes_map_to_text() {
    assert_eq!(to_response(GrblResponse::Error(2)), Response::Error("Bad number format".to_owned()));
    assert_eq!(to_response(GrblResponse::Error(200)), Response::Error("200".to_owned()));
    assert_eq!(to_response(GrblResponse::Okay), Response::Okay);
}

#[test]
fn code_tables() {
    assert_eq!(error_text(9), Some("G-code lock"));
    assert_eq!(error_text(18), None);
    assert_eq!(alarm_text(1), Some("Hard limit"));
    assert_eq!(alarm_text(10), None);
    assert_eq!(setting(SETTING_CODE_REPORT_IN_INCHES).unwrap().name, "Report in inches");
    assert_eq!(setting(7), None);
    assert_eq!(build_option_text('V'), Some("Variable spindle enabled"));
    assert_eq!(build_option_text('Q'), None);
}

#[test]
fn machine_states_flatten() {
    let s = MachineStatus::from(GrblMachineState::Door(GrblMachineDoorStatus::Open));
    assert_eq!(s, MachineStatus::Door(DoorStatus::Open));
    assert_eq!(server::MachineStatus::from(s), server::MachineStatus::DoorOpen);
    let state = controller::State { status: s, machine_position: pos(1.0, 2.0, 3.0), work_position: pos(0.0, 1.0, 2.0) };
    let flat = server::ControllerState::from(state);
    assert_eq!(flat.status, server::MachineStatus::DoorOpen);
    assert_eq!(flat.machine_position, pos(1.0, 2.0, 3.0));
}

#[test]
fn description_names_the_port() {
    assert_eq!(description("/dev/ttyUSB0"), "GRBL: /dev/ttyUSB0");
}

#[test]
fn position_algebra() {
    let a = pos(1.5, -2.0, 3.0);
    let b = pos(0.5, 1.0, -1.0);
    assert_eq!(a.add(b), pos(2.0, -1.0, 2.0));
    assert_eq!(a.sub(b), pos(1.0, -3.0, 4.0));
    assert_eq!(a.neg(), pos(-1.5, 2.0, -3.0));
    assert_eq!(a.mul(2), pos(3.0, -4.0, 6.0));
    assert_eq!(a.div(2), pos(0.75, -1.0, 1.5));
    assert_eq!(Fixed::from_int(-3), fx(-3.0));
    assert_eq!(Unit::Inch.metricize(pos(1.0, -0.5, 0.0001)), pos(25.4, -12.7, 0.00254));
    assert_eq!(Unit::Millimeter.metricize(a), a);
}
