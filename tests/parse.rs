use carbide::controller::grbl::proto::{
    GrblAccessoryStatus, GrblBufferStatus, GrblInputPinsStatus, GrblMachineHoldStatus,
    GrblMachineState, GrblMessage, GrblOverrridesStatus, GrblPositionStatus, GrblResponse,
    GrblSpindleStatus, GrblStatusReport, ProtocolError,
};
use carbide::decimal::Fixed;
use carbide::position::Position;

fn fx(v: f64) -> Fixed {
    Fixed { raw: (v * 1_000_000.0).round() as i64 }
}

fn pos(p: (f64, f64, f64)) -> Position {
    Position::from((fx(p.0), fx(p.1), fx(p.2)))
}

#[test]
fn test_parse_ok() {
    assert_eq!(GrblMessage::parse("ok").unwrap(),
               GrblMessage::Response(GrblResponse::Okay));
}

#[test]
fn test_parse_error() {
    assert_eq!(GrblMessage::parse("error:0").unwrap(),
               GrblMessage::Response(GrblResponse::Error(0)));
    assert_eq!(GrblMessage::parse("error:255").unwrap(),
               GrblMessage::Response(GrblResponse::Error(255)));
}

#[test]
fn test_parse_alarm() {
    assert_eq!(GrblMessage::parse("ALARM:0").unwrap(),
               GrblMessage::Alarm(0));
    assert_eq!(GrblMessage::parse("ALARM:255").unwrap(),
               GrblMessage::Alarm(255));
}

#[test]
fn test_parse_setting() {
    assert_eq!(GrblMessage::parse("$13=0").unwrap(),
               GrblMessage::Setting { code: 13, value: fx(0.0) });
    assert_eq!(GrblMessage::parse("$100=250.0").unwrap(),
               GrblMessage::Setting { code: 100, value: fx(250.0) });
    assert_eq!(GrblMessage::parse("$12=0.002").unwrap(),
               GrblMessage::Setting { code: 12, value: fx(0.002) });
    assert_eq!(GrblMessage::parse("$30=1000").unwrap(),
               GrblMessage::Setting { code: 30, value: fx(1000.0) });
}

#[test]
fn test_parse_startup_line() {
    assert_eq!(GrblMessage::parse("$N0=G54").unwrap(),
               GrblMessage::StartupLine { nr: 0, line: "G54".to_owned() });
    assert_eq!(GrblMessage::parse("$N1=").unwrap(),
               GrblMessage::StartupLine { nr: 1, line: "".to_owned() });
}

#[test]
fn test_parse_feedback() {
    assert_eq!(GrblMessage::parse("[MSG:Reset to continue]").unwrap(),
               GrblMessage::Feedback("Reset to continue".to_owned()));
    assert_eq!(GrblMessage::parse("[MSG:'$H'|'$X' to unlock]").unwrap(),
               GrblMessage::Feedback("'$H'|'$X' to unlock".to_owned()));
}

#[test]
fn test_parse_parser_state() {
    assert_eq!(GrblMessage::parse("[GC:G0 G54 G17 G21 G90 G94 M5 M9 T0 F0.0 S0]").unwrap(),
               GrblMessage::ParserState("G0 G54 G17 G21 G90 G94 M5 M9 T0 F0.0 S0".to_owned()));
}

#[test]
fn test_parse_help() {
    assert_eq!(GrblMessage::parse("[HLP:$$ $# $G $I $N $x=val $Nx=line $J=line $C $X $H ~ ! ? ctrl-x]").unwrap(),
               GrblMessage::Help("$$ $# $G $I $N $x=val $Nx=line $J=line $C $X $H ~ ! ? ctrl-x".to_owned()));
}

#[test]
fn test_parse_parameter() {
    // [G54:0.000,0.000,0.000]
    // [G55:0.000,0.000,0.000]
    // [G56:0.000,0.000,0.000]
    // [G57:0.000,0.000,0.000]
    // [G58:0.000,0.000,0.000]
    // [G59:0.000,0.000,0.000]
    // [G28:0.000,0.000,0.000]
    // [G30:0.000,0.000,0.000]
    // [G92:0.000,0.000,0.000]
    // [TLO:0.000]
    // [PRB:0.000,0.000,0.000:0]
}

#[test]
fn test_parse_version() {
    assert_eq!(GrblMessage::parse("[VER:1.1d.20161014:]").unwrap(),
               GrblMessage::Version { version: "1.1d.20161014".to_owned(), note: "".to_owned() });
    assert_eq!(GrblMessage::parse("[VER:1.1d.20161014:carbide rocks]").unwrap(),
               GrblMessage::Version { version: "1.1d.20161014".to_owned(), note: "carbide rocks".to_owned() });
}

#[test]
fn test_parse_build_options() {
    assert_eq!(GrblMessage::parse("[OPT:VL,15,128]").unwrap(),
               GrblMessage::BuildOptions("VL,15,128".to_owned()));
}

fn report(machine_state: GrblMachineState, position: GrblPositionStatus) -> GrblStatusReport {
    GrblStatusReport {
        machine_state,
        position,
        wco: None,
        buffer: None,
        line: None,
        feed: None,
        speed: None,
        input_pins: None,
        overrides: None,
        accessory: None,
    }
}

#[test]
fn test_parse_status_report() {
    assert_eq!(GrblMessage::parse("<Idle|MPos:3.000,2.000,0.000|FS:0,0>").unwrap(),
               GrblMessage::StatusReport(GrblStatusReport {
                   machine_state: GrblMachineState::Idle,
                   position: GrblPositionStatus::MachinePosition(pos((3.0, 2.0, 0.0))),
                   wco: None,
                   buffer: None,
                   line: None,
                   feed: Some(fx(0.0)),
                   speed: Some(fx(0.0)),
                   input_pins: None,
                   overrides: None,
                   accessory: None,
               }));
    assert_eq!(GrblMessage::parse("<Hold:0|MPos:5.000,2.000,0.000|FS:0,0>").unwrap(),
               GrblMessage::StatusReport(GrblStatusReport {
                   machine_state: GrblMachineState::Hold(GrblMachineHoldStatus::Complete),
                   position: GrblPositionStatus::MachinePosition(pos((5.0, 2.0, 0.0))),
                   wco: None,
                   buffer: None,
                   line: None,
                   feed: Some(fx(0.0)),
                   speed: Some(fx(0.0)),
                   input_pins: None,
                   overrides: None,
                   accessory: None,
               }));
    assert_eq!(GrblMessage::parse("<Idle|WPos:5.000,2.000,0.000|FS:0,0|Ov:100,100,100>").unwrap(),
               GrblMessage::StatusReport(GrblStatusReport {
                   machine_state: GrblMachineState::Idle,
                   position: GrblPositionStatus::WorkPosition(pos((5.0, 2.0, 0.0))),
                   wco: None,
                   buffer: None,
                   line: None,
                   feed: Some(fx(0.0)),
                   speed: Some(fx(0.0)),
                   input_pins: None,
                   overrides: Some(GrblOverrridesStatus {
                       feed: fx(100.0),
                       rapids: fx(100.0),
                       speed: fx(100.0),
                   }),
                   accessory: None,
               }));
    assert_eq!(GrblMessage::parse("<Idle|MPos:5.000,2.000,0.000|FS:0,0|WCO:0.000,0.000,0.000>").unwrap(),
               GrblMessage::StatusReport(GrblStatusReport {
                   machine_state: GrblMachineState::Idle,
                   position: GrblPositionStatus::MachinePosition(pos((5.0, 2.0, 0.0))),
                   wco: Some(pos((0.0, 0.0, 0.0))),
                   buffer: None,
                   line: None,
                   feed: Some(fx(0.0)),
                   speed: Some(fx(0.0)),
                   input_pins: None,
                   overrides: None,
                   accessory: None,
               }));
    assert_eq!(GrblMessage::parse("<Run|MPos:23.036,1.620,0.000|F:500>").unwrap(),
               GrblMessage::StatusReport(GrblStatusReport {
                   machine_state: GrblMachineState::Run,
                   position: GrblPositionStatus::MachinePosition(pos((23.036, 1.620, 0.0))),
                   wco: None,
                   buffer: None,
                   line: None,
                   feed: Some(fx(500.0)),
                   speed: None,
                   input_pins: None,
                   overrides: None,
                   accessory: None,
               }));
    assert_eq!(GrblMessage::parse("<Run|MPos:5.000,2.000,0.000|Ln:99999|Bf:15,128>").unwrap(),
               GrblMessage::StatusReport(GrblStatusReport {
                   machine_state: GrblMachineState::Run,
                   position: GrblPositionStatus::MachinePosition(pos((5.0, 2.0, 0.0))),
                   wco: None,
                   buffer: Some(GrblBufferStatus {
                       planner: 15,
                       rx: 128,
                   }),
                   line: Some(99999),
                   feed: None,
                   speed: None,
                   input_pins: None,
                   overrides: None,
                   accessory: None,
               }));
    assert_eq!(GrblMessage::parse("<Idle|MPos:5.000,2.000,0.000|Pn:XYZR>").unwrap(),
               GrblMessage::StatusReport(GrblStatusReport {
                   machine_state: GrblMachineState::Idle,
                   position: GrblPositionStatus::MachinePosition(pos((5.0, 2.0, 0.0))),
                   wco: None,
                   buffer: None,
                   line: None,
                   feed: None,
                   speed: None,
                   input_pins: Some(GrblInputPinsStatus {
                       x_limit: true,
                       y_limit: true,
                       z_limit: true,
                       probe: false,
                       door: false,
                       hold: false,
                       soft_reset: true,
                       cycle_start: false
                   }),
                   overrides: None,
                   accessory: None,
               }));
    assert_eq!(GrblMessage::parse("<Idle|MPos:5.000,2.000,0.000|A:SMF>").unwrap(),
               GrblMessage::StatusReport(GrblStatusReport {
                   machine_state: GrblMachineState::Idle,
                   position: GrblPositionStatus::MachinePosition(pos((5.0, 2.0, 0.0))),
                   wco: None,
                   buffer: None,
                   line: None,
                   feed: None,
                   speed: None,
                   input_pins: None,
                   overrides: None,
                   accessory: Some(GrblAccessoryStatus {
                       spindle: GrblSpindleStatus::CW,
                       flood_coolant: true,
                       mist_coolant: true,
                   }),
               }));
}

#[test]
fn parameter_keeps_name_and_values() {
    assert_eq!(GrblMessage::parse("[G54:0.000,0.000,0.000]").unwrap(),
               GrblMessage::Parameter("G54:0.000,0.000,0.000".to_owned()));
    assert_eq!(GrblMessage::parse("[PRB:0.000,0.000,0.000:0]").unwrap(),
               GrblMessage::Parameter("PRB:0.000,0.000,0.000:0".to_owned()));
    assert_eq!(GrblMessage::parse("[G53:1]").unwrap(),
               GrblMessage::Other("[G53:1]".to_owned()));
}

#[test]
fn codes_beyond_a_byte_stay_verbatim() {
    assert_eq!(GrblMessage::parse("error:256").unwrap(),
               GrblMessage::Other("error:256".to_owned()));
    assert_eq!(GrblMessage::parse("ALARM:x").unwrap(),
               GrblMessage::Other("ALARM:x".to_owned()));
    assert_eq!(GrblMessage::parse("error:").unwrap(),
               GrblMessage::Other("error:".to_owned()));
}

#[test]
fn malformed_setting_value_is_other() {
    assert_eq!(GrblMessage::parse("$13=abc").unwrap(),
               GrblMessage::Other("$13=abc".to_owned()));
    assert_eq!(GrblMessage::parse("$300=1").unwrap(),
               GrblMessage::Other("$300=1".to_owned()));
    assert_eq!(GrblMessage::parse("$12=-0.5").unwrap(),
               GrblMessage::Setting { code: 12, value: Fixed { raw: -500_000 } });
}

#[test]
fn unknown_lines_are_other() {
    assert_eq!(GrblMessage::parse("Grbl 1.1f ['$' for help]").unwrap(),
               GrblMessage::Other("Grbl 1.1f ['$' for help]".to_owned()));
    assert_eq!(GrblMessage::parse("").unwrap(), GrblMessage::Other("".to_owned()));
}

#[test]
fn status_report_refusals() {
    assert_eq!(GrblMessage::parse("<Idle|MPos:1,2,3|Xy:1>"), Err(ProtocolError::UnknownKey));
    assert_eq!(GrblMessage::parse("<Idle|MPos:1,2,3|Pn:Q>"), Err(ProtocolError::UnknownLetter));
    assert_eq!(GrblMessage::parse("<Idle|MPos:1,2,3|A:Z>"), Err(ProtocolError::UnknownLetter));
    assert_eq!(GrblMessage::parse("<Busy|MPos:1,2,3>"), Err(ProtocolError::UnknownMachineState));
    assert_eq!(GrblMessage::parse("<Idle>"), Err(ProtocolError::MissingPosition));
    assert_eq!(GrblMessage::parse("<Idle|FS:0,0>"), Err(ProtocolError::MissingPosition));
    assert_eq!(GrblMessage::parse("<Idle|MPos:1,2,3|FS>"), Err(ProtocolError::MissingSeparator));
}

#[test]
fn status_report_malformed_number_is_other() {
    assert_eq!(GrblMessage::parse("<Idle|MPos:1,2>").unwrap(),
               GrblMessage::Other("<Idle|MPos:1,2>".to_owned()));
    assert_eq!(GrblMessage::parse("<Idle|MPos:1,2,3|Bf:15,300>").unwrap(),
               GrblMessage::Other("<Idle|MPos:1,2,3|Bf:15,300>".to_owned()));
}

#[test]
fn status_report_later_spindle_letter_wins() {
    let mut expected = report(GrblMachineState::Jog, GrblPositionStatus::MachinePosition(pos((-1.5, 0.25, 7.0))));
    expected.accessory = Some(GrblAccessoryStatus {
        spindle: GrblSpindleStatus::CCW,
        flood_coolant: false,
        mist_coolant: false,
    });
    expected.line = Some(7);
    assert_eq!(GrblMessage::parse("<Jog|MPos:-1.5,0.25,7|A:SC|Ln:7>").unwrap(),
               GrblMessage::StatusReport(expected));
}

#[test]
fn every_machine_state_parses() {
    for (token, state) in [
        ("Idle", GrblMachineState::Idle),
        ("Run", GrblMachineState::Run),
        ("Hold:1", GrblMachineState::Hold(GrblMachineHoldStatus::InProgress)),
        ("Alarm", GrblMachineState::Alarm),
        ("Check", GrblMachineState::Check),
        ("Home", GrblMachineState::Home),
        ("Sleep", GrblMachineState::Sleep),
    ] {
        let line = format!("<{}|WPos:0,0,0>", token);
        assert_eq!(GrblMessage::parse(&line).unwrap(),
                   GrblMessage::StatusReport(report(state, GrblPositionStatus::WorkPosition(pos((0.0, 0.0, 0.0))))));
    }
}
