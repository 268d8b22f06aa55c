//! The controller's wire vocabulary: outbound line, system and realtime
//! commands with their encodings, and inbound messages.
use vstd::prelude::*;

use bytes::Bytes;

use crate::controller;
use crate::decimal::{decimal, fixed_text, push_decimal, push_fixed, Fixed};
use crate::position::Position;

verus! {

#[verifier::external_type_specification]
#[verifier::external_body]
pub struct ExBytes(Bytes);

/// The bytes that a `Bytes` buffer holds.
pub uninterp spec fn bytes_of(b: Bytes) -> Seq<u8>;

/// Relies on `bytes::Bytes::from(Vec<u8>)`, which takes over the vector's
/// bytes as they are.
#[verifier::external_body]
fn bytes_from_vec(v: Vec<u8>) -> (r: Bytes)
    ensures
        bytes_of(r) == v@,
{
    Bytes::from(v)
}

#[derive(Debug, Clone, Copy, PartialEq, Eq, Structural)]
pub enum GrblRestoreCommand {
    Settings,
    Parameters,
    All,
}

/// Commands of the `$` family.
#[derive(Debug, Clone, PartialEq, Eq)]
pub enum GrblSystemCommand {
    Help,
    ViewSettings,
    WriteSetting { code: u8, value: Fixed },
    ViewParameters,
    ViewParserState,
    ViewBuildInfo,
    ViewStartupBlocks,
    WriteStartupBlock { nr: u8, line: String },
    ToggleCheckMode,
    KillAlarmLock,
    RunHomingCycle,
    RunJoggingMotion(String),
    Restore(GrblRestoreCommand),
    Sleep,
}

/// Text of a system command, without the line terminator.
pub open spec fn system_text(c: GrblSystemCommand) -> Seq<char> {
    match c {
        GrblSystemCommand::Help => "$"@,
        GrblSystemCommand::ViewSettings => "$$"@,
        GrblSystemCommand::WriteSetting { code, value } => "$"@ + decimal(code as nat) + "="@
            + fixed_text(value.raw as int),
        GrblSystemCommand::ViewParameters => "$#"@,
        GrblSystemCommand::ViewParserState => "$G"@,
        GrblSystemCommand::ViewBuildInfo => "$I"@,
        GrblSystemCommand::ViewStartupBlocks => "$N"@,
        GrblSystemCommand::WriteStartupBlock { nr, line } => "$N"@ + decimal(nr as nat) + "="@
            + line@,
        GrblSystemCommand::ToggleCheckMode => "$C"@,
        GrblSystemCommand::KillAlarmLock => "$X"@,
        GrblSystemCommand::RunHomingCycle => "$H"@,
        GrblSystemCommand::RunJoggingMotion(line) => "$J="@ + line@,
        GrblSystemCommand::Restore(r) => match r {
            GrblRestoreCommand::Settings => "$RST=$"@,
            GrblRestoreCommand::Parameters => "$RST=#"@,
            GrblRestoreCommand::All => "$RST=*"@,
        },
        GrblSystemCommand::Sleep => "$SLP"@,
    }
}

impl GrblSystemCommand {
    pub fn into_string(self) -> (r: String)
        ensures
            r@ == system_text(self),
    {
        match self {
            GrblSystemCommand::Help => String::from_str("$"),
            GrblSystemCommand::ViewSettings => String::from_str("$$"),
            GrblSystemCommand::WriteSetting { code, value } => {
                let mut s = String::from_str("$");
                push_decimal(&mut s, code as u64);
                s.append("=");
                push_fixed(&mut s, value);
                s
            },
            GrblSystemCommand::ViewParameters => String::from_str("$#"),
            GrblSystemCommand::ViewParserState => String::from_str("$G"),
            GrblSystemCommand::ViewBuildInfo => String::from_str("$I"),
            GrblSystemCommand::ViewStartupBlocks => String::from_str("$N"),
            GrblSystemCommand::WriteStartupBlock { nr, line } => {
                let mut s = String::from_str("$N");
                push_decimal(&mut s, nr as u64);
                s.append("=");
                s.append(line.as_str());
                s
            },
            GrblSystemCommand::ToggleCheckMode => String::from_str("$C"),
            GrblSystemCommand::KillAlarmLock => String::from_str("$X"),
            GrblSystemCommand::RunHomingCycle => String::from_str("$H"),
            GrblSystemCommand::RunJoggingMotion(line) => {
                let mut s = String::from_str("$J=");
                s.append(line.as_str());
                s
            },
            GrblSystemCommand::Restore(restore) => match restore {
                GrblRestoreCommand::Settings => String::from_str("$RST=$"),
                GrblRestoreCommand::Parameters => String::from_str("$RST=#"),
                GrblRestoreCommand::All => String::from_str("$RST=*"),
            },
            GrblSystemCommand::Sleep => String::from_str("$SLP"),
        }
    }
}

#[derive(Debug, Clone, Copy, PartialEq, Eq, Structural)]
pub enum GrblFeedOverride {
    Reset,
    Increase10,
    Decrease10,
    Increase1,
    Decrease1,
}

#[derive(Debug, Clone, Copy, PartialEq, Eq, Structural)]
pub enum GrblRapidOverride {
    Full,
    Half,
    Quarter,
}

#[derive(Debug, Clone, Copy, PartialEq, Eq, Structural)]
pub enum GrblSpeedOverride {
    Reset,
    Increase10,
    Decrease10,
    Increase1,
    Decrease1,
}

/// Single-byte commands that the controller acts on as soon as they arrive.
#[derive(Debug, Clone, Copy, PartialEq, Eq, Structural)]
pub enum GrblRealtimeCommand {
    SoftReset,
    StatusReportQuery,
    CycleStartResume,
    FeedHold,
    SafetyDoor,
    JogCancel,
    FeedOverride(GrblFeedOverride),
    RapidOverride(GrblRapidOverride),
    SpeedOverride(GrblSpeedOverride),
    ToggleSpindleStop,
    ToggleFloodCoolant,
    ToggleMistCoolant,
}

/// The byte that stands for a realtime command on the wire.
pub open spec fn realtime_byte(c: GrblRealtimeCommand) -> u8 {
    match c {
        GrblRealtimeCommand::SoftReset => 0x18,
        GrblRealtimeCommand::StatusReportQuery => 0x3F,
        GrblRealtimeCommand::CycleStartResume => 0x7E,
        GrblRealtimeCommand::FeedHold => 0x21,
        GrblRealtimeCommand::SafetyDoor => 0x84,
        GrblRealtimeCommand::JogCancel => 0x85,
        GrblRealtimeCommand::FeedOverride(f) => match f {
            GrblFeedOverride::Reset => 0x90,
            GrblFeedOverride::Increase10 => 0x91,
            GrblFeedOverride::Decrease10 => 0x92,
            GrblFeedOverride::Increase1 => 0x93,
            GrblFeedOverride::Decrease1 => 0x94,
        },
        GrblRealtimeCommand::RapidOverride(r) => match r {
            GrblRapidOverride::Full => 0x95,
            GrblRapidOverride::Half => 0x96,
            GrblRapidOverride::Quarter => 0x97,
        },
        GrblRealtimeCommand::SpeedOverride(s) => match s {
            GrblSpeedOverride::Reset => 0x99,
            GrblSpeedOverride::Increase10 => 0x9A,
            GrblSpeedOverride::Decrease10 => 0x9B,
            GrblSpeedOverride::Increase1 => 0x9C,
            GrblSpeedOverride::Decrease1 => 0x9D,
        },
        GrblRealtimeCommand::ToggleSpindleStop => 0x9E,
        GrblRealtimeCommand::ToggleFloodCoolant => 0xA0,
        GrblRealtimeCommand::ToggleMistCoolant => 0xA1,
    }
}

impl GrblRealtimeCommand {
    pub fn to_byte(&self) -> (r: u8)
        ensures
            r == realtime_byte(*self),
    {
        match self {
            GrblRealtimeCommand::SoftReset => 0x18,
            GrblRealtimeCommand::StatusReportQuery => 0x3F,
            GrblRealtimeCommand::CycleStartResume => 0x7E,
            GrblRealtimeCommand::FeedHold => 0x21,
            GrblRealtimeCommand::SafetyDoor => 0x84,
            GrblRealtimeCommand::JogCancel => 0x85,
            GrblRealtimeCommand::FeedOverride(value) => match value {
                GrblFeedOverride::Reset => 0x90,
                GrblFeedOverride::Increase10 => 0x91,
                GrblFeedOverride::Decrease10 => 0x92,
                GrblFeedOverride::Increase1 => 0x93,
                GrblFeedOverride::Decrease1 => 0x94,
            },
            GrblRealtimeCommand::RapidOverride(value) => match value {
                GrblRapidOverride::Full => 0x95,
                GrblRapidOverride::Half => 0x96,
                GrblRapidOverride::Quarter => 0x97,
            },
            GrblRealtimeCommand::SpeedOverride(value) => match value {
                GrblSpeedOverride::Reset => 0x99,
                GrblSpeedOverride::Increase10 => 0x9A,
                GrblSpeedOverride::Decrease10 => 0x9B,
                GrblSpeedOverride::Increase1 => 0x9C,
                GrblSpeedOverride::Decrease1 => 0x9D,
            },
            GrblRealtimeCommand::ToggleSpindleStop => 0x9E,
            GrblRealtimeCommand::ToggleFloodCoolant => 0xA0,
            GrblRealtimeCommand::ToggleMistCoolant => 0xA1,
        }
    }

    /// The command as a write unit of exactly one byte.
    pub fn to_code(&self) -> (r: Bytes)
        ensures
            bytes_of(r) == seq![realtime_byte(*self)],
    {
        let mut v: Vec<u8> = Vec::new();
        v.push(self.to_byte());
        bytes_from_vec(v)
    }
}

/// Distinct realtime commands go out as distinct bytes, so each byte on the
/// wire decodes to exactly the command that was sent.
pub proof fn lemma_realtime_bytes_distinct(a: GrblRealtimeCommand, b: GrblRealtimeCommand)
    ensures
        realtime_byte(a) == realtime_byte(b) ==> a == b,
{
}

/// Commands that travel as lines and are subject to flow control.
#[derive(Debug, Clone, PartialEq, Eq)]
pub enum GrblLineCommand {
    Line(String),
    System(GrblSystemCommand),
}

/// Text of a line command, without the line terminator.
pub open spec fn line_text(c: GrblLineCommand) -> Seq<char> {
    match c {
        GrblLineCommand::Line(line) => line@,
        GrblLineCommand::System(command) => system_text(command),
    }
}

impl GrblLineCommand {
    pub fn into_string(self) -> (r: String)
        ensures
            r@ == line_text(self),
    {
        match self {
            GrblLineCommand::Line(line) => line,
            GrblLineCommand::System(command) => command.into_string(),
        }
    }

    /// The command as it goes on the wire: its text and one newline.
    pub fn to_line(self) -> (r: String)
        ensures
            r@ == line_text(self) + seq!['\n'],
    {
        let mut s = self.into_string();
        s.append("\n");
        proof {
            reveal_strlit("\n");
        }
        s
    }
}

#[derive(Debug, Clone, Copy, PartialEq, Eq, Structural)]
pub enum GrblResponse {
    Okay,
    Error(u8),
}

#[derive(Debug, Clone, Copy, PartialEq, Eq, Structural)]
pub enum GrblMachineHoldStatus {
    Complete,
    InProgress,
}

#[derive(Debug, Clone, Copy, PartialEq, Eq, Structural)]
pub enum GrblMachineDoorStatus {
    Closed,
    Open,
    Holding,
    Resuming,
}

#[derive(Debug, Clone, Copy, PartialEq, Eq, Structural)]
pub enum GrblMachineState {
    Idle,
    Run,
    Hold(GrblMachineHoldStatus),
    Jog,
    Alarm,
    Door(GrblMachineDoorStatus),
    Check,
    Home,
    Sleep,
}

/// The controller-independent status that a GRBL machine state stands for.
pub open spec fn machine_status(s: GrblMachineState) -> controller::MachineStatus {
    match s {
        GrblMachineState::Idle => controller::MachineStatus::Idle,
        GrblMachineState::Run => controller::MachineStatus::Run,
        GrblMachineState::Hold(h) => controller::MachineStatus::Hold(
            match h {
                GrblMachineHoldStatus::Complete => controller::HoldStatus::Complete,
                GrblMachineHoldStatus::InProgress => controller::HoldStatus::InProgress,
            },
        ),
        GrblMachineState::Jog => controller::MachineStatus::Jog,
        GrblMachineState::Alarm => controller::MachineStatus::Alarm,
        GrblMachineState::Door(d) => controller::MachineStatus::Door(
            match d {
                GrblMachineDoorStatus::Closed => controller::DoorStatus::Closed,
                GrblMachineDoorStatus::Open => controller::DoorStatus::Open,
                GrblMachineDoorStatus::Holding => controller::DoorStatus::Holding,
                GrblMachineDoorStatus::Resuming => controller::DoorStatus::Resuming,
            },
        ),
        GrblMachineState::Check => controller::MachineStatus::Check,
        GrblMachineState::Home => controller::MachineStatus::Home,
        GrblMachineState::Sleep => controller::MachineStatus::Sleep,
    }
}

impl From<GrblMachineState> for controller::MachineStatus {
    fn from(state: GrblMachineState) -> (r: controller::MachineStatus) {
        match state {
            GrblMachineState::Idle => controller::MachineStatus::Idle,
            GrblMachineState::Run => controller::MachineStatus::Run,
            GrblMachineState::Hold(status) => match status {
                GrblMachineHoldStatus::InProgress => controller::MachineStatus::Hold(
                    controller::HoldStatus::InProgress,
                ),
                GrblMachineHoldStatus::Complete => controller::MachineStatus::Hold(
                    controller::HoldStatus::Complete,
                ),
            },
            GrblMachineState::Jog => controller::MachineStatus::Jog,
            GrblMachineState::Alarm => controller::MachineStatus::Alarm,
            GrblMachineState::Door(status) => match status {
                GrblMachineDoorStatus::Closed => controller::MachineStatus::Door(
                    controller::DoorStatus::Closed,
                ),
                GrblMachineDoorStatus::Open => controller::MachineStatus::Door(
                    controller::DoorStatus::Open,
                ),
                GrblMachineDoorStatus::Holding => controller::MachineStatus::Door(
                    controller::DoorStatus::Holding,
                ),
                GrblMachineDoorStatus::Resuming => controller::MachineStatus::Door(
                    controller::DoorStatus::Resuming,
                ),
            },
            GrblMachineState::Check => controller::MachineStatus::Check,
            GrblMachineState::Home => controller::MachineStatus::Home,
            GrblMachineState::Sleep => controller::MachineStatus::Sleep,
        }
    }
}

impl vstd::std_specs::convert::FromSpecImpl<GrblMachineState> for controller::MachineStatus {
    open spec fn obeys_from_spec() -> bool {
        true
    }

    open spec fn from_spec(state: GrblMachineState) -> controller::MachineStatus {
        machine_status(state)
    }
}

/// Which frame the mandatory position of a status report is given in.
#[derive(Debug, Clone, Copy, PartialEq, Eq, Structural)]
pub enum GrblPositionStatus {
    MachinePosition(Position),
    WorkPosition(Position),
}

#[derive(Debug, Clone, Copy, PartialEq, Eq, Structural)]
pub struct GrblBufferStatus {
    pub planner: u8,
    pub rx: u8,
}

#[derive(Debug, Clone, Copy, PartialEq, Eq, Structural)]
pub struct GrblInputPinsStatus {
    pub x_limit: bool,
    pub y_limit: bool,
    pub z_limit: bool,
    pub probe: bool,
    pub door: bool,
    pub hold: bool,
    pub soft_reset: bool,
    pub cycle_start: bool,
}

impl GrblInputPinsStatus {
    pub open spec fn none_active(self) -> bool {
        !self.x_limit && !self.y_limit && !self.z_limit && !self.probe && !self.door && !self.hold
            && !self.soft_reset && !self.cycle_start
    }
}

impl Default for GrblInputPinsStatus {
    fn default() -> (r: Self)
        ensures
            r.none_active(),
    {
        GrblInputPinsStatus {
            x_limit: false,
            y_limit: false,
            z_limit: false,
            probe: false,
            door: false,
            hold: false,
            soft_reset: false,
            cycle_start: false,
        }
    }
}

/// Override percentages.
#[derive(Debug, Clone, Copy, PartialEq, Eq, Structural)]
pub struct GrblOverrridesStatus {
    pub feed: Fixed,
    pub rapids: Fixed,
    pub speed: Fixed,
}

#[derive(Debug, Clone, Copy, PartialEq, Eq, Structural)]
pub enum GrblSpindleStatus {
    Off,
    CW,
    CCW,
}

#[derive(Debug, Clone, Copy, PartialEq, Eq, Structural)]
pub struct GrblAccessoryStatus {
    pub spindle: GrblSpindleStatus,
    pub flood_coolant: bool,
    pub mist_coolant: bool,
}

impl Default for GrblAccessoryStatus {
    fn default() -> (r: Self)
        ensures
            r.spindle == GrblSpindleStatus::Off,
            !r.flood_coolant,
            !r.mist_coolant,
    {
        GrblAccessoryStatus {
            spindle: GrblSpindleStatus::Off,
            flood_coolant: false,
            mist_coolant: false,
        }
    }
}

/// A status report; positions and rates are in the unit the controller reports in.
#[derive(Debug, Clone, Copy, PartialEq, Eq, Structural)]
pub struct GrblStatusReport {
    pub machine_state: GrblMachineState,
    pub position: GrblPositionStatus,
    pub wco: Option<Position>,
    pub buffer: Option<GrblBufferStatus>,
    pub line: Option<usize>,
    pub feed: Option<Fixed>,
    pub speed: Option<Fixed>,
    pub input_pins: Option<GrblInputPinsStatus>,
    pub overrides: Option<GrblOverrridesStatus>,
    pub accessory: Option<GrblAccessoryStatus>,
}

impl GrblStatusReport {
    /// Every number in the report lies within what the parser produces.
    pub open spec fn in_range(self) -> bool {
        &&& match self.position {
            GrblPositionStatus::MachinePosition(p) => p.in_range(),
            GrblPositionStatus::WorkPosition(p) => p.in_range(),
        }
        &&& self.wco matches Some(w) ==> w.in_range()
    }
}

/// Why a line that looks like a status report was refused, or why a
/// response could not be matched to a line.
#[derive(Debug, Clone, Copy, PartialEq, Eq, Structural)]
pub enum ProtocolError {
    UnknownMachineState,
    MissingPosition,
    MissingSeparator,
    UnknownKey,
    UnknownLetter,
    UnexpectedResponse,
}

/// An inbound line from the controller.
#[derive(Debug, Clone, PartialEq)]
pub enum GrblMessage {
    Response(GrblResponse),
    Alarm(u8),
    Setting { code: u8, value: Fixed },
    StartupLine { nr: u8, line: String },
    Feedback(String),
    ParserState(String),
    Help(String),
    Parameter(String),
    Version { version: String, note: String },
    BuildOptions(String),
    StatusReport(GrblStatusReport),
    Other(String),
}

/// A message with its texts as character sequences.
pub enum MessageView {
    Response(GrblResponse),
    Alarm(u8),
    Setting { code: u8, value: Fixed },
    StartupLine { nr: u8, line: Seq<char> },
    Feedback(Seq<char>),
    ParserState(Seq<char>),
    Help(Seq<char>),
    Parameter(Seq<char>),
    Version { version: Seq<char>, note: Seq<char> },
    BuildOptions(Seq<char>),
    StatusReport(GrblStatusReport),
    Other(Seq<char>),
}

impl View for GrblMessage {
    type V = MessageView;

    open spec fn view(&self) -> MessageView {
        match self {
            GrblMessage::Response(r) => MessageView::Response(*r),
            GrblMessage::Alarm(c) => MessageView::Alarm(*c),
            GrblMessage::Setting { code, value } => MessageView::Setting {
                code: *code,
                value: *value,
            },
            GrblMessage::StartupLine { nr, line } => MessageView::StartupLine {
                nr: *nr,
                line: line@,
            },
            GrblMessage::Feedback(t) => MessageView::Feedback(t@),
            GrblMessage::ParserState(t) => MessageView::ParserState(t@),
            GrblMessage::Help(t) => MessageView::Help(t@),
            GrblMessage::Parameter(t) => MessageView::Parameter(t@),
            GrblMessage::Version { version, note } => MessageView::Version {
                version: version@,
                note: note@,
            },
            GrblMessage::BuildOptions(t) => MessageView::BuildOptions(t@),
            GrblMessage::StatusReport(s) => MessageView::StatusReport(*s),
            GrblMessage::Other(t) => MessageView::Other(t@),
        }
    }
}

impl GrblMessage {
    /// Every number the message carries lies within what the parser produces.
    pub open spec fn in_range(self) -> bool {
        match self {
            GrblMessage::StatusReport(s) => s.in_range(),
            _ => true,
        }
    }

    pub fn is_in_range(&self) -> (r: bool)
        ensures
            r == self.in_range(),
    {
        match self {
            GrblMessage::StatusReport(s) => {
                let position_ok = match &s.position {
                    GrblPositionStatus::MachinePosition(p) => p.is_in_range(),
                    GrblPositionStatus::WorkPosition(p) => p.is_in_range(),
                };
                let wco_ok = match &s.wco {
                    Some(w) => w.is_in_range(),
                    None => true,
                };
                position_ok && wco_ok
            },
            _ => true,
        }
    }
}

} // verus!
