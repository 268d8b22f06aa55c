//! Read-only tables of the controller's numeric codes: error and alarm
//! messages, setting descriptors and build options.
use vstd::prelude::*;

verus! {

/// Descriptor of a controller setting.
#[derive(Debug, Clone, Copy, PartialEq, Eq)]
pub struct Setting {
    pub name: &'static str,
    pub unit: &'static str,
    pub desc: &'static str,
}

/// Setting that selects inches (non-zero) or millimetres (zero) for reports.
pub const SETTING_CODE_REPORT_IN_INCHES: u8 = 13;

/// Message of each error code the controller documents.
pub open spec fn error_message(code: u8) -> Option<Seq<char>> {
    if code == 1 {
        Some("Expected command letter"@)
    } else if code == 2 {
        Some("Bad number format"@)
    } else if code == 3 {
        Some("Invalid statement"@)
    } else if code == 4 {
        Some("Value < 0"@)
    } else if code == 5 {
        Some("Setting disabled"@)
    } else if code == 6 {
        Some("Value < 3 usec"@)
    } else if code == 7 {
        Some("EEPROM read fail. Using defaults"@)
    } else if code == 8 {
        Some("Not idle"@)
    } else if code == 9 {
        Some("G-code lock"@)
    } else if code == 10 {
        Some("Homing not enabled"@)
    } else if code == 11 {
        Some("Line overflow"@)
    } else if code == 12 {
        Some("Step rate > 30kHz"@)
    } else if code == 13 {
        Some("Check Door"@)
    } else if code == 14 {
        Some("Line length exceeded"@)
    } else if code == 15 {
        Some("Travel exceeded"@)
    } else if code == 16 {
        Some("Invalid jog command"@)
    } else if code == 17 {
        Some("Setting disabled"@)
    } else if code == 20 {
        Some("Unsupported command"@)
    } else if code == 21 {
        Some("Modal group violation"@)
    } else if code == 22 {
        Some("Undefined feed rate"@)
    } else if code == 23 {
        Some("Invalid gcode ID:23"@)
    } else if code == 24 {
        Some("Invalid gcode ID:24"@)
    } else if code == 25 {
        Some("Invalid gcode ID:25"@)
    } else if code == 26 {
        Some("Invalid gcode ID:26"@)
    } else if code == 27 {
        Some("Invalid gcode ID:27"@)
    } else if code == 28 {
        Some("Invalid gcode ID:28"@)
    } else if code == 29 {
        Some("Invalid gcode ID:29"@)
    } else if code == 30 {
        Some("Invalid gcode ID:30"@)
    } else if code == 31 {
        Some("Invalid gcode ID:31"@)
    } else if code == 32 {
        Some("Invalid gcode ID:32"@)
    } else if code == 33 {
        Some("Invalid gcode ID:33"@)
    } else if code == 34 {
        Some("Invalid gcode ID:34"@)
    } else if code == 35 {
        Some("Invalid gcode ID:35"@)
    } else if code == 36 {
        Some("Invalid gcode ID:36"@)
    } else if code == 37 {
        Some("Invalid gcode ID:37"@)
    } else if code == 38 {
        Some("Invalid gcode ID:38"@)
    } else {
        None
    }
}

/// Looks up the message of an error code.
pub fn error_text(code: u8) -> (r: Option<&'static str>)
    ensures
        match error_message(code) {
            Some(t) => r matches Some(s) && s@ == t,
            None => r is None,
        },
{
    if code == 1 {
        Some("Expected command letter")
    } else if code == 2 {
        Some("Bad number format")
    } else if code == 3 {
        Some("Invalid statement")
    } else if code == 4 {
        Some("Value < 0")
    } else if code == 5 {
        Some("Setting disabled")
    } else if code == 6 {
        Some("Value < 3 usec")
    } else if code == 7 {
        Some("EEPROM read fail. Using defaults")
    } else if code == 8 {
        Some("Not idle")
    } else if code == 9 {
        Some("G-code lock")
    } else if code == 10 {
        Some("Homing not enabled")
    } else if code == 11 {
        Some("Line overflow")
    } else if code == 12 {
        Some("Step rate > 30kHz")
    } else if code == 13 {
        Some("Check Door")
    } else if code == 14 {
        Some("Line length exceeded")
    } else if code == 15 {
        Some("Travel exceeded")
    } else if code == 16 {
        Some("Invalid jog command")
    } else if code == 17 {
        Some("Setting disabled")
    } else if code == 20 {
        Some("Unsupported command")
    } else if code == 21 {
        Some("Modal group violation")
    } else if code == 22 {
        Some("Undefined feed rate")
    } else if code == 23 {
        Some("Invalid gcode ID:23")
    } else if code == 24 {
        Some("Invalid gcode ID:24")
    } else if code == 25 {
        Some("Invalid gcode ID:25")
    } else if code == 26 {
        Some("Invalid gcode ID:26")
    } else if code == 27 {
        Some("Invalid gcode ID:27")
    } else if code == 28 {
        Some("Invalid gcode ID:28")
    } else if code == 29 {
        Some("Invalid gcode ID:29")
    } else if code == 30 {
        Some("Invalid gcode ID:30")
    } else if code == 31 {
        Some("Invalid gcode ID:31")
    } else if code == 32 {
        Some("Invalid gcode ID:32")
    } else if code == 33 {
        Some("Invalid gcode ID:33")
    } else if code == 34 {
        Some("Invalid gcode ID:34")
    } else if code == 35 {
        Some("Invalid gcode ID:35")
    } else if code == 36 {
        Some("Invalid gcode ID:36")
    } else if code == 37 {
        Some("Invalid gcode ID:37")
    } else if code == 38 {
        Some("Invalid gcode ID:38")
    } else {
        None
    }
}

/// Message of each alarm code the controller documents.
pub open spec fn alarm_message(code: u8) -> Option<Seq<char>> {
    if code == 1 {
        Some("Hard limit"@)
    } else if code == 2 {
        Some("Soft limit"@)
    } else if code == 3 {
        Some("Abort during cycle"@)
    } else if code == 4 {
        Some("Probe fail"@)
    } else if code == 5 {
        Some("Probe fail"@)
    } else if code == 6 {
        Some("Homing fail"@)
    } else if code == 7 {
        Some("Homing fail"@)
    } else if code == 8 {
        Some("Homing fail"@)
    } else if code == 9 {
        Some("Homing fail"@)
    } else {
        None
    }
}

/// Looks up the message of an alarm code.
pub fn alarm_text(code: u8) -> (r: Option<&'static str>)
    ensures
        match alarm_message(code) {
            Some(t) => r matches Some(s) && s@ == t,
            None => r is None,
        },
{
    if code == 1 {
        Some("Hard limit")
    } else if code == 2 {
        Some("Soft limit")
    } else if code == 3 {
        Some("Abort during cycle")
    } else if code == 4 {
        Some("Probe fail")
    } else if code == 5 {
        Some("Probe fail")
    } else if code == 6 {
        Some("Homing fail")
    } else if code == 7 {
        Some("Homing fail")
    } else if code == 8 {
        Some("Homing fail")
    } else if code == 9 {
        Some("Homing fail")
    } else {
        None
    }
}


/// Name, unit and description of each setting code the controller documents.
pub open spec fn setting_entry(code: u8) -> Option<(Seq<char>, Seq<char>, Seq<char>)> {
    if code == 0 {
        Some(("Step pulse time"@, "microseconds"@, "Sets time length per step. Minimum 3usec."@))
    } else if code == 1 {
        Some(("Step idle delay"@, "milliseconds"@, "Sets a short hold delay when stopping to let dynamics settle before disabling steppers. Value 255 keeps motors enabled with no delay."@))
    } else if code == 2 {
        Some(("Step pulse invert"@, "mask"@, "Inverts the step signal. Set axis bit to invert (00000ZYX)."@))
    } else if code == 3 {
        Some(("Step direction invert"@, "mask"@, "Inverts the direction signal. Set axis bit to invert (00000ZYX)."@))
    } else if code == 4 {
        Some(("Invert step enable pin"@, "boolean"@, "Inverts the stepper driver enable pin signal."@))
    } else if code == 5 {
        Some(("Invert limit pins"@, "boolean"@, "Inverts the all of the limit input pins."@))
    } else if code == 6 {
        Some(("Invert probe pin"@, "boolean"@, "Inverts the probe input pin signal."@))
    } else if code == 10 {
        Some(("Status report options"@, "mask"@, "Alters data included in status reports."@))
    } else if code == 11 {
        Some(("Junction deviation"@, "millimeters"@, "Sets how fast Grbl travels through consecutive motions. Lower value slows it down."@))
    } else if code == 12 {
        Some(("Arc tolerance"@, "millimeters"@, "Sets the G2 and G3 arc tracing accuracy based on radial error. Beware: A very small value may effect performance."@))
    } else if code == 13 {
        Some(("Report in inches"@, "boolean"@, "Enables inch units when returning any position and rate value that is not a settings value."@))
    } else if code == 20 {
        Some(("Soft limits enable"@, "boolean"@, "Enables soft limits checks within machine travel and sets alarm when exceeded. Requires homing."@))
    } else if code == 21 {
        Some(("Hard limits enable"@, "boolean"@, "Enables hard limits. Immediately halts motion and throws an alarm when switch is triggered."@))
    } else if code == 22 {
        Some(("Homing cycle enable"@, "boolean"@, "Enables homing cycle. Requires limit switches on all axes."@))
    } else if code == 23 {
        Some(("Homing direction invert"@, "mask"@, "Homing searches for a switch in the positive direction. Set axis bit (00000ZYX) to search in negative direction."@))
    } else if code == 24 {
        Some(("Homing locate feed rate"@, "mm/min"@, "Feed rate to slowly engage limit switch to determine its location accurately."@))
    } else if code == 25 {
        Some(("Homing search seek rate"@, "mm/min"@, "Seek rate to quickly find the limit switch before the slower locating phase."@))
    } else if code == 26 {
        Some(("Homing switch debounce delay"@, "milliseconds"@, "Sets a short delay between phases of homing cycle to let a switch debounce."@))
    } else if code == 27 {
        Some(("Homing switch pull-off distance"@, "millimeters"@, "Retract distance after triggering switch to disengage it. Homing will fail if switch isn't cleared."@))
    } else if code == 30 {
        Some(("Maximum spindle speed"@, "RPM"@, "Maximum spindle speed. Sets PWM to 100% duty cycle."@))
    } else if code == 31 {
        Some(("Minimum spindle speed"@, "RPM"@, "Minimum spindle speed. Sets PWM to 0.4% or lowest duty cycle."@))
    } else if code == 32 {
        Some(("Laser-mode enable"@, "boolean"@, "Enables laser mode. Consecutive G1/2/3 commands will not halt when spindle speed is changed."@))
    } else if code == 100 {
        Some(("X-axis travel resolution"@, "step/mm"@, "X-axis travel resolution in steps per millimeter."@))
    } else if code == 101 {
        Some(("Y-axis travel resolution"@, "step/mm"@, "Y-axis travel resolution in steps per millimeter."@))
    } else if code == 102 {
        Some(("Z-axis travel resolution"@, "step/mm"@, "Z-axis travel resolution in steps per millimeter."@))
    } else if code == 110 {
        Some(("X-axis maximum rate"@, "mm/min"@, "X-axis maximum rate. Used as G0 rapid rate."@))
    } else if code == 111 {
        Some(("Y-axis maximum rate"@, "mm/min"@, "Y-axis maximum rate. Used as G0 rapid rate."@))
    } else if code == 112 {
        Some(("Z-axis maximum rate"@, "mm/min"@, "Z-axis maximum rate. Used as G0 rapid rate."@))
    } else if code == 120 {
        Some(("X-axis acceleration"@, "mm/sec^2"@, "X-axis acceleration. Used for motion planning to not exceed motor torque and lose steps."@))
    } else if code == 121 {
        Some(("Y-axis acceleration"@, "mm/sec^2"@, "Y-axis acceleration. Used for motion planning to not exceed motor torque and lose steps."@))
    } else if code == 122 {
        Some(("Z-axis acceleration"@, "mm/sec^2"@, "Z-axis acceleration. Used for motion planning to not exceed motor torque and lose steps."@))
    } else if code == 130 {
        Some(("X-axis maximum travel"@, "millimeters"@, "Maximum X-axis travel distance from homing switch. Determines valid machine space for soft-limits and homing search distances."@))
    } else if code == 131 {
        Some(("Y-axis maximum travel"@, "millimeters"@, "Maximum Y-axis travel distance from homing switch. Determines valid machine space for soft-limits and homing search distances."@))
    } else if code == 132 {
        Some(("Z-axis maximum travel"@, "millimeters"@, "Maximum Z-axis travel distance from homing switch. Determines valid machine space for soft-limits and homing search distances."@))
    } else {
        None
    }
}

/// Looks up the descriptor of a setting code.
pub fn setting(code: u8) -> (r: Option<Setting>)
    ensures
        match setting_entry(code) {
            Some(e) => r matches Some(d) && d.name@ == e.0 && d.unit@ == e.1 && d.desc@ == e.2,
            None => r is None,
        },
{
    if code == 0 {
        Some(Setting { name: "Step pulse time", unit: "microseconds", desc: "Sets time length per step. Minimum 3usec." })
    } else if code == 1 {
        Some(Setting { name: "Step idle delay", unit: "milliseconds", desc: "Sets a short hold delay when stopping to let dynamics settle before disabling steppers. Value 255 keeps motors enabled with no delay." })
    } else if code == 2 {
        Some(Setting { name: "Step pulse invert", unit: "mask", desc: "Inverts the step signal. Set axis bit to invert (00000ZYX)." })
    } else if code == 3 {
        Some(Setting { name: "Step direction invert", unit: "mask", desc: "Inverts the direction signal. Set axis bit to invert (00000ZYX)." })
    } else if code == 4 {
        Some(Setting { name: "Invert step enable pin", unit: "boolean", desc: "Inverts the stepper driver enable pin signal." })
    } else if code == 5 {
        Some(Setting { name: "Invert limit pins", unit: "boolean", desc: "Inverts the all of the limit input pins." })
    } else if code == 6 {
        Some(Setting { name: "Invert probe pin", unit: "boolean", desc: "Inverts the probe input pin signal." })
    } else if code == 10 {
        Some(Setting { name: "Status report options", unit: "mask", desc: "Alters data included in status reports." })
    } else if code == 11 {
        Some(Setting { name: "Junction deviation", unit: "millimeters", desc: "Sets how fast Grbl travels through consecutive motions. Lower value slows it down." })
    } else if code == 12 {
        Some(Setting { name: "Arc tolerance", unit: "millimeters", desc: "Sets the G2 and G3 arc tracing accuracy based on radial error. Beware: A very small value may effect performance." })
    } else if code == 13 {
        Some(Setting { name: "Report in inches", unit: "boolean", desc: "Enables inch units when returning any position and rate value that is not a settings value." })
    } else if code == 20 {
        Some(Setting { name: "Soft limits enable", unit: "boolean", desc: "Enables soft limits checks within machine travel and sets alarm when exceeded. Requires homing." })
    } else if code == 21 {
        Some(Setting { name: "Hard limits enable", unit: "boolean", desc: "Enables hard limits. Immediately halts motion and throws an alarm when switch is triggered." })
    } else if code == 22 {
        Some(Setting { name: "Homing cycle enable", unit: "boolean", desc: "Enables homing cycle. Requires limit switches on all axes." })
    } else if code == 23 {
        Some(Setting { name: "Homing direction invert", unit: "mask", desc: "Homing searches for a switch in the positive direction. Set axis bit (00000ZYX) to search in negative direction." })
    } else if code == 24 {
        Some(Setting { name: "Homing locate feed rate", unit: "mm/min", desc: "Feed rate to slowly engage limit switch to determine its location accurately." })
    } else if code == 25 {
        Some(Setting { name: "Homing search seek rate", unit: "mm/min", desc: "Seek rate to quickly find the limit switch before the slower locating phase." })
    } else if code == 26 {
        Some(Setting { name: "Homing switch debounce delay", unit: "milliseconds", desc: "Sets a short delay between phases of homing cycle to let a switch debounce." })
    } else if code == 27 {
        Some(Setting { name: "Homing switch pull-off distance", unit: "millimeters", desc: "Retract distance after triggering switch to disengage it. Homing will fail if switch isn't cleared." })
    } else if code == 30 {
        Some(Setting { name: "Maximum spindle speed", unit: "RPM", desc: "Maximum spindle speed. Sets PWM to 100% duty cycle." })
    } else if code == 31 {
        Some(Setting { name: "Minimum spindle speed", unit: "RPM", desc: "Minimum spindle speed. Sets PWM to 0.4% or lowest duty cycle." })
    } else if code == 32 {
        Some(Setting { name: "Laser-mode enable", unit: "boolean", desc: "Enables laser mode. Consecutive G1/2/3 commands will not halt when spindle speed is changed." })
    } else if code == 100 {
        Some(Setting { name: "X-axis travel resolution", unit: "step/mm", desc: "X-axis travel resolution in steps per millimeter." })
    } else if code == 101 {
        Some(Setting { name: "Y-axis travel resolution", unit: "step/mm", desc: "Y-axis travel resolution in steps per millimeter." })
    } else if code == 102 {
        Some(Setting { name: "Z-axis travel resolution", unit: "step/mm", desc: "Z-axis travel resolution in steps per millimeter." })
    } else if code == 110 {
        Some(Setting { name: "X-axis maximum rate", unit: "mm/min", desc: "X-axis maximum rate. Used as G0 rapid rate." })
    } else if code == 111 {
        Some(Setting { name: "Y-axis maximum rate", unit: "mm/min", desc: "Y-axis maximum rate. Used as G0 rapid rate." })
    } else if code == 112 {
        Some(Setting { name: "Z-axis maximum rate", unit: "mm/min", desc: "Z-axis maximum rate. Used as G0 rapid rate." })
    } else if code == 120 {
        Some(Setting { name: "X-axis acceleration", unit: "mm/sec^2", desc: "X-axis acceleration. Used for motion planning to not exceed motor torque and lose steps." })
    } else if code == 121 {
        Some(Setting { name: "Y-axis acceleration", unit: "mm/sec^2", desc: "Y-axis acceleration. Used for motion planning to not exceed motor torque and lose steps." })
    } else if code == 122 {
        Some(Setting { name: "Z-axis acceleration", unit: "mm/sec^2", desc: "Z-axis acceleration. Used for motion planning to not exceed motor torque and lose steps." })
    } else if code == 130 {
        Some(Setting { name: "X-axis maximum travel", unit: "millimeters", desc: "Maximum X-axis travel distance from homing switch. Determines valid machine space for soft-limits and homing search distances." })
    } else if code == 131 {
        Some(Setting { name: "Y-axis maximum travel", unit: "millimeters", desc: "Maximum Y-axis travel distance from homing switch. Determines valid machine space for soft-limits and homing search distances." })
    } else if code == 132 {
        Some(Setting { name: "Z-axis maximum travel", unit: "millimeters", desc: "Maximum Z-axis travel distance from homing switch. Determines valid machine space for soft-limits and homing search distances." })
    } else {
        None
    }
}


/// Meaning of each build-option letter.
pub open spec fn build_option_meaning(c: char) -> Option<Seq<char>> {
    if c == 'V' {
        Some("Variable spindle enabled"@)
    } else if c == 'N' {
        Some("Line numbers enabled"@)
    } else if c == 'M' {
        Some("Mist coolant enabled"@)
    } else if c == 'C' {
        Some("CoreXY enabled"@)
    } else if c == 'P' {
        Some("Parking motion enabled"@)
    } else if c == 'Z' {
        Some("Homing force origin enabled"@)
    } else if c == 'H' {
        Some("Homing single axis enabled"@)
    } else if c == 'T' {
        Some("Two limit switches on axis enabled"@)
    } else if c == 'A' {
        Some("Allow feed rate overrides in probe cycles"@)
    } else if c == 'D' {
        Some("Use spindle direction as enable pin"@)
    } else if c == '0' {
        Some("Spindle enable off when speed is zero"@)
    } else if c == 'S' {
        Some("Software limit pin debouncing enabled"@)
    } else if c == 'R' {
        Some("Parking override control enabled"@)
    } else if c == '+' {
        Some("Safety door input pin enabled"@)
    } else if c == '*' {
        Some("Restore all EEPROM command disabled"@)
    } else if c == '$' {
        Some("Restore EEPROM $ settings command disabled"@)
    } else if c == '#' {
        Some("Restore EEPROM parameter data command disabled"@)
    } else if c == 'I' {
        Some("Build info write user string command disabled"@)
    } else if c == 'E' {
        Some("Force sync upon EEPROM write disabled"@)
    } else if c == 'W' {
        Some("Force sync upon work coordinate offset change disabled"@)
    } else if c == 'L' {
        Some("Homing initialization auto-lock disabled"@)
    } else {
        None
    }
}

/// Looks up the meaning of a build-option letter.
pub fn build_option_text(c: char) -> (r: Option<&'static str>)
    ensures
        match build_option_meaning(c) {
            Some(t) => r matches Some(s) && s@ == t,
            None => r is None,
        },
{
    if c == 'V' {
        Some("Variable spindle enabled")
    } else if c == 'N' {
        Some("Line numbers enabled")
    } else if c == 'M' {
        Some("Mist coolant enabled")
    } else if c == 'C' {
        Some("CoreXY enabled")
    } else if c == 'P' {
        Some("Parking motion enabled")
    } else if c == 'Z' {
        Some("Homing force origin enabled")
    } else if c == 'H' {
        Some("Homing single axis enabled")
    } else if c == 'T' {
        Some("Two limit switches on axis enabled")
    } else if c == 'A' {
        Some("Allow feed rate overrides in probe cycles")
    } else if c == 'D' {
        Some("Use spindle direction as enable pin")
    } else if c == '0' {
        Some("Spindle enable off when speed is zero")
    } else if c == 'S' {
        Some("Software limit pin debouncing enabled")
    } else if c == 'R' {
        Some("Parking override control enabled")
    } else if c == '+' {
        Some("Safety door input pin enabled")
    } else if c == '*' {
        Some("Restore all EEPROM command disabled")
    } else if c == '$' {
        Some("Restore EEPROM $ settings command disabled")
    } else if c == '#' {
        Some("Restore EEPROM parameter data command disabled")
    } else if c == 'I' {
        Some("Build info write user string command disabled")
    } else if c == 'E' {
        Some("Force sync upon EEPROM write disabled")
    } else if c == 'W' {
        Some("Force sync upon work coordinate offset change disabled")
    } else if c == 'L' {
        Some("Homing initialization auto-lock disabled")
    } else {
        None
    }
}

} // verus!
