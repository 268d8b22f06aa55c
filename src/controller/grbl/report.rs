//! Status reports: `<state|MPos:x,y,z|key:value|...>` with the angle
//! brackets already removed.
use vstd::prelude::*;

use crate::decimal::{fixed_of, find, find_char, parse_fixed, parse_uint, uint_of, Fixed};
use crate::position::Position;
use crate::text::eq_lit;

use super::proto::{
    GrblAccessoryStatus, GrblBufferStatus, GrblInputPinsStatus, GrblMachineDoorStatus,
    GrblMachineHoldStatus, GrblMachineState, GrblOverrridesStatus, GrblPositionStatus,
    GrblSpindleStatus, GrblStatusReport, ProtocolError,
};

verus! {

/// The machine state that a report's first field names.
pub open spec fn machine_state_of(t: Seq<char>) -> Option<GrblMachineState> {
    if t == "Idle"@ {
        Some(GrblMachineState::Idle)
    } else if t == "Run"@ {
        Some(GrblMachineState::Run)
    } else if t == "Hold:0"@ {
        Some(GrblMachineState::Hold(GrblMachineHoldStatus::Complete))
    } else if t == "Hold:1"@ {
        Some(GrblMachineState::Hold(GrblMachineHoldStatus::InProgress))
    } else if t == "Jog"@ {
        Some(GrblMachineState::Jog)
    } else if t == "Alarm"@ {
        Some(GrblMachineState::Alarm)
    } else if t == "Door:0"@ {
        Some(GrblMachineState::Door(GrblMachineDoorStatus::Closed))
    } else if t == "Door:1"@ {
        Some(GrblMachineState::Door(GrblMachineDoorStatus::Open))
    } else if t == "Door:2"@ {
        Some(GrblMachineState::Door(GrblMachineDoorStatus::Holding))
    } else if t == "Door:3"@ {
        Some(GrblMachineState::Door(GrblMachineDoorStatus::Resuming))
    } else if t == "Check"@ {
        Some(GrblMachineState::Check)
    } else if t == "Home"@ {
        Some(GrblMachineState::Home)
    } else if t == "Sleep"@ {
        Some(GrblMachineState::Sleep)
    } else {
        None
    }
}

/// Comma-separated number texts.
pub open spec fn fixed_list(s: Seq<char>) -> Option<Seq<Fixed>>
    decreases s.len(),
{
    let k = find(s, ',');
    match fixed_of(s.subrange(0, k)) {
        None => None,
        Some(v) => if 0 <= k < s.len() {
            match fixed_list(s.subrange(k + 1, s.len() as int)) {
                Some(rest) => Some(seq![Fixed { raw: v as i64 }] + rest),
                None => None,
            }
        } else {
            Some(seq![Fixed { raw: v as i64 }])
        },
    }
}

/// Comma-separated unsigned integers, each at most 255.
pub open spec fn byte_list(s: Seq<char>) -> Option<Seq<u8>>
    decreases s.len(),
{
    let k = find(s, ',');
    match uint_of(s.subrange(0, k), 255) {
        None => None,
        Some(v) => if 0 <= k < s.len() {
            match byte_list(s.subrange(k + 1, s.len() as int)) {
                Some(rest) => Some(seq![v as u8] + rest),
                None => None,
            }
        } else {
            Some(seq![v as u8])
        },
    }
}

pub open spec fn pins_step(p: GrblInputPinsStatus, c: char) -> Option<GrblInputPinsStatus> {
    if c == 'X' {
        Some(GrblInputPinsStatus { x_limit: true, ..p })
    } else if c == 'Y' {
        Some(GrblInputPinsStatus { y_limit: true, ..p })
    } else if c == 'Z' {
        Some(GrblInputPinsStatus { z_limit: true, ..p })
    } else if c == 'P' {
        Some(GrblInputPinsStatus { probe: true, ..p })
    } else if c == 'D' {
        Some(GrblInputPinsStatus { door: true, ..p })
    } else if c == 'H' {
        Some(GrblInputPinsStatus { hold: true, ..p })
    } else if c == 'R' {
        Some(GrblInputPinsStatus { soft_reset: true, ..p })
    } else if c == 'S' {
        Some(GrblInputPinsStatus { cycle_start: true, ..p })
    } else {
        None
    }
}

/// The input pins that a string of pin letters names; `None` on an unknown letter.
pub open spec fn pins_of(s: Seq<char>) -> Option<GrblInputPinsStatus>
    decreases s.len(),
{
    if s.len() == 0 {
        Some(
            GrblInputPinsStatus {
                x_limit: false,
                y_limit: false,
                z_limit: false,
                probe: false,
                door: false,
                hold: false,
                soft_reset: false,
                cycle_start: false,
            },
        )
    } else {
        match pins_of(s.drop_last()) {
            Some(p) => pins_step(p, s.last()),
            None => None,
        }
    }
}

pub open spec fn accessory_step(a: GrblAccessoryStatus, c: char) -> Option<GrblAccessoryStatus> {
    if c == 'S' {
        Some(GrblAccessoryStatus { spindle: GrblSpindleStatus::CW, ..a })
    } else if c == 'C' {
        Some(GrblAccessoryStatus { spindle: GrblSpindleStatus::CCW, ..a })
    } else if c == 'F' {
        Some(GrblAccessoryStatus { flood_coolant: true, ..a })
    } else if c == 'M' {
        Some(GrblAccessoryStatus { mist_coolant: true, ..a })
    } else {
        None
    }
}

/// The accessory state that a string of accessory letters names; the last
/// spindle letter wins; `None` on an unknown letter.
pub open spec fn accessory_of(s: Seq<char>) -> Option<GrblAccessoryStatus>
    decreases s.len(),
{
    if s.len() == 0 {
        Some(
            GrblAccessoryStatus {
                spindle: GrblSpindleStatus::Off,
                flood_coolant: false,
                mist_coolant: false,
            },
        )
    } else {
        match accessory_of(s.drop_last()) {
            Some(a) => accessory_step(a, s.last()),
            None => None,
        }
    }
}

pub open spec fn position_of(l: Seq<Fixed>) -> Position {
    Position { x: l[0], y: l[1], z: l[2] }
}

/// Outcome of one `key:value` field on the report built so far: the updated
/// report, `Ok(None)` when a number in it is malformed, or the protocol error.
pub open spec fn apply_field(r: GrblStatusReport, key: Seq<char>, val: Seq<char>) -> Result<
    Option<GrblStatusReport>,
    ProtocolError,
> {
    if key == "WCO"@ {
        match fixed_list(val) {
            Some(l) if l.len() == 3 => Ok(Some(GrblStatusReport { wco: Some(position_of(l)), ..r })),
            _ => Ok(None),
        }
    } else if key == "Bf"@ {
        match byte_list(val) {
            Some(l) if l.len() == 2 => Ok(
                Some(
                    GrblStatusReport {
                        buffer: Some(GrblBufferStatus { planner: l[0], rx: l[1] }),
                        ..r
                    },
                ),
            ),
            _ => Ok(None),
        }
    } else if key == "Ln"@ {
        match uint_of(val, usize::MAX as int) {
            Some(n) => Ok(Some(GrblStatusReport { line: Some(n as usize), ..r })),
            None => Ok(None),
        }
    } else if key == "F"@ {
        match fixed_of(val) {
            Some(f) => Ok(Some(GrblStatusReport { feed: Some(Fixed { raw: f as i64 }), ..r })),
            None => Ok(None),
        }
    } else if key == "FS"@ {
        match fixed_list(val) {
            Some(l) if l.len() == 2 => Ok(
                Some(GrblStatusReport { feed: Some(l[0]), speed: Some(l[1]), ..r }),
            ),
            _ => Ok(None),
        }
    } else if key == "Pn"@ {
        match pins_of(val) {
            Some(p) => Ok(Some(GrblStatusReport { input_pins: Some(p), ..r })),
            None => Err(ProtocolError::UnknownLetter),
        }
    } else if key == "Ov"@ {
        match fixed_list(val) {
            Some(l) if l.len() == 3 => Ok(
                Some(
                    GrblStatusReport {
                        overrides: Some(GrblOverrridesStatus { feed: l[0], rapids: l[1], speed: l[2] }),
                        ..r
                    },
                ),
            ),
            _ => Ok(None),
        }
    } else if key == "A"@ {
        match accessory_of(val) {
            Some(a) => Ok(Some(GrblStatusReport { accessory: Some(a), ..r })),
            None => Err(ProtocolError::UnknownLetter),
        }
    } else {
        Err(ProtocolError::UnknownKey)
    }
}

/// The optional fields `s` (separated by `|`) applied in order to `r`; the
/// first field that fails decides the outcome.
pub open spec fn fields_of(r: GrblStatusReport, s: Seq<char>) -> Result<
    Option<GrblStatusReport>,
    ProtocolError,
>
    decreases s.len(),
{
    let k = find(s, '|');
    let item = s.subrange(0, k);
    let colon = find(item, ':');
    if !(0 <= colon < item.len()) {
        Err(ProtocolError::MissingSeparator)
    } else {
        match apply_field(r, item.subrange(0, colon), item.subrange(colon + 1, item.len() as int)) {
            Ok(Some(r2)) => if 0 <= k < s.len() {
                fields_of(r2, s.subrange(k + 1, s.len() as int))
            } else {
                Ok(Some(r2))
            },
            other => other,
        }
    }
}

/// A status report from the text between the angle brackets: the machine
/// state, then the mandatory `MPos:` or `WPos:` position, then optional fields.
pub open spec fn status_of(c: Seq<char>) -> Result<Option<GrblStatusReport>, ProtocolError> {
    let k0 = find(c, '|');
    match machine_state_of(c.subrange(0, k0)) {
        None => Err(ProtocolError::UnknownMachineState),
        Some(state) => if !(k0 < c.len()) {
            Err(ProtocolError::MissingPosition)
        } else {
            let rest = c.subrange(k0 + 1, c.len() as int);
            let k1 = find(rest, '|');
            let item = rest.subrange(0, k1);
            let colon = find(item, ':');
            let key = item.subrange(0, colon);
            if !(colon < item.len()) || (key != "MPos"@ && key != "WPos"@) {
                Err(ProtocolError::MissingPosition)
            } else {
                match fixed_list(item.subrange(colon + 1, item.len() as int)) {
                    Some(l) if l.len() == 3 => {
                        let position = if key == "MPos"@ {
                            GrblPositionStatus::MachinePosition(position_of(l))
                        } else {
                            GrblPositionStatus::WorkPosition(position_of(l))
                        };
                        let report = GrblStatusReport {
                            machine_state: state,
                            position,
                            wco: None,
                            buffer: None,
                            line: None,
                            feed: None,
                            speed: None,
                            input_pins: None,
                            overrides: None,
                            accessory: None,
                        };
                        if k1 < rest.len() {
                            fields_of(report, rest.subrange(k1 + 1, rest.len() as int))
                        } else {
                            Ok(Some(report))
                        }
                    },
                    _ => Ok(None),
                }
            }
        },
    }
}

fn read_machine_state(chars: &Vec<char>, a: usize, b: usize) -> (r: Option<GrblMachineState>)
    requires
        a <= b <= chars.len(),
    ensures
        r == machine_state_of(chars@.subrange(a as int, b as int)),
{
    if eq_lit(chars, a, b, "Idle") {
        Some(GrblMachineState::Idle)
    } else if eq_lit(chars, a, b, "Run") {
        Some(GrblMachineState::Run)
    } else if eq_lit(chars, a, b, "Hold:0") {
        Some(GrblMachineState::Hold(GrblMachineHoldStatus::Complete))
    } else if eq_lit(chars, a, b, "Hold:1") {
        Some(GrblMachineState::Hold(GrblMachineHoldStatus::InProgress))
    } else if eq_lit(chars, a, b, "Jog") {
        Some(GrblMachineState::Jog)
    } else if eq_lit(chars, a, b, "Alarm") {
        Some(GrblMachineState::Alarm)
    } else if eq_lit(chars, a, b, "Door:0") {
        Some(GrblMachineState::Door(GrblMachineDoorStatus::Closed))
    } else if eq_lit(chars, a, b, "Door:1") {
        Some(GrblMachineState::Door(GrblMachineDoorStatus::Open))
    } else if eq_lit(chars, a, b, "Door:2") {
        Some(GrblMachineState::Door(GrblMachineDoorStatus::Holding))
    } else if eq_lit(chars, a, b, "Door:3") {
        Some(GrblMachineState::Door(GrblMachineDoorStatus::Resuming))
    } else if eq_lit(chars, a, b, "Check") {
        Some(GrblMachineState::Check)
    } else if eq_lit(chars, a, b, "Home") {
        Some(GrblMachineState::Home)
    } else if eq_lit(chars, a, b, "Sleep") {
        Some(GrblMachineState::Sleep)
    } else {
        None
    }
}

fn read_fixed_list(chars: &Vec<char>, a: usize, b: usize) -> (r: Option<Vec<Fixed>>)
    requires
        a <= b <= chars.len(),
    ensures
        match fixed_list(chars@.subrange(a as int, b as int)) {
            Some(l) => r matches Some(v) && v@ == l,
            None => r is None,
        },
        r matches Some(v) ==> forall|i: int| 0 <= i < v.len() ==> (#[trigger] v@[i]).in_range(),
    decreases b - a,
{
    let ghost s = chars@.subrange(a as int, b as int);
    let k = find_char(chars, a, b, ',');
    assert(s.subrange(0, k - a) =~= chars@.subrange(a as int, k as int));
    match parse_fixed(chars, a, k) {
        None => None,
        Some(v) => {
            if k < b {
                assert(s.subrange(k - a + 1, s.len() as int) =~= chars@.subrange(k + 1, b as int));
                match read_fixed_list(chars, k + 1, b) {
                    Some(rest) => {
                        let mut out = rest;
                        out.insert(0, v);
                        let ghost l = fixed_list(chars@.subrange(k + 1, b as int))->0;
                        assert(out@ =~= seq![v] + l);
                        Some(out)
                    },
                    None => None,
                }
            } else {
                let mut out: Vec<Fixed> = Vec::new();
                out.push(v);
                assert(out@ =~= seq![v]);
                Some(out)
            }
        },
    }
}

fn read_byte_list(chars: &Vec<char>, a: usize, b: usize) -> (r: Option<Vec<u8>>)
    requires
        a <= b <= chars.len(),
    ensures
        match byte_list(chars@.subrange(a as int, b as int)) {
            Some(l) => r matches Some(v) && v@ == l,
            None => r is None,
        },
    decreases b - a,
{
    let ghost s = chars@.subrange(a as int, b as int);
    let k = find_char(chars, a, b, ',');
    assert(s.subrange(0, k - a) =~= chars@.subrange(a as int, k as int));
    match parse_uint(chars, a, k, 255) {
        None => None,
        Some(v) => {
            if k < b {
                assert(s.subrange(k - a + 1, s.len() as int) =~= chars@.subrange(k + 1, b as int));
                match read_byte_list(chars, k + 1, b) {
                    Some(rest) => {
                        let mut out = rest;
                        out.insert(0, v as u8);
                        let ghost l = byte_list(chars@.subrange(k + 1, b as int))->0;
                        assert(out@ =~= seq![v as u8] + l);
                        Some(out)
                    },
                    None => None,
                }
            } else {
                let mut out: Vec<u8> = Vec::new();
                out.push(v as u8);
                assert(out@ =~= seq![v as u8]);
                Some(out)
            }
        },
    }
}

fn read_pins(chars: &Vec<char>, a: usize, b: usize) -> (r: Option<GrblInputPinsStatus>)
    requires
        a <= b <= chars.len(),
    ensures
        r == pins_of(chars@.subrange(a as int, b as int)),
{
    let mut p = GrblInputPinsStatus::default();
    let mut known = true;
    let mut i = a;
    assert(chars@.subrange(a as int, a as int).len() == 0);
    while i < b
        invariant
            a <= i <= b <= chars.len(),
            pins_of(chars@.subrange(a as int, i as int)) == if known {
                Some(p)
            } else {
                None
            },
        decreases b - i,
    {
        let c = chars[i];
        assert(chars@.subrange(a as int, i + 1).drop_last() =~= chars@.subrange(a as int, i as int));
        if c == 'X' {
            p.x_limit = true;
        } else if c == 'Y' {
            p.y_limit = true;
        } else if c == 'Z' {
            p.z_limit = true;
        } else if c == 'P' {
            p.probe = true;
        } else if c == 'D' {
            p.door = true;
        } else if c == 'H' {
            p.hold = true;
        } else if c == 'R' {
            p.soft_reset = true;
        } else if c == 'S' {
            p.cycle_start = true;
        } else {
            known = false;
        }
        i = i + 1;
    }
    if known {
        Some(p)
    } else {
        None
    }
}

fn read_accessory(chars: &Vec<char>, a: usize, b: usize) -> (r: Option<GrblAccessoryStatus>)
    requires
        a <= b <= chars.len(),
    ensures
        r == accessory_of(chars@.subrange(a as int, b as int)),
{
    let mut acc = GrblAccessoryStatus::default();
    let mut known = true;
    let mut i = a;
    assert(chars@.subrange(a as int, a as int).len() == 0);
    while i < b
        invariant
            a <= i <= b <= chars.len(),
            accessory_of(chars@.subrange(a as int, i as int)) == if known {
                Some(acc)
            } else {
                None
            },
        decreases b - i,
    {
        let c = chars[i];
        assert(chars@.subrange(a as int, i + 1).drop_last() =~= chars@.subrange(a as int, i as int));
        if c == 'S' {
            acc.spindle = GrblSpindleStatus::CW;
        } else if c == 'C' {
            acc.spindle = GrblSpindleStatus::CCW;
        } else if c == 'F' {
            acc.flood_coolant = true;
        } else if c == 'M' {
            acc.mist_coolant = true;
        } else {
            known = false;
        }
        i = i + 1;
    }
    if known {
        Some(acc)
    } else {
        None
    }
}

fn read_field(
    r: GrblStatusReport,
    chars: &Vec<char>,
    ka: usize,
    kb: usize,
    va: usize,
    vb: usize,
) -> (res: Result<Option<GrblStatusReport>, ProtocolError>)
    requires
        ka <= kb <= chars.len(),
        va <= vb <= chars.len(),
    ensures
        res == apply_field(
            r,
            chars@.subrange(ka as int, kb as int),
            chars@.subrange(va as int, vb as int),
        ),
        r.in_range() ==> (res matches Ok(Some(r2)) ==> r2.in_range()),
{
    if eq_lit(chars, ka, kb, "WCO") {
        match read_fixed_list(chars, va, vb) {
            Some(l) => if l.len() == 3 {
                let ghost g = l@;
                assert(g[0].in_range() && g[1].in_range() && g[2].in_range());
                Ok(
                    Some(
                        GrblStatusReport { wco: Some(Position { x: l[0], y: l[1], z: l[2] }), ..r },
                    ),
                )
            } else {
                Ok(None)
            },
            None => Ok(None),
        }
    } else if eq_lit(chars, ka, kb, "Bf") {
        match read_byte_list(chars, va, vb) {
            Some(l) => if l.len() == 2 {
                Ok(
                    Some(
                        GrblStatusReport {
                            buffer: Some(GrblBufferStatus { planner: l[0], rx: l[1] }),
                            ..r
                        },
                    ),
                )
            } else {
                Ok(None)
            },
            None => Ok(None),
        }
    } else if eq_lit(chars, ka, kb, "Ln") {
        match parse_uint(chars, va, vb, usize::MAX as u64) {
            Some(n) => Ok(Some(GrblStatusReport { line: Some(n as usize), ..r })),
            None => Ok(None),
        }
    } else if eq_lit(chars, ka, kb, "F") {
        match parse_fixed(chars, va, vb) {
            Some(f) => Ok(Some(GrblStatusReport { feed: Some(f), ..r })),
            None => Ok(None),
        }
    } else if eq_lit(chars, ka, kb, "FS") {
        match read_fixed_list(chars, va, vb) {
            Some(l) => if l.len() == 2 {
                Ok(Some(GrblStatusReport { feed: Some(l[0]), speed: Some(l[1]), ..r }))
            } else {
                Ok(None)
            },
            None => Ok(None),
        }
    } else if eq_lit(chars, ka, kb, "Pn") {
        match read_pins(chars, va, vb) {
            Some(p) => Ok(Some(GrblStatusReport { input_pins: Some(p), ..r })),
            None => Err(ProtocolError::UnknownLetter),
        }
    } else if eq_lit(chars, ka, kb, "Ov") {
        match read_fixed_list(chars, va, vb) {
            Some(l) => if l.len() == 3 {
                Ok(
                    Some(
                        GrblStatusReport {
                            overrides: Some(
                                GrblOverrridesStatus { feed: l[0], rapids: l[1], speed: l[2] },
                            ),
                            ..r
                        },
                    ),
                )
            } else {
                Ok(None)
            },
            None => Ok(None),
        }
    } else if eq_lit(chars, ka, kb, "A") {
        match read_accessory(chars, va, vb) {
            Some(acc) => Ok(Some(GrblStatusReport { accessory: Some(acc), ..r })),
            None => Err(ProtocolError::UnknownLetter),
        }
    } else {
        Err(ProtocolError::UnknownKey)
    }
}

fn read_fields(r: GrblStatusReport, chars: &Vec<char>, a: usize, b: usize) -> (res: Result<
    Option<GrblStatusReport>,
    ProtocolError,
>)
    requires
        a <= b <= chars.len(),
    ensures
        res == fields_of(r, chars@.subrange(a as int, b as int)),
        r.in_range() ==> (res matches Ok(Some(r2)) ==> r2.in_range()),
    decreases b - a,
{
    let ghost s = chars@.subrange(a as int, b as int);
    let k = find_char(chars, a, b, '|');
    let colon = find_char(chars, a, k, ':');
    let ghost item = s.subrange(0, k - a);
    assert(item =~= chars@.subrange(a as int, k as int));
    assert(item.subrange(0, colon - a) =~= chars@.subrange(a as int, colon as int));
    if colon == k {
        return Err(ProtocolError::MissingSeparator);
    }
    assert(item.subrange(colon - a + 1, item.len() as int) =~= chars@.subrange(
        colon + 1,
        k as int,
    ));
    match read_field(r, chars, a, colon, colon + 1, k) {
        Ok(Some(r2)) => {
            if k < b {
                assert(s.subrange(k - a + 1, s.len() as int) =~= chars@.subrange(k + 1, b as int));
                read_fields(r2, chars, k + 1, b)
            } else {
                Ok(Some(r2))
            }
        },
        other => other,
    }
}

/// Parses the text between a status report's angle brackets.
pub fn parse_status(chars: &Vec<char>, a: usize, b: usize) -> (res: Result<
    Option<GrblStatusReport>,
    ProtocolError,
>)
    requires
        a <= b <= chars.len(),
    ensures
        res == status_of(chars@.subrange(a as int, b as int)),
        res matches Ok(Some(r)) ==> r.in_range(),
{
    let ghost c = chars@.subrange(a as int, b as int);
    let k0 = find_char(chars, a, b, '|');
    assert(c.subrange(0, k0 - a) =~= chars@.subrange(a as int, k0 as int));
    let state = match read_machine_state(chars, a, k0) {
        Some(s) => s,
        None => {
            return Err(ProtocolError::UnknownMachineState);
        },
    };
    if k0 == b {
        return Err(ProtocolError::MissingPosition);
    }
    let ghost rest = c.subrange(k0 - a + 1, c.len() as int);
    assert(rest =~= chars@.subrange(k0 + 1, b as int));
    let k1 = find_char(chars, k0 + 1, b, '|');
    let colon = find_char(chars, k0 + 1, k1, ':');
    let ghost item = rest.subrange(0, k1 - k0 - 1);
    assert(item =~= chars@.subrange(k0 + 1, k1 as int));
    assert(item.subrange(0, colon - k0 - 1) =~= chars@.subrange(k0 + 1, colon as int));
    if colon == k1 {
        return Err(ProtocolError::MissingPosition);
    }
    let machine = eq_lit(chars, k0 + 1, colon, "MPos");
    if !machine && !eq_lit(chars, k0 + 1, colon, "WPos") {
        return Err(ProtocolError::MissingPosition);
    }
    assert(item.subrange(colon - k0, item.len() as int) =~= chars@.subrange(colon + 1, k1 as int));
    let l = match read_fixed_list(chars, colon + 1, k1) {
        Some(l) => l,
        None => {
            return Ok(None);
        },
    };
    if l.len() != 3 {
        return Ok(None);
    }
    let ghost g = l@;
    assert(g[0].in_range() && g[1].in_range() && g[2].in_range());
    let p = Position { x: l[0], y: l[1], z: l[2] };
    let position = if machine {
        GrblPositionStatus::MachinePosition(p)
    } else {
        GrblPositionStatus::WorkPosition(p)
    };
    let report = GrblStatusReport {
        machine_state: state,
        position,
        wco: None,
        buffer: None,
        line: None,
        feed: None,
        speed: None,
        input_pins: None,
        overrides: None,
        accessory: None,
    };
    if k1 < b {
        assert(rest.subrange(k1 - k0, rest.len() as int) =~= chars@.subrange(k1 + 1, b as int));
        read_fields(report, chars, k1 + 1, b)
    } else {
        Ok(Some(report))
    }
}

} // verus!
