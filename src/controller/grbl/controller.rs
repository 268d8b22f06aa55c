//! Decisions of the driver that sit between the wire and its users: what a
//! response means to a submitter, how the link is set up and named.
use vstd::prelude::*;

use crate::controller::Response;
use crate::decimal::{decimal, push_decimal};

use super::codes::{error_message, error_text};
use super::proto::GrblResponse;

verus! {

/// Line rate of the serial link.
pub const BAUD_RATE: u32 = 115200;

/// Period of status polls, in milliseconds (five per second).
pub const STATUS_INTERVAL_MS: u64 = 200;

/// Serial read timeout, in milliseconds.
pub const READ_TIMEOUT_MS: u64 = 1;

/// Text of an error code: its documented message, or its number.
pub open spec fn error_code_text(code: u8) -> Seq<char> {
    match error_message(code) {
        Some(t) => t,
        None => decimal(code as nat),
    }
}

/// What a controller response means to the submitter of the line.
pub fn to_response(r: GrblResponse) -> (res: Response)
    ensures
        match r {
            GrblResponse::Okay => res == Response::Okay,
            GrblResponse::Error(code) => res matches Response::Error(t) && t@ == error_code_text(
                code,
            ),
        },
{
    match r {
        GrblResponse::Okay => Response::Okay,
        GrblResponse::Error(code) => match error_text(code) {
            Some(t) => Response::Error(t.to_owned()),
            None => {
                let mut s = String::new();
                push_decimal(&mut s, code as u64);
                assert(s@ =~= decimal(code as nat));
                Response::Error(s)
            },
        },
    }
}

/// Human-readable name of a controller on `path`.
pub fn description(path: &str) -> (r: String)
    ensures
        r@ == "GRBL: "@ + path@,
{
    let mut s = String::from_str("GRBL: ");
    s.append(path);
    s
}

} // verus!
