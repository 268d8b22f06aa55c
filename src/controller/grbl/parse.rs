//! Classifying and parsing one inbound line.
use vstd::prelude::*;

use crate::decimal::{
    all_digits, decimal, find, find_char, fixed_of, fixed_text, is_digit, lemma_decimal,
    lemma_find_after, lemma_fixed_round_trip, parse_fixed, parse_uint, uint_of, Fixed,
};
use crate::text::{digits_only, eq_lit, find_last, find_last_char, has_prefix, substring, to_chars};

use super::proto::{
    system_text, GrblMessage, GrblResponse, GrblSystemCommand, MessageView, ProtocolError,
};
use super::report::{parse_status, status_of};

verus! {

pub open spec fn prefixed(s: Seq<char>, p: Seq<char>) -> bool {
    p.len() <= s.len() && s.subrange(0, p.len() as int) == p
}

/// `s` opens with `p` and closes with `]`.
pub open spec fn bracketed(s: Seq<char>, p: Seq<char>) -> bool {
    prefixed(s, p) && s.len() >= p.len() + 1 && s.last() == ']'
}

/// What stands between the opening `p` and the closing `]`.
pub open spec fn inner(s: Seq<char>, p: Seq<char>) -> Seq<char> {
    s.subrange(p.len() as int, s.len() - 1)
}

/// `$` then digits, `=` and a non-empty value.
pub open spec fn setting_shape(s: Seq<char>) -> bool {
    let e = find(s, '=');
    s.len() > 0 && s[0] == '$' && 1 < e && e + 1 < s.len() && all_digits(s.subrange(1, e))
}

/// `$N` then digits, `=` and a possibly empty line.
pub open spec fn startup_shape(s: Seq<char>) -> bool {
    let e = find(s, '=');
    prefixed(s, "$N"@) && 2 < e < s.len() && all_digits(s.subrange(2, e))
}

pub open spec fn is_parameter_name(t: Seq<char>) -> bool {
    t == "G54"@ || t == "G55"@ || t == "G56"@ || t == "G57"@ || t == "G58"@ || t == "G59"@ || t
        == "G28"@ || t == "G30"@ || t == "G92"@ || t == "TLO"@ || t == "PRB"@
}

/// `[NAME:...]` for one of the stored parameters.
pub open spec fn parameter_shape(s: Seq<char>) -> bool {
    s.len() >= 6 && s[0] == '[' && is_parameter_name(s.subrange(1, 4)) && s[4] == ':' && s.last()
        == ']'
}

/// `[VER:version:note]`; the note follows the last colon.
pub open spec fn version_shape(s: Seq<char>) -> bool {
    bracketed(s, "[VER:"@) && find_last(inner(s, "[VER:"@), ':') >= 0
}

/// What an inbound line means. Shapes are tried in order and the first that
/// fits decides; a malformed number inside a recognised shape makes the line
/// `Other`; a status report with an unknown field is refused.
pub open spec fn parse_line(s: Seq<char>) -> Result<MessageView, ProtocolError> {
    if s == "ok"@ {
        Ok(MessageView::Response(GrblResponse::Okay))
    } else if prefixed(s, "error:"@) && s.len() > 6 {
        match uint_of(s.subrange(6, s.len() as int), 255) {
            Some(c) => Ok(MessageView::Response(GrblResponse::Error(c as u8))),
            None => Ok(MessageView::Other(s)),
        }
    } else if prefixed(s, "ALARM:"@) && s.len() > 6 {
        match uint_of(s.subrange(6, s.len() as int), 255) {
            Some(c) => Ok(MessageView::Alarm(c as u8)),
            None => Ok(MessageView::Other(s)),
        }
    } else if setting_shape(s) {
        let e = find(s, '=');
        match (uint_of(s.subrange(1, e), 255), fixed_of(s.subrange(e + 1, s.len() as int))) {
            (Some(c), Some(v)) => Ok(MessageView::Setting { code: c as u8, value: Fixed { raw: v as i64 } }),
            _ => Ok(MessageView::Other(s)),
        }
    } else if startup_shape(s) {
        let e = find(s, '=');
        match uint_of(s.subrange(2, e), 255) {
            Some(n) => Ok(MessageView::StartupLine { nr: n as u8, line: s.subrange(e + 1, s.len() as int) }),
            None => Ok(MessageView::Other(s)),
        }
    } else if bracketed(s, "[MSG:"@) {
        Ok(MessageView::Feedback(inner(s, "[MSG:"@)))
    } else if bracketed(s, "[GC:"@) {
        Ok(MessageView::ParserState(inner(s, "[GC:"@)))
    } else if bracketed(s, "[HLP:"@) {
        Ok(MessageView::Help(inner(s, "[HLP:"@)))
    } else if parameter_shape(s) {
        Ok(MessageView::Parameter(s.subrange(1, s.len() - 1)))
    } else if version_shape(s) {
        let c = inner(s, "[VER:"@);
        let k = find_last(c, ':');
        Ok(MessageView::Version { version: c.subrange(0, k), note: c.subrange(k + 1, c.len() as int) })
    } else if bracketed(s, "[OPT:"@) {
        Ok(MessageView::BuildOptions(inner(s, "[OPT:"@)))
    } else if s.len() >= 2 && s[0] == '<' && s.last() == '>' {
        match status_of(s.subrange(1, s.len() - 1)) {
            Ok(Some(r)) => Ok(MessageView::StatusReport(r)),
            Ok(None) => Ok(MessageView::Other(s)),
            Err(e) => Err(e),
        }
    } else {
        Ok(MessageView::Other(s))
    }
}

fn is_bracketed(chars: &Vec<char>, p: &str) -> (r: bool)
    ensures
        r == bracketed(chars@, p@),
{
    let n = p.unicode_len();
    has_prefix(chars, p) && chars.len() > n && chars[chars.len() - 1] == ']'
}

fn inner_text(line: &str, chars: &Vec<char>, p: &str) -> (r: String)
    requires
        chars@ == line@,
        bracketed(chars@, p@),
    ensures
        r@ == inner(chars@, p@),
{
    let n = p.unicode_len();
    substring(line, n, chars.len() - 1)
}

impl GrblMessage {
    /// Classifies and parses one inbound line, trailing whitespace already removed.
    pub fn parse(line: &str) -> (r: Result<GrblMessage, ProtocolError>)
        ensures
            match r {
                Ok(m) => parse_line(line@) == Ok::<MessageView, ProtocolError>(m@) && m.in_range(),
                Err(e) => parse_line(line@) == Err::<MessageView, ProtocolError>(e),
            },
    {
        proof {
            reveal_strlit("error:");
            reveal_strlit("ALARM:");
            reveal_strlit("$N");
        }
        let chars = to_chars(line);
        let n = chars.len();
        let ghost s = chars@;
        assert(chars@.subrange(0, n as int) =~= s);
        let other = GrblMessage::Other(line.to_owned());
        if eq_lit(&chars, 0, n, "ok") {
            return Ok(GrblMessage::Response(GrblResponse::Okay));
        }
        if n > 6 && has_prefix(&chars, "error:") {
            return match parse_uint(&chars, 6, n, 255) {
                Some(c) => Ok(GrblMessage::Response(GrblResponse::Error(c as u8))),
                None => Ok(other),
            };
        }
        if n > 6 && has_prefix(&chars, "ALARM:") {
            return match parse_uint(&chars, 6, n, 255) {
                Some(c) => Ok(GrblMessage::Alarm(c as u8)),
                None => Ok(other),
            };
        }
        let e = find_char(&chars, 0, n, '=');
        if n > 0 && chars[0] == '$' && 1 < e && e < n && n - e > 1 && digits_only(&chars, 1, e) {
            return match (parse_uint(&chars, 1, e, 255), parse_fixed(&chars, e + 1, n)) {
                (Some(c), Some(v)) => Ok(GrblMessage::Setting { code: c as u8, value: v }),
                _ => Ok(other),
            };
        }
        if has_prefix(&chars, "$N") && 2 < e && e < n && digits_only(&chars, 2, e) {
            return match parse_uint(&chars, 2, e, 255) {
                Some(nr) => Ok(GrblMessage::StartupLine { nr: nr as u8, line: substring(line, e + 1, n) }),
                None => Ok(other),
            };
        }
        if is_bracketed(&chars, "[MSG:") {
            return Ok(GrblMessage::Feedback(inner_text(line, &chars, "[MSG:")));
        }
        if is_bracketed(&chars, "[GC:") {
            return Ok(GrblMessage::ParserState(inner_text(line, &chars, "[GC:")));
        }
        if is_bracketed(&chars, "[HLP:") {
            return Ok(GrblMessage::Help(inner_text(line, &chars, "[HLP:")));
        }
        if n >= 6 && chars[0] == '[' && chars[4] == ':' && chars[n - 1] == ']' && (eq_lit(
            &chars,
            1,
            4,
            "G54",
        ) || eq_lit(&chars, 1, 4, "G55") || eq_lit(&chars, 1, 4, "G56") || eq_lit(
            &chars,
            1,
            4,
            "G57",
        ) || eq_lit(&chars, 1, 4, "G58") || eq_lit(&chars, 1, 4, "G59") || eq_lit(
            &chars,
            1,
            4,
            "G28",
        ) || eq_lit(&chars, 1, 4, "G30") || eq_lit(&chars, 1, 4, "G92") || eq_lit(
            &chars,
            1,
            4,
            "TLO",
        ) || eq_lit(&chars, 1, 4, "PRB")) {
            return Ok(GrblMessage::Parameter(substring(line, 1, n - 1)));
        }
        if is_bracketed(&chars, "[VER:") {
            proof {
                reveal_strlit("[VER:");
            }
            assert(inner(s, "[VER:"@) =~= chars@.subrange(5, n - 1));
            match find_last_char(&chars, 5, n - 1, ':') {
                Some(k) => {
                    let ghost c = inner(s, "[VER:"@);
                    assert(c.subrange(0, k - 5) =~= s.subrange(5, k as int));
                    assert(c.subrange(k - 5 + 1, c.len() as int) =~= s.subrange(k + 1, n - 1));
                    return Ok(
                        GrblMessage::Version {
                            version: substring(line, 5, k),
                            note: substring(line, k + 1, n - 1),
                        },
                    );
                },
                None => {},
            }
        }
        if is_bracketed(&chars, "[OPT:") {
            return Ok(GrblMessage::BuildOptions(inner_text(line, &chars, "[OPT:")));
        }
        if n >= 2 && chars[0] == '<' && chars[n - 1] == '>' {
            return match parse_status(&chars, 1, n - 1) {
                Ok(Some(r)) => Ok(GrblMessage::StatusReport(r)),
                Ok(None) => Ok(other),
                Err(e) => Err(e),
            };
        }
        Ok(other)
    }
}

/// Text of the form `$` + digits + `=` + rest: where the `=` stands and what
/// is around it.
proof fn lemma_assignment(head: Seq<char>, n: nat, rest: Seq<char>)
    requires
        forall|i: int| 0 <= i < head.len() ==> head[i] != '=',
    ensures
        ({
            let s = head + decimal(n) + "="@ + rest;
            let e = (head.len() + decimal(n).len()) as int;
            &&& find(s, '=') == e
            &&& s.subrange(head.len() as int, e) == decimal(n)
            &&& s.subrange(e + 1, s.len() as int) == rest
            &&& s.len() == e + 1 + rest.len()
            &&& s.subrange(0, head.len() as int) == head
        }),
{
    reveal_strlit("=");
    lemma_decimal(n);
    let d = decimal(n);
    let s = head + d + "="@ + rest;
    assert forall|i: int| 0 <= i < (head + d).len() implies (head + d)[i] != '=' by {
        if i >= head.len() {
            assert((head + d)[i] == d[i - head.len()]);
            assert(is_digit(d[i - head.len()]));
        }
    }
    lemma_find_after(head + d, "="@ + rest, '=');
    assert(s =~= (head + d) + ("="@ + rest));
    assert(s.subrange(head.len() as int, (head.len() + d.len()) as int) =~= d);
    assert(s.subrange((head.len() + d.len() + 1) as int, s.len() as int) =~= rest);
    assert(s.subrange(0, head.len() as int) =~= head);
}

/// A setting written as `$code=value` reads back as that setting.
pub proof fn lemma_setting_round_trip(code: u8, value: Fixed)
    requires
        value.in_range(),
    ensures
        parse_line(system_text(GrblSystemCommand::WriteSetting { code, value })) == Ok::<
            MessageView,
            ProtocolError,
        >(MessageView::Setting { code, value }),
{
    reveal_strlit("$");
    reveal_strlit("ok");
    reveal_strlit("error:");
    reveal_strlit("ALARM:");
    let text = fixed_text(value.raw as int);
    let s = system_text(GrblSystemCommand::WriteSetting { code, value });
    lemma_assignment("$"@, code as nat, text);
    lemma_decimal(code as nat);
    lemma_fixed_round_trip(value.raw as int);
    assert(s[0] == '$');
    assert(s != "ok"@);
    if s.len() >= 6 {
        assert(s.subrange(0, 6)[0] == '$');
        assert(s.subrange(0, 6) != "error:"@);
        assert(s.subrange(0, 6) != "ALARM:"@);
    }
    assert(text.len() > 0);
    assert(setting_shape(s));
}

/// A startup block written as `$Nn=line` reads back as that startup line.
pub proof fn lemma_startup_line_round_trip(nr: u8, line: String)
    ensures
        parse_line(system_text(GrblSystemCommand::WriteStartupBlock { nr, line })) == Ok::<
            MessageView,
            ProtocolError,
        >(MessageView::StartupLine { nr, line: line@ }),
{
    reveal_strlit("$N");
    reveal_strlit("ok");
    reveal_strlit("error:");
    reveal_strlit("ALARM:");
    let s = system_text(GrblSystemCommand::WriteStartupBlock { nr, line });
    lemma_assignment("$N"@, nr as nat, line@);
    lemma_decimal(nr as nat);
    assert(s[0] == '$');
    assert(s[1] == 'N');
    assert(s != "ok"@);
    if s.len() >= 6 {
        assert(s.subrange(0, 6) != "error:"@);
        assert(s.subrange(0, 6) != "ALARM:"@);
    }
    let digits = s.subrange(1, find(s, '='));
    assert(digits[0] == 'N');
    assert(!is_digit(digits[0]));
    assert(!setting_shape(s));
    assert(startup_shape(s));
}

} // verus!
