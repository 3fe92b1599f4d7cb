//! One connection to the agent, line by line.
//!
//! A peer that reaches the agent through a proxy opens with the line
//! `CONNECT <port>`, which is answered with `OK <port>`. Every other line
//! that is not blank holds one request and is answered with one line.

use crate::agent::handler::{plan_line, plan_of_text, Action, ActionView};
use crate::protocol::{first_failure, response_parts, response_text, Response};
use crate::text::{
    decimal, decimal_u64, is_digit, is_whitespace, lemma_decimal_round_trip, parse_u32,
    parsed_u32, strip_prefix, trim, trim_end, trim_start, trimmed,
};
use vstd::prelude::*;

verus! {

/// The port that the agent listens on.
pub const GUEST_PORT: u32 = 52;

/// What a line of a connection asks for.
pub enum LineEvent {
    /// The opening line of a proxy: answer with `reply`, as it stands.
    Handshake { reply: String },
    /// A request: carry out the action and answer with its response.
    Request(Action),
    /// A blank line: nothing to do.
    Blank,
}

/// The content of a [`LineEvent`].
pub enum LineEventView {
    Handshake { reply: Seq<char> },
    Request(ActionView),
    Blank,
}

impl View for LineEvent {
    type V = LineEventView;

    open spec fn view(&self) -> LineEventView {
        match self {
            LineEvent::Handshake { reply } => LineEventView::Handshake { reply: reply@ },
            LineEvent::Request(a) => LineEventView::Request(a@),
            LineEvent::Blank => LineEventView::Blank,
        }
    }
}

/// The word that opens a proxy's handshake, with the space behind it.
pub open spec fn connect_prefix() -> Seq<char> {
    "CONNECT "@
}

/// The port that a handshake names: what follows `CONNECT `, where that is a
/// number, and the agent's own port otherwise.
pub open spec fn handshake_port(rest: Seq<char>) -> u32 {
    match parsed_u32(rest) {
        Some(port) => port,
        None => GUEST_PORT,
    }
}

/// The answer to a handshake: `OK <port>` and a newline.
pub open spec fn handshake_reply(port: u32) -> Seq<char> {
    "OK "@ + decimal(port as nat) + "\n"@
}

/// What a line that is not the first asks for, white space at its ends
/// apart: nothing where it is blank, and a request otherwise.
pub open spec fn line_event(line: Seq<char>) -> LineEventView {
    let text = trimmed(line);
    if text.len() == 0 {
        LineEventView::Blank
    } else {
        LineEventView::Request(plan_of_text(text))
    }
}

/// What the first line of a connection asks for, white space at its ends
/// apart: a handshake where it begins with `CONNECT `, and otherwise what
/// any other line asks for.
pub open spec fn first_line_event(line: Seq<char>) -> LineEventView {
    let text = trimmed(line);
    if connect_prefix().is_prefix_of(text) {
        LineEventView::Handshake {
            reply: handshake_reply(handshake_port(text.skip(connect_prefix().len() as int))),
        }
    } else {
        line_event(line)
    }
}

/// Reads a line that is not the first of its connection.
pub fn on_line(line: &str) -> (e: LineEvent)
    ensures
        e@ == line_event(line@),
{
    let text: &str = trim(line);
    if text.is_empty() {
        LineEvent::Blank
    } else {
        LineEvent::Request(plan_line(text))
    }
}

/// Reads the first line of a connection.
pub fn on_first_line(line: &str) -> (e: LineEvent)
    ensures
        e@ == first_line_event(line@),
{
    let text: &str = trim(line);
    match strip_prefix(text, "CONNECT ") {
        Some(rest) => {
            let port: u32 = match parse_u32(rest) {
                Some(p) => p,
                None => GUEST_PORT,
            };
            let number: String = decimal_u64(port as u64);
            LineEvent::Handshake {
                reply: String::from_str("OK ").concat(number.as_str()).concat("\n"),
            }
        },
        None => on_line(line),
    }
}

/// Frames a response for the wire: its line, ended by a newline. The frame
/// is made whenever `serde_json` writes each value in the response;
/// otherwise the message of the first failure comes back.
pub fn frame(response: &Response) -> (r: Result<String, String>)
    ensures
        match r {
            Ok(line) => first_failure(response_parts(response@)) is None && line@
                == response_text(response@) + "\n"@,
            Err(e) => first_failure(response_parts(response@)) == Some(e@),
        },
{
    match response.to_line() {
        Ok(line) => Ok(line.concat("\n")),
        Err(e) => Err(e),
    }
}

/// The handshake of a proxy: a connection that opens with `CONNECT`, a
/// space and a port in decimal is answered with `OK`, a space and the same
/// port. The answer begins with `OK `, which is what the host's client looks
/// for.
pub proof fn lemma_handshake_echoes_port(port: u32)
    ensures
        first_line_event(connect_prefix() + decimal(port as nat) + "\n"@) == (
        LineEventView::Handshake { reply: handshake_reply(port) }),
        "OK "@.is_prefix_of(handshake_reply(port)),
{
    reveal_strlit("CONNECT ");
    reveal_strlit("OK ");
    reveal_strlit("\n");
    let digits = decimal(port as nat);
    lemma_decimal_round_trip(port as nat, u32::MAX as nat);
    let text = connect_prefix() + digits;
    let line = text + "\n"@;
    assert(line[0] == 'C');
    assert(!is_whitespace('C'));
    assert(trim_start(line) == line);
    assert(is_whitespace('\n'));
    assert(line.last() == '\n');
    assert(line.drop_last() =~= text);
    assert(text.last() == digits.last());
    assert(is_digit(digits.last()));
    assert(!is_whitespace(text.last()));
    assert(trim_end(text) == text);
    assert(trim_end(line) == text) by {
        reveal_with_fuel(trim_end, 2);
    }
    assert(trimmed(line) == text);
    assert(connect_prefix().is_prefix_of(text));
    assert(text.skip(connect_prefix().len() as int) =~= digits);
    assert(parsed_u32(digits) == Some(port));
    assert("OK "@.is_prefix_of("OK "@ + digits + "\n"@));
}

} // verus!
