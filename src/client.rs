//! What the echo clients send and what they show their user.
use vstd::prelude::*;
use vstd::string::StringExecFns;
use vstd::utf8::encode_utf8;
use crate::outcome::IoErrorKind;
use crate::text::{
    append_bytes, ends_with_newline, has_trailing_newline, lossy_bytes, sanitize_utf8,
    terminated, text_bytes, with_newline,
};

verus! {

/// The bytes put before each echo shown to the user.
pub open spec fn echo_prefix() -> Seq<u8> {
    encode_utf8("ECHO: "@)
}

/// The notice shown before a UDP echo that came without a trailing newline.
pub open spec fn newline_notice() -> Seq<u8> {
    encode_utf8("NEWLINE ADDED\n"@)
}

/// What a TCP client shows for the echoed line `echo`.
pub open spec fn tcp_report(echo: Seq<u8>) -> Seq<u8> {
    echo_prefix() + terminated(echo)
}

/// What a UDP client shows for the echoed text `text`, sent from `from` in reply to a
/// datagram sent to `expected` (both in their written form). The sender is shown only where
/// it is not the expected one.
pub open spec fn udp_report(text: Seq<u8>, expected: Seq<char>, from: Seq<char>) -> Seq<u8> {
    (if ends_with_newline(text) {
        Seq::empty()
    } else {
        newline_notice()
    }) + echo_prefix() + (if from == expected {
        Seq::empty()
    } else {
        encode_utf8(from).push(32u8)
    }) + terminated(text)
}

/// The message a client sends for the line `line` the user typed: the line, ending in a
/// newline.
pub fn outbound_message(line: &[u8]) -> (r: Vec<u8>)
    ensures
        r@ == terminated(line@),
{
    with_newline(line)
}

/// What a TCP client shows for the echoed line `echo`: `ECHO: ` and the line, ending in a
/// newline.
pub fn tcp_echo_report(echo: &[u8]) -> (r: Vec<u8>)
    ensures
        r@ == tcp_report(echo@),
{
    let line = with_newline(echo);
    let mut out = text_bytes("ECHO: ");
    append_bytes(&mut out, line.as_slice());
    out
}

/// What a UDP client shows for the echo text `text` (already read as UTF-8), received from
/// `from` after sending to `expected`.
pub fn udp_text_report(text: &[u8], expected: &String, from: &String) -> (r: Vec<u8>)
    ensures
        r@ == udp_report(text@, expected@, from@),
{
    let mut out: Vec<u8> = Vec::new();
    let complete = has_trailing_newline(text);
    if !complete {
        append_bytes(&mut out, text_bytes("NEWLINE ADDED\n").as_slice());
    }
    append_bytes(&mut out, text_bytes("ECHO: ").as_slice());
    let same = *from == *expected;
    if !same {
        append_bytes(&mut out, text_bytes(from.as_str()).as_slice());
        out.push(32u8);
    }
    append_bytes(&mut out, text);
    if !complete {
        out.push(10u8);
    }
    assert(out@ =~= udp_report(text@, expected@, from@));
    out
}

/// What a UDP client shows for the datagram `datagram` received from `from` after sending
/// to `expected`: the datagram is read as UTF-8, invalid sequences replaced.
pub fn udp_echo_report(datagram: &[u8], expected: &String, from: &String) -> (r: Vec<u8>)
    ensures
        r@ == udp_report(lossy_bytes(datagram@), expected@, from@),
{
    let text = sanitize_utf8(datagram);
    udp_text_report(text.as_slice(), expected, from)
}

/// True when a failed wait for the echo means that no echo came in time.
pub fn is_no_response(kind: IoErrorKind) -> (r: bool)
    ensures
        r == (kind == IoErrorKind::WouldBlock),
{
    match kind {
        IoErrorKind::WouldBlock => true,
        _ => false,
    }
}

/// The error text for a server at `server` that did not answer.
pub fn no_response_message(server: &String) -> (r: String)
    ensures
        r@ == "no response from "@ + server@,
{
    let mut msg = String::from_str("no response from ");
    msg.append(server.as_str());
    msg
}

} // verus!
