//! The pure message transforms of the wire protocol.
//!
//! An inbound line is uppercased, wrapped with the sender's label into a
//! broadcast payload, and answered with a fixed acknowledgment. These
//! functions do no I/O and share no state; the connection state machine in
//! [`crate::client`] composes them.

use vstd::prelude::*;
use vstd::string::*;

use crate::decimal::{dec_rep, u16_dec};

verus! {

/// The characters of the fixed acknowledgment sent back to a client after
/// each line it submits.
pub open spec fn ack_spec() -> Seq<char> {
    "ACK:MESSAGE\n"@
}

/// The characters of the broadcast payload carrying `transformed` on behalf
/// of the sender labelled `port`.
pub open spec fn payload_spec(port: u16, transformed: Seq<char>) -> Seq<char> {
    "MESSAGE:"@ + dec_rep(port as nat) + " "@ + transformed
}

/// The characters of the login banner greeting the connection labelled
/// `port`.
pub open spec fn banner_spec(port: u16) -> Seq<char> {
    "LOGIN: "@ + dec_rep(port as nat) + "\n"@
}

/// What `str::to_uppercase` returns for a given character sequence: a pure
/// function of the characters alone.
pub uninterp spec fn upper_of(s: Seq<char>) -> Seq<char>;

/// Relies on `str::to_uppercase`: the result depends on the characters
/// alone, and an empty string stays empty.
#[verifier::external_body]
fn uppercase(s: &str) -> (r: String)
    ensures
        r@ == upper_of(s@),
        s@.len() == 0 ==> r@.len() == 0,
{
    s.to_uppercase()
}

/// Uppercases an inbound line; the first stage of the relay transform.
pub fn handle_incoming_message(incoming: &str) -> (r: String)
    ensures
        r@ == upper_of(incoming@),
{
    uppercase(incoming)
}

/// Builds the acknowledgment sent to the client that submitted a line. It
/// is the same constant whatever was submitted.
pub fn handle_acknowledgment_message() -> (r: String)
    ensures
        r@ == ack_spec(),
{
    String::from_str("ACK:MESSAGE\n")
}

/// Wraps an already-transformed line with the sender's label. No line
/// terminator is appended here: the inbound line keeps its own.
pub fn handle_forward_message(port: u16, outgoing: String) -> (r: String)
    ensures
        r@ == payload_spec(port, outgoing@),
{
    let mut r = String::from_str("MESSAGE:");
    let label = u16_dec(port);
    r.append(label.as_str());
    r.append(" ");
    r.append(outgoing.as_str());
    r
}

/// Builds the login banner written to a freshly accepted connection.
pub fn login_banner(port: u16) -> (r: String)
    ensures
        r@ == banner_spec(port),
{
    let mut r = String::from_str("LOGIN: ");
    let label = u16_dec(port);
    r.append(label.as_str());
    r.append("\n");
    r
}

/// The broadcast payload is a function of the sender's label and the line
/// alone: the same label and line always yield the same payload, namely
/// `MESSAGE:` followed by the label, a space, and the uppercased line.
pub proof fn lemma_payload_deterministic(port: u16, line: Seq<char>, r1: Seq<char>, r2: Seq<char>)
    requires
        r1 == payload_spec(port, upper_of(line)),
        r2 == payload_spec(port, upper_of(line)),
    ensures
        r1 == r2,
        r1 == "MESSAGE:"@ + dec_rep(port as nat) + " "@ + upper_of(line),
{
}

} // verus!
