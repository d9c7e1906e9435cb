//! The lines exchanged with the radio.
//!
//! Text is compared as the bytes it occupies on the wire, which is how the
//! received packet's position in its line is defined.

use crate::error::LoraError;
use crate::hexcode::{decode, encode, hex_bytes, hex_text, is_hex, wire_bytes};
use vstd::prelude::*;
use vstd::slice::*;
use vstd::string::*;

verus! {

/// Whether `line` begins with `prefix`.
pub open spec fn has_prefix(line: Seq<u8>, prefix: Seq<u8>) -> bool {
    line.len() >= prefix.len() && line.take(prefix.len() as int) == prefix
}

/// The command that transmits one packet: the flag byte and the payload, in
/// hexadecimal.
pub open spec fn tx_command(flag: u8, body: Seq<u8>) -> Seq<char> {
    "radio tx "@ + hex_text(seq![flag]) + hex_text(body)
}

/// Whether `line` reports a received packet.
pub open spec fn is_rx_line(line: Seq<u8>) -> bool {
    has_prefix(line, wire_bytes("radio_rx "@))
}

/// Whether the packet that `line` reports can be read: hexadecimal text from
/// byte offset 10 to the end of the line, holding at least the flag byte.
pub open spec fn rx_readable(line: Seq<u8>) -> bool {
    line.len() > 10 && is_hex(line.skip(10))
}

/// The packet that a readable line reports, flag byte first.
pub open spec fn rx_packet(line: Seq<u8>) -> Seq<u8> {
    hex_bytes(line.skip(10))
}

/// Whether `line` begins with `prefix`.
pub fn starts_with(line: &[u8], prefix: &[u8]) -> (yes: bool)
    ensures
        yes == has_prefix(line@, prefix@),
{
    if line.len() < prefix.len() {
        return false;
    }
    let mut i: usize = 0;
    while i < prefix.len()
        invariant
            i <= prefix.len() <= line.len(),
            forall|k: int| 0 <= k < i ==> line@[k] == prefix@[k],
        decreases prefix.len() - i,
    {
        if line[i] != prefix[i] {
            return false;
        }
        i += 1;
    }
    assert(line@.take(prefix@.len() as int) =~= prefix@);
    true
}

/// Whether `line` is exactly `text`.
pub fn is_text(line: &String, text: &str) -> (yes: bool)
    ensures
        yes == (line@ == text@),
{
    let other = String::from_str(text);
    *line == other
}

/// Builds the command that transmits `body` under `flag`.
pub fn tx_line(flag: u8, body: &Vec<u8>) -> (line: String)
    ensures
        line@ == tx_command(flag, body@),
{
    let mut head: Vec<u8> = Vec::new();
    head.push(flag);
    let mut line = String::from_str("radio tx ");
    let flag_text = encode(head.as_slice());
    let body_text = encode(body.as_slice());
    line.append(flag_text.as_str());
    line.append(body_text.as_str());
    line
}

/// Whether `line` reports a received packet.
pub fn reports_packet(line: &String) -> (yes: bool)
    ensures
        yes == is_rx_line(wire_bytes(line@)),
{
    starts_with(line.as_str().as_bytes(), "radio_rx ".as_bytes())
}

/// Reads the packet out of a line that reports one.
///
/// Fails with a protocol error unless the line is readable.
pub fn read_packet(line: &String) -> (r: Result<Vec<u8>, LoraError>)
    ensures
        r is Ok <==> rx_readable(wire_bytes(line@)),
        r matches Ok(packet) ==> packet@ == rx_packet(wire_bytes(line@)),
        r matches Err(e) ==> e@ == crate::error::Failure::Protocol("Error with hex decoding"@),
{
    let bytes = line.as_str().as_bytes();
    if bytes.len() <= 10 {
        return Err(LoraError::Protocol(String::from_str("Error with hex decoding")));
    }
    let text = slice_subrange(bytes, 10, bytes.len());
    match decode(text) {
        Ok(packet) => Ok(packet),
        Err(_) => Err(LoraError::Protocol(String::from_str("Error with hex decoding"))),
    }
}

/// The line by which a radio reports that it received `packet`.
pub open spec fn rx_report(packet: Seq<u8>) -> Seq<char> {
    "radio_rx  "@ + hex_text(packet)
}

/// The command for a packet holds, after its name, the hexadecimal text of
/// the flag byte followed by the payload.
pub proof fn lemma_tx_command_holds_packet(flag: u8, body: Seq<u8>)
    ensures
        tx_command(flag, body) == "radio tx "@ + hex_text(seq![flag] + body),
{
}

/// What one radio was told to transmit, the other's report gives back: the
/// report of a packet is a line that reports a packet, is readable, and
/// holds that packet.
pub proof fn lemma_report_round_trip(packet: Seq<u8>)
    requires
        packet.len() >= 1,
    ensures
        is_rx_line(wire_bytes(rx_report(packet))),
        rx_readable(wire_bytes(rx_report(packet))),
        rx_packet(wire_bytes(rx_report(packet))) == packet,
{
    reveal_strlit("radio_rx  ");
    reveal_strlit("radio_rx ");
    let prefix = "radio_rx "@;
    let text = hex_text(packet);
    let line = rx_report(packet);
    // The whole line is ASCII, so each of its characters is one byte.
    crate::hexcode::lemma_hex_text_is_ascii(packet);
    assert(vstd::utf8::is_ascii_chars(line));
    vstd::utf8::is_ascii_chars_encode_utf8(line);
    vstd::utf8::is_ascii_chars_encode_utf8(prefix);
    let bytes = wire_bytes(line);
    // Its first nine bytes are the prefix, and from the tenth on it is the text.
    assert(bytes.take(9) =~= wire_bytes(prefix));
    assert(bytes.skip(10) =~= wire_bytes(text));
    crate::hexcode::lemma_hex_round_trip(packet);
}

} // verus!
