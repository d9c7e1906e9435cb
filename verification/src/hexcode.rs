//! Hexadecimal text as the radio's command grammar carries it.

use vstd::prelude::*;

verus! {

/// The sixteen lowercase hexadecimal digits, by value.
pub open spec fn hex_digits() -> Seq<char> {
    seq!['0', '1', '2', '3', '4', '5', '6', '7', '8', '9', 'a', 'b', 'c', 'd', 'e', 'f']
}

/// Lowercase hexadecimal text of `data`: two digits per byte, high nibble first.
pub open spec fn hex_text(data: Seq<u8>) -> Seq<char> {
    Seq::new(
        2 * data.len(),
        |i: int|
            if i % 2 == 0 {
                hex_digits()[data[i / 2] as int / 16]
            } else {
                hex_digits()[data[i / 2] as int % 16]
            },
    )
}

/// Value of one ASCII hexadecimal digit, in either case; `None` for any other byte.
pub open spec fn digit_value(c: u8) -> Option<int> {
    if 0x30 <= c <= 0x39 {
        Some(c - 0x30)
    } else if 0x41 <= c <= 0x46 {
        Some(c - 0x41 + 10)
    } else if 0x61 <= c <= 0x66 {
        Some(c - 0x61 + 10)
    } else {
        None
    }
}

/// Whether `text` is hexadecimal text: an even number of bytes, each a digit.
pub open spec fn is_hex(text: Seq<u8>) -> bool {
    &&& text.len() % 2 == 0
    &&& forall|i: int| 0 <= i < text.len() ==> (#[trigger] digit_value(text[i])) is Some
}

/// The bytes that hexadecimal text stands for.
pub open spec fn hex_bytes(text: Seq<u8>) -> Seq<u8> {
    Seq::new(
        text.len() / 2,
        |i: int| (digit_value(text[2 * i])->0 * 16 + digit_value(text[2 * i + 1])->0) as u8,
    )
}

/// `hex::FromHexError`, the reason why text could not be decoded. Nothing
/// is read from it.
#[verifier::external_type_specification]
#[verifier::external_body]
pub struct ExFromHexError(hex::FromHexError);

/// `hex::encode`. Claimed is the whole result: every byte becomes two
/// lowercase digits, high nibble first.
#[verifier::external_body]
pub(crate) fn encode(data: &[u8]) -> (text: String)
    ensures
        text@ == hex_text(data@),
{
    hex::encode(data)
}

/// `hex::decode`. Claimed is when it succeeds, exactly on an even number of
/// hexadecimal digits of either case, and what it then yields, one byte per
/// pair, high nibble first.
#[verifier::external_body]
pub(crate) fn decode(text: &[u8]) -> (r: Result<Vec<u8>, hex::FromHexError>)
    ensures
        r is Ok <==> is_hex(text@),
        r matches Ok(bytes) ==> bytes@ == hex_bytes(text@),
{
    hex::decode(text)
}

/// The bytes that `text` occupies on the wire.
pub open spec fn wire_bytes(text: Seq<char>) -> Seq<u8> {
    vstd::utf8::encode_utf8(text)
}

/// Hexadecimal text of a concatenation is the concatenation of the texts.
pub proof fn lemma_hex_text_concat(a: Seq<u8>, b: Seq<u8>)
    ensures
        hex_text(a + b) == hex_text(a) + hex_text(b),
{
}

/// Hexadecimal text consists of ASCII characters, so each occupies one byte.
pub proof fn lemma_hex_text_is_ascii(data: Seq<u8>)
    ensures
        vstd::utf8::is_ascii_chars(hex_text(data)),
        wire_bytes(hex_text(data)).len() == 2 * data.len(),
        forall|i: int|
            0 <= i < 2 * data.len() ==> (#[trigger] wire_bytes(hex_text(data))[i]) == hex_text(
                data,
            )[i] as u8,
{
    let text = hex_text(data);
    assert forall|i: int| 0 <= i < text.len() implies '\0' <= #[trigger] text[i] <= '\u{7f}' by {}
    vstd::utf8::is_ascii_chars_encode_utf8(text);
}

/// Decoding the text of `data` gives `data` back.
pub proof fn lemma_hex_round_trip(data: Seq<u8>)
    ensures
        is_hex(wire_bytes(hex_text(data))),
        hex_bytes(wire_bytes(hex_text(data))) == data,
{
    let text = hex_text(data);
    let wire = wire_bytes(text);
    lemma_hex_text_is_ascii(data);
    assert forall|i: int| 0 <= i < wire.len() implies {
        &&& i % 2 == 0 ==> digit_value(wire[i]) == Some(data[i / 2] as int / 16)
        &&& i % 2 == 1 ==> digit_value(wire[i]) == Some(data[i / 2] as int % 16)
    } by {}
    assert forall|i: int| 0 <= i < wire.len() implies (#[trigger] digit_value(
        wire[i],
    )) is Some by {}
    assert forall|k: int| 0 <= k < data.len() implies hex_bytes(wire)[k] == data[k] by {}
}

} // verus!
