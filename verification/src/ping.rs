//! The texts of the ping generator and of the pong responder.

use crate::lorastik::ReceivedFrames;
use vstd::prelude::*;
use vstd::string::*;

verus! {

/// Seconds between two pings.
pub const INTERVAL: u64 = 5;

/// The ten decimal digits, by value.
pub open spec fn digits() -> Seq<char> {
    seq!['0', '1', '2', '3', '4', '5', '6', '7', '8', '9']
}

/// The decimal numeral of `n`.
pub open spec fn decimal(n: nat) -> Seq<char>
    decreases n,
{
    if n < 10 {
        seq![digits()[n as int]]
    } else {
        decimal(n / 10).push(digits()[(n % 10) as int])
    }
}

/// The text of ping number `counter`.
pub open spec fn ping_text(counter: u64) -> Seq<char> {
    "Ping "@ + decimal(counter as nat)
}

/// One decimal digit as text.
fn digit_str(d: u64) -> (text: &'static str)
    requires
        d < 10,
    ensures
        text@ == seq![digits()[d as int]],
{
    proof {
        reveal_strlit("0");
        reveal_strlit("1");
        reveal_strlit("2");
        reveal_strlit("3");
        reveal_strlit("4");
        reveal_strlit("5");
        reveal_strlit("6");
        reveal_strlit("7");
        reveal_strlit("8");
        reveal_strlit("9");
    }
    let text = if d == 0 {
        "0"
    } else if d == 1 {
        "1"
    } else if d == 2 {
        "2"
    } else if d == 3 {
        "3"
    } else if d == 4 {
        "4"
    } else if d == 5 {
        "5"
    } else if d == 6 {
        "6"
    } else if d == 7 {
        "7"
    } else if d == 8 {
        "8"
    } else {
        "9"
    };
    text
}

/// Appends the decimal numeral of `n` to `text`.
fn push_decimal(text: &mut String, n: u64)
    ensures
        final(text)@ == old(text)@ + decimal(n as nat),
    decreases n,
{
    if n >= 10 {
        push_decimal(text, n / 10);
    }
    text.append(digit_str(n % 10));
    proof {
        if n >= 10 {
            assert(old(text)@ + decimal(n as nat / 10).push(digits()[(n % 10) as int]) =~= (old(
                text,
            )@ + decimal(n as nat / 10)) + seq![digits()[(n % 10) as int]]);
        }
    }
}

/// Makes the text of ping number `counter`.
pub fn ping_message(counter: u64) -> (text: String)
    ensures
        text@ == ping_text(counter),
{
    let mut text = String::from_str("Ping ");
    push_decimal(&mut text, counter);
    text
}

/// The text that `String::from_utf8_lossy` makes of bytes.
pub uninterp spec fn lossy_text(bytes: Seq<u8>) -> Seq<char>;

/// The text that `{:?}` makes of the quality readings of a frame.
pub uninterp spec fn quality_text(quality: Option<(Seq<char>, Seq<char>)>) -> Seq<char>;

/// The answer to a frame whose payload reads `payload` and whose quality
/// reads `quality`.
pub open spec fn pong_text(payload: Seq<char>, quality: Seq<char>) -> Seq<char> {
    "Pong "@ + payload + ", "@ + quality
}

/// `String::from_utf8_lossy`: the bytes as text, with the replacement
/// character for what is not UTF-8. Claimed is that the text depends on the
/// bytes alone, and that bytes which are UTF-8 are decoded as they stand.
#[verifier::external_body]
fn read_lossy(bytes: &[u8]) -> (text: String)
    ensures
        text@ == lossy_text(bytes@),
        vstd::utf8::valid_utf8(bytes@) ==> text@ == vstd::utf8::decode_utf8(bytes@),
{
    String::from_utf8_lossy(bytes).into_owned()
}

/// `{:?}` on the quality readings: what `Debug` prints for the option of a
/// pair of strings. Claimed is that the text depends on the readings alone,
/// and that for no readings it is `None`.
#[verifier::external_body]
fn show_quality(quality: &Option<(String, String)>) -> (text: String)
    ensures
        text@ == quality_text(
            match quality {
                Some((snr, rssi)) => Some((snr@, rssi@)),
                None => None,
            },
        ),
        quality is None ==> text@ == "None"@,
{
    format!("{:?}", quality)
}

/// Puts the answer together from the two texts.
pub fn pong_line(payload: &str, quality: &str) -> (text: String)
    ensures
        text@ == pong_text(payload@, quality@),
{
    let mut text = String::from_str("Pong ");
    text.append(payload);
    text.append(", ");
    text.append(quality);
    text
}

/// Makes the answer to a received frame.
pub fn pong_message(frame: &ReceivedFrames) -> (text: String)
    ensures
        text@ == pong_text(lossy_text(frame@.payload), quality_text(frame@.quality)),
        frame@.quality is None && vstd::utf8::valid_utf8(frame@.payload) ==> text@ == pong_text(
            vstd::utf8::decode_utf8(frame@.payload),
            "None"@,
        ),
{
    let payload = read_lossy(frame.0.as_slice());
    let quality = show_quality(&frame.1);
    pong_line(payload.as_str(), quality.as_str())
}

} // verus!
