use lorapipe::error::LoraError;
use lorapipe::ser::{frame_line, strip_line};
use lorapipe::wire::{is_text, read_packet, reports_packet, starts_with, tx_line};

#[test]
fn tx_line_holds_flag_and_payload_in_lowercase_hex() {
    assert_eq!(tx_line(0, &vec![0xAA, 0xBB, 0xCC]), "radio tx 00aabbcc");
    assert_eq!(tx_line(1, &vec![]), "radio tx 01");
    assert_eq!(tx_line(2, &vec![0x00, 0x0f, 0xf0, 0xff, 0x10]), "radio tx 02000ff0ff10");
    assert_eq!(tx_line(0xfe, &vec![0x7f]), "radio tx fe7f");
}

#[test]
fn every_byte_survives_the_hex_round_trip() {
    let all: Vec<u8> = (0..=255).collect();
    let command = tx_line(7, &all);
    assert_eq!(command.len(), "radio tx ".len() + 2 * 257);
    let report = format!("radio_rx  {}", &command["radio tx ".len()..]);
    assert!(reports_packet(&report));
    let mut packet = vec![7u8];
    packet.extend(&all);
    assert_eq!(read_packet(&report), Ok(packet));
}

#[test]
fn read_packet_takes_digits_of_either_case() {
    assert_eq!(
        read_packet(&"radio_rx  0aB1Cdef".to_string()),
        Ok(vec![0x0a, 0xb1, 0xcd, 0xef])
    );
    assert_eq!(read_packet(&"radio_rx  00".to_string()), Ok(vec![0]));
}

#[test]
fn read_packet_starts_at_byte_offset_ten() {
    assert_eq!(read_packet(&"0123456789abcd".to_string()), Ok(vec![0xab, 0xcd]));
    // Two bytes of one character before the offset: the text starts in it.
    assert_eq!(
        read_packet(&"radio_rx \u{e9}01aa".to_string()),
        Err(LoraError::Protocol("Error with hex decoding".to_string()))
    );
    assert_eq!(read_packet(&"12345678\u{e9}01aa".to_string()), Ok(vec![0x01, 0xaa]));
}

#[test]
fn read_packet_refuses_what_is_not_hex() {
    let broken = Err(LoraError::Protocol("Error with hex decoding".to_string()));
    assert_eq!(read_packet(&"radio_rx  0".to_string()), broken);
    assert_eq!(read_packet(&"radio_rx  012".to_string()), broken);
    assert_eq!(read_packet(&"radio_rx  0g".to_string()), broken);
    assert_eq!(read_packet(&"radio_rx  01 2".to_string()), broken);
    assert_eq!(read_packet(&"radio_rx  ".to_string()), broken);
    assert_eq!(read_packet(&"radio_rx".to_string()), broken);
    assert_eq!(read_packet(&"".to_string()), broken);
    assert_eq!(read_packet(&"radio_rx  01\u{e9}".to_string()), broken);
}

#[test]
fn reports_packet_looks_at_the_start_of_the_line() {
    assert!(reports_packet(&"radio_rx  00".to_string()));
    assert!(reports_packet(&"radio_rx ".to_string()));
    assert!(reports_packet(&"radio_rx nonsense".to_string()));
    assert!(!reports_packet(&"radio_rx".to_string()));
    assert!(!reports_packet(&"radio_err".to_string()));
    assert!(!reports_packet(&" radio_rx  00".to_string()));
    assert!(!reports_packet(&"".to_string()));
    assert!(!reports_packet(&"ok".to_string()));
}

#[test]
fn starts_with_compares_bytes() {
    assert!(starts_with(b"abcdef", b"abc"));
    assert!(starts_with(b"abc", b"abc"));
    assert!(starts_with(b"abc", b""));
    assert!(starts_with(b"", b""));
    assert!(!starts_with(b"ab", b"abc"));
    assert!(!starts_with(b"abd", b"abc"));
    assert!(!starts_with(b"xbc", b"abc"));
}

#[test]
fn is_text_compares_the_whole_line() {
    assert!(is_text(&"ok".to_string(), "ok"));
    assert!(!is_text(&"ok\r".to_string(), "ok"));
    assert!(!is_text(&"o".to_string(), "ok"));
    assert!(!is_text(&"".to_string(), "ok"));
    assert!(is_text(&"".to_string(), ""));
}

#[test]
fn frame_line_appends_carriage_return_and_line_feed() {
    assert_eq!(frame_line("radio rx 0".to_string()), "radio rx 0\r\n");
    assert_eq!(frame_line(String::new()), "\r\n");
}

#[test]
fn strip_line_takes_off_the_end_of_line() {
    assert_eq!(strip_line("ok\r\n"), Ok("ok".to_string()));
    assert_eq!(strip_line("ok\n"), Ok("ok".to_string()));
    assert_eq!(strip_line("\r\n"), Ok(String::new()));
    assert_eq!(strip_line("\n"), Ok(String::new()));
    assert_eq!(strip_line("radio_rx  00ff\r\n"), Ok("radio_rx  00ff".to_string()));
    assert_eq!(strip_line(" a b \r\r\n"), Ok(" a b \r".to_string()));
    assert_eq!(strip_line("gr\u{fc}n\r\n"), Ok("gr\u{fc}n".to_string()));
}

#[test]
fn strip_line_refuses_input_without_line_feed() {
    let short = Err(LoraError::Protocol("Input line didn't end with newline".to_string()));
    assert_eq!(strip_line("ok"), short);
    assert_eq!(strip_line("ok\r"), short);
    assert_eq!(strip_line(""), short);
    assert_eq!(strip_line("ok\n "), short);
}

#[test]
fn framed_line_strips_back_to_itself() {
    for text in ["", "ok", "radio tx 00aabbcc", "sys get ver"] {
        assert_eq!(strip_line(&frame_line(text.to_string())), Ok(text.to_string()));
    }
}
