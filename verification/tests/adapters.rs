use lorapipe::kiss::{frame_chunk, KissSplitter, DATA, FEND};
use lorapipe::lorastik::ReceivedFrames;
use lorapipe::ping::{ping_message, pong_line, pong_message, INTERVAL};
use lorapipe::pipe::split_frames;

#[test]
fn kiss_constants() {
    assert_eq!(FEND, 0xC0);
    assert_eq!(DATA, 0x00);
}

#[test]
fn data_chunk_gets_its_delimiter_back() {
    assert_eq!(frame_chunk(&vec![0x00, 1, 2, 3, 0xC0]), Some(vec![0xC0, 0x00, 1, 2, 3, 0xC0]));
    assert_eq!(frame_chunk(&vec![0x00, 0xC0]), Some(vec![0xC0, 0x00, 0xC0]));
    assert_eq!(frame_chunk(&vec![0x00, 7]), Some(vec![0xC0, 0x00, 7]));
}

#[test]
fn other_chunks_are_dropped() {
    assert_eq!(frame_chunk(&vec![0xC0]), None);
    assert_eq!(frame_chunk(&vec![]), None);
    assert_eq!(frame_chunk(&vec![0x00]), None);
    assert_eq!(frame_chunk(&vec![0x01, 0x20, 0xC0]), None);
    assert_eq!(frame_chunk(&vec![0x10, 1, 2, 0xC0]), None);
}

#[test]
fn splitter_finds_the_frames_of_a_stream() {
    let mut splitter = KissSplitter::new();
    let stream = [
        0xC0, 0x00, 1, 2, 0xC0, // a data frame
        0xC0, 0x01, 9, 0xC0, // a command for the TNC
        0xC0, 0x00, 3, 0xC0, // another data frame
        0xC0, 0xC0, // nothing
    ];
    assert_eq!(
        splitter.feed(&stream),
        vec![vec![0xC0, 0x00, 1, 2, 0xC0], vec![0xC0, 0x00, 3, 0xC0]]
    );
    assert_eq!(splitter.finish(), None);
}

#[test]
fn splitter_gives_the_same_frames_however_the_stream_is_cut() {
    let stream: Vec<u8> = vec![0xC0, 0x00, 1, 2, 3, 4, 0xC0, 0xC0, 0x00, 5, 0xC0, 0x00, 6];
    let mut whole = KissSplitter::new();
    let expected = whole.feed(&stream);
    assert_eq!(expected.len(), 2);
    for cut in 0..=stream.len() {
        let mut splitter = KissSplitter::new();
        let mut frames = splitter.feed(&stream[..cut]);
        frames.extend(splitter.feed(&stream[cut..]));
        assert_eq!(frames, expected);
        assert_eq!(splitter.finish(), Some(vec![0xC0, 0x00, 6]));
    }
}

#[test]
fn splitter_hands_out_an_open_data_chunk_at_the_end() {
    let mut splitter = KissSplitter::new();
    assert!(splitter.feed(&[0xC0, 0x00, 1, 2]).is_empty());
    assert_eq!(splitter.finish(), Some(vec![0xC0, 0x00, 1, 2]));

    let mut splitter = KissSplitter::new();
    assert!(splitter.feed(&[0xC0, 0x00]).is_empty());
    assert_eq!(splitter.finish(), None);

    let mut splitter = KissSplitter::new();
    assert!(splitter.feed(&[]).is_empty());
    assert_eq!(splitter.finish(), None);
}

#[test]
fn stream_is_cut_into_windows() {
    assert_eq!(
        split_frames(&[1, 2, 3, 4, 5, 6, 7], 3),
        vec![vec![1, 2, 3], vec![4, 5, 6], vec![7]]
    );
    assert_eq!(split_frames(&[1, 2, 3, 4, 5, 6], 3), vec![vec![1, 2, 3], vec![4, 5, 6]]);
    assert_eq!(split_frames(&[1, 2], 3), vec![vec![1, 2]]);
    assert_eq!(split_frames(&[1, 2, 3], 1), vec![vec![1], vec![2], vec![3]]);
    assert_eq!(split_frames(&[], 3), Vec::<Vec<u8>>::new());
    assert_eq!(split_frames(&[9], usize::MAX), vec![vec![9]]);
}

#[test]
fn windows_rejoin_to_the_stream() {
    let stream: Vec<u8> = (0..=255).collect();
    for size in [1, 2, 7, 81, 99, 255, 256, 1000] {
        let frames = split_frames(&stream, size);
        assert_eq!(frames.len(), (stream.len() + size - 1) / size);
        assert!(frames.iter().all(|f| !f.is_empty() && f.len() <= size));
        assert!(frames[..frames.len() - 1].iter().all(|f| f.len() == size));
        assert_eq!(frames.concat(), stream);
    }
}

#[test]
fn ping_counts_in_decimal() {
    assert_eq!(INTERVAL, 5);
    assert_eq!(ping_message(1), "Ping 1");
    assert_eq!(ping_message(0), "Ping 0");
    assert_eq!(ping_message(9), "Ping 9");
    assert_eq!(ping_message(10), "Ping 10");
    assert_eq!(ping_message(1234567890), "Ping 1234567890");
    assert_eq!(ping_message(u64::MAX), "Ping 18446744073709551615");
}

#[test]
fn pong_line_joins_the_two_texts() {
    assert_eq!(pong_line("Ping 1", "None"), "Pong Ping 1, None");
    assert_eq!(pong_line("", ""), "Pong , ");
}

#[test]
fn pong_answers_with_payload_and_quality() {
    assert_eq!(
        pong_message(&ReceivedFrames(b"Ping 7".to_vec(), None)),
        "Pong Ping 7, None"
    );
    assert_eq!(
        pong_message(&ReceivedFrames(
            b"Ping 8".to_vec(),
            Some(("9".to_string(), "-71".to_string()))
        )),
        "Pong Ping 8, Some((\"9\", \"-71\"))"
    );
    assert_eq!(
        pong_message(&ReceivedFrames("gr\u{fc}n".as_bytes().to_vec(), None)),
        "Pong gr\u{fc}n, None"
    );
}

#[test]
fn pong_replaces_what_is_not_text() {
    assert_eq!(
        pong_message(&ReceivedFrames(vec![b'a', 0xff, b'b'], None)),
        "Pong a\u{fffd}b, None"
    );
}
