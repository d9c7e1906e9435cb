use lorapipe::packet::{absorb_frame, open_packet, wants_frame};
use lorapipe::turn::{choose_turn, defer, Turn, FLAG_FINAL, FLAG_MORE, FLAG_YIELD};

#[test]
fn open_packet_puts_the_leftover_first() {
    let mut leftover = vec![1, 2];
    let body = open_packet(&mut leftover, vec![3, 4, 5], 7);
    assert_eq!(body, vec![1, 2, 3, 4, 5]);
    assert!(leftover.is_empty());
}

#[test]
fn open_packet_cuts_at_the_limit() {
    let mut leftover = vec![];
    let body = open_packet(&mut leftover, vec![1, 2, 3, 4, 5, 6, 7, 8], 7);
    assert_eq!(body, vec![1, 2, 3, 4, 5, 6, 7]);
    assert_eq!(leftover, vec![8]);

    let mut leftover = vec![1, 2, 3];
    let body = open_packet(&mut leftover, vec![4, 5, 6], 4);
    assert_eq!(body, vec![1, 2, 3, 4]);
    assert_eq!(leftover, vec![5, 6]);
}

#[test]
fn open_packet_of_exactly_the_limit_leaves_nothing() {
    let mut leftover = vec![];
    let body = open_packet(&mut leftover, vec![1, 2, 3, 4, 5, 6, 7], 7);
    assert_eq!(body, vec![1, 2, 3, 4, 5, 6, 7]);
    assert!(leftover.is_empty());
}

#[test]
fn open_packet_with_no_room_leaves_everything() {
    let mut leftover = vec![1];
    let body = open_packet(&mut leftover, vec![2, 3], 0);
    assert!(body.is_empty());
    assert_eq!(leftover, vec![1, 2, 3]);
}

#[test]
fn open_packet_keeps_a_long_leftover_for_several_packets() {
    let mut leftover = vec![];
    let body = open_packet(&mut leftover, (0..20).collect(), 7);
    assert_eq!(body, (0..7).collect::<Vec<u8>>());
    assert_eq!(leftover.len(), 13);
    let body = open_packet(&mut leftover, vec![], 7);
    assert_eq!(body, (7..14).collect::<Vec<u8>>());
    let body = open_packet(&mut leftover, vec![], 7);
    assert_eq!(body, (14..20).collect::<Vec<u8>>());
    assert!(leftover.is_empty());
}

#[test]
fn wants_frame_while_there_is_room_and_no_leftover() {
    assert!(wants_frame(&vec![1, 2], &vec![], 7));
    assert!(wants_frame(&vec![], &vec![], 1));
    assert!(!wants_frame(&vec![1, 2, 3, 4, 5, 6, 7], &vec![], 7));
    assert!(!wants_frame(&vec![1, 2], &vec![3], 7));
    assert!(!wants_frame(&vec![], &vec![], 0));
}

#[test]
fn absorb_frame_packing_fills_up_and_cuts() {
    let mut body = vec![1, 2, 3];
    let mut leftover = vec![];
    absorb_frame(&mut body, &mut leftover, vec![4, 5, 6], 5, true);
    assert_eq!(body, vec![1, 2, 3, 4, 5]);
    assert_eq!(leftover, vec![6]);

    let mut body = vec![1];
    let mut leftover = vec![];
    absorb_frame(&mut body, &mut leftover, vec![2, 3], 5, true);
    assert_eq!(body, vec![1, 2, 3]);
    assert!(leftover.is_empty());
}

#[test]
fn absorb_frame_without_packing_keeps_the_frame_whole() {
    let mut body = vec![1, 2, 3];
    let mut leftover = vec![];
    absorb_frame(&mut body, &mut leftover, vec![4, 5, 6], 5, false);
    assert_eq!(body, vec![1, 2, 3]);
    assert_eq!(leftover, vec![4, 5, 6]);

    let mut body = vec![1, 2, 3];
    let mut leftover = vec![];
    absorb_frame(&mut body, &mut leftover, vec![4, 5], 5, false);
    assert_eq!(body, vec![1, 2, 3, 4, 5]);
    assert!(leftover.is_empty());

    let mut body = vec![1, 2, 3];
    let mut leftover = vec![];
    absorb_frame(&mut body, &mut leftover, vec![], 5, false);
    assert_eq!(body, vec![1, 2, 3]);
    assert!(leftover.is_empty());
}

#[test]
fn absorb_frame_near_the_largest_length_does_not_overflow() {
    let mut body = vec![1];
    let mut leftover = vec![];
    absorb_frame(&mut body, &mut leftover, vec![2, 3], usize::MAX, false);
    assert_eq!(body, vec![1, 2, 3]);
}

#[test]
fn flags_have_their_wire_values() {
    assert_eq!(FLAG_FINAL, 0);
    assert_eq!(FLAG_MORE, 1);
    assert_eq!(FLAG_YIELD, 2);
}

#[test]
fn last_packet_is_final_and_ends_the_slot() {
    assert_eq!(
        choose_turn(false, Some(500), Some(700), None, 1000, 100),
        Turn { flag: 0, txdelay: None, txslotend: None }
    );
    assert_eq!(
        choose_turn(false, None, None, Some(9), 1000, 100),
        Turn { flag: 0, txdelay: Some(9), txslotend: None }
    );
}

#[test]
fn more_to_send_opens_a_slot() {
    assert_eq!(
        choose_turn(true, Some(500), None, None, 1000, 100),
        Turn { flag: 1, txdelay: None, txslotend: Some(600) }
    );
    assert_eq!(
        choose_turn(true, None, None, None, 1000, 100),
        Turn { flag: 1, txdelay: None, txslotend: None }
    );
}

#[test]
fn slot_holds_until_the_time_is_past_its_end() {
    assert_eq!(
        choose_turn(true, Some(500), Some(600), None, 1000, 600),
        Turn { flag: 1, txdelay: None, txslotend: Some(600) }
    );
    assert_eq!(
        choose_turn(true, Some(500), Some(600), None, 1000, 601),
        Turn { flag: 2, txdelay: Some(1601), txslotend: None }
    );
    // A slot that is running ends even where slots are no longer configured.
    assert_eq!(
        choose_turn(true, None, Some(600), None, 1000, 601),
        Turn { flag: 2, txdelay: Some(1601), txslotend: None }
    );
}

#[test]
fn deadlines_reach_the_end_of_the_clock() {
    assert_eq!(
        choose_turn(true, Some(1), Some(0), None, 5, u64::MAX - 5),
        Turn { flag: 2, txdelay: Some(u64::MAX), txslotend: None }
    );
    assert_eq!(defer(1, 5, u64::MAX - 5), Some(u64::MAX));
}

#[test]
fn only_the_announcement_of_more_defers() {
    assert_eq!(defer(0, 1000, 50), None);
    assert_eq!(defer(1, 1000, 50), Some(1050));
    assert_eq!(defer(2, 1000, 50), None);
    assert_eq!(defer(3, 1000, 50), None);
    assert_eq!(defer(255, 1000, 50), None);
}
