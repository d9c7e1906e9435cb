use lorapipe::error::LoraError;
use lorapipe::lorastik::{assert_response, mkerror, LoraStik, ReceivedFrames};
use lorapipe::machine::{Action, Event, Goal, Phase, RadioMode, Resume, Stage};
use std::collections::VecDeque;

fn engine() -> LoraStik {
    LoraStik::new(false, 0, 1000, 8, false, 0)
}

fn line(text: &str) -> Event {
    Event::Line(text.to_string())
}

fn write(text: &str) -> Action {
    Action::Write(text.to_string())
}

fn strings(lines: &[&str]) -> Vec<String> {
    lines.iter().map(|l| l.to_string()).collect()
}

/// A driver with a scripted radio: it answers every command the way a
/// well-behaved radio does, takes blocks from `queue`, and stops when the
/// engine waits with nothing to wait for.
struct Rig {
    ls: LoraStik,
    queue: VecDeque<Vec<u8>>,
    inbox: VecDeque<String>,
    written: Vec<String>,
    delivered: Vec<ReceivedFrames>,
    slept: Vec<u64>,
    asked: Vec<Action>,
    now: u64,
}

impl Rig {
    fn new(ls: LoraStik) -> Rig {
        Rig {
            ls,
            queue: VecDeque::new(),
            inbox: VecDeque::new(),
            written: Vec::new(),
            delivered: Vec::new(),
            slept: Vec::new(),
            asked: Vec::new(),
            now: 0,
        }
    }

    fn answer(&mut self, command: &str) {
        if command.starts_with("radio tx ") {
            self.inbox.push_back("ok".to_string());
            self.inbox.push_back("radio_tx_ok".to_string());
        } else if command == "radio get snr" {
            self.inbox.push_back("8".to_string());
        } else if command == "radio get rssi" {
            self.inbox.push_back("-60".to_string());
        } else {
            self.inbox.push_back("ok".to_string());
        }
    }

    /// Performs `action` and every one after it until the engine waits and
    /// there is neither a line nor a block.
    fn run(&mut self, first: Action) {
        let mut action = first;
        for _ in 0..10_000 {
            self.asked.push(action.clone());
            let event = match action {
                Action::Write(command) => {
                    self.answer(&command);
                    self.written.push(command);
                    Event::Written
                }
                Action::ReadLine => Event::Line(self.inbox.pop_front().expect("a reply")),
                Action::TryReadLine => match self.inbox.pop_front() {
                    Some(l) => Event::Line(l),
                    None => Event::NoLine,
                },
                Action::ReadLineTimeout(ms) => match self.inbox.pop_front() {
                    Some(l) => Event::Line(l),
                    None => {
                        self.now += ms;
                        Event::Timeout
                    }
                },
                Action::PollTransmit => match self.queue.pop_front() {
                    Some(block) => Event::Frame(block),
                    None => Event::NoFrame,
                },
                Action::Sleep(ms) => {
                    self.slept.push(ms);
                    self.now += ms;
                    Event::Slept
                }
                Action::ProbeTransmit => Event::Backlog(!self.queue.is_empty()),
                Action::WaitAny => {
                    if let Some(l) = self.inbox.pop_front() {
                        Event::Line(l)
                    } else if !self.queue.is_empty() {
                        Event::TransmitReady
                    } else {
                        return;
                    }
                }
                Action::Deliver(frame) => {
                    self.delivered.push(frame);
                    Event::Delivered
                }
                Action::Done => return,
            };
            assert!(self.ls.clock_fits(self.now));
            action = self.ls.step(event, self.now).expect("the engine goes on");
        }
        panic!("the engine did not come to rest");
    }

    fn start(&mut self) {
        let first = self.ls.mainloop(self.now).unwrap();
        self.run(first);
    }

    /// A line arrives while the engine waits.
    fn hear(&mut self, text: &str) {
        assert_eq!(self.ls.phase(), Phase::Wait);
        let next = self.ls.step(line(text), self.now).unwrap();
        self.run(next);
    }

    /// A block is queued while the engine waits.
    fn enqueue(&mut self, block: Vec<u8>) {
        assert_eq!(self.ls.phase(), Phase::Wait);
        self.queue.push_back(block);
        let next = self.ls.step(Event::TransmitReady, self.now).unwrap();
        self.run(next);
    }
}

/// Drives a transmission from the pause before it to its completion line.
fn finish_send(ls: &mut LoraStik, waiting: bool, now: u64, expected: &str) -> Action {
    assert_eq!(ls.step(Event::Slept, now), Ok(Action::ProbeTransmit));
    assert_eq!(ls.step(Event::Backlog(waiting), now), Ok(write(expected)));
    assert_eq!(ls.step(Event::Written, now), Ok(Action::ReadLine));
    assert_eq!(ls.step(line("ok"), now), Ok(Action::ReadLine));
    ls.step(line("radio_tx_ok"), now).unwrap()
}

/// Brings a new engine to where it waits for a line or a transmit request.
fn waiting_engine(ls: &mut LoraStik) {
    assert_eq!(ls.mainloop(0), Ok(Action::PollTransmit));
    assert_eq!(ls.step(Event::NoFrame, 0), Ok(write("radio rx 0")));
    assert_eq!(ls.step(Event::Written, 0), Ok(Action::ReadLine));
    assert_eq!(ls.step(line("ok"), 0), Ok(Action::WaitAny));
}

#[test]
fn new_engine_is_idle_and_empty() {
    let ls = LoraStik::new(true, 120, 1000, 100, true, 0);
    assert_eq!(ls.phase(), Phase::Idle);
    assert_eq!(ls.stage(), Stage::Resting);
    assert_eq!(ls.radio_mode(), RadioMode::Idle);
    assert!(ls.extradata().is_empty());
    assert_eq!(ls.txdelay(), None);
    assert_eq!(ls.txslotend(), None);
}

#[test]
fn single_frame_is_sent_in_one_packet() {
    let mut ls = engine();
    assert_eq!(ls.mainloop(0), Ok(Action::PollTransmit));
    assert_eq!(ls.step(Event::Frame(vec![0xAA, 0xBB, 0xCC]), 0), Ok(Action::PollTransmit));
    assert_eq!(ls.step(Event::NoFrame, 0), Ok(Action::Sleep(0)));
    assert_eq!(ls.step(Event::Slept, 0), Ok(Action::ProbeTransmit));
    assert_eq!(ls.step(Event::Backlog(false), 0), Ok(write("radio tx 00aabbcc")));
    assert_eq!(ls.step(Event::Written, 0), Ok(Action::ReadLine));
    assert_eq!(ls.step(line("ok"), 0), Ok(Action::ReadLine));
    assert_eq!(ls.step(line("radio_tx_ok"), 0), Ok(Action::PollTransmit));
    assert!(ls.extradata().is_empty());
    assert_eq!(ls.radio_mode(), RadioMode::Idle);
}

#[test]
fn single_frame_costs_one_write_and_two_replies() {
    let mut rig = Rig::new(engine());
    rig.queue.push_back(vec![0xAA, 0xBB, 0xCC]);
    rig.start();
    assert_eq!(rig.written, strings(&["radio tx 00aabbcc", "radio rx 0"]));
    assert!(rig.inbox.is_empty());
    assert_eq!(rig.ls.phase(), Phase::Wait);
}

#[test]
fn long_frame_is_split_and_short_frame_joins_the_tail() {
    let mut ls = engine();
    assert_eq!(ls.mainloop(0), Ok(Action::PollTransmit));
    assert_eq!(
        ls.step(Event::Frame(vec![1, 2, 3, 4, 5, 6, 7, 8]), 0),
        Ok(Action::Sleep(0))
    );
    assert_eq!(ls.extradata(), &vec![8u8]);
    assert_eq!(
        finish_send(&mut ls, true, 0, "radio tx 0101020304050607"),
        Action::PollTransmit
    );
    assert_eq!(ls.phase(), Phase::SendPoll(Resume::Top));
    assert_eq!(ls.step(Event::Frame(vec![9]), 0), Ok(Action::PollTransmit));
    assert_eq!(ls.step(Event::NoFrame, 0), Ok(Action::Sleep(0)));
    assert_eq!(finish_send(&mut ls, false, 0, "radio tx 000809"), Action::PollTransmit);
}

#[test]
fn tail_goes_alone_when_next_frame_comes_late() {
    let mut rig = Rig::new(engine());
    rig.queue.push_back(vec![1, 2, 3, 4, 5, 6, 7, 8]);
    rig.start();
    assert_eq!(
        rig.written,
        strings(&["radio tx 0101020304050607", "radio tx 0008", "radio rx 0"])
    );
    rig.enqueue(vec![9]);
    assert_eq!(
        rig.written[3..],
        strings(&["radio rxstop", "radio tx 0009", "radio rx 0"])[..]
    );
}

#[test]
fn tail_is_flagged_more_while_a_frame_waits_that_was_not_polled() {
    let mut ls = engine();
    ls.mainloop(0).unwrap();
    ls.step(Event::Frame(vec![1, 2, 3, 4, 5, 6, 7, 8]), 0).unwrap();
    finish_send(&mut ls, false, 0, "radio tx 0101020304050607");
    assert_eq!(ls.step(Event::NoFrame, 0), Ok(Action::Sleep(0)));
    assert_eq!(finish_send(&mut ls, true, 0, "radio tx 0108"), Action::PollTransmit);
    assert_eq!(ls.step(Event::Frame(vec![9]), 0), Ok(Action::PollTransmit));
    assert_eq!(ls.step(Event::NoFrame, 0), Ok(Action::Sleep(0)));
    assert_eq!(finish_send(&mut ls, false, 0, "radio tx 0009"), Action::PollTransmit);
}

#[test]
fn payload_of_exactly_the_limit_fills_one_packet() {
    let mut ls = engine();
    ls.mainloop(0).unwrap();
    assert_eq!(
        ls.step(Event::Frame(vec![1, 2, 3, 4, 5, 6, 7]), 0),
        Ok(Action::Sleep(0))
    );
    assert!(ls.extradata().is_empty());
    assert_eq!(
        finish_send(&mut ls, false, 0, "radio tx 0001020304050607"),
        Action::PollTransmit
    );
    assert_eq!(ls.phase(), Phase::Poll);
}

#[test]
fn payload_of_the_packet_size_leaves_one_byte_for_a_second_packet() {
    let mut rig = Rig::new(engine());
    rig.queue.push_back(vec![0x11, 0x22, 0x33, 0x44, 0x55, 0x66, 0x77, 0x88]);
    rig.start();
    assert_eq!(
        rig.written,
        strings(&["radio tx 0111223344556677", "radio tx 0088", "radio rx 0"])
    );
    assert!(rig.ls.extradata().is_empty());
}

#[test]
fn empty_queue_arms_the_receiver_without_transmitting() {
    let mut ls = engine();
    assert_eq!(ls.mainloop(0), Ok(Action::PollTransmit));
    assert_eq!(ls.stage(), Stage::Listening);
    assert_eq!(ls.step(Event::NoFrame, 0), Ok(write("radio rx 0")));
    assert_eq!(ls.phase(), Phase::RxWrite(Goal::Wait));
    assert_eq!(ls.step(Event::Written, 0), Ok(Action::ReadLine));
    assert_eq!(ls.step(line("ok"), 0), Ok(Action::WaitAny));
    assert_eq!(ls.radio_mode(), RadioMode::Receiving);
    assert_eq!(ls.phase(), Phase::Wait);
}

#[test]
fn stray_error_before_ok_is_passed_over_once() {
    let mut ls = engine();
    ls.mainloop(0).unwrap();
    ls.step(Event::NoFrame, 0).unwrap();
    ls.step(Event::Written, 0).unwrap();
    assert_eq!(ls.step(line("radio_err"), 0), Ok(Action::ReadLine));
    assert_eq!(ls.step(line("ok"), 0), Ok(Action::WaitAny));

    let mut ls = engine();
    ls.mainloop(0).unwrap();
    ls.step(Event::NoFrame, 0).unwrap();
    ls.step(Event::Written, 0).unwrap();
    assert_eq!(ls.step(line("radio_err"), 0), Ok(Action::ReadLine));
    assert_eq!(
        ls.step(line("radio_err"), 0),
        Err(LoraError::Protocol(
            "Unexpected response: got radio_err, expected ok".to_string()
        ))
    );
}

#[test]
fn stray_error_before_ok_is_passed_over_when_transmitting() {
    let mut ls = engine();
    ls.mainloop(0).unwrap();
    ls.step(Event::Frame(vec![1]), 0).unwrap();
    ls.step(Event::NoFrame, 0).unwrap();
    ls.step(Event::Slept, 0).unwrap();
    assert_eq!(ls.step(Event::Backlog(false), 0), Ok(write("radio tx 0001")));
    assert_eq!(ls.step(Event::Written, 0), Ok(Action::ReadLine));
    assert_eq!(ls.step(line("radio_err"), 0), Ok(Action::ReadLine));
    assert_eq!(ls.step(line("ok"), 0), Ok(Action::ReadLine));
    assert_eq!(ls.step(line("anything"), 0), Ok(Action::PollTransmit));
}

#[test]
fn unexpected_reply_to_transmit_is_protocol_error() {
    let mut ls = engine();
    ls.mainloop(0).unwrap();
    ls.step(Event::Frame(vec![1]), 0).unwrap();
    ls.step(Event::NoFrame, 0).unwrap();
    ls.step(Event::Slept, 0).unwrap();
    ls.step(Event::Backlog(false), 0).unwrap();
    ls.step(Event::Written, 0).unwrap();
    assert_eq!(
        ls.step(line("busy"), 0),
        Err(LoraError::Protocol("Unexpected response: got busy, expected ok".to_string()))
    );
    assert_eq!(ls.phase(), Phase::Halted);
    assert_eq!(ls.step(line("ok"), 0), Err(LoraError::OutOfTurn));
}

#[test]
fn unexpected_reply_to_receive_is_protocol_error() {
    let mut ls = engine();
    ls.mainloop(0).unwrap();
    ls.step(Event::NoFrame, 0).unwrap();
    ls.step(Event::Written, 0).unwrap();
    assert_eq!(
        ls.step(line("invalid_param"), 0),
        Err(LoraError::Protocol(
            "Unexpected response: got invalid_param, expected ok".to_string()
        ))
    );
}

#[test]
fn closed_channel_is_fatal() {
    let mut ls = engine();
    ls.mainloop(0).unwrap();
    assert_eq!(ls.step(Event::Disconnected, 0), Err(LoraError::Disconnected));
    assert_eq!(ls.phase(), Phase::Halted);
    assert_eq!(ls.step(Event::NoFrame, 0), Err(LoraError::OutOfTurn));
}

#[test]
fn event_that_answers_nothing_is_out_of_turn() {
    let mut ls = engine();
    assert_eq!(ls.step(Event::Written, 0), Err(LoraError::OutOfTurn));

    let mut ls = engine();
    ls.mainloop(0).unwrap();
    assert_eq!(ls.step(Event::Slept, 0), Err(LoraError::OutOfTurn));

    let mut ls = engine();
    ls.mainloop(0).unwrap();
    assert_eq!(ls.mainloop(0), Err(LoraError::OutOfTurn));

    let mut ls = engine();
    ls.mainloop(0).unwrap();
    assert_eq!(ls.radiocfg(None), Err(LoraError::OutOfTurn));
}

#[test]
fn received_frame_is_delivered_without_its_flag() {
    let mut ls = engine();
    waiting_engine(&mut ls);
    assert_eq!(
        ls.step(line("radio_rx  00DEadbeef"), 7),
        Ok(Action::Deliver(ReceivedFrames(vec![0xde, 0xad, 0xbe, 0xef], None)))
    );
    assert_eq!(ls.txdelay(), None);
    assert_eq!(ls.radio_mode(), RadioMode::Idle);
    assert_eq!(ls.step(Event::Delivered, 7), Ok(Action::PollTransmit));
}

#[test]
fn frame_of_the_flag_alone_is_delivered_empty() {
    let mut ls = engine();
    waiting_engine(&mut ls);
    assert_eq!(
        ls.step(line("radio_rx  00"), 7),
        Ok(Action::Deliver(ReceivedFrames(vec![], None)))
    );
}

#[test]
fn received_frame_is_delivered_with_quality() {
    let mut ls = LoraStik::new(true, 0, 1000, 8, false, 0);
    waiting_engine(&mut ls);
    assert_eq!(ls.step(line("radio_rx  0168656c6c6f"), 1), Ok(write("radio get snr")));
    assert_eq!(ls.step(Event::Written, 2), Ok(Action::ReadLine));
    assert_eq!(ls.step(line("9"), 3), Ok(write("radio get rssi")));
    assert_eq!(ls.step(Event::Written, 4), Ok(Action::ReadLine));
    assert_eq!(
        ls.step(line("-71"), 5),
        Ok(Action::Deliver(ReceivedFrames(
            b"hello".to_vec(),
            Some(("9".to_string(), "-71".to_string()))
        )))
    );
    assert_eq!(ls.txdelay(), Some(1005));
}

#[test]
fn line_that_reports_no_packet_is_ignored() {
    let mut ls = engine();
    waiting_engine(&mut ls);
    assert_eq!(ls.step(line("radio_err"), 3), Ok(Action::PollTransmit));
    assert_eq!(ls.radio_mode(), RadioMode::Idle);

    let mut ls = engine();
    waiting_engine(&mut ls);
    assert_eq!(ls.step(line("radio_rx"), 3), Ok(Action::PollTransmit));
}

#[test]
fn unreadable_packet_is_protocol_error() {
    for bad in ["radio_rx  0", "radio_rx  zz", "radio_rx ", "radio_rx  ", "radio_rx 01aa"] {
        let mut ls = engine();
        waiting_engine(&mut ls);
        assert_eq!(
            ls.step(line(bad), 0),
            Err(LoraError::Protocol("Error with hex decoding".to_string())),
            "{:?}",
            bad
        );
        assert_eq!(ls.phase(), Phase::Halted);
    }
}

#[test]
fn announcement_of_more_holds_transmitting_back() {
    let mut rig = Rig::new(engine());
    rig.start();
    rig.now = 100;
    rig.hear("radio_rx  01aa");
    assert_eq!(rig.delivered, vec![ReceivedFrames(vec![0xaa], None)]);
    // The engine listened out the delay and waits again; nothing was sent.
    assert_eq!(rig.written, strings(&["radio rx 0", "radio rx 0"]));
    assert_eq!(rig.now, 1100);
    assert_eq!(rig.ls.txdelay(), None);
    assert_eq!(rig.ls.phase(), Phase::Wait);
}

#[test]
fn pending_block_waits_for_the_delay_to_pass() {
    let mut ls = engine();
    waiting_engine(&mut ls);
    assert_eq!(
        ls.step(line("radio_rx  01aa"), 100),
        Ok(Action::Deliver(ReceivedFrames(vec![0xaa], None)))
    );
    assert_eq!(ls.txdelay(), Some(1100));
    // A block is queued, but the engine only listens, for the rest of the delay.
    assert_eq!(ls.step(Event::Delivered, 150), Ok(write("radio rx 0")));
    assert_eq!(ls.phase(), Phase::RxWrite(Goal::Gate(950)));
    assert_eq!(ls.step(Event::Written, 150), Ok(Action::ReadLine));
    assert_eq!(ls.step(line("ok"), 160), Ok(Action::ReadLineTimeout(950)));
    assert_eq!(ls.step(Event::Timeout, 1100), Ok(Action::WaitAny));
    assert_eq!(ls.txdelay(), None);
    assert_eq!(ls.step(Event::TransmitReady, 1100), Ok(write("radio rxstop")));
    assert_eq!(ls.step(Event::Written, 1100), Ok(Action::ReadLine));
    assert_eq!(ls.step(line("ok"), 1100), Ok(Action::PollTransmit));
    assert_eq!(ls.step(Event::Frame(vec![5]), 1100), Ok(Action::PollTransmit));
}

#[test]
fn final_packet_lifts_the_delay() {
    let mut ls = engine();
    waiting_engine(&mut ls);
    ls.step(line("radio_rx  01aa"), 100).unwrap();
    assert_eq!(ls.step(Event::Delivered, 100), Ok(write("radio rx 0")));
    ls.step(Event::Written, 100).unwrap();
    assert_eq!(ls.step(line("ok"), 100), Ok(Action::ReadLineTimeout(1000)));
    assert_eq!(
        ls.step(line("radio_rx  00bb"), 300),
        Ok(Action::Deliver(ReceivedFrames(vec![0xbb], None)))
    );
    assert_eq!(ls.txdelay(), None);
    assert_eq!(ls.step(Event::Delivered, 300), Ok(Action::PollTransmit));
}

#[test]
fn delay_that_has_run_out_is_cleared_at_the_top() {
    let mut ls = engine();
    waiting_engine(&mut ls);
    ls.step(line("radio_rx  01aa"), 100).unwrap();
    assert_eq!(ls.txdelay(), Some(1100));
    assert_eq!(ls.step(Event::Delivered, 1100), Ok(Action::PollTransmit));
    assert_eq!(ls.txdelay(), None);
}

#[test]
fn yielded_floor_is_taken_at_once() {
    let mut ls = engine();
    waiting_engine(&mut ls);
    assert_eq!(
        ls.step(line("radio_rx  02bb"), 5),
        Ok(Action::Deliver(ReceivedFrames(vec![0xbb], None)))
    );
    assert_eq!(ls.phase(), Phase::Deliver(Resume::Top, true));
    assert_eq!(ls.stage(), Stage::Hearing);
    assert_eq!(ls.step(Event::Delivered, 5), Ok(Action::PollTransmit));
    assert_eq!(ls.stage(), Stage::Sending);
    assert_eq!(ls.step(Event::NoFrame, 5), Ok(Action::Sleep(0)));
    assert_eq!(finish_send(&mut ls, false, 5, "radio tx 00"), Action::PollTransmit);
}

#[test]
fn yielded_floor_is_taken_before_the_receiver_is_armed_again() {
    let mut rig = Rig::new(LoraStik::new(false, 0, 1000, 8, false, 500));
    rig.start();
    rig.queue.push_back(vec![1, 2]);
    let next = rig.ls.step(line("radio_rx  02bb"), 0).unwrap();
    rig.run(next);
    assert_eq!(rig.written, strings(&["radio rx 0", "radio tx 000102", "radio rx 0"]));
}

#[test]
fn packet_that_races_the_stop_is_delivered() {
    let mut ls = engine();
    waiting_engine(&mut ls);
    assert_eq!(ls.step(Event::TransmitReady, 0), Ok(write("radio rxstop")));
    assert_eq!(ls.radio_mode(), RadioMode::Idle);
    assert_eq!(ls.step(Event::Written, 0), Ok(Action::ReadLine));
    assert_eq!(
        ls.step(line("radio_rx  00ff"), 0),
        Ok(Action::Deliver(ReceivedFrames(vec![0xff], None)))
    );
    assert_eq!(ls.step(Event::Delivered, 0), Ok(Action::ReadLine));
    assert_eq!(ls.phase(), Phase::StopTail);
    assert_eq!(ls.step(line("ok"), 0), Ok(Action::PollTransmit));
}

#[test]
fn quality_is_not_read_for_a_packet_that_races_the_stop() {
    let mut ls = LoraStik::new(true, 0, 1000, 8, false, 0);
    waiting_engine(&mut ls);
    ls.step(Event::TransmitReady, 0).unwrap();
    ls.step(Event::Written, 0).unwrap();
    assert_eq!(
        ls.step(line("radio_rx  00ff"), 0),
        Ok(Action::Deliver(ReceivedFrames(vec![0xff], None)))
    );
}

#[test]
fn stop_tolerates_an_error_in_place_of_ok() {
    let mut ls = engine();
    waiting_engine(&mut ls);
    ls.step(Event::TransmitReady, 0).unwrap();
    ls.step(Event::Written, 0).unwrap();
    assert_eq!(ls.step(line("radio_err"), 0), Ok(Action::PollTransmit));
}

#[test]
fn yielding_packet_that_races_the_stop_is_answered_before_the_stop_closes() {
    let mut ls = engine();
    waiting_engine(&mut ls);
    ls.step(Event::TransmitReady, 0).unwrap();
    ls.step(Event::Written, 0).unwrap();
    ls.step(line("radio_rx  02ff"), 0).unwrap();
    assert_eq!(ls.step(Event::Delivered, 0), Ok(Action::PollTransmit));
    assert_eq!(ls.step(Event::Frame(vec![7]), 0), Ok(Action::PollTransmit));
    assert_eq!(ls.step(Event::NoFrame, 0), Ok(Action::Sleep(0)));
    assert_eq!(finish_send(&mut ls, false, 0, "radio tx 0007"), Action::ReadLine);
    assert_eq!(ls.phase(), Phase::StopTail);
    assert_eq!(ls.step(line("ok"), 0), Ok(Action::PollTransmit));
}

#[test]
fn slot_opens_with_the_first_packet_that_announces_more() {
    let mut ls = LoraStik::new(false, 120, 1000, 8, true, 500);
    ls.mainloop(0).unwrap();
    assert_eq!(ls.step(Event::Frame(vec![1; 10]), 0), Ok(Action::Sleep(120)));
    assert_eq!(ls.step(Event::Slept, 120), Ok(Action::ProbeTransmit));
    assert_eq!(
        ls.step(Event::Backlog(false), 120),
        Ok(write("radio tx 0101010101010101"))
    );
    assert_eq!(ls.txslotend(), Some(620));
    assert_eq!(ls.txdelay(), None);
}

#[test]
fn sender_yields_once_its_slot_is_over() {
    let mut ls = LoraStik::new(false, 0, 1000, 4, true, 500);
    ls.mainloop(0).unwrap();
    ls.step(Event::Frame(vec![1, 2, 3, 4, 5, 6, 7, 8, 9, 10]), 0).unwrap();
    assert_eq!(finish_send(&mut ls, false, 0, "radio tx 01010203"), Action::Sleep(0));
    assert_eq!(ls.txslotend(), Some(500));
    // Still within the slot: more is announced.
    assert_eq!(finish_send(&mut ls, false, 500, "radio tx 01040506"), Action::Sleep(0));
    assert_eq!(ls.txslotend(), Some(500));
    // Past the slot: the engine yields and holds back itself.
    assert_eq!(ls.step(Event::Slept, 501), Ok(Action::ProbeTransmit));
    assert_eq!(ls.step(Event::Backlog(false), 501), Ok(write("radio tx 02070809")));
    assert_eq!(ls.txslotend(), None);
    assert_eq!(ls.txdelay(), Some(1501));
    assert_eq!(ls.extradata(), &vec![10u8]);
    ls.step(Event::Written, 501).unwrap();
    ls.step(line("ok"), 501).unwrap();
    // It listens instead of sending the rest.
    assert_eq!(ls.step(line("radio_tx_ok"), 600), Ok(write("radio rx 0")));
    assert_eq!(ls.phase(), Phase::RxWrite(Goal::Gate(901)));
}

#[test]
fn last_packet_ends_the_slot() {
    let mut ls = LoraStik::new(false, 0, 1000, 4, true, 500);
    ls.mainloop(0).unwrap();
    ls.step(Event::Frame(vec![1, 2, 3, 4]), 0).unwrap();
    finish_send(&mut ls, false, 0, "radio tx 01010203");
    assert_eq!(ls.txslotend(), Some(500));
    assert_eq!(ls.step(Event::NoFrame, 0), Ok(Action::Sleep(0)));
    finish_send(&mut ls, false, 0, "radio tx 0004");
    assert_eq!(ls.txslotend(), None);
}

#[test]
fn without_a_slot_the_sender_never_yields() {
    let mut ls = LoraStik::new(false, 0, 1000, 4, true, 0);
    ls.mainloop(0).unwrap();
    ls.step(Event::Frame(vec![1, 2, 3, 4, 5, 6, 7]), 0).unwrap();
    finish_send(&mut ls, false, 0, "radio tx 01010203");
    assert_eq!(ls.txslotend(), None);
    finish_send(&mut ls, false, 1_000_000, "radio tx 01040506");
    assert_eq!(ls.txdelay(), None);
}

#[test]
fn packing_fills_each_packet_across_frames() {
    let mut rig = Rig::new(LoraStik::new(false, 0, 1000, 5, true, 0));
    rig.queue.push_back(vec![1, 2, 3]);
    rig.queue.push_back(vec![4, 5, 6]);
    rig.queue.push_back(vec![7]);
    rig.start();
    assert_eq!(
        rig.written,
        strings(&["radio tx 0101020304", "radio tx 00050607", "radio rx 0"])
    );
}

#[test]
fn without_packing_a_frame_that_does_not_fit_waits_whole() {
    let mut rig = Rig::new(LoraStik::new(false, 0, 1000, 5, false, 0));
    rig.queue.push_back(vec![1, 2, 3]);
    rig.queue.push_back(vec![4, 5, 6]);
    rig.queue.push_back(vec![7]);
    rig.start();
    assert_eq!(
        rig.written,
        strings(&["radio tx 01010203", "radio tx 0004050607", "radio rx 0"])
    );
}

#[test]
fn leftover_stays_within_one_packet_for_frames_that_fit() {
    for pack in [false, true] {
        let mut ls = LoraStik::new(false, 0, 1000, 5, pack, 0);
        ls.mainloop(0).unwrap();
        ls.step(Event::Frame(vec![1, 2, 3]), 0).unwrap();
        ls.step(Event::Frame(vec![4, 5, 6, 7]), 0).unwrap();
        assert!(ls.extradata().len() <= 4);
    }
}

#[test]
fn leftover_outgrows_one_packet_when_a_frame_is_too_long() {
    let mut ls = LoraStik::new(false, 0, 1000, 8, false, 0);
    ls.mainloop(0).unwrap();
    ls.step(Event::Frame(vec![1, 2, 3]), 0).unwrap();
    assert_eq!(ls.step(Event::Frame(vec![9; 8]), 0), Ok(Action::Sleep(0)));
    assert_eq!(ls.extradata().len(), 8);
}

#[test]
fn every_queued_byte_is_sent_once_and_in_order() {
    for pack in [false, true] {
        let mut rig = Rig::new(LoraStik::new(false, 0, 1000, 6, pack, 0));
        let blocks: Vec<Vec<u8>> = vec![
            (0..13).collect(),
            vec![],
            vec![100, 101],
            (20..25).collect(),
            vec![200],
            (30..47).collect(),
        ];
        for block in &blocks {
            rig.queue.push_back(block.clone());
        }
        rig.start();
        let mut sent: Vec<u8> = Vec::new();
        for command in &rig.written {
            if let Some(text) = command.strip_prefix("radio tx ") {
                assert!(text.len() <= 2 * 6);
                sent.extend(hex::decode(&text[2..]).unwrap());
            }
        }
        assert_eq!(sent, blocks.concat());
        assert!(rig.ls.extradata().is_empty());
    }
}

#[test]
fn two_engines_carry_the_stream_across_a_bridge() {
    for pack in [false, true] {
        let mut sender = Rig::new(LoraStik::new(false, 0, 1000, 6, pack, 0));
        let blocks: Vec<Vec<u8>> = vec![vec![1, 2, 3], vec![4, 5, 6, 7, 8, 9, 10], vec![11]];
        for block in &blocks {
            sender.queue.push_back(block.clone());
        }
        sender.start();

        let mut receiver = Rig::new(LoraStik::new(false, 0, 1000, 6, pack, 0));
        receiver.start();
        for command in &sender.written {
            if let Some(text) = command.strip_prefix("radio tx ") {
                receiver.hear(&format!("radio_rx  {}", text));
            }
        }
        let got: Vec<u8> = receiver.delivered.iter().flat_map(|f| f.0.clone()).collect();
        assert_eq!(got, blocks.concat());
        // The receiver itself never transmitted: it was never yielded to.
        assert!(receiver.written.iter().all(|c| c == "radio rx 0"));
    }
}

#[test]
fn without_packing_frames_that_fit_arrive_whole() {
    let mut sender = Rig::new(LoraStik::new(false, 0, 1000, 6, false, 0));
    let blocks: Vec<Vec<u8>> = vec![vec![1, 2, 3], vec![4, 5, 6, 7], vec![8, 9, 10, 11, 12]];
    for block in &blocks {
        sender.queue.push_back(block.clone());
    }
    sender.start();
    let mut receiver = Rig::new(engine());
    receiver.start();
    for command in &sender.written {
        if let Some(text) = command.strip_prefix("radio tx ") {
            receiver.hear(&format!("radio_rx  {}", text));
        }
    }
    let got: Vec<Vec<u8>> = receiver.delivered.iter().map(|f| f.0.clone()).collect();
    assert_eq!(got, blocks);
}

#[test]
fn configuration_sends_the_default_lines() {
    let mut rig = Rig::new(engine());
    let first = rig.ls.radiocfg(None).unwrap();
    assert_eq!(first, write("INVALIDCOMMAND"));
    rig.inbox.push_back("invalid_param".to_string());
    rig.run(first);
    assert_eq!(
        rig.written,
        strings(&[
            "INVALIDCOMMAND",
            "sys get ver",
            "mac reset",
            "mac pause",
            "radio get mod",
            "radio get freq",
            "radio get pwr",
            "radio get sf",
            "radio get bw",
            "radio get cr",
            "radio get wdt",
            "radio set pwr 20",
            "radio set sf sf12",
            "radio set bw 125",
            "radio set cr 4/5",
            "radio set wdt 60000",
        ])
    );
    assert_eq!(rig.slept, vec![1000]);
    assert_eq!(rig.ls.phase(), Phase::Idle);
    assert!(rig.inbox.is_empty());
}

#[test]
fn configuration_skips_empty_lines() {
    let mut rig = Rig::new(engine());
    let first = rig
        .ls
        .radiocfg(Some(strings(&["", "radio set pwr 10", "", "", "radio set sf sf7", ""])))
        .unwrap();
    rig.run(first);
    assert_eq!(
        rig.written,
        strings(&["INVALIDCOMMAND", "radio set pwr 10", "radio set sf sf7"])
    );
    assert_eq!(rig.ls.phase(), Phase::Idle);
}

#[test]
fn configuration_without_lines_is_done_after_the_probe() {
    let mut ls = engine();
    assert_eq!(ls.radiocfg(Some(vec![])), Ok(write("INVALIDCOMMAND")));
    assert_eq!(ls.stage(), Stage::Configuring);
    assert_eq!(ls.step(Event::Written, 0), Ok(Action::Sleep(1000)));
    assert_eq!(ls.step(Event::Slept, 0), Ok(Action::TryReadLine));
    assert_eq!(ls.step(line("invalid_param"), 0), Ok(Action::TryReadLine));
    assert_eq!(ls.step(line("whatever"), 0), Ok(Action::TryReadLine));
    assert_eq!(ls.step(Event::NoLine, 0), Ok(Action::Done));
    assert_eq!(ls.phase(), Phase::Idle);
    assert_eq!(ls.mainloop(0), Ok(Action::PollTransmit));
}

#[test]
fn configuration_fails_on_invalid_param() {
    let mut ls = engine();
    assert_eq!(
        ls.radiocfg(Some(strings(&["radio set pwr 20", "bogus"]))),
        Ok(write("INVALIDCOMMAND"))
    );
    assert_eq!(ls.step(Event::Written, 0), Ok(Action::Sleep(1000)));
    assert_eq!(ls.step(Event::Slept, 0), Ok(Action::TryReadLine));
    assert_eq!(ls.step(line("invalid_param"), 0), Ok(Action::TryReadLine));
    assert_eq!(ls.step(Event::NoLine, 0), Ok(write("radio set pwr 20")));
    assert_eq!(ls.step(Event::Written, 0), Ok(Action::ReadLine));
    assert_eq!(ls.step(line("ok"), 0), Ok(write("bogus")));
    assert_eq!(ls.step(Event::Written, 0), Ok(Action::ReadLine));
    assert_eq!(
        ls.step(line("invalid_param"), 0),
        Err(LoraError::Protocol(
            "Bad response from radio during initialization".to_string()
        ))
    );
    assert_eq!(ls.phase(), Phase::Halted);
}

#[test]
fn configuration_accepts_any_other_reply() {
    let mut ls = engine();
    ls.radiocfg(Some(strings(&["sys get ver"]))).unwrap();
    ls.step(Event::Written, 0).unwrap();
    ls.step(Event::Slept, 0).unwrap();
    ls.step(Event::NoLine, 0).unwrap();
    ls.step(Event::Written, 0).unwrap();
    assert_eq!(ls.step(line("RN2903 1.0.3"), 0), Ok(Action::Done));
}

#[test]
fn clock_fits_until_a_deadline_would_overflow() {
    let ls = LoraStik::new(false, 0, 1000, 8, false, 5000);
    assert!(ls.clock_fits(0));
    assert!(ls.clock_fits(u64::MAX - 5000));
    assert!(!ls.clock_fits(u64::MAX - 4999));
    let ls = LoraStik::new(false, 0, 1000, 8, false, 0);
    assert!(ls.clock_fits(u64::MAX - 1000));
    assert!(!ls.clock_fits(u64::MAX - 999));
}

#[test]
fn mkerror_makes_a_protocol_error() {
    assert_eq!(mkerror("boom"), LoraError::Protocol("boom".to_string()));
    assert_eq!(mkerror("boom").message(), "boom");
    assert_eq!(LoraError::Disconnected.message(), "Channel disconnected");
    assert_eq!(LoraError::OutOfTurn.message(), "Event out of turn");
}

#[test]
fn assert_response_compares_the_whole_text() {
    assert_eq!(assert_response("ok".to_string(), "ok".to_string()), Ok(()));
    assert_eq!(
        assert_response("ok ".to_string(), "ok".to_string()),
        Err(LoraError::Protocol("Unexpected response: got ok , expected ok".to_string()))
    );
    assert_eq!(
        assert_response("".to_string(), "ok".to_string()),
        Err(LoraError::Protocol("Unexpected response: got , expected ok".to_string()))
    );
}

#[test]
fn every_command_has_its_reply_read_before_the_next() {
    let mut rig = Rig::new(LoraStik::new(true, 10, 1000, 6, true, 300));
    let first = rig.ls.radiocfg(None).unwrap();
    rig.run(first);
    for block in [vec![1u8; 20], vec![2; 3], vec![3; 9]] {
        rig.queue.push_back(block);
    }
    rig.start();
    rig.hear("radio_rx  0041");
    rig.hear("radio_err");
    rig.hear("radio_rx  0142");
    rig.enqueue(vec![4; 4]);
    rig.hear("radio_rx  0243");
    assert!(rig.written.len() > 30);
    assert!(rig.inbox.is_empty());
    let mut owed = 0;
    for pair in rig.asked.windows(2) {
        match &pair[0] {
            Action::Write(command) if command == "INVALIDCOMMAND" => {
                assert_eq!(pair[1], Action::Sleep(1000));
            }
            Action::Write(command) => {
                assert_eq!(owed, 0, "{:?} written in debt", command);
                owed = if command.starts_with("radio tx ") { 2 } else { 1 };
                assert_eq!(pair[1], Action::ReadLine);
            }
            Action::ReadLine => owed -= 1,
            _ => {}
        }
    }
}

#[test]
fn smallest_packet_carries_one_byte_at_a_time() {
    let mut rig = Rig::new(LoraStik::new(false, 0, 1000, 2, false, 0));
    rig.queue.push_back(vec![1, 2, 3]);
    rig.start();
    assert_eq!(
        rig.written,
        strings(&["radio tx 0101", "radio tx 0102", "radio tx 0003", "radio rx 0"])
    );
    assert!(rig.ls.extradata().is_empty());
}

#[test]
fn held_back_engine_writes_only_to_listen_and_to_ask_quality() {
    let mut rig = Rig::new(LoraStik::new(true, 0, 1000, 8, false, 0));
    rig.start();
    rig.queue.push_back(vec![1, 2, 3]);
    let before = rig.written.len();
    let next = rig.ls.step(line("radio_rx  01aa"), 0).unwrap();
    rig.run(next);
    let delayed: Vec<&String> = rig.written[before..]
        .iter()
        .take_while(|c| !c.starts_with("radio rxstop"))
        .collect();
    assert_eq!(delayed.len(), 3);
    assert!(delayed
        .iter()
        .all(|c| *c == "radio rx 0" || *c == "radio get snr" || *c == "radio get rssi"));
    assert_eq!(rig.written.last().unwrap(), "radio rx 0");
    assert!(rig.written.contains(&"radio tx 00010203".to_string()));
}
