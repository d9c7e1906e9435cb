use lorapipe::error::LoraError;
use lorapipe::link::{
    backlog, block_polled, frame_sent, line_awaited, line_event, line_polled, woken, Awaited, Link,
    Polled, QUEUE_DEPTH,
};
use lorapipe::lorastik::{LoraStik, ReceivedFrames};
use lorapipe::machine::{Action, Event};

#[test]
fn lines_are_read_in_the_order_sent() {
    let (link, ports) = Link::connect();
    ports.lines.send("ok".to_string()).unwrap();
    ports.lines.send("radio_tx_ok".to_string()).unwrap();
    assert_eq!(link.perform(Action::ReadLine), Ok(Event::Line("ok".to_string())));
    assert_eq!(
        link.perform(Action::TryReadLine),
        Ok(Event::Line("radio_tx_ok".to_string()))
    );
    assert_eq!(link.perform(Action::TryReadLine), Ok(Event::NoLine));
}

#[test]
fn timed_read_gives_the_line_or_the_timeout() {
    let (link, ports) = Link::connect();
    assert_eq!(link.perform(Action::ReadLineTimeout(5)), Ok(Event::Timeout));
    ports.lines.send("radio_err".to_string()).unwrap();
    assert_eq!(
        link.perform(Action::ReadLineTimeout(5)),
        Ok(Event::Line("radio_err".to_string()))
    );
}

#[test]
fn blocks_are_polled_in_the_order_queued() {
    let (link, ports) = Link::connect();
    assert_eq!(link.perform(Action::ProbeTransmit), Ok(Event::Backlog(false)));
    assert_eq!(link.perform(Action::PollTransmit), Ok(Event::NoFrame));
    LoraStik::transmit(&ports.blocks, &[1, 2, 3]).unwrap();
    LoraStik::transmit(&ports.blocks, &[4]).unwrap();
    assert_eq!(link.perform(Action::ProbeTransmit), Ok(Event::Backlog(true)));
    assert_eq!(link.perform(Action::PollTransmit), Ok(Event::Frame(vec![1, 2, 3])));
    assert_eq!(link.perform(Action::PollTransmit), Ok(Event::Frame(vec![4])));
    assert_eq!(link.perform(Action::PollTransmit), Ok(Event::NoFrame));
}

#[test]
fn transmit_queue_holds_two_blocks() {
    let (_link, ports) = Link::connect();
    assert_eq!(QUEUE_DEPTH, 2);
    assert_eq!(ports.blocks.capacity(), Some(2));
    LoraStik::transmit(&ports.blocks, &[1]).unwrap();
    assert!(!ports.blocks.is_full());
    LoraStik::transmit(&ports.blocks, &[2]).unwrap();
    assert!(ports.blocks.is_full());
    assert_eq!(ports.lines.capacity(), None);
}

#[test]
fn wait_gives_the_line_that_is_there() {
    let (link, ports) = Link::connect();
    ports.lines.send("radio_rx  00ff".to_string()).unwrap();
    assert_eq!(
        link.perform(Action::WaitAny),
        Ok(Event::Line("radio_rx  00ff".to_string()))
    );
}

#[test]
fn wait_reports_a_transmit_request() {
    let (link, ports) = Link::connect();
    LoraStik::transmit(&ports.blocks, &[1]).unwrap();
    assert_eq!(link.perform(Action::WaitAny), Ok(Event::TransmitReady));
    // The block is still queued.
    assert_eq!(link.perform(Action::PollTransmit), Ok(Event::Frame(vec![1])));
}

#[test]
fn frames_reach_the_consumer() {
    let (link, ports) = Link::connect();
    let frame = ReceivedFrames(vec![1, 2], Some(("8".to_string(), "-60".to_string())));
    assert_eq!(link.perform(Action::Deliver(frame.clone())), Ok(Event::Delivered));
    assert_eq!(ports.frames.try_recv(), Ok(frame));
}

#[test]
fn closed_channels_are_reported() {
    let (link, ports) = Link::connect();
    drop(ports);
    assert_eq!(link.perform(Action::ReadLine), Ok(Event::Disconnected));
    assert_eq!(link.perform(Action::TryReadLine), Ok(Event::Disconnected));
    assert_eq!(link.perform(Action::ReadLineTimeout(1)), Ok(Event::Disconnected));
    assert_eq!(link.perform(Action::PollTransmit), Ok(Event::Disconnected));
    assert_eq!(
        link.perform(Action::Deliver(ReceivedFrames(vec![], None))),
        Ok(Event::Disconnected)
    );
    // Both channels are ready, being closed: either may be reported.
    let event = link.perform(Action::WaitAny).unwrap();
    assert!(event == Event::Disconnected || event == Event::TransmitReady);
}

#[test]
fn transmit_fails_once_the_engine_is_gone() {
    let (link, ports) = Link::connect();
    drop(link);
    assert_eq!(LoraStik::transmit(&ports.blocks, &[1]), Err(LoraError::Disconnected));
}

#[test]
fn other_actions_are_handed_back() {
    let (link, _ports) = Link::connect();
    assert_eq!(
        link.perform(Action::Write("radio rx 0".to_string())),
        Err(Action::Write("radio rx 0".to_string()))
    );
    assert_eq!(link.perform(Action::Sleep(120)), Err(Action::Sleep(120)));
    assert_eq!(link.perform(Action::Done), Err(Action::Done));
}

#[test]
fn engine_runs_over_real_channels() {
    let (link, ports) = Link::connect();
    let mut ls = LoraStik::new(false, 0, 1000, 8, false, 0);
    LoraStik::transmit(&ports.blocks, &[0xAA, 0xBB, 0xCC]).unwrap();
    let mut written = Vec::new();
    let mut action = ls.mainloop(0).unwrap();
    for _ in 0..100 {
        let event = match link.perform(action) {
            Ok(event) => event,
            Err(Action::Write(command)) => {
                if command.starts_with("radio tx ") {
                    ports.lines.send("ok".to_string()).unwrap();
                    ports.lines.send("radio_tx_ok".to_string()).unwrap();
                } else {
                    ports.lines.send("ok".to_string()).unwrap();
                    ports.lines.send("radio_rx  00010203".to_string()).unwrap();
                }
                written.push(command);
                Event::Written
            }
            Err(Action::Sleep(_)) => Event::Slept,
            Err(other) => panic!("unexpected {:?}", other),
        };
        action = ls.step(event, 0).unwrap();
        if written.len() == 3 {
            break;
        }
    }
    assert_eq!(written, vec!["radio tx 00aabbcc", "radio rx 0", "radio rx 0"]);
    assert_eq!(ports.frames.try_recv(), Ok(ReceivedFrames(vec![1, 2, 3], None)));
}

#[test]
fn line_event_is_the_line_or_the_closed_channel() {
    assert_eq!(line_event(Some("ok".to_string())), Event::Line("ok".to_string()));
    assert_eq!(line_event(Some(String::new())), Event::Line(String::new()));
    assert_eq!(line_event(None), Event::Disconnected);
}

#[test]
fn queued_reports_a_block_handed_back() {
    assert_eq!(LoraStik::queued(Ok(())), Ok(()));
    assert_eq!(LoraStik::queued(Err(vec![1, 2, 3])), Err(LoraError::Disconnected));
    assert_eq!(LoraStik::queued(Err(vec![])), Err(LoraError::Disconnected));
}

#[test]
fn polled_line_is_the_line_or_says_why_not() {
    assert_eq!(line_polled(Polled::Item("ok".to_string())), Event::Line("ok".to_string()));
    assert_eq!(line_polled(Polled::Empty), Event::NoLine);
    assert_eq!(line_polled(Polled::Closed), Event::Disconnected);
}

#[test]
fn awaited_line_is_the_line_or_says_why_not() {
    assert_eq!(line_awaited(Awaited::Item("ok".to_string())), Event::Line("ok".to_string()));
    assert_eq!(line_awaited(Awaited::TimedOut), Event::Timeout);
    assert_eq!(line_awaited(Awaited::Closed), Event::Disconnected);
}

#[test]
fn polled_block_is_the_frame_or_says_why_not() {
    assert_eq!(block_polled(Polled::Item(vec![1, 2])), Event::Frame(vec![1, 2]));
    assert_eq!(block_polled(Polled::Empty), Event::NoFrame);
    assert_eq!(block_polled(Polled::Closed), Event::Disconnected);
}

#[test]
fn backlog_is_there_when_the_queue_is_not_empty() {
    assert_eq!(backlog(true), Event::Backlog(false));
    assert_eq!(backlog(false), Event::Backlog(true));
}

#[test]
fn woken_by_a_line_when_the_line_operation_is_ready() {
    assert!(woken(0, 1, 0));
    assert!(!woken(0, 1, 1));
    assert!(woken(7, 3, 7));
    assert!(!woken(7, 3, 3));
}

#[test]
fn frame_sent_is_delivered_unless_handed_back() {
    assert_eq!(frame_sent(Ok(())), Event::Delivered);
    assert_eq!(frame_sent(Err(ReceivedFrames(vec![1], None))), Event::Disconnected);
}

#[test]
fn probe_sees_a_block_that_waits() {
    let (link, ports) = Link::connect();
    assert_eq!(link.perform(Action::ProbeTransmit), Ok(Event::Backlog(false)));
    LoraStik::transmit(&ports.blocks, &[9]).unwrap();
    assert_eq!(link.perform(Action::ProbeTransmit), Ok(Event::Backlog(true)));
    assert_eq!(link.perform(Action::WaitAny), Ok(Event::TransmitReady));
    ports.lines.send("ok".to_string()).unwrap();
    assert_eq!(link.perform(Action::PollTransmit), Ok(Event::Frame(vec![9])));
    assert_eq!(link.perform(Action::WaitAny), Ok(Event::Line("ok".to_string())));
}
