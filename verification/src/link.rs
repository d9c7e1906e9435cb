//! The channels between the engine and the tasks around it.
//!
//! Three channels meet at the engine: the lines that the line reader took
//! from the radio come in, the blocks that producers want transmitted come
//! in, and the frames received go out to the consumer. The operations the
//! engine asks for on them are performed here. What they give depends on the
//! other tasks, so nothing is promised of it but its kind.

use crate::lorastik::ReceivedFrames;
use crate::machine::{Action, Event, Request};
use crossbeam_channel::{Receiver, Sender};
use vstd::prelude::*;

verus! {

/// `crossbeam_channel::Receiver`, the receiving end of a channel.
#[verifier::external_type_specification]
#[verifier::external_body]
#[verifier::reject_recursive_types(T)]
pub struct ExReceiver<T>(crossbeam_channel::Receiver<T>);

/// `crossbeam_channel::Sender`, the sending end of a channel.
#[verifier::external_type_specification]
#[verifier::external_body]
#[verifier::reject_recursive_types(T)]
pub struct ExSender<T>(crossbeam_channel::Sender<T>);

/// How many blocks may wait to be transmitted. A producer with a further
/// block waits until the engine has taken one.
pub const QUEUE_DEPTH: usize = 2;

/// What taking from a channel without waiting gave.
#[derive(Clone, Debug, PartialEq)]
pub enum Polled<T> {
    Item(T),
    Empty,
    Closed,
}

/// What taking from a channel within a time gave.
#[derive(Clone, Debug, PartialEq)]
pub enum Awaited<T> {
    Item(T),
    TimedOut,
    Closed,
}

/// The number of messages that the channel behind `blocks` was made to hold.
pub uninterp spec fn depth(blocks: Receiver<Vec<u8>>) -> nat;

/// `crossbeam_channel::unbounded`: a new channel that holds any number of
/// messages. Nothing is claimed of its two ends.
#[verifier::external_body]
fn unbounded<T>() -> (ends: (Sender<T>, Receiver<T>)) {
    crossbeam_channel::unbounded()
}

/// `crossbeam_channel::bounded`: a new channel for blocks. Claimed is that
/// it was made to hold at most `cap` of them. The crate panics on a capacity
/// too large for its counters, far above what is admitted here.
#[verifier::external_body]
fn bounded(cap: usize) -> (ends: (Sender<Vec<u8>>, Receiver<Vec<u8>>))
    requires
        cap <= 0xFFFF,
    ensures
        depth(ends.1) == cap,
{
    crossbeam_channel::bounded(cap)
}

/// `Receiver::recv`: waits for the next message, and gives up once the
/// channel is empty and every sender is gone, which is `None` here. Which of
/// the two happens lies with the senders: nothing is claimed.
#[verifier::external_body]
fn recv<T>(rx: &Receiver<T>) -> (item: Option<T>) {
    rx.recv().ok()
}

/// `Receiver::try_recv`: the next message if one is there; otherwise whether
/// the channel is merely empty or closed as well. Nothing is claimed of
/// which it is.
#[verifier::external_body]
fn try_recv<T>(rx: &Receiver<T>) -> (polled: Polled<T>) {
    match rx.try_recv() {
        Ok(item) => Polled::Item(item),
        Err(crossbeam_channel::TryRecvError::Empty) => Polled::Empty,
        Err(crossbeam_channel::TryRecvError::Disconnected) => Polled::Closed,
    }
}

/// `Receiver::recv_timeout`: waits for the next message for at most `ms`
/// milliseconds. Nothing is claimed of how it ends.
#[verifier::external_body]
fn recv_timeout<T>(rx: &Receiver<T>, ms: u64) -> (awaited: Awaited<T>) {
    match rx.recv_timeout(std::time::Duration::from_millis(ms)) {
        Ok(item) => Awaited::Item(item),
        Err(crossbeam_channel::RecvTimeoutError::Timeout) => Awaited::TimedOut,
        Err(crossbeam_channel::RecvTimeoutError::Disconnected) => Awaited::Closed,
    }
}

/// `Receiver::is_empty`: whether the channel holds no message right now.
/// Nothing is claimed of the answer.
#[verifier::external_body]
fn is_empty<T>(rx: &Receiver<T>) -> (empty: bool) {
    rx.is_empty()
}

/// `Sender::send`: waits until the channel takes the message, and hands it
/// back if every receiver is gone. Nothing is claimed of which it is.
#[verifier::external_body]
pub(crate) fn send<T>(tx: &Sender<T>, item: T) -> (r: Result<(), T>) {
    match tx.send(item) {
        Ok(()) => Ok(()),
        Err(crossbeam_channel::SendError(item)) => Err(item),
    }
}

/// `Select::ready` over two receive operations: waits until one of them
/// would not block. Returns the index that `Select::recv` gave to each, and
/// the one `Select::ready` returned. Claimed is that the two indices differ
/// and that the one returned is one of them. The operation may be ready
/// only because its channel is closed, or no longer be ready when it is
/// tried.
#[verifier::external_body]
fn ready<A, B>(first: &Receiver<A>, second: &Receiver<B>) -> (r: (usize, usize, usize))
    ensures
        r.0 != r.1,
        r.2 == r.0 || r.2 == r.1,
{
    let mut sel = crossbeam_channel::Select::new();
    let one = sel.recv(first);
    let two = sel.recv(second);
    (one, two, sel.ready())
}

/// Whether `event` is an answer that the operation `request` can have. An
/// operation on a channel may always find the channel closed.
pub open spec fn answers(request: Request, event: Event) -> bool {
    match request {
        Request::Write(_) => event is Written,
        Request::ReadLine => event is Line || event is Disconnected,
        Request::TryReadLine => event is Line || event is NoLine || event is Disconnected,
        Request::ReadLineTimeout(_) => event is Line || event is Timeout || event is Disconnected,
        Request::PollTransmit => event is Frame || event is NoFrame || event is Disconnected,
        Request::Sleep(_) => event is Slept,
        Request::ProbeTransmit => event is Backlog,
        Request::WaitAny => event is Line || event is TransmitReady || event is Disconnected,
        Request::Deliver(_) => event is Delivered || event is Disconnected,
        Request::Done => false,
    }
}

/// The event that waiting for a line ends in: the line that came or, where
/// none can come any more, the report that the channel is closed.
pub fn line_event(item: Option<String>) -> (event: Event)
    ensures
        match item {
            Some(line) => event == Event::Line(line),
            None => event == Event::Disconnected,
        },
{
    match item {
        Some(line) => Event::Line(line),
        None => Event::Disconnected,
    }
}

/// The event that looking for a line without waiting ends in.
pub fn line_polled(polled: Polled<String>) -> (event: Event)
    ensures
        match polled {
            Polled::Item(line) => event == Event::Line(line),
            Polled::Empty => event == Event::NoLine,
            Polled::Closed => event == Event::Disconnected,
        },
{
    match polled {
        Polled::Item(line) => Event::Line(line),
        Polled::Empty => Event::NoLine,
        Polled::Closed => Event::Disconnected,
    }
}

/// The event that waiting for a line within a time ends in.
pub fn line_awaited(awaited: Awaited<String>) -> (event: Event)
    ensures
        match awaited {
            Awaited::Item(line) => event == Event::Line(line),
            Awaited::TimedOut => event == Event::Timeout,
            Awaited::Closed => event == Event::Disconnected,
        },
{
    match awaited {
        Awaited::Item(line) => Event::Line(line),
        Awaited::TimedOut => Event::Timeout,
        Awaited::Closed => Event::Disconnected,
    }
}

/// The event that polling the transmit queue ends in.
pub fn block_polled(polled: Polled<Vec<u8>>) -> (event: Event)
    ensures
        match polled {
            Polled::Item(block) => event == Event::Frame(block),
            Polled::Empty => event == Event::NoFrame,
            Polled::Closed => event == Event::Disconnected,
        },
{
    match polled {
        Polled::Item(block) => Event::Frame(block),
        Polled::Empty => Event::NoFrame,
        Polled::Closed => Event::Disconnected,
    }
}

/// The event for a transmit queue that was found empty or not: something
/// is waiting exactly when it was not empty.
pub fn backlog(empty: bool) -> (event: Event)
    ensures
        event == Event::Backlog(!empty),
{
    Event::Backlog(!empty)
}

/// Whether it was a line that ended the wait for a line or a transmit
/// request: `which` is the operation found ready, `lines` and `blocks` are
/// the two that were waited on.
pub fn woken(lines: usize, blocks: usize, which: usize) -> (by_line: bool)
    requires
        lines != blocks,
        which == lines || which == blocks,
    ensures
        by_line == (which == lines),
{
    which == lines
}

/// The event that handing a frame to the consumer ends in: delivered where
/// the channel took it, closed where it handed the frame back.
pub fn frame_sent(outcome: Result<(), ReceivedFrames>) -> (event: Event)
    ensures
        match outcome {
            Ok(_) => event == Event::Delivered,
            Err(_) => event == Event::Disconnected,
        },
{
    match outcome {
        Ok(()) => Event::Delivered,
        Err(_) => Event::Disconnected,
    }
}

/// Whether `request` is an operation on the channels.
pub open spec fn on_channels(request: Request) -> bool {
    !(request is Write || request is Sleep || request is Done)
}

/// The engine's ends of the channels.
pub struct Link {
    lines: Receiver<String>,
    blocks: Receiver<Vec<u8>>,
    frames: Sender<ReceivedFrames>,
}

/// The other ends, for the tasks around the engine: the line reader sends
/// the lines, producers send the blocks, the consumer takes the frames.
pub struct Ports {
    pub lines: Sender<String>,
    pub blocks: Sender<Vec<u8>>,
    pub frames: Receiver<ReceivedFrames>,
}

impl Link {
    /// The number of blocks that may wait to be transmitted.
    pub closed spec fn queue_depth(&self) -> nat {
        depth(self.blocks)
    }

    /// Makes the three channels. Lines and frames queue without bound; at
    /// most `QUEUE_DEPTH` blocks wait to be transmitted.
    pub fn connect() -> (ends: (Link, Ports))
        ensures
            ends.0.queue_depth() == QUEUE_DEPTH,
    {
        let (line_tx, line_rx) = unbounded::<String>();
        let (block_tx, block_rx) = bounded(QUEUE_DEPTH);
        let (frame_tx, frame_rx) = unbounded::<ReceivedFrames>();
        (
            Link { lines: line_rx, blocks: block_rx, frames: frame_tx },
            Ports { lines: line_tx, blocks: block_tx, frames: frame_rx },
        )
    }

    /// Waits for the next line from the radio. Whether one comes lies with
    /// the line reader; `line_event` says what is made of either.
    fn read_line(&self) -> (event: Event)
        ensures
            event is Line || event is Disconnected,
    {
        line_event(recv(&self.lines))
    }

    /// Performs `action` if it is an operation on the channels, and returns
    /// the event that answers it. Any other action is handed back for the
    /// caller to perform.
    pub fn perform(&self, action: Action) -> (r: Result<Event, Action>)
        ensures
            match r {
                Ok(event) => on_channels(action@) && answers(action@, event),
                Err(back) => !on_channels(action@) && back@ == action@,
            },
    {
        match action {
            Action::ReadLine => Ok(self.read_line()),
            Action::TryReadLine => Ok(line_polled(try_recv(&self.lines))),
            Action::ReadLineTimeout(ms) => Ok(line_awaited(recv_timeout(&self.lines, ms))),
            Action::PollTransmit => Ok(block_polled(try_recv(&self.blocks))),
            Action::ProbeTransmit => Ok(backlog(is_empty(&self.blocks))),
            Action::WaitAny => {
                let (lines, blocks, which) = ready(&self.lines, &self.blocks);
                if woken(lines, blocks, which) {
                    Ok(self.read_line())
                } else {
                    Ok(Event::TransmitReady)
                }
            },
            Action::Deliver(frame) => Ok(frame_sent(send(&self.frames, frame))),
            other => Err(other),
        }
    }
}

} // verus!
