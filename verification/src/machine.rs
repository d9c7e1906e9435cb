//! The radio engine as a state machine.
//!
//! The engine never performs an operation itself. It asks for one, an
//! `Action`, and is told how it went, an `Event`; one operation is
//! outstanding at a time. This module says, over a mathematical model of the
//! engine, what each event leads to. The executable engine is held to it.

use crate::error::Failure;
use crate::hexcode::wire_bytes;
use crate::lorastik::ReceivedFrames;
use crate::packet::{absorbed, has_room, opened, Assembly};
use crate::turn::{chosen, deferral, remaining, FLAG_YIELD};
use crate::wire::{is_rx_line, rx_packet, rx_readable, tx_command};
use vstd::prelude::*;

verus! {

/// The radio's state as far as the commands issued tell it.
#[derive(Clone, Copy, Debug, PartialEq, Eq)]
pub enum RadioMode {
    Idle,
    Receiving,
}

/// Where the engine goes on once a received line or a transmission has been
/// dealt with.
#[derive(Clone, Copy, Debug, PartialEq, Eq)]
pub enum Resume {
    /// At the top of the main loop.
    Top,
    /// With the closing line of a receiver stop that a packet ran into.
    StopTail,
}

/// What the receiver is armed for.
#[derive(Clone, Copy, Debug, PartialEq, Eq)]
pub enum Goal {
    /// Listening only, for this many milliseconds, while transmitting is held back.
    Gate(u64),
    /// Waiting for whatever comes first, a line or a transmit request.
    Wait,
}

/// The operation that is outstanding, and what it is part of.
#[derive(Clone, Copy, Debug, PartialEq, Eq)]
pub enum Phase {
    /// Nothing is outstanding: the engine is new, or configuration is complete.
    Idle,
    /// The engine has failed and takes no further event.
    Halted,
    /// Configuration: the probe command is being written.
    InitProbeWrite,
    /// Configuration: the radio is given time to answer the probe.
    InitSettle,
    /// Configuration: the answers to the probe are being discarded.
    InitDrain,
    /// Configuration: the first line still to do is being written.
    InitWrite,
    /// Configuration: the radio's reply to that line is awaited.
    InitReply,
    /// Main loop: the transmit queue is polled for a payload.
    Poll,
    /// Arming the receiver: the command is being written.
    RxWrite(Goal),
    /// Arming the receiver: the reply is awaited; the flag says whether one
    /// stray error was already passed over.
    RxReply(Goal, bool),
    /// Listening while transmitting is held back.
    Gate,
    /// Waiting for a line or a transmit request.
    Wait,
    /// Stopping the receiver: the command is being written.
    StopWrite,
    /// Stopping the receiver: the reply is awaited.
    StopReply,
    /// Stopping the receiver: the closing line is awaited.
    StopTail,
    /// Signal quality: the first query is being written.
    SnrWrite(Resume),
    /// Signal quality: the first reading is awaited.
    SnrReply(Resume),
    /// Signal quality: the second query is being written.
    RssiWrite(Resume),
    /// Signal quality: the second reading is awaited.
    RssiReply(Resume),
    /// A received frame is being handed on; the flag says whether the peer
    /// yielded, so that a transmission must follow at once.
    Deliver(Resume, bool),
    /// Transmission: a further frame is polled for the packet under assembly.
    SendPoll(Resume),
    /// Transmission: the peer is given time before the packet leaves.
    SendSleep(Resume),
    /// Transmission: the transmit queue is asked whether more is waiting.
    SendProbe(Resume),
    /// Transmission: the command is being written.
    SendWrite(Resume),
    /// Transmission: the reply is awaited; the flag says whether one stray
    /// error was already passed over.
    SendReply(Resume, bool),
    /// Transmission: the completion line is awaited.
    SendTail(Resume),
}

/// What the engine is busy with.
#[derive(Clone, Copy, Debug, PartialEq, Eq)]
pub enum Stage {
    /// Nothing: it is idle or has failed.
    Resting,
    /// Configuring the radio.
    Configuring,
    /// Looking for something to send, arming the receiver, listening, or
    /// stopping the receiver.
    Listening,
    /// Dealing with a received packet.
    Hearing,
    /// Transmitting.
    Sending,
}

/// What the engine is busy with in `phase`.
pub open spec fn stage(phase: Phase) -> Stage {
    match phase {
        Phase::Idle | Phase::Halted => Stage::Resting,
        Phase::InitProbeWrite
        | Phase::InitSettle
        | Phase::InitDrain
        | Phase::InitWrite
        | Phase::InitReply => Stage::Configuring,
        Phase::Poll
        | Phase::RxWrite(_)
        | Phase::RxReply(_, _)
        | Phase::Gate
        | Phase::Wait
        | Phase::StopWrite
        | Phase::StopReply
        | Phase::StopTail => Stage::Listening,
        Phase::SnrWrite(_)
        | Phase::SnrReply(_)
        | Phase::RssiWrite(_)
        | Phase::RssiReply(_)
        | Phase::Deliver(_, _) => Stage::Hearing,
        Phase::SendPoll(_)
        | Phase::SendSleep(_)
        | Phase::SendProbe(_)
        | Phase::SendWrite(_)
        | Phase::SendReply(_, _)
        | Phase::SendTail(_) => Stage::Sending,
    }
}

/// What the engine asks its driver to do next.
#[derive(Clone, Debug, PartialEq)]
pub enum Action {
    /// Write this line to the radio; answer with `Written`.
    Write(String),
    /// Wait for the next line from the radio; answer with `Line`.
    ReadLine,
    /// Take the next line from the radio if one is there; answer with `Line` or `NoLine`.
    TryReadLine,
    /// Wait for the next line for at most this many milliseconds; answer with
    /// `Line` or `Timeout`.
    ReadLineTimeout(u64),
    /// Take the next payload from the transmit queue if one is there; answer
    /// with `Frame` or `NoFrame`.
    PollTransmit,
    /// Sleep this many milliseconds; answer with `Slept`.
    Sleep(u64),
    /// Look whether the transmit queue holds anything; answer with `Backlog`.
    ProbeTransmit,
    /// Wait until a line from the radio or a transmit request is there;
    /// answer with the `Line`, or with `TransmitReady`.
    WaitAny,
    /// Hand this frame to the consumer; answer with `Delivered`.
    Deliver(ReceivedFrames),
    /// Nothing: what was started is complete.
    Done,
}

/// How the operation that the engine asked for went.
#[derive(Clone, Debug, PartialEq)]
pub enum Event {
    Written,
    Line(String),
    NoLine,
    Timeout,
    Frame(Vec<u8>),
    NoFrame,
    Slept,
    /// Whether the transmit queue holds anything.
    Backlog(bool),
    TransmitReady,
    Delivered,
    /// The channel that the operation works on is closed.
    Disconnected,
}

/// What a `ReceivedFrames` stands for: the payload without its flag byte, and
/// the two quality readings if they were taken.
#[verifier::ext_equal]
pub struct Frame {
    pub payload: Seq<u8>,
    pub quality: Option<(Seq<char>, Seq<char>)>,
}

/// What an `Action` stands for.
#[verifier::ext_equal]
pub enum Request {
    Write(Seq<char>),
    ReadLine,
    TryReadLine,
    ReadLineTimeout(u64),
    PollTransmit,
    Sleep(u64),
    ProbeTransmit,
    WaitAny,
    Deliver(Frame),
    Done,
}

impl View for Action {
    type V = Request;

    open spec fn view(&self) -> Request {
        match self {
            Action::Write(line) => Request::Write(line@),
            Action::ReadLine => Request::ReadLine,
            Action::TryReadLine => Request::TryReadLine,
            Action::ReadLineTimeout(ms) => Request::ReadLineTimeout(*ms),
            Action::PollTransmit => Request::PollTransmit,
            Action::Sleep(ms) => Request::Sleep(*ms),
            Action::ProbeTransmit => Request::ProbeTransmit,
            Action::WaitAny => Request::WaitAny,
            Action::Deliver(frame) => Request::Deliver(frame@),
            Action::Done => Request::Done,
        }
    }
}

/// The lines that configure the radio when the caller names none.
pub open spec fn default_init() -> Seq<Seq<char>> {
    seq![
        "sys get ver"@,
        "mac reset"@,
        "mac pause"@,
        "radio get mod"@,
        "radio get freq"@,
        "radio get pwr"@,
        "radio get sf"@,
        "radio get bw"@,
        "radio get cr"@,
        "radio get wdt"@,
        "radio set pwr 20"@,
        "radio set sf sf12"@,
        "radio set bw 125"@,
        "radio set cr 4/5"@,
        "radio set wdt 60000"@,
    ]
}

/// `lines` without the empty lines it starts with.
pub open spec fn pending(lines: Seq<Seq<char>>) -> Seq<Seq<char>>
    decreases lines.len(),
{
    if lines.len() == 0 {
        lines
    } else if lines[0].len() == 0 {
        pending(lines.drop_first())
    } else {
        lines
    }
}

/// The text of the error for a reply other than the one expected.
pub open spec fn unexpected(got: Seq<char>, expected: Seq<char>) -> Seq<char> {
    "Unexpected response: got "@ + got + ", expected "@ + expected
}

/// The engine: its options, what it remembers between packets, and the
/// operation outstanding.
#[verifier::ext_equal]
pub struct Machine {
    /// Whether signal quality is read after each received packet.
    pub readqual: bool,
    /// Pause before each transmission, in milliseconds.
    pub txwait: u64,
    /// How long a peer's announcement of more holds transmitting back, in milliseconds.
    pub eotwait: u64,
    /// Longest stretch of transmitting before yielding, in milliseconds, if any.
    pub txslot: Option<u64>,
    /// Largest packet the radio takes, flag byte included.
    pub maxpacketsize: usize,
    /// Whether queued frames are packed across their boundaries.
    pub pack: bool,
    /// Bytes left over from the previous packet.
    pub extradata: Seq<u8>,
    /// The time before which nothing is transmitted, if any.
    pub txdelay: Option<u64>,
    /// The time at which the running slot ends, if one is running.
    pub txslotend: Option<u64>,
    pub mode: RadioMode,
    pub phase: Phase,
    /// The payload of the packet being assembled or sent.
    pub outgoing: Seq<u8>,
    /// The packet received last, flag byte first.
    pub heard: Seq<u8>,
    /// The first quality reading, while the second is taken.
    pub snr: Seq<char>,
    /// The configuration lines still to do.
    pub todo: Seq<Seq<char>>,
}

/// A state together with what the engine answers.
#[verifier::ext_equal]
pub struct Outcome {
    pub state: Machine,
    pub result: Result<Request, Failure>,
}

impl Machine {
    /// The engine as it is created.
    pub open spec fn fresh(
        readqual: bool,
        txwait: u64,
        eotwait: u64,
        maxpacketsize: usize,
        pack: bool,
        txslot: u64,
    ) -> Machine {
        Machine {
            readqual,
            txwait,
            eotwait,
            txslot: if txslot > 0 {
                Some(txslot)
            } else {
                None
            },
            maxpacketsize,
            pack,
            extradata: Seq::empty(),
            txdelay: None,
            txslotend: None,
            mode: RadioMode::Idle,
            phase: Phase::Idle,
            outgoing: Seq::empty(),
            heard: Seq::empty(),
            snr: Seq::empty(),
            todo: Seq::empty(),
        }
    }

    /// Whether the options are those of `other`.
    pub open spec fn configured_as(self, other: Machine) -> bool {
        &&& self.readqual == other.readqual
        &&& self.txwait == other.txwait
        &&& self.eotwait == other.eotwait
        &&& self.txslot == other.txslot
        &&& self.maxpacketsize == other.maxpacketsize
        &&& self.pack == other.pack
    }

    /// The most payload one packet carries: the packet size less the flag byte.
    pub open spec fn limit(self) -> int {
        self.maxpacketsize - 1
    }

    /// The packet under assembly and the leftover behind it.
    pub open spec fn assembly(self) -> Assembly {
        Assembly { body: self.outgoing, leftover: self.extradata }
    }

    /// Whether a transmission has been decided on and its command not yet written.
    pub open spec fn sending(self) -> bool {
        match self.phase {
            Phase::SendPoll(_) | Phase::SendSleep(_) | Phase::SendProbe(_) => true,
            _ => false,
        }
    }

    /// What holds of the engine at all times.
    pub open spec fn valid(self) -> bool {
        &&& self.maxpacketsize >= 2
        &&& self.phase == Phase::Gate || self.phase == Phase::Wait ==> self.mode
            == RadioMode::Receiving
        &&& self.mode == RadioMode::Receiving ==> self.phase == Phase::Gate || self.phase
            == Phase::Wait || self.phase == Phase::Halted
        &&& self.sending() ==> self.txdelay is None && self.outgoing.len() <= self.limit()
        &&& self.phase matches Phase::Deliver(_, true) ==> self.txdelay is None
        &&& self.phase == Phase::Poll ==> self.txdelay is None && self.extradata.len() == 0
        &&& self.phase == Phase::Idle || stage(self.phase) == Stage::Configuring || self.phase
            == Phase::RxWrite(Goal::Wait) || self.phase matches Phase::RxReply(Goal::Wait, _)
            || self.phase == Phase::Wait || self.phase == Phase::StopWrite || self.phase
            == Phase::StopReply ==> self.txdelay is None
        &&& self.phase matches Phase::SendPoll(_) ==> has_room(self.assembly(), self.limit())
        &&& match self.phase {
            Phase::SnrWrite(resume)
            | Phase::SnrReply(resume)
            | Phase::RssiWrite(resume)
            | Phase::RssiReply(resume) => self.heard.len() >= 1 && resume == Resume::Top,
            Phase::InitWrite | Phase::InitReply => self.todo.len() >= 1 && self.todo[0].len() >= 1,
            _ => true,
        }
    }

    /// Whether `now` is a time at which the engine can set its deadlines.
    pub open spec fn clock_fits(self, now: u64) -> bool {
        &&& now + self.eotwait <= u64::MAX
        &&& self.txslot matches Some(slot) ==> now + slot <= u64::MAX
    }

    /// The engine gives up.
    pub open spec fn fail(self, failure: Failure) -> Outcome {
        Outcome { state: Machine { phase: Phase::Halted, ..self }, result: Err(failure) }
    }

    /// The engine asks for `request` and moves to `phase`.
    pub open spec fn ask(self, phase: Phase, request: Request) -> Outcome {
        Outcome { state: Machine { phase, ..self }, result: Ok(request) }
    }

    /// Arms the receiver.
    pub open spec fn enterrxmode(self, goal: Goal) -> Outcome {
        self.ask(Phase::RxWrite(goal), Request::Write("radio rx 0"@))
    }

    /// Goes on with the packet under assembly: polls for a further frame
    /// while there is room, and pauses before sending once there is none.
    pub open spec fn assemble(self, resume: Resume) -> Outcome {
        if has_room(self.assembly(), self.limit()) {
            self.ask(Phase::SendPoll(resume), Request::PollTransmit)
        } else {
            self.ask(Phase::SendSleep(resume), Request::Sleep(self.txwait))
        }
    }

    /// Begins a transmission of `payload` behind the leftover.
    pub open spec fn dosend(self, payload: Seq<u8>, resume: Resume) -> Outcome {
        let a = opened(self.extradata, payload, self.limit());
        (Machine { outgoing: a.body, extradata: a.leftover, ..self }).assemble(resume)
    }

    /// The top of the main loop at time `now`.
    ///
    /// While transmitting is held back the receiver is armed for the rest of
    /// the delay. Otherwise the leftover is sent if there is any, and the
    /// transmit queue polled if there is none.
    pub open spec fn top(self, now: u64) -> Outcome {
        match remaining(self.txdelay, now) {
            Some(delay) => self.enterrxmode(Goal::Gate(delay)),
            None => {
                let s = Machine { txdelay: None, ..self };
                if s.extradata.len() > 0 {
                    s.dosend(Seq::empty(), Resume::Top)
                } else {
                    s.ask(Phase::Poll, Request::PollTransmit)
                }
            },
        }
    }

    /// Goes on where `resume` says.
    pub open spec fn resume_at(self, resume: Resume, now: u64) -> Outcome {
        match resume {
            Resume::Top => self.top(now),
            Resume::StopTail => self.ask(Phase::StopTail, Request::ReadLine),
        }
    }

    /// Hands on the packet received last, with `quality`, and lets its flag
    /// set or clear the transmit delay.
    pub open spec fn deliver(
        self,
        quality: Option<(Seq<char>, Seq<char>)>,
        resume: Resume,
        now: u64,
    ) -> Outcome {
        let flag = self.heard[0];
        (Machine { txdelay: deferral(flag, self.eotwait, now), ..self }).ask(
            Phase::Deliver(resume, flag == FLAG_YIELD),
            Request::Deliver(Frame { payload: self.heard.skip(1), quality }),
        )
    }

    /// Deals with a line that arrived while receiving.
    ///
    /// A line that reports no packet is passed over. One that reports a
    /// packet which cannot be read is fatal. Otherwise the packet is kept,
    /// and handed on at once or after the quality was read.
    pub open spec fn handlerx(
        self,
        line: Seq<char>,
        readqual: bool,
        resume: Resume,
        now: u64,
    ) -> Outcome {
        let bytes = wire_bytes(line);
        if !is_rx_line(bytes) {
            self.resume_at(resume, now)
        } else if !rx_readable(bytes) {
            self.fail(Failure::Protocol("Error with hex decoding"@))
        } else {
            let s = Machine { heard: rx_packet(bytes), ..self };
            if readqual {
                s.ask(Phase::SnrWrite(resume), Request::Write("radio get snr"@))
            } else {
                s.deliver(None, resume, now)
            }
        }
    }

    /// A line arrived while the receiver was armed: the radio has stopped
    /// receiving to report it, and the line is dealt with.
    pub open spec fn heard_line(self, line: Seq<char>, now: u64) -> Outcome {
        (Machine { mode: RadioMode::Idle, ..self }).handlerx(
            line,
            self.readqual,
            Resume::Top,
            now,
        )
    }

    /// Stops the receiver.
    pub open spec fn rxstop(self) -> Outcome {
        (Machine { mode: RadioMode::Idle, ..self }).ask(
            Phase::StopWrite,
            Request::Write("radio rxstop"@),
        )
    }

    /// Configuration goes on with the first line that is not empty, and is
    /// complete when none is left.
    pub open spec fn initnext(self) -> Outcome {
        let s = Machine { todo: pending(self.todo), ..self };
        if s.todo.len() == 0 {
            s.ask(Phase::Idle, Request::Done)
        } else {
            s.ask(Phase::InitWrite, Request::Write(s.todo[0]))
        }
    }

    /// The reply to a configuration line: anything but a refusal is accepted.
    pub open spec fn initresp(self, line: Seq<char>) -> Outcome {
        if line == "invalid_param"@ {
            self.fail(Failure::Protocol("Bad response from radio during initialization"@))
        } else {
            (Machine { todo: self.todo.drop_first(), ..self }).initnext()
        }
    }

    /// The reply to a command that must be accepted. One stray error before
    /// it is passed over.
    pub open spec fn accepted(
        self,
        line: Seq<char>,
        retried: bool,
        again: Phase,
        then: Outcome,
    ) -> Outcome {
        if !retried && line == "radio_err"@ {
            self.ask(again, Request::ReadLine)
        } else if line == "ok"@ {
            then
        } else {
            self.fail(Failure::Protocol(unexpected(line, "ok"@)))
        }
    }

    /// The receiver is armed: the engine listens as `goal` says.
    pub open spec fn armed(self, goal: Goal) -> Outcome {
        let s = Machine { mode: RadioMode::Receiving, ..self };
        match goal {
            Goal::Gate(delay) => s.ask(Phase::Gate, Request::ReadLineTimeout(delay)),
            Goal::Wait => s.ask(Phase::Wait, Request::WaitAny),
        }
    }

    /// The packet leaves: flag, transmit delay and slot are settled at time
    /// `now`, where `waiting` says whether the transmit queue holds anything.
    pub open spec fn emit(self, waiting: bool, resume: Resume, now: u64) -> Outcome {
        let turn = chosen(
            waiting || self.extradata.len() > 0,
            self.txslot,
            self.txslotend,
            self.txdelay,
            self.eotwait,
            now,
        );
        (Machine { txdelay: turn.txdelay, txslotend: turn.txslotend, ..self }).ask(
            Phase::SendWrite(resume),
            Request::Write(tx_command(turn.flag, self.outgoing)),
        )
    }

    /// Starts configuration with `lines`, or with the default lines.
    pub open spec fn radiocfg(self, lines: Option<Seq<Seq<char>>>) -> Outcome {
        if self.phase != Phase::Idle {
            self.fail(Failure::OutOfTurn)
        } else {
            let todo = match lines {
                Some(lines) => lines,
                None => default_init(),
            };
            (Machine { todo, ..self }).ask(
                Phase::InitProbeWrite,
                Request::Write("INVALIDCOMMAND"@),
            )
        }
    }

    /// Starts the main loop at time `now`.
    pub open spec fn mainloop(self, now: u64) -> Outcome {
        if self.phase != Phase::Idle {
            self.fail(Failure::OutOfTurn)
        } else {
            self.top(now)
        }
    }

    /// What `event` leads to while the radio is being configured.
    pub open spec fn init_step(self, event: Event) -> Outcome {
        match (self.phase, event) {
            (Phase::InitProbeWrite, Event::Written) => self.ask(
                Phase::InitSettle,
                Request::Sleep(1000),
            ),
            (Phase::InitSettle, Event::Slept) => self.ask(Phase::InitDrain, Request::TryReadLine),
            (Phase::InitDrain, Event::Line(_)) => self.ask(Phase::InitDrain, Request::TryReadLine),
            (Phase::InitDrain, Event::NoLine) => self.initnext(),
            (Phase::InitWrite, Event::Written) => self.ask(Phase::InitReply, Request::ReadLine),
            (Phase::InitReply, Event::Line(line)) => self.initresp(line@),
            _ => self.fail(Failure::OutOfTurn),
        }
    }

    /// What `event` leads to while the engine looks for something to send,
    /// arms the receiver, listens, or stops the receiver.
    pub open spec fn listen_step(self, event: Event, now: u64) -> Outcome {
        match (self.phase, event) {
            (Phase::Poll, Event::Frame(payload)) => self.dosend(payload@, Resume::Top),
            (Phase::Poll, Event::NoFrame) => self.enterrxmode(Goal::Wait),
            (Phase::RxWrite(goal), Event::Written) => self.ask(
                Phase::RxReply(goal, false),
                Request::ReadLine,
            ),
            (Phase::RxReply(goal, retried), Event::Line(line)) => self.accepted(
                line@,
                retried,
                Phase::RxReply(goal, true),
                self.armed(goal),
            ),
            (Phase::Gate, Event::Line(line)) => self.heard_line(line@, now),
            (Phase::Gate, Event::Timeout) => (Machine { txdelay: None, ..self }).ask(
                Phase::Wait,
                Request::WaitAny,
            ),
            (Phase::Wait, Event::Line(line)) => self.heard_line(line@, now),
            (Phase::Wait, Event::TransmitReady) => self.rxstop(),
            (Phase::StopWrite, Event::Written) => self.ask(Phase::StopReply, Request::ReadLine),
            (Phase::StopReply, Event::Line(line)) => if is_rx_line(wire_bytes(line@)) {
                self.handlerx(line@, false, Resume::StopTail, now)
            } else {
                self.top(now)
            },
            (Phase::StopTail, Event::Line(_)) => self.top(now),
            _ => self.fail(Failure::OutOfTurn),
        }
    }

    /// What `event` leads to while a received packet is being dealt with.
    pub open spec fn hear_step(self, event: Event, now: u64) -> Outcome {
        match (self.phase, event) {
            (Phase::SnrWrite(resume), Event::Written) => self.ask(
                Phase::SnrReply(resume),
                Request::ReadLine,
            ),
            (Phase::SnrReply(resume), Event::Line(line)) => (Machine { snr: line@, ..self }).ask(
                Phase::RssiWrite(resume),
                Request::Write("radio get rssi"@),
            ),
            (Phase::RssiWrite(resume), Event::Written) => self.ask(
                Phase::RssiReply(resume),
                Request::ReadLine,
            ),
            (Phase::RssiReply(resume), Event::Line(line)) => self.deliver(
                Some((self.snr, line@)),
                resume,
                now,
            ),
            (Phase::Deliver(resume, send), Event::Delivered) => if send {
                self.dosend(Seq::empty(), resume)
            } else {
                self.resume_at(resume, now)
            },
            _ => self.fail(Failure::OutOfTurn),
        }
    }

    /// What `event` leads to during a transmission.
    pub open spec fn send_step(self, event: Event, now: u64) -> Outcome {
        match (self.phase, event) {
            (Phase::SendPoll(resume), Event::Frame(next)) => {
                let a = absorbed(self.assembly(), next@, self.limit(), self.pack);
                (Machine { outgoing: a.body, extradata: a.leftover, ..self }).assemble(resume)
            },
            (Phase::SendPoll(resume), Event::NoFrame) => self.ask(
                Phase::SendSleep(resume),
                Request::Sleep(self.txwait),
            ),
            (Phase::SendSleep(resume), Event::Slept) => self.ask(
                Phase::SendProbe(resume),
                Request::ProbeTransmit,
            ),
            (Phase::SendProbe(resume), Event::Backlog(waiting)) => self.emit(waiting, resume, now),
            (Phase::SendWrite(resume), Event::Written) => self.ask(
                Phase::SendReply(resume, false),
                Request::ReadLine,
            ),
            (Phase::SendReply(resume, retried), Event::Line(line)) => self.accepted(
                line@,
                retried,
                Phase::SendReply(resume, true),
                self.ask(Phase::SendTail(resume), Request::ReadLine),
            ),
            (Phase::SendTail(resume), Event::Line(_)) => self.resume_at(resume, now),
            _ => self.fail(Failure::OutOfTurn),
        }
    }

    /// What `event`, arriving at time `now`, leads to.
    ///
    /// With nothing outstanding, or after a failure, every event is out of
    /// turn. A closed channel is fatal whatever was outstanding. Any other
    /// event must answer the action asked for last.
    pub open spec fn step(self, event: Event, now: u64) -> Outcome {
        match stage(self.phase) {
            Stage::Resting => self.fail(Failure::OutOfTurn),
            Stage::Configuring => if event is Disconnected {
                self.fail(Failure::Disconnected)
            } else {
                self.init_step(event)
            },
            Stage::Listening => if event is Disconnected {
                self.fail(Failure::Disconnected)
            } else {
                self.listen_step(event, now)
            },
            Stage::Hearing => if event is Disconnected {
                self.fail(Failure::Disconnected)
            } else {
                self.hear_step(event, now)
            },
            Stage::Sending => if event is Disconnected {
                self.fail(Failure::Disconnected)
            } else {
                self.send_step(event, now)
            },
        }
    }
}

} // verus!
