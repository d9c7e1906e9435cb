//! The radio engine.
//!
//! `LoraStik` holds the engine's state and decides, event by event, what is
//! done next. Its driver performs each `Action` and reports the `Event`; the
//! engine itself touches neither the serial port nor a channel nor the clock.

use crate::error::{Failure, LoraError};
use crate::machine::{
    default_init, pending, unexpected, Action, Event, Frame, Goal, Machine, Outcome, Phase,
    RadioMode, Request, Resume, Stage,
};
use crate::packet::{absorb_frame, open_packet, wants_frame};
use crate::turn::{choose_turn, defer, FLAG_YIELD};
use crate::wire::{is_text, read_packet, reports_packet, tx_line};
use vstd::prelude::*;
use vstd::slice::*;
use vstd::string::*;

verus! {

/// Makes the error for a breach of the radio's protocol, with `msg` as its text.
pub fn mkerror(msg: &str) -> (e: LoraError)
    ensures
        e@ == Failure::Protocol(msg@),
{
    LoraError::Protocol(String::from_str(msg))
}

/// A frame as the consumer gets it: the payload without its flag byte, and
/// the radio's SNR and RSSI readings for the packet where the engine was told
/// to take them.
#[derive(Clone, Debug, PartialEq)]
pub struct ReceivedFrames(pub Vec<u8>, pub Option<(String, String)>);

impl View for ReceivedFrames {
    type V = Frame;

    open spec fn view(&self) -> Frame {
        Frame {
            payload: self.0@,
            quality: match self.1 {
                Some((snr, rssi)) => Some((snr@, rssi@)),
                None => None,
            },
        }
    }
}

/// Checks that the radio's response is the one expected, and makes the
/// protocol error that names both if it is not.
pub fn assert_response(resp: String, expected: String) -> (r: Result<(), LoraError>)
    ensures
        r is Ok <==> resp@ == expected@,
        r matches Err(e) ==> e@ == Failure::Protocol(unexpected(resp@, expected@)),
{
    if resp == expected {
        Ok(())
    } else {
        let mut text = String::from_str("Unexpected response: got ");
        text.append(resp.as_str());
        text.append(", expected ");
        text.append(expected.as_str());
        Err(LoraError::Protocol(text))
    }
}

/// What the engine answered, over the model.
pub open spec fn answer(r: Result<Action, LoraError>) -> Result<Request, Failure> {
    match r {
        Ok(action) => Ok(action@),
        Err(e) => Err(e@),
    }
}

/// The texts of `lines`.
pub open spec fn lines_of(lines: &Vec<String>) -> Seq<Seq<char>> {
    Seq::new(lines@.len(), |i: int| lines@[i]@)
}

/// The texts of the lines given for configuration, if any were given.
pub open spec fn init_of(initfile: &Option<Vec<String>>) -> Option<Seq<Seq<char>>> {
    match initfile {
        Some(lines) => Some(lines_of(lines)),
        None => None,
    }
}

/// The radio engine.
pub struct LoraStik {
    readqual: bool,
    txwait: u64,
    eotwait: u64,
    txslot: Option<u64>,
    extradata: Vec<u8>,
    maxpacketsize: usize,
    pack: bool,
    txdelay: Option<u64>,
    txslotend: Option<u64>,
    mode: RadioMode,
    phase: Phase,
    outgoing: Vec<u8>,
    heard: Vec<u8>,
    snr: String,
    initlines: Vec<String>,
    initpos: usize,
}

impl View for LoraStik {
    type V = Machine;

    closed spec fn view(&self) -> Machine {
        Machine {
            readqual: self.readqual,
            txwait: self.txwait,
            eotwait: self.eotwait,
            txslot: self.txslot,
            maxpacketsize: self.maxpacketsize,
            pack: self.pack,
            extradata: self.extradata@,
            txdelay: self.txdelay,
            txslotend: self.txslotend,
            mode: self.mode,
            phase: self.phase,
            outgoing: self.outgoing@,
            heard: self.heard@,
            snr: self.snr@,
            todo: self.todo(),
        }
    }
}

impl LoraStik {
    /// The configuration lines from the current one on.
    closed spec fn todo(&self) -> Seq<Seq<char>> {
        Seq::new(
            (self.initlines@.len() - self.initpos) as nat,
            |i: int| self.initlines@[self.initpos + i]@,
        )
    }

    /// The current configuration line lies within the lines.
    pub closed spec fn inv(&self) -> bool {
        self.initpos <= self.initlines@.len()
    }

    /// What holds of the engine between calls.
    pub open spec fn wf(&self) -> bool {
        self@.valid() && self.inv()
    }

    /// Creates an engine. Times are in milliseconds; a `txslot` of 0 means
    /// that the engine never yields. A packet has to have room for the flag
    /// byte and at least one byte of payload.
    pub fn new(
        readqual: bool,
        txwait: u64,
        eotwait: u64,
        maxpacketsize: usize,
        pack: bool,
        txslot: u64,
    ) -> (ls: LoraStik)
        requires
            maxpacketsize >= 2,
        ensures
            ls.wf(),
            ls@ == Machine::fresh(readqual, txwait, eotwait, maxpacketsize, pack, txslot),
    {
        let ls = LoraStik {
            readqual,
            txwait,
            eotwait,
            txslot: if txslot > 0 {
                Some(txslot)
            } else {
                None
            },
            extradata: Vec::new(),
            maxpacketsize,
            pack,
            txdelay: None,
            txslotend: None,
            mode: RadioMode::Idle,
            phase: Phase::Idle,
            outgoing: Vec::new(),
            heard: Vec::new(),
            snr: String::new(),
            initlines: Vec::new(),
            initpos: 0,
        };
        assert(ls.todo() =~= Seq::empty());
        ls
    }

    /// The bytes left over from the previous packet.
    pub fn extradata(&self) -> (bytes: &Vec<u8>)
        ensures
            bytes@ == self@.extradata,
    {
        &self.extradata
    }

    /// The time before which nothing is transmitted, if any.
    pub fn txdelay(&self) -> (time: Option<u64>)
        ensures
            time == self@.txdelay,
    {
        self.txdelay
    }

    /// The time at which the running slot ends, if one is running.
    pub fn txslotend(&self) -> (time: Option<u64>)
        ensures
            time == self@.txslotend,
    {
        self.txslotend
    }

    /// The radio's state as far as the commands issued tell it.
    pub fn radio_mode(&self) -> (mode: RadioMode)
        ensures
            mode == self@.mode,
    {
        self.mode
    }

    /// The operation that is outstanding.
    pub fn phase(&self) -> (phase: Phase)
        ensures
            phase == self@.phase,
    {
        self.phase
    }

    /// Whether `now` is a time that `step` accepts.
    pub fn clock_fits(&self, now: u64) -> (fits: bool)
        ensures
            fits == self@.clock_fits(now),
    {
        let slot = match self.txslot {
            Some(slot) => slot,
            None => 0,
        };
        now <= u64::MAX - self.eotwait && now <= u64::MAX - slot
    }

    /// What queuing a block ends in: success where the queue took the block,
    /// `Disconnected` where it handed the block back because the engine's
    /// end of the queue is gone.
    pub fn queued(outcome: Result<(), Vec<u8>>) -> (r: Result<(), LoraError>)
        ensures
            r is Ok <==> outcome is Ok,
            r matches Err(e) ==> e@ == Failure::Disconnected,
    {
        match outcome {
            Ok(()) => Ok(()),
            Err(_) => Err(LoraError::Disconnected),
        }
    }

    /// Queues `data` on `blocks` for transmission, waiting while the queue is
    /// full.
    ///
    /// Whether the queue takes the block lies with the engine's end of it;
    /// `queued` says what is made of either.
    pub fn transmit(blocks: &crossbeam_channel::Sender<Vec<u8>>, data: &[u8]) -> (r: Result<
        (),
        LoraError,
    >)
        ensures
            r matches Err(e) ==> e@ == Failure::Disconnected,
    {
        Self::queued(crate::link::send(blocks, slice_to_vec(data)))
    }

    fn fail(&mut self, e: LoraError) -> (r: Result<Action, LoraError>)
        requires
            old(self).inv(),
        ensures
            final(self).inv(),
            (Outcome { state: final(self)@, result: answer(r) }) == old(self)@.fail(e@),
    {
        self.phase = Phase::Halted;
        Err(e)
    }

    fn ask(&mut self, phase: Phase, action: Action) -> (r: Result<Action, LoraError>)
        requires
            old(self).inv(),
        ensures
            final(self).inv(),
            (Outcome { state: final(self)@, result: answer(r) }) == old(self)@.ask(phase, action@),
    {
        self.phase = phase;
        Ok(action)
    }

    /// Arms the receiver.
    fn enterrxmode(&mut self, goal: Goal) -> (r: Result<Action, LoraError>)
        requires
            old(self).inv(),
        ensures
            final(self).inv(),
            (Outcome { state: final(self)@, result: answer(r) }) == old(self)@.enterrxmode(goal),
    {
        self.ask(Phase::RxWrite(goal), Action::Write(String::from_str("radio rx 0")))
    }

    /// Goes on with the packet under assembly.
    fn assemble(&mut self, resume: Resume) -> (r: Result<Action, LoraError>)
        requires
            old(self).inv(),
            old(self)@.maxpacketsize >= 1,
        ensures
            final(self).inv(),
            (Outcome { state: final(self)@, result: answer(r) }) == old(self)@.assemble(resume),
    {
        if wants_frame(&self.outgoing, &self.extradata, self.maxpacketsize - 1) {
            self.ask(Phase::SendPoll(resume), Action::PollTransmit)
        } else {
            let pause = self.txwait;
            self.ask(Phase::SendSleep(resume), Action::Sleep(pause))
        }
    }

    /// Begins a transmission of `data` behind the leftover of the previous one.
    fn dosend(&mut self, data: Vec<u8>, resume: Resume) -> (r: Result<Action, LoraError>)
        requires
            old(self).inv(),
            old(self)@.maxpacketsize >= 1,
        ensures
            final(self).inv(),
            (Outcome { state: final(self)@, result: answer(r) }) == old(self)@.dosend(
                data@,
                resume,
            ),
    {
        let body = open_packet(&mut self.extradata, data, self.maxpacketsize - 1);
        self.outgoing = body;
        self.assemble(resume)
    }

    /// Whether transmitting is held back at time `now`, and for how long. A
    /// delay that has run out is cleared.
    fn txdelayrequired(&mut self, now: u64) -> (delay: Option<u64>)
        requires
            old(self).inv(),
        ensures
            final(self).inv(),
            delay == crate::turn::remaining(old(self)@.txdelay, now),
            delay is Some ==> final(self)@ == old(self)@,
            delay is None ==> final(self)@ == (Machine { txdelay: None, ..old(self)@ }),
    {
        match self.txdelay {
            None => None,
            Some(delayend) => {
                if now >= delayend {
                    self.txdelay = None;
                    None
                } else {
                    Some(delayend - now)
                }
            },
        }
    }

    /// The top of the main loop.
    fn top(&mut self, now: u64) -> (r: Result<Action, LoraError>)
        requires
            old(self).inv(),
            old(self)@.maxpacketsize >= 1,
        ensures
            final(self).inv(),
            (Outcome { state: final(self)@, result: answer(r) }) == old(self)@.top(now),
    {
        match self.txdelayrequired(now) {
            Some(delay) => self.enterrxmode(Goal::Gate(delay)),
            None => {
                if !self.extradata.is_empty() {
                    self.dosend(Vec::new(), Resume::Top)
                } else {
                    self.ask(Phase::Poll, Action::PollTransmit)
                }
            },
        }
    }

    /// Goes on where `resume` says.
    fn resume_at(&mut self, resume: Resume, now: u64) -> (r: Result<Action, LoraError>)
        requires
            old(self).inv(),
            old(self)@.maxpacketsize >= 1,
        ensures
            final(self).inv(),
            (Outcome { state: final(self)@, result: answer(r) }) == old(self)@.resume_at(
                resume,
                now,
            ),
    {
        match resume {
            Resume::Top => self.top(now),
            Resume::StopTail => self.ask(Phase::StopTail, Action::ReadLine),
        }
    }

    /// Hands on the packet received last.
    fn deliver(
        &mut self,
        quality: Option<(String, String)>,
        resume: Resume,
        now: u64,
    ) -> (r: Result<Action, LoraError>)
        requires
            old(self).inv(),
            old(self)@.heard.len() >= 1,
            now + old(self)@.eotwait <= u64::MAX,
        ensures
            final(self).inv(),
            (Outcome { state: final(self)@, result: answer(r) }) == old(self)@.deliver(
                match quality {
                    Some((snr, rssi)) => Some((snr@, rssi@)),
                    None => None,
                },
                resume,
                now,
            ),
    {
        let flag = self.heard[0];
        let payload = slice_to_vec(slice_subrange(self.heard.as_slice(), 1, self.heard.len()));
        self.txdelay = defer(flag, self.eotwait, now);
        self.ask(
            Phase::Deliver(resume, flag == FLAG_YIELD),
            Action::Deliver(ReceivedFrames(payload, quality)),
        )
    }

    /// Deals with a line that arrived while receiving.
    fn handlerx(&mut self, msg: String, readqual: bool, resume: Resume, now: u64) -> (r: Result<
        Action,
        LoraError,
    >)
        requires
            old(self).inv(),
            old(self)@.maxpacketsize >= 1,
            now + old(self)@.eotwait <= u64::MAX,
        ensures
            final(self).inv(),
            (Outcome { state: final(self)@, result: answer(r) }) == old(self)@.handlerx(
                msg@,
                readqual,
                resume,
                now,
            ),
    {
        if !reports_packet(&msg) {
            return self.resume_at(resume, now);
        }
        match read_packet(&msg) {
            Err(e) => self.fail(e),
            Ok(packet) => {
                self.heard = packet;
                if readqual {
                    self.ask(
                        Phase::SnrWrite(resume),
                        Action::Write(String::from_str("radio get snr")),
                    )
                } else {
                    self.deliver(None, resume, now)
                }
            },
        }
    }

    /// A line arrived while the receiver was armed.
    fn heard_line(&mut self, line: String, now: u64) -> (r: Result<Action, LoraError>)
        requires
            old(self).inv(),
            old(self)@.maxpacketsize >= 1,
            now + old(self)@.eotwait <= u64::MAX,
        ensures
            final(self).inv(),
            (Outcome { state: final(self)@, result: answer(r) }) == old(self)@.heard_line(
                line@,
                now,
            ),
    {
        self.mode = RadioMode::Idle;
        let readqual = self.readqual;
        self.handlerx(line, readqual, Resume::Top, now)
    }

    /// Stops the receiver.
    fn rxstop(&mut self) -> (r: Result<Action, LoraError>)
        requires
            old(self).inv(),
        ensures
            final(self).inv(),
            (Outcome { state: final(self)@, result: answer(r) }) == old(self)@.rxstop(),
    {
        self.mode = RadioMode::Idle;
        self.ask(Phase::StopWrite, Action::Write(String::from_str("radio rxstop")))
    }

    /// The receiver is armed.
    fn armed(&mut self, goal: Goal) -> (r: Result<Action, LoraError>)
        requires
            old(self).inv(),
        ensures
            final(self).inv(),
            (Outcome { state: final(self)@, result: answer(r) }) == old(self)@.armed(goal),
    {
        self.mode = RadioMode::Receiving;
        match goal {
            Goal::Gate(delay) => self.ask(Phase::Gate, Action::ReadLineTimeout(delay)),
            Goal::Wait => self.ask(Phase::Wait, Action::WaitAny),
        }
    }

    /// The packet leaves.
    fn emit(&mut self, waiting: bool, resume: Resume, now: u64) -> (r: Result<Action, LoraError>)
        requires
            old(self).inv(),
            old(self)@.clock_fits(now),
        ensures
            final(self).inv(),
            (Outcome { state: final(self)@, result: answer(r) }) == old(self)@.emit(
                waiting,
                resume,
                now,
            ),
    {
        let more = waiting || !self.extradata.is_empty();
        let turn = choose_turn(more, self.txslot, self.txslotend, self.txdelay, self.eotwait, now);
        self.txdelay = turn.txdelay;
        self.txslotend = turn.txslotend;
        let line = tx_line(turn.flag, &self.outgoing);
        self.ask(Phase::SendWrite(resume), Action::Write(line))
    }

    /// Configuration goes on with the first line that is not empty.
    fn initnext(&mut self) -> (r: Result<Action, LoraError>)
        requires
            old(self).inv(),
        ensures
            final(self).inv(),
            (Outcome { state: final(self)@, result: answer(r) }) == old(self)@.initnext(),
    {
        while self.initpos < self.initlines.len()
            && self.initlines[self.initpos].as_str().is_empty()
            invariant
                self.inv(),
                pending(self.todo()) == pending(old(self).todo()),
                self@ == (Machine { todo: self.todo(), ..old(self)@ }),
            decreases self.initlines@.len() - self.initpos,
        {
            assert(self.todo()[0].len() == 0);
            let ghost before = self.todo();
            self.initpos = self.initpos + 1;
            assert(self.todo() =~= before.drop_first());
        }
        if self.initpos < self.initlines.len() {
            assert(self.todo()[0].len() > 0);
            let line = self.initlines[self.initpos].clone();
            self.ask(Phase::InitWrite, Action::Write(line))
        } else {
            self.ask(Phase::Idle, Action::Done)
        }
    }

    /// The reply to a configuration line.
    fn initresp(&mut self, line: String) -> (r: Result<Action, LoraError>)
        requires
            old(self).inv(),
            old(self)@.todo.len() >= 1,
        ensures
            final(self).inv(),
            (Outcome { state: final(self)@, result: answer(r) }) == old(self)@.initresp(line@),
    {
        if is_text(&line, "invalid_param") {
            self.fail(mkerror("Bad response from radio during initialization"))
        } else {
            let ghost before = self.todo();
            assert(before == self@.todo);
            assert(before.len() >= 1);
            assert(before.len() == self.initlines@.len() - self.initpos);
            assert(self.initpos < self.initlines.len());
            self.initpos = self.initpos + 1;
            assert(self.todo() =~= before.drop_first());
            self.initnext()
        }
    }

    /// The lines that configure the radio when the caller names none.
    fn default_lines() -> (lines: Vec<String>)
        ensures
            lines_of(&lines) == default_init(),
    {
        let mut lines: Vec<String> = Vec::new();
        lines.push(String::from_str("sys get ver"));
        lines.push(String::from_str("mac reset"));
        lines.push(String::from_str("mac pause"));
        lines.push(String::from_str("radio get mod"));
        lines.push(String::from_str("radio get freq"));
        lines.push(String::from_str("radio get pwr"));
        lines.push(String::from_str("radio get sf"));
        lines.push(String::from_str("radio get bw"));
        lines.push(String::from_str("radio get cr"));
        lines.push(String::from_str("radio get wdt"));
        lines.push(String::from_str("radio set pwr 20"));
        lines.push(String::from_str("radio set sf sf12"));
        lines.push(String::from_str("radio set bw 125"));
        lines.push(String::from_str("radio set cr 4/5"));
        lines.push(String::from_str("radio set wdt 60000"));
        assert(lines_of(&lines) =~= default_init());
        lines
    }

    /// Starts the configuration of the radio, with the lines of `initfile` or,
    /// where it is `None`, with the default lines.
    ///
    /// The engine first sends a command that the radio cannot know, gives it
    /// a second and discards what it answered. Then it sends each line that
    /// is not empty and takes the reply; `invalid_param` is fatal. The answer
    /// to the last event of configuration is `Action::Done`.
    pub fn radiocfg(&mut self, initfile: Option<Vec<String>>) -> (r: Result<Action, LoraError>)
        requires
            old(self).wf(),
        ensures
            final(self).wf(),
            final(self)@.configured_as(old(self)@),
            (Outcome { state: final(self)@, result: answer(r) }) == old(self)@.radiocfg(
                init_of(&initfile),
            ),
    {
        proof {
            crate::laws::lemma_radiocfg_valid(self@, init_of(&initfile));
        }
        match self.phase {
            Phase::Idle => {},
            _ => {
                return self.fail(LoraError::OutOfTurn);
            },
        }
        let lines = match initfile {
            Some(lines) => lines,
            None => Self::default_lines(),
        };
        self.initlines = lines;
        self.initpos = 0;
        assert(self.todo() =~= lines_of(&self.initlines));
        self.ask(Phase::InitProbeWrite, Action::Write(String::from_str("INVALIDCOMMAND")))
    }

    /// Starts the main loop at time `now`.
    pub fn mainloop(&mut self, now: u64) -> (r: Result<Action, LoraError>)
        requires
            old(self).wf(),
        ensures
            final(self).wf(),
            final(self)@.configured_as(old(self)@),
            (Outcome { state: final(self)@, result: answer(r) }) == old(self)@.mainloop(now),
    {
        proof {
            crate::laws::lemma_mainloop_valid(self@, now);
        }
        match self.phase {
            Phase::Idle => self.top(now),
            _ => self.fail(LoraError::OutOfTurn),
        }
    }

    /// What the engine is busy with.
    pub fn stage(&self) -> (stage: Stage)
        ensures
            stage == crate::machine::stage(self@.phase),
    {
        match self.phase {
            Phase::Idle | Phase::Halted => Stage::Resting,
            Phase::InitProbeWrite
            | Phase::InitSettle
            | Phase::InitDrain
            | Phase::InitWrite
            | Phase::InitReply => Stage::Configuring,
            Phase::Poll
            | Phase::RxWrite(_)
            | Phase::RxReply(_, _)
            | Phase::Gate
            | Phase::Wait
            | Phase::StopWrite
            | Phase::StopReply
            | Phase::StopTail => Stage::Listening,
            Phase::SnrWrite(_)
            | Phase::SnrReply(_)
            | Phase::RssiWrite(_)
            | Phase::RssiReply(_)
            | Phase::Deliver(_, _) => Stage::Hearing,
            Phase::SendPoll(_)
            | Phase::SendSleep(_)
            | Phase::SendProbe(_)
            | Phase::SendWrite(_)
            | Phase::SendReply(_, _)
            | Phase::SendTail(_) => Stage::Sending,
        }
    }

    /// An event while the radio is being configured.
    fn init_step(&mut self, event: Event) -> (r: Result<Action, LoraError>)
        requires
            old(self).wf(),
        ensures
            final(self).inv(),
            (Outcome { state: final(self)@, result: answer(r) }) == old(self)@.init_step(event),
    {
        match (self.phase, event) {
            (Phase::InitProbeWrite, Event::Written) => self.ask(
                Phase::InitSettle,
                Action::Sleep(1000),
            ),
            (Phase::InitSettle, Event::Slept) => self.ask(Phase::InitDrain, Action::TryReadLine),
            (Phase::InitDrain, Event::Line(_)) => self.ask(Phase::InitDrain, Action::TryReadLine),
            (Phase::InitDrain, Event::NoLine) => self.initnext(),
            (Phase::InitWrite, Event::Written) => self.ask(Phase::InitReply, Action::ReadLine),
            (Phase::InitReply, Event::Line(line)) => self.initresp(line),
            _ => self.fail(LoraError::OutOfTurn),
        }
    }

    /// An event while the engine looks for something to send, arms the
    /// receiver, listens, or stops the receiver.
    fn listen_step(&mut self, event: Event, now: u64) -> (r: Result<Action, LoraError>)
        requires
            old(self).wf(),
            old(self)@.clock_fits(now),
        ensures
            final(self).inv(),
            (Outcome { state: final(self)@, result: answer(r) }) == old(self)@.listen_step(
                event,
                now,
            ),
    {
        match (self.phase, event) {
            (Phase::Poll, Event::Frame(payload)) => self.dosend(payload, Resume::Top),
            (Phase::Poll, Event::NoFrame) => self.enterrxmode(Goal::Wait),
            (Phase::RxWrite(goal), Event::Written) => self.ask(
                Phase::RxReply(goal, false),
                Action::ReadLine,
            ),
            (Phase::RxReply(goal, retried), Event::Line(line)) => {
                if !retried && is_text(&line, "radio_err") {
                    self.ask(Phase::RxReply(goal, true), Action::ReadLine)
                } else {
                    match assert_response(line, String::from_str("ok")) {
                        Ok(()) => self.armed(goal),
                        Err(e) => self.fail(e),
                    }
                }
            },
            (Phase::Gate, Event::Line(line)) => self.heard_line(line, now),
            (Phase::Gate, Event::Timeout) => {
                self.txdelay = None;
                self.ask(Phase::Wait, Action::WaitAny)
            },
            (Phase::Wait, Event::Line(line)) => self.heard_line(line, now),
            (Phase::Wait, Event::TransmitReady) => self.rxstop(),
            (Phase::StopWrite, Event::Written) => self.ask(Phase::StopReply, Action::ReadLine),
            (Phase::StopReply, Event::Line(line)) => {
                if reports_packet(&line) {
                    self.handlerx(line, false, Resume::StopTail, now)
                } else {
                    self.top(now)
                }
            },
            (Phase::StopTail, Event::Line(_)) => self.top(now),
            _ => self.fail(LoraError::OutOfTurn),
        }
    }

    /// An event while a received packet is being dealt with.
    fn hear_step(&mut self, event: Event, now: u64) -> (r: Result<Action, LoraError>)
        requires
            old(self).wf(),
            old(self)@.clock_fits(now),
        ensures
            final(self).inv(),
            (Outcome { state: final(self)@, result: answer(r) }) == old(self)@.hear_step(
                event,
                now,
            ),
    {
        match (self.phase, event) {
            (Phase::SnrWrite(resume), Event::Written) => self.ask(
                Phase::SnrReply(resume),
                Action::ReadLine,
            ),
            (Phase::SnrReply(resume), Event::Line(line)) => {
                self.snr = line;
                self.ask(
                    Phase::RssiWrite(resume),
                    Action::Write(String::from_str("radio get rssi")),
                )
            },
            (Phase::RssiWrite(resume), Event::Written) => self.ask(
                Phase::RssiReply(resume),
                Action::ReadLine,
            ),
            (Phase::RssiReply(resume), Event::Line(line)) => {
                let snr = self.snr.clone();
                self.deliver(Some((snr, line)), resume, now)
            },
            (Phase::Deliver(resume, send), Event::Delivered) => {
                if send {
                    self.dosend(Vec::new(), resume)
                } else {
                    self.resume_at(resume, now)
                }
            },
            _ => self.fail(LoraError::OutOfTurn),
        }
    }

    /// An event during a transmission.
    fn send_step(&mut self, event: Event, now: u64) -> (r: Result<Action, LoraError>)
        requires
            old(self).wf(),
            old(self)@.clock_fits(now),
        ensures
            final(self).inv(),
            (Outcome { state: final(self)@, result: answer(r) }) == old(self)@.send_step(
                event,
                now,
            ),
    {
        match (self.phase, event) {
            (Phase::SendPoll(resume), Event::Frame(next)) => {
                let limit = self.maxpacketsize - 1;
                let pack = self.pack;
                absorb_frame(&mut self.outgoing, &mut self.extradata, next, limit, pack);
                self.assemble(resume)
            },
            (Phase::SendPoll(resume), Event::NoFrame) => {
                let pause = self.txwait;
                self.ask(Phase::SendSleep(resume), Action::Sleep(pause))
            },
            (Phase::SendSleep(resume), Event::Slept) => self.ask(
                Phase::SendProbe(resume),
                Action::ProbeTransmit,
            ),
            (Phase::SendProbe(resume), Event::Backlog(waiting)) => self.emit(waiting, resume, now),
            (Phase::SendWrite(resume), Event::Written) => self.ask(
                Phase::SendReply(resume, false),
                Action::ReadLine,
            ),
            (Phase::SendReply(resume, retried), Event::Line(line)) => {
                if !retried && is_text(&line, "radio_err") {
                    self.ask(Phase::SendReply(resume, true), Action::ReadLine)
                } else {
                    match assert_response(line, String::from_str("ok")) {
                        Ok(()) => self.ask(Phase::SendTail(resume), Action::ReadLine),
                        Err(e) => self.fail(e),
                    }
                }
            },
            (Phase::SendTail(resume), Event::Line(_)) => self.resume_at(resume, now),
            _ => self.fail(LoraError::OutOfTurn),
        }
    }

    /// Takes the event that answers the action asked for last, at time `now`,
    /// and says what is to be done next.
    ///
    /// `now` is in milliseconds on a clock that does not run backwards, and
    /// early enough for the engine's deadlines to be set from it.
    pub fn step(&mut self, event: Event, now: u64) -> (r: Result<Action, LoraError>)
        requires
            old(self).wf(),
            old(self)@.clock_fits(now),
        ensures
            final(self).wf(),
            final(self)@.configured_as(old(self)@),
            (Outcome { state: final(self)@, result: answer(r) }) == old(self)@.step(event, now),
    {
        proof {
            crate::laws::lemma_step_valid(self@, event, now);
        }
        let stage = self.stage();
        match stage {
            Stage::Resting => {
                return self.fail(LoraError::OutOfTurn);
            },
            _ => {},
        }
        match event {
            Event::Disconnected => {
                return self.fail(LoraError::Disconnected);
            },
            _ => {},
        }
        match stage {
            Stage::Resting => self.fail(LoraError::OutOfTurn),
            Stage::Configuring => self.init_step(event),
            Stage::Listening => self.listen_step(event, now),
            Stage::Hearing => self.hear_step(event, now),
            Stage::Sending => self.send_step(event, now),
        }
    }
}

} // verus!
