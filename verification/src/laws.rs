//! What holds of the engine whatever its driver reports.
//!
//! The first part names what the laws speak of: the bytes the engine holds,
//! takes and sends, the lines the radio owes it, and runs of events. The
//! second proves, stage by stage, everything that holds of a single step.
//! The third states the laws one by one.

use crate::error::Failure;
use crate::hexcode::{hex_text, wire_bytes};
use crate::link::answers;
use crate::machine::{
    pending, stage, Event, Frame, Goal, Machine, Outcome, Phase, RadioMode, Request, Resume, Stage,
};
use crate::packet::{
    lemma_absorbed_leftover, lemma_cut_keeps, lemma_opened_leftover, lemma_unpacked_frame_whole,
};
use crate::turn::{chosen, FLAG_MORE, FLAG_YIELD};
use crate::wire::{is_rx_line, rx_packet, rx_readable, rx_report, tx_command};
use vstd::prelude::*;

verus! {

/// The bytes that the engine holds for transmission: the packet under
/// assembly, if one is, and the leftover behind it.
pub open spec fn held(s: Machine) -> Seq<u8> {
    if s.sending() {
        s.outgoing + s.extradata
    } else {
        s.extradata
    }
}

/// The payload that `event` hands to the engine from the transmit queue.
pub open spec fn taken(s: Machine, event: Event) -> Seq<u8> {
    match (s.phase, event) {
        (Phase::Poll, Event::Frame(payload)) => payload@,
        (Phase::SendPoll(_), Event::Frame(payload)) => payload@,
        _ => Seq::empty(),
    }
}

/// The payload that leaves the engine in answer to `event`: that of the
/// packet whose command the engine then asks to be written.
pub open spec fn sent(s: Machine, event: Event) -> Seq<u8> {
    match (s.phase, event) {
        (Phase::SendProbe(_), Event::Backlog(_)) => s.outgoing,
        _ => Seq::empty(),
    }
}

/// The flag of the packet that leaves in answer to `event`.
pub open spec fn flag_sent(s: Machine, event: Event, now: u64) -> u8 {
    chosen(
        event->Backlog_0 || s.extradata.len() > 0,
        s.txslot,
        s.txslotend,
        s.txdelay,
        s.eotwait,
        now,
    ).flag
}

/// The lines that `event` brings: one if it is a line, none otherwise.
pub open spec fn lines_in(event: Event) -> nat {
    if event is Line {
        1
    } else {
        0
    }
}

/// The number of lines that the radio owes for the commands written to it:
/// one for each command, two for a transmission, less those taken. A
/// transmission that a packet arriving during a receiver stop made necessary
/// leaves the stop's closing line owed throughout.
pub open spec fn debt(phase: Phase) -> nat {
    match phase {
        Phase::InitWrite
        | Phase::InitReply
        | Phase::RxWrite(_)
        | Phase::RxReply(_, _)
        | Phase::StopWrite
        | Phase::StopReply
        | Phase::StopTail
        | Phase::SnrWrite(_)
        | Phase::SnrReply(_)
        | Phase::RssiWrite(_)
        | Phase::RssiReply(_) => 1,
        Phase::Deliver(resume, _)
        | Phase::SendPoll(resume)
        | Phase::SendSleep(resume)
        | Phase::SendProbe(resume) => behind(resume),
        Phase::SendWrite(resume) | Phase::SendReply(resume, _) => 2 + behind(resume),
        Phase::SendTail(resume) => 1 + behind(resume),
        _ => 0,
    }
}

/// The line still owed to the receiver stop that is to be resumed, if one is.
pub open spec fn behind(resume: Resume) -> nat {
    if resume == Resume::StopTail {
        1
    } else {
        0
    }
}

/// Whether the engine has to transmit before it does anything else: the peer
/// has yielded, or the transmission is on its way to being written.
pub open spec fn obliged(phase: Phase) -> bool {
    phase matches Phase::Deliver(_, true) || phase matches Phase::SendPoll(_)
        || phase matches Phase::SendSleep(_) || phase matches Phase::SendProbe(_)
}

/// Whether the frame that `event` hands over, if it hands one over, leaves
/// at most one packet's worth of bytes behind the packet it goes into.
pub open spec fn frame_fits(s: Machine, event: Event) -> bool {
    match (s.phase, event) {
        (Phase::Poll, Event::Frame(payload)) => payload@.len() <= 2 * s.limit(),
        (Phase::SendPoll(_), Event::Frame(next)) => if s.pack {
            s.outgoing.len() + next@.len() <= 2 * s.limit()
        } else {
            s.outgoing.len() + next@.len() <= s.limit() || next@.len() <= s.limit()
        },
        _ => true,
    }
}

/// Whether `request` is what the engine has asked for in `phase`.
pub open spec fn expects(phase: Phase, request: Request) -> bool {
    match phase {
        Phase::Idle => request is Done,
        Phase::Halted => false,
        Phase::InitProbeWrite
        | Phase::InitWrite
        | Phase::RxWrite(_)
        | Phase::StopWrite
        | Phase::SnrWrite(_)
        | Phase::RssiWrite(_)
        | Phase::SendWrite(_) => request is Write,
        Phase::InitSettle | Phase::SendSleep(_) => request is Sleep,
        Phase::InitDrain => request is TryReadLine,
        Phase::InitReply
        | Phase::RxReply(_, _)
        | Phase::StopReply
        | Phase::StopTail
        | Phase::SnrReply(_)
        | Phase::RssiReply(_)
        | Phase::SendReply(_, _)
        | Phase::SendTail(_) => request is ReadLine,
        Phase::Poll | Phase::SendPoll(_) => request is PollTransmit,
        Phase::Gate => request is ReadLineTimeout,
        Phase::Wait => request is WaitAny,
        Phase::Deliver(_, _) => request is Deliver,
        Phase::SendProbe(_) => request is ProbeTransmit,
    }
}

/// Whether the engine is receiving, or is stopping the receiver and has not
/// had the radio's reply yet: the phases in which a received packet may be
/// reported.
pub open spec fn listening(phase: Phase) -> bool {
    phase == Phase::Gate || phase == Phase::Wait || phase == Phase::StopReply
}

/// Whether `line` reports a packet that can be read.
pub open spec fn reports_frame(line: Seq<char>) -> bool {
    is_rx_line(wire_bytes(line)) && rx_readable(wire_bytes(line))
}

/// The frame that such a line reports: the packet after its flag byte.
pub open spec fn reported(line: Seq<char>) -> Seq<u8> {
    rx_packet(wire_bytes(line)).skip(1)
}

/// The bytes of the packet under assembly, if one is.
pub open spec fn in_packet(s: Machine) -> Seq<u8> {
    if s.sending() {
        s.outgoing
    } else {
        Seq::empty()
    }
}

/// Whether `event` hands the engine a frame from the transmit queue.
pub open spec fn takes(s: Machine, event: Event) -> bool {
    (s.phase is Poll || s.phase is SendPoll) && event is Frame
}

/// What a step does with the bytes to transmit.
pub enum Move {
    /// Nothing.
    Rests,
    /// The frame taken joins the packet under assembly.
    Joins,
    /// The frame taken is left over for the next packet.
    Waits,
    /// The leftover opens a packet.
    Opens,
    /// The packet leaves.
    Leaves,
}

/// What the step from `s` on `event` to `next` does with the bytes to
/// transmit.
pub open spec fn move_of(s: Machine, event: Event, next: Machine) -> Move {
    if sends(s, event) {
        Move::Leaves
    } else if takes(s, event) {
        if next.extradata == s.extradata {
            Move::Joins
        } else {
            Move::Waits
        }
    } else if !s.sending() && next.sending() {
        Move::Opens
    } else {
        Move::Rests
    }
}

/// Whether the step moved whole what it moved: the frame taken into the
/// packet or into the empty leftover, the leftover into an empty packet,
/// the packet out, and nothing else.
pub open spec fn moved_whole(s: Machine, event: Event, next: Machine) -> bool {
    match move_of(s, event, next) {
        Move::Rests => in_packet(next) == in_packet(s) && next.extradata == s.extradata,
        Move::Joins => in_packet(next) == in_packet(s) + taken(s, event) && next.extradata.len()
            == 0 && s.extradata.len() == 0,
        Move::Waits => in_packet(next) == in_packet(s) && next.extradata == taken(s, event)
            && s.extradata.len() == 0,
        Move::Opens => in_packet(next) == s.extradata && next.extradata.len() == 0,
        Move::Leaves => sent(s, event) == in_packet(s) && in_packet(next).len() == 0
            && next.extradata == s.extradata,
    }
}

/// The payload that the engine has received and not yet handed on: that of
/// the packet it keeps while the quality is read.
pub open spec fn kept(s: Machine) -> Seq<u8> {
    if s.phase is SnrWrite || s.phase is SnrReply || s.phase is RssiWrite || s.phase is RssiReply {
        s.heard.skip(1)
    } else {
        Seq::empty()
    }
}

/// Whether `event` is a line that reports a readable packet to an engine
/// that can be reported to.
pub open spec fn hears(s: Machine, event: Event) -> bool {
    listening(s.phase) && event is Line && reports_frame(event->Line_0@)
}

/// The payload that `event` brings the engine from the air.
pub open spec fn heard_in(s: Machine, event: Event) -> Seq<u8> {
    if hears(s, event) {
        reported(event->Line_0@)
    } else {
        Seq::empty()
    }
}

/// The payload that the engine hands on with its answer.
pub open spec fn handed_on(result: Result<Request, Failure>) -> Seq<u8> {
    match result {
        Ok(Request::Deliver(frame)) => frame.payload,
        _ => Seq::empty(),
    }
}

/// The frame that the engine has received and not yet handed on, if there
/// is one.
pub open spec fn kept_frame(s: Machine) -> Seq<Seq<u8>> {
    if s.phase is SnrWrite || s.phase is SnrReply || s.phase is RssiWrite || s.phase is RssiReply {
        seq![s.heard.skip(1)]
    } else {
        Seq::empty()
    }
}

/// The frame that `event` brings the engine from the air, if it brings one.
pub open spec fn heard_frame(s: Machine, event: Event) -> Seq<Seq<u8>> {
    if hears(s, event) {
        seq![reported(event->Line_0@)]
    } else {
        Seq::empty()
    }
}

/// The frame that the engine hands on with its answer, if it hands one on.
pub open spec fn handed_frame(result: Result<Request, Failure>) -> Seq<Seq<u8>> {
    match result {
        Ok(Request::Deliver(frame)) => seq![frame.payload],
        _ => Seq::empty(),
    }
}

/// Whether the engine answers `event` by asking for a packet to be written.
pub open spec fn sends(s: Machine, event: Event) -> bool {
    s.phase is SendProbe && event is Backlog
}

/// The packet that then leaves, flag byte first.
pub open spec fn packet_sent(s: Machine, event: Event, now: u64) -> Seq<u8> {
    seq![flag_sent(s, event, now)] + s.outgoing
}

/// The command that transmits `packet`, which holds the flag byte first.
pub open spec fn tx_line_of(packet: Seq<u8>) -> Seq<char> {
    "radio tx "@ + hex_text(packet)
}

/// What a bridge between two radios makes of a command to transmit: the
/// line by which the other radio reports the packet in it.
pub open spec fn bridged(command: Seq<char>) -> Seq<char> {
    "radio_rx  "@ + command.skip(9)
}

/// What the bridge makes of the commands that transmit `packets`, one by one.
pub open spec fn bridged_all(packets: Seq<Seq<u8>>) -> Seq<Seq<char>> {
    Seq::new(packets.len(), |i: int| bridged(tx_line_of(packets[i])))
}

/// The packets that lines report, one by one.
pub open spec fn packets_of(lines: Seq<Seq<char>>) -> Seq<Seq<u8>> {
    Seq::new(lines.len(), |i: int| rx_packet(wire_bytes(lines[i])))
}

/// The payloads of packets, one after the other.
pub open spec fn payloads(packets: Seq<Seq<u8>>) -> Seq<u8>
    decreases packets.len(),
{
    if packets.len() == 0 {
        Seq::empty()
    } else {
        packets[0].skip(1) + payloads(packets.drop_first())
    }
}

/// The packets that leave the engine while it takes `events`, in order.
pub open spec fn packets_sent(s: Machine, events: Seq<(Event, u64)>) -> Seq<Seq<u8>>
    decreases events.len(),
{
    if events.len() == 0 {
        Seq::empty()
    } else {
        let rest = packets_sent(s.step(events[0].0, events[0].1).state, events.drop_first());
        if sends(s, events[0].0) {
            seq![packet_sent(s, events[0].0, events[0].1)] + rest
        } else {
            rest
        }
    }
}

/// The lines among `events` that report a packet to the engine, in order.
pub open spec fn lines_heard(s: Machine, events: Seq<(Event, u64)>) -> Seq<Seq<char>>
    decreases events.len(),
{
    if events.len() == 0 {
        Seq::empty()
    } else {
        let rest = lines_heard(s.step(events[0].0, events[0].1).state, events.drop_first());
        if hears(s, events[0].0) {
            seq![events[0].0->Line_0@] + rest
        } else {
            rest
        }
    }
}

/// All the payload that `events` bring the engine from the air, in order.
pub open spec fn heard_along(s: Machine, events: Seq<(Event, u64)>) -> Seq<u8>
    decreases events.len(),
{
    if events.len() == 0 {
        Seq::empty()
    } else {
        heard_in(s, events[0].0) + heard_along(
            s.step(events[0].0, events[0].1).state,
            events.drop_first(),
        )
    }
}

/// All the payload that the engine hands on while it takes `events`, in order.
pub open spec fn handed_along(s: Machine, events: Seq<(Event, u64)>) -> Seq<u8>
    decreases events.len(),
{
    if events.len() == 0 {
        Seq::empty()
    } else {
        handed_on(s.step(events[0].0, events[0].1).result) + handed_along(
            s.step(events[0].0, events[0].1).state,
            events.drop_first(),
        )
    }
}

/// The engine after it took `events`, each with its time, one after the other.
pub open spec fn after(s: Machine, events: Seq<(Event, u64)>) -> Machine
    decreases events.len(),
{
    if events.len() == 0 {
        s
    } else {
        after(s.step(events[0].0, events[0].1).state, events.drop_first())
    }
}

/// Whether the engine took each of `events` without failing.
pub open spec fn runs(s: Machine, events: Seq<(Event, u64)>) -> bool
    decreases events.len(),
{
    events.len() == 0 || {
        &&& s.step(events[0].0, events[0].1).result is Ok
        &&& runs(s.step(events[0].0, events[0].1).state, events.drop_first())
    }
}

/// All the payload that `events` hand to the engine, in order.
pub open spec fn taken_along(s: Machine, events: Seq<(Event, u64)>) -> Seq<u8>
    decreases events.len(),
{
    if events.len() == 0 {
        Seq::empty()
    } else {
        taken(s, events[0].0) + taken_along(
            s.step(events[0].0, events[0].1).state,
            events.drop_first(),
        )
    }
}

/// All the payload that leaves the engine while it takes `events`, in order.
pub open spec fn sent_along(s: Machine, events: Seq<(Event, u64)>) -> Seq<u8>
    decreases events.len(),
{
    if events.len() == 0 {
        Seq::empty()
    } else {
        sent(s, events[0].0) + sent_along(
            s.step(events[0].0, events[0].1).state,
            events.drop_first(),
        )
    }
}

/// Whether `command` arms the receiver or asks for one of the two quality
/// readings.
pub open spec fn listens_or_asks(command: Seq<char>) -> bool {
    command == "radio rx 0"@ || command == "radio get snr"@ || command == "radio get rssi"@
}

/// Whether, along `events`, every time is before `end`, no wait is reported
/// to have run out, and no received packet is handed on.
pub open spec fn quiet_before(s: Machine, events: Seq<(Event, u64)>, end: u64) -> bool
    decreases events.len(),
{
    events.len() == 0 || {
        &&& events[0].1 < end
        &&& !(events[0].0 is Timeout)
        &&& !(s.step(events[0].0, events[0].1).result matches Ok(Request::Deliver(_)))
        &&& quiet_before(s.step(events[0].0, events[0].1).state, events.drop_first(), end)
    }
}

/// The commands that the engine asks to be written along `events`, in order.
pub open spec fn written_along(s: Machine, events: Seq<(Event, u64)>) -> Seq<Seq<char>>
    decreases events.len(),
{
    if events.len() == 0 {
        Seq::empty()
    } else {
        let rest = written_along(s.step(events[0].0, events[0].1).state, events.drop_first());
        match s.step(events[0].0, events[0].1).result {
            Ok(Request::Write(command)) => seq![command] + rest,
            _ => rest,
        }
    }
}

/// The first command that the engine asks to be written along `events`, if
/// it asks for any.
pub open spec fn first_written(s: Machine, events: Seq<(Event, u64)>) -> Option<Seq<char>>
    decreases events.len(),
{
    if events.len() == 0 {
        None
    } else {
        match s.step(events[0].0, events[0].1).result {
            Ok(Request::Write(command)) => Some(command),
            _ => first_written(s.step(events[0].0, events[0].1).state, events.drop_first()),
        }
    }
}

/// What is left of configuration lines after the empty ones in front were
/// dropped is nothing, or starts with a line that is not empty.
pub proof fn lemma_pending_starts_full(lines: Seq<Seq<char>>)
    ensures
        pending(lines).len() == 0 || pending(lines)[0].len() >= 1,
    decreases lines.len(),
{
    if lines.len() > 0 && lines[0].len() == 0 {
        lemma_pending_starts_full(lines.drop_first());
    }
}

/// Everything that is proved of a single step at once, stage by stage: the
/// step from `s` on `event` at time `now` has the outcome `out`.
spec fn upheld(s: Machine, event: Event, now: u64, out: Outcome) -> bool {
    let next = out.state;
    &&& next.valid()
    &&& next.configured_as(s)
    &&& out.result matches Ok(request) ==> {
        &&& expects(next.phase, request)
        &&& held(s) + taken(s, event) == sent(s, event) + held(next)
        &&& request is Write ==> debt(next.phase) >= 1
        &&& request is Write && s.phase != Phase::SendProbe(Resume::StopTail) ==> debt(s.phase)
            <= lines_in(event)
        &&& debt(next.phase) < debt(s.phase) ==> event is Line && debt(next.phase) == debt(s.phase)
            - 1
        &&& s.txdelay is Some && now < s.txdelay->0 && !(request is Deliver) && !(event is Timeout)
            ==> next.txdelay == s.txdelay && !next.sending() && !(next.phase is SendWrite)
        &&& s.phase is SendProbe ==> request == Request::Write(
            tx_command(flag_sent(s, event, now), s.outgoing),
        )
        &&& obliged(s.phase) && !(s.phase is SendProbe) ==> obliged(next.phase) && !(request
            is Write)
        &&& s.extradata.len() <= s.limit() ==> (next.extradata.len() <= s.limit() <==> frame_fits(
            s,
            event,
        ))
        &&& s.sending() && next.sending() ==> s.outgoing.is_prefix_of(next.outgoing)
        &&& kept(s) + heard_in(s, event) == handed_on(out.result) + kept(next)
        &&& kept_frame(s) + heard_frame(s, event) == handed_frame(out.result) + kept_frame(next)
        &&& !s.pack && s.extradata.len() <= s.limit() && taken(s, event).len() <= s.limit()
            ==> moved_whole(s, event, next) && next.extradata.len() <= s.limit()
    }
}

/// Everything holds of a step that fails.
proof fn lemma_fail_upheld(s: Machine, event: Event, now: u64, failure: Failure)
    requires
        s.valid(),
    ensures
        upheld(s, event, now, s.fail(failure)),
{
}

/// Everything holds of a step while the radio is being configured.
proof fn lemma_configuring_upheld(s: Machine, event: Event, now: u64)
    requires
        s.valid(),
        stage(s.phase) == Stage::Configuring,
    ensures
        upheld(s, event, now, s.init_step(event)),
{
    lemma_pending_starts_full(s.todo);
    lemma_pending_starts_full(s.todo.drop_first());
    assert(s.extradata + Seq::<u8>::empty() =~= Seq::<u8>::empty() + s.extradata);
    assert(s.outgoing.is_prefix_of(s.outgoing));
}

/// Everything holds of a step that polls the transmit queue at the top of
/// the loop, or arms the receiver.
proof fn lemma_arming_upheld(s: Machine, event: Event, now: u64)
    requires
        s.valid(),
        s.phase is Poll || s.phase is RxWrite || s.phase is RxReply,
    ensures
        upheld(s, event, now, s.listen_step(event, now)),
{
    let out = s.listen_step(event, now);
    if out.result is Ok {
        match (s.phase, event) {
            (Phase::Poll, Event::Frame(payload)) => {
                lemma_cut_keeps(payload@, s.limit());
                lemma_opened_leftover(s.extradata, payload@, s.limit());
                assert(s.extradata + payload@ =~= payload@);
            },
            _ => {},
        }
        assert(held(s) + taken(s, event) =~= sent(s, event) + held(out.state));
    }
}

/// Everything holds of a step while the engine listens.
proof fn lemma_waiting_upheld(s: Machine, event: Event, now: u64)
    requires
        s.valid(),
        s.phase is Gate || s.phase is Wait,
    ensures
        upheld(s, event, now, s.listen_step(event, now)),
{
    let out = s.listen_step(event, now);
    if out.result is Ok {
        lemma_cut_keeps(s.extradata, s.limit());
        assert(held(s) + taken(s, event) =~= sent(s, event) + held(out.state));
    }
}

/// Everything holds of a step that stops the receiver.
proof fn lemma_stopping_upheld(s: Machine, event: Event, now: u64)
    requires
        s.valid(),
        s.phase is StopWrite || s.phase is StopReply || s.phase is StopTail,
    ensures
        upheld(s, event, now, s.listen_step(event, now)),
{
    let out = s.listen_step(event, now);
    if out.result is Ok {
        lemma_cut_keeps(s.extradata, s.limit());
        assert(held(s) + taken(s, event) =~= sent(s, event) + held(out.state));
    }
}

/// Everything holds of a step while the engine looks for something to send,
/// arms the receiver, listens, or stops the receiver.
proof fn lemma_listening_upheld(s: Machine, event: Event, now: u64)
    requires
        s.valid(),
        stage(s.phase) == Stage::Listening,
    ensures
        upheld(s, event, now, s.listen_step(event, now)),
{
    if s.phase is Poll || s.phase is RxWrite || s.phase is RxReply {
        lemma_arming_upheld(s, event, now);
    } else if s.phase is Gate || s.phase is Wait {
        lemma_waiting_upheld(s, event, now);
    } else {
        lemma_stopping_upheld(s, event, now);
    }
}

/// Everything holds of a step while a received packet is dealt with.
proof fn lemma_hearing_upheld(s: Machine, event: Event, now: u64)
    requires
        s.valid(),
        stage(s.phase) == Stage::Hearing,
    ensures
        upheld(s, event, now, s.hear_step(event, now)),
{
    let out = s.hear_step(event, now);
    if out.result is Ok {
        lemma_cut_keeps(s.extradata, s.limit());
        assert(s.extradata + Seq::<u8>::empty() =~= s.extradata);
        assert(held(s) + taken(s, event) =~= sent(s, event) + held(out.state));
    }
}

/// Everything holds of a step while a packet is put together and leaves.
proof fn lemma_assembling_upheld(s: Machine, event: Event, now: u64)
    requires
        s.valid(),
        s.sending(),
    ensures
        upheld(s, event, now, s.send_step(event, now)),
{
    let out = s.send_step(event, now);
    if out.result is Ok {
        match (s.phase, event) {
            (Phase::SendPoll(_), Event::Frame(next)) => {
                lemma_cut_keeps(s.outgoing + next@, s.limit());
                lemma_absorbed_leftover(s.assembly(), next@, s.limit(), s.pack);
                assert(out.state.outgoing.subrange(0, s.outgoing.len() as int) =~= s.outgoing);
            },
            _ => {
                assert(s.outgoing.subrange(0, s.outgoing.len() as int) =~= s.outgoing);
            },
        }
        assert(held(s) + taken(s, event) =~= sent(s, event) + held(out.state));
    }
}

/// Everything holds of a step while the radio's replies to a transmission
/// are taken.
proof fn lemma_completing_upheld(s: Machine, event: Event, now: u64)
    requires
        s.valid(),
        s.phase is SendWrite || s.phase is SendReply || s.phase is SendTail,
    ensures
        upheld(s, event, now, s.send_step(event, now)),
{
    let out = s.send_step(event, now);
    if out.result is Ok {
        lemma_cut_keeps(s.extradata, s.limit());
        assert(held(s) + taken(s, event) =~= sent(s, event) + held(out.state));
    }
}

/// Everything holds of a step during a transmission.
proof fn lemma_sending_upheld(s: Machine, event: Event, now: u64)
    requires
        s.valid(),
        stage(s.phase) == Stage::Sending,
    ensures
        upheld(s, event, now, s.send_step(event, now)),
{
    if s.sending() {
        lemma_assembling_upheld(s, event, now);
    } else {
        lemma_completing_upheld(s, event, now);
    }
}

/// Everything holds of every step.
proof fn lemma_step_upheld(s: Machine, event: Event, now: u64)
    requires
        s.valid(),
    ensures
        upheld(s, event, now, s.step(event, now)),
{
    if stage(s.phase) == Stage::Resting {
        lemma_fail_upheld(s, event, now, Failure::OutOfTurn);
    } else if event is Disconnected {
        lemma_fail_upheld(s, event, now, Failure::Disconnected);
    } else {
        match stage(s.phase) {
            Stage::Resting => {},
            Stage::Configuring => lemma_configuring_upheld(s, event, now),
            Stage::Listening => lemma_listening_upheld(s, event, now),
            Stage::Hearing => lemma_hearing_upheld(s, event, now),
            Stage::Sending => lemma_sending_upheld(s, event, now),
        }
    }
}

/// Every event leaves a valid engine valid, and its options as they are.
pub proof fn lemma_step_valid(s: Machine, event: Event, now: u64)
    requires
        s.valid(),
    ensures
        s.step(event, now).state.valid(),
        s.step(event, now).state.configured_as(s),
{
    lemma_step_upheld(s, event, now);
}

/// A transmission that begins while none is held back and the receiver is
/// off leaves the engine valid, with the transmission decided on.
pub proof fn lemma_dosend_valid(s: Machine, payload: Seq<u8>, resume: Resume)
    requires
        s.maxpacketsize >= 2,
        s.txdelay is None,
        s.mode == RadioMode::Idle,
    ensures
        s.dosend(payload, resume).state.valid(),
        s.dosend(payload, resume).state.sending(),
{
}

/// The top of the main loop leaves the engine valid.
pub proof fn lemma_top_valid(s: Machine, now: u64)
    requires
        s.maxpacketsize >= 2,
        s.mode == RadioMode::Idle,
    ensures
        s.top(now).state.valid(),
{
    lemma_dosend_valid(Machine { txdelay: None, ..s }, Seq::empty(), Resume::Top);
}

/// Starting configuration leaves a valid engine valid, and its options as
/// they are.
pub proof fn lemma_radiocfg_valid(s: Machine, lines: Option<Seq<Seq<char>>>)
    requires
        s.valid(),
    ensures
        s.radiocfg(lines).state.valid(),
        s.radiocfg(lines).state.configured_as(s),
{
}

/// Starting the main loop leaves a valid engine valid, and its options as
/// they are.
pub proof fn lemma_mainloop_valid(s: Machine, now: u64)
    requires
        s.valid(),
    ensures
        s.mainloop(now).state.valid(),
        s.mainloop(now).state.configured_as(s),
{
    if s.phase == Phase::Idle {
        lemma_top_valid(s, now);
    }
}

/// After any event that the engine took, its state and its request agree.
pub proof fn lemma_start_in_turn(s: Machine, event: Event, now: u64)
    requires
        s.valid(),
        s.step(event, now).result is Ok,
    ensures
        expects(s.step(event, now).state.phase, s.step(event, now).result->Ok_0),
{
    lemma_step_upheld(s, event, now);
}

/// What the engine asks for when it is started agrees with the state it is
/// then in, as after every event.
pub proof fn lemma_started_in_turn(s: Machine, lines: Option<Seq<Seq<char>>>, now: u64)
    requires
        s.valid(),
    ensures
        s.radiocfg(lines).result matches Ok(request) ==> expects(
            s.radiocfg(lines).state.phase,
            request,
        ),
        s.mainloop(now).result matches Ok(request) ==> expects(
            s.mainloop(now).state.phase,
            request,
        ),
{
}

/// An answer to what the engine has asked for is never out of turn.
pub proof fn lemma_expected_in_turn(s: Machine, request: Request, answer: Event, now: u64)
    requires
        s.valid(),
        expects(s.phase, request),
        answers(request, answer),
    ensures
        s.step(answer, now).result != Err::<Request, Failure>(Failure::OutOfTurn),
{
    if !(answer is Disconnected) {
        match stage(s.phase) {
            Stage::Resting => {},
            Stage::Configuring => {
                assert(s.init_step(answer).result != Err::<Request, Failure>(Failure::OutOfTurn));
            },
            Stage::Listening => {
                assert(s.listen_step(answer, now).result != Err::<Request, Failure>(
                    Failure::OutOfTurn,
                ));
            },
            Stage::Hearing => {
                assert(s.hear_step(answer, now).result != Err::<Request, Failure>(
                    Failure::OutOfTurn,
                ));
            },
            Stage::Sending => {
                assert(s.send_step(answer, now).result != Err::<Request, Failure>(
                    Failure::OutOfTurn,
                ));
            },
        }
    }
}

/// The engine never finds the answer to its own request out of turn: what
/// it asks for and what it accepts next agree.
pub proof fn lemma_answer_in_turn(s: Machine, event: Event, now: u64, answer: Event, then: u64)
    requires
        s.valid(),
        s.step(event, now).result matches Ok(request) && answers(request, answer),
    ensures
        s.step(event, now).state.step(answer, then).result != Err::<Request, Failure>(
            Failure::OutOfTurn,
        ),
{
    lemma_start_in_turn(s, event, now);
    lemma_step_valid(s, event, now);
    lemma_expected_in_turn(s.step(event, now).state, s.step(event, now).result->Ok_0, answer, then);
}

/// No step loses, invents or reorders a byte: what the engine held and was
/// handed is what it sent and still holds, in that order. What it sent is
/// the payload of the packet whose command it asks to be written.
pub proof fn lemma_step_conserves(s: Machine, event: Event, now: u64)
    requires
        s.valid(),
        s.step(event, now).result is Ok,
    ensures
        held(s) + taken(s, event) == sent(s, event) + held(s.step(event, now).state),
        s.phase is SendProbe ==> s.step(event, now).result == Ok::<Request, Failure>(
            Request::Write(tx_command(flag_sent(s, event, now), sent(s, event))),
        ),
{
    lemma_step_upheld(s, event, now);
}

/// Two conservations in a row make one.
proof fn lemma_conservation_chains(
    held0: Seq<u8>,
    taken0: Seq<u8>,
    sent0: Seq<u8>,
    held1: Seq<u8>,
    taken1: Seq<u8>,
    sent1: Seq<u8>,
    held2: Seq<u8>,
)
    requires
        held0 + taken0 == sent0 + held1,
        held1 + taken1 == sent1 + held2,
    ensures
        held0 + (taken0 + taken1) == (sent0 + sent1) + held2,
{
    assert(held0 + (taken0 + taken1) =~= (held0 + taken0) + taken1);
    assert((sent0 + held1) + taken1 =~= sent0 + (held1 + taken1));
    assert(sent0 + (sent1 + held2) =~= (sent0 + sent1) + held2);
}

/// Over any run that does not fail, the payloads sent and the bytes still
/// held are, in order, the bytes held at the start and the payloads taken
/// from the transmit queue: every byte handed to the engine leaves it once,
/// in its place, or is still waiting to.
pub proof fn lemma_run_conserves(s: Machine, events: Seq<(Event, u64)>)
    requires
        s.valid(),
        runs(s, events),
    ensures
        after(s, events).valid(),
        held(s) + taken_along(s, events) == sent_along(s, events) + held(after(s, events)),
    decreases events.len(),
{
    if events.len() == 0 {
        assert(held(s) + Seq::<u8>::empty() =~= Seq::<u8>::empty() + held(s));
    } else {
        let event = events[0].0;
        let now = events[0].1;
        let next = s.step(event, now).state;
        let rest = events.drop_first();
        lemma_step_valid(s, event, now);
        lemma_step_conserves(s, event, now);
        lemma_run_conserves(next, rest);
        lemma_conservation_chains(
            held(s),
            taken(s, event),
            sent(s, event),
            held(next),
            taken_along(next, rest),
            sent_along(next, rest),
            held(after(next, rest)),
        );
    }
}

/// Without packing, and as long as the leftover and every frame taken fit
/// into one packet, nothing is ever cut: each step leaves the bytes to
/// transmit where they are or moves them whole, and the leftover goes on
/// fitting into one packet.
pub proof fn lemma_unpacked_moves_whole(s: Machine, event: Event, now: u64)
    requires
        s.valid(),
        !s.pack,
        s.extradata.len() <= s.limit(),
        taken(s, event).len() <= s.limit(),
        s.step(event, now).result is Ok,
    ensures
        moved_whole(s, event, s.step(event, now).state),
        s.step(event, now).state.extradata.len() <= s.limit(),
{
    lemma_step_upheld(s, event, now);
}

/// No step loses, invents or reorders a byte that was received: what the
/// engine kept and heard is what it hands on and still keeps.
pub proof fn lemma_step_hands_on(s: Machine, event: Event, now: u64)
    requires
        s.valid(),
        s.step(event, now).result is Ok,
    ensures
        kept(s) + heard_in(s, event) == handed_on(s.step(event, now).result) + kept(
            s.step(event, now).state,
        ),
{
    lemma_step_upheld(s, event, now);
}

/// Every packet that is received is handed on as one frame: the frame kept
/// and the one heard are the one handed on and the one still kept.
pub proof fn lemma_step_hands_on_frames(s: Machine, event: Event, now: u64)
    requires
        s.valid(),
        s.step(event, now).result is Ok,
    ensures
        kept_frame(s) + heard_frame(s, event) == handed_frame(s.step(event, now).result)
            + kept_frame(s.step(event, now).state),
{
    lemma_step_upheld(s, event, now);
}

/// Over any run that does not fail, the payloads handed on and the one
/// still kept are, in order, the one kept at the start and those that
/// arrived: every received byte is handed on once, in its place.
pub proof fn lemma_run_hands_on(s: Machine, events: Seq<(Event, u64)>)
    requires
        s.valid(),
        runs(s, events),
    ensures
        kept(s) + heard_along(s, events) == handed_along(s, events) + kept(after(s, events)),
    decreases events.len(),
{
    if events.len() == 0 {
        assert(kept(s) + Seq::<u8>::empty() =~= Seq::<u8>::empty() + kept(s));
    } else {
        let event = events[0].0;
        let now = events[0].1;
        let next = s.step(event, now).state;
        let rest = events.drop_first();
        lemma_step_valid(s, event, now);
        lemma_step_hands_on(s, event, now);
        lemma_run_hands_on(next, rest);
        lemma_conservation_chains(
            kept(s),
            heard_in(s, event),
            handed_on(s.step(event, now).result),
            kept(next),
            heard_along(next, rest),
            handed_along(next, rest),
            kept(after(next, rest)),
        );
    }
}

/// The command that the engine asks to be written for a packet is the one
/// that transmits that packet.
pub proof fn lemma_packet_is_written(s: Machine, event: Event, now: u64)
    requires
        s.valid(),
        sends(s, event),
    ensures
        s.step(event, now).result == Ok::<Request, Failure>(
            Request::Write(tx_line_of(packet_sent(s, event, now))),
        ),
        packet_sent(s, event, now).skip(1) == sent(s, event),
{
    lemma_step_upheld(s, event, now);
    crate::wire::lemma_tx_command_holds_packet(flag_sent(s, event, now), s.outgoing);
    assert(packet_sent(s, event, now).skip(1) =~= s.outgoing);
}

/// The bridge turns the command that transmits a packet into the line that
/// reports it, and that line gives the packet back.
pub proof fn lemma_bridged_reports(packet: Seq<u8>)
    requires
        packet.len() >= 1,
    ensures
        bridged(tx_line_of(packet)) == rx_report(packet),
        reports_frame(bridged(tx_line_of(packet))),
        rx_packet(wire_bytes(bridged(tx_line_of(packet)))) == packet,
{
    reveal_strlit("radio tx ");
    assert(tx_line_of(packet).skip(9) =~= hex_text(packet));
    crate::wire::lemma_report_round_trip(packet);
}

/// The payloads of packets put in front of others come first.
proof fn lemma_payloads_follow(first: Seq<u8>, rest: Seq<Seq<u8>>)
    ensures
        payloads(seq![first] + rest) == first.skip(1) + payloads(rest),
{
    assert((seq![first] + rest).drop_first() =~= rest);
}

/// What left the engine along a run is the payloads of the packets it sent.
pub proof fn lemma_sent_in_packets(s: Machine, events: Seq<(Event, u64)>)
    requires
        s.valid(),
        runs(s, events),
    ensures
        sent_along(s, events) == payloads(packets_sent(s, events)),
        forall|i: int|
            0 <= i < packets_sent(s, events).len() ==> (#[trigger] packets_sent(s, events)[i]).len()
                >= 1,
    decreases events.len(),
{
    if events.len() > 0 {
        let event = events[0].0;
        let now = events[0].1;
        let next = s.step(event, now).state;
        let rest = events.drop_first();
        lemma_step_valid(s, event, now);
        lemma_sent_in_packets(next, rest);
        if sends(s, event) {
            lemma_packet_is_written(s, event, now);
            lemma_payloads_follow(packet_sent(s, event, now), packets_sent(next, rest));
        } else {
            assert(sent(s, event) + sent_along(next, rest) =~= sent_along(next, rest));
        }
    }
}

/// What arrived at the engine along a run is the payloads of the packets
/// that the lines reported.
pub proof fn lemma_heard_in_packets(s: Machine, events: Seq<(Event, u64)>)
    ensures
        heard_along(s, events) == payloads(packets_of(lines_heard(s, events))),
    decreases events.len(),
{
    if events.len() > 0 {
        let event = events[0].0;
        let now = events[0].1;
        let next = s.step(event, now).state;
        let rest = events.drop_first();
        lemma_heard_in_packets(next, rest);
        if hears(s, event) {
            let line = event->Line_0@;
            assert(packets_of(seq![line] + lines_heard(next, rest)) =~= seq![
                rx_packet(wire_bytes(line)),
            ] + packets_of(lines_heard(next, rest)));
            lemma_payloads_follow(
                rx_packet(wire_bytes(line)),
                packets_of(lines_heard(next, rest)),
            );
        } else {
            assert(heard_in(s, event) + heard_along(next, rest) =~= heard_along(next, rest));
        }
    } else {
        assert(packets_of(lines_heard(s, events)) =~= Seq::<Seq<u8>>::empty());
    }
}

/// Two engines joined by a bridge that hands every command to transmit of
/// the one to the other as the report of a received packet, none lost and
/// in order: the payloads that leave the sender are those that arrive at
/// the receiver. With what each conserves, the bytes that the receiver
/// hands on, and those it still keeps, are the bytes that the sender took
/// from its queue, less those it still holds. Once the sender is drained
/// and the receiver keeps nothing, what was handed on is what was queued,
/// byte for byte, whether frames are packed or not.
pub proof fn lemma_bridge_carries(
    sender: Machine,
    sent: Seq<(Event, u64)>,
    receiver: Machine,
    heard: Seq<(Event, u64)>,
)
    requires
        sender.valid(),
        receiver.valid(),
        runs(sender, sent),
        runs(receiver, heard),
        lines_heard(receiver, heard) == bridged_all(packets_sent(sender, sent)),
    ensures
        heard_along(receiver, heard) == sent_along(sender, sent),
        held(sender) + taken_along(sender, sent) == sent_along(sender, sent) + held(
            after(sender, sent),
        ),
        kept(receiver) + sent_along(sender, sent) == handed_along(receiver, heard) + kept(
            after(receiver, heard),
        ),
        held(sender).len() == 0 && held(after(sender, sent)).len() == 0 && kept(receiver).len() == 0
            && kept(after(receiver, heard)).len() == 0 ==> handed_along(receiver, heard)
            == taken_along(sender, sent),
{
    let packets = packets_sent(sender, sent);
    lemma_sent_in_packets(sender, sent);
    lemma_heard_in_packets(receiver, heard);
    assert(packets_of(bridged_all(packets)) =~= packets) by {
        assert forall|i: int| 0 <= i < packets.len() implies packets_of(bridged_all(packets))[i]
            == packets[i] by {
            lemma_bridged_reports(packets[i]);
        }
    }
    lemma_run_conserves(sender, sent);
    lemma_run_hands_on(receiver, heard);
    if held(sender).len() == 0 && held(after(sender, sent)).len() == 0 && kept(receiver).len() == 0
        && kept(after(receiver, heard)).len() == 0 {
        assert(held(sender) + taken_along(sender, sent) =~= taken_along(sender, sent));
        assert(sent_along(sender, sent) + held(after(sender, sent)) =~= sent_along(sender, sent));
        assert(kept(receiver) + sent_along(sender, sent) =~= sent_along(sender, sent));
        assert(handed_along(receiver, heard) + kept(after(receiver, heard)) =~= handed_along(
            receiver,
            heard,
        ));
    }
}

/// Where a packet has room for payload at all, a transmission that begins
/// with anything to send carries at least one byte of it. So the bytes held
/// grow fewer with every packet.
pub proof fn lemma_transmission_carries(s: Machine, payload: Seq<u8>, resume: Resume)
    requires
        s.maxpacketsize >= 2,
        s.extradata.len() + payload.len() > 0,
    ensures
        s.dosend(payload, resume).state.outgoing.len() >= 1,
{
}

/// What a packet under assembly holds stays in it, at its front, until the
/// packet leaves.
pub proof fn lemma_assembly_grows(s: Machine, event: Event, now: u64)
    requires
        s.valid(),
        s.sending(),
        s.step(event, now).state.sending(),
    ensures
        s.outgoing.is_prefix_of(s.step(event, now).state.outgoing),
{
    lemma_step_upheld(s, event, now);
}

/// The packet that leaves is never larger than the radio takes: its payload
/// and the flag byte together are at most `maxpacketsize` bytes.
pub proof fn lemma_packet_fits(s: Machine, event: Event, now: u64)
    requires
        s.valid(),
        s.phase matches Phase::SendProbe(_),
    ensures
        1 + sent(s, event).len() <= s.maxpacketsize,
{
}

/// Where quality is not read, a line that reports a readable packet is
/// answered at once by handing on the frame it reports.
pub proof fn lemma_frame_delivered(s: Machine, event: Event, now: u64)
    requires
        s.valid(),
        listening(s.phase),
        s.phase == Phase::StopReply || !s.readqual,
        event matches Event::Line(line) && reports_frame(line@),
    ensures
        s.step(event, now).result == Ok::<Request, Failure>(
            Request::Deliver(Frame { payload: reported(event->Line_0@), quality: None }),
        ),
{
}

/// Where quality is read, a line that reports a readable packet is answered
/// by the first of the two queries, and the packet is kept.
pub proof fn lemma_frame_kept_for_quality(s: Machine, event: Event, now: u64)
    requires
        s.valid(),
        s.phase == Phase::Gate || s.phase == Phase::Wait,
        s.readqual,
        event matches Event::Line(line) && reports_frame(line@),
    ensures
        s.step(event, now).result == Ok::<Request, Failure>(Request::Write("radio get snr"@)),
        s.step(event, now).state.phase == Phase::SnrWrite(Resume::Top),
        s.step(event, now).state.heard.skip(1) == reported(event->Line_0@),
{
}

/// While the two readings are taken, one after the other, the packet is
/// kept: each answer moves the engine on to the next of the four operations,
/// and the first reading is kept as well once it is there.
pub proof fn lemma_quality_is_read(s: Machine, event: Event, now: u64)
    requires
        s.valid(),
        s.step(event, now).result is Ok,
        s.phase is SnrWrite || s.phase is SnrReply || s.phase is RssiWrite,
    ensures
        ({
            let next = s.step(event, now);
            &&& next.state.heard == s.heard
            &&& s.phase is SnrWrite ==> next.state.phase == Phase::SnrReply(Resume::Top)
                && next.result->Ok_0 == Request::ReadLine
            &&& s.phase is SnrReply ==> next.state.phase == Phase::RssiWrite(Resume::Top)
                && next.result->Ok_0 == Request::Write("radio get rssi"@) && event is Line
                && next.state.snr == event->Line_0@
            &&& s.phase is RssiWrite ==> next.state.phase == Phase::RssiReply(Resume::Top)
                && next.result->Ok_0 == Request::ReadLine && next.state.snr == s.snr
        }),
{
    assert(s.step(event, now) == s.hear_step(event, now));
}

/// With the second reading the packet that was kept is handed on as a frame
/// with the two of them.
pub proof fn lemma_frame_delivered_with_quality(s: Machine, event: Event, now: u64)
    requires
        s.valid(),
        s.phase is RssiReply,
        event is Line,
    ensures
        s.step(event, now).result == Ok::<Request, Failure>(
            Request::Deliver(
                Frame { payload: s.heard.skip(1), quality: Some((s.snr, event->Line_0@)) },
            ),
        ),
{
    assert(s.step(event, now) == s.hear_step(event, now));
}

/// While transmitting is held back and the time has not come, whatever the
/// event, the engine writes nothing but the command that arms the receiver
/// and the two quality queries: no transmission, no receiver stop, no
/// configuration.
pub proof fn lemma_held_back_writes(s: Machine, event: Event, now: u64)
    requires
        s.valid(),
        s.txdelay matches Some(end) && now < end,
        s.step(event, now).result matches Ok(Request::Write(_)),
    ensures
        listens_or_asks(s.step(event, now).result->Ok_0->Write_0),
        forall|flag: u8, body: Seq<u8>|
            s.step(event, now).result->Ok_0->Write_0 != #[trigger] tx_command(flag, body),
{
    lemma_held_back_listens(s, event, now);
    reveal_strlit("radio rx 0");
    reveal_strlit("radio get snr");
    reveal_strlit("radio get rssi");
    reveal_strlit("radio tx ");
    let command = s.step(event, now).result->Ok_0->Write_0;
    assert forall|flag: u8, body: Seq<u8>| command != #[trigger] tx_command(flag, body) by {
        assert(tx_command(flag, body)[6] == 't');
        assert(command[6] == 'r' || command[6] == 'g');
    }
}

/// The same, stage by stage.
proof fn lemma_held_back_listens(s: Machine, event: Event, now: u64)
    requires
        s.valid(),
        s.txdelay matches Some(end) && now < end,
        s.step(event, now).result matches Ok(Request::Write(_)),
    ensures
        listens_or_asks(s.step(event, now).result->Ok_0->Write_0),
{
    if !(event is Disconnected) {
        match stage(s.phase) {
            Stage::Resting | Stage::Configuring => {},
            Stage::Listening => {
                assert(listens_or_asks(s.listen_step(event, now).result->Ok_0->Write_0));
            },
            Stage::Hearing => {
                assert(listens_or_asks(s.hear_step(event, now).result->Ok_0->Write_0));
            },
            Stage::Sending => {
                assert(listens_or_asks(s.send_step(event, now).result->Ok_0->Write_0));
            },
        }
    }
}

/// From the packet that announced more until the delay it set has run out,
/// a packet is handed on or a wait is reported over, the engine writes
/// nothing but the command that arms the receiver and the quality queries.
pub proof fn lemma_held_back_writes_along(s: Machine, events: Seq<(Event, u64)>, end: u64)
    requires
        s.valid(),
        s.txdelay == Some(end),
        runs(s, events),
        quiet_before(s, events, end),
    ensures
        forall|i: int|
            0 <= i < written_along(s, events).len() ==> listens_or_asks(
                #[trigger] written_along(s, events)[i],
            ),
        forall|i: int, flag: u8, body: Seq<u8>|
            0 <= i < written_along(s, events).len() ==> (#[trigger] written_along(s, events)[i])
                != #[trigger] tx_command(flag, body),
    decreases events.len(),
{
    if events.len() > 0 {
        let event = events[0].0;
        let now = events[0].1;
        let next = s.step(event, now).state;
        let rest = events.drop_first();
        lemma_step_valid(s, event, now);
        lemma_held_back(s, event, now);
        lemma_held_back_writes_along(next, rest, end);
        let written = written_along(s, events);
        if s.step(event, now).result matches Ok(Request::Write(command)) {
            lemma_held_back_writes(s, event, now);
            assert forall|i: int| 0 <= i < written.len() implies listens_or_asks(
                #[trigger] written[i],
            ) by {
                if i > 0 {
                    assert(written[i] == written_along(next, rest)[i - 1]);
                }
            }
            assert forall|i: int, flag: u8, body: Seq<u8>| 0 <= i < written.len() implies (
            #[trigger] written[i]) != #[trigger] tx_command(flag, body) by {
                if i > 0 {
                    assert(written[i] == written_along(next, rest)[i - 1]);
                }
            }
        }
    }
}

/// With no delay in force, what is left over is sent before anything else:
/// at the top of the loop a transmission is decided on, and it holds the
/// leftover, or as much of it as one packet takes.
pub proof fn lemma_leftover_goes_first(s: Machine, now: u64)
    requires
        s.valid(),
        s.extradata.len() > 0,
        crate::turn::remaining(s.txdelay, now) is None,
    ensures
        s.top(now).state.sending(),
        s.top(now).state.outgoing.len() >= 1,
        s.top(now).state.outgoing.is_prefix_of(s.extradata),
{
    let out = s.top(now).state;
    lemma_cut_keeps(s.extradata, s.limit());
    assert(s.extradata + Seq::<u8>::empty() =~= s.extradata);
    assert(out.outgoing =~= s.extradata.subrange(0, out.outgoing.len() as int));
}

/// A payload found in the transmit queue at the top of the loop is sent
/// next: a transmission is decided on, and it holds the payload, or as much
/// of it as one packet takes.
pub proof fn lemma_payload_goes_next(s: Machine, event: Event, now: u64)
    requires
        s.valid(),
        s.phase == Phase::Poll,
        event is Frame,
    ensures
        s.step(event, now).result is Ok,
        s.step(event, now).state.sending(),
        s.step(event, now).state.outgoing.is_prefix_of(event->Frame_0@),
        event->Frame_0@.len() > 0 ==> s.step(event, now).state.outgoing.len() >= 1,
{
    let payload = event->Frame_0@;
    let out = s.step(event, now).state;
    assert(s.step(event, now) == s.listen_step(event, now));
    lemma_cut_keeps(s.extradata + payload, s.limit());
    assert(s.extradata + payload =~= payload);
    assert(out.outgoing =~= payload.subrange(0, out.outgoing.len() as int));
}

/// Once a transmission is decided on, the engine asks for no line and waits
/// for nothing but its own pause until the command is written: it polls the
/// transmit queue, pauses, and looks at the queue once more.
pub proof fn lemma_transmission_does_not_wait(s: Machine, event: Event, now: u64)
    requires
        s.valid(),
        obliged(s.phase),
        s.step(event, now).result is Ok,
    ensures
        ({
            let request = s.step(event, now).result->Ok_0;
            if s.phase is SendProbe {
                request == Request::Write(tx_line_of(packet_sent(s, event, now)))
            } else {
                request is PollTransmit || request is Sleep || request is ProbeTransmit
            }
        }),
{
    lemma_step_upheld(s, event, now);
    if s.phase is SendProbe {
        lemma_packet_is_written(s, event, now);
    }
}

/// Once the transmit queue is found empty the packet is on its way: the
/// pause is asked for, then the look at the queue, then the command that
/// transmits the packet as it then stands.
pub proof fn lemma_transmission_is_written(s: Machine, event: Event, now: u64)
    requires
        s.valid(),
        s.sending(),
    ensures
        s.phase is SendPoll && event is NoFrame ==> s.step(event, now) == s.ask(
            Phase::SendSleep(s.phase->SendPoll_0),
            Request::Sleep(s.txwait),
        ),
        s.phase is SendSleep && event is Slept ==> s.step(event, now) == s.ask(
            Phase::SendProbe(s.phase->SendSleep_0),
            Request::ProbeTransmit,
        ),
        s.phase is SendProbe && event is Backlog ==> s.step(event, now).result == Ok::<
            Request,
            Failure,
        >(Request::Write(tx_line_of(packet_sent(s, event, now)))) && packet_sent(
            s,
            event,
            now,
        ).skip(1) == s.outgoing,
{
    assert(s.step(event, now) == s.send_step(event, now) || event is Disconnected);
    if sends(s, event) {
        lemma_packet_is_written(s, event, now);
    }
}

/// A transmit delay that the top of the loop leaves in place lies in the
/// future: one that has run out is cleared when it is looked at.
pub proof fn lemma_delay_lies_ahead(s: Machine, now: u64)
    ensures
        s.top(now).state.txdelay matches Some(end) ==> now < end,
        s.top(now).state.txdelay is Some ==> s.top(now).state.txdelay == s.txdelay,
{
}

/// The engine transmits only while the receiver is off: from the moment a
/// transmission is decided on until its last reply is taken, the radio is
/// idle as far as the engine's commands tell.
pub proof fn lemma_transmits_while_idle(s: Machine)
    requires
        s.valid(),
        stage(s.phase) == Stage::Sending || obliged(s.phase),
    ensures
        s.mode == RadioMode::Idle,
{
}

/// A received packet whose flag announces more holds transmitting back until
/// `eotwait` after it was handed on; any other flag lifts the delay.
pub proof fn lemma_flag_sets_delay(
    s: Machine,
    quality: Option<(Seq<char>, Seq<char>)>,
    resume: Resume,
    now: u64,
)
    requires
        s.heard.len() >= 1,
        now + s.eotwait <= u64::MAX,
    ensures
        s.heard[0] == FLAG_MORE ==> s.deliver(quality, resume, now).state.txdelay == Some(
            (now + s.eotwait) as u64,
        ),
        s.heard[0] != FLAG_MORE ==> s.deliver(quality, resume, now).state.txdelay is None,
        s.deliver(quality, resume, now).state.phase == Phase::Deliver(
            resume,
            s.heard[0] == FLAG_YIELD,
        ),
{
}

/// The engine writes a command only when the radio owes it nothing, or
/// nothing but the line this very event brings; each command written leaves
/// the radio owing; and what it owes grows less only by a line taken, one at
/// a time. So between two commands a line is always taken.
///
/// The one transmission that is written while a line is owed is the one that
/// answers a yielding packet which arrived while the receiver was being
/// stopped.
pub proof fn lemma_writes_wait_for_replies(s: Machine, event: Event, now: u64)
    requires
        s.valid(),
        s.step(event, now).result is Ok,
    ensures
        ({
            let next = s.step(event, now);
            &&& next.result->Ok_0 is Write ==> debt(next.state.phase) >= 1
            &&& next.result->Ok_0 is Write && s.phase != Phase::SendProbe(Resume::StopTail)
                ==> debt(s.phase) <= lines_in(event)
            &&& debt(next.state.phase) < debt(s.phase) ==> event is Line && debt(next.state.phase)
                == debt(s.phase) - 1
        }),
{
    lemma_step_upheld(s, event, now);
}

/// While transmitting is held back and the time has not come, no event
/// makes the engine begin or write a transmission, and the delay stays as it
/// is, unless the event makes the engine hand on a received packet, whose
/// flag sets the delay anew, or reports that the wait asked for has run out.
pub proof fn lemma_held_back(s: Machine, event: Event, now: u64)
    requires
        s.valid(),
        s.txdelay matches Some(end) && now < end,
        s.step(event, now).result is Ok,
        !(s.step(event, now).result->Ok_0 is Deliver),
        !(event is Timeout),
    ensures
        s.step(event, now).state.txdelay == s.txdelay,
        !s.step(event, now).state.sending(),
        !(s.step(event, now).state.phase is SendWrite),
{
    lemma_step_upheld(s, event, now);
}

/// While transmitting is held back, the engine neither begins nor writes a
/// transmission before the time has come, whatever happens meanwhile, short
/// of a received packet being handed on or a wait being reported over.
pub proof fn lemma_held_back_along(s: Machine, events: Seq<(Event, u64)>, end: u64)
    requires
        s.valid(),
        s.txdelay == Some(end),
        runs(s, events),
        quiet_before(s, events, end),
    ensures
        after(s, events).txdelay == Some(end),
        events.len() > 0 ==> !after(s, events).sending() && !(after(s, events).phase
            is SendWrite),
    decreases events.len(),
{
    if events.len() > 0 {
        let event = events[0].0;
        let now = events[0].1;
        lemma_step_valid(s, event, now);
        lemma_held_back(s, event, now);
        lemma_held_back_along(s.step(event, now).state, events.drop_first(), end);
    }
}

/// Once the peer has yielded, the first command the engine writes is a
/// transmission: until then it asks for nothing to be written.
pub proof fn lemma_yield_is_taken(s: Machine, event: Event, now: u64)
    requires
        s.valid(),
        obliged(s.phase),
        s.step(event, now).result is Ok,
    ensures
        ({
            let next = s.step(event, now);
            if s.phase is SendProbe {
                next.result == Ok::<Request, Failure>(
                    Request::Write(tx_command(flag_sent(s, event, now), s.outgoing)),
                )
            } else {
                obliged(next.state.phase) && !(next.result->Ok_0 is Write)
            }
        }),
{
    lemma_step_upheld(s, event, now);
}

/// Once the peer has yielded, whatever the engine writes first is a
/// transmission.
pub proof fn lemma_yield_is_taken_first(s: Machine, events: Seq<(Event, u64)>)
    requires
        s.valid(),
        obliged(s.phase),
        runs(s, events),
    ensures
        first_written(s, events) matches Some(command) ==> exists|flag: u8, body: Seq<u8>|
            command == tx_command(flag, body),
    decreases events.len(),
{
    if events.len() > 0 {
        let event = events[0].0;
        let now = events[0].1;
        lemma_step_valid(s, event, now);
        lemma_yield_is_taken(s, event, now);
        if s.phase is SendProbe {
            assert(first_written(s, events) == Some(
                tx_command(flag_sent(s, event, now), s.outgoing),
            ));
        } else {
            lemma_yield_is_taken_first(s.step(event, now).state, events.drop_first());
        }
    }
}

/// A leftover that fits into one packet still does after any step, exactly
/// unless the step takes a frame too long for that.
pub proof fn lemma_leftover_bounded(s: Machine, event: Event, now: u64)
    requires
        s.valid(),
        s.extradata.len() <= s.limit(),
        s.step(event, now).result is Ok,
    ensures
        s.step(event, now).state.extradata.len() <= s.limit() <==> frame_fits(s, event),
{
    lemma_step_upheld(s, event, now);
}

/// Without packing, a frame taken for the packet under assembly joins it
/// whole or is left over whole.
pub proof fn lemma_unpacked_frame_kept_whole(s: Machine, event: Event, now: u64)
    requires
        s.valid(),
        !s.pack,
        s.phase matches Phase::SendPoll(_),
        event is Frame,
    ensures
        ({
            let next = s.step(event, now).state;
            let frame = event->Frame_0@;
            ||| next.outgoing == s.outgoing + frame && next.extradata.len() == 0
            ||| next.outgoing == s.outgoing && next.extradata == frame
        }),
{
    lemma_unpacked_frame_whole(s.assembly(), event->Frame_0@, s.limit());
}

/// With nothing left over and nothing in the transmit queue the engine arms
/// the receiver and transmits nothing.
pub proof fn lemma_nothing_to_send(s: Machine, now: u64)
    requires
        s.valid(),
        s.phase == Phase::Poll,
    ensures
        s.step(Event::NoFrame, now).result == Ok::<Request, Failure>(
            Request::Write("radio rx 0"@),
        ),
        s.step(Event::NoFrame, now).state.phase == Phase::RxWrite(Goal::Wait),
{
}

} // verus!
