//! What the engine holds does leave.
//!
//! Where the radio answers every transmission as it should, the transmit
//! queue holds nothing further and no slot is configured, a transmission
//! that is decided on is followed by others until nothing is left over:
//! every byte held is written after finitely many steps.

use crate::laws::{after, held, lemma_step_valid, runs, sent, sent_along, taken, taken_along};
use crate::machine::{Event, Machine, Phase, Resume};
use vstd::prelude::*;

verus! {

/// A run that starts with one event goes on from where that event leads.
pub proof fn lemma_run_starts(s: Machine, event: Event, now: u64, rest: Seq<(Event, u64)>)
    ensures
        runs(s, seq![(event, now)] + rest) == (s.step(event, now).result is Ok && runs(
            s.step(event, now).state,
            rest,
        )),
        after(s, seq![(event, now)] + rest) == after(s.step(event, now).state, rest),
        sent_along(s, seq![(event, now)] + rest) == sent(s, event) + sent_along(
            s.step(event, now).state,
            rest,
        ),
        taken_along(s, seq![(event, now)] + rest) == taken(s, event) + taken_along(
            s.step(event, now).state,
            rest,
        ),
{
    let all = seq![(event, now)] + rest;
    assert(all[0] == (event, now));
    assert(all.drop_first() =~= rest);
}

/// A run in two parts is taken without failing exactly if both parts are,
/// the second from where the first ends, and ends where the second ends.
pub proof fn lemma_run_joins(s: Machine, first: Seq<(Event, u64)>, second: Seq<(Event, u64)>)
    ensures
        runs(s, first + second) == (runs(s, first) && runs(after(s, first), second)),
        after(s, first + second) == after(after(s, first), second),
    decreases first.len(),
{
    if first.len() == 0 {
        assert(first + second =~= second);
    } else {
        assert((first + second)[0] == first[0]);
        assert((first + second).drop_first() =~= first.drop_first() + second);
        lemma_run_joins(s.step(first[0].0, first[0].1).state, first.drop_first(), second);
    }
}

/// What is sent along a run in two parts is what is sent along the first
/// and then along the second.
pub proof fn lemma_sent_joins(s: Machine, first: Seq<(Event, u64)>, second: Seq<(Event, u64)>)
    ensures
        sent_along(s, first + second) == sent_along(s, first) + sent_along(
            after(s, first),
            second,
        ),
    decreases first.len(),
{
    if first.len() == 0 {
        assert(first + second =~= second);
        assert(Seq::<u8>::empty() + sent_along(s, second) =~= sent_along(s, second));
    } else {
        let next = s.step(first[0].0, first[0].1).state;
        let rest = first.drop_first();
        assert((first + second)[0] == first[0]);
        assert((first + second).drop_first() =~= rest + second);
        lemma_sent_joins(next, rest, second);
        assert(sent(s, first[0].0) + (sent_along(next, rest) + sent_along(
            after(next, rest),
            second,
        )) =~= (sent(s, first[0].0) + sent_along(next, rest)) + sent_along(
            after(next, rest),
            second,
        ));
    }
}

/// What is taken along a run in two parts is what is taken along the first
/// and then along the second.
pub proof fn lemma_taken_joins(s: Machine, first: Seq<(Event, u64)>, second: Seq<(Event, u64)>)
    ensures
        taken_along(s, first + second) == taken_along(s, first) + taken_along(
            after(s, first),
            second,
        ),
    decreases first.len(),
{
    if first.len() == 0 {
        assert(first + second =~= second);
        assert(Seq::<u8>::empty() + taken_along(s, second) =~= taken_along(s, second));
    } else {
        let next = s.step(first[0].0, first[0].1).state;
        let rest = first.drop_first();
        assert((first + second)[0] == first[0]);
        assert((first + second).drop_first() =~= rest + second);
        lemma_taken_joins(next, rest, second);
        assert(taken(s, first[0].0) + (taken_along(next, rest) + taken_along(
            after(next, rest),
            second,
        )) =~= (taken(s, first[0].0) + taken_along(next, rest)) + taken_along(
            after(next, rest),
            second,
        ));
    }
}

/// Whether the engine has decided on a transmission at the top of its loop,
/// no slot is configured or running, and the packet holds something of what
/// there is to send.
pub open spec fn ready_to_send(s: Machine) -> bool {
    &&& s.valid()
    &&& s.phase == Phase::SendPoll(Resume::Top) || s.phase == Phase::SendSleep(Resume::Top)
    &&& s.txslot is None
    &&& s.txslotend is None
    &&& s.extradata.len() > 0 ==> s.outgoing.len() >= 1
}

/// The events of one transmission where the transmit queue holds nothing
/// further and the radio answers `ok` and then `tail`.
pub open spec fn transmission(s: Machine, ok: Event, tail: Event, now: u64) -> Seq<(Event, u64)> {
    let written = seq![
        (Event::Slept, now),
        (Event::Backlog(false), now),
        (Event::Written, now),
        (ok, now),
        (tail, now),
    ];
    if s.phase is SendPoll {
        seq![(Event::NoFrame, now)] + written
    } else {
        written
    }
}

/// From the pause before a packet leaves to the top of the loop after it.
#[verifier::rlimit(40)]
proof fn lemma_packet_leaves(s: Machine, ok: Event, tail: Event, now: u64)
    requires
        s.valid(),
        s.phase == Phase::SendSleep(Resume::Top),
        s.txslot is None,
        s.txslotend is None,
        ok matches Event::Line(line) && line@ == "ok"@,
        tail is Line,
    ensures
        ({
            let events = seq![
                (Event::Slept, now),
                (Event::Backlog(false), now),
                (Event::Written, now),
                (ok, now),
                (tail, now),
            ];
            &&& runs(s, events)
            &&& sent_along(s, events) == s.outgoing
            &&& taken_along(s, events).len() == 0
            &&& after(s, events) == (Machine { phase: Phase::SendTail(Resume::Top), ..s }).top(
                now,
            ).state
        }),
{
    reveal_strlit("ok");
    reveal_strlit("radio_err");
    let none = Seq::<(Event, u64)>::empty();
    let m1 = Machine { phase: Phase::SendProbe(Resume::Top), ..s };
    let m2 = Machine { phase: Phase::SendWrite(Resume::Top), ..s };
    let m3 = Machine { phase: Phase::SendReply(Resume::Top, false), ..s };
    let m4 = Machine { phase: Phase::SendTail(Resume::Top), ..s };
    let m5 = m4.top(now).state;
    assert(s.step(Event::Slept, now) == s.send_step(Event::Slept, now));
    assert(s.step(Event::Slept, now).state == m1 && s.step(Event::Slept, now).result is Ok);
    assert(m1.step(Event::Backlog(false), now) == m1.send_step(Event::Backlog(false), now));
    assert(m1.step(Event::Backlog(false), now).state == m2 && m1.step(
        Event::Backlog(false),
        now,
    ).result is Ok);
    assert(m2.step(Event::Written, now) == m2.send_step(Event::Written, now));
    assert(m2.step(Event::Written, now).state == m3 && m2.step(Event::Written, now).result is Ok);
    assert(m3.step(ok, now) == m3.send_step(ok, now));
    assert("ok"@ != "radio_err"@) by {
        assert("ok"@.len() == 2 && "radio_err"@.len() == 9);
    }
    assert(m3.step(ok, now).state == m4 && m3.step(ok, now).result is Ok);
    assert(m4.step(tail, now) == m4.send_step(tail, now));
    assert(m4.step(tail, now).state == m5 && m4.step(tail, now).result is Ok);
    lemma_run_starts(m4, tail, now, none);
    lemma_run_starts(m3, ok, now, seq![(tail, now)] + none);
    lemma_run_starts(m2, Event::Written, now, seq![(ok, now)] + (seq![(tail, now)] + none));
    lemma_run_starts(
        m1,
        Event::Backlog(false),
        now,
        seq![(Event::Written, now)] + (seq![(ok, now)] + (seq![(tail, now)] + none)),
    );
    lemma_run_starts(
        s,
        Event::Slept,
        now,
        seq![(Event::Backlog(false), now)] + (seq![(Event::Written, now)] + (seq![(ok, now)] + (
        seq![(tail, now)] + none))),
    );
    let events = seq![
        (Event::Slept, now),
        (Event::Backlog(false), now),
        (Event::Written, now),
        (ok, now),
        (tail, now),
    ];
    assert(events =~= seq![(Event::Slept, now)] + (seq![(Event::Backlog(false), now)] + (seq![
        (Event::Written, now),
    ] + (seq![(ok, now)] + (seq![(tail, now)] + none)))));
    assert(sent_along(s, events) =~= s.outgoing);
    assert(taken_along(s, events) =~= Seq::<u8>::empty());
}

/// One transmission, where the transmit queue holds nothing further and
/// the radio answers as it should: the packet leaves as it stands, and the
/// engine is back at the top of its loop, where it has decided on the next
/// transmission if anything is left over and polls the queue if nothing is.
pub proof fn lemma_transmission_runs(s: Machine, ok: Event, tail: Event, now: u64)
    requires
        ready_to_send(s),
        ok matches Event::Line(line) && line@ == "ok"@,
        tail is Line,
    ensures
        ({
            let events = transmission(s, ok, tail, now);
            let then = after(s, events);
            &&& runs(s, events)
            &&& sent_along(s, events) == s.outgoing
            &&& taken_along(s, events).len() == 0
            &&& if s.extradata.len() == 0 {
                then.valid() && then.phase == Phase::Poll && held(then).len() == 0
            } else {
                ready_to_send(then) && held(then) == s.extradata
            }
        }),
{
    let written = seq![
        (Event::Slept, now),
        (Event::Backlog(false), now),
        (Event::Written, now),
        (ok, now),
        (tail, now),
    ];
    let paused = Machine { phase: Phase::SendSleep(Resume::Top), ..s };
    let done = Machine { phase: Phase::SendTail(Resume::Top), ..s };
    lemma_packet_leaves(paused, ok, tail, now);
    if s.phase is SendPoll {
        assert(s.step(Event::NoFrame, now) == s.send_step(Event::NoFrame, now));
        assert(s.step(Event::NoFrame, now).state == paused);
        lemma_run_starts(s, Event::NoFrame, now, written);
        assert(Seq::<u8>::empty() + s.outgoing =~= s.outgoing);
        assert(taken_along(s, transmission(s, ok, tail, now)) =~= Seq::<u8>::empty());
    } else {
        assert(paused == s);
    }
    lemma_top_of_loop(done, now);
}

/// The top of the loop after a transmission, with no delay in force: the
/// leftover opens the next packet, and without one the queue is polled.
proof fn lemma_top_of_loop(done: Machine, now: u64)
    requires
        done.maxpacketsize >= 2,
        done.txdelay is None,
        done.mode == crate::machine::RadioMode::Idle,
        done.txslot is None,
        done.txslotend is None,
    ensures
        ({
            let then = done.top(now).state;
            if done.extradata.len() == 0 {
                then.valid() && then.phase == Phase::Poll && held(then).len() == 0
            } else {
                ready_to_send(then) && held(then) == done.extradata
            }
        }),
{
    crate::laws::lemma_top_valid(done, now);
    crate::packet::lemma_cut_keeps(done.extradata, done.limit());
    assert(done.extradata + Seq::<u8>::empty() =~= done.extradata);
}

/// Every byte that the engine holds when it has decided on a transmission
/// is written after finitely many steps, where the transmit queue holds
/// nothing further, the radio answers `ok` and then any line to every
/// transmission, and no slot is configured: there is a run of such events,
/// which the engine takes without failing, in which what it sends is what
/// it held, in order, and after which it holds nothing and polls the queue.
pub proof fn lemma_held_bytes_leave(s: Machine, ok: Event, tail: Event, now: u64) -> (events: Seq<
    (Event, u64),
>)
    requires
        ready_to_send(s),
        ok matches Event::Line(line) && line@ == "ok"@,
        tail is Line,
    ensures
        runs(s, events),
        sent_along(s, events) == held(s),
        taken_along(s, events).len() == 0,
        after(s, events).valid(),
        after(s, events).phase == Phase::Poll,
        held(after(s, events)).len() == 0,
    decreases s.extradata.len(),
{
    let first = transmission(s, ok, tail, now);
    let then = after(s, first);
    lemma_transmission_runs(s, ok, tail, now);
    if s.extradata.len() == 0 {
        assert(held(s) =~= s.outgoing);
        first
    } else {
        assert(held(then).len() == then.outgoing.len() + then.extradata.len());
        let rest = lemma_held_bytes_leave(then, ok, tail, now);
        lemma_run_joins(s, first, rest);
        lemma_sent_joins(s, first, rest);
        lemma_taken_joins(s, first, rest);
        assert(taken_along(s, first + rest) =~= Seq::<u8>::empty());
        first + rest
    }
}

/// Every byte of a payload that the engine finds in the transmit queue at
/// the top of its loop is written after finitely many steps, under the same
/// conditions: there is a run that starts with the payload being polled,
/// which the engine takes without failing, in which what it sends is the
/// payload, and after which it holds nothing and polls the queue again.
pub proof fn lemma_queued_bytes_leave(
    s: Machine,
    block: Event,
    ok: Event,
    tail: Event,
    now: u64,
) -> (events: Seq<(Event, u64)>)
    requires
        s.valid(),
        s.phase == Phase::Poll,
        s.txslot is None,
        s.txslotend is None,
        block is Frame,
        ok matches Event::Line(line) && line@ == "ok"@,
        tail is Line,
    ensures
        events.len() >= 1 && events[0] == (block, now),
        runs(s, events),
        taken_along(s, events) == block->Frame_0@,
        sent_along(s, events) == block->Frame_0@,
        after(s, events).valid(),
        after(s, events).phase == Phase::Poll,
        held(after(s, events)).len() == 0,
{
    let payload = block->Frame_0@;
    let then = s.step(block, now).state;
    assert(s.step(block, now) == s.listen_step(block, now));
    lemma_step_valid(s, block, now);
    crate::packet::lemma_cut_keeps(s.extradata + payload, s.limit());
    assert(s.extradata + payload =~= payload);
    assert(held(then) =~= payload);
    let rest = lemma_held_bytes_leave(then, ok, tail, now);
    lemma_run_starts(s, block, now, rest);
    assert(payload + Seq::<u8>::empty() =~= payload);
    assert(Seq::<u8>::empty() + payload =~= payload);
    seq![(block, now)] + rest
}

} // verus!
