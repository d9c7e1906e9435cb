//! Without packing, frames travel whole.
//!
//! Where frames are not packed and each fits into one packet, no frame is
//! ever divided between two packets: every packet that leaves carries a run
//! of whole frames, in the order in which they were taken from the queue.
//! To say so, the frames behind the bytes that the engine holds are named.

use crate::hexcode::wire_bytes;
use crate::laws::{
    after, bridged_all, handed_frame, heard_frame, hears, in_packet, kept_frame,
    lemma_bridged_reports, lemma_packet_is_written, lemma_sent_in_packets,
    lemma_step_hands_on_frames, lemma_step_valid, lemma_unpacked_moves_whole, lines_heard,
    move_of, packet_sent, packets_of, packets_sent, runs, sends, taken, takes, Move,
};
use crate::machine::{Event, Machine};
use crate::wire::rx_packet;
use vstd::prelude::*;

verus! {

/// The bytes of `frames`, one frame after the other.
pub open spec fn joined(frames: Seq<Seq<u8>>) -> Seq<u8>
    decreases frames.len(),
{
    if frames.len() == 0 {
        Seq::empty()
    } else {
        joined(frames.drop_last()) + frames.last()
    }
}

/// The frames of `groups`, one group after the other.
pub open spec fn ungrouped(groups: Seq<Seq<Seq<u8>>>) -> Seq<Seq<u8>>
    decreases groups.len(),
{
    if groups.len() == 0 {
        Seq::empty()
    } else {
        groups[0] + ungrouped(groups.drop_first())
    }
}

/// The frames that the engine holds: those in the packet under assembly
/// and the one left over.
#[verifier::ext_equal]
pub struct Load {
    pub packet: Seq<Seq<u8>>,
    pub waiting: Seq<Seq<u8>>,
}

/// Whether `load` is what `s` holds: the frames of the packet make up the
/// packet under assembly and there are none without one; the frames
/// waiting make up the leftover and there are none without one.
pub open spec fn loaded(s: Machine, load: Load) -> bool {
    &&& joined(load.packet) == in_packet(s)
    &&& joined(load.waiting) == s.extradata
    &&& s.sending() || load.packet.len() == 0
    &&& s.extradata.len() > 0 || load.waiting.len() == 0
}

/// The frames that the engine holds after the step from `s` on `event`.
pub open spec fn load_after(s: Machine, event: Event, now: u64, load: Load) -> Load {
    match move_of(s, event, s.step(event, now).state) {
        Move::Rests => load,
        Move::Joins => Load { packet: load.packet.push(taken(s, event)), waiting: load.waiting },
        Move::Waits => Load { packet: load.packet, waiting: seq![taken(s, event)] },
        Move::Opens => Load { packet: load.waiting, waiting: Seq::empty() },
        Move::Leaves => Load { packet: Seq::empty(), waiting: load.waiting },
    }
}

/// Whether every frame that `events` hand to the engine fits into one packet.
pub open spec fn frames_fit(s: Machine, events: Seq<(Event, u64)>) -> bool
    decreases events.len(),
{
    events.len() == 0 || {
        &&& taken(s, events[0].0).len() <= s.limit()
        &&& frames_fit(s.step(events[0].0, events[0].1).state, events.drop_first())
    }
}

/// The frames that `events` hand to the engine, in order.
pub open spec fn frames_taken(s: Machine, events: Seq<(Event, u64)>) -> Seq<Seq<u8>>
    decreases events.len(),
{
    if events.len() == 0 {
        Seq::empty()
    } else {
        let rest = frames_taken(s.step(events[0].0, events[0].1).state, events.drop_first());
        if takes(s, events[0].0) {
            seq![taken(s, events[0].0)] + rest
        } else {
            rest
        }
    }
}

/// The frames that each packet holds which leaves while the engine takes
/// `events`, in order.
pub open spec fn groups_sent(s: Machine, events: Seq<(Event, u64)>, load: Load) -> Seq<
    Seq<Seq<u8>>,
>
    decreases events.len(),
{
    if events.len() == 0 {
        Seq::empty()
    } else {
        let rest = groups_sent(
            s.step(events[0].0, events[0].1).state,
            events.drop_first(),
            load_after(s, events[0].0, events[0].1, load),
        );
        if sends(s, events[0].0) {
            seq![load.packet] + rest
        } else {
            rest
        }
    }
}

/// The frames that the engine holds after it took `events`.
pub open spec fn load_at_end(s: Machine, events: Seq<(Event, u64)>, load: Load) -> Load
    decreases events.len(),
{
    if events.len() == 0 {
        load
    } else {
        load_at_end(
            s.step(events[0].0, events[0].1).state,
            events.drop_first(),
            load_after(s, events[0].0, events[0].1, load),
        )
    }
}

/// A frame put behind others adds its bytes behind theirs.
pub proof fn lemma_joined_push(frames: Seq<Seq<u8>>, frame: Seq<u8>)
    ensures
        joined(frames.push(frame)) == joined(frames) + frame,
        joined(seq![frame]) == frame,
{
    assert(frames.push(frame).drop_last() =~= frames);
    let one = seq![frame];
    assert(one.drop_last() =~= Seq::<Seq<u8>>::empty());
    assert(joined(one.drop_last()) =~= Seq::<u8>::empty());
    assert(joined(one) =~= frame);
}

/// The frames that the engine holds stay the frames behind its bytes.
pub proof fn lemma_load_follows(s: Machine, event: Event, now: u64, load: Load)
    requires
        s.valid(),
        !s.pack,
        s.extradata.len() <= s.limit(),
        taken(s, event).len() <= s.limit(),
        s.step(event, now).result is Ok,
        loaded(s, load),
    ensures
        loaded(s.step(event, now).state, load_after(s, event, now, load)),
        sends(s, event) ==> joined(load.packet) == packet_sent(s, event, now).skip(1),
{
    lemma_unpacked_moves_whole(s, event, now);
    lemma_joined_push(load.packet, taken(s, event));
    if sends(s, event) {
        lemma_packet_is_written(s, event, now);
    }
}

/// Without packing, and with a leftover and frames that each fit into one
/// packet, every packet that leaves carries whole frames and nothing else.
pub proof fn lemma_packets_carry_whole_frames(s: Machine, events: Seq<(Event, u64)>, load: Load)
    requires
        s.valid(),
        !s.pack,
        s.extradata.len() <= s.limit(),
        runs(s, events),
        frames_fit(s, events),
        loaded(s, load),
    ensures
        groups_sent(s, events, load).len() == packets_sent(s, events).len(),
        forall|i: int|
            0 <= i < packets_sent(s, events).len() ==> (#[trigger] packets_sent(s, events)[i]).skip(
                1,
            ) == joined(groups_sent(s, events, load)[i]),
    decreases events.len(),
{
    if events.len() > 0 {
        let event = events[0].0;
        let now = events[0].1;
        let next = s.step(event, now).state;
        let rest = events.drop_first();
        let then = load_after(s, event, now, load);
        lemma_step_valid(s, event, now);
        lemma_load_follows(s, event, now, load);
        lemma_packets_carry_whole_frames(next, rest, then);
        if sends(s, event) {
            let packets = packets_sent(s, events);
            let groups = groups_sent(s, events, load);
            assert forall|i: int| 0 <= i < packets.len() implies (#[trigger] packets[i]).skip(1)
                == joined(groups[i]) by {
                if i > 0 {
                    assert(packets[i] == packets_sent(next, rest)[i - 1]);
                    assert(groups[i] == groups_sent(next, rest, then)[i - 1]);
                }
            }
        }
    }
}

/// What one step does to the frames held, taken and sent.
proof fn lemma_frames_move(load: Load, then: Load, step: Move, frame: Seq<u8>)
    requires
        step is Joins || step is Waits ==> load.waiting.len() == 0,
        step is Opens ==> load.packet.len() == 0,
        then == match step {
            Move::Rests => load,
            Move::Joins => Load { packet: load.packet.push(frame), waiting: load.waiting },
            Move::Waits => Load { packet: load.packet, waiting: seq![frame] },
            Move::Opens => Load { packet: load.waiting, waiting: Seq::empty() },
            Move::Leaves => Load { packet: Seq::empty(), waiting: load.waiting },
        },
    ensures
        step is Joins || step is Waits ==> load.packet + load.waiting + seq![frame] == then.packet
            + then.waiting,
        step is Opens || step is Rests ==> load.packet + load.waiting == then.packet + then.waiting,
        step is Leaves ==> load.packet + load.waiting == load.packet + (then.packet + then.waiting),
{
    assert(load.packet + load.waiting + seq![frame] =~= load.packet.push(frame) + load.waiting
        || !(step is Joins));
    assert(load.packet + load.waiting + seq![frame] =~= load.packet + seq![frame] || !(step
        is Waits));
    assert(load.packet + load.waiting =~= load.waiting + Seq::<Seq<u8>>::empty() || !(step
        is Opens));
    assert(load.packet + load.waiting =~= load.packet + (Seq::<Seq<u8>>::empty() + load.waiting));
}

/// Frames in front stay in front.
proof fn lemma_frames_chain(
    held: Seq<Seq<u8>>,
    first: Seq<Seq<u8>>,
    sent: Seq<Seq<u8>>,
    then: Seq<Seq<u8>>,
    rest: Seq<Seq<u8>>,
    groups: Seq<Seq<u8>>,
    end: Seq<Seq<u8>>,
)
    requires
        held + first == sent + then,
        then + rest == groups + end,
    ensures
        held + (first + rest) == (sent + groups) + end,
{
    assert(held + (first + rest) =~= (held + first) + rest);
    assert((sent + then) + rest =~= sent + (then + rest));
    assert(sent + (groups + end) =~= (sent + groups) + end);
}

/// Without packing, and with a leftover and frames that each fit into one
/// packet, the frames of all packets that leave, with those still held, are
/// the frames held at the start and the frames taken, in order: no frame is
/// divided between two packets, none is lost, and none overtakes another.
pub proof fn lemma_frames_stay_in_order(s: Machine, events: Seq<(Event, u64)>, load: Load)
    requires
        s.valid(),
        !s.pack,
        s.extradata.len() <= s.limit(),
        runs(s, events),
        frames_fit(s, events),
        loaded(s, load),
    ensures
        (load.packet + load.waiting) + frames_taken(s, events) == ungrouped(
            groups_sent(s, events, load),
        ) + (load_at_end(s, events, load).packet + load_at_end(s, events, load).waiting),
    decreases events.len(),
{
    if events.len() == 0 {
        assert((load.packet + load.waiting) + Seq::<Seq<u8>>::empty() =~= Seq::<Seq<u8>>::empty()
            + (load.packet + load.waiting));
    } else {
        let event = events[0].0;
        let now = events[0].1;
        let next = s.step(event, now).state;
        let rest = events.drop_first();
        let then = load_after(s, event, now, load);
        let end = load_at_end(next, rest, then);
        let step = move_of(s, event, next);
        lemma_step_valid(s, event, now);
        lemma_unpacked_moves_whole(s, event, now);
        lemma_load_follows(s, event, now, load);
        lemma_frames_stay_in_order(next, rest, then);
        lemma_frames_move(load, then, step, taken(s, event));
        let first = if takes(s, event) {
            seq![taken(s, event)]
        } else {
            Seq::<Seq<u8>>::empty()
        };
        let sent = if sends(s, event) {
            load.packet
        } else {
            Seq::<Seq<u8>>::empty()
        };
        assert(first + frames_taken(next, rest) =~= frames_taken(s, events));
        assert(sent + ungrouped(groups_sent(next, rest, then)) =~= ungrouped(
            groups_sent(s, events, load),
        )) by {
            if sends(s, event) {
                assert((seq![load.packet] + groups_sent(next, rest, then)).drop_first()
                    =~= groups_sent(next, rest, then));
            }
        }
        assert((load.packet + load.waiting) + first =~= sent + (then.packet + then.waiting));
        lemma_frames_chain(
            load.packet + load.waiting,
            first,
            sent,
            then.packet + then.waiting,
            frames_taken(next, rest),
            ungrouped(groups_sent(next, rest, then)),
            end.packet + end.waiting,
        );
    }
}

/// The frames that `events` bring the engine from the air, in order.
pub open spec fn frames_heard(s: Machine, events: Seq<(Event, u64)>) -> Seq<Seq<u8>>
    decreases events.len(),
{
    if events.len() == 0 {
        Seq::empty()
    } else {
        heard_frame(s, events[0].0) + frames_heard(
            s.step(events[0].0, events[0].1).state,
            events.drop_first(),
        )
    }
}

/// The frames that the engine hands on while it takes `events`, in order.
pub open spec fn frames_handed(s: Machine, events: Seq<(Event, u64)>) -> Seq<Seq<u8>>
    decreases events.len(),
{
    if events.len() == 0 {
        Seq::empty()
    } else {
        handed_frame(s.step(events[0].0, events[0].1).result) + frames_handed(
            s.step(events[0].0, events[0].1).state,
            events.drop_first(),
        )
    }
}

/// The payload of each of `packets`.
pub open spec fn payload_of_each(packets: Seq<Seq<u8>>) -> Seq<Seq<u8>> {
    Seq::new(packets.len(), |i: int| packets[i].skip(1))
}

/// Over any run that does not fail, the frames handed on and the one still
/// kept are, in order, the one kept at the start and those that arrived:
/// every packet received is handed on as one frame, none twice, none lost.
pub proof fn lemma_run_hands_on_frames(s: Machine, events: Seq<(Event, u64)>)
    requires
        s.valid(),
        runs(s, events),
    ensures
        kept_frame(s) + frames_heard(s, events) == frames_handed(s, events) + kept_frame(
            after(s, events),
        ),
    decreases events.len(),
{
    if events.len() == 0 {
        assert(kept_frame(s) + Seq::<Seq<u8>>::empty() =~= Seq::<Seq<u8>>::empty() + kept_frame(
            s,
        ));
    } else {
        let event = events[0].0;
        let now = events[0].1;
        let next = s.step(event, now).state;
        let rest = events.drop_first();
        lemma_step_valid(s, event, now);
        lemma_step_hands_on_frames(s, event, now);
        lemma_run_hands_on_frames(next, rest);
        lemma_frames_chain(
            kept_frame(s),
            heard_frame(s, event),
            handed_frame(s.step(event, now).result),
            kept_frame(next),
            frames_heard(next, rest),
            frames_handed(next, rest),
            kept_frame(after(next, rest)),
        );
    }
}

/// The frames that arrive are the payloads of the packets that the lines
/// report, one for one.
pub proof fn lemma_frames_heard_in_lines(s: Machine, events: Seq<(Event, u64)>)
    ensures
        frames_heard(s, events) == payload_of_each(packets_of(lines_heard(s, events))),
    decreases events.len(),
{
    if events.len() > 0 {
        let event = events[0].0;
        let now = events[0].1;
        let next = s.step(event, now).state;
        let rest = events.drop_first();
        lemma_frames_heard_in_lines(next, rest);
        if hears(s, event) {
            let line = event->Line_0@;
            assert(payload_of_each(packets_of(seq![line] + lines_heard(next, rest))) =~= seq![
                rx_packet(wire_bytes(line)).skip(1),
            ] + payload_of_each(packets_of(lines_heard(next, rest))));
        } else {
            assert(heard_frame(s, event) + frames_heard(next, rest) =~= frames_heard(next, rest));
        }
    } else {
        assert(payload_of_each(packets_of(lines_heard(s, events))) =~= Seq::<Seq<u8>>::empty());
    }
}

/// Two engines joined by a bridge that hands every command to transmit of
/// the one to the other as the report of a received packet, none lost and
/// in order, where the sender does not pack and its leftover and every
/// frame it takes fit into one packet: every frame that the receiver hands
/// on is one packet's run of whole frames of the sender's queue. No queued
/// frame is divided between two frames handed on, and the frames of all
/// runs, with those the sender still holds, are the frames it held and
/// took, in order.
pub proof fn lemma_bridge_carries_whole_frames(
    sender: Machine,
    sent: Seq<(Event, u64)>,
    load: Load,
    receiver: Machine,
    heard: Seq<(Event, u64)>,
)
    requires
        sender.valid(),
        !sender.pack,
        sender.extradata.len() <= sender.limit(),
        runs(sender, sent),
        frames_fit(sender, sent),
        loaded(sender, load),
        receiver.valid(),
        runs(receiver, heard),
        lines_heard(receiver, heard) == bridged_all(packets_sent(sender, sent)),
        kept_frame(receiver).len() == 0,
        kept_frame(after(receiver, heard)).len() == 0,
    ensures
        frames_handed(receiver, heard).len() == groups_sent(sender, sent, load).len(),
        forall|i: int|
            0 <= i < frames_handed(receiver, heard).len() ==> (#[trigger] frames_handed(
                receiver,
                heard,
            )[i]) == joined(groups_sent(sender, sent, load)[i]),
        (load.packet + load.waiting) + frames_taken(sender, sent) == ungrouped(
            groups_sent(sender, sent, load),
        ) + (load_at_end(sender, sent, load).packet + load_at_end(sender, sent, load).waiting),
{
    let packets = packets_sent(sender, sent);
    lemma_sent_in_packets(sender, sent);
    assert(packets_of(bridged_all(packets)) =~= packets) by {
        assert forall|i: int| 0 <= i < packets.len() implies packets_of(bridged_all(packets))[i]
            == packets[i] by {
            lemma_bridged_reports(packets[i]);
        }
    }
    lemma_frames_heard_in_lines(receiver, heard);
    lemma_run_hands_on_frames(receiver, heard);
    assert(frames_handed(receiver, heard) =~= payload_of_each(packets)) by {
        assert(kept_frame(receiver) + frames_heard(receiver, heard) =~= frames_heard(
            receiver,
            heard,
        ));
        assert(frames_handed(receiver, heard) + kept_frame(after(receiver, heard))
            =~= frames_handed(receiver, heard));
    }
    lemma_packets_carry_whole_frames(sender, sent, load);
    lemma_frames_stay_in_order(sender, sent, load);
    assert forall|i: int| 0 <= i < frames_handed(receiver, heard).len() implies (
    #[trigger] frames_handed(receiver, heard)[i]) == joined(groups_sent(sender, sent, load)[i]) by {
        assert(frames_handed(receiver, heard)[i] == packets[i].skip(1));
    }
}

} // verus!
