//! Assembly of one outbound packet from the leftover of the previous one, a
//! new payload and the frames that are waiting behind it.
//!
//! A packet carries at most `limit` bytes of payload, where `limit` is the
//! radio's maximum packet size less the flag byte. What does not fit stays
//! behind as leftover and opens the next packet.

use vstd::prelude::*;

verus! {

/// A packet under assembly: the bytes it will carry and the bytes left over
/// for the packets after it.
#[verifier::ext_equal]
pub struct Assembly {
    pub body: Seq<u8>,
    pub leftover: Seq<u8>,
}

/// `data` cut after `limit` bytes.
pub open spec fn cut(data: Seq<u8>, limit: int) -> Assembly {
    if data.len() > limit {
        Assembly { body: data.take(limit), leftover: data.skip(limit) }
    } else {
        Assembly { body: data, leftover: Seq::empty() }
    }
}

/// The assembly a packet starts from: the previous leftover, then the new payload.
pub open spec fn opened(leftover: Seq<u8>, payload: Seq<u8>, limit: int) -> Assembly {
    cut(leftover + payload, limit)
}

/// Whether the assembly has room and nothing left over, so that a waiting
/// frame may join the packet.
pub open spec fn has_room(a: Assembly, limit: int) -> bool {
    a.body.len() < limit && a.leftover.len() == 0
}

/// The assembly after the next waiting frame joined one that has room.
///
/// When packing, the frame is appended and the excess cut off. Otherwise the
/// frame joins the packet only if all of it fits, and is left over whole if
/// it does not.
pub open spec fn absorbed(a: Assembly, next: Seq<u8>, limit: int, pack: bool) -> Assembly
    recommends
        has_room(a, limit),
{
    if pack {
        cut(a.body + next, limit)
    } else if a.body.len() + next.len() <= limit {
        Assembly { body: a.body + next, leftover: Seq::empty() }
    } else {
        Assembly { body: a.body, leftover: next }
    }
}

/// Cuts `body` after `limit` bytes and returns the excess.
fn cut_excess(body: &mut Vec<u8>, limit: usize) -> (excess: Vec<u8>)
    ensures
        (Assembly { body: final(body)@, leftover: excess@ }) == cut(old(body)@, limit as int),
{
    if body.len() > limit {
        body.split_off(limit)
    } else {
        Vec::new()
    }
}

/// Starts a packet: moves the leftover of the previous packet into it,
/// appends `payload`, and keeps as the new leftover what exceeds `limit`.
pub fn open_packet(leftover: &mut Vec<u8>, payload: Vec<u8>, limit: usize) -> (body: Vec<u8>)
    ensures
        (Assembly { body: body@, leftover: final(leftover)@ }) == opened(
            old(leftover)@,
            payload@,
            limit as int,
        ),
{
    let mut body: Vec<u8> = Vec::new();
    let mut payload = payload;
    body.append(leftover);
    body.append(&mut payload);
    let excess = cut_excess(&mut body, limit);
    *leftover = excess;
    body
}

/// Whether another waiting frame may join the packet.
pub fn wants_frame(body: &Vec<u8>, leftover: &Vec<u8>, limit: usize) -> (more: bool)
    ensures
        more == has_room(Assembly { body: body@, leftover: leftover@ }, limit as int),
{
    body.len() < limit && leftover.is_empty()
}

/// Takes the next waiting frame into an assembly that has room.
pub fn absorb_frame(
    body: &mut Vec<u8>,
    leftover: &mut Vec<u8>,
    next: Vec<u8>,
    limit: usize,
    pack: bool,
)
    requires
        has_room(Assembly { body: old(body)@, leftover: old(leftover)@ }, limit as int),
    ensures
        (Assembly { body: final(body)@, leftover: final(leftover)@ }) == absorbed(
            Assembly { body: old(body)@, leftover: old(leftover)@ },
            next@,
            limit as int,
            pack,
        ),
{
    let mut next = next;
    if pack {
        body.append(&mut next);
        let excess = cut_excess(body, limit);
        *leftover = excess;
    } else if next.len() <= limit && body.len() <= limit - next.len() {
        body.append(&mut next);
    } else {
        *leftover = next;
    }
}

/// Cutting keeps every byte in its place, and the packet within the limit.
pub proof fn lemma_cut_keeps(data: Seq<u8>, limit: int)
    requires
        limit >= 0,
    ensures
        cut(data, limit).body + cut(data, limit).leftover == data,
        cut(data, limit).body.len() <= limit,
{
}

/// The leftover behind a newly opened packet fits into one packet exactly
/// when what the packet was opened with is at most two packets long.
pub proof fn lemma_opened_leftover(leftover: Seq<u8>, payload: Seq<u8>, limit: int)
    requires
        limit >= 0,
    ensures
        opened(leftover, payload, limit).leftover.len() <= limit <==> leftover.len()
            + payload.len() <= 2 * limit,
{
}

/// The leftover behind a packet that took a waiting frame fits into one
/// packet exactly when, packing, packet and frame together are at most two
/// packets long, and else when the frame fits into the packet or into one of
/// its own.
pub proof fn lemma_absorbed_leftover(a: Assembly, next: Seq<u8>, limit: int, pack: bool)
    requires
        has_room(a, limit),
    ensures
        absorbed(a, next, limit, pack).leftover.len() <= limit <==> if pack {
            a.body.len() + next.len() <= 2 * limit
        } else {
            a.body.len() + next.len() <= limit || next.len() <= limit
        },
{
}

/// Without packing, a waiting frame is never divided: it joins the packet
/// whole, or is left over whole for the next one.
pub proof fn lemma_unpacked_frame_whole(a: Assembly, next: Seq<u8>, limit: int)
    requires
        has_room(a, limit),
    ensures
        ({
            let b = absorbed(a, next, limit, false);
            ||| b.body == a.body + next && b.leftover.len() == 0
            ||| b.body == a.body && b.leftover == next
        }),
{
}

/// A payload of exactly the limit makes one full packet and leaves nothing over.
pub proof fn lemma_full_payload(payload: Seq<u8>, limit: int)
    requires
        payload.len() == limit,
    ensures
        opened(Seq::empty(), payload, limit) == (Assembly {
            body: payload,
            leftover: Seq::empty(),
        }),
{
}

/// A payload one byte over the limit makes one full packet and leaves its
/// last byte over, which the next packet carries alone.
pub proof fn lemma_payload_one_over(payload: Seq<u8>, limit: int)
    requires
        limit >= 1,
        payload.len() == limit + 1,
    ensures
        opened(Seq::empty(), payload, limit) == (Assembly {
            body: payload.take(limit),
            leftover: seq![payload[limit]],
        }),
        opened(seq![payload[limit]], Seq::empty(), limit) == (Assembly {
            body: seq![payload[limit]],
            leftover: Seq::empty(),
        }),
{
}

} // verus!
