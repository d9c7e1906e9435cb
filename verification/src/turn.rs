//! Turn-taking between the two peers.
//!
//! Every packet starts with a flag byte by which its sender says whether more
//! is coming. Times are milliseconds on a clock that never runs backwards.

use vstd::prelude::*;

verus! {

/// Nothing more is coming.
pub const FLAG_FINAL: u8 = 0;

/// More is coming: the receiver should hold back.
pub const FLAG_MORE: u8 = 1;

/// More is coming, but the sender yields: the receiver must transmit at once.
pub const FLAG_YIELD: u8 = 2;

/// What the sender settles before a packet leaves: the flag the packet
/// carries, and the transmit delay and end of slot from then on.
#[derive(Clone, Copy, Debug, PartialEq, Eq)]
pub struct Turn {
    pub flag: u8,
    pub txdelay: Option<u64>,
    pub txslotend: Option<u64>,
}

/// The choice made at time `now` for a packet, where `more` says whether
/// anything is left to send after it.
///
/// With nothing left the packet is final and the slot ends. Otherwise more is
/// announced; a slot is opened if slots are configured and none is running;
/// and once `now` is past the end of the running slot the sender yields and
/// holds back itself for `eotwait`.
pub open spec fn chosen(
    more: bool,
    txslot: Option<u64>,
    txslotend: Option<u64>,
    txdelay: Option<u64>,
    eotwait: u64,
    now: u64,
) -> Turn {
    if !more {
        Turn { flag: FLAG_FINAL, txdelay, txslotend: None }
    } else {
        match txslotend {
            Some(end) => if now > end {
                Turn { flag: FLAG_YIELD, txdelay: Some((now + eotwait) as u64), txslotend: None }
            } else {
                Turn { flag: FLAG_MORE, txdelay, txslotend }
            },
            None => match txslot {
                Some(slot) => Turn {
                    flag: FLAG_MORE,
                    txdelay,
                    txslotend: Some((now + slot) as u64),
                },
                None => Turn { flag: FLAG_MORE, txdelay, txslotend: None },
            },
        }
    }
}

/// The transmit delay after a packet with `flag` was received at time `now`:
/// until `eotwait` later if the peer announced more, none otherwise.
pub open spec fn deferral(flag: u8, eotwait: u64, now: u64) -> Option<u64> {
    if flag == FLAG_MORE {
        Some((now + eotwait) as u64)
    } else {
        None
    }
}

/// How long transmitting is still held back at time `now`, if at all.
pub open spec fn remaining(txdelay: Option<u64>, now: u64) -> Option<u64> {
    match txdelay {
        Some(end) => if now < end {
            Some((end - now) as u64)
        } else {
            None
        },
        None => None,
    }
}

/// The flag is one of the three. The packet is final exactly when nothing
/// is left to send. The sender yields only past the end of a running slot,
/// and then holds back for `eotwait` and has no slot any more. A slot that
/// is running is not moved.
pub proof fn lemma_turns(
    more: bool,
    txslot: Option<u64>,
    txslotend: Option<u64>,
    txdelay: Option<u64>,
    eotwait: u64,
    now: u64,
)
    requires
        now + eotwait <= u64::MAX,
    ensures
        ({
            let turn = chosen(more, txslot, txslotend, txdelay, eotwait, now);
            &&& turn.flag == FLAG_FINAL || turn.flag == FLAG_MORE || turn.flag == FLAG_YIELD
            &&& turn.flag == FLAG_FINAL <==> !more
            &&& turn.flag == FLAG_YIELD <==> (more && txslotend is Some && now > txslotend->0)
            &&& turn.flag == FLAG_YIELD ==> turn.txdelay == Some((now + eotwait) as u64)
                && turn.txslotend is None
            &&& turn.flag != FLAG_YIELD ==> turn.txdelay == txdelay
            &&& turn.flag == FLAG_MORE && txslotend is Some ==> turn.txslotend == txslotend
        }),
{
}

/// Settles flag, transmit delay and slot for the packet about to leave.
pub fn choose_turn(
    more: bool,
    txslot: Option<u64>,
    txslotend: Option<u64>,
    txdelay: Option<u64>,
    eotwait: u64,
    now: u64,
) -> (turn: Turn)
    requires
        now + eotwait <= u64::MAX,
        txslot matches Some(slot) ==> now + slot <= u64::MAX,
    ensures
        turn == chosen(more, txslot, txslotend, txdelay, eotwait, now),
{
    if !more {
        Turn { flag: FLAG_FINAL, txdelay, txslotend: None }
    } else {
        match txslotend {
            Some(end) => if now > end {
                Turn { flag: FLAG_YIELD, txdelay: Some(now + eotwait), txslotend: None }
            } else {
                Turn { flag: FLAG_MORE, txdelay, txslotend }
            },
            None => match txslot {
                Some(slot) => Turn { flag: FLAG_MORE, txdelay, txslotend: Some(now + slot) },
                None => Turn { flag: FLAG_MORE, txdelay, txslotend: None },
            },
        }
    }
}

/// The transmit delay after a packet with `flag` was received.
pub fn defer(flag: u8, eotwait: u64, now: u64) -> (txdelay: Option<u64>)
    requires
        now + eotwait <= u64::MAX,
    ensures
        txdelay == deferral(flag, eotwait, now),
{
    if flag == FLAG_MORE {
        Some(now + eotwait)
    } else {
        None
    }
}

} // verus!
