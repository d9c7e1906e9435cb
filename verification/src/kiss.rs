//! KISS framing of the byte stream that is to be transmitted.
//!
//! The stream is a run of chunks, each ending with the frame delimiter. A
//! chunk that begins with the data type byte is a data frame, and goes out
//! with the delimiter put back in front of it. Every other chunk is dropped:
//! the gap between two frames, and the commands meant for a TNC.

use vstd::prelude::*;

verus! {

/// The frame delimiter.
pub const FEND: u8 = 0xC0;

/// The type byte of a data frame.
pub const DATA: u8 = 0x00;

/// What a chunk gives to transmit: itself behind a delimiter if it is a data
/// frame, nothing otherwise.
pub open spec fn framed(chunk: Seq<u8>) -> Option<Seq<u8>> {
    if chunk.len() >= 2 && chunk[0] == DATA {
        Some(seq![FEND] + chunk)
    } else {
        None
    }
}

/// What a stream gives, read byte by byte behind the bytes `open` of a chunk
/// begun earlier: the frames to transmit, and the bytes of the chunk still
/// open at its end.
#[verifier::ext_equal]
pub struct Scan {
    pub frames: Seq<Seq<u8>>,
    pub open: Seq<u8>,
}

pub open spec fn scan(open: Seq<u8>, input: Seq<u8>) -> Scan
    decreases input.len(),
{
    if input.len() == 0 {
        Scan { frames: Seq::empty(), open }
    } else {
        let chunk = open.push(input[0]);
        if input[0] == FEND {
            let rest = scan(Seq::empty(), input.drop_first());
            match framed(chunk) {
                Some(frame) => Scan { frames: seq![frame] + rest.frames, open: rest.open },
                None => rest,
            }
        } else {
            scan(chunk, input.drop_first())
        }
    }
}

/// The byte sequences that `frames` holds.
pub open spec fn contents(frames: &Vec<Vec<u8>>) -> Seq<Seq<u8>> {
    Seq::new(frames@.len(), |i: int| frames@[i]@)
}

/// What `chunk` gives to transmit.
pub fn frame_chunk(chunk: &Vec<u8>) -> (frame: Option<Vec<u8>>)
    ensures
        match frame {
            Some(bytes) => framed(chunk@) == Some(bytes@),
            None => framed(chunk@) is None,
        },
{
    if chunk.len() < 2 || chunk[0] != DATA {
        return None;
    }
    let mut frame: Vec<u8> = Vec::new();
    frame.push(FEND);
    let mut i: usize = 0;
    while i < chunk.len()
        invariant
            i <= chunk.len(),
            frame@ == seq![FEND] + chunk@.take(i as int),
        decreases chunk.len() - i,
    {
        frame.push(chunk[i]);
        i += 1;
    }
    Some(frame)
}

/// Scanning a stream in two parts gives what scanning it in one gives.
pub proof fn lemma_scan_in_parts(open: Seq<u8>, first: Seq<u8>, second: Seq<u8>)
    ensures
        scan(open, first + second) == (Scan {
            frames: scan(open, first).frames + scan(scan(open, first).open, second).frames,
            open: scan(scan(open, first).open, second).open,
        }),
    decreases first.len(),
{
    if first.len() > 0 {
        assert((first + second).drop_first() =~= first.drop_first() + second);
        let chunk = open.push(first[0]);
        if first[0] == FEND {
            lemma_scan_in_parts(Seq::empty(), first.drop_first(), second);
            let head = scan(Seq::empty(), first.drop_first());
            let tail = scan(head.open, second);
            match framed(chunk) {
                Some(frame) => {
                    assert(seq![frame] + (head.frames + tail.frames) =~= (seq![frame]
                        + head.frames) + tail.frames);
                },
                None => {},
            }
        } else {
            lemma_scan_in_parts(chunk, first.drop_first(), second);
        }
    }
}

/// What one byte gives behind an open chunk: on the delimiter the chunk is
/// complete, on any other byte it grows.
pub proof fn lemma_scan_byte(open: Seq<u8>, byte: u8)
    ensures
        scan(open, seq![byte]) == if byte == FEND {
            match framed(open.push(byte)) {
                Some(frame) => Scan { frames: seq![frame], open: Seq::empty() },
                None => Scan { frames: Seq::empty(), open: Seq::empty() },
            }
        } else {
            Scan { frames: Seq::empty(), open: open.push(byte) }
        },
{
    let one = seq![byte];
    let none = one.drop_first();
    assert(scan(Seq::empty(), none) == Scan { frames: Seq::empty(), open: Seq::empty() });
    assert(scan(open.push(byte), none) == Scan { frames: Seq::empty(), open: open.push(byte) });
}

/// Splits a stream that arrives in pieces.
pub struct KissSplitter {
    open: Vec<u8>,
}

impl View for KissSplitter {
    type V = Seq<u8>;

    /// The bytes of the chunk that is still open.
    closed spec fn view(&self) -> Seq<u8> {
        self.open@
    }
}

impl KissSplitter {
    /// A splitter at the start of a stream.
    pub fn new() -> (splitter: KissSplitter)
        ensures
            splitter@ == Seq::<u8>::empty(),
    {
        KissSplitter { open: Vec::new() }
    }

    /// Takes the next piece of the stream and returns the frames to transmit
    /// that it completes, in order.
    pub fn feed(&mut self, input: &[u8]) -> (frames: Vec<Vec<u8>>)
        ensures
            contents(&frames) == scan(old(self)@, input@).frames,
            final(self)@ == scan(old(self)@, input@).open,
    {
        let mut frames: Vec<Vec<u8>> = Vec::new();
        let mut i: usize = 0;
        while i < input.len()
            invariant
                i <= input.len(),
                contents(&frames) == scan(old(self)@, input@.take(i as int)).frames,
                self@ == scan(old(self)@, input@.take(i as int)).open,
            decreases input.len() - i,
        {
            let byte = input[i];
            proof {
                let done = input@.take(i as int);
                let one = seq![byte];
                assert(input@.take(i + 1) =~= done + one);
                lemma_scan_in_parts(old(self)@, done, one);
                lemma_scan_byte(self@, byte);
            }
            self.open.push(byte);
            if byte == FEND {
                match frame_chunk(&self.open) {
                    Some(frame) => {
                        frames.push(frame);
                    },
                    None => {},
                }
                self.open = Vec::new();
            }
            i += 1;
        }
        assert(input@.take(i as int) =~= input@);
        frames
    }

    /// Ends the stream and returns what the chunk still open gives to transmit.
    pub fn finish(self) -> (frame: Option<Vec<u8>>)
        ensures
            match frame {
                Some(bytes) => framed(self@) == Some(bytes@),
                None => framed(self@) is None,
            },
    {
        frame_chunk(&self.open)
    }
}

} // verus!
