//! Cutting a raw byte stream into frames for the transmit queue.

use crate::kiss::contents;
use vstd::prelude::*;
use vstd::slice::*;

verus! {

/// `data` in windows of `size` bytes, the last one holding what remains.
pub open spec fn windows(data: Seq<u8>, size: int) -> Seq<Seq<u8>>
    decreases data.len(),
{
    if data.len() == 0 || size <= 0 {
        Seq::empty()
    } else if data.len() <= size {
        seq![data]
    } else {
        seq![data.take(size)] + windows(data.skip(size), size)
    }
}

/// The windows put together again are the data: no byte is lost or moved.
pub proof fn lemma_windows_rejoin(data: Seq<u8>, size: int)
    requires
        size >= 1,
    ensures
        windows(data, size).flatten() == data,
    decreases data.len(),
{
    let all = windows(data, size);
    if data.len() > size {
        lemma_windows_rejoin(data.skip(size), size);
        assert(all.drop_first() =~= windows(data.skip(size), size));
    } else if data.len() > 0 {
        assert(all.drop_first().flatten() =~= Seq::<u8>::empty());
    }
}

/// There are as many windows as it takes, each is full but the last, and
/// none is empty.
pub proof fn lemma_windows_sizes(data: Seq<u8>, size: int)
    requires
        size >= 1,
    ensures
        windows(data, size).len() == (data.len() + size - 1) / size,
        forall|i: int|
            0 <= i < windows(data, size).len() ==> 1 <= (#[trigger] windows(data, size)[i]).len()
                <= size,
        forall|i: int|
            0 <= i < windows(data, size).len() - 1 ==> (#[trigger] windows(data, size)[i]).len()
                == size,
    decreases data.len(),
{
    if data.len() == 0 {
        assert((size - 1) / size == 0) by (nonlinear_arith)
            requires
                size >= 1,
        ;
    } else if data.len() <= size {
        let n = data.len() as int;
        assert((n + size - 1) / size == 1) by (nonlinear_arith)
            requires
                1 <= n <= size,
        ;
    } else {
        let rest = data.skip(size);
        lemma_windows_sizes(rest, size);
        let n = data.len() as int;
        assert((n + size - 1) / size == (n - size + size - 1) / size + 1) by (nonlinear_arith)
            requires
                size >= 1,
                n > size,
        ;
        let all = windows(data, size);
        assert forall|i: int| 0 <= i < all.len() implies 1 <= (#[trigger] all[i]).len()
            <= size by {}
        assert forall|i: int| 0 <= i < all.len() - 1 implies (#[trigger] all[i]).len() == size by {}
    }
}

/// Cuts `data` into frames of `size` bytes, the last one holding what remains.
pub fn split_frames(data: &[u8], size: usize) -> (frames: Vec<Vec<u8>>)
    requires
        size >= 1,
    ensures
        contents(&frames) == windows(data@, size as int),
{
    let mut frames: Vec<Vec<u8>> = Vec::new();
    let mut at: usize = 0;
    assert(data@.skip(0) =~= data@);
    while at < data.len()
        invariant
            size >= 1,
            at <= data.len(),
            contents(&frames) + windows(data@.skip(at as int), size as int) == windows(
                data@,
                size as int,
            ),
        decreases data.len() - at,
    {
        let end = if data.len() - at <= size {
            data.len()
        } else {
            at + size
        };
        let frame = slice_to_vec(slice_subrange(data, at, end));
        proof {
            let rest = data@.skip(at as int);
            let before = contents(&frames);
            assert(frame@ =~= rest.take(end - at));
            assert(data@.skip(end as int) =~= rest.skip(end - at));
            assert(windows(rest, size as int) =~= seq![frame@] + windows(
                data@.skip(end as int),
                size as int,
            ));
            assert(before + (seq![frame@] + windows(data@.skip(end as int), size as int)) =~= (
            before + seq![frame@]) + windows(data@.skip(end as int), size as int));
        }
        frames.push(frame);
        at = end;
    }
    frames
}

} // verus!
