//! The bounded frame queue between the producer (the frame sink) and the
//! consumer (the frame source), and the rule by which the source turns queued
//! frames into bytes.
//!
//! Blocking is left to the caller: a producer that finds the queue full waits
//! for room and offers the rest again; a reader that finds it empty waits for a
//! frame. Nothing here ever drops, duplicates or reorders a frame.
use std::collections::VecDeque;
use vstd::prelude::*;

use crate::frame::{frame_bytes, frames_bytes, Frame, FRAME_BYTES};

verus! {

/// A first-in first-out queue of frames that never holds more than its capacity.
pub struct FrameQueue {
    frames: VecDeque<Frame>,
    capacity: usize,
}

/// What one read of the frame source comes to.
#[derive(Debug, PartialEq, Eq)]
pub enum ReadOutcome {
    /// The caller's buffer cannot hold one whole frame.
    BufferTooSmall,
    /// No frame is queued: the caller waits for one and reads again. A read
    /// never answers with zero bytes, which downstream means end of stream.
    Wait,
    /// The bytes of the frames taken from the front of the queue.
    Bytes(Vec<u8>),
}

/// The bytes `frames_bytes(fs)` has at least one whole frame of bytes per frame.
pub proof fn lemma_frames_bytes_len(fs: Seq<Frame>)
    ensures
        frames_bytes(fs).len() == FRAME_BYTES * fs.len(),
    decreases fs.len(),
{
    if fs.len() > 0 {
        lemma_frames_bytes_len(fs.drop_last());
    }
}

impl FrameQueue {
    /// The queued frames, oldest first.
    pub closed spec fn view(&self) -> Seq<Frame> {
        self.frames@
    }

    /// The most frames the queue holds at once.
    pub closed spec fn spec_capacity(&self) -> nat {
        self.capacity as nat
    }

    /// The queue is within its capacity, which is at least one frame.
    pub closed spec fn wf(&self) -> bool {
        &&& self.capacity > 0
        &&& self.frames@.len() <= self.capacity
    }

    /// An empty queue that holds up to `capacity` frames.
    pub fn new(capacity: usize) -> (r: FrameQueue)
        requires
            capacity > 0,
        ensures
            r.wf(),
            r@ == Seq::<Frame>::empty(),
            r.spec_capacity() == capacity,
    {
        FrameQueue { frames: VecDeque::new(), capacity }
    }

    pub fn capacity(&self) -> (r: usize)
        ensures
            r == self.spec_capacity(),
    {
        self.capacity
    }

    pub fn len(&self) -> (r: usize)
        ensures
            r == self@.len(),
    {
        self.frames.len()
    }

    pub fn is_empty(&self) -> (r: bool)
        ensures
            r == (self@.len() == 0),
    {
        self.frames.len() == 0
    }

    pub fn is_full(&self) -> (r: bool)
        ensures
            r == (self@.len() >= self.spec_capacity()),
    {
        self.frames.len() >= self.capacity
    }

    /// Appends `frame` when there is room and says whether it did; a full
    /// queue is left as it was, and the producer must wait and offer the frame
    /// again.
    pub fn try_push(&mut self, frame: Frame) -> (r: bool)
        requires
            old(self).wf(),
        ensures
            final(self).wf(),
            final(self).spec_capacity() == old(self).spec_capacity(),
            r == (old(self)@.len() < old(self).spec_capacity()),
            r ==> final(self)@ == old(self)@.push(frame),
            !r ==> final(self)@ == old(self)@,
    {
        if self.frames.len() >= self.capacity {
            return false;
        }
        self.frames.push_back(frame);
        true
    }

    /// Appends as many of `frames[start..]` as there is room for, in order,
    /// and returns how many it took; the caller offers the rest once the
    /// consumer has made room.
    pub fn push_from(&mut self, frames: &Vec<Frame>, start: usize) -> (taken: usize)
        requires
            old(self).wf(),
            start <= frames@.len(),
        ensures
            final(self).wf(),
            final(self).spec_capacity() == old(self).spec_capacity(),
            taken == vstd::math::min(
                frames@.len() - start,
                old(self).spec_capacity() - old(self)@.len(),
            ),
            final(self)@ == old(self)@ + frames@.subrange(start as int, start + taken),
    {
        let mut i: usize = start;
        while i < frames.len() && self.frames.len() < self.capacity
            invariant
                start <= i <= frames@.len(),
                self.capacity == old(self).capacity,
                self.frames@.len() <= self.capacity,
                self.frames@ == old(self)@ + frames@.subrange(start as int, i as int),
            decreases frames@.len() - i,
        {
            self.frames.push_back(frames[i]);
            i = i + 1;
            proof {
                assert(frames@.subrange(start as int, i as int) =~= frames@.subrange(
                    start as int,
                    i - 1,
                ).push(frames@[i - 1]));
            }
        }
        i - start
    }

    /// Takes the oldest frame, if any.
    pub fn pop(&mut self) -> (r: Option<Frame>)
        requires
            old(self).wf(),
        ensures
            final(self).wf(),
            final(self).spec_capacity() == old(self).spec_capacity(),
            old(self)@.len() == 0 ==> r is None && final(self)@ == old(self)@,
            old(self)@.len() > 0 ==> r == Some(old(self)@[0]) && final(self)@ == old(self)@.drop_first(),
    {
        self.frames.pop_front()
    }

    /// One read of the frame source into a buffer of `buf_len` bytes.
    ///
    /// A buffer shorter than one frame is refused. On an empty queue the
    /// reader is told to wait. Otherwise the read takes as many frames from
    /// the front as are queued and fit whole in the buffer (at least one), and
    /// hands back their bytes.
    pub fn read(&mut self, buf_len: usize) -> (r: ReadOutcome)
        requires
            old(self).wf(),
        ensures
            final(self).wf(),
            final(self).spec_capacity() == old(self).spec_capacity(),
            buf_len < FRAME_BYTES ==> r == ReadOutcome::BufferTooSmall && final(self)@ == old(
                self,
            )@,
            buf_len >= FRAME_BYTES && old(self)@.len() == 0 ==> r == ReadOutcome::Wait
                && final(self)@ == old(self)@,
            buf_len >= FRAME_BYTES && old(self)@.len() > 0 ==> r is Bytes && ({
                let n = vstd::math::min(old(self)@.len() as int, (buf_len / FRAME_BYTES) as int);
                &&& n >= 1
                &&& r->Bytes_0@.len() == FRAME_BYTES * n
                &&& r->Bytes_0@ == frames_bytes(old(self)@.take(n))
                &&& final(self)@ == old(self)@.skip(n)
            }),
    {
        if buf_len < FRAME_BYTES {
            return ReadOutcome::BufferTooSmall;
        }
        if self.frames.len() == 0 {
            return ReadOutcome::Wait;
        }
        let ghost start = self.frames@;
        let max_frames = buf_len / FRAME_BYTES;
        let mut out: Vec<u8> = Vec::new();
        let mut n: usize = 0;
        while n < max_frames && self.frames.len() > 0
            invariant
                self.capacity == old(self).capacity,
                start == old(self)@,
                start.len() <= self.capacity,
                max_frames == buf_len / FRAME_BYTES,
                n <= max_frames,
                n <= start.len(),
                self.frames@ == start.skip(n as int),
                out@ == frames_bytes(start.take(n as int)),
            decreases max_frames - n,
        {
            let f = self.frames.pop_front().unwrap();
            let bytes = f.to_le_bytes();
            proof {
                assert(start.take(n + 1).drop_last() =~= start.take(n as int));
                assert(start.take(n + 1).last() == f);
                assert(self.frames@ =~= start.skip(n + 1));
            }
            let mut k: usize = 0;
            let ghost before = out@;
            while k < bytes.len()
                invariant
                    0 <= k <= bytes@.len(),
                    out@ == before + bytes@.subrange(0, k as int),
                decreases bytes@.len() - k,
            {
                out.push(bytes[k]);
                k = k + 1;
                proof {
                    assert(bytes@.subrange(0, k as int) =~= bytes@.subrange(0, k - 1).push(
                        bytes@[k - 1],
                    ));
                }
            }
            proof {
                assert(bytes@.subrange(0, k as int) =~= bytes@);
            }
            n = n + 1;
        }
        proof {
            lemma_frames_bytes_len(start.take(n as int));
        }
        ReadOutcome::Bytes(out)
    }
}

/// The bytes of two runs of frames, one after the other, are the bytes of
/// the joined run.
pub proof fn lemma_frames_bytes_append(a: Seq<Frame>, b: Seq<Frame>)
    ensures
        frames_bytes(a + b) == frames_bytes(a) + frames_bytes(b),
    decreases b.len(),
{
    if b.len() == 0 {
        assert(a + b =~= a);
        assert(frames_bytes(a) + frames_bytes(b) =~= frames_bytes(a));
    } else {
        lemma_frames_bytes_append(a, b.drop_last());
        assert((a + b).drop_last() =~= a + b.drop_last());
        assert((a + b).last() == b.last());
        assert(frames_bytes(a) + frames_bytes(b) =~= frames_bytes(a) + frames_bytes(b.drop_last())
            + frame_bytes(b.last()));
    }
}

/// Frames leave the queue in the order they entered, none lost or repeated:
/// when a queue holding `queued` takes `pushed` and a read then takes the
/// first `n` frames, the bytes read followed by the bytes of the frames left
/// are the bytes of `queued` followed by those of `pushed`.
pub proof fn frame_order_kept(queued: Seq<Frame>, pushed: Seq<Frame>, n: int)
    requires
        0 <= n <= queued.len() + pushed.len(),
    ensures
        frames_bytes((queued + pushed).take(n)) + frames_bytes((queued + pushed).skip(n))
            == frames_bytes(queued) + frames_bytes(pushed),
{
    let all = queued + pushed;
    assert(all.take(n) + all.skip(n) =~= all);
    lemma_frames_bytes_append(all.take(n), all.skip(n));
    lemma_frames_bytes_append(queued, pushed);
}

/// A producer held back by a full queue loses nothing: it offers
/// `frames[start..]`, the queue takes `t1` of them, a read takes `n` frames
/// from the front, and the producer offers the rest from `start + t1`, of
/// which the queue takes `t2`. Then the frames read followed by the frames
/// queued are the frames first queued followed by
/// `frames[start..start + t1 + t2]`, each once and in order.
pub proof fn backpressure_keeps_frames(
    q0: Seq<Frame>,
    frames: Seq<Frame>,
    start: int,
    t1: int,
    q1: Seq<Frame>,
    n: int,
    q2: Seq<Frame>,
    t2: int,
    q3: Seq<Frame>,
)
    requires
        0 <= start,
        0 <= t1,
        0 <= t2,
        start + t1 + t2 <= frames.len(),
        q1 == q0 + frames.subrange(start, start + t1),
        0 <= n <= q1.len(),
        q2 == q1.skip(n),
        q3 == q2 + frames.subrange(start + t1, start + t1 + t2),
    ensures
        q1.take(n) + q3 == q0 + frames.subrange(start, start + t1 + t2),
{
    assert(frames.subrange(start, start + t1 + t2) =~= frames.subrange(start, start + t1)
        + frames.subrange(start + t1, start + t1 + t2));
    assert(q1.take(n) + q1.skip(n) =~= q1);
    assert(q1.take(n) + q3 =~= q1 + frames.subrange(start + t1, start + t1 + t2));
}

} // verus!
