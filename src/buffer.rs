//! The input accumulation buffer of the frame sink.
//!
//! Decoded audio arrives interleaved (left, right, left, right, ...) at the
//! source rate, in packets of any size. The resampler wants blocks of exactly
//! one fixed number of frames, one sequence per channel. The buffer
//! de-interleaves what arrives, cuts it into such blocks in arrival order, and
//! keeps what is left over for the next packet.
use vstd::prelude::*;

use crate::frame::Frame;

verus! {

/// One resampler input: a block of source-rate frames, one sequence per channel.
pub struct InputBlock {
    pub left: Vec<u32>,
    pub right: Vec<u32>,
}

impl InputBlock {
    /// The block's frames, in order.
    pub open spec fn frames(&self) -> Seq<Frame> {
        pair_frames(self.left@, self.right@)
    }
}

/// The frames that two channel sequences of equal length make, in order.
pub open spec fn pair_frames(left: Seq<u32>, right: Seq<u32>) -> Seq<Frame> {
    Seq::new(left.len(), |i: int| Frame { left: left[i], right: right[i] })
}

/// The whole frames in an interleaved sample sequence, in order; a trailing
/// lone sample makes no frame.
pub open spec fn interleaved_frames(samples: Seq<u32>) -> Seq<Frame> {
    Seq::new(samples.len() / 2, |i: int| Frame { left: samples[2 * i], right: samples[2 * i + 1] })
}

/// The frames of a sequence of blocks, one block after another.
pub open spec fn blocks_frames(blocks: Seq<InputBlock>) -> Seq<Frame>
    decreases blocks.len(),
{
    if blocks.len() == 0 {
        Seq::empty()
    } else {
        blocks_frames(blocks.drop_last()) + blocks.last().frames()
    }
}

/// The frames accumulated towards the next block, one sequence per channel.
pub struct InputBuffer {
    left: Vec<u32>,
    right: Vec<u32>,
    block_frames: usize,
}

impl InputBuffer {
    /// The frames held, oldest first.
    pub closed spec fn view(&self) -> Seq<Frame> {
        pair_frames(self.left@, self.right@)
    }

    /// The number of frames one resampler block takes.
    pub closed spec fn spec_block_frames(&self) -> nat {
        self.block_frames as nat
    }

    /// Both channels hold the same number of samples, fewer than a block.
    pub closed spec fn wf(&self) -> bool {
        &&& self.block_frames > 0
        &&& self.left@.len() == self.right@.len()
        &&& self.left@.len() < self.block_frames
    }

    /// An empty buffer that cuts blocks of `block_frames` frames.
    pub fn new(block_frames: usize) -> (r: InputBuffer)
        requires
            block_frames > 0,
        ensures
            r.wf(),
            r@ == Seq::<Frame>::empty(),
            r.spec_block_frames() == block_frames,
    {
        InputBuffer { left: Vec::new(), right: Vec::new(), block_frames }
    }

    pub fn block_frames(&self) -> (r: usize)
        ensures
            r == self.spec_block_frames(),
    {
        self.block_frames
    }

    /// Number of frames held towards the next block.
    pub fn len(&self) -> (r: usize)
        requires
            self.wf(),
        ensures
            r == self@.len(),
    {
        self.left.len()
    }

    /// Takes in an interleaved packet and returns, in order, every block that
    /// is now complete. The frames held before, followed by the packet's
    /// frames, are exactly the returned blocks' frames followed by the frames
    /// held after: nothing is dropped, duplicated or reordered.
    pub fn accept(&mut self, samples: &[u32]) -> (blocks: Vec<InputBlock>)
        requires
            old(self).wf(),
        ensures
            final(self).wf(),
            final(self).spec_block_frames() == old(self).spec_block_frames(),
            forall|i: int|
                0 <= i < blocks@.len() ==> {
                    &&& #[trigger] blocks@[i].left@.len() == old(self).spec_block_frames()
                    &&& blocks@[i].right@.len() == old(self).spec_block_frames()
                },
            old(self)@ + interleaved_frames(samples@) == blocks_frames(blocks@) + final(self)@,
            blocks@.len() == (old(self)@.len() + samples@.len() / 2) as nat / old(
                self,
            ).spec_block_frames(),
            final(self)@.len() == (old(self)@.len() + samples@.len() / 2) as nat % old(
                self,
            ).spec_block_frames(),
    {
        let ghost incoming = interleaved_frames(samples@);
        let ghost held = self@;
        let mut blocks: Vec<InputBlock> = Vec::new();
        let n = samples.len();
        let pairs = n / 2;
        let mut j: usize = 0;
        while j < pairs
            invariant
                n == samples@.len(),
                pairs == n / 2,
                incoming == interleaved_frames(samples@),
                j <= pairs,
                self.wf(),
                self.block_frames == old(self).block_frames,
                forall|i: int|
                    0 <= i < blocks@.len() ==> {
                        &&& #[trigger] blocks@[i].left@.len() == self.block_frames
                        &&& blocks@[i].right@.len() == self.block_frames
                    },
                held + incoming.take(j as int) == blocks_frames(blocks@) + self@,
            decreases pairs - j,
        {
            let ghost before = self@;
            assert(2 * j + 1 < n) by (nonlinear_arith)
                requires
                    j < pairs,
                    pairs == n / 2,
            ;
            let l = samples[2 * j];
            let r = samples[2 * j + 1];
            self.left.push(l);
            self.right.push(r);
            proof {
                assert(incoming.take(j + 1) =~= incoming.take(j as int).push(
                    Frame { left: l, right: r },
                ));
                assert(self@ =~= before.push(Frame { left: l, right: r }));
                assert(held + incoming.take(j + 1) =~= (held + incoming.take(j as int)).push(
                    Frame { left: l, right: r },
                ));
                assert(blocks_frames(blocks@) + self@ =~= (blocks_frames(blocks@) + before).push(
                    Frame { left: l, right: r },
                ));
            }
            let ghost filled = self@;
            if self.left.len() == self.block_frames {
                let mut left: Vec<u32> = Vec::new();
                let mut right: Vec<u32> = Vec::new();
                core::mem::swap(&mut left, &mut self.left);
                core::mem::swap(&mut right, &mut self.right);
                let block = InputBlock { left, right };
                let ghost prev = blocks@;
                blocks.push(block);
                proof {
                    assert(blocks@.drop_last() =~= prev);
                    assert(self@ =~= Seq::<Frame>::empty());
                    assert(block.left@.len() == self.block_frames);
                    assert(block.right@.len() == self.block_frames);
                    assert(forall|i: int|
                        0 <= i < blocks@.len() ==> {
                            &&& #[trigger] blocks@[i].left@.len() == self.block_frames
                            &&& blocks@[i].right@.len() == self.block_frames
                        }) by {
                        assert forall|i: int| 0 <= i < blocks@.len() implies {
                            &&& #[trigger] blocks@[i].left@.len() == self.block_frames
                            &&& blocks@[i].right@.len() == self.block_frames
                        } by {
                            if i < prev.len() {
                                assert(blocks@[i] == prev[i]);
                                assert(prev[i].left@.len() == self.block_frames);
                            } else {
                                assert(blocks@[i] == block);
                            }
                        }
                    }
                    assert(block.frames() =~= filled);
                    assert(blocks_frames(blocks@) =~= blocks_frames(prev) + block.frames());
                    assert(blocks_frames(blocks@) + self@ =~= blocks_frames(prev) + filled);
                }
            }
            j = j + 1;
        }
        proof {
            assert(incoming.take(pairs as int) =~= incoming);
            lemma_blocks_frames_len(blocks@, self.block_frames as int);
            let total = held.len() + pairs;
            let k = blocks@.len() as int;
            let b = self.block_frames as int;
            let rest = self@.len() as int;
            assert(total == k * b + rest);
            assert(k == total / b && rest == total % b) by (nonlinear_arith)
                requires
                    total == k * b + rest,
                    0 <= rest < b,
                    0 <= k,
            ;
        }
        blocks
    }
}

/// Blocks of `b` frames each hold `b` frames per block.
pub proof fn lemma_blocks_frames_len(blocks: Seq<InputBlock>, b: int)
    requires
        forall|i: int|
            0 <= i < blocks.len() ==> {
                &&& #[trigger] blocks[i].left@.len() == b
                &&& blocks[i].right@.len() == b
            },
    ensures
        blocks_frames(blocks).len() == blocks.len() * b,
    decreases blocks.len(),
{
    if blocks.len() > 0 {
        let init = blocks.drop_last();
        assert forall|i: int| 0 <= i < init.len() implies {
            &&& #[trigger] init[i].left@.len() == b
            &&& init[i].right@.len() == b
        } by {
            assert(init[i] == blocks[i]);
        }
        lemma_blocks_frames_len(init, b);
        assert(blocks.last() == blocks[blocks.len() - 1]);
        assert(blocks_frames(blocks).len() == init.len() * b + b);
        assert(init.len() * b + b == blocks.len() * b) by (nonlinear_arith)
            requires
                init.len() + 1 == blocks.len(),
        ;
    }
}

/// The frames of two runs of blocks, one after the other, are the frames of
/// the joined run.
pub proof fn lemma_blocks_frames_append(a: Seq<InputBlock>, b: Seq<InputBlock>)
    ensures
        blocks_frames(a + b) == blocks_frames(a) + blocks_frames(b),
    decreases b.len(),
{
    if b.len() == 0 {
        assert(a + b =~= a);
        assert(blocks_frames(a) + blocks_frames(b) =~= blocks_frames(a));
    } else {
        lemma_blocks_frames_append(a, b.drop_last());
        assert((a + b).drop_last() =~= a + b.drop_last());
        assert((a + b).last() == b.last());
        assert(blocks_frames(a) + blocks_frames(b) =~= blocks_frames(a) + blocks_frames(
            b.drop_last(),
        ) + b.last().frames());
    }
}

/// Packets fed one after another leave the buffer as blocks in the same
/// order: when a buffer holding `held0` takes packet `p1`, returning blocks
/// `b1` and keeping `held1`, and then takes `p2`, returning `b2` and keeping
/// `held2`, the frames first held followed by both packets' frames are the
/// frames of `b1` then `b2`, followed by what is held at the end.
pub proof fn packet_order_kept(
    held0: Seq<Frame>,
    p1: Seq<u32>,
    b1: Seq<InputBlock>,
    held1: Seq<Frame>,
    p2: Seq<u32>,
    b2: Seq<InputBlock>,
    held2: Seq<Frame>,
)
    requires
        held0 + interleaved_frames(p1) == blocks_frames(b1) + held1,
        held1 + interleaved_frames(p2) == blocks_frames(b2) + held2,
    ensures
        held0 + interleaved_frames(p1) + interleaved_frames(p2) == blocks_frames(b1 + b2) + held2,
{
    lemma_blocks_frames_append(b1, b2);
    assert(held0 + interleaved_frames(p1) + interleaved_frames(p2) =~= blocks_frames(b1) + (held1
        + interleaved_frames(p2)));
    assert(blocks_frames(b1 + b2) + held2 =~= blocks_frames(b1) + (blocks_frames(b2) + held2));
}

} // verus!
