//! Stereo audio frames and their little-endian byte layout.
//!
//! A sample is carried as the bit pattern of a 32-bit IEEE float, so the
//! library moves samples around without ever doing float arithmetic: the
//! caller converts with `f32::to_bits` and `f32::from_bits`.
use byteorder::{ByteOrder, LittleEndian};
use vstd::prelude::*;

verus! {

/// Number of bytes one frame takes in the byte stream: two 32-bit samples.
pub const FRAME_BYTES: usize = 8;

/// One instant of stereo audio: the bit patterns of the left and right samples.
#[derive(Clone, Copy, Debug, PartialEq, Eq, Structural)]
pub struct Frame {
    pub left: u32,
    pub right: u32,
}

/// The four bytes of `x`, least significant first.
pub open spec fn le_bytes(x: u32) -> Seq<u8> {
    seq![
        (x & 0xff) as u8,
        ((x >> 8u32) & 0xff) as u8,
        ((x >> 16u32) & 0xff) as u8,
        ((x >> 24u32) & 0xff) as u8,
    ]
}

/// The value of four bytes read least significant first.
pub open spec fn le_value(b0: u8, b1: u8, b2: u8, b3: u8) -> u32 {
    (b0 as u32) | ((b1 as u32) << 8u32) | ((b2 as u32) << 16u32) | ((b3 as u32) << 24u32)
}

/// The value of the first four bytes of `b`, least significant first.
pub open spec fn le_value_of(b: Seq<u8>) -> u32
    recommends
        b.len() >= 4,
{
    le_value(b[0], b[1], b[2], b[3])
}

/// The eight bytes of a frame: the left sample, then the right one.
pub open spec fn frame_bytes(f: Frame) -> Seq<u8> {
    le_bytes(f.left) + le_bytes(f.right)
}

/// The bytes of a sequence of frames, one after another.
pub open spec fn frames_bytes(fs: Seq<Frame>) -> Seq<u8>
    decreases fs.len(),
{
    if fs.len() == 0 {
        Seq::empty()
    } else {
        frames_bytes(fs.drop_last()) + frame_bytes(fs.last())
    }
}

/// The frame that eight bytes encode.
pub open spec fn frame_of_bytes(b: Seq<u8>) -> Frame
    recommends
        b.len() >= 8,
{
    Frame { left: le_value_of(b), right: le_value_of(b.subrange(4, 8)) }
}

/// Relies on `byteorder::LittleEndian::write_u32_into`: each value becomes its
/// four bytes, least significant first, in order (the destination has exactly
/// four bytes per value, as the function demands).
#[verifier::external_body]
fn write_le_pair(first: u32, second: u32) -> (r: Vec<u8>)
    ensures
        r@ == le_bytes(first) + le_bytes(second),
{
    let mut out = [0u8; 8];
    LittleEndian::write_u32_into(&[first, second], &mut out);
    out.to_vec()
}

/// Relies on `byteorder::LittleEndian::read_u32`: the first four bytes, least
/// significant first (it panics on fewer than four).
#[verifier::external_body]
fn read_le_u32(buf: &[u8]) -> (r: u32)
    requires
        buf@.len() >= 4,
    ensures
        r == le_value_of(buf@),
{
    LittleEndian::read_u32(buf)
}

/// Reading back the bytes of a sample gives the sample.
pub proof fn lemma_le_round_trip(x: u32)
    ensures
        le_value_of(le_bytes(x)) == x,
{
    let b0 = (x & 0xff) as u8;
    let b1 = ((x >> 8u32) & 0xff) as u8;
    let b2 = ((x >> 16u32) & 0xff) as u8;
    let b3 = ((x >> 24u32) & 0xff) as u8;
    assert(le_bytes(x) =~= seq![b0, b1, b2, b3]);
    assert(le_value(b0, b1, b2, b3) == x) by (bit_vector)
        requires
            b0 == (x & 0xff) as u8,
            b1 == ((x >> 8u32) & 0xff) as u8,
            b2 == ((x >> 16u32) & 0xff) as u8,
            b3 == ((x >> 24u32) & 0xff) as u8,
    ;
}

/// Decoding the eight bytes of a frame as two little-endian 32-bit values
/// gives back the frame exactly.
pub proof fn frame_byte_round_trip(f: Frame)
    ensures
        frame_bytes(f).len() == FRAME_BYTES,
        frame_of_bytes(frame_bytes(f)) == f,
{
    lemma_le_round_trip(f.left);
    lemma_le_round_trip(f.right);
    let b = frame_bytes(f);
    assert(b.subrange(0, 4) =~= le_bytes(f.left));
    assert(b.subrange(4, 8) =~= le_bytes(f.right));
}

impl Frame {
    /// The frame's eight bytes: left sample then right, each little-endian.
    pub fn to_le_bytes(&self) -> (r: Vec<u8>)
        ensures
            r@ == frame_bytes(*self),
    {
        write_le_pair(self.left, self.right)
    }

    /// The frame held in the first eight bytes of `bytes`, or `None` when
    /// there are fewer than eight.
    pub fn from_le_bytes(bytes: &[u8]) -> (r: Option<Frame>)
        ensures
            bytes@.len() < FRAME_BYTES ==> r is None,
            bytes@.len() >= FRAME_BYTES ==> r == Some(frame_of_bytes(bytes@)),
    {
        if bytes.len() < FRAME_BYTES {
            return None;
        }
        let left = read_le_u32(bytes);
        let rest = &bytes[4..8];
        let right = read_le_u32(rest);
        proof {
            assert(rest@ =~= bytes@.subrange(4, 8));
        }
        Some(Frame { left, right })
    }
}

} // verus!
