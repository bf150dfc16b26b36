use rubato::{FftFixedInOut, Resampler};
use aoede::buffer::InputBuffer;
use aoede::frame::{Frame, FRAME_BYTES};
use aoede::queue::{FrameQueue, ReadOutcome};

fn frame_of(left: f32, right: f32) -> Frame {
    Frame { left: left.to_bits(), right: right.to_bits() }
}

#[test]
fn frame_bytes_are_little_endian_left_then_right() {
    let f = frame_of(1.0, -2.5);
    let bytes = f.to_le_bytes();
    let mut expected = Vec::new();
    expected.extend_from_slice(&1.0f32.to_le_bytes());
    expected.extend_from_slice(&(-2.5f32).to_le_bytes());
    assert_eq!(bytes, expected);
    assert_eq!(bytes, vec![0x00, 0x00, 0x80, 0x3f, 0x00, 0x00, 0x20, 0xc0]);
}

#[test]
fn frame_bytes_round_trip_as_floats() {
    for (l, r) in [(0.0f32, -0.0f32), (1.0, -1.0), (0.123456, 3.5e-8), (f32::MAX, f32::MIN_POSITIVE)] {
        let bytes = frame_of(l, r).to_le_bytes();
        assert_eq!(bytes.len(), FRAME_BYTES);
        let back = Frame::from_le_bytes(&bytes).unwrap();
        assert_eq!(f32::from_bits(back.left).to_bits(), l.to_bits());
        assert_eq!(f32::from_bits(back.right).to_bits(), r.to_bits());
        assert_eq!(f32::from_le_bytes([bytes[0], bytes[1], bytes[2], bytes[3]]).to_bits(), l.to_bits());
        assert_eq!(f32::from_le_bytes([bytes[4], bytes[5], bytes[6], bytes[7]]).to_bits(), r.to_bits());
    }
}

#[test]
fn frame_decoding_reads_the_first_eight_bytes() {
    let bytes = [0x01, 0x02, 0x03, 0x04, 0x05, 0x06, 0x07, 0x08, 0xff];
    let f = Frame::from_le_bytes(&bytes).unwrap();
    assert_eq!(f, Frame { left: 0x0403_0201, right: 0x0807_0605 });
    assert_eq!(Frame::from_le_bytes(&bytes[..7]), None);
    assert_eq!(Frame::from_le_bytes(&[]), None);
}

#[test]
fn buffer_cuts_blocks_in_arrival_order() {
    let mut buf = InputBuffer::new(3);
    let blocks = buf.accept(&[1, 2, 3, 4]);
    assert!(blocks.is_empty());
    assert_eq!(buf.len(), 2);
    let blocks = buf.accept(&[5, 6, 7, 8, 9, 10, 11, 12, 13, 14, 15, 16]);
    assert_eq!(blocks.len(), 2);
    assert_eq!(blocks[0].left, vec![1, 3, 5]);
    assert_eq!(blocks[0].right, vec![2, 4, 6]);
    assert_eq!(blocks[1].left, vec![7, 9, 11]);
    assert_eq!(blocks[1].right, vec![8, 10, 12]);
    assert_eq!(buf.len(), 2);
    let blocks = buf.accept(&[17, 18]);
    assert_eq!(blocks.len(), 1);
    assert_eq!(blocks[0].left, vec![13, 15, 17]);
    assert_eq!(blocks[0].right, vec![14, 16, 18]);
    assert_eq!(buf.len(), 0);
}

#[test]
fn buffer_ignores_a_trailing_lone_sample_and_empty_packets() {
    let mut buf = InputBuffer::new(2);
    assert!(buf.accept(&[]).is_empty());
    let blocks = buf.accept(&[1, 2, 3]);
    assert!(blocks.is_empty());
    assert_eq!(buf.len(), 1);
    assert_eq!(buf.block_frames(), 2);
}

#[test]
fn queue_refuses_when_full_and_keeps_order() {
    let mut q = FrameQueue::new(2);
    assert!(q.is_empty());
    assert!(q.try_push(Frame { left: 1, right: 2 }));
    assert!(q.try_push(Frame { left: 3, right: 4 }));
    assert!(q.is_full());
    assert!(!q.try_push(Frame { left: 5, right: 6 }));
    assert_eq!(q.len(), 2);
    assert_eq!(q.pop(), Some(Frame { left: 1, right: 2 }));
    assert!(q.try_push(Frame { left: 5, right: 6 }));
    assert_eq!(q.pop(), Some(Frame { left: 3, right: 4 }));
    assert_eq!(q.pop(), Some(Frame { left: 5, right: 6 }));
    assert_eq!(q.pop(), None);
    assert_eq!(q.capacity(), 2);
}

#[test]
fn producer_resumes_where_the_full_queue_stopped_it() {
    let frames: Vec<Frame> = (0..5u32).map(|i| Frame { left: i, right: 100 + i }).collect();
    let mut q = FrameQueue::new(3);
    let taken = q.push_from(&frames, 0);
    assert_eq!(taken, 3);
    assert_eq!(q.push_from(&frames, taken), 0);
    let ReadOutcome::Bytes(first) = q.read(16) else { panic!("expected bytes") };
    assert_eq!(first.len(), 16);
    let more = q.push_from(&frames, taken);
    assert_eq!(more, 2);
    let ReadOutcome::Bytes(rest) = q.read(1024) else { panic!("expected bytes") };
    let mut all = first;
    all.extend(rest);
    let expected: Vec<u8> = frames.iter().flat_map(|f| f.to_le_bytes()).collect();
    assert_eq!(all, expected);
}

#[test]
fn read_refuses_a_buffer_shorter_than_a_frame() {
    let mut q = FrameQueue::new(4);
    assert!(q.try_push(Frame { left: 7, right: 8 }));
    assert_eq!(q.read(7), ReadOutcome::BufferTooSmall);
    assert_eq!(q.read(0), ReadOutcome::BufferTooSmall);
    assert_eq!(q.len(), 1);
}

#[test]
fn read_on_an_empty_queue_waits_instead_of_returning_nothing() {
    let mut q = FrameQueue::new(4);
    assert_eq!(q.read(64), ReadOutcome::Wait);
    assert!(q.try_push(Frame { left: 7, right: 8 }));
    match q.read(64) {
        ReadOutcome::Bytes(b) => assert_eq!(b, vec![7, 0, 0, 0, 8, 0, 0, 0]),
        other => panic!("unexpected {:?}", other),
    }
    assert_eq!(q.read(64), ReadOutcome::Wait);
}

#[test]
fn read_takes_only_whole_frames_that_fit() {
    let mut q = FrameQueue::new(8);
    for i in 0..5u32 {
        assert!(q.try_push(Frame { left: i, right: i }));
    }
    match q.read(20) {
        ReadOutcome::Bytes(b) => assert_eq!(b.len(), 16),
        other => panic!("unexpected {:?}", other),
    }
    assert_eq!(q.len(), 3);
    assert_eq!(q.pop(), Some(Frame { left: 2, right: 2 }));
}

#[test]
fn resampled_stream_can_be_read_then_drained() {
    let mut resampler = FftFixedInOut::<f32>::new(44100, 48000, 1024, 2).unwrap();
    let block = resampler.input_frames_max();
    let mut buf = InputBuffer::new(block);
    let mut q = FrameQueue::new(8 * resampler.output_frames_max());

    let mut samples = Vec::new();
    for i in 0..2048u32 {
        let x = (i as f32 * 0.01).sin() * 0.5;
        samples.push(x.to_bits());
        samples.push((-x).to_bits());
    }
    let blocks = buf.accept(&samples);
    assert_eq!(blocks.len(), 2048 / block);
    assert!(!blocks.is_empty());
    let mut produced = 0usize;
    for b in &blocks {
        let left: Vec<f32> = b.left.iter().map(|s| f32::from_bits(*s)).collect();
        let right: Vec<f32> = b.right.iter().map(|s| f32::from_bits(*s)).collect();
        let out = resampler.process(&[left, right], None).unwrap();
        let frames: Vec<Frame> = out[0]
            .iter()
            .zip(out[1].iter())
            .map(|(l, r)| Frame { left: l.to_bits(), right: r.to_bits() })
            .collect();
        assert_eq!(q.push_from(&frames, 0), frames.len());
        produced += frames.len();
    }
    assert!(produced > 0);

    match q.read(8) {
        ReadOutcome::Bytes(b) => assert_eq!(b.len(), 8),
        other => panic!("unexpected {:?}", other),
    }
    match q.read(1 << 20) {
        ReadOutcome::Bytes(b) => assert_eq!(b.len(), 8 * (produced - 1)),
        other => panic!("unexpected {:?}", other),
    }
    assert_eq!(q.read(8), ReadOutcome::Wait);
}
