use frame_engine::extract;
use frame_engine::FrameBuffer;
use frame_engine::FRAME_CAPACITY;

fn frame_a() -> Vec<u8> {
    vec![0xff, 0xd8, 0xaa, 0xbb, 0xff, 0xd9]
}

fn frame_b() -> Vec<u8> {
    vec![0xff, 0xd8, 0xcc, 0xff, 0xd9]
}

#[test]
fn demux_two_frames_with_garbage_split_mid_frame() {
    // Garbage, then two complete frames, fed in two chunks split in the
    // middle of the first frame.
    let mut stream: Vec<u8> = vec![0x00, 0x01, 0x02];
    stream.extend_from_slice(&frame_a());
    stream.extend_from_slice(&frame_b());

    let split = 6; // inside frame A, before its end marker
    let mut acc: Vec<u8> = stream[..split].to_vec();

    let first = extract(&mut acc);
    assert!(first.is_empty());
    // A started frame leaves the accumulator untouched.
    assert_eq!(acc, stream[..split].to_vec());

    acc.extend_from_slice(&stream[split..]);
    let second = extract(&mut acc);
    assert_eq!(second, vec![frame_a(), frame_b()]);
    assert!(acc.is_empty());
}

#[test]
fn demux_single_call_whole_stream() {
    let mut acc: Vec<u8> = Vec::new();
    acc.extend_from_slice(&[0x10, 0x20]);
    acc.extend_from_slice(&frame_a());
    let frames = extract(&mut acc);
    assert_eq!(frames, vec![frame_a()]);
    assert!(acc.is_empty());
}

#[test]
fn demux_garbage_only_keeps_last_byte() {
    let mut acc: Vec<u8> = vec![0x01, 0x02, 0x03, 0xff];
    let frames = extract(&mut acc);
    assert!(frames.is_empty());
    // The final byte may begin a start marker, so it alone survives.
    assert_eq!(acc, vec![0xff]);
}

#[test]
fn demux_marker_split_across_reads() {
    // The start marker itself arrives split across two reads.
    let mut acc: Vec<u8> = vec![0x55, 0xff];
    let frames = extract(&mut acc);
    assert!(frames.is_empty());
    assert_eq!(acc, vec![0xff]);

    acc.extend_from_slice(&[0xd8, 0x77, 0xff, 0xd9]);
    let frames = extract(&mut acc);
    assert_eq!(frames, vec![vec![0xff, 0xd8, 0x77, 0xff, 0xd9]]);
    assert!(acc.is_empty());
}

#[test]
fn demux_empty_accumulator() {
    let mut acc: Vec<u8> = Vec::new();
    let frames = extract(&mut acc);
    assert!(frames.is_empty());
    assert!(acc.is_empty());
}

#[test]
fn demux_incomplete_frame_waits() {
    let mut acc: Vec<u8> = vec![0xff, 0xd8, 0x01, 0x02];
    let frames = extract(&mut acc);
    assert!(frames.is_empty());
    assert_eq!(acc, vec![0xff, 0xd8, 0x01, 0x02]);
}

#[test]
fn demux_emits_no_frame_twice() {
    let mut acc: Vec<u8> = Vec::new();
    acc.extend_from_slice(&frame_a());
    let first = extract(&mut acc);
    assert_eq!(first.len(), 1);
    let again = extract(&mut acc);
    assert!(again.is_empty());
}

#[test]
fn demux_byte_at_a_time_matches_whole() {
    let mut stream: Vec<u8> = vec![0x09];
    stream.extend_from_slice(&frame_a());
    stream.extend_from_slice(&frame_b());

    let mut acc: Vec<u8> = Vec::new();
    let mut collected: Vec<Vec<u8>> = Vec::new();
    for b in &stream {
        acc.push(*b);
        collected.extend(extract(&mut acc));
    }
    assert_eq!(collected, vec![frame_a(), frame_b()]);
    assert!(acc.is_empty());
}

#[test]
fn demux_every_split_yields_same_frames() {
    // Splitting the stream into two chunks at any position emits the same
    // frames as one whole read, and reconstruction accounts for every byte
    // after the leading garbage.
    let mut stream: Vec<u8> = vec![0x31];
    stream.extend_from_slice(&frame_a());
    stream.extend_from_slice(&frame_b());
    stream.extend_from_slice(&[0xff, 0xd8, 0x01]); // trailing partial frame

    let mut whole_acc = stream.clone();
    let whole_frames = extract(&mut whole_acc);

    for split in 0..=stream.len() {
        let mut acc: Vec<u8> = stream[..split].to_vec();
        let mut frames = extract(&mut acc);
        acc.extend_from_slice(&stream[split..]);
        frames.extend(extract(&mut acc));
        assert_eq!(frames, whole_frames);
        let rebuilt: Vec<u8> = frames.concat().into_iter().chain(acc).collect();
        assert_eq!(rebuilt, stream[1..].to_vec());
    }
}

#[test]
fn ring_buffer_starts_empty() {
    let buffer = FrameBuffer::new();
    assert_eq!(buffer.len(), 0);
    assert!(buffer.latest().is_none());
}

#[test]
fn ring_buffer_latest_is_most_recent() {
    let mut buffer = FrameBuffer::new();
    buffer.push(vec![1]);
    assert_eq!(buffer.latest(), Some(&vec![1]));
    buffer.push(vec![2]);
    assert_eq!(buffer.latest(), Some(&vec![2]));
    assert_eq!(buffer.len(), 2);
}

#[test]
fn ring_buffer_overflow_keeps_last_five() {
    // Push 7 frames into a capacity-5 buffer: the latest is frame 7 and
    // only frames 3 through 7 remain.
    assert_eq!(FRAME_CAPACITY, 5);
    let mut buffer = FrameBuffer::new();
    for n in 1..=7u8 {
        buffer.push(vec![n]);
    }
    assert_eq!(buffer.len(), 5);
    assert_eq!(buffer.latest(), Some(&vec![7]));
    for i in 0..5u8 {
        assert_eq!(buffer.get(i as usize), Some(&vec![i + 3]));
    }
    assert_eq!(buffer.get(5), None);
}

#[test]
fn ring_buffer_never_exceeds_capacity() {
    let mut buffer = FrameBuffer::new();
    for n in 0..100u8 {
        buffer.push(vec![n]);
        assert!(buffer.len() <= FRAME_CAPACITY);
    }
    assert_eq!(buffer.latest(), Some(&vec![99]));
}
