//! Tests for the frame codec: grouping, rejection, and the round trip.

use capture_bridge::codec::{decode, encode, Frame};
use capture_bridge::event::CaptureError;

#[test]
fn decode_groups_in_arrival_order() {
    let raw: Vec<i32> = vec![10, 20, 30, 40];
    let frames = decode(&raw, 2).unwrap();
    assert_eq!(frames.len(), 2);
    assert_eq!(frames[0].samples, vec![10, 20]);
    assert_eq!(frames[1].samples, vec![30, 40]);
}

#[test]
fn decode_single_channel_one_sample_per_frame() {
    let raw: Vec<i32> = vec![7, -8, 9];
    let frames = decode(&raw, 1).unwrap();
    assert_eq!(frames.len(), 3);
    assert_eq!(frames[0].samples, vec![7]);
    assert_eq!(frames[1].samples, vec![-8]);
    assert_eq!(frames[2].samples, vec![9]);
}

#[test]
fn decode_empty_buffer_yields_no_frames() {
    let raw: Vec<i32> = vec![];
    let frames = decode(&raw, 4).unwrap();
    assert_eq!(frames.len(), 0);
}

#[test]
fn decode_rejects_misaligned_buffer() {
    let raw: Vec<i32> = vec![1, 2, 3, 4, 5];
    assert_eq!(decode(&raw, 2).unwrap_err(), CaptureError::StreamFault);
}

#[test]
fn decode_rejects_zero_channel_count() {
    let raw: Vec<i32> = vec![1, 2];
    assert_eq!(decode(&raw, 0).unwrap_err(), CaptureError::UnsupportedFormat);
}

#[test]
fn decode_never_yields_partial_frames() {
    let raw: Vec<i32> = vec![1, 2, 3, 4, 5, 6, 7, 8, 9];
    let frames = decode(&raw, 3).unwrap();
    for frame in &frames {
        assert_eq!(frame.samples.len(), 3);
    }
    assert_eq!(frames.len(), 3);
}

#[test]
fn round_trip_reproduces_buffer_exactly() {
    let raw: Vec<i32> = vec![5, -6, 7, 0, i32::MAX, i32::MIN];
    let frames = decode(&raw, 2).unwrap();
    let back = encode(&frames);
    assert_eq!(back, raw);
}

#[test]
fn round_trip_many_channels() {
    let raw: Vec<i32> = (0..24).collect();
    let frames = decode(&raw, 6).unwrap();
    assert_eq!(frames.len(), 4);
    let back = encode(&frames);
    assert_eq!(back, raw);
}

#[test]
fn encode_interleaves_in_frame_order() {
    let frames = vec![
        Frame { samples: vec![1, 2] },
        Frame { samples: vec![3, 4] },
    ];
    assert_eq!(encode(&frames), vec![1, 2, 3, 4]);
}

#[test]
fn encode_no_frames_gives_empty_buffer() {
    let frames: Vec<Frame> = vec![];
    assert_eq!(encode(&frames), Vec::<i32>::new());
}
