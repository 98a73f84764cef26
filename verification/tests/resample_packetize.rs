//! Resampling and frame packetization.

use rustcast::packetize::FramePacketizer;
use rustcast::resample::resample;

#[test]
fn rate_44100_to_48000_yields_4800_frames() {
    let frames = 4410;
    let channels = 2u16;
    let samples = vec![100i16; frames * channels as usize];
    let out = resample(&samples, channels, 44100, 48000);
    assert_eq!(out.len(), 4800 * channels as usize);
}

#[test]
fn matching_rate_returns_input_unchanged() {
    let samples = vec![5i16, -5, 10, -10];
    let out = resample(&samples, 2, 48000, 48000);
    assert_eq!(out, samples);
}

#[test]
fn empty_block_resamples_to_empty() {
    let out = resample(&Vec::new(), 2, 44100, 48000);
    assert!(out.is_empty());
}

#[test]
fn doubling_the_rate_interpolates_midpoints() {
    let samples = vec![0i16, 100];
    let out = resample(&samples, 1, 1, 2);
    assert_eq!(out, vec![0i16, 50, 100, 100]);
}

#[test]
fn ragged_blocks_emit_only_full_frames() {
    let mut p = FramePacketizer::new(10);
    let mut emitted: Vec<Vec<i16>> = Vec::new();
    for len in [7usize, 8, 9] {
        let block: Vec<i16> = (0..len).map(|i| i as i16).collect();
        emitted.extend(p.push_block(&block));
    }
    // 24 samples total: two full frames out, four samples carried.
    assert_eq!(emitted.len(), 2);
    for frame in &emitted {
        assert_eq!(frame.len(), 10);
    }
    let tail = p.flush().expect("a partial frame was buffered");
    assert_eq!(tail.len(), 10);
    assert_eq!(&tail[4..], &[0i16; 6]);
    assert!(p.flush().is_none());
}

#[test]
fn packetizer_preserves_sample_order() {
    let mut p = FramePacketizer::new(4);
    let block: Vec<i16> = (0..10).collect();
    let frames = p.push_block(&block);
    assert_eq!(frames, vec![vec![0i16, 1, 2, 3], vec![4i16, 5, 6, 7]]);
    let tail = p.flush().unwrap();
    assert_eq!(tail, vec![8i16, 9, 0, 0]);
}

#[test]
fn exact_multiple_leaves_no_carry() {
    let mut p = FramePacketizer::new(5);
    let frames = p.push_block(&(0..10).collect());
    assert_eq!(frames.len(), 2);
    assert!(p.flush().is_none());
}
