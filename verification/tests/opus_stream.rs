//! Opus header records, encoder configuration, frame preparation, and
//! stream serials.

use rustcast::ogg::parse_ogg_page;
use rustcast::opus::build_opus_head;
use rustcast::opus::OggSession;
use rustcast::opus::build_opus_tags;
use rustcast::opus::opus_sample_rate;
use rustcast::opus::CodecError;
use rustcast::opus::OpusEncoder;
use rustcast::serial::SerialAllocator;

/// Split a byte stream of whole Ogg pages at the end of its first page.
fn first_page_len(bytes: &[u8]) -> usize {
    let nseg = bytes[26] as usize;
    let body: usize = bytes[27..27 + nseg].iter().map(|&b| b as usize).sum();
    27 + nseg + body
}

#[test]
fn opus_head_record_exact_bytes() {
    let head = build_opus_head(2, 44100);
    let expected: Vec<u8> = vec![
        79, 112, 117, 115, 72, 101, 97, 100, 1, 2, 56, 1, 68, 172, 0, 0, 0, 0, 0,
    ];
    assert_eq!(head, expected);
}

#[test]
fn opus_tags_record_exact_bytes() {
    let tags = build_opus_tags();
    let expected: Vec<u8> = vec![
        79, 112, 117, 115, 84, 97, 103, 115, 8, 0, 0, 0, 82, 117, 115, 116, 67, 97, 115,
        116, 0, 0, 0, 0,
    ];
    assert_eq!(tags, expected);
}

#[test]
fn header_pages_use_sequences_zero_and_one() {
    let serial = 0xfeed_f00d;
    let bytes = OpusEncoder::get_headers_with_serial(2, 48000, serial);
    let cut = first_page_len(&bytes);
    let page0 = parse_ogg_page(&bytes[..cut]).unwrap();
    let page1 = parse_ogg_page(&bytes[cut..]).unwrap();
    assert_eq!(page0.flags, 0x02);
    assert_eq!(page0.page_seq, 0);
    assert_eq!(page0.granule, 0);
    assert_eq!(page0.serial, serial);
    assert_eq!(&page0.payload[..8], b"OpusHead");
    assert_eq!(page1.flags, 0x00);
    assert_eq!(page1.page_seq, 1);
    assert_eq!(page1.granule, 0);
    assert_eq!(page1.serial, serial);
    assert_eq!(&page1.payload[..8], b"OpusTags");
}

#[test]
fn wrap_opus_packet_is_a_data_page() {
    let packet = vec![0xf8u8, 0xff, 0xfe];
    let page = OpusEncoder::wrap_opus_packet(&packet, 77, 960, 2);
    let parsed = parse_ogg_page(&page).unwrap();
    assert_eq!(parsed.payload, packet);
    assert_eq!(parsed.flags, 0);
    assert_eq!(parsed.granule, 960);
    assert_eq!(parsed.page_seq, 2);
}

#[test]
fn encoder_rejects_bad_settings() {
    assert_eq!(
        OpusEncoder::new(48000, 0, 96).unwrap_err(),
        CodecError::UnsupportedChannels
    );
    assert_eq!(
        OpusEncoder::new(48000, 3, 96).unwrap_err(),
        CodecError::UnsupportedChannels
    );
    assert_eq!(
        OpusEncoder::new(48000, 2, 3_000_000).unwrap_err(),
        CodecError::UnsupportedBitrate
    );
    let e = OpusEncoder::new(44100, 2, 96).unwrap();
    assert_eq!(e.frame_size(), 480);
    assert_eq!(e.sample_rate, 44100);
    assert_eq!(e.channels, 2);
}

#[test]
fn codec_rates_pass_through_others_default() {
    assert_eq!(opus_sample_rate(8000), 8000);
    assert_eq!(opus_sample_rate(24000), 24000);
    assert_eq!(opus_sample_rate(48000), 48000);
    assert_eq!(opus_sample_rate(44100), 48000);
    assert_eq!(opus_sample_rate(96000), 48000);
}

#[test]
fn prepare_frames_cuts_whole_codec_frames() {
    let mut e = OpusEncoder::new(48000, 1, 96).unwrap();
    // 48 kHz mono input passes through the resampler unchanged.
    let block: Vec<i16> = (0..1000).map(|i| i as i16).collect();
    let frames = e.prepare_frames(&block);
    assert_eq!(frames.len(), 2);
    assert_eq!(frames[0].len(), 480);
    assert_eq!(frames[1].len(), 480);
    assert_eq!(frames[0][0], 0);
    assert_eq!(frames[1][0], 480);
    // 40 samples carried; a second block completes the next frame.
    let frames2 = e.prepare_frames(&(0..440).map(|i| i as i16).collect());
    assert_eq!(frames2.len(), 1);
    assert_eq!(frames2[0][0], 960);
    assert_eq!(frames2[0][40], 0);
    let tail = e.flush_frame();
    assert!(tail.is_none());
}

#[test]
fn flush_pads_the_final_frame_with_silence() {
    let mut e = OpusEncoder::new(48000, 1, 96).unwrap();
    let frames = e.prepare_frames(&vec![9i16; 100]);
    assert!(frames.is_empty());
    let tail = e.flush_frame().unwrap();
    assert_eq!(tail.len(), 480);
    assert_eq!(&tail[..100], &[9i16; 100][..]);
    assert_eq!(&tail[100..], &[0i16; 380][..]);
}

#[test]
fn session_counters_advance_per_page() {
    let mut s = OggSession::new(42);
    assert_eq!(s.page_seq, 2);
    assert_eq!(s.granule, 0);
    let p1 = s.next_page(&[1u8, 2], 480);
    let p2 = s.next_page(&[3u8], 480);
    let f1 = parse_ogg_page(&p1).unwrap();
    let f2 = parse_ogg_page(&p2).unwrap();
    assert_eq!(f1.serial, 42);
    assert_eq!(f2.serial, 42);
    assert_eq!(f1.granule, 480);
    assert_eq!(f2.granule, 960);
    assert_eq!(f1.page_seq, 2);
    assert_eq!(f2.page_seq, 3);
    assert_eq!(f1.flags, 0);
}

#[test]
fn two_sessions_never_share_a_serial() {
    let mut alloc = SerialAllocator::new(0xcafe_babe);
    let first = alloc.generate_serial();
    let second = alloc.generate_serial();
    let third = alloc.generate_serial();
    assert_ne!(first, second);
    assert_ne!(first, third);
    assert_ne!(second, third);

    // The counter keeps serials distinct even when the seed is extreme.
    let mut wrap = SerialAllocator::new(u32::MAX);
    let a = wrap.generate_serial();
    let b = wrap.generate_serial();
    assert_ne!(a, b);
}
