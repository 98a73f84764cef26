//! Ogg page construction, parsing and checksum behaviour.

use rustcast::crc::ogg_crc32;
use rustcast::ogg::create_ogg_page;
use rustcast::ogg::parse_ogg_page;
use rustcast::ogg::verify_page_crc;

fn segments_of(page: &[u8]) -> Vec<u8> {
    let nseg = page[26] as usize;
    page[27..27 + nseg].to_vec()
}

#[test]
fn empty_payload_gets_one_zero_segment() {
    let page = create_ogg_page(&[], 1, 0, 0, false);
    assert_eq!(segments_of(&page), vec![0u8]);
    let parsed = parse_ogg_page(&page).unwrap();
    assert_eq!(parsed.payload.len(), 0);
}

#[test]
fn payload_300_splits_into_255_and_45() {
    let payload: Vec<u8> = (0..300).map(|i| (i % 251) as u8).collect();
    let page = create_ogg_page(&payload, 9, 480, 2, false);
    assert_eq!(segments_of(&page), vec![255u8, 45u8]);
    let parsed = parse_ogg_page(&page).unwrap();
    assert_eq!(parsed.payload, payload);
}

#[test]
fn payload_255_is_one_full_segment() {
    let payload = vec![0xaau8; 255];
    let page = create_ogg_page(&payload, 9, 480, 2, false);
    assert_eq!(segments_of(&page), vec![255u8]);
    let parsed = parse_ogg_page(&page).unwrap();
    assert_eq!(parsed.payload, payload);
}

#[test]
fn round_trip_recovers_every_field() {
    let payload = vec![1u8, 2, 3];
    let page = create_ogg_page(&payload, 7, 960, 2, false);
    let expected: Vec<u8> = vec![
        79, 103, 103, 83, 0, 0, 192, 3, 0, 0, 0, 0, 0, 0, 7, 0, 0, 0, 2, 0, 0, 0, 101, 172,
        144, 197, 1, 3, 1, 2, 3,
    ];
    assert_eq!(page, expected);
    let parsed = parse_ogg_page(&page).unwrap();
    assert_eq!(parsed.payload, payload);
    assert_eq!(parsed.serial, 7);
    assert_eq!(parsed.granule, 960);
    assert_eq!(parsed.page_seq, 2);
    assert_eq!(parsed.flags, 0);
}

#[test]
fn bos_flag_set_only_when_asked() {
    let page = create_ogg_page(&[5u8], 3, 0, 0, true);
    let parsed = parse_ogg_page(&page).unwrap();
    assert_eq!(parsed.flags, 0x02);
    let page2 = create_ogg_page(&[5u8], 3, 0, 1, false);
    let parsed2 = parse_ogg_page(&page2).unwrap();
    assert_eq!(parsed2.flags, 0x00);
}

#[test]
fn built_page_passes_crc_check() {
    let payload: Vec<u8> = (0u16..600).map(|i| (i % 256) as u8).collect();
    let page = create_ogg_page(&payload, 0xdead_beef, 123_456, 17, false);
    assert!(verify_page_crc(&page));
}

#[test]
fn every_single_bit_flip_fails_crc_check() {
    let payload = vec![0x41u8, 0x42, 0x43, 0x44, 0x45];
    let page = create_ogg_page(&payload, 0x1234_5678, 4800, 5, false);
    assert!(verify_page_crc(&page));
    for byte in 0..page.len() {
        for bit in 0..8 {
            let mut flipped = page.clone();
            flipped[byte] ^= 1u8 << bit;
            assert!(
                !verify_page_crc(&flipped),
                "flip of bit {} in byte {} went undetected",
                bit,
                byte
            );
        }
    }
}

#[test]
fn truncated_or_corrupt_magic_does_not_parse() {
    let page = create_ogg_page(&[1u8, 2], 1, 0, 0, false);
    assert!(parse_ogg_page(&page[..page.len() - 1]).is_none());
    let mut bad = page.clone();
    bad[0] = b'X';
    assert!(parse_ogg_page(&bad).is_none());
    let mut bad_version = page.clone();
    bad_version[4] = 1;
    assert!(parse_ogg_page(&bad_version).is_none());
}

#[test]
fn crc_of_known_bytes() {
    // The table-driven checksum of a zero byte is the table entry of zero,
    // which is zero; a one-byte change must alter it.
    assert_eq!(ogg_crc32(&[0u8]), 0);
    assert_ne!(ogg_crc32(&[1u8]), 0);
    assert_ne!(ogg_crc32(b"OggS"), ogg_crc32(b"OggT"));
}
