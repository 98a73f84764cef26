//! Ogg page construction and parsing: the container framing that wraps each
//! compressed packet for the progressive Ogg/Opus HTTP path.
//!
//! A page is a 27-byte header (capture pattern, version, header-type flags,
//! granule position, stream serial, page sequence, CRC), a segment table and
//! the payload.  The CRC is computed over the whole page with the CRC field
//! zeroed, then spliced in.

use vstd::prelude::*;
use vstd::pervasive::VecAdditionalExecFns;
use vstd::slice::slice_subrange;
use vstd::slice::slice_to_vec;
use crate::crc::crc32_of;
use crate::crc::ogg_crc32;
use crate::crc::flip_bit;
use crate::crc::lemma_crc_flip_changes;
use crate::util::append_copy;
use crate::util::u32_le;
use crate::util::u64_le;
use crate::util::u32_from_le;
use crate::util::u64_from_le;
use crate::util::u32_to_le_vec;
use crate::util::u64_to_le_vec;
use crate::util::u32_from_le_slice;
use crate::util::u64_from_le_slice;
use crate::util::lemma_u32_le_round_trip;
use crate::util::lemma_u64_le_round_trip;
use crate::util::lemma_u32_le_zero;
use crate::util::lemma_u32_from_le_round_trip;

verus! {

/// Largest payload one page can carry: 255 segment entries of 255 bytes.
pub const MAX_PAGE_PAYLOAD: usize = 65025;

/// Header-type flag for a beginning-of-stream page.
pub const FLAG_BOS: u8 = 0x02;

/// The segment table for a payload of `len` bytes: one entry of 255 per full
/// 255-byte chunk, then the remainder; an empty payload gets one zero entry.
pub open spec fn seg_table(len: int) -> Seq<u8>
    recommends
        len >= 0,
    decreases len,
{
    if len <= 0 {
        seq![0u8]
    } else if len < 255 {
        seq![len as u8]
    } else if len == 255 {
        seq![255u8]
    } else {
        seq![255u8] + seg_table(len - 255)
    }
}

/// The sum of a sequence of bytes, as an unbounded integer.
pub open spec fn byte_sum(s: Seq<u8>) -> int
    decreases s.len(),
{
    if s.len() == 0 {
        0
    } else {
        byte_sum(s.drop_last()) + s.last()
    }
}

/// The number of segment-table entries is `ceil(max(len, 1) / 255)`.
pub proof fn lemma_seg_table_len(len: int)
    requires
        len >= 0,
    ensures
        seg_table(len).len() == if len == 0 { 1int } else { (len + 254) / 255 },
    decreases len,
{
    if len > 255 {
        lemma_seg_table_len(len - 255);
    }
}

/// The segment-table entries sum back to the payload length.
pub proof fn lemma_seg_table_sum(len: int)
    requires
        len >= 0,
    ensures
        byte_sum(seg_table(len)) == len,
    decreases len,
{
    if len <= 255 {
        let t = seg_table(len);
        assert(t.len() == 1);
        assert(t.drop_last() =~= Seq::<u8>::empty());
        assert(byte_sum(Seq::<u8>::empty()) == 0);
        assert(byte_sum(t) == t.last());
    } else {
        lemma_seg_table_sum(len - 255);
        lemma_byte_sum_prepend_255(seg_table(len - 255));
    }
}

/// Helper: prepending a 255 entry adds 255 to the sum.
proof fn lemma_byte_sum_prepend_255(s: Seq<u8>)
    requires
        s.len() > 0,
    ensures
        byte_sum(seq![255u8] + s) == 255 + byte_sum(s),
    decreases s.len(),
{
    let t = seq![255u8] + s;
    assert(t.last() == s.last());
    assert(byte_sum(t) == byte_sum(t.drop_last()) + t.last());
    assert(byte_sum(s) == byte_sum(s.drop_last()) + s.last());
    if s.len() == 1 {
        assert(t.drop_last() =~= seq![255u8]);
        assert(seq![255u8].drop_last() =~= Seq::<u8>::empty());
        assert(byte_sum(Seq::<u8>::empty()) == 0);
        assert(byte_sum(seq![255u8]) == 255);
        assert(s.drop_last() =~= Seq::<u8>::empty());
    } else {
        assert(t.drop_last() =~= seq![255u8] + s.drop_last());
        lemma_byte_sum_prepend_255(s.drop_last());
    }
}

/// The bytes of a page carrying `crc` in its CRC field.
pub open spec fn page_bytes_with_crc(
    payload: Seq<u8>,
    serial: u32,
    granule: u64,
    page_seq: u32,
    bos: bool,
    crc: u32,
) -> Seq<u8> {
    seq![0x4Fu8, 0x67u8, 0x67u8, 0x53u8]
        + seq![0u8]
        + seq![if bos { FLAG_BOS } else { 0u8 }]
        + u64_le(granule)
        + u32_le(serial)
        + u32_le(page_seq)
        + u32_le(crc)
        + seq![seg_table(payload.len() as int).len() as u8]
        + seg_table(payload.len() as int)
        + payload
}

/// The checksum of a page: the CRC-32 of the page with the CRC field zeroed.
pub open spec fn page_crc(
    payload: Seq<u8>,
    serial: u32,
    granule: u64,
    page_seq: u32,
    bos: bool,
) -> u32 {
    crc32_of(page_bytes_with_crc(payload, serial, granule, page_seq, bos, 0))
}

/// The finished page bytes, checksum spliced in.
pub open spec fn ogg_page_bytes(
    payload: Seq<u8>,
    serial: u32,
    granule: u64,
    page_seq: u32,
    bos: bool,
) -> Seq<u8> {
    page_bytes_with_crc(
        payload,
        serial,
        granule,
        page_seq,
        bos,
        page_crc(payload, serial, granule, page_seq, bos),
    )
}

/// The fields a well-formed page parses to.
pub ghost struct PageFields {
    pub payload: Seq<u8>,
    pub granule: u64,
    pub serial: u32,
    pub page_seq: u32,
    pub flags: u8,
    pub crc: u32,
}

/// Parse a byte sequence as exactly one Ogg page: capture pattern and
/// version must match, the segment table must be present, and the payload
/// must end exactly where the segment table says.
pub open spec fn parse_page(s: Seq<u8>) -> Option<PageFields> {
    if s.len() < 27 {
        None
    } else if s.subrange(0, 4) != seq![0x4Fu8, 0x67u8, 0x67u8, 0x53u8] {
        None
    } else if s[4] != 0u8 {
        None
    } else {
        let nseg = s[26] as int;
        if s.len() < 27 + nseg {
            None
        } else {
            let table = s.subrange(27, 27 + nseg);
            let plen = byte_sum(table);
            if s.len() != 27 + nseg + plen {
                None
            } else {
                Some(
                    PageFields {
                        payload: s.subrange(27 + nseg, 27 + nseg + plen),
                        granule: u64_from_le(s.subrange(6, 14)),
                        serial: u32_from_le(s.subrange(14, 18)),
                        page_seq: u32_from_le(s.subrange(18, 22)),
                        flags: s[5],
                        crc: u32_from_le(s.subrange(22, 26)),
                    },
                )
            }
        }
    }
}

/// A parsed page, executable form.
pub struct ParsedPage {
    pub payload: Vec<u8>,
    pub granule: u64,
    pub serial: u32,
    pub page_seq: u32,
    pub flags: u8,
    pub crc: u32,
}

/// Parse `page` as exactly one Ogg page.
pub fn parse_ogg_page(page: &[u8]) -> (r: Option<ParsedPage>)
    ensures
        r is Some <==> parse_page(page@) is Some,
        r is Some ==> ({
            let f = parse_page(page@).unwrap();
            let p = r.unwrap();
            &&& p.payload@ == f.payload
            &&& p.granule == f.granule
            &&& p.serial == f.serial
            &&& p.page_seq == f.page_seq
            &&& p.flags == f.flags
            &&& p.crc == f.crc
        }),
{
    if page.len() < 27 {
        return None;
    }
    if page[0] != 0x4Fu8 || page[1] != 0x67u8 || page[2] != 0x67u8 || page[3] != 0x53u8 {
        proof {
            let m = seq![0x4Fu8, 0x67u8, 0x67u8, 0x53u8];
            let sub = page@.subrange(0, 4);
            assert(sub[0] == page@[0] && sub[1] == page@[1] && sub[2] == page@[2] && sub[3]
                == page@[3]);
            assert(sub != m);
        }
        return None;
    }
    proof {
        assert(page@.subrange(0, 4) =~= seq![0x4Fu8, 0x67u8, 0x67u8, 0x53u8]);
    }
    if page[4] != 0u8 {
        return None;
    }
    let nseg: usize = page[26] as usize;
    if page.len() < 27 + nseg {
        return None;
    }
    // Sum the segment table to find the payload length.
    let mut total: usize = 0;
    let mut k: usize = 0;
    while k < nseg
        invariant
            k <= nseg,
            nseg <= 255,
            27 + nseg <= page@.len(),
            total == byte_sum(page@.subrange(27, 27 + k as int)),
            total <= 255 * k,
        decreases nseg - k,
    {
        proof {
            let t1 = page@.subrange(27, 27 + k as int + 1);
            assert(t1.drop_last() =~= page@.subrange(27, 27 + k as int));
            assert(t1.last() == page@[27 + k as int]);
        }
        total = total + page[27 + k] as usize;
        k = k + 1;
    }
    proof {
        assert(byte_sum(page@.subrange(27, 27 + nseg as int)) == total);
    }
    if page.len() != 27 + nseg + total {
        return None;
    }
    let granule = u64_from_le_slice(slice_subrange(page, 6, 14));
    let serial = u32_from_le_slice(slice_subrange(page, 14, 18));
    let page_seq = u32_from_le_slice(slice_subrange(page, 18, 22));
    let crc = u32_from_le_slice(slice_subrange(page, 22, 26));
    let flags = page[5];
    let payload = slice_to_vec(slice_subrange(page, 27 + nseg, 27 + nseg + total));
    Some(ParsedPage { payload, granule, serial, page_seq, flags, crc })
}

/// `s` with its CRC field (bytes 22 to 25) zeroed.
pub open spec fn zero_crc(s: Seq<u8>) -> Seq<u8>
    recommends
        s.len() >= 27,
{
    s.update(22, 0u8).update(23, 0u8).update(24, 0u8).update(25, 0u8)
}

/// Whether the stored CRC of a page equals the CRC-32 of the page with the
/// CRC field zeroed.
pub open spec fn page_crc_ok(s: Seq<u8>) -> bool {
    s.len() >= 27 && u32_from_le(s.subrange(22, 26)) == crc32_of(zero_crc(s))
}

/// Check the checksum of a received page.
pub fn verify_page_crc(page: &[u8]) -> (ok: bool)
    ensures
        ok == page_crc_ok(page@),
{
    if page.len() < 27 {
        return false;
    }
    let stored = u32_from_le_slice(slice_subrange(page, 22, 26));
    let mut zeroed = slice_to_vec(page);
    zeroed.set(22, 0u8);
    zeroed.set(23, 0u8);
    zeroed.set(24, 0u8);
    zeroed.set(25, 0u8);
    let computed = ogg_crc32(zeroed.as_slice());
    stored == computed
}

/// A page built by `create_ogg_page` parses back to exactly the payload,
/// granule, serial, sequence and flags it was built from.
pub proof fn lemma_ogg_page_round_trip(
    payload: Seq<u8>,
    serial: u32,
    granule: u64,
    page_seq: u32,
    bos: bool,
)
    requires
        payload.len() <= MAX_PAGE_PAYLOAD,
    ensures
        ({
            let f = parse_page(ogg_page_bytes(payload, serial, granule, page_seq, bos));
            &&& f is Some
            &&& f.unwrap().payload == payload
            &&& f.unwrap().granule == granule
            &&& f.unwrap().serial == serial
            &&& f.unwrap().page_seq == page_seq
            &&& f.unwrap().flags == if bos { FLAG_BOS } else { 0u8 }
            &&& f.unwrap().crc == page_crc(payload, serial, granule, page_seq, bos)
        }),
{
    let l = payload.len() as int;
    let st = seg_table(l);
    let crc = page_crc(payload, serial, granule, page_seq, bos);
    let p = ogg_page_bytes(payload, serial, granule, page_seq, bos);
    lemma_seg_table_len(l);
    lemma_seg_table_sum(l);
    lemma_u64_le_round_trip(granule);
    lemma_u32_le_round_trip(serial);
    lemma_u32_le_round_trip(page_seq);
    lemma_u32_le_round_trip(crc);
    assert(st.len() <= 255);
    assert(p.len() == 27 + st.len() + l);
    assert(p.subrange(0, 4) =~= seq![0x4Fu8, 0x67u8, 0x67u8, 0x53u8]);
    assert(p[4] == 0u8);
    assert(p[5] == if bos { FLAG_BOS } else { 0u8 });
    assert(p[26] == st.len() as u8);
    assert(p[26] as int == st.len() as int);
    assert(p.subrange(6, 14) =~= u64_le(granule));
    assert(p.subrange(14, 18) =~= u32_le(serial));
    assert(p.subrange(18, 22) =~= u32_le(page_seq));
    assert(p.subrange(22, 26) =~= u32_le(crc));
    assert(p.subrange(27, 27 + st.len() as int) =~= st);
    assert(p.subrange(27 + st.len() as int, 27 + st.len() as int + l) =~= payload);
}

/// A freshly built page carries a correct checksum, and flipping any single
/// bit of it (any bit of any byte, CRC field included) makes the checksum
/// check fail.
pub proof fn lemma_page_crc_detects_flip(
    payload: Seq<u8>,
    serial: u32,
    granule: u64,
    page_seq: u32,
    bos: bool,
    k: int,
    bit: u8,
)
    requires
        payload.len() <= MAX_PAGE_PAYLOAD,
        0 <= k < ogg_page_bytes(payload, serial, granule, page_seq, bos).len(),
        bit < 8,
    ensures
        page_crc_ok(ogg_page_bytes(payload, serial, granule, page_seq, bos)),
        !page_crc_ok(flip_bit(ogg_page_bytes(payload, serial, granule, page_seq, bos), k, bit)),
{
    let p = ogg_page_bytes(payload, serial, granule, page_seq, bos);
    let z = page_bytes_with_crc(payload, serial, granule, page_seq, bos, 0);
    let crc = page_crc(payload, serial, granule, page_seq, bos);
    let f = flip_bit(p, k, bit);
    lemma_seg_table_len(payload.len() as int);
    assert(p.len() >= 27);
    assert(p.subrange(22, 26) =~= u32_le(crc));
    lemma_u32_le_round_trip(crc);
    lemma_u32_le_zero();
    assert(zero_crc(p) =~= z);
    assert(page_crc_ok(p));
    assert(forall|x: u8, b: u8| b < 8 ==> (x ^ (1u8 << b)) != x) by (bit_vector);
    if 22 <= k < 26 {
        // The flip landed in the CRC field: the computed checksum is
        // unchanged, but the stored one decodes to a different value.
        assert(zero_crc(f) =~= zero_crc(p));
        let s1 = f.subrange(22, 26);
        assert(s1 =~= u32_le(crc).update(k - 22, p[k] ^ (1u8 << bit)));
        assert(s1[k - 22] != u32_le(crc)[k - 22]);
        if u32_from_le(s1) == crc {
            lemma_u32_from_le_round_trip(s1);
            assert(s1 =~= u32_le(crc));
        }
        assert(u32_from_le(s1) != crc);
    } else {
        // The flip landed outside the CRC field: the stored checksum is
        // unchanged, but the computed one differs by a nonzero syndrome.
        assert(f.subrange(22, 26) =~= p.subrange(22, 26));
        assert(zero_crc(f) =~= flip_bit(zero_crc(p), k, bit));
        lemma_crc_flip_changes(zero_crc(p), k, bit);
    }
}

/// Build the segment table for a payload of `len` bytes.
fn build_seg_table(len: usize) -> (segs: Vec<u8>)
    ensures
        segs@ == seg_table(len as int),
{
    let mut segs: Vec<u8> = Vec::new();
    let mut remaining: usize = len;
    while remaining > 0
        invariant
            remaining <= len,
            remaining > 0 ==> segs@ + seg_table(remaining as int) =~= seg_table(len as int),
            remaining == 0 ==> if len == 0 {
                segs@ =~= Seq::<u8>::empty()
            } else {
                segs@ =~= seg_table(len as int)
            },
        decreases remaining,
    {
        if remaining >= 255 {
            proof {
                if remaining > 255 {
                    assert(seg_table(remaining as int) =~= seq![255u8] + seg_table(
                        remaining as int - 255,
                    ));
                    assert(segs@ + seq![255u8] + seg_table(remaining as int - 255) =~= segs@
                        + seg_table(remaining as int));
                }
            }
            segs.push(255u8);
            remaining = remaining - 255;
        } else {
            proof {
                assert(seg_table(remaining as int) =~= seq![remaining as u8]);
            }
            segs.push(remaining as u8);
            remaining = 0;
        }
    }
    if segs.len() == 0 {
        segs.push(0u8);
        proof {
            assert(segs@ =~= seg_table(0));
        }
    }
    segs
}

/// Build one Ogg page around `data` (RFC 3533 layout): header with zeroed
/// CRC, segment table, payload, then the CRC-32 computed and spliced in.
pub fn create_ogg_page(
    data: &[u8],
    serial: u32,
    granule: u64,
    page_sequence: u32,
    is_bos: bool,
) -> (page: Vec<u8>)
    requires
        data@.len() <= MAX_PAGE_PAYLOAD,
    ensures
        page@ == ogg_page_bytes(data@, serial, granule, page_sequence, is_bos),
{
    proof {
        lemma_seg_table_len(data@.len() as int);
    }
    let mut page: Vec<u8> = Vec::new();
    // Capture pattern "OggS"
    page.push(0x4Fu8);
    page.push(0x67u8);
    page.push(0x67u8);
    page.push(0x53u8);
    // Version
    page.push(0u8);
    // Header-type flags
    page.push(if is_bos { FLAG_BOS } else { 0u8 });
    // Granule position, little endian
    let gb = u64_to_le_vec(granule);
    append_copy(&mut page, gb.as_slice());
    // Stream serial, little endian
    let sb = u32_to_le_vec(serial);
    append_copy(&mut page, sb.as_slice());
    // Page sequence, little endian
    let qb = u32_to_le_vec(page_sequence);
    append_copy(&mut page, qb.as_slice());
    // CRC placeholder, filled once the whole page is known
    let zb = u32_to_le_vec(0u32);
    append_copy(&mut page, zb.as_slice());
    // Segment count and segment table
    let segs = build_seg_table(data.len());
    page.push(segs.len() as u8);
    append_copy(&mut page, segs.as_slice());
    // Payload
    append_copy(&mut page, data);
    proof {
        assert(page@ =~= page_bytes_with_crc(
            data@,
            serial,
            granule,
            page_sequence,
            is_bos,
            0,
        ));
    }
    // Checksum over the page with the zeroed CRC field, then splice
    let crc = ogg_crc32(page.as_slice());
    let cb = u32_to_le_vec(crc);
    page.set(22, cb[0]);
    page.set(23, cb[1]);
    page.set(24, cb[2]);
    page.set(25, cb[3]);
    proof {
        assert(page@ =~= ogg_page_bytes(data@, serial, granule, page_sequence, is_bos));
    }
    page
}

} // verus!
