//! The CRC-32 used by Ogg pages: generator polynomial 0x04C11DB7, fed
//! most-significant-bit first, zero initial value and no final inversion.
//!
//! The executable code is table-driven; the table and the per-byte update
//! are both proved equal to the bitwise definition `crc32_of`.

use vstd::prelude::*;

verus! {

/// One left-shift step of the MSB-first CRC: shift out the top bit and fold
/// in the generator polynomial when that bit was set.
pub open spec fn crc_shift(c: u32) -> u32 {
    if c & 0x8000_0000u32 != 0 {
        (c << 1u32) ^ 0x04C1_1DB7u32
    } else {
        c << 1u32
    }
}

/// The lookup-table entry for one byte: eight shift steps applied to the
/// byte placed in the top eight bits.
pub open spec fn crc_entry(b: u8) -> u32 {
    crc_shift(crc_shift(crc_shift(crc_shift(crc_shift(crc_shift(crc_shift(crc_shift(
        (b as u32) << 24u32,
    ))))))))
}

/// Folding one data byte into a running CRC.
pub open spec fn crc_step(c: u32, b: u8) -> u32 {
    (c << 8u32) ^ crc_entry((((c >> 24u32) ^ (b as u32)) as u8))
}

/// The CRC of a byte sequence, processed left to right from a zero start.
pub open spec fn crc32_of(s: Seq<u8>) -> u32
    decreases s.len(),
{
    if s.len() == 0 {
        0u32
    } else {
        crc_step(crc32_of(s.drop_last()), s.last())
    }
}

/// One executable shift step, mirroring `crc_shift`.
fn crc_shift_once(c: u32) -> (r: u32)
    ensures
        r == crc_shift(c),
{
    if c & 0x8000_0000u32 != 0 {
        (c << 1u32) ^ 0x04C1_1DB7u32
    } else {
        c << 1u32
    }
}

/// Build the 256-entry lookup table of the Ogg CRC.
pub fn generate_crc_table() -> (t: Vec<u32>)
    ensures
        t@.len() == 256,
        forall|i: int| 0 <= i < 256 ==> t@[i] == crc_entry(i as u8),
{
    let mut t: Vec<u32> = Vec::new();
    let mut i: usize = 0;
    while i < 256
        invariant
            i <= 256,
            t@.len() == i,
            forall|k: int| 0 <= k < i ==> t@[k] == crc_entry(k as u8),
        decreases 256 - i,
    {
        let b: u8 = i as u8;
        proof {
            assert(i < 256 ==> (i as u8) as int == i as int) by (bit_vector);
        }
        let mut c: u32 = (b as u32) << 24u32;
        c = crc_shift_once(c);
        c = crc_shift_once(c);
        c = crc_shift_once(c);
        c = crc_shift_once(c);
        c = crc_shift_once(c);
        c = crc_shift_once(c);
        c = crc_shift_once(c);
        c = crc_shift_once(c);
        assert(c == crc_entry(b));
        t.push(c);
        i = i + 1;
    }
    t
}

/// The CRC-32 of `data`, computed with the lookup table.
pub fn ogg_crc32(data: &[u8]) -> (r: u32)
    ensures
        r == crc32_of(data@),
{
    let table = generate_crc_table();
    let mut crc: u32 = 0;
    let mut k: usize = 0;
    while k < data.len()
        invariant
            k <= data@.len(),
            table@.len() == 256,
            forall|i: int| 0 <= i < 256 ==> table@[i] == crc_entry(i as u8),
            crc == crc32_of(data@.take(k as int)),
        decreases data@.len() - k,
    {
        let b: u8 = data[k];
        let idx: u8 = ((crc >> 24u32) ^ (b as u32)) as u8;
        proof {
            assert(((crc >> 24u32) ^ (b as u32)) < 256) by (bit_vector);
            assert(idx as int == ((crc >> 24u32) ^ (b as u32)) as int) by (bit_vector)
                requires
                    idx == ((crc >> 24u32) ^ (b as u32)) as u8,
            ;
        }
        crc = (crc << 8u32) ^ table[idx as usize];
        proof {
            let pref = data@.take(k as int + 1);
            assert(pref.drop_last() =~= data@.take(k as int));
            assert(pref.last() == b);
        }
        k = k + 1;
    }
    proof {
        assert(data@.take(data@.len() as int) =~= data@);
    }
    crc
}

/// Pointwise xor of two equal-length byte sequences.
pub open spec fn seq_xor(a: Seq<u8>, b: Seq<u8>) -> Seq<u8>
    recommends
        a.len() == b.len(),
{
    Seq::new(a.len(), |i: int| a[i] ^ b[i])
}

/// All-zero bytes except a single set bit: bit `bit` of byte `k`.
pub open spec fn single_bit_seq(len: nat, k: int, bit: u8) -> Seq<u8> {
    Seq::new(len, |i: int| if i == k { 1u8 << bit } else { 0u8 })
}

/// `s` with bit `bit` of byte `k` flipped.
pub open spec fn flip_bit(s: Seq<u8>, k: int, bit: u8) -> Seq<u8>
    recommends
        0 <= k < s.len(),
        bit < 8,
{
    s.update(k, s[k] ^ (1u8 << bit))
}

/// The table entry of a nonzero byte is nonzero, and so are its low eight
/// bits; the entry of zero is zero.
proof fn lemma_crc_entry_nonzero()
    by (bit_vector)
    ensures
        forall|a: u8| a != 0 ==> #[trigger] crc_entry(a) != 0,
        forall|a: u8| a != 0 ==> #[trigger] crc_entry(a) & 0xff != 0,
        crc_entry(0) == 0,
{
}

/// One CRC step is linear over xor of both its arguments.
#[verifier::rlimit(100)]
proof fn lemma_crc_step_linear()
    by (bit_vector)
    ensures
        forall|c1: u32, c2: u32, b1: u8, b2: u8|
            #[trigger] crc_step(c1 ^ c2, b1 ^ b2) == crc_step(c1, b1) ^ crc_step(c2, b2),
{
}

/// A step on a zero CRC and byte yields the table entry; on zero and zero
/// it stays zero; and folding a zero byte into a nonzero CRC keeps it
/// nonzero (the low eight bits of every nonzero table entry are nonzero).
proof fn lemma_crc_step_facts()
    by (bit_vector)
    ensures
        forall|b: u8| #[trigger] crc_step(0u32, b) == crc_entry(b),
        forall|c: u32| c != 0 ==> #[trigger] crc_step(c, 0u8) != 0,
        forall|bit: u8| bit < 8 ==> (1u8 << bit) != 0,
{
}

/// The CRC of all-zero bytes is zero.
proof fn lemma_crc_zeros(len: nat)
    ensures
        crc32_of(Seq::new(len, |i: int| 0u8)) == 0,
    decreases len,
{
    let z = Seq::new(len, |i: int| 0u8);
    if len > 0 {
        lemma_crc_zeros((len - 1) as nat);
        assert(z.drop_last() =~= Seq::new((len - 1) as nat, |i: int| 0u8));
        assert(crc_step(0u32, 0u8) == 0u32) by (bit_vector);
    }
}

/// The CRC is linear: the CRC of the pointwise xor of two equal-length
/// sequences is the xor of their CRCs.
pub proof fn lemma_crc32_linear(a: Seq<u8>, b: Seq<u8>)
    requires
        a.len() == b.len(),
    ensures
        crc32_of(seq_xor(a, b)) == crc32_of(a) ^ crc32_of(b),
    decreases a.len(),
{
    let x = seq_xor(a, b);
    if a.len() == 0 {
        assert(x =~= Seq::<u8>::empty());
        assert(crc32_of(a) ^ crc32_of(b) == 0u32 ^ 0u32);
        assert(0u32 ^ 0u32 == 0u32) by (bit_vector);
    } else {
        lemma_crc32_linear(a.drop_last(), b.drop_last());
        assert(x.drop_last() =~= seq_xor(a.drop_last(), b.drop_last()));
        assert(x.last() == a.last() ^ b.last());
        lemma_crc_step_linear();
        assert(crc_step(crc32_of(a.drop_last()) ^ crc32_of(b.drop_last()), a.last()
            ^ b.last()) == crc_step(crc32_of(a.drop_last()), a.last()) ^ crc_step(
            crc32_of(b.drop_last()),
            b.last(),
        ));
    }
}

/// The CRC of a single set bit is nonzero: the syndrome a one-bit error
/// leaves behind never cancels out.
pub proof fn lemma_crc_single_bit_nonzero(len: nat, k: int, bit: u8)
    requires
        0 <= k < len,
        bit < 8,
    ensures
        crc32_of(single_bit_seq(len, k, bit)) != 0,
    decreases len,
{
    let s = single_bit_seq(len, k, bit);
    lemma_crc_step_facts();
    lemma_crc_entry_nonzero();
    if k == len - 1 {
        assert(s.drop_last() =~= Seq::new((len - 1) as nat, |i: int| 0u8));
        lemma_crc_zeros((len - 1) as nat);
        assert(s.last() == 1u8 << bit);
        assert(crc32_of(s) == crc_step(0u32, 1u8 << bit));
    } else {
        lemma_crc_single_bit_nonzero((len - 1) as nat, k, bit);
        assert(s.drop_last() =~= single_bit_seq((len - 1) as nat, k, bit));
        assert(s.last() == 0u8);
    }
}

/// Flipping any single bit of any byte sequence changes its CRC.
pub proof fn lemma_crc_flip_changes(s: Seq<u8>, k: int, bit: u8)
    requires
        0 <= k < s.len(),
        bit < 8,
    ensures
        crc32_of(flip_bit(s, k, bit)) != crc32_of(s),
{
    let e = single_bit_seq(s.len(), k, bit);
    assert(flip_bit(s, k, bit) =~= seq_xor(s, e)) by {
        assert(forall|x: u8| #[trigger] (x ^ 0u8) == x) by (bit_vector);
    }
    lemma_crc32_linear(s, e);
    lemma_crc_single_bit_nonzero(s.len(), k, bit);
    assert(forall|x: u32, y: u32| y != 0 ==> #[trigger] (x ^ y) != x) by (bit_vector);
}

} // verus!
