//! PCM resampling by linear interpolation, in integer arithmetic over
//! interleaved signed 16-bit samples.
//!
//! Output frame `i` reads source position `i * src / dst`; each channel is
//! interpolated between the frame at that position and the next (the last
//! frame repeated at the end).  This is deliberately not band-limited: a
//! low-latency tradeoff that accepts some aliasing.

use vstd::prelude::*;
use vstd::slice::slice_to_vec;
use vstd::arithmetic::div_mod::lemma_div_is_ordered;
use vstd::arithmetic::div_mod::lemma_div_multiples_vanish;
use vstd::arithmetic::div_mod::lemma_fundamental_div_mod;

verus! {

/// Linear interpolation `rem/den` of the way from `s0` to `s1`, computed
/// on zero-offset values and rounded down.
pub open spec fn lerp_sample(s0: i16, s1: i16, rem: int, den: int) -> i16
    recommends
        0 <= rem < den,
{
    ((((s0 + 32768) * (den - rem) + (s1 + 32768) * rem) / den) - 32768) as i16
}

/// The number of output frames: the input frame count scaled by the rate
/// ratio, rounded down.
pub open spec fn resampled_frames(frames: int, src: int, dst: int) -> int
    recommends
        src >= 1,
{
    frames * dst / src
}

/// The sample of output frame `i`, channel `c`.
pub open spec fn resampled_sample(
    input: Seq<i16>,
    channels: int,
    src: int,
    dst: int,
    i: int,
    c: int,
) -> i16
    recommends
        channels >= 1,
        src >= 1,
        dst >= 1,
{
    let frames = input.len() as int / channels;
    let idx = i * src / dst;
    let idx1 = if idx + 1 < frames {
        idx + 1
    } else {
        frames - 1
    };
    let rem = (i * src) % dst;
    lerp_sample(input[idx * channels + c], input[idx1 * channels + c], rem, dst)
}

/// The whole resampled block as one sequence: unchanged when the rates
/// match, else every output sample in interleaved order.
pub open spec fn resampled_seq(input: Seq<i16>, channels: int, src: int, dst: int) -> Seq<
    i16,
>
    recommends
        channels >= 1,
        src >= 1,
        dst >= 1,
{
    if src == dst {
        input
    } else {
        let frames = input.len() as int / channels;
        let out_frames = resampled_frames(frames, src, dst);
        Seq::new(
            (out_frames * channels) as nat,
            |t: int| resampled_sample(input, channels, src, dst, t / channels, t % channels),
        )
    }
}

/// One interpolated sample.
fn lerp(s0: i16, s1: i16, rem: u64, den: u64) -> (r: i16)
    requires
        0 < den <= 0xffff_ffffu64,
        rem < den,
    ensures
        r == lerp_sample(s0, s1, rem as int, den as int),
{
    let a0: u64 = ((s0 as i32) + 32768) as u64;
    let a1: u64 = ((s1 as i32) + 32768) as u64;
    proof {
        assert(a0 <= 65535 && a1 <= 65535);
        assert(a0 * (den - rem) + a1 * rem <= 65535 * den) by (nonlinear_arith)
            requires
                a0 <= 65535,
                a1 <= 65535,
                rem < den,
        ;
        assert(65535 * den <= 0xffff_ffff_0000_0001u64);
    }
    let num: u64 = a0 * (den - rem) + a1 * rem;
    let v: u64 = num / den;
    proof {
        lemma_div_is_ordered(num as int, 65535 * (den as int), den as int);
        lemma_div_multiples_vanish(65535, den as int);
        assert(v <= 65535);
    }
    ((v as i32) - 32768) as i16
}

/// Convert an interleaved block from `src_rate` to `dst_rate`.  A matching
/// rate returns the samples unchanged; a degenerate empty block yields an
/// empty block.
pub fn resample(samples: &Vec<i16>, channels: u16, src_rate: u32, dst_rate: u32) -> (r: Vec<
    i16,
>)
    requires
        channels >= 1,
        src_rate >= 1,
        dst_rate >= 1,
        samples@.len() as int % (channels as int) == 0,
        samples@.len() * (dst_rate as int) <= u64::MAX,
        resampled_frames(
            samples@.len() as int / (channels as int),
            src_rate as int,
            dst_rate as int,
        ) * (channels as int) <= usize::MAX,
    ensures
        r@ == resampled_seq(samples@, channels as int, src_rate as int, dst_rate as int),
        src_rate == dst_rate ==> r@ == samples@,
        src_rate != dst_rate ==> ({
            let frames = samples@.len() as int / (channels as int);
            let out_frames = resampled_frames(frames, src_rate as int, dst_rate as int);
            &&& r@.len() == out_frames * (channels as int)
            &&& forall|i: int, c: int|
                0 <= i < out_frames && 0 <= c < (channels as int)
                    ==> r@[i * (channels as int) + c] == resampled_sample(
                    samples@,
                    channels as int,
                    src_rate as int,
                    dst_rate as int,
                    i,
                    c,
                )
        }),
{
    if src_rate == dst_rate {
        return slice_to_vec(samples.as_slice());
    }
    let ch: usize = channels as usize;
    let frames: usize = samples.len() / ch;
    proof {
        assert(frames * ch == samples@.len()) by (nonlinear_arith)
            requires
                ch >= 1,
                frames == samples@.len() as int / (ch as int),
                samples@.len() as int % (ch as int) == 0,
        ;
        assert(frames as int * (dst_rate as int) <= samples@.len() * (dst_rate as int))
            by (nonlinear_arith)
            requires
                frames <= samples@.len(),
        ;
    }
    let of64: u64 = (frames as u64) * (dst_rate as u64) / (src_rate as u64);
    let ghost gout = resampled_frames(frames as int, src_rate as int, dst_rate as int);
    proof {
        assert(of64 == gout);
        assert(gout <= gout * (channels as int)) by (nonlinear_arith)
            requires
                channels >= 1,
                gout >= 0,
        ;
    }
    let out_frames: usize = of64 as usize;
    let mut r: Vec<i16> = Vec::new();
    let mut i: usize = 0;
    while i < out_frames
        invariant
            i <= out_frames,
            ch == channels as usize,
            channels >= 1,
            src_rate >= 1,
            dst_rate >= 1,
            src_rate != dst_rate,
            frames * ch == samples@.len(),
            frames as int * (dst_rate as int) <= u64::MAX,
            out_frames == resampled_frames(frames as int, src_rate as int, dst_rate as int),
            out_frames * (ch as int) <= usize::MAX,
            r@.len() == i * (ch as int),
            forall|j: int, c: int|
                0 <= j < i && 0 <= c < (ch as int) ==> r@[j * (ch as int) + c]
                    == resampled_sample(
                    samples@,
                    channels as int,
                    src_rate as int,
                    dst_rate as int,
                    j,
                    c,
                ),
        decreases out_frames - i,
    {
        proof {
            assert((i + 1) * (src_rate as int) <= frames as int * (dst_rate as int))
                by (nonlinear_arith)
                requires
                    0 <= i < frames as int * (dst_rate as int) / (src_rate as int),
                    src_rate >= 1,
            ;
            assert((i + 1) * (src_rate as int) == i * (src_rate as int) + (src_rate as int))
                by (nonlinear_arith);
            assert(i * (src_rate as int) <= u64::MAX);
        }
        let pos: u64 = (i as u64) * (src_rate as u64);
        let idx64: u64 = pos / (dst_rate as u64);
        let rem: u64 = pos % (dst_rate as u64);
        proof {
            // The source index stays inside the input block.
            assert(pos <= frames as int * (dst_rate as int) - src_rate as int);
            assert(idx64 < frames) by (nonlinear_arith)
                requires
                    idx64 == pos as int / (dst_rate as int),
                    pos as int <= frames as int * (dst_rate as int) - 1,
                    dst_rate >= 1,
                    frames >= 1,
            ;
        }
        let idx: usize = idx64 as usize;
        let idx1: usize = if idx + 1 < frames {
            idx + 1
        } else {
            frames - 1
        };
        let mut c: usize = 0;
        while c < ch
            invariant
                c <= ch,
                ch == channels as usize,
                channels >= 1,
                src_rate >= 1,
                dst_rate >= 1,
                src_rate != dst_rate,
                frames * ch == samples@.len(),
                frames as int * (dst_rate as int) <= u64::MAX,
                out_frames == resampled_frames(
                    frames as int,
                    src_rate as int,
                    dst_rate as int,
                ),
                out_frames * (ch as int) <= usize::MAX,
                i < out_frames,
                idx < frames,
                idx == i * (src_rate as int) / (dst_rate as int),
                rem == (i * (src_rate as int)) % (dst_rate as int),
                idx1 == (if idx + 1 < frames {
                    idx as int + 1
                } else {
                    frames as int - 1
                }),
                r@.len() == i * (ch as int) + c,
                forall|j: int, d: int|
                    0 <= j < i && 0 <= d < (ch as int) ==> r@[j * (ch as int) + d]
                        == resampled_sample(
                        samples@,
                        channels as int,
                        src_rate as int,
                        dst_rate as int,
                        j,
                        d,
                    ),
                forall|d: int|
                    0 <= d < c ==> r@[i * (ch as int) + d] == resampled_sample(
                        samples@,
                        channels as int,
                        src_rate as int,
                        dst_rate as int,
                        i as int,
                        d,
                    ),
            decreases ch - c,
        {
            proof {
                assert(idx * ch + c < frames * ch && idx1 * ch + c < frames * ch
                    && i * (ch as int) + c < out_frames * (ch as int)) by (nonlinear_arith)
                    requires
                        idx < frames,
                        idx1 < frames,
                        c < ch,
                        i < out_frames,
                        ch >= 1,
                ;
            }
            let n: usize = samples.len();
            proof {
                assert(idx * ch + c < n && idx1 * ch + c < n);
            }
            let s0: i16 = samples[idx * ch + c];
            let s1: i16 = samples[idx1 * ch + c];
            let v = lerp(s0, s1, rem, dst_rate as u64);
            r.push(v);
            proof {
                assert(r@[i * (ch as int) + c] == v);
                lemma_div_multiples_vanish(frames as int, ch as int);
                assert(ch as int * (frames as int) == frames as int * (ch as int))
                    by (nonlinear_arith);
                assert(samples@.len() as int / (ch as int) == frames);
                assert(v == resampled_sample(
                    samples@,
                    channels as int,
                    src_rate as int,
                    dst_rate as int,
                    i as int,
                    c as int,
                ));
                assert forall|j: int, d: int|
                    0 <= j < i && 0 <= d < (ch as int) implies #[trigger] (j * (ch as int)
                    + d) < i * (ch as int) + c by {
                    assert((j + 1) * (ch as int) <= i * (ch as int) && j * (ch as int) + d
                        < (j + 1) * (ch as int)) by (nonlinear_arith)
                        requires
                            0 <= j < i,
                            0 <= d < (ch as int),
                            ch >= 1,
                    ;
                }
            }
            c = c + 1;
        }
        i = i + 1;
        proof {
            assert(r@.len() == i * (ch as int)) by (nonlinear_arith)
                requires
                    r@.len() == (i - 1) * (ch as int) + ch,
                    ch >= 1,
            ;
        }
    }
    proof {
        assert(r@.len() == out_frames * (ch as int));
        let chi = ch as int;
        let srci = src_rate as int;
        let dsti = dst_rate as int;
        assert forall|t: int| 0 <= t < r@.len() implies r@[t] == resampled_sample(
            samples@,
            chi,
            srci,
            dsti,
            t / chi,
            t % chi,
        ) by {
            lemma_fundamental_div_mod(t, chi);
            assert(chi * (t / chi) == (t / chi) * chi) by (nonlinear_arith);
            assert(t / chi < out_frames) by (nonlinear_arith)
                requires
                    0 <= t < out_frames * chi,
                    chi >= 1,
            ;
        }
        assert(r@ =~= resampled_seq(samples@, chi, srci, dsti));
    }
    r
}

} // verus!
