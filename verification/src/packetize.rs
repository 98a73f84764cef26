//! Accumulation of ragged PCM blocks into codec frames of an exact fixed
//! sample count.  Leftover samples are carried between calls; a final
//! partial frame is zero-padded and flushed exactly once at tear-down, so
//! the codec never sees a short frame.

use vstd::prelude::*;
use vstd::slice::slice_subrange;
use vstd::arithmetic::div_mod::lemma_fundamental_div_mod_converse;
use crate::util::append_copy;

verus! {

/// Splits a stream of interleaved samples into frames of exactly
/// `frame_len` samples, carrying leftovers between calls.
#[derive(Debug)]
pub struct FramePacketizer {
    /// Samples per emitted frame, all channels interleaved.
    pub frame_len: usize,
    /// Samples left over from earlier blocks; always shorter than a frame.
    pub carry: Vec<i16>,
}

impl FramePacketizer {
    /// Well-formed: a positive frame size and a short carry buffer.
    pub open spec fn wf(&self) -> bool {
        1 <= self.frame_len && self.carry@.len() < self.frame_len
    }

    /// A fresh packetizer with an empty carry buffer.
    pub fn new(frame_len: usize) -> (p: Self)
        requires
            frame_len >= 1,
        ensures
            p.wf(),
            p.frame_len == frame_len,
            p.carry@.len() == 0,
    {
        FramePacketizer { frame_len, carry: Vec::new() }
    }

    /// Feed one block: emit every full frame the carried and new samples
    /// make up, in order, and keep the remainder for the next call.
    pub fn push_block(&mut self, block: &Vec<i16>) -> (frames: Vec<Vec<i16>>)
        requires
            old(self).wf(),
            old(self).carry@.len() + block@.len() <= usize::MAX,
        ensures
            final(self).wf(),
            final(self).frame_len == old(self).frame_len,
            ({
                let flen = old(self).frame_len as int;
                let total = old(self).carry@ + block@;
                let n = total.len() as int / flen;
                &&& frames@.len() == n
                &&& forall|k: int|
                    0 <= k < n ==> #[trigger] frames@[k]@ == total.subrange(
                        k * flen,
                        (k + 1) * flen,
                    )
                &&& forall|k: int| 0 <= k < n ==> #[trigger] frames@[k]@.len() == flen
                &&& final(self).carry@ == total.subrange(n * flen, total.len() as int)
            }),
    {
        let flen = self.frame_len;
        let mut total: Vec<i16> = Vec::new();
        append_copy(&mut total, self.carry.as_slice());
        append_copy(&mut total, block.as_slice());
        let ghost gtotal = total@;
        let mut frames: Vec<Vec<i16>> = Vec::new();
        let mut start: usize = 0;
        proof {
            assert(0int * (flen as int) == 0) by (nonlinear_arith);
        }
        while flen <= total.len() - start
            invariant
                flen == self.frame_len,
                self == old(self),
                flen >= 1,
                total@ == gtotal,
                start <= total@.len(),
                start == frames@.len() * flen,
                forall|k: int|
                    0 <= k < frames@.len() ==> #[trigger] frames@[k]@ == gtotal.subrange(
                        k * flen,
                        (k + 1) * flen,
                    ),
            decreases total@.len() - start,
        {
            let mut fr: Vec<i16> = Vec::new();
            append_copy(&mut fr, slice_subrange(total.as_slice(), start, start + flen));
            proof {
                let k = frames@.len() as int;
                assert(k * flen + flen == (k + 1) * flen) by (nonlinear_arith);
                assert(fr@ == gtotal.subrange(k * flen, (k + 1) * flen));
            }
            frames.push(fr);
            start = start + flen;
        }
        let mut rest: Vec<i16> = Vec::new();
        append_copy(&mut rest, slice_subrange(total.as_slice(), start, total.len()));
        self.carry = rest;
        proof {
            let n = frames@.len() as int;
            let len = gtotal.len() as int;
            assert(n * flen <= len < n * flen + flen);
            lemma_fundamental_div_mod_converse(len, flen as int, n, len - n * flen);
            assert(n == len / (flen as int));
            assert(gtotal =~= old(self).carry@ + block@);
            assert forall|k: int| 0 <= k < n implies #[trigger] frames@[k]@.len()
                == flen by {
                assert((k + 1) * (flen as int) - k * (flen as int) == flen)
                    by (nonlinear_arith);
                assert(0 <= k * (flen as int) && (k + 1) * (flen as int) <= len)
                    by (nonlinear_arith)
                    requires
                        0 <= k < n,
                        flen >= 1,
                        n * (flen as int) <= len,
                ;
            }
        }
        frames
    }

    /// Tear-down: pad any buffered remainder with silence to one full
    /// frame and hand it out; an empty carry buffer flushes nothing.
    pub fn flush(&mut self) -> (fr: Option<Vec<i16>>)
        requires
            old(self).wf(),
        ensures
            final(self).wf(),
            final(self).frame_len == old(self).frame_len,
            final(self).carry@.len() == 0,
            old(self).carry@.len() == 0 ==> fr is None,
            old(self).carry@.len() > 0 ==> fr is Some && fr.unwrap()@ == old(self).carry@
                + Seq::new(
                (old(self).frame_len - old(self).carry@.len()) as nat,
                |i: int| 0i16,
            ) && fr.unwrap()@.len() == old(self).frame_len,
    {
        if self.carry.len() == 0 {
            return None;
        }
        let flen = self.frame_len;
        let ghost gcarry = self.carry@;
        let mut fr: Vec<i16> = Vec::new();
        append_copy(&mut fr, self.carry.as_slice());
        while fr.len() < flen
            invariant
                flen == self.frame_len,
                self == old(self),
                gcarry == old(self).carry@,
                gcarry.len() <= fr@.len() <= flen,
                fr@ == gcarry + Seq::new((fr@.len() - gcarry.len()) as nat, |i: int| 0i16),
            decreases flen - fr@.len(),
        {
            fr.push(0i16);
            proof {
                assert(fr@ =~= gcarry + Seq::new(
                    (fr@.len() - gcarry.len()) as nat,
                    |i: int| 0i16,
                ));
            }
        }
        self.carry = Vec::new();
        Some(fr)
    }
}

} // verus!
