//! The Opus-stream side of the pipeline: validated encoder settings, the
//! `OpusHead` and `OpusTags` header records each new client session gets on
//! pages zero and one, and the preparation of codec frames (resampling to
//! the codec rate, then packetization).  The codec bitstream itself is an
//! external capability and is not modelled here.

use vstd::prelude::*;
use crate::ogg;
use crate::packetize::FramePacketizer;
use crate::resample::resample;
use crate::resample::resampled_frames;
use crate::resample::resampled_seq;
use crate::util::append_copy;
use crate::util::u16_le;
use crate::util::u16_to_le_vec;
use crate::util::u32_le;
use crate::util::u32_to_le_vec;

verus! {

/// Samples per channel in one codec frame: 10 ms at the codec rate.
pub const FRAME_SAMPLES: usize = 480;

/// The rate every codec frame is produced at.
pub const CODEC_RATE: u32 = 48000;

/// Pre-skip samples advertised in the `OpusHead` record.
pub const PRE_SKIP: u16 = 312;

/// Why an encoder could not be configured.
#[derive(Clone, Copy, Debug, PartialEq, Eq, Structural)]
pub enum CodecError {
    /// Channel-mapping family zero carries one or two channels only.
    UnsupportedChannels,
    /// The bitrate in bits per second must fit the codec's signed setting.
    UnsupportedBitrate,
}

/// The rates the codec accepts directly; everything else is resampled to
/// the default rate.
pub open spec fn is_codec_rate(rate: u32) -> bool {
    rate == 8000 || rate == 12000 || rate == 16000 || rate == 24000 || rate == 48000
}

/// Map an arbitrary input rate onto a rate the codec accepts.
pub fn opus_sample_rate(rate: u32) -> (r: u32)
    ensures
        r == (if is_codec_rate(rate) {
            rate
        } else {
            48000u32
        }),
{
    if rate == 8000 || rate == 12000 || rate == 16000 || rate == 24000 || rate == 48000 {
        rate
    } else {
        48000
    }
}

/// The magic of the `OpusHead` record.
pub open spec fn opus_head_magic() -> Seq<u8> {
    seq![0x4fu8, 0x70u8, 0x75u8, 0x73u8, 0x48u8, 0x65u8, 0x61u8, 0x64u8]
}

/// The magic of the `OpusTags` record.
pub open spec fn opus_tags_magic() -> Seq<u8> {
    seq![0x4fu8, 0x70u8, 0x75u8, 0x73u8, 0x54u8, 0x61u8, 0x67u8, 0x73u8]
}

/// The vendor string carried in the `OpusTags` record.
pub open spec fn vendor_string() -> Seq<u8> {
    seq![0x52u8, 0x75u8, 0x73u8, 0x74u8, 0x43u8, 0x61u8, 0x73u8, 0x74u8]
}

/// The 19-byte `OpusHead` record: magic, version one, channel count,
/// pre-skip, the original input rate, zero output gain, mapping family
/// zero.
pub open spec fn opus_head_bytes(channels: u16, sample_rate: u32) -> Seq<u8> {
    opus_head_magic() + seq![1u8, channels as u8] + u16_le(PRE_SKIP) + u32_le(sample_rate)
        + u16_le(0) + seq![0u8]
}

/// The `OpusTags` record: magic, the vendor string with its length, and
/// zero user comments.
pub open spec fn opus_tags_bytes() -> Seq<u8> {
    opus_tags_magic() + u32_le(8) + vendor_string() + u32_le(0)
}

/// Build the `OpusHead` record.
pub fn build_opus_head(channels: u16, sample_rate: u32) -> (v: Vec<u8>)
    ensures
        v@ == opus_head_bytes(channels, sample_rate),
        v@.len() == 19,
{
    let mut v: Vec<u8> = Vec::new();
    v.push(0x4fu8);
    v.push(0x70u8);
    v.push(0x75u8);
    v.push(0x73u8);
    v.push(0x48u8);
    v.push(0x65u8);
    v.push(0x61u8);
    v.push(0x64u8);
    v.push(1u8);
    v.push(channels as u8);
    let ps = u16_to_le_vec(PRE_SKIP);
    append_copy(&mut v, ps.as_slice());
    let sr = u32_to_le_vec(sample_rate);
    append_copy(&mut v, sr.as_slice());
    let gain = u16_to_le_vec(0);
    append_copy(&mut v, gain.as_slice());
    v.push(0u8);
    proof {
        assert(v@ =~= opus_head_bytes(channels, sample_rate));
    }
    v
}

/// Build the `OpusTags` record.
pub fn build_opus_tags() -> (v: Vec<u8>)
    ensures
        v@ == opus_tags_bytes(),
        v@.len() == 24,
{
    let mut v: Vec<u8> = Vec::new();
    v.push(0x4fu8);
    v.push(0x70u8);
    v.push(0x75u8);
    v.push(0x73u8);
    v.push(0x54u8);
    v.push(0x61u8);
    v.push(0x67u8);
    v.push(0x73u8);
    let vl = u32_to_le_vec(8);
    append_copy(&mut v, vl.as_slice());
    v.push(0x52u8);
    v.push(0x75u8);
    v.push(0x73u8);
    v.push(0x74u8);
    v.push(0x43u8);
    v.push(0x61u8);
    v.push(0x73u8);
    v.push(0x74u8);
    let zc = u32_to_le_vec(0);
    append_copy(&mut v, zc.as_slice());
    proof {
        assert(v@ =~= opus_tags_bytes());
    }
    v
}

/// The two header pages a new client session receives: `OpusHead` on page
/// zero, flagged beginning-of-stream, and `OpusTags` on page one, both at
/// granule zero under the session's serial.
pub open spec fn header_pages_bytes(channels: u16, sample_rate: u32, serial: u32) -> Seq<
    u8,
> {
    ogg::ogg_page_bytes(opus_head_bytes(channels, sample_rate), serial, 0, 0, true)
        + ogg::ogg_page_bytes(opus_tags_bytes(), serial, 0, 1, false)
}

/// Prepares codec frames and frames Ogg pages for an Opus stream.
#[derive(Debug)]
pub struct OpusEncoder {
    /// The capture-side input rate.
    pub sample_rate: u32,
    /// Channel count, one or two.
    pub channels: u16,
    /// Target bitrate in kilobits per second.
    pub bitrate: u32,
    /// Samples per channel in one codec frame.
    pub frame_size: usize,
    /// Carry-over between ragged input blocks.
    pub packetizer: FramePacketizer,
}

impl OpusEncoder {
    /// Well-formed: the frame size is fixed and the packetizer cuts whole
    /// interleaved frames.
    pub open spec fn wf(&self) -> bool {
        &&& self.frame_size == FRAME_SAMPLES
        &&& 1 <= self.channels <= 2
        &&& self.packetizer.frame_len == self.frame_size * self.channels
        &&& self.packetizer.wf()
    }

    /// Configure an encoder: one or two channels, and a bitrate whose
    /// bits-per-second value fits the codec's signed setting; anything
    /// else is rejected.
    pub fn new(sample_rate: u32, channels: u16, bitrate: u32) -> (r: Result<Self, CodecError>)
        ensures
            r is Ok <==> (1 <= channels <= 2 && bitrate <= 2_147_483u32),
            channels == 0 || channels > 2 ==> r == Err::<Self, CodecError>(
                CodecError::UnsupportedChannels,
            ),
            1 <= channels <= 2 && bitrate > 2_147_483u32 ==> r == Err::<Self, CodecError>(
                CodecError::UnsupportedBitrate,
            ),
            r is Ok ==> ({
                let e = r.unwrap();
                &&& e.wf()
                &&& e.sample_rate == sample_rate
                &&& e.channels == channels
                &&& e.bitrate == bitrate
                &&& e.frame_size == FRAME_SAMPLES
                &&& e.packetizer.carry@.len() == 0
            }),
    {
        if channels == 0 || channels > 2 {
            return Err(CodecError::UnsupportedChannels);
        }
        if bitrate > 2_147_483 {
            return Err(CodecError::UnsupportedBitrate);
        }
        let flen = FRAME_SAMPLES * (channels as usize);
        Ok(
            OpusEncoder {
                sample_rate,
                channels,
                bitrate,
                frame_size: FRAME_SAMPLES,
                packetizer: FramePacketizer::new(flen),
            },
        )
    }

    /// Samples per channel in one codec frame.
    pub fn frame_size(&self) -> (n: usize)
        ensures
            n == self.frame_size,
    {
        self.frame_size
    }

    /// Build one Ogg page around a compressed packet.
    pub fn create_ogg_page(
        data: &[u8],
        serial: u32,
        granule: u64,
        page_sequence: u32,
        is_bos: bool,
    ) -> (page: Vec<u8>)
        requires
            data@.len() <= ogg::MAX_PAGE_PAYLOAD,
        ensures
            page@ == ogg::ogg_page_bytes(data@, serial, granule, page_sequence, is_bos),
    {
        ogg::create_ogg_page(data, serial, granule, page_sequence, is_bos)
    }

    /// The two header pages for a new client session under its own serial.
    pub fn get_headers_with_serial(channels: u16, sample_rate: u32, serial: u32) -> (v: Vec<
        u8,
    >)
        ensures
            v@ == header_pages_bytes(channels, sample_rate, serial),
    {
        let head = build_opus_head(channels, sample_rate);
        let tags = build_opus_tags();
        let mut v = ogg::create_ogg_page(head.as_slice(), serial, 0, 0, true);
        let page1 = ogg::create_ogg_page(tags.as_slice(), serial, 0, 1, false);
        append_copy(&mut v, page1.as_slice());
        v
    }

    /// Wrap one compressed packet in a data page: never flagged
    /// beginning-of-stream.
    pub fn wrap_opus_packet(
        packet: &[u8],
        serial: u32,
        granule: u64,
        page_sequence: u32,
    ) -> (page: Vec<u8>)
        requires
            packet@.len() <= ogg::MAX_PAGE_PAYLOAD,
        ensures
            page@ == ogg::ogg_page_bytes(packet@, serial, granule, page_sequence, false),
    {
        ogg::create_ogg_page(packet, serial, granule, page_sequence, false)
    }

    /// Resample one interleaved block to the codec rate and cut it into
    /// whole codec frames, carrying any remainder to the next call.  Each
    /// returned frame goes to the codec capability as one unit.
    pub fn prepare_frames(&mut self, samples: &Vec<i16>) -> (frames: Vec<Vec<i16>>)
        requires
            old(self).wf(),
            samples@.len() as int % (old(self).channels as int) == 0,
            samples@.len() * (CODEC_RATE as int) <= u64::MAX,
            resampled_frames(
                samples@.len() as int / (old(self).channels as int),
                old(self).sample_rate as int,
                CODEC_RATE as int,
            ) * (old(self).channels as int) + old(self).packetizer.carry@.len() <= usize::MAX,
            old(self).sample_rate >= 1,
        ensures
            final(self).wf(),
            final(self).sample_rate == old(self).sample_rate,
            final(self).channels == old(self).channels,
            final(self).bitrate == old(self).bitrate,
            final(self).frame_size == old(self).frame_size,
            ({
                let flen = old(self).packetizer.frame_len as int;
                let total = old(self).packetizer.carry@ + resampled_seq(
                    samples@,
                    old(self).channels as int,
                    old(self).sample_rate as int,
                    CODEC_RATE as int,
                );
                let n = total.len() as int / flen;
                &&& frames@.len() == n
                &&& forall|k: int|
                    0 <= k < n ==> #[trigger] frames@[k]@ == total.subrange(
                        k * flen,
                        (k + 1) * flen,
                    )
                &&& forall|k: int| 0 <= k < n ==> #[trigger] frames@[k]@.len() == flen
                &&& final(self).packetizer.carry@ == total.subrange(
                    n * flen,
                    total.len() as int,
                )
            }),
    {
        let block = resample(samples, self.channels, self.sample_rate, CODEC_RATE);
        self.packetizer.push_block(&block)
    }

    /// Tear-down: flush a zero-padded final frame if samples are buffered.
    pub fn flush_frame(&mut self) -> (fr: Option<Vec<i16>>)
        requires
            old(self).wf(),
        ensures
            final(self).wf(),
            final(self).sample_rate == old(self).sample_rate,
            final(self).channels == old(self).channels,
            final(self).bitrate == old(self).bitrate,
            final(self).frame_size == old(self).frame_size,
            final(self).packetizer.carry@.len() == 0,
            old(self).packetizer.carry@.len() == 0 ==> fr is None,
            old(self).packetizer.carry@.len() > 0 ==> fr is Some && fr.unwrap()@
                == old(self).packetizer.carry@ + Seq::new(
                (old(self).packetizer.frame_len - old(self).packetizer.carry@.len()) as nat,
                |i: int| 0i16,
            ) && fr.unwrap()@.len() == old(self).packetizer.frame_len,
    {
        self.packetizer.flush()
    }
}

/// One client's Ogg logical stream: its serial and the strictly advancing
/// granule and page-sequence counters.  The two header pages take
/// sequences zero and one, so data pages start at two; per data page the
/// granule advances by the frame's sample count and the sequence by
/// exactly one.
#[derive(Clone, Copy, Debug, PartialEq, Eq, Structural)]
pub struct OggSession {
    /// The stream serial, unique to this session.
    pub serial: u32,
    /// The running sample-count timestamp.
    pub granule: u64,
    /// The next data page's sequence number.
    pub page_seq: u32,
}

impl OggSession {
    /// A fresh logical stream, ready for its first data page.
    pub fn new(serial: u32) -> (s: Self)
        ensures
            s.serial == serial,
            s.granule == 0,
            s.page_seq == 2,
    {
        OggSession { serial, granule: 0, page_seq: 2 }
    }

    /// Wrap the next compressed packet in a data page.
    pub fn next_page(&mut self, packet: &[u8], frame_samples: u64) -> (page: Vec<u8>)
        requires
            packet@.len() <= ogg::MAX_PAGE_PAYLOAD,
            old(self).granule + frame_samples <= u64::MAX,
            old(self).page_seq < u32::MAX,
        ensures
            final(self).serial == old(self).serial,
            final(self).granule == old(self).granule + frame_samples,
            final(self).page_seq == old(self).page_seq + 1,
            page@ == ogg::ogg_page_bytes(
                packet@,
                old(self).serial,
                (old(self).granule + frame_samples) as u64,
                old(self).page_seq,
                false,
            ),
    {
        self.granule = self.granule + frame_samples;
        let page = ogg::create_ogg_page(packet, self.serial, self.granule, self.page_seq, false);
        self.page_seq = self.page_seq + 1;
        page
    }
}

} // verus!
