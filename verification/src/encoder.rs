//! MP3 encoder settings.  The encoder itself is an external capability
//! with an unsafe output buffer and floating-point input, so only its
//! configuration rule lives here: the closed set of bitrates it accepts.

use vstd::prelude::*;

verus! {

/// The bitrates the MP3 encoder accepts, in kilobits per second.
pub open spec fn is_mp3_bitrate(kbps: u32) -> bool {
    kbps == 64 || kbps == 96 || kbps == 128 || kbps == 160 || kbps == 192 || kbps == 256
        || kbps == 320
}

/// Map a requested bitrate onto the encoder's closed set: a supported
/// value is kept, anything else falls back to 192 kbps.
pub fn mp3_bitrate_setting(kbps: u32) -> (r: u32)
    ensures
        r == (if is_mp3_bitrate(kbps) {
            kbps
        } else {
            192u32
        }),
        is_mp3_bitrate(r),
{
    if kbps == 64 || kbps == 96 || kbps == 128 || kbps == 160 || kbps == 192 || kbps == 256
        || kbps == 320 {
        kbps
    } else {
        192
    }
}

} // verus!
