//! Application configuration: the values the control surfaces and the
//! persistence layer trade with the pipeline.  Loading and saving the file
//! itself happens outside the library.

use vstd::prelude::*;

verus! {

/// The server's user-facing settings.
#[derive(Clone, Copy, Debug, PartialEq, Eq, Structural)]
pub struct Config {
    /// HTTP server port.
    pub port: u16,
    /// Audio bitrate for MP3 encoding, in kilobits per second.
    pub bitrate: u32,
    /// Start streaming as soon as the application launches.
    pub auto_start: bool,
}

impl Default for Config {
    /// Port 3000, 192 kbps, streaming on at launch.
    fn default() -> (c: Self)
        ensures
            c.port == 3000,
            c.bitrate == 192,
            c.auto_start,
    {
        Config { port: 3000, bitrate: 192, auto_start: true }
    }
}

} // verus!
