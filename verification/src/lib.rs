//! Core logic of a live system-audio streaming server: PCM resampling and
//! packetization, Ogg/Opus container framing with checksums, WebSocket
//! framing and handshake computation, and the multi-client broadcast model.

pub mod capture;
pub mod config;
pub mod control;
pub mod crc;
pub mod encoder;
pub mod hub;
pub mod ogg;
pub mod opus;
pub mod packetize;
pub mod resample;
pub mod serial;
pub mod server;
pub mod util;
pub mod ws;
