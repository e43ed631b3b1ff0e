//! A playback session on an audio endpoint, without the endpoint.
//!
//! The crate holds the decisions of a low-latency output stream: the
//! handshake that negotiates a format and sets up the device buffer, the
//! transport controls, and the claim, fill and commit cycle on the device
//! buffer. It performs no device call itself. Every operation answers with a
//! [`device::Request`]; the caller carries it out and reports the result
//! code, and the session says what follows.
pub mod buffer;
pub mod device;
pub mod format;
pub mod handshake;
pub mod status;
pub mod voice;

pub use crate::buffer::Buffer;
pub use crate::device::{Reply, Request};
pub use crate::format::{ChannelsCount, Format, SampleFormat, SamplesRate, WaveFormat};
pub use crate::handshake::Handshake;
pub use crate::status::{CreationError, Fault, Status};
pub use crate::voice::Voice;
