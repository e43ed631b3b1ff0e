//! What the session asks of the device transport layer, and what it hears back.
//!
//! The session never touches the device. Each of its operations hands out a
//! [`Request`]; whoever drives the session performs it and reports the result.
use crate::format::WaveFormat;
use vstd::prelude::*;

verus! {

/// Buffer duration asked for at initialisation: one second, in units of 100 ns.
pub const BUFFER_DURATION: i64 = 10000000;

/// How long to stay away from the device when its buffer is full, in milliseconds.
pub const BACKOFF_MILLIS: u32 = 1;

/// One thing for the driver to do.
#[derive(Clone, Copy, Debug, PartialEq, Eq, Structural)]
pub enum Request {
    /// No device call is due.
    Nothing,
    /// Obtain a device client from the endpoint.
    BuildAudioClient,
    /// Ask whether `candidate` is supported in shared mode.
    IsFormatSupported { candidate: WaveFormat },
    /// Initialise the stream in shared mode, with no flags and no periodicity.
    Initialize { format: WaveFormat, buffer_duration: i64 },
    /// Ask for the capacity of the device buffer, in frames.
    GetBufferSize,
    /// Obtain the render service of the device client.
    GetService,
    /// Release the device client.
    ReleaseAudioClient,
    /// Release the render service.
    ReleaseRenderClient,
    /// Start the stream.
    Start,
    /// Stop the stream.
    Stop,
    /// Stay away for `millis` milliseconds, then read the padding again.
    Sleep { millis: u32 },
    /// Claim `frames` frames of the device buffer for writing.
    GetBuffer { frames: u32 },
    /// Commit `frames` frames, with no flags.
    ReleaseBuffer { frames: u32 },
}

/// What the device answered during the handshake.
#[derive(Clone, Copy, Debug, PartialEq, Eq, Structural)]
pub enum Reply {
    /// Answer to [`Request::BuildAudioClient`].
    AudioClient { code: i32 },
    /// Answer to [`Request::IsFormatSupported`], with the format that the
    /// device offered in place of the candidate, if it offered one.
    FormatSupport { code: i32, closest: Option<WaveFormat> },
    /// Answer to [`Request::Initialize`].
    Initialized { code: i32 },
    /// Answer to [`Request::GetBufferSize`].
    BufferSize { code: i32, frames: u32 },
    /// Answer to [`Request::GetService`].
    Service { code: i32 },
    /// A release was carried out.
    Released,
}

impl Request {
    /// How many handles this request gives back to the device.
    pub open spec fn releases(self) -> nat {
        match self {
            Request::ReleaseAudioClient => 1,
            Request::ReleaseRenderClient => 1,
            _ => 0,
        }
    }
}

} // verus!
