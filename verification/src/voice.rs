//! A negotiated playback session.
use crate::buffer::Buffer;
use crate::device::{Request, BACKOFF_MILLIS};
use crate::format::{ChannelsCount, SampleFormat, SamplesRate, WaveFormat};
use crate::status::{classify, status_of, Fault, Status};
use vstd::layout::size_of;
use vstd::math::min;
use vstd::prelude::*;

verus! {

/// What the render path of a session is busy with.
#[derive(Clone, Copy, Debug, PartialEq, Eq, Structural)]
pub enum Lane {
    /// No claim is open.
    Free,
    /// A claim of `frames` frames, `elements` samples long, was asked of the device.
    Reserved { frames: u32, elements: usize },
    /// A lease of `frames` frames is out and not yet committed.
    Lent { frames: u32 },
}

/// The abstract state of a [`Voice`].
#[derive(Debug)]
pub struct VoiceState {
    pub channels: u16,
    pub bytes_per_frame: u16,
    pub sample_rate: u32,
    pub bits_per_sample: u16,
    pub max_frames_in_buffer: u32,
    pub playing: bool,
    pub lane: Lane,
}

impl VoiceState {
    /// What holds of every session: the counts are positive, a frame is
    /// channels times sample width bytes, and an open claim is positive and
    /// within the capacity of the device buffer.
    pub open spec fn wf(self) -> bool {
        &&& self.channels > 0
        &&& self.sample_rate > 0
        &&& self.bits_per_sample >= 8
        &&& self.bits_per_sample % 8 == 0
        &&& self.bytes_per_frame == self.channels * (self.bits_per_sample / 8)
        &&& self.max_frames_in_buffer > 0
        &&& match self.lane {
            Lane::Free => true,
            Lane::Reserved { frames, .. } => 0 < frames <= self.max_frames_in_buffer,
            Lane::Lent { frames } => 0 < frames <= self.max_frames_in_buffer,
        }
    }

    /// Frames that the caller's request amounts to: as many whole frames as
    /// fit in `max_elements` samples of `sample_size` bytes each.
    pub open spec fn wanted_frames(self, max_elements: nat, sample_size: nat) -> nat {
        (max_elements * sample_size) / (self.bytes_per_frame as nat)
    }

    /// Samples of `sample_size` bytes that `frames` frames hold.
    pub open spec fn elements_in(self, frames: nat, sample_size: nat) -> nat {
        ((frames * self.bytes_per_frame) / (sample_size as int)) as nat
    }

    /// What the session does about a request for `max_elements` samples once
    /// the device has reported `padding` queued frames with `code`.
    ///
    /// With no room in the device buffer it backs off and asks again later;
    /// with room it claims as many frames as are free, but no more than were
    /// asked for.
    pub open spec fn claim(
        self,
        max_elements: nat,
        sample_size: nat,
        code: i32,
        padding: u32,
    ) -> Result<Request, Fault> {
        let free = self.max_frames_in_buffer - padding;
        let wanted = self.wanted_frames(max_elements, sample_size);
        if !(self.lane is Free) {
            Err(Fault::LeaseOutstanding)
        } else if status_of(code) != Status::Success {
            Err(Fault::Device(code))
        } else if free < 0 {
            Err(Fault::PaddingExceedsCapacity)
        } else if free == 0 {
            Ok(Request::Sleep { millis: BACKOFF_MILLIS })
        } else if wanted == 0 {
            Err(Fault::NothingRequested)
        } else {
            Ok(Request::GetBuffer { frames: min(free, wanted as int) as u32 })
        }
    }

    /// The state in which the render path has gone over to `lane`.
    pub open spec fn with_lane(self, lane: Lane) -> VoiceState {
        VoiceState { lane, ..self }
    }

    /// The state in which the transport flag is `playing`.
    pub open spec fn with_playing(self, playing: bool) -> VoiceState {
        VoiceState { playing, ..self }
    }

    /// The state of a session right after the handshake: paused, nothing claimed.
    pub open spec fn fresh(format: WaveFormat, max_frames_in_buffer: u32) -> VoiceState {
        VoiceState {
            channels: format.channels,
            bytes_per_frame: format.block_align,
            sample_rate: format.samples_per_sec,
            bits_per_sample: format.bits_per_sample,
            max_frames_in_buffer,
            playing: false,
            lane: Lane::Free,
        }
    }
}

/// One negotiated, initialised playback stream.
#[derive(Debug)]
pub struct Voice {
    max_frames_in_buffer: u32,
    num_channels: u16,
    bytes_per_frame: u16,
    samples_per_second: u32,
    bits_per_sample: u16,
    playing: bool,
    lane: Lane,
}

impl View for Voice {
    type V = VoiceState;

    closed spec fn view(&self) -> VoiceState {
        VoiceState {
            channels: self.num_channels,
            bytes_per_frame: self.bytes_per_frame,
            sample_rate: self.samples_per_second,
            bits_per_sample: self.bits_per_sample,
            max_frames_in_buffer: self.max_frames_in_buffer,
            playing: self.playing,
            lane: self.lane,
        }
    }
}

impl Voice {
    #[verifier::type_invariant]
    spec fn inv(self) -> bool {
        self@.wf()
    }

    /// Whether a session can be built on `format` with a device buffer of
    /// `max_frames_in_buffer` frames.
    pub open spec fn accepts(format: WaveFormat, max_frames_in_buffer: u32) -> bool {
        format.playable() && max_frames_in_buffer > 0
    }

    /// Records the negotiated format and the capacity of the device buffer.
    /// The session starts paused, with no claim open.
    pub fn new(format: &WaveFormat, max_frames_in_buffer: u32) -> (voice: Option<Voice>)
        ensures
            voice is Some <==> Voice::accepts(*format, max_frames_in_buffer),
            voice matches Some(v) ==> v@ == VoiceState::fresh(*format, max_frames_in_buffer)
                && v@.wf(),
    {
        if format.is_playable() && max_frames_in_buffer > 0 {
            Some(
                Voice {
                    max_frames_in_buffer,
                    num_channels: format.channels,
                    bytes_per_frame: format.block_align,
                    samples_per_second: format.samples_per_sec,
                    bits_per_sample: format.bits_per_sample,
                    playing: false,
                    lane: Lane::Free,
                },
            )
        } else {
            None
        }
    }

    /// Number of channels of the negotiated format.
    pub fn get_channels(&self) -> (channels: ChannelsCount)
        ensures
            channels == self@.channels,
            channels > 0,
    {
        proof {
            use_type_invariant(self);
        }
        self.num_channels
    }

    /// Frames per second of the negotiated format.
    pub fn get_samples_rate(&self) -> (rate: SamplesRate)
        ensures
            rate.0 == self@.sample_rate,
            rate.0 > 0,
    {
        proof {
            use_type_invariant(self);
        }
        SamplesRate(self.samples_per_second)
    }

    /// Sample representation of the negotiated format. Only 16-bit samples
    /// are recognised; for any other depth there is no answer.
    pub fn get_samples_format(&self) -> (format: Option<SampleFormat>)
        ensures
            format == if self@.bits_per_sample == 16 {
                Some(SampleFormat::I16)
            } else {
                None::<SampleFormat>
            },
    {
        if self.bits_per_sample == 16 {
            Some(SampleFormat::I16)
        } else {
            None
        }
    }

    /// Capacity of the device buffer, in frames.
    pub fn get_max_frames_in_buffer(&self) -> (frames: u32)
        ensures
            frames == self@.max_frames_in_buffer,
            frames > 0,
    {
        proof {
            use_type_invariant(self);
        }
        self.max_frames_in_buffer
    }

    /// Length, in samples, of the region that the open claim is for, while
    /// a claim has been decided on and not yet turned into a lease.
    pub fn get_reserved_elements(&self) -> (elements: Option<usize>)
        ensures
            elements == match self@.lane {
                Lane::Reserved { elements, .. } => Some(elements),
                _ => None::<usize>,
            },
    {
        match self.lane {
            Lane::Reserved { elements, .. } => Some(elements),
            _ => None,
        }
    }

    /// Bytes per frame of the negotiated format.
    pub fn get_bytes_per_frame(&self) -> (bytes: u16)
        ensures
            bytes == self@.bytes_per_frame,
            bytes > 0,
    {
        proof {
            use_type_invariant(self);
        }
        assert(self.bytes_per_frame > 0) by (nonlinear_arith)
            requires
                self.bytes_per_frame == self.num_channels * (self.bits_per_sample / 8),
                self.num_channels > 0,
                self.bits_per_sample >= 8,
        ;
        self.bytes_per_frame
    }

    /// Bits per sample of the negotiated format.
    pub fn get_bits_per_sample(&self) -> (bits: u16)
        ensures
            bits == self@.bits_per_sample,
    {
        self.bits_per_sample
    }

    /// Says which device call `play` takes: a start, unless the stream is
    /// running already. The session itself stays as it is until the device
    /// has answered; see [`Voice::complete`].
    pub fn play(&self) -> (request: Request)
        ensures
            request == if self@.playing {
                Request::Nothing
            } else {
                Request::Start
            },
    {
        if self.playing {
            Request::Nothing
        } else {
            Request::Start
        }
    }

    /// Says which device call `pause` takes: a stop, unless the stream is
    /// paused already. The session itself stays as it is until the device
    /// has answered; see [`Voice::complete`].
    pub fn pause(&self) -> (request: Request)
        ensures
            request == if self@.playing {
                Request::Stop
            } else {
                Request::Nothing
            },
    {
        if self.playing {
            Request::Stop
        } else {
            Request::Nothing
        }
    }

    /// What the answer `code` to `request` makes of a session in state `before`.
    ///
    /// A start or stop that succeeded sets the transport flag. A commit that
    /// succeeded, of exactly the frames that are lent, frees the render path.
    /// A failed call changes nothing and is fatal.
    pub open spec fn completion(before: VoiceState, request: Request, code: i32) -> (
        VoiceState,
        Result<(), Fault>,
    ) {
        match request {
            Request::Start => if status_of(code) == Status::Success {
                (before.with_playing(true), Ok(()))
            } else {
                (before, Err(Fault::Device(code)))
            },
            Request::Stop => if status_of(code) == Status::Success {
                (before.with_playing(false), Ok(()))
            } else {
                (before, Err(Fault::Device(code)))
            },
            Request::ReleaseBuffer { frames } => if before.lane != (Lane::Lent { frames }) {
                (before, Err(Fault::UnexpectedReply))
            } else if status_of(code) == Status::Success {
                (before.with_lane(Lane::Free), Ok(()))
            } else {
                (before, Err(Fault::Device(code)))
            },
            _ => (before, Err(Fault::UnexpectedReply)),
        }
    }

    /// Takes the device's answer to a start, a stop or a commit.
    pub fn complete(&mut self, request: &Request, code: i32) -> (done: Result<(), Fault>)
        ensures
            (final(self)@, done) == Voice::completion(old(self)@, *request, code),
            final(self)@.wf(),
    {
        proof {
            use_type_invariant(&*self);
        }
        match request {
            Request::Start => match classify(code) {
                Status::Success => {
                    self.playing = true;
                    Ok(())
                },
                _ => Err(Fault::Device(code)),
            },
            Request::Stop => match classify(code) {
                Status::Success => {
                    self.playing = false;
                    Ok(())
                },
                _ => Err(Fault::Device(code)),
            },
            Request::ReleaseBuffer { frames } => {
                let lent = match self.lane {
                    Lane::Lent { frames: lent } => lent == *frames,
                    _ => false,
                };
                if !lent {
                    return Err(Fault::UnexpectedReply);
                }
                match classify(code) {
                    Status::Success => {
                        self.lane = Lane::Free;
                        Ok(())
                    },
                    _ => Err(Fault::Device(code)),
                }
            },
            _ => Err(Fault::UnexpectedReply),
        }
    }

    /// Decides on a claim of up to `max_elements` samples of type `T`, given
    /// the padding that the device has just reported with `code`.
    ///
    /// The answer is [`Request::Sleep`] while the device buffer is full, and
    /// [`Request::GetBuffer`] once it has room. The claim is positive, within
    /// the free part of the device buffer and within what was asked for; the
    /// session remembers it until [`Voice::lease`] turns it into a lease.
    /// While a claim or a lease is open no other is granted.
    pub fn append_data<T>(&mut self, max_elements: usize, code: i32, padding: u32) -> (request:
        Result<Request, Fault>)
        ensures
            request == old(self)@.claim(max_elements as nat, size_of::<T>(), code, padding),
            final(self)@ == match request {
                Ok(Request::GetBuffer { frames }) => old(self)@.with_lane(
                    Lane::Reserved {
                        frames,
                        elements: old(self)@.elements_in(frames as nat, size_of::<T>()) as usize,
                    },
                ),
                _ => old(self)@,
            },
            request matches Ok(Request::GetBuffer { frames }) ==> {
                &&& 0 < frames
                &&& frames <= old(self)@.max_frames_in_buffer - padding
                &&& frames <= old(self)@.wanted_frames(max_elements as nat, size_of::<T>())
                &&& old(self)@.elements_in(frames as nat, size_of::<T>()) <= max_elements
            },
            final(self)@.wf(),
    {
        proof {
            use_type_invariant(&*self);
        }
        match self.lane {
            Lane::Free => {},
            _ => {
                return Err(Fault::LeaseOutstanding);
            },
        }
        match classify(code) {
            Status::Success => {},
            _ => {
                return Err(Fault::Device(code));
            },
        }
        if padding > self.max_frames_in_buffer {
            return Err(Fault::PaddingExceedsCapacity);
        }
        let free: u32 = self.max_frames_in_buffer - padding;
        if free == 0 {
            return Ok(Request::Sleep { millis: BACKOFF_MILLIS });
        }
        let size: usize = core::mem::size_of::<T>();
        let frame: u128 = self.bytes_per_frame as u128;
        assert(frame > 0) by (nonlinear_arith)
            requires
                frame == self.num_channels * (self.bits_per_sample / 8),
                self.num_channels > 0,
                self.bits_per_sample >= 8,
        ;
        assert(max_elements * size <= 0xffff_ffff_ffff_ffff * 0xffff_ffff_ffff_ffff)
            by (nonlinear_arith)
            requires
                max_elements <= 0xffff_ffff_ffff_ffff,
                size <= 0xffff_ffff_ffff_ffff,
        ;
        let bytes: u128 = max_elements as u128 * size as u128;
        let wanted: u128 = bytes / frame;
        if wanted == 0 {
            return Err(Fault::NothingRequested);
        }
        let frames: u32 = if wanted < free as u128 {
            wanted as u32
        } else {
            free
        };
        assert(size > 0) by (nonlinear_arith)
            requires
                bytes == max_elements * size,
                bytes / frame > 0,
                frame > 0,
        ;
        assert(frames * frame <= 0xffff_ffff * 0xffff) by (nonlinear_arith)
            requires
                frames <= 0xffff_ffff,
                frame <= 0xffff,
        ;
        let span: u64 = frames as u64 * self.bytes_per_frame as u64;
        let elements: u64 = span / size as u64;
        assert(elements <= max_elements) by (nonlinear_arith)
            requires
                frames <= bytes / frame,
                bytes == max_elements * size,
                span == frames * frame,
                elements == span / (size as u64),
                size > 0,
                frame > 0,
        ;
        self.lane = Lane::Reserved { frames, elements: elements as usize };
        Ok(Request::GetBuffer { frames })
    }

    /// What the answer to the claim makes of a session in state `before`:
    /// the frames that are lent from then on, or why there is no lease.
    pub open spec fn grant(before: VoiceState, code: i32, region_len: nat) -> Result<u32, Fault> {
        match before.lane {
            Lane::Reserved { frames, elements } => if status_of(code) != Status::Success {
                Err(Fault::Device(code))
            } else if region_len != elements {
                Err(Fault::RegionMismatch)
            } else {
                Ok(frames)
            },
            _ => Err(Fault::UnexpectedReply),
        }
    }

    /// Turns the claim that [`Voice::append_data`] decided on into a lease,
    /// given the device's answer `code` to it and the writable region.
    ///
    /// The lease holds the region as it came and claims the frames that were
    /// decided on. Where there is no lease the session stays as it was.
    pub fn lease<T>(&mut self, code: i32, region: Vec<T>) -> (lease: Result<Buffer<T>, Fault>)
        ensures
            match lease {
                Ok(buffer) => {
                    &&& Voice::grant(old(self)@, code, region@.len()) == Ok::<u32, Fault>(
                        buffer.frames(),
                    )
                    &&& buffer@ == region@
                    &&& buffer.frames() > 0
                    &&& final(self)@ == old(self)@.with_lane(
                        Lane::Lent { frames: buffer.frames() },
                    )
                },
                Err(fault) => {
                    &&& Voice::grant(old(self)@, code, region@.len()) == Err::<u32, Fault>(fault)
                    &&& final(self)@ == old(self)@
                },
            },
            final(self)@.wf(),
    {
        proof {
            use_type_invariant(&*self);
        }
        match self.lane {
            Lane::Reserved { frames, elements } => {
                match classify(code) {
                    Status::Success => {},
                    _ => {
                        return Err(Fault::Device(code));
                    },
                }
                if region.len() != elements {
                    return Err(Fault::RegionMismatch);
                }
                self.lane = Lane::Lent { frames };
                Ok(Buffer::issue(region, frames))
            },
            _ => Err(Fault::UnexpectedReply),
        }
    }

    /// Ends the session: the render service is to be released first, the
    /// device client after it, whatever the session was doing.
    pub fn teardown(self) -> (releases: (Request, Request))
        ensures
            releases == (Request::ReleaseRenderClient, Request::ReleaseAudioClient),
    {
        (Request::ReleaseRenderClient, Request::ReleaseAudioClient)
    }

    /// Whether the stream is running.
    pub fn is_playing(&self) -> (playing: bool)
        ensures
            playing == self@.playing,
    {
        self.playing
    }
}

/// While a claim or a lease is open, a request for another is turned down,
/// whatever the device reports and however much is asked for.
pub proof fn lemma_open_claim_bars_another(
    state: VoiceState,
    max_elements: nat,
    sample_size: nat,
    code: i32,
    padding: u32,
)
    requires
        !(state.lane is Free),
    ensures
        state.claim(max_elements, sample_size, code, padding) == Err::<Request, Fault>(
            Fault::LeaseOutstanding,
        ),
{
}

/// Every claim that a session decides on is of at least one frame, of no
/// more frames than the device buffer has free, and of no more bytes than
/// the caller asked for.
pub proof fn lemma_claim_is_bounded(
    state: VoiceState,
    max_elements: nat,
    sample_size: nat,
    code: i32,
    padding: u32,
    frames: u32,
)
    requires
        state.wf(),
        state.claim(max_elements, sample_size, code, padding) == Ok::<Request, Fault>(
            Request::GetBuffer { frames },
        ),
    ensures
        0 < frames,
        frames <= state.max_frames_in_buffer - padding,
        frames <= state.wanted_frames(max_elements, sample_size),
        frames * state.bytes_per_frame <= max_elements * sample_size,
{
    let frame = state.bytes_per_frame as nat;
    let bytes = max_elements * sample_size;
    assert(frame > 0) by (nonlinear_arith)
        requires
            frame == state.channels * (state.bits_per_sample / 8),
            state.channels > 0,
            state.bits_per_sample >= 8,
    ;
    assert(frames * frame <= bytes) by (nonlinear_arith)
        requires
            frames <= bytes / frame,
            frame > 0,
    ;
}

} // verus!
