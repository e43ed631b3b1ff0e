//! The handshake that turns a requested format into a session.
//!
//! The handshake is a state machine. [`Handshake::begin`] hands out the first
//! request; each answer of the device goes to [`Handshake::step`], which
//! hands out the next one. When nothing more is asked,
//! [`Handshake::finish`] gives the session or says why there is none. On
//! every path that fails, the machine asks for the release of the device
//! client that it had acquired before it stops.
use crate::device::{Reply, Request, BUFFER_DURATION};
use crate::format::{Format, WaveFormat};
use crate::status::{classify, failure_of, status_of, CreationError, Fault, Status, S_FALSE};
use crate::voice::{Voice, VoiceState};
use vstd::prelude::*;

verus! {

/// Where a handshake stands. Each state but the last two waits for the
/// answer to one request.
#[derive(Debug, PartialEq, Eq, Structural)]
pub enum Handshake {
    /// Waiting for the device client. Nothing is held.
    Connecting { candidate: WaveFormat },
    /// Waiting for the verdict on the candidate format.
    Negotiating { candidate: WaveFormat },
    /// Waiting for the stream to be initialised with the resolved format.
    Initializing { resolved: WaveFormat },
    /// Waiting for the capacity of the device buffer.
    Sizing { resolved: WaveFormat },
    /// Waiting for the render service.
    Binding { resolved: WaveFormat, max_frames: u32 },
    /// Waiting for the device client to be released after a failure.
    Releasing { error: CreationError },
    /// Over: device client and render service are held, the session can be taken.
    Ready { resolved: WaveFormat, max_frames: u32 },
    /// Over: nothing is held.
    Failed { error: CreationError },
}

/// The format that a successful format query settles on: what the device
/// offered in place of the candidate, or the candidate itself.
pub open spec fn negotiated(candidate: WaveFormat, closest: Option<WaveFormat>) -> WaveFormat {
    match closest {
        Some(format) => format,
        None => candidate,
    }
}

/// The state and request with which a handshake for `format` starts.
pub open spec fn start_of(format: Format) -> (Handshake, Request) {
    if format.encodable() {
        (Handshake::Connecting { candidate: format.wire() }, Request::BuildAudioClient)
    } else {
        (Handshake::Failed { error: CreationError::FormatNotSupported }, Request::Nothing)
    }
}

/// How a handshake that holds the device client stops on `error`.
pub open spec fn abandon(error: CreationError) -> (Handshake, Request) {
    (Handshake::Releasing { error }, Request::ReleaseAudioClient)
}

impl Handshake {
    /// Whether the handshake is over.
    pub open spec fn is_over(self) -> bool {
        self is Ready || self is Failed
    }

    /// Handles that the handshake has acquired and not yet asked to release.
    pub open spec fn owed(self) -> nat {
        match self {
            Handshake::Connecting { .. } => 0,
            Handshake::Negotiating { .. } => 1,
            Handshake::Initializing { .. } => 1,
            Handshake::Sizing { .. } => 1,
            Handshake::Binding { .. } => 1,
            Handshake::Releasing { .. } => 0,
            Handshake::Ready { .. } => 2,
            Handshake::Failed { .. } => 0,
        }
    }

    /// Handles that the device hands over with `reply`, given the state in
    /// which the reply arrives: the device client, and later the render service.
    pub open spec fn gains(self, reply: Reply) -> nat {
        match (self, reply) {
            (Handshake::Connecting { .. }, Reply::AudioClient { code }) => if status_of(code)
                == Status::Success {
                1
            } else {
                0
            },
            (Handshake::Binding { .. }, Reply::Service { code }) => if status_of(code)
                == Status::Success {
                1
            } else {
                0
            },
            _ => 0,
        }
    }

    /// The transition relation: the state that follows `self` on `reply`, and
    /// the request that goes out with it.
    ///
    /// A reply that the state was not waiting for ends the handshake with
    /// [`Fault::UnexpectedReply`]. A state that is over stays as it is.
    pub open spec fn next(self, reply: Reply) -> (Handshake, Request) {
        match self {
            Handshake::Connecting { candidate } => match reply {
                Reply::AudioClient { code } => if status_of(code) == Status::Success {
                    (Handshake::Negotiating { candidate }, Request::IsFormatSupported { candidate })
                } else {
                    (Handshake::Failed { error: failure_of(code) }, Request::Nothing)
                },
                _ => (
                    Handshake::Failed { error: CreationError::Fatal(Fault::UnexpectedReply) },
                    Request::Nothing,
                ),
            },
            Handshake::Negotiating { candidate } => match reply {
                Reply::FormatSupport { code, closest } => if code == S_FALSE {
                    abandon(CreationError::FormatNotSupported)
                } else if status_of(code) != Status::Success {
                    abandon(failure_of(code))
                } else if !negotiated(candidate, closest).playable() {
                    abandon(CreationError::Fatal(Fault::InvalidFormat))
                } else {
                    (
                        Handshake::Initializing { resolved: negotiated(candidate, closest) },
                        Request::Initialize {
                            format: negotiated(candidate, closest),
                            buffer_duration: BUFFER_DURATION,
                        },
                    )
                },
                _ => abandon(CreationError::Fatal(Fault::UnexpectedReply)),
            },
            Handshake::Initializing { resolved } => match reply {
                Reply::Initialized { code } => if status_of(code) == Status::Success {
                    (Handshake::Sizing { resolved }, Request::GetBufferSize)
                } else {
                    abandon(failure_of(code))
                },
                _ => abandon(CreationError::Fatal(Fault::UnexpectedReply)),
            },
            Handshake::Sizing { resolved } => match reply {
                Reply::BufferSize { code, frames } => if status_of(code) != Status::Success {
                    abandon(failure_of(code))
                } else if frames == 0 {
                    abandon(CreationError::Fatal(Fault::InvalidFormat))
                } else {
                    (Handshake::Binding { resolved, max_frames: frames }, Request::GetService)
                },
                _ => abandon(CreationError::Fatal(Fault::UnexpectedReply)),
            },
            Handshake::Binding { resolved, max_frames } => match reply {
                Reply::Service { code } => if status_of(code) == Status::Success {
                    (Handshake::Ready { resolved, max_frames }, Request::Nothing)
                } else {
                    abandon(failure_of(code))
                },
                _ => abandon(CreationError::Fatal(Fault::UnexpectedReply)),
            },
            Handshake::Releasing { error } => (Handshake::Failed { error }, Request::Nothing),
            Handshake::Ready { .. } => (self, Request::Nothing),
            Handshake::Failed { .. } => (self, Request::Nothing),
        }
    }

    /// Starts the handshake for a requested format. A request whose wire
    /// format cannot be written down is declined before the device is asked.
    pub fn begin(format: &Format) -> (started: (Handshake, Request))
        ensures
            started == start_of(*format),
    {
        match WaveFormat::pcm(format) {
            Some(candidate) => (Handshake::Connecting { candidate }, Request::BuildAudioClient),
            None => (
                Handshake::Failed { error: CreationError::FormatNotSupported },
                Request::Nothing,
            ),
        }
    }

    /// Takes the device's answer to the request in flight and says what to do next.
    pub fn step(self, reply: Reply) -> (moved: (Handshake, Request))
        ensures
            moved == self.next(reply),
    {
        match self {
            Handshake::Connecting { candidate } => match reply {
                Reply::AudioClient { code } => match classify(code) {
                    Status::Success => (
                        Handshake::Negotiating { candidate },
                        Request::IsFormatSupported { candidate },
                    ),
                    _ => (Handshake::Failed { error: failure(code) }, Request::Nothing),
                },
                _ => (
                    Handshake::Failed { error: CreationError::Fatal(Fault::UnexpectedReply) },
                    Request::Nothing,
                ),
            },
            Handshake::Negotiating { candidate } => match reply {
                Reply::FormatSupport { code, closest } => {
                    if code == S_FALSE {
                        return give_up(CreationError::FormatNotSupported);
                    }
                    match classify(code) {
                        Status::Success => {},
                        _ => {
                            return give_up(failure(code));
                        },
                    }
                    let resolved = match closest {
                        Some(format) => format,
                        None => candidate,
                    };
                    if !resolved.is_playable() {
                        return give_up(CreationError::Fatal(Fault::InvalidFormat));
                    }
                    (
                        Handshake::Initializing { resolved },
                        Request::Initialize { format: resolved, buffer_duration: BUFFER_DURATION },
                    )
                },
                _ => give_up(CreationError::Fatal(Fault::UnexpectedReply)),
            },
            Handshake::Initializing { resolved } => match reply {
                Reply::Initialized { code } => match classify(code) {
                    Status::Success => (Handshake::Sizing { resolved }, Request::GetBufferSize),
                    _ => give_up(failure(code)),
                },
                _ => give_up(CreationError::Fatal(Fault::UnexpectedReply)),
            },
            Handshake::Sizing { resolved } => match reply {
                Reply::BufferSize { code, frames } => match classify(code) {
                    Status::Success => if frames == 0 {
                        give_up(CreationError::Fatal(Fault::InvalidFormat))
                    } else {
                        (Handshake::Binding { resolved, max_frames: frames }, Request::GetService)
                    },
                    _ => give_up(failure(code)),
                },
                _ => give_up(CreationError::Fatal(Fault::UnexpectedReply)),
            },
            Handshake::Binding { resolved, max_frames } => match reply {
                Reply::Service { code } => match classify(code) {
                    Status::Success => (
                        Handshake::Ready { resolved, max_frames },
                        Request::Nothing,
                    ),
                    _ => give_up(failure(code)),
                },
                _ => give_up(CreationError::Fatal(Fault::UnexpectedReply)),
            },
            Handshake::Releasing { error } => (Handshake::Failed { error }, Request::Nothing),
            Handshake::Ready { .. } => (self, Request::Nothing),
            Handshake::Failed { .. } => (self, Request::Nothing),
        }
    }

    /// What a handshake that is over has to show: the session, built on the
    /// resolved format, or the reason why there is none.
    pub open spec fn result(self) -> Result<VoiceState, CreationError> {
        match self {
            Handshake::Ready { resolved, max_frames } => if Voice::accepts(resolved, max_frames) {
                Ok(VoiceState::fresh(resolved, max_frames))
            } else {
                Err(CreationError::Fatal(Fault::InvalidFormat))
            },
            Handshake::Failed { error } => Err(error),
            _ => Err(CreationError::Fatal(Fault::Unfinished)),
        }
    }

    /// Ends the handshake.
    pub fn finish(self) -> (outcome: Result<Voice, CreationError>)
        ensures
            match outcome {
                Ok(voice) => self.result() == Ok::<VoiceState, CreationError>(voice@) && voice@.wf(),
                Err(error) => self.result() == Err::<VoiceState, CreationError>(error),
            },
    {
        match self {
            Handshake::Ready { resolved, max_frames } => match Voice::new(&resolved, max_frames) {
                Some(voice) => Ok(voice),
                None => Err(CreationError::Fatal(Fault::InvalidFormat)),
            },
            Handshake::Failed { error } => Err(error),
            _ => Err(CreationError::Fatal(Fault::Unfinished)),
        }
    }

    /// Tests whether the handshake is over.
    pub fn is_done(&self) -> (done: bool)
        ensures
            done == self.is_over(),
    {
        match self {
            Handshake::Ready { .. } => true,
            Handshake::Failed { .. } => true,
            _ => false,
        }
    }
}

impl Handshake {
    /// The state that the replies, taken in order, lead to.
    pub open spec fn run(self, replies: Seq<Reply>) -> Handshake
        decreases replies.len(),
    {
        if replies.len() == 0 {
            self
        } else {
            self.next(replies[0]).0.run(replies.skip(1))
        }
    }

    /// Handles that the device hands over in the course of the replies.
    pub open spec fn acquired(self, replies: Seq<Reply>) -> nat
        decreases replies.len(),
    {
        if replies.len() == 0 {
            0
        } else {
            self.gains(replies[0]) + self.next(replies[0]).0.acquired(replies.skip(1))
        }
    }

    /// Handles whose release is asked for in the course of the replies.
    pub open spec fn released(self, replies: Seq<Reply>) -> nat
        decreases replies.len(),
    {
        if replies.len() == 0 {
            0
        } else {
            self.next(replies[0]).1.releases() + self.next(replies[0]).0.released(
                replies.skip(1),
            )
        }
    }
}

/// Whether the replies carry a handshake for `format` through all five
/// device calls, settling on `resolved` and a buffer of `max_frames` frames.
pub open spec fn carries_through(
    format: Format,
    replies: Seq<Reply>,
    resolved: WaveFormat,
    max_frames: u32,
) -> bool {
    &&& format.encodable()
    &&& replies.len() >= 5
    &&& replies[0] matches Reply::AudioClient { code } && status_of(code) == Status::Success
    &&& replies[1] matches Reply::FormatSupport { code, closest } && code != S_FALSE && status_of(
        code,
    ) == Status::Success && resolved == negotiated(format.wire(), closest)
    &&& resolved.playable()
    &&& replies[2] matches Reply::Initialized { code } && status_of(code) == Status::Success
    &&& replies[3] matches Reply::BufferSize { code, frames } && status_of(code)
        == Status::Success && frames == max_frames
    &&& max_frames > 0
    &&& replies[4] matches Reply::Service { code } && status_of(code) == Status::Success
}

/// A handshake that is over stays where it is, whatever arrives.
pub proof fn lemma_over_stays(state: Handshake, replies: Seq<Reply>)
    requires
        state.is_over(),
    ensures
        state.run(replies) == state,
    decreases replies.len(),
{
    if replies.len() > 0 {
        lemma_over_stays(state, replies.skip(1));
    }
}

/// A handshake that has failed never comes to a session.
pub proof fn lemma_failure_is_final(state: Handshake, replies: Seq<Reply>)
    requires
        state is Releasing || state is Failed,
    ensures
        !(state.run(replies) is Ready),
    decreases replies.len(),
{
    if replies.len() > 0 {
        lemma_failure_is_final(state.next(replies[0]).0, replies.skip(1));
    }
}

/// Each step keeps the books: what is owed after it, plus what it asked to
/// release, is what was owed before it plus what the device handed over.
pub proof fn lemma_step_balances(state: Handshake, reply: Reply)
    ensures
        state.next(reply).0.owed() + state.next(reply).1.releases() == state.owed() + state.gains(
            reply,
        ),
{
}

/// Over any sequence of replies, every handle that the device hands over is
/// either still owed at the end or was asked to be released, once.
pub proof fn lemma_run_balances(state: Handshake, replies: Seq<Reply>)
    ensures
        state.run(replies).owed() + state.released(replies) == state.owed() + state.acquired(
            replies,
        ),
    decreases replies.len(),
{
    if replies.len() > 0 {
        lemma_step_balances(state, replies[0]);
        lemma_run_balances(state.next(replies[0]).0, replies.skip(1));
    }
}

/// However a handshake for `format` fails, by then it has asked for the
/// release of every handle that it acquired, and of no other.
pub proof fn lemma_failure_releases_all(format: Format, replies: Seq<Reply>)
    requires
        start_of(format).0.run(replies) is Failed,
    ensures
        start_of(format).0.released(replies) == start_of(format).0.acquired(replies),
{
    lemma_run_balances(start_of(format).0, replies);
}

/// At no point of a handshake for `format` have more handles been released
/// than were acquired.
pub proof fn lemma_never_releases_unheld(format: Format, replies: Seq<Reply>)
    ensures
        start_of(format).0.released(replies) <= start_of(format).0.acquired(replies),
{
    lemma_run_balances(start_of(format).0, replies);
}

/// A handshake for `format` comes to a session exactly when the device
/// answers all five calls with success; the session is then built on the
/// format that the device settled on (what it offered in place of the
/// candidate, else the candidate) and on the capacity that it reported.
pub proof fn lemma_ready_iff_carried_through(
    format: Format,
    replies: Seq<Reply>,
    resolved: WaveFormat,
    max_frames: u32,
)
    ensures
        start_of(format).0.run(replies) == (Handshake::Ready { resolved, max_frames })
            <==> carries_through(format, replies, resolved, max_frames),
{
    let s0 = start_of(format).0;
    if !format.encodable() {
        lemma_failure_is_final(s0, replies);
    } else if replies.len() > 0 {
        let s1 = s0.next(replies[0]).0;
        let t1 = replies.skip(1);
        assert(s0.run(replies) == s1.run(t1));
        if !(s1 is Negotiating) {
            lemma_failure_is_final(s1, t1);
        } else if t1.len() > 0 {
            let s2 = s1.next(t1[0]).0;
            let t2 = t1.skip(1);
            assert(s1.run(t1) == s2.run(t2));
            assert(t1[0] == replies[1]);
            if !(s2 is Initializing) {
                lemma_failure_is_final(s2, t2);
            } else if t2.len() > 0 {
                let s3 = s2.next(t2[0]).0;
                let t3 = t2.skip(1);
                assert(s2.run(t2) == s3.run(t3));
                assert(t2[0] == replies[2]);
                if !(s3 is Sizing) {
                    lemma_failure_is_final(s3, t3);
                } else if t3.len() > 0 {
                    let s4 = s3.next(t3[0]).0;
                    let t4 = t3.skip(1);
                    assert(s3.run(t3) == s4.run(t4));
                    assert(t3[0] == replies[3]);
                    if !(s4 is Binding) {
                        lemma_failure_is_final(s4, t4);
                    } else if t4.len() > 0 {
                        let s5 = s4.next(t4[0]).0;
                        let t5 = t4.skip(1);
                        assert(s4.run(t4) == s5.run(t5));
                        assert(t4[0] == replies[4]);
                        if s5 is Ready {
                            lemma_over_stays(s5, t5);
                        } else {
                            lemma_failure_is_final(s5, t5);
                        }
                    }
                }
            }
        }
    }
}

/// A handshake for `format` that came to its end gives a session only on
/// the format that the device settled on; the session then reports the
/// channels, rate and bit depth of that format, not of the request.
pub proof fn lemma_session_reports_resolved(
    format: Format,
    replies: Seq<Reply>,
    state: VoiceState,
)
    requires
        start_of(format).0.run(replies).result() == Ok::<VoiceState, CreationError>(state),
    ensures
        replies.len() >= 5,
        replies[1] matches Reply::FormatSupport { closest, .. } && ({
            let resolved = negotiated(format.wire(), closest);
            &&& state.channels == resolved.channels
            &&& state.sample_rate == resolved.samples_per_sec
            &&& state.bits_per_sample == resolved.bits_per_sample
            &&& state.bytes_per_frame == resolved.block_align
        }),
        replies[3] matches Reply::BufferSize { frames, .. } && state.max_frames_in_buffer
            == frames,
        !state.playing,
        state.wf(),
{
    let end = start_of(format).0.run(replies);
    match end {
        Handshake::Ready { resolved, max_frames } => {
            lemma_ready_iff_carried_through(format, replies, resolved, max_frames);
        },
        _ => {},
    }
}

/// Once a handshake for `format` is ready, it can be finished: the checks on
/// the way there are those that a session needs.
pub proof fn lemma_ready_gives_session(format: Format, replies: Seq<Reply>)
    requires
        start_of(format).0.run(replies) is Ready,
    ensures
        start_of(format).0.run(replies).result() is Ok,
{
    let end = start_of(format).0.run(replies);
    match end {
        Handshake::Ready { resolved, max_frames } => {
            lemma_ready_iff_carried_through(format, replies, resolved, max_frames);
        },
        _ => {},
    }
}

/// The construction failure behind a failed result code.
fn failure(code: i32) -> (error: CreationError)
    ensures
        error == failure_of(code),
{
    match classify(code) {
        Status::DeviceInvalidated => CreationError::DeviceNotAvailable,
        _ => CreationError::Fatal(Fault::Device(code)),
    }
}

/// Stops a handshake that holds the device client.
fn give_up(error: CreationError) -> (moved: (Handshake, Request))
    ensures
        moved == abandon(error),
{
    (Handshake::Releasing { error }, Request::ReleaseAudioClient)
}

} // verus!
