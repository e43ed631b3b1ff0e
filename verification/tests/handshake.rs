use wasapi_voice::device::{Reply, Request, BUFFER_DURATION};
use wasapi_voice::format::{Format, SampleFormat, SamplesRate, WaveFormat};
use wasapi_voice::handshake::Handshake;
use wasapi_voice::status::{CreationError, Fault, AUDCLNT_E_DEVICE_INVALIDATED, S_FALSE};
use wasapi_voice::voice::Voice;

const E_FAIL: i32 = -2147467259;

/// A device that answers as it was told to, and keeps count of what it
/// handed out and got back.
struct MockDevice {
    client_code: i32,
    support_code: i32,
    closest: Option<WaveFormat>,
    initialize_code: i32,
    size_code: i32,
    frames: u32,
    service_code: i32,
    clients_out: i32,
    services_out: i32,
    clients_acquired: u32,
    clients_released: u32,
    calls: Vec<Request>,
}

impl MockDevice {
    fn accepting(frames: u32) -> MockDevice {
        MockDevice {
            client_code: 0,
            support_code: 0,
            closest: None,
            initialize_code: 0,
            size_code: 0,
            frames,
            service_code: 0,
            clients_out: 0,
            services_out: 0,
            clients_acquired: 0,
            clients_released: 0,
            calls: Vec::new(),
        }
    }

    fn perform(&mut self, request: Request) -> Reply {
        self.calls.push(request);
        match request {
            Request::BuildAudioClient => {
                if self.client_code >= 0 {
                    self.clients_out += 1;
                    self.clients_acquired += 1;
                }
                Reply::AudioClient { code: self.client_code }
            }
            Request::IsFormatSupported { .. } => {
                Reply::FormatSupport { code: self.support_code, closest: self.closest }
            }
            Request::Initialize { .. } => Reply::Initialized { code: self.initialize_code },
            Request::GetBufferSize => {
                Reply::BufferSize { code: self.size_code, frames: self.frames }
            }
            Request::GetService => {
                if self.service_code >= 0 {
                    self.services_out += 1;
                }
                Reply::Service { code: self.service_code }
            }
            Request::ReleaseAudioClient => {
                self.clients_out -= 1;
                self.clients_released += 1;
                Reply::Released
            }
            Request::ReleaseRenderClient => {
                self.services_out -= 1;
                Reply::Released
            }
            other => panic!("the handshake asked for {:?}", other),
        }
    }
}

/// Drives a handshake against the mock until nothing more is asked.
fn open(device: &mut MockDevice, format: &Format) -> Result<Voice, CreationError> {
    let (mut state, mut request) = Handshake::begin(format);
    while request != Request::Nothing {
        let reply = device.perform(request);
        let (next, asked) = state.step(reply);
        state = next;
        request = asked;
    }
    assert!(state.is_done());
    state.finish()
}

fn cd_stereo() -> Format {
    Format { channels: 2, samples_rate: SamplesRate(44100), data_type: SampleFormat::I16 }
}

fn wire(format: &Format) -> WaveFormat {
    WaveFormat::pcm(format).unwrap()
}

#[test]
fn accepted_format_is_reported_verbatim() {
    let mut device = MockDevice::accepting(4410);
    let voice = open(&mut device, &cd_stereo()).unwrap();
    assert_eq!(voice.get_channels(), 2);
    assert_eq!(voice.get_samples_rate(), SamplesRate(44100));
    assert_eq!(voice.get_bits_per_sample(), 16);
    assert_eq!(voice.get_samples_format(), Some(SampleFormat::I16));
    assert_eq!(voice.get_max_frames_in_buffer(), 4410);
    assert!(!voice.is_playing());
    assert_eq!((device.clients_out, device.services_out), (1, 1));
}

#[test]
fn handshake_makes_the_five_calls_in_order() {
    let mut device = MockDevice::accepting(4410);
    open(&mut device, &cd_stereo()).unwrap();
    let candidate = wire(&cd_stereo());
    assert_eq!(
        device.calls,
        vec![
            Request::BuildAudioClient,
            Request::IsFormatSupported { candidate },
            Request::Initialize { format: candidate, buffer_duration: 10_000_000 },
            Request::GetBufferSize,
            Request::GetService,
        ]
    );
    assert_eq!(BUFFER_DURATION, 10_000_000);
}

#[test]
fn substituted_rate_wins_over_the_requested_one() {
    let mut device = MockDevice::accepting(4800);
    let substitute = WaveFormat {
        samples_per_sec: 48000,
        avg_bytes_per_sec: 192000,
        ..wire(&cd_stereo())
    };
    device.closest = Some(substitute);
    let voice = open(&mut device, &cd_stereo()).unwrap();
    assert_eq!(voice.get_samples_rate(), SamplesRate(48000));
    assert_eq!(voice.get_channels(), 2);
    assert_eq!(voice.get_max_frames_in_buffer(), 4800);
    // the stream is initialised with the substitute, not with the request
    assert_eq!(
        device.calls[2],
        Request::Initialize { format: substitute, buffer_duration: 10_000_000 }
    );
}

#[test]
fn substituted_depth_and_channels_are_reported() {
    let mut device = MockDevice::accepting(960);
    device.closest = Some(WaveFormat {
        format_tag: 3,
        channels: 6,
        samples_per_sec: 96000,
        avg_bytes_per_sec: 2304000,
        block_align: 24,
        bits_per_sample: 32,
        extra_size: 0,
    });
    let voice = open(&mut device, &cd_stereo()).unwrap();
    assert_eq!(voice.get_channels(), 6);
    assert_eq!(voice.get_samples_rate(), SamplesRate(96000));
    assert_eq!(voice.get_bits_per_sample(), 32);
    assert_eq!(voice.get_samples_format(), None);
}

#[test]
fn unsupported_format_fails_and_holds_nothing() {
    let mut device = MockDevice::accepting(4410);
    device.support_code = S_FALSE;
    let outcome = open(&mut device, &cd_stereo());
    assert_eq!(outcome.err(), Some(CreationError::FormatNotSupported));
    assert_eq!((device.clients_out, device.services_out), (0, 0));
    assert_eq!((device.clients_acquired, device.clients_released), (1, 1));
    assert_eq!(device.calls.last(), Some(&Request::ReleaseAudioClient));
}

#[test]
fn declined_format_fails_even_with_a_substitute_on_offer() {
    let mut device = MockDevice::accepting(4410);
    device.support_code = S_FALSE;
    device.closest = Some(wire(&cd_stereo()));
    let outcome = open(&mut device, &cd_stereo());
    assert_eq!(outcome.err(), Some(CreationError::FormatNotSupported));
    assert_eq!((device.clients_out, device.services_out), (0, 0));
}

#[test]
fn invalidated_endpoint_at_the_first_call_acquires_nothing() {
    let mut device = MockDevice::accepting(4410);
    device.client_code = AUDCLNT_E_DEVICE_INVALIDATED;
    let outcome = open(&mut device, &cd_stereo());
    assert_eq!(outcome.err(), Some(CreationError::DeviceNotAvailable));
    assert_eq!(device.calls, vec![Request::BuildAudioClient]);
    assert_eq!((device.clients_acquired, device.clients_released), (0, 0));
}

#[test]
fn other_failure_at_the_first_call_is_fatal() {
    let mut device = MockDevice::accepting(4410);
    device.client_code = E_FAIL;
    let outcome = open(&mut device, &cd_stereo());
    assert_eq!(outcome.err(), Some(CreationError::Fatal(Fault::Device(E_FAIL))));
    assert_eq!(device.calls, vec![Request::BuildAudioClient]);
}

#[test]
fn invalidated_endpoint_at_any_later_call_releases_the_client() {
    for step in 0..4 {
        let mut device = MockDevice::accepting(4410);
        match step {
            0 => device.support_code = AUDCLNT_E_DEVICE_INVALIDATED,
            1 => device.initialize_code = AUDCLNT_E_DEVICE_INVALIDATED,
            2 => device.size_code = AUDCLNT_E_DEVICE_INVALIDATED,
            _ => device.service_code = AUDCLNT_E_DEVICE_INVALIDATED,
        }
        let outcome = open(&mut device, &cd_stereo());
        assert_eq!(outcome.err(), Some(CreationError::DeviceNotAvailable));
        assert_eq!((device.clients_out, device.services_out), (0, 0));
        assert_eq!((device.clients_acquired, device.clients_released), (1, 1));
        assert_eq!(device.calls.len(), step + 3);
        assert_eq!(device.calls.last(), Some(&Request::ReleaseAudioClient));
    }
}

#[test]
fn other_failure_at_any_later_call_is_fatal_and_releases_the_client() {
    for step in 0..4 {
        let mut device = MockDevice::accepting(4410);
        match step {
            0 => device.support_code = E_FAIL,
            1 => device.initialize_code = E_FAIL,
            2 => device.size_code = E_FAIL,
            _ => device.service_code = E_FAIL,
        }
        let outcome = open(&mut device, &cd_stereo());
        assert_eq!(outcome.err(), Some(CreationError::Fatal(Fault::Device(E_FAIL))));
        assert_eq!((device.clients_out, device.services_out), (0, 0));
        assert_eq!((device.clients_acquired, device.clients_released), (1, 1));
        assert_eq!(device.calls.last(), Some(&Request::ReleaseAudioClient));
    }
}

#[test]
fn empty_device_buffer_is_fatal_and_releases_the_client() {
    let mut device = MockDevice::accepting(0);
    let outcome = open(&mut device, &cd_stereo());
    assert_eq!(outcome.err(), Some(CreationError::Fatal(Fault::InvalidFormat)));
    assert_eq!((device.clients_out, device.services_out), (0, 0));
    assert!(!device.calls.contains(&Request::GetService));
}

#[test]
fn unplayable_substitute_is_fatal_before_the_stream_is_initialised() {
    let mut device = MockDevice::accepting(4410);
    device.closest = Some(WaveFormat { block_align: 0, ..wire(&cd_stereo()) });
    let outcome = open(&mut device, &cd_stereo());
    assert_eq!(outcome.err(), Some(CreationError::Fatal(Fault::InvalidFormat)));
    assert_eq!((device.clients_out, device.services_out), (0, 0));
    assert_eq!(device.calls.len(), 3);
    assert_eq!(device.calls.last(), Some(&Request::ReleaseAudioClient));
}

#[test]
fn accepted_request_for_no_channels_is_fatal() {
    let mut device = MockDevice::accepting(4410);
    let silent =
        Format { channels: 0, samples_rate: SamplesRate(44100), data_type: SampleFormat::I16 };
    let outcome = open(&mut device, &silent);
    assert_eq!(outcome.err(), Some(CreationError::Fatal(Fault::InvalidFormat)));
    assert_eq!((device.clients_out, device.services_out), (0, 0));
}

#[test]
fn request_without_a_wire_format_is_declined_unasked() {
    let mut device = MockDevice::accepting(4410);
    let vast =
        Format { channels: 40000, samples_rate: SamplesRate(44100), data_type: SampleFormat::F32 };
    let (state, request) = Handshake::begin(&vast);
    assert_eq!(request, Request::Nothing);
    assert_eq!(state, Handshake::Failed { error: CreationError::FormatNotSupported });
    let outcome = open(&mut device, &vast);
    assert_eq!(outcome.err(), Some(CreationError::FormatNotSupported));
    assert!(device.calls.is_empty());
}

#[test]
fn reply_out_of_turn_is_fatal() {
    let (state, _) = Handshake::begin(&cd_stereo());
    let (state, request) = state.step(Reply::Initialized { code: 0 });
    assert_eq!(request, Request::Nothing);
    assert_eq!(state, Handshake::Failed { error: CreationError::Fatal(Fault::UnexpectedReply) });

    let (state, _) = Handshake::begin(&cd_stereo());
    let (state, _) = state.step(Reply::AudioClient { code: 0 });
    let (state, request) = state.step(Reply::Service { code: 0 });
    assert_eq!(request, Request::ReleaseAudioClient);
    assert_eq!(
        state,
        Handshake::Releasing { error: CreationError::Fatal(Fault::UnexpectedReply) }
    );
    let (state, request) = state.step(Reply::Released);
    assert_eq!(request, Request::Nothing);
    assert_eq!(state.finish().err(), Some(CreationError::Fatal(Fault::UnexpectedReply)));
}

#[test]
fn states_walk_through_the_five_stages() {
    let candidate = wire(&cd_stereo());
    let (state, request) = Handshake::begin(&cd_stereo());
    assert_eq!(state, Handshake::Connecting { candidate });
    assert_eq!(request, Request::BuildAudioClient);
    assert!(!state.is_done());
    let (state, _) = state.step(Reply::AudioClient { code: 0 });
    assert_eq!(state, Handshake::Negotiating { candidate });
    let (state, _) = state.step(Reply::FormatSupport { code: 0, closest: None });
    assert_eq!(state, Handshake::Initializing { resolved: candidate });
    let (state, _) = state.step(Reply::Initialized { code: 0 });
    assert_eq!(state, Handshake::Sizing { resolved: candidate });
    let (state, _) = state.step(Reply::BufferSize { code: 0, frames: 512 });
    assert_eq!(state, Handshake::Binding { resolved: candidate, max_frames: 512 });
    let (state, request) = state.step(Reply::Service { code: 0 });
    assert_eq!(state, Handshake::Ready { resolved: candidate, max_frames: 512 });
    assert_eq!(request, Request::Nothing);
    assert!(state.is_done());
}

#[test]
fn finished_handshake_stays_where_it_is() {
    let candidate = wire(&cd_stereo());
    let ready = Handshake::Ready { resolved: candidate, max_frames: 512 };
    let (state, request) = ready.step(Reply::Released);
    assert_eq!(request, Request::Nothing);
    assert_eq!(state, Handshake::Ready { resolved: candidate, max_frames: 512 });
    let failed = Handshake::Failed { error: CreationError::DeviceNotAvailable };
    let (state, request) = failed.step(Reply::AudioClient { code: 0 });
    assert_eq!(request, Request::Nothing);
    assert_eq!(state, Handshake::Failed { error: CreationError::DeviceNotAvailable });
}

#[test]
fn unfinished_handshake_gives_no_session() {
    let (state, _) = Handshake::begin(&cd_stereo());
    assert_eq!(state.finish().err(), Some(CreationError::Fatal(Fault::Unfinished)));
    let (state, _) = Handshake::begin(&cd_stereo());
    let (state, _) = state.step(Reply::AudioClient { code: 0 });
    assert!(!state.is_done());
    assert_eq!(state.finish().err(), Some(CreationError::Fatal(Fault::Unfinished)));
}

#[test]
fn handmade_ready_state_is_checked_again() {
    let broken = WaveFormat { channels: 0, ..wire(&cd_stereo()) };
    let state = Handshake::Ready { resolved: broken, max_frames: 512 };
    assert_eq!(state.finish().err(), Some(CreationError::Fatal(Fault::InvalidFormat)));
    let state = Handshake::Ready { resolved: wire(&cd_stereo()), max_frames: 0 };
    assert_eq!(state.finish().err(), Some(CreationError::Fatal(Fault::InvalidFormat)));
}

#[test]
fn positive_result_codes_other_than_declined_count_as_success() {
    let mut device = MockDevice::accepting(4410);
    device.client_code = 2;
    device.support_code = 3;
    device.initialize_code = 1;
    device.size_code = 1;
    device.service_code = 7;
    let voice = open(&mut device, &cd_stereo()).unwrap();
    assert_eq!(voice.get_max_frames_in_buffer(), 4410);
}
