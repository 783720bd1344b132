use jarvis_code::logger::Logger;
use jarvis_code::speech::audio::format::SoundSpec;
use jarvis_code::speech::audio::recorder::pipewire::relay_chunk;
use jarvis_code::speech::audio::recorder::pipewire::stream_request;
use jarvis_code::speech::audio::recorder::pipewire::CaptureState;
use jarvis_code::speech::audio::recorder::pipewire::FormatParam;
use jarvis_code::speech::audio::recorder::pipewire::ForwardAction;
use jarvis_code::speech::audio::recorder::pipewire::LiveCapture;
use jarvis_code::speech::audio::recorder::pipewire::NegotiationError;
use jarvis_code::speech::audio::recorder::pipewire::PipewireAudioRecorder;
use jarvis_code::speech::audio::recorder::pipewire::RawAudioInfo;
use jarvis_code::speech::audio::recorder::pipewire::RelayPoll;
use jarvis_code::speech::audio::recorder::pipewire::StreamRequest;
use jarvis_code::speech::audio::recorder::pipewire::POLL_INTERVAL_MS;
use jarvis_code::speech::audio::recorder::AudioRecorder;
use jarvis_code::speech::audio::recorder::CaptureSource;
use jarvis_code::speech::audio::StopTrigger;
use jarvis_code::speech::audio_format::AudioFormat;

fn desired() -> SoundSpec {
    SoundSpec::PCM {
        format: AudioFormat::S16LE,
        sample_rate_hz: 24000,
        num_channels: 1,
    }
}

fn format_param(format: Option<AudioFormat>, rate: u32, channels: u32) -> FormatParam {
    FormatParam {
        is_format: true,
        is_raw_audio: true,
        info: Some(RawAudioInfo {
            format,
            sample_rate_hz: rate,
            num_channels: channels,
        }),
    }
}

fn streaming() -> LiveCapture {
    let mut capture = LiveCapture::new();
    assert!(capture.open(Some(desired())).is_some());
    let published = capture.on_param_changed(Some(format_param(Some(AudioFormat::S16LE), 24000, 1)));
    assert_eq!(published, Ok(Some(desired())));
    capture
}

#[test]
fn stream_request_takes_the_wish_or_leaves_it_to_the_device() {
    assert_eq!(
        stream_request(Some(desired())),
        StreamRequest {
            format: Some(AudioFormat::S16LE),
            sample_rate_hz: Some(24000),
            num_channels: Some(1),
        }
    );
    assert_eq!(
        stream_request(None),
        StreamRequest {
            format: None,
            sample_rate_hz: None,
            num_channels: None,
        }
    );
}

#[test]
fn capture_goes_from_idle_to_connecting_to_streaming_to_stopped() {
    let stop = StopTrigger::new();
    let mut capture = LiveCapture::new();
    assert_eq!(capture.current_state(), CaptureState::Idle);
    assert_eq!(capture.negotiated_format(), None);

    let request = capture.open(Some(desired()));
    assert_eq!(request, Some(stream_request(Some(desired()))));
    assert_eq!(capture.current_state(), CaptureState::Connecting);

    let published = capture.on_param_changed(Some(format_param(Some(AudioFormat::S16LE), 24000, 1)));
    assert_eq!(published, Ok(Some(desired())));
    assert_eq!(capture.current_state(), CaptureState::Streaming);
    assert_eq!(capture.negotiated_format(), Some(desired()));

    assert!(capture.go_on(stop.has_stopped()));
    stop.clone().stop();
    assert!(!capture.go_on(stop.has_stopped()));
    assert_eq!(capture.current_state(), CaptureState::Stopped);
    assert_eq!(capture.negotiated_format(), Some(desired()));
}

#[test]
fn opening_twice_asks_for_nothing_more() {
    let mut capture = LiveCapture::new();
    assert!(capture.open(None).is_some());
    assert_eq!(capture.open(Some(desired())), None);
    assert_eq!(capture.current_state(), CaptureState::Connecting);
}

#[test]
fn negotiated_format_is_published_exactly_once() {
    let mut capture = streaming();
    let later = capture.on_param_changed(Some(format_param(Some(AudioFormat::F32LE), 48000, 2)));
    assert_eq!(later, Ok(None));
    assert_eq!(capture.negotiated_format(), Some(desired()));
    assert_eq!(capture.current_state(), CaptureState::Streaming);
}

#[test]
fn device_may_settle_on_another_format_than_was_asked_for() {
    let mut capture = LiveCapture::new();
    capture.open(Some(desired()));
    let published = capture.on_param_changed(Some(format_param(Some(AudioFormat::F32LE), 48000, 2)));
    let settled = SoundSpec::PCM {
        format: AudioFormat::F32LE,
        sample_rate_hz: 48000,
        num_channels: 2,
    };
    assert_eq!(published, Ok(Some(settled)));
    assert_ne!(settled, desired());
}

#[test]
fn parameters_that_are_no_raw_audio_format_are_passed_over() {
    let mut capture = LiveCapture::new();
    capture.open(None);
    assert_eq!(capture.on_param_changed(None), Ok(None));
    let mut other = format_param(Some(AudioFormat::S16LE), 24000, 1);
    other.is_format = false;
    assert_eq!(capture.on_param_changed(Some(other)), Ok(None));
    let mut video = format_param(Some(AudioFormat::S16LE), 24000, 1);
    video.is_raw_audio = false;
    assert_eq!(capture.on_param_changed(Some(video)), Ok(None));
    assert_eq!(capture.current_state(), CaptureState::Connecting);
    assert_eq!(capture.negotiated_format(), None);
}

#[test]
fn a_format_before_the_capture_has_begun_is_passed_over() {
    let mut capture = LiveCapture::new();
    let param = format_param(Some(AudioFormat::S16LE), 24000, 1);
    assert_eq!(capture.on_param_changed(Some(param)), Ok(None));
    assert_eq!(capture.current_state(), CaptureState::Idle);
}

#[test]
fn unreadable_and_unsupported_formats_are_reported() {
    let mut capture = LiveCapture::new();
    capture.open(None);
    let unreadable = FormatParam {
        is_format: true,
        is_raw_audio: true,
        info: None,
    };
    assert_eq!(
        capture.on_param_changed(Some(unreadable)),
        Err(NegotiationError::Unreadable)
    );
    assert_eq!(
        capture.on_param_changed(Some(format_param(None, 24000, 1))),
        Err(NegotiationError::UnsupportedFormat)
    );
    assert_eq!(capture.current_state(), CaptureState::Connecting);
}

#[test]
fn forwarding_hands_on_chunks_waits_and_exits() {
    let mut capture = streaming();
    match capture.on_poll(RelayPoll::Chunk(vec![1, 2, 3])) {
        ForwardAction::Forward(chunk) => assert_eq!(chunk, vec![1, 2, 3]),
        _ => panic!("a chunk is forwarded"),
    }
    assert!(capture.on_delivery(true));
    assert!(matches!(capture.on_poll(RelayPoll::Empty), ForwardAction::Wait));
    assert_eq!(capture.current_state(), CaptureState::Streaming);
    assert!(matches!(
        capture.on_poll(RelayPoll::Disconnected),
        ForwardAction::Exit
    ));
    assert_eq!(capture.current_state(), CaptureState::Stopped);
    assert!(matches!(
        capture.on_poll(RelayPoll::Chunk(vec![4])),
        ForwardAction::Exit
    ));
    assert!(!capture.go_on(false));
}

#[test]
fn forwarding_ends_when_the_receiver_is_gone() {
    let mut capture = streaming();
    assert!(!capture.on_delivery(false));
    assert_eq!(capture.current_state(), CaptureState::Stopped);
    assert!(!capture.on_delivery(true));
}

#[test]
fn a_capture_that_does_not_stream_forwards_nothing() {
    let mut capture = LiveCapture::new();
    assert!(!capture.go_on(false));
    assert!(matches!(
        capture.on_poll(RelayPoll::Chunk(vec![1])),
        ForwardAction::Exit
    ));
    assert_eq!(capture.current_state(), CaptureState::Idle);
}

#[test]
fn poll_interval_is_one_millisecond() {
    assert_eq!(POLL_INTERVAL_MS, 1);
}

#[test]
fn active_region_is_cut_out_of_the_buffer() {
    let data = [10u8, 11, 12, 13, 14, 15];
    assert_eq!(relay_chunk(Some(&data[..]), 2, 3), Some(vec![12, 13, 14]));
    assert_eq!(relay_chunk(Some(&data[..]), 0, 6), Some(data.to_vec()));
    assert_eq!(relay_chunk(Some(&data[..]), 6, 0), Some(vec![]));
    assert_eq!(relay_chunk(Some(&data[..]), 0, 0), Some(vec![]));
}

#[test]
fn region_outside_the_buffer_is_dropped() {
    let data = [10u8, 11, 12, 13, 14, 15];
    assert_eq!(relay_chunk(Some(&data[..]), 4, 3), None);
    assert_eq!(relay_chunk(Some(&data[..]), 7, 0), None);
    assert_eq!(relay_chunk(Some(&data[..]), u32::MAX, u32::MAX), None);
    assert_eq!(relay_chunk(None, 0, 1), None);
    assert_eq!(relay_chunk(None, 0, 0), Some(vec![]));
}

#[test]
fn live_recorder_begins_a_capture_that_connects() {
    let mut recorder = PipewireAudioRecorder::new(Logger::new());
    let (source, stop) = recorder.listen(Some(desired()));
    match source {
        CaptureSource::Live { capture, request } => {
            assert_eq!(capture.current_state(), CaptureState::Connecting);
            assert_eq!(request, stream_request(Some(desired())));
        }
        CaptureSource::Replay { .. } => panic!("the live device is captured"),
    }
    assert!(!stop.has_stopped());
}

#[test]
fn trigger_of_a_live_capture_stops_its_forwarding() {
    let mut recorder = PipewireAudioRecorder::new(Logger::new());
    let (source, stop) = recorder.listen(None);
    let mut capture = match source {
        CaptureSource::Live { capture, .. } => capture,
        CaptureSource::Replay { .. } => panic!("the live device is captured"),
    };
    capture
        .on_param_changed(Some(format_param(Some(AudioFormat::S16LE), 24000, 1)))
        .unwrap();
    assert!(capture.go_on(stop.has_stopped()));
    stop.clone().stop();
    assert!(!capture.go_on(stop.has_stopped()));
}

#[test]
fn recorder_replays_a_file_where_one_is_configured() {
    let mut recorder = AudioRecorder::new(Logger::new(), Some("recording.pcm"));
    assert!(recorder.replays_file());
    let (source, _stop) = recorder.listen(Some(desired()));
    match source {
        CaptureSource::Replay { path, block_size } => {
            assert_eq!(path, "recording.pcm");
            assert_eq!(block_size, 4096);
        }
        CaptureSource::Live { .. } => panic!("a file is replayed"),
    }
    assert!(recorder.replays_file());
}

#[test]
fn recorder_captures_the_live_device_where_no_file_is_configured() {
    let mut recorder = AudioRecorder::new(Logger::new(), None);
    assert!(!recorder.replays_file());
    let (source, _stop) = recorder.listen(None);
    match source {
        CaptureSource::Live { capture, request } => {
            assert_eq!(capture.current_state(), CaptureState::Connecting);
            assert_eq!(request, stream_request(None));
        }
        CaptureSource::Replay { .. } => panic!("the live device is captured"),
    }
}

#[test]
fn streaming_capture_goes_on_until_the_trigger_is_found_raised() {
    let mut capture = streaming();
    assert!(capture.go_on(false));
    assert!(capture.go_on(false));
    assert_eq!(capture.current_state(), CaptureState::Streaming);
    assert!(!capture.go_on(true));
    assert_eq!(capture.current_state(), CaptureState::Stopped);
    assert!(!capture.go_on(false));
    assert_eq!(capture.current_state(), CaptureState::Stopped);
}

#[test]
fn capture_that_does_not_stream_does_not_go_on_and_stays_as_it_is() {
    let mut idle = LiveCapture::new();
    assert!(!idle.go_on(false));
    assert!(!idle.go_on(true));
    assert_eq!(idle.current_state(), CaptureState::Idle);
    let mut connecting = LiveCapture::new();
    connecting.open(None);
    assert!(!connecting.go_on(true));
    assert_eq!(connecting.current_state(), CaptureState::Connecting);
}
