use jarvis_code::config::Config;
use jarvis_code::logger::Logger;
use jarvis_code::speech::audio::format::SoundSpec;
use jarvis_code::speech::audio::recorder::AudioRecorder;
use jarvis_code::speech::audio::recorder::CaptureSource;
use jarvis_code::speech::audio::StopTrigger;
use jarvis_code::speech::audio_format::AudioFormat;
use jarvis_code::speech::input::openai::check_format;
use jarvis_code::speech::input::openai::connection_request;
use jarvis_code::speech::input::openai::session::SessionErrorKind;
use jarvis_code::speech::input::openai::session::SessionState;
use jarvis_code::speech::input::openai::wire::audio_append_message;
use jarvis_code::speech::input::openai::wire::frame_audio_append;
use jarvis_code::speech::input::openai::wire::frame_session_update;
use jarvis_code::speech::input::openai::wire::is_encodable;
use jarvis_code::speech::input::openai::wire::InputAudioTranscription;
use jarvis_code::speech::input::openai::wire::NoiseReductionType;
use jarvis_code::speech::input::openai::wire::TranscriptionAudioFormat;
use jarvis_code::speech::input::openai::wire::TranscriptionNoiseReduction;
use jarvis_code::speech::input::openai::wire::TranscriptionSessionUpdate;
use jarvis_code::speech::input::openai::wire::TranscriptionSessionUpdateSession;
use jarvis_code::speech::input::openai::wire::TranscriptionSessionUpdateType;
use jarvis_code::speech::input::openai::wire::TranscriptionTurnDetection;
use jarvis_code::speech::input::openai::wire::TurnDetectionType;
use jarvis_code::speech::input::openai::SpeechListener as OpenAISpeechListener;
use jarvis_code::speech::input::openai::BRIDGE_CAPACITY;
use jarvis_code::speech::input::openai::REALTIME_URL;
use jarvis_code::speech::input::RecognizedSpeech;
use jarvis_code::speech::input::SpeechListener;
use jarvis_code::speech::input::Transcription;

fn desired() -> SoundSpec {
    SoundSpec::PCM {
        format: AudioFormat::S16LE,
        sample_rate_hz: 24000,
        num_channels: 1,
    }
}

fn update(
    language: Option<&str>,
    model: Option<&str>,
    prompt: Option<&str>,
) -> TranscriptionSessionUpdate {
    TranscriptionSessionUpdate::new(TranscriptionSessionUpdateSession {
        input_audio_format: TranscriptionAudioFormat::PCM16,
        input_audio_noise_reduction: TranscriptionNoiseReduction {
            type_: NoiseReductionType::NearField,
        },
        input_audio_transcription: InputAudioTranscription {
            language: language.map(String::from),
            model: model.map(String::from),
            prompt: prompt.map(String::from),
        },
        turn_detection: TranscriptionTurnDetection {
            type_: TurnDetectionType::ServerVad,
        },
    })
}

#[test]
fn audio_is_appended_as_base64() {
    assert_eq!(
        audio_append_message(b"hello"),
        "{\"type\": \"input_audio_buffer.append\",\"audio\": \"aGVsbG8=\"}"
    );
    assert_eq!(
        audio_append_message(&[0u8, 255, 16, 32]),
        "{\"type\": \"input_audio_buffer.append\",\"audio\": \"AP8QIA==\"}"
    );
    assert_eq!(
        audio_append_message(b"abc"),
        "{\"type\": \"input_audio_buffer.append\",\"audio\": \"YWJj\"}"
    );
}

#[test]
fn empty_chunk_is_appended_as_empty_audio() {
    assert_eq!(
        audio_append_message(&[]),
        "{\"type\": \"input_audio_buffer.append\",\"audio\": \"\"}"
    );
}

#[test]
fn append_message_is_framed_around_the_encoded_audio() {
    assert_eq!(
        frame_audio_append("QUJD"),
        "{\"type\": \"input_audio_buffer.append\",\"audio\": \"QUJD\"}"
    );
}

#[test]
fn chunks_of_any_real_size_can_be_encoded() {
    assert!(is_encodable(&[]));
    assert!(is_encodable(&[0u8; 4096]));
}

#[test]
fn session_update_without_hints_is_written_with_nulls() {
    assert_eq!(
        update(None, None, None).to_json(),
        "{\"session\":{\"input_audio_format\":\"pcm16\",\"input_audio_noise_reduction\":{\"type\":\"near_field\"},\"input_audio_transcription\":{\"language\":null,\"model\":null,\"prompt\":null},\"turn_detection\":{\"type\":\"server_vad\"}},\"type\":\"transcription_session.update\"}"
    );
}

#[test]
fn session_update_quotes_its_hints() {
    let json = update(
        Some("en"),
        Some("gpt-4o-transcribe"),
        Some("say \"hi\"\n\\now"),
    )
    .to_json();
    assert_eq!(
        json,
        "{\"session\":{\"input_audio_format\":\"pcm16\",\"input_audio_noise_reduction\":{\"type\":\"near_field\"},\"input_audio_transcription\":{\"language\":\"en\",\"model\":\"gpt-4o-transcribe\",\"prompt\":\"say \\\"hi\\\"\\n\\\\now\"},\"turn_detection\":{\"type\":\"server_vad\"}},\"type\":\"transcription_session.update\"}"
    );
    let value: serde_json::Value = serde_json::from_str(&json).unwrap();
    assert_eq!(
        value["session"]["input_audio_transcription"]["prompt"],
        "say \"hi\"\n\\now"
    );
    assert_eq!(value["type"], "transcription_session.update");
}

#[test]
fn session_update_is_framed_from_its_parts() {
    assert_eq!(
        frame_session_update("F", "N", "L", "M", "P", "T", "K"),
        "{\"session\":{\"input_audio_format\":\"F\",\"input_audio_noise_reduction\":{\"type\":\"N\"},\"input_audio_transcription\":{\"language\":L,\"model\":M,\"prompt\":P},\"turn_detection\":{\"type\":\"T\"}},\"type\":\"K\"}"
    );
}

#[test]
fn values_of_the_session_update_are_written_by_name() {
    assert_eq!(
        TranscriptionSessionUpdateType::Update.serialize(),
        "transcription_session.update"
    );
    assert_eq!(TranscriptionAudioFormat::PCM16.serialize(), "pcm16");
    assert_eq!(TranscriptionAudioFormat::G711ulaw.serialize(), "g711_ulaw");
    assert_eq!(TranscriptionAudioFormat::G711alaw.serialize(), "g711_alaw");
    assert_eq!(NoiseReductionType::NearField.serialize(), "near_field");
    assert_eq!(NoiseReductionType::FarField.serialize(), "far_field");
    assert_eq!(TurnDetectionType::ServerVad.serialize(), "server_vad");
    assert_eq!(TurnDetectionType::SemanticVad.serialize(), "semantic_vad");
}

#[test]
fn only_the_desired_format_is_announced_as_pcm16() {
    assert_eq!(
        TranscriptionAudioFormat::of(desired()),
        Some(TranscriptionAudioFormat::PCM16)
    );
    for other in [
        SoundSpec::PCM {
            format: AudioFormat::S16BE,
            sample_rate_hz: 24000,
            num_channels: 1,
        },
        SoundSpec::PCM {
            format: AudioFormat::S16LE,
            sample_rate_hz: 16000,
            num_channels: 1,
        },
        SoundSpec::PCM {
            format: AudioFormat::S16LE,
            sample_rate_hz: 24000,
            num_channels: 2,
        },
    ] {
        assert_eq!(TranscriptionAudioFormat::of(other), None);
    }
}

#[test]
fn connection_request_carries_the_key_as_bearer() {
    let request = connection_request("sk-test").unwrap();
    assert_eq!(
        request.url,
        "wss://api.openai.com/v1/realtime?intent=transcription"
    );
    assert_eq!(request.url, REALTIME_URL);
    assert_eq!(request.authorization, "Bearer sk-test");
    assert_eq!(request.beta, "realtime=v1");
}

#[test]
fn connection_request_takes_what_a_header_takes() {
    assert!(connection_request("").is_ok());
    assert!(connection_request("with\ttab and space").is_ok());
    assert!(connection_request("schl\u{fc}ssel").is_ok());
}

#[test]
fn connection_request_refuses_a_key_that_no_header_can_carry() {
    for key in ["line\nbreak", "nul\u{0}", "delete\u{7f}", "return\r"] {
        let e = match connection_request(key) {
            Ok(_) => panic!("the key cannot be sent"),
            Err(e) => e,
        };
        assert_eq!(e.kind, SessionErrorKind::InvalidApiKey);
        assert_eq!(e.message, "Could not create header from OpenAI API key");
    }
}

#[test]
fn matching_and_unknown_formats_pass_the_check() {
    assert!(check_format(desired(), Some(desired())).is_ok());
    assert!(check_format(desired(), None).is_ok());
}

#[test]
fn mismatch_of_formats_is_reported_with_both_formats() {
    let actual = SoundSpec::PCM {
        format: AudioFormat::F32LE,
        sample_rate_hz: 48000,
        num_channels: 2,
    };
    let e = check_format(desired(), Some(actual)).unwrap_err();
    assert_eq!(e.kind, SessionErrorKind::FormatMismatch);
    assert_eq!(
        e.message,
        "Could not record audio in the required format Audio format [s16le, 24000 Hz, 1 channels]. Your device instead records in format Audio format [f32le, 48000 Hz, 2 channels]"
    );
}

#[test]
fn every_differing_field_is_a_mismatch() {
    for actual in [
        SoundSpec::PCM {
            format: AudioFormat::U16LE,
            sample_rate_hz: 24000,
            num_channels: 1,
        },
        SoundSpec::PCM {
            format: AudioFormat::S16LE,
            sample_rate_hz: 24001,
            num_channels: 1,
        },
        SoundSpec::PCM {
            format: AudioFormat::S16LE,
            sample_rate_hz: 24000,
            num_channels: 0,
        },
    ] {
        assert!(check_format(desired(), Some(actual)).is_err());
    }
}

fn config(key: &str) -> Config {
    Config {
        openai_key: String::from(key),
        recording_file: None,
    }
}

#[test]
fn listener_asks_for_the_format_that_the_service_takes() {
    assert_eq!(OpenAISpeechListener::desired_format(), desired());
    let recorder = AudioRecorder::new(Logger::new(), None);
    let mut listener = OpenAISpeechListener::new(&config("sk-test"), recorder);
    let (source, stop) = listener.listen_to_input();
    match source {
        CaptureSource::Live { request, .. } => {
            assert_eq!(request.format, Some(AudioFormat::S16LE));
            assert_eq!(request.sample_rate_hz, Some(24000));
            assert_eq!(request.num_channels, Some(1));
        }
        CaptureSource::Replay { .. } => panic!("the live device is captured"),
    }
    assert!(!stop.has_stopped());
}

#[test]
fn listener_opens_a_session_for_a_matching_capture() {
    let recorder = AudioRecorder::new(Logger::new(), None);
    let listener = OpenAISpeechListener::new(&config("sk-test"), recorder);
    let (request, session) = listener
        .open_session(Some(desired()), StopTrigger::new())
        .unwrap();
    assert_eq!(request.authorization, "Bearer sk-test");
    assert_eq!(session.state(), SessionState::Configuring);
}

#[test]
fn listener_opens_a_session_for_a_replay_without_format() {
    let recorder = AudioRecorder::new(Logger::new(), Some("recording.pcm"));
    let mut listener = SpeechListener::new(&config("sk-test"), recorder);
    let (source, stop) = listener.listen_to_input();
    assert!(matches!(source, CaptureSource::Replay { .. }));
    assert!(listener.open_session(None, stop).is_ok());
}

#[test]
fn listener_gives_no_session_to_a_capture_in_another_format() {
    let recorder = AudioRecorder::new(Logger::new(), None);
    let listener = SpeechListener::new(&config("sk-test"), recorder);
    let actual = SoundSpec::PCM {
        format: AudioFormat::S16LE,
        sample_rate_hz: 48000,
        num_channels: 1,
    };
    let e = match listener.open_session(Some(actual), StopTrigger::new()) {
        Ok(_) => panic!("the formats differ"),
        Err(e) => e,
    };
    assert_eq!(e.kind, SessionErrorKind::FormatMismatch);
    assert!(e.message.contains("48000 Hz"));
}

#[test]
fn listener_gives_no_session_for_a_key_that_cannot_be_sent() {
    let recorder = AudioRecorder::new(Logger::new(), None);
    let listener = SpeechListener::new(&config("bad\nkey"), recorder);
    let e = match listener.open_session(Some(desired()), StopTrigger::new()) {
        Ok(_) => panic!("the key cannot be sent"),
        Err(e) => e,
    };
    assert_eq!(e.kind, SessionErrorKind::InvalidApiKey);
}

#[test]
fn bridge_holds_1024_chunks() {
    assert_eq!(BRIDGE_CAPACITY, 1024);
}

#[test]
fn transcription_gives_its_text() {
    assert_eq!(Transcription::Empty.into_text(), "");
    assert_eq!(
        Transcription::Text {
            text: String::from("hello world")
        }
        .into_text(),
        "hello world"
    );
    assert!(Transcription::Empty.recognized().is_none());
    let speech: RecognizedSpeech = Transcription::Text {
        text: String::from("hello world"),
    }
    .recognized()
    .unwrap();
    assert_eq!(speech.text, "hello world");
}

#[test]
fn listener_configures_its_session_for_the_desired_format() {
    let update = OpenAISpeechListener::session_update();
    assert_eq!(
        update.type_,
        TranscriptionSessionUpdateType::Update
    );
    assert_eq!(
        update.session.input_audio_format,
        TranscriptionAudioFormat::PCM16
    );
    assert_eq!(
        update.session.input_audio_noise_reduction.type_,
        NoiseReductionType::NearField
    );
    assert_eq!(update.session.input_audio_transcription.language, None);
    assert_eq!(update.session.input_audio_transcription.model, None);
    assert_eq!(update.session.input_audio_transcription.prompt, None);
    assert_eq!(
        update.session.turn_detection.type_,
        TurnDetectionType::ServerVad
    );
    assert_eq!(
        update.to_json(),
        "{\"session\":{\"input_audio_format\":\"pcm16\",\"input_audio_noise_reduction\":{\"type\":\"near_field\"},\"input_audio_transcription\":{\"language\":null,\"model\":null,\"prompt\":null},\"turn_detection\":{\"type\":\"server_vad\"}},\"type\":\"transcription_session.update\"}"
    );
}
