//! Using the Open AI realtime transcription API.

pub mod decode;
pub mod events;
pub mod session;
pub mod wire;

use vstd::prelude::*;
use tokio_tungstenite::tungstenite::http::HeaderValue;
use crate::config::Config;
use crate::speech::audio::StopTrigger;
use crate::speech::audio::format::SoundSpec;
use crate::speech::audio::recorder::AudioRecorder;
use crate::speech::audio::recorder::ListenResult;
use crate::speech::audio::recorder::listens_as;
use crate::speech::audio::recorder::same_backend;
use crate::speech::audio_format::AudioFormat;
use crate::speech::input::openai::session::SessionError;
use crate::speech::input::openai::session::SessionErrorKind;
use crate::speech::input::openai::session::SessionModel;
use crate::speech::input::openai::session::SessionState;
use crate::speech::input::openai::session::TranscriptionSession;
use crate::speech::input::openai::session::failure;
use crate::speech::input::openai::wire::InputAudioTranscription;
use crate::speech::input::openai::wire::NoiseReductionType;
use crate::speech::input::openai::wire::TranscriptionAudioFormat;
use crate::speech::input::openai::wire::TranscriptionNoiseReduction;
use crate::speech::input::openai::wire::TranscriptionSessionUpdate;
use crate::speech::input::openai::wire::TranscriptionSessionUpdateSession;
use crate::speech::input::openai::wire::TranscriptionSessionUpdateType;
use crate::speech::input::openai::wire::TranscriptionTurnDetection;
use crate::speech::input::openai::wire::TurnDetectionType;

verus! {

/// Where the transcription service listens.
pub const REALTIME_URL: &'static str = "wss://api.openai.com/v1/realtime?intent=transcription";

/// The header that carries the API key.
pub const AUTHORIZATION_HEADER: &'static str = "Authorization";

/// The header that opts in to the realtime API, and its value.
pub const BETA_HEADER: &'static str = "OpenAI-Beta";

pub const BETA_VALUE: &'static str = "realtime=v1";

/// The number of chunks that may wait between the capture and the
/// session. A full buffer holds the capture back until the session has
/// taken a chunk.
pub const BRIDGE_CAPACITY: usize = 1024;

/// What to open the connection with.
pub struct ConnectRequest {
    pub url: String,
    /// The value of the `Authorization` header.
    pub authorization: String,
    /// The value of the `OpenAI-Beta` header.
    pub beta: String,
}

/// The value of the `Authorization` header for an API key.
pub open spec fn bearer(api_key: Seq<char>) -> Seq<char> {
    "Bearer "@ + api_key
}

/// Whether a character may stand in the value of a header: the tabulator,
/// and every character from the space on but the delete character.
pub open spec fn is_header_char(c: char) -> bool {
    (c as u32 >= 32 && c as u32 != 127) || c as u32 == 9
}

/// Whether a text can be the value of a header.
pub open spec fn is_header_text(text: Seq<char>) -> bool {
    forall|i: int| 0 <= i < text.len() ==> is_header_char(#[trigger] text[i])
}

/// Calls `HeaderValue::from_str` of the `http` crate and says whether it
/// accepted the text. The crate accepts a text if each of its bytes is the
/// tabulator, or is at least 32 and not 127; the bytes of a character
/// beyond ASCII are all above 127.
#[verifier::external_body]
fn header_value_accepts(value: &str) -> (ok: bool)
    ensures
        ok == is_header_text(value@),
{
    HeaderValue::from_str(value).is_ok()
}

/// The message of the failure for an API key that no header can carry.
pub open spec fn invalid_key_text() -> Seq<char> {
    "Could not create header from OpenAI API key"@
}

/// The request that opens the connection to the transcription service
/// with the given API key. It fails if and only if the key cannot be sent
/// in a header.
pub fn connection_request(api_key: &str) -> (res: Result<ConnectRequest, SessionError>)
    ensures
        match res {
            Ok(request) => is_header_text(bearer(api_key@)) && request.url@ == REALTIME_URL@
                && request.authorization@ == bearer(api_key@) && request.beta@ == BETA_VALUE@,
            Err(e) => !is_header_text(bearer(api_key@)) && e@ == failure(
                SessionErrorKind::InvalidApiKey,
                invalid_key_text(),
            ),
        },
{
    let mut authorization = String::from_str("Bearer ");
    authorization.append(api_key);
    if header_value_accepts(authorization.as_str()) {
        Ok(
            ConnectRequest {
                url: String::from_str(REALTIME_URL),
                authorization,
                beta: String::from_str(BETA_VALUE),
            },
        )
    } else {
        Err(
            SessionError {
                kind: SessionErrorKind::InvalidApiKey,
                message: String::from_str("Could not create header from OpenAI API key"),
            },
        )
    }
}

/// The format that the transcription service takes: 16-bit PCM at a 24kHz
/// sample rate, single channel, little-endian.
pub open spec fn desired_format_of() -> SoundSpec {
    SoundSpec::PCM { format: AudioFormat::S16LE, sample_rate_hz: 24000, num_channels: 1 }
}

/// The message of the failure for a device that records in another format
/// than the one asked for.
pub open spec fn format_mismatch_text(desired: SoundSpec, actual: SoundSpec) -> Seq<char> {
    "Could not record audio in the required format "@ + desired.text()
        + ". Your device instead records in format "@ + actual.text()
}

/// Whether a backend that settled on `actual` delivers something else
/// than the format `desired`. A backend that names no format, as the
/// replay of a file does, claims nothing and so contradicts nothing.
pub open spec fn is_mismatch(desired: SoundSpec, actual: Option<SoundSpec>) -> bool {
    actual matches Some(format) && format != desired
}

/// Holds the format that a backend settled on against the one that was
/// asked for. It fails if and only if the two differ.
pub fn check_format(desired: SoundSpec, actual: Option<SoundSpec>) -> (res: Result<
    (),
    SessionError,
>)
    ensures
        match res {
            Ok(()) => !is_mismatch(desired, actual),
            Err(e) => is_mismatch(desired, actual) && e@ == failure(
                SessionErrorKind::FormatMismatch,
                format_mismatch_text(desired, actual->Some_0),
            ),
        },
{
    match actual {
        None => Ok(()),
        Some(format) => {
            if format == desired {
                Ok(())
            } else {
                let mut message = String::from_str("Could not record audio in the required format ");
                message.append(desired.to_string().as_str());
                message.append(". Your device instead records in format ");
                message.append(format.to_string().as_str());
                Err(SessionError { kind: SessionErrorKind::FormatMismatch, message })
            }
        },
    }
}

/// Whether `res` is what opening a session gives for the API key
/// `api_key` and a capture that settled on the format `negotiated`.
///
/// A format that differs from the desired one fails with the mismatch. Else
/// a key that no header can carry fails. Else the result is the request
/// to connect with, and a session that waits for its acknowledgement.
pub open spec fn is_opening(
    api_key: Seq<char>,
    negotiated: Option<SoundSpec>,
    res: Result<(ConnectRequest, TranscriptionSession), SessionError>,
) -> bool {
    if is_mismatch(desired_format_of(), negotiated) {
        res matches Err(e) && e@ == failure(
            SessionErrorKind::FormatMismatch,
            format_mismatch_text(desired_format_of(), negotiated->Some_0),
        )
    } else if !is_header_text(bearer(api_key)) {
        res matches Err(e) && e@ == failure(SessionErrorKind::InvalidApiKey, invalid_key_text())
    } else {
        &&& res matches Ok((request, session))
        &&& request.url@ == REALTIME_URL@
        &&& request.authorization@ == bearer(api_key)
        &&& request.beta@ == BETA_VALUE@
        &&& session@ == (SessionModel { state: SessionState::Configuring, running: None })
    }
}

pub struct SpeechListener {
    api_key: String,
    audio_recorder: AudioRecorder,
}

impl SpeechListener {
    pub closed spec fn api_key(&self) -> Seq<char> {
        self.api_key@
    }

    pub closed spec fn audio_recorder(&self) -> AudioRecorder {
        self.audio_recorder
    }

    #[must_use]
    pub fn new(config: &Config, audio_recorder: AudioRecorder) -> (res: Self)
        ensures
            res.api_key() == config.openai_key@,
            res.audio_recorder() == audio_recorder,
    {
        Self { api_key: config.openai_key.clone(), audio_recorder }
    }

    /// The format that the listener asks the recorder for.
    pub fn desired_format() -> (res: SoundSpec)
        ensures
            res == desired_format_of(),
    {
        SoundSpec::PCM { format: AudioFormat::S16LE, sample_rate_hz: 24000, num_channels: 1 }
    }

    /// Whether `update` is the session update that the listener configures
    /// its session with: raw audio in the desired format, which the service
    /// calls `pcm16`, noise reduction for a near microphone, turns detected
    /// by the server from silence, and no hint for the transcription.
    pub open spec fn is_session_update(update: TranscriptionSessionUpdate) -> bool {
        &&& update.type_ == TranscriptionSessionUpdateType::Update
        &&& Some(update.session.input_audio_format) == TranscriptionAudioFormat::encoding_of(
            desired_format_of(),
        )
        &&& update.session.input_audio_format == TranscriptionAudioFormat::PCM16
        &&& update.session.input_audio_noise_reduction.type_ == NoiseReductionType::NearField
        &&& update.session.input_audio_transcription.language is None
        &&& update.session.input_audio_transcription.model is None
        &&& update.session.input_audio_transcription.prompt is None
        &&& update.session.turn_detection.type_ == TurnDetectionType::ServerVad
    }

    /// The session update that the listener configures its session with.
    pub fn session_update() -> (res: TranscriptionSessionUpdate)
        ensures
            Self::is_session_update(res),
    {
        let input_audio_format = TranscriptionAudioFormat::of(Self::desired_format()).unwrap();
        TranscriptionSessionUpdate::new(
            TranscriptionSessionUpdateSession {
                input_audio_format,
                input_audio_noise_reduction: TranscriptionNoiseReduction {
                    type_: NoiseReductionType::NearField,
                },
                input_audio_transcription: InputAudioTranscription {
                    language: None,
                    model: None,
                    prompt: None,
                },
                turn_detection: TranscriptionTurnDetection { type_: TurnDetectionType::ServerVad },
            },
        )
    }

    /// Begins to listen: asks the recorder for audio in the format that the
    /// service takes. The listener stays as it is.
    pub fn listen_to_input(&mut self) -> (res: ListenResult)
        ensures
            listens_as(old(self).audio_recorder().backend(), Some(desired_format_of()), res.0),
            same_backend(
                old(self).audio_recorder().backend(),
                final(self).audio_recorder().backend(),
            ),
            final(self).api_key() == old(self).api_key(),
    {
        self.audio_recorder.listen(Some(Self::desired_format()))
    }

    /// Opens the session for a capture that settled on the format
    /// `negotiated`: the request to connect with, and the session that
    /// takes the frames once the session update was sent. `stop` is the
    /// trigger of the capture, which the session hands out when it ends,
    /// to be raised.
    ///
    /// Where the device records in another format than the one asked for,
    /// there is no session: the caller gets the mismatch, and nothing that
    /// it could stream audio with. The same holds for an API key that no
    /// header can carry.
    pub fn open_session(&self, negotiated: Option<SoundSpec>, stop: StopTrigger) -> (res: Result<
        (ConnectRequest, TranscriptionSession),
        SessionError,
    >)
        ensures
            is_opening(self.api_key(), negotiated, res),
            res matches Ok((_, session)) ==> session.stop_trigger() == Some(stop),
    {
        match check_format(Self::desired_format(), negotiated) {
            Ok(()) => {},
            Err(e) => {
                return Err(e);
            },
        }
        match connection_request(self.api_key.as_str()) {
            Ok(request) => Ok((request, TranscriptionSession::new(stop))),
            Err(e) => Err(e),
        }
    }
}

} // verus!
