//! The messages that are sent to the transcription service, as JSON text.

use vstd::prelude::*;
use base64::prelude::BASE64_STANDARD;
use base64::prelude::Engine;
use crate::speech::audio::format::SoundSpec;
use crate::speech::audio_format::AudioFormat;
use crate::json::chars_of;
use crate::json::optional_json;
use crate::json::quote_optional;

verus! {

#[derive(Clone, Copy, Debug, PartialEq, Eq, Structural)]
pub enum TranscriptionSessionUpdateType {
    Update,
}

impl TranscriptionSessionUpdateType {
    pub open spec fn name_text(&self) -> Seq<char> {
        match self {
            Self::Update => "transcription_session.update"@,
        }
    }

    /// The text that the value is written as.
    pub fn serialize(&self) -> (res: &'static str)
        ensures
            res@ == self.name_text(),
    {
        match self {
            Self::Update => "transcription_session.update",
        }
    }
}

pub struct TranscriptionSessionUpdate {
    pub session: TranscriptionSessionUpdateSession,
    pub type_: TranscriptionSessionUpdateType,
}

#[derive(Clone, Copy, Debug, PartialEq, Eq, Structural)]
pub enum TranscriptionAudioFormat {
    PCM16,
    G711ulaw,
    G711alaw,
}

impl TranscriptionAudioFormat {
    pub open spec fn name_text(&self) -> Seq<char> {
        match self {
            Self::PCM16 => "pcm16"@,
            Self::G711ulaw => "g711_ulaw"@,
            Self::G711alaw => "g711_alaw"@,
        }
    }

    /// The text that the value is written as.
    pub fn serialize(&self) -> (res: &'static str)
        ensures
            res@ == self.name_text(),
    {
        match self {
            Self::PCM16 => "pcm16",
            Self::G711ulaw => "g711_ulaw",
            Self::G711alaw => "g711_alaw",
        }
    }

    /// The input encoding that a stream of raw samples is announced as:
    /// 16-bit PCM at a 24kHz sample rate, single channel, little-endian is
    /// `pcm16`, and the service takes no other raw samples.
    pub open spec fn encoding_of(spec: SoundSpec) -> Option<TranscriptionAudioFormat> {
        if spec == (SoundSpec::PCM {
            format: AudioFormat::S16LE,
            sample_rate_hz: 24000,
            num_channels: 1,
        }) {
            Some(TranscriptionAudioFormat::PCM16)
        } else {
            None
        }
    }

    /// The input encoding that a stream of raw samples is announced as, if
    /// the service takes it.
    pub fn of(spec: SoundSpec) -> (res: Option<Self>)
        ensures
            res == Self::encoding_of(spec),
    {
        match spec {
            SoundSpec::PCM { format: AudioFormat::S16LE, sample_rate_hz: 24000, num_channels: 1 } => {
                Some(TranscriptionAudioFormat::PCM16)
            },
            _ => None,
        }
    }
}

#[derive(Clone, Copy, Debug, PartialEq, Eq, Structural)]
pub enum NoiseReductionType {
    NearField,
    FarField,
}

impl NoiseReductionType {
    pub open spec fn name_text(&self) -> Seq<char> {
        match self {
            Self::NearField => "near_field"@,
            Self::FarField => "far_field"@,
        }
    }

    /// The text that the value is written as.
    pub fn serialize(&self) -> (res: &'static str)
        ensures
            res@ == self.name_text(),
    {
        match self {
            Self::NearField => "near_field",
            Self::FarField => "far_field",
        }
    }
}

pub struct TranscriptionNoiseReduction {
    pub type_: NoiseReductionType,
}

pub struct InputAudioTranscription {
    pub language: Option<String>,
    pub model: Option<String>,
    pub prompt: Option<String>,
}

#[derive(Clone, Copy, Debug, PartialEq, Eq, Structural)]
pub enum TurnDetectionType {
    ServerVad,
    SemanticVad,
}

impl TurnDetectionType {
    pub open spec fn name_text(&self) -> Seq<char> {
        match self {
            Self::ServerVad => "server_vad"@,
            Self::SemanticVad => "semantic_vad"@,
        }
    }

    /// The text that the value is written as.
    pub fn serialize(&self) -> (res: &'static str)
        ensures
            res@ == self.name_text(),
    {
        match self {
            Self::ServerVad => "server_vad",
            Self::SemanticVad => "semantic_vad",
        }
    }
}

pub struct TranscriptionTurnDetection {
    pub type_: TurnDetectionType,
}

pub struct TranscriptionSessionUpdateSession {
    // input audio must be 16-bit PCM at a 24kHz sample rate, single channel, little-endian
    pub input_audio_format: TranscriptionAudioFormat,
    pub input_audio_noise_reduction: TranscriptionNoiseReduction,
    pub input_audio_transcription: InputAudioTranscription,
    pub turn_detection: TranscriptionTurnDetection,
}

/// The session update message for the given parts: `format`, `noise`,
/// `turn` and `kind` are names that are put between quotes, while
/// `language`, `model` and `prompt` are JSON values that are put in as
/// they are.
pub open spec fn session_update_text(
    format: Seq<char>,
    noise: Seq<char>,
    language: Seq<char>,
    model: Seq<char>,
    prompt: Seq<char>,
    turn: Seq<char>,
    kind: Seq<char>,
) -> Seq<char> {
    "{\"session\":{\"input_audio_format\":\""@ + format
        + "\",\"input_audio_noise_reduction\":{\"type\":\""@ + noise
        + "\"},\"input_audio_transcription\":{\"language\":"@ + language + ",\"model\":"@ + model
        + ",\"prompt\":"@ + prompt + "},\"turn_detection\":{\"type\":\""@ + turn
        + "\"}},\"type\":\""@ + kind + "\"}"@
}

/// Frames a session update message from its parts.
pub fn frame_session_update(
    format: &str,
    noise: &str,
    language: &str,
    model: &str,
    prompt: &str,
    turn: &str,
    kind: &str,
) -> (res: String)
    ensures
        res@ == session_update_text(format@, noise@, language@, model@, prompt@, turn@, kind@),
{
    let mut out = String::from_str("{\"session\":{\"input_audio_format\":\"");
    out.append(format);
    out.append("\",\"input_audio_noise_reduction\":{\"type\":\"");
    out.append(noise);
    out.append("\"},\"input_audio_transcription\":{\"language\":");
    out.append(language);
    out.append(",\"model\":");
    out.append(model);
    out.append(",\"prompt\":");
    out.append(prompt);
    out.append("},\"turn_detection\":{\"type\":\"");
    out.append(turn);
    out.append("\"}},\"type\":\"");
    out.append(kind);
    out.append("\"}");
    out
}

impl TranscriptionSessionUpdate {
    /// The message that updates the session to `session`.
    pub fn new(session: TranscriptionSessionUpdateSession) -> (res: Self)
        ensures
            res.session == session,
            res.type_ == TranscriptionSessionUpdateType::Update,
    {
        Self { session, type_: TranscriptionSessionUpdateType::Update }
    }

    /// The message as JSON text: the session first, then the type.
    pub open spec fn json_text(&self) -> Seq<char> {
        session_update_text(
            self.session.input_audio_format.name_text(),
            self.session.input_audio_noise_reduction.type_.name_text(),
            optional_json(chars_of(self.session.input_audio_transcription.language)),
            optional_json(chars_of(self.session.input_audio_transcription.model)),
            optional_json(chars_of(self.session.input_audio_transcription.prompt)),
            self.session.turn_detection.type_.name_text(),
            self.type_.name_text(),
        )
    }

    /// Writes the message as JSON text. The hints for the transcription are
    /// quoted by `serde_json`.
    pub fn to_json(&self) -> (res: String)
        ensures
            res@ == self.json_text(),
    {
        let hints = &self.session.input_audio_transcription;
        let language = quote_optional(&hints.language);
        let model = quote_optional(&hints.model);
        let prompt = quote_optional(&hints.prompt);
        frame_session_update(
            self.session.input_audio_format.serialize(),
            self.session.input_audio_noise_reduction.type_.serialize(),
            language.as_str(),
            model.as_str(),
            prompt.as_str(),
            self.session.turn_detection.type_.serialize(),
            self.type_.serialize(),
        )
    }
}

/// The standard base64 encoding of `bytes`, with padding, as the `base64`
/// crate writes it.
pub uninterp spec fn base64_standard(bytes: Seq<u8>) -> Seq<char>;

/// The number of characters that `len` bytes are encoded in.
pub open spec fn encoded_len(len: nat) -> nat {
    4 * ((len + 2) / 3)
}

/// Whether a chunk of `len` bytes can be encoded: the encoding must fit into
/// one allocation.
pub open spec fn encodable(len: nat) -> bool {
    encoded_len(len) <= usize::MAX / 2
}

/// Whether the chunk can be encoded.
pub fn is_encodable(chunk: &[u8]) -> (res: bool)
    ensures
        res == encodable(chunk@.len()),
{
    let groups: usize = chunk.len() / 3 + (if chunk.len() % 3 > 0 {
        1usize
    } else {
        0usize
    });
    assert(groups == (chunk@.len() + 2) / 3);
    groups <= usize::MAX / 2 / 4
}

/// Calls `encode` of the `base64` crate's standard engine. The result is
/// the encoding that `base64_standard` names. The crate panics where the
/// length of the encoding cannot be computed or allocated, so chunks that
/// long are left out.
#[verifier::external_body]
fn base64_encode(chunk: &[u8]) -> (res: String)
    requires
        encodable(chunk@.len()),
    ensures
        res@ == base64_standard(chunk@),
{
    BASE64_STANDARD.encode(chunk)
}

/// What comes before the encoded audio in an append message.
pub const APPEND_PREFIX: &'static str = "{\"type\": \"input_audio_buffer.append\",\"audio\": \"";

/// What comes after the encoded audio in an append message.
pub const APPEND_SUFFIX: &'static str = "\"}";

/// The message that appends audio, given as base64 text, to the service's
/// input buffer.
pub fn frame_audio_append(encoded: &str) -> (res: String)
    ensures
        res@ == APPEND_PREFIX@ + encoded@ + APPEND_SUFFIX@,
{
    let mut json = String::from_str(APPEND_PREFIX);
    json.append(encoded);
    json.append(APPEND_SUFFIX);
    json
}

/// The message that appends a chunk of audio to the service's input
/// buffer.
pub fn audio_append_message(chunk: &[u8]) -> (res: String)
    requires
        encodable(chunk@.len()),
    ensures
        res@ == APPEND_PREFIX@ + base64_standard(chunk@) + APPEND_SUFFIX@,
{
    let encoded = base64_encode(chunk);
    frame_audio_append(encoded.as_str())
}

} // verus!
