//! The events that the transcription service sends.

use vstd::prelude::*;
use crate::json::chars_of;
use crate::text::same_text;

verus! {

/* Transcription messages */

#[derive(Debug)]
pub enum TranscriptionMessage {
    Error(ErrorEvent),
    SessionCreated(SessionEvent),
    SessionUpdated(SessionEvent),
    SpeechStarted(SpeechBoundaryEvent),
    SpeechStopped(SpeechBoundaryEvent),
    SpeechCommitted(SpeechCommittedEvent),
    ConversationItemCreated(ConversationItemCreatedEvent),
    TranscriptionDelta(TranscriptionDeltaEvent),
    TranscriptionCompleted(TranscriptionCompletedEvent),
}

#[derive(Debug)]
pub struct SessionEvent {
    pub event_id: String,
    pub session: SessionDetail,
}

#[derive(Debug)]
pub struct SessionDetail {
    pub id: String,
    pub input_audio_format: String,
    pub input_audio_noise_reduction: Option<InputAudioNoiseReduction>,
    pub input_audio_transcription: Option<InputAudioTranscriptionData>,
    pub instructions: Option<String>,
    pub max_response_output_tokens: Option<u32>,
}

#[derive(Clone, Copy, Debug, PartialEq, Eq, Structural)]
pub enum InputAudioNoiseReduction {
    NearField,
    FarField,
}

#[derive(Debug)]
pub struct InputAudioTranscriptionData {
    pub language: String,
    pub model: String,
    pub prompt: String,
}

#[derive(Debug)]
pub struct ErrorEvent {
    pub event_id: String,
    pub error: ErrorEventDetail,
}

#[derive(Debug)]
pub struct ErrorEventDetail {
    pub type_: String,
    pub event_id: Option<String>,
    pub code: Option<String>,
    pub message: String,
    pub param: Option<String>,
}

#[derive(Debug)]
pub struct SpeechBoundaryEvent {
    pub event_id: Option<String>,
    pub item_id: Option<String>,
    pub audio_start_ms: Option<u32>,
}

#[allow(clippy::struct_field_names)]
#[derive(Debug)]
pub struct SpeechCommittedEvent {
    pub event_id: Option<String>,
    pub item_id: Option<String>,
    pub previous_item_id: Option<String>,
}

#[derive(Debug)]
pub struct ConversationItemCreatedEvent {
    pub event_id: Option<String>,
    pub previous_item_id: Option<String>,
    pub item: ConversationItem,
}

#[derive(Debug)]
pub enum ConversationItem {
    Message {
        id: String,
        role: MessageRole,
        content: Vec<MessageContent>,
        object: Option<String>,
        status: Option<String>,
    },
    FunctionCall {
        id: String,
        name: String,
        arguments: String,
        call_id: String,
        object: Option<String>,
        status: Option<String>,
    },
    FunctionCallOutput {
        id: String,
        call_id: String,
        object: Option<String>,
        status: Option<String>,
    },
}

#[derive(Debug)]
pub enum MessageContent {
    InputText { text: String },
    InputAudio { audio: Option<String>, transcript: Option<String> },
    ItemReference { id: String },
    Text { text: String },
}

#[derive(Clone, Copy, Debug, PartialEq, Eq, Structural)]
pub enum MessageRole {
    User,
    Assistant,
    System,
}

#[derive(Debug)]
pub struct TranscriptionDeltaEvent {
    pub event_id: Option<String>,
    pub item_id: Option<String>,
    pub content_index: Option<i32>,
    pub delta: String,
}

#[derive(Debug)]
pub struct TranscriptionCompletedEvent {
    pub event_id: Option<String>,
    pub item_id: Option<String>,
    pub content_index: Option<i32>,
    pub transcript: String,
}

/// Which of the service's events a message is.
#[derive(Clone, Copy, Debug, PartialEq, Eq, Structural)]
pub enum EventKind {
    Error,
    SessionCreated,
    SessionUpdated,
    SpeechStarted,
    SpeechStopped,
    SpeechCommitted,
    ConversationItemCreated,
    TranscriptionDelta,
    TranscriptionCompleted,
}

impl EventKind {
    /// The value of the `type` field that announces an event of this kind.
    pub open spec fn tag_text(&self) -> Seq<char> {
        match self {
            EventKind::Error => "error"@,
            EventKind::SessionCreated => "transcription_session.created"@,
            EventKind::SessionUpdated => "transcription_session.updated"@,
            EventKind::SpeechStarted => "input_audio_buffer.speech_started"@,
            EventKind::SpeechStopped => "input_audio_buffer.speech_stopped"@,
            EventKind::SpeechCommitted => "input_audio_buffer.committed"@,
            EventKind::ConversationItemCreated => "conversation.item.created"@,
            EventKind::TranscriptionDelta => "conversation.item.input_audio_transcription.delta"@,
            EventKind::TranscriptionCompleted => "conversation.item.input_audio_transcription.completed"@,
        }
    }

    /// The value of the `type` field that announces an event of this kind.
    pub fn tag(&self) -> (res: &'static str)
        ensures
            res@ == self.tag_text(),
    {
        match self {
            EventKind::Error => "error",
            EventKind::SessionCreated => "transcription_session.created",
            EventKind::SessionUpdated => "transcription_session.updated",
            EventKind::SpeechStarted => "input_audio_buffer.speech_started",
            EventKind::SpeechStopped => "input_audio_buffer.speech_stopped",
            EventKind::SpeechCommitted => "input_audio_buffer.committed",
            EventKind::ConversationItemCreated => "conversation.item.created",
            EventKind::TranscriptionDelta => "conversation.item.input_audio_transcription.delta",
            EventKind::TranscriptionCompleted => "conversation.item.input_audio_transcription.completed",
        }
    }
}

impl EventKind {
    /// The kind of event that a value of the `type` field announces, if it
    /// announces one.
    pub open spec fn of_tag(tag: Seq<char>) -> Option<EventKind> {
        if tag == "error"@ {
            Some(EventKind::Error)
        } else if tag == "transcription_session.created"@ {
            Some(EventKind::SessionCreated)
        } else if tag == "transcription_session.updated"@ {
            Some(EventKind::SessionUpdated)
        } else if tag == "input_audio_buffer.speech_started"@ {
            Some(EventKind::SpeechStarted)
        } else if tag == "input_audio_buffer.speech_stopped"@ {
            Some(EventKind::SpeechStopped)
        } else if tag == "input_audio_buffer.committed"@ {
            Some(EventKind::SpeechCommitted)
        } else if tag == "conversation.item.created"@ {
            Some(EventKind::ConversationItemCreated)
        } else if tag == "conversation.item.input_audio_transcription.delta"@ {
            Some(EventKind::TranscriptionDelta)
        } else if tag == "conversation.item.input_audio_transcription.completed"@ {
            Some(EventKind::TranscriptionCompleted)
        } else {
            None
        }
    }

    /// The kind of event that a value of the `type` field announces, if it
    /// announces one.
    pub fn from_tag(tag: &String) -> (res: Option<EventKind>)
        ensures
            res == Self::of_tag(tag@),
    {
        if same_text(tag, "error") {
            Some(EventKind::Error)
        } else if same_text(tag, "transcription_session.created") {
            Some(EventKind::SessionCreated)
        } else if same_text(tag, "transcription_session.updated") {
            Some(EventKind::SessionUpdated)
        } else if same_text(tag, "input_audio_buffer.speech_started") {
            Some(EventKind::SpeechStarted)
        } else if same_text(tag, "input_audio_buffer.speech_stopped") {
            Some(EventKind::SpeechStopped)
        } else if same_text(tag, "input_audio_buffer.committed") {
            Some(EventKind::SpeechCommitted)
        } else if same_text(tag, "conversation.item.created") {
            Some(EventKind::ConversationItemCreated)
        } else if same_text(tag, "conversation.item.input_audio_transcription.delta") {
            Some(EventKind::TranscriptionDelta)
        } else if same_text(tag, "conversation.item.input_audio_transcription.completed") {
            Some(EventKind::TranscriptionCompleted)
        } else {
            None
        }
    }

    /// Each kind of event is announced by a value of its own: the value of
    /// a kind announces that kind and no other.
    pub proof fn lemma_tag_announces_its_kind(self)
        ensures
            Self::of_tag(self.tag_text()) == Some(self),
    {
        reveal_strlit("error");
        reveal_strlit("transcription_session.created");
        reveal_strlit("transcription_session.updated");
        reveal_strlit("input_audio_buffer.speech_started");
        reveal_strlit("input_audio_buffer.speech_stopped");
        reveal_strlit("input_audio_buffer.committed");
        reveal_strlit("conversation.item.created");
        reveal_strlit("conversation.item.input_audio_transcription.delta");
        reveal_strlit("conversation.item.input_audio_transcription.completed");
        let tag = self.tag_text();
        match self {
            EventKind::Error => {},
            EventKind::SessionCreated => {
                assert(tag.len() != "error"@.len());
            },
            EventKind::SessionUpdated => {
                assert(tag.len() != "error"@.len());
                assert(tag[22] != "transcription_session.created"@[22]);
            },
            EventKind::SpeechStarted => {
                assert(tag[0] == 'i');
            },
            EventKind::SpeechStopped => {
                assert(tag[0] == 'i');
                assert(tag[28] != "input_audio_buffer.speech_started"@[28]);
            },
            EventKind::SpeechCommitted => {
                assert(tag[0] == 'i');
                assert(tag.len() == 28);
            },
            EventKind::ConversationItemCreated => {
                assert(tag[0] == 'c');
                assert(tag.len() == 25);
            },
            EventKind::TranscriptionDelta => {
                assert(tag[0] == 'c');
                assert(tag.len() == 49);
            },
            EventKind::TranscriptionCompleted => {
                assert(tag[0] == 'c');
                assert(tag.len() == 53);
            },
        }
    }
}

impl TranscriptionMessage {
    /// Which of the service's events this is.
    pub open spec fn kind_of(&self) -> EventKind {
        match self {
            TranscriptionMessage::Error(_) => EventKind::Error,
            TranscriptionMessage::SessionCreated(_) => EventKind::SessionCreated,
            TranscriptionMessage::SessionUpdated(_) => EventKind::SessionUpdated,
            TranscriptionMessage::SpeechStarted(_) => EventKind::SpeechStarted,
            TranscriptionMessage::SpeechStopped(_) => EventKind::SpeechStopped,
            TranscriptionMessage::SpeechCommitted(_) => EventKind::SpeechCommitted,
            TranscriptionMessage::ConversationItemCreated(_) => EventKind::ConversationItemCreated,
            TranscriptionMessage::TranscriptionDelta(_) => EventKind::TranscriptionDelta,
            TranscriptionMessage::TranscriptionCompleted(_) => EventKind::TranscriptionCompleted,
        }
    }

    /// Which of the service's events this is.
    pub fn kind(&self) -> (res: EventKind)
        ensures
            res == self.kind_of(),
    {
        match self {
            TranscriptionMessage::Error(_) => EventKind::Error,
            TranscriptionMessage::SessionCreated(_) => EventKind::SessionCreated,
            TranscriptionMessage::SessionUpdated(_) => EventKind::SessionUpdated,
            TranscriptionMessage::SpeechStarted(_) => EventKind::SpeechStarted,
            TranscriptionMessage::SpeechStopped(_) => EventKind::SpeechStopped,
            TranscriptionMessage::SpeechCommitted(_) => EventKind::SpeechCommitted,
            TranscriptionMessage::ConversationItemCreated(_) => EventKind::ConversationItemCreated,
            TranscriptionMessage::TranscriptionDelta(_) => EventKind::TranscriptionDelta,
            TranscriptionMessage::TranscriptionCompleted(_) => EventKind::TranscriptionCompleted,
        }
    }

    /// The identifier that the service gave the event, where it gave one.
    pub open spec fn event_id_of(&self) -> Option<Seq<char>> {
        match self {
            TranscriptionMessage::Error(e) => Some(e.event_id@),
            TranscriptionMessage::SessionCreated(e) => Some(e.event_id@),
            TranscriptionMessage::SessionUpdated(e) => Some(e.event_id@),
            TranscriptionMessage::SpeechStarted(e) => chars_of(e.event_id),
            TranscriptionMessage::SpeechStopped(e) => chars_of(e.event_id),
            TranscriptionMessage::SpeechCommitted(e) => chars_of(e.event_id),
            TranscriptionMessage::ConversationItemCreated(e) => chars_of(e.event_id),
            TranscriptionMessage::TranscriptionDelta(e) => chars_of(e.event_id),
            TranscriptionMessage::TranscriptionCompleted(e) => chars_of(e.event_id),
        }
    }

    /// The identifier that the service gave the event, where it gave one.
    pub fn event_id(&self) -> (res: Option<&str>)
        ensures
            match self.event_id_of() {
                Some(id) => res matches Some(s) && s@ == id,
                None => res is None,
            },
    {
        match self {
            TranscriptionMessage::Error(e) => Some(e.event_id.as_str()),
            TranscriptionMessage::SessionCreated(e) => Some(e.event_id.as_str()),
            TranscriptionMessage::SessionUpdated(e) => Some(e.event_id.as_str()),
            TranscriptionMessage::SpeechStarted(e) => optional_str(&e.event_id),
            TranscriptionMessage::SpeechStopped(e) => optional_str(&e.event_id),
            TranscriptionMessage::SpeechCommitted(e) => optional_str(&e.event_id),
            TranscriptionMessage::ConversationItemCreated(e) => optional_str(&e.event_id),
            TranscriptionMessage::TranscriptionDelta(e) => optional_str(&e.event_id),
            TranscriptionMessage::TranscriptionCompleted(e) => optional_str(&e.event_id),
        }
    }
}

fn optional_str(value: &Option<String>) -> (res: Option<&str>)
    ensures
        match chars_of(*value) {
            Some(text) => res matches Some(s) && s@ == text,
            None => res is None,
        },
{
    match value {
        Some(s) => Some(s.as_str()),
        None => None,
    }
}

} // verus!
