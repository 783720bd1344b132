//! Decoding the events of the transcription service from JSON documents.
//!
//! An event is a JSON object whose `type` says which event it is. Fields
//! that are unknown are passed over; a field that is required and
//! missing, or that holds something else than it should, makes the
//! document no event.

use vstd::prelude::*;
use crate::json::JsonContents;
use crate::json::absent_at;
use crate::json::array_len;
use crate::json::array_len_at;
use crate::json::below;
use crate::json::chars_of;
use crate::json::contents;
use crate::json::element;
use crate::json::element_path;
use crate::json::is_absent;
use crate::json::json_document;
use crate::json::optional_i32;
use crate::json::optional_i32_at;
use crate::json::optional_text;
use crate::json::optional_text_at;
use crate::json::optional_u32;
use crate::json::optional_u32_at;
use crate::json::parse_json;
use crate::json::required_text;
use crate::json::text_at;
use crate::speech::input::openai::events::ConversationItem;
use crate::speech::input::openai::events::ConversationItemCreatedEvent;
use crate::speech::input::openai::events::ErrorEvent;
use crate::speech::input::openai::events::ErrorEventDetail;
use crate::speech::input::openai::events::EventKind;
use crate::speech::input::openai::events::InputAudioNoiseReduction;
use crate::speech::input::openai::events::InputAudioTranscriptionData;
use crate::speech::input::openai::events::MessageContent;
use crate::speech::input::openai::events::MessageRole;
use crate::speech::input::openai::events::SessionDetail;
use crate::speech::input::openai::events::SessionEvent;
use crate::speech::input::openai::events::SpeechBoundaryEvent;
use crate::speech::input::openai::events::SpeechCommittedEvent;
use crate::speech::input::openai::events::TranscriptionCompletedEvent;
use crate::speech::input::openai::events::TranscriptionDeltaEvent;
use crate::speech::input::openai::events::TranscriptionMessage;
use crate::text::same_text;

verus! {

/// Whether `e` is the error event that the document describes.
pub open spec fn is_error_event(c: JsonContents, e: ErrorEvent) -> bool {
    &&& text_at(c, "/event_id"@) == Some(e.event_id@)
    &&& text_at(c, "/error/type"@) == Some(e.error.type_@)
    &&& optional_text_at(c, "/error/event_id"@) == Some(chars_of(e.error.event_id))
    &&& optional_text_at(c, "/error/code"@) == Some(chars_of(e.error.code))
    &&& text_at(c, "/error/message"@) == Some(e.error.message@)
    &&& optional_text_at(c, "/error/param"@) == Some(chars_of(e.error.param))
}

/// Decodes an error event.
pub fn decode_error_event(doc: &serde_json::Value) -> (res: Option<ErrorEvent>)
    ensures
        match res {
            Some(e) => is_error_event(contents(doc), e),
            None => forall|e: ErrorEvent| !is_error_event(contents(doc), e),
        },
{
    let event_id = required_text(doc, "/event_id")?;
    let type_ = required_text(doc, "/error/type")?;
    let inner_id = optional_text(doc, "/error/event_id")?;
    let code = optional_text(doc, "/error/code")?;
    let message = required_text(doc, "/error/message")?;
    let param = optional_text(doc, "/error/param")?;
    Some(
        ErrorEvent {
            event_id,
            error: ErrorEventDetail { type_, event_id: inner_id, code, message, param },
        },
    )
}

/// The noise reduction that the object at `path` names by its `type`, if
/// it names one.
pub open spec fn noise_reduction_at(c: JsonContents, path: Seq<char>) -> Option<
    InputAudioNoiseReduction,
> {
    match text_at(c, path + "/type"@) {
        Some(name) => if name == "near_field"@ {
            Some(InputAudioNoiseReduction::NearField)
        } else if name == "far_field"@ {
            Some(InputAudioNoiseReduction::FarField)
        } else {
            None
        },
        None => None,
    }
}

/// The noise reduction at `path` that may be absent; the outer `None`
/// says that something else stands there.
pub open spec fn optional_noise_reduction_at(c: JsonContents, path: Seq<char>) -> Option<
    Option<InputAudioNoiseReduction>,
> {
    if absent_at(c, path) {
        Some(None)
    } else {
        match noise_reduction_at(c, path) {
            Some(reduction) => Some(Some(reduction)),
            None => None,
        }
    }
}

fn decode_noise_reduction(doc: &serde_json::Value, path: &str) -> (res: Option<
    Option<InputAudioNoiseReduction>,
>)
    ensures
        res == optional_noise_reduction_at(contents(doc), path@),
{
    if is_absent(doc, path) {
        return Some(None);
    }
    let name = required_text(doc, below(path, "/type").as_str())?;
    if same_text(&name, "near_field") {
        Some(Some(InputAudioNoiseReduction::NearField))
    } else if same_text(&name, "far_field") {
        Some(Some(InputAudioNoiseReduction::FarField))
    } else {
        None
    }
}

/// Whether `d` is the transcription settings that stand at `path`, where
/// `None` says that nothing stands there.
pub open spec fn is_transcription_data(
    c: JsonContents,
    path: Seq<char>,
    d: Option<InputAudioTranscriptionData>,
) -> bool {
    if absent_at(c, path) {
        d is None
    } else {
        &&& d matches Some(data)
        &&& text_at(c, path + "/language"@) == Some(data.language@)
        &&& text_at(c, path + "/model"@) == Some(data.model@)
        &&& text_at(c, path + "/prompt"@) == Some(data.prompt@)
    }
}

fn decode_transcription_data(doc: &serde_json::Value, path: &str) -> (res: Option<
    Option<InputAudioTranscriptionData>,
>)
    ensures
        match res {
            Some(d) => is_transcription_data(contents(doc), path@, d),
            None => forall|d: Option<InputAudioTranscriptionData>|
                !is_transcription_data(contents(doc), path@, d),
        },
{
    if is_absent(doc, path) {
        return Some(None);
    }
    let language = required_text(doc, below(path, "/language").as_str())?;
    let model = required_text(doc, below(path, "/model").as_str())?;
    let prompt = required_text(doc, below(path, "/prompt").as_str())?;
    Some(Some(InputAudioTranscriptionData { language, model, prompt }))
}

/// Whether `e` is the session event that the document describes.
pub open spec fn is_session_event(c: JsonContents, e: SessionEvent) -> bool {
    &&& text_at(c, "/event_id"@) == Some(e.event_id@)
    &&& text_at(c, "/session/id"@) == Some(e.session.id@)
    &&& text_at(c, "/session/input_audio_format"@) == Some(e.session.input_audio_format@)
    &&& optional_noise_reduction_at(c, "/session/input_audio_noise_reduction"@) == Some(
        e.session.input_audio_noise_reduction,
    )
    &&& is_transcription_data(
        c,
        "/session/input_audio_transcription"@,
        e.session.input_audio_transcription,
    )
    &&& optional_text_at(c, "/session/instructions"@) == Some(chars_of(e.session.instructions))
    &&& optional_u32_at(c, "/session/max_response_output_tokens"@) == Some(
        e.session.max_response_output_tokens,
    )
}

/// Decodes a session event.
pub fn decode_session_event(doc: &serde_json::Value) -> (res: Option<SessionEvent>)
    ensures
        match res {
            Some(e) => is_session_event(contents(doc), e),
            None => forall|e: SessionEvent| !is_session_event(contents(doc), e),
        },
{
    let event_id = required_text(doc, "/event_id")?;
    let id = required_text(doc, "/session/id")?;
    let input_audio_format = required_text(doc, "/session/input_audio_format")?;
    let input_audio_noise_reduction = decode_noise_reduction(
        doc,
        "/session/input_audio_noise_reduction",
    )?;
    let input_audio_transcription = decode_transcription_data(
        doc,
        "/session/input_audio_transcription",
    )?;
    let instructions = optional_text(doc, "/session/instructions")?;
    let max_response_output_tokens = optional_u32(doc, "/session/max_response_output_tokens")?;
    Some(
        SessionEvent {
            event_id,
            session: SessionDetail {
                id,
                input_audio_format,
                input_audio_noise_reduction,
                input_audio_transcription,
                instructions,
                max_response_output_tokens,
            },
        },
    )
}

/// Whether `e` is the event on a boundary of speech that the document
/// describes.
pub open spec fn is_speech_boundary_event(c: JsonContents, e: SpeechBoundaryEvent) -> bool {
    &&& optional_text_at(c, "/event_id"@) == Some(chars_of(e.event_id))
    &&& optional_text_at(c, "/item_id"@) == Some(chars_of(e.item_id))
    &&& optional_u32_at(c, "/audio_start_ms"@) == Some(e.audio_start_ms)
}

/// Decodes an event on a boundary of speech.
pub fn decode_speech_boundary_event(doc: &serde_json::Value) -> (res: Option<SpeechBoundaryEvent>)
    ensures
        match res {
            Some(e) => is_speech_boundary_event(contents(doc), e),
            None => forall|e: SpeechBoundaryEvent| !is_speech_boundary_event(contents(doc), e),
        },
{
    let event_id = optional_text(doc, "/event_id")?;
    let item_id = optional_text(doc, "/item_id")?;
    let audio_start_ms = optional_u32(doc, "/audio_start_ms")?;
    Some(SpeechBoundaryEvent { event_id, item_id, audio_start_ms })
}

/// Whether `e` is the event on committed speech that the document
/// describes.
pub open spec fn is_speech_committed_event(c: JsonContents, e: SpeechCommittedEvent) -> bool {
    &&& optional_text_at(c, "/event_id"@) == Some(chars_of(e.event_id))
    &&& optional_text_at(c, "/item_id"@) == Some(chars_of(e.item_id))
    &&& optional_text_at(c, "/previous_item_id"@) == Some(chars_of(e.previous_item_id))
}

/// Decodes an event on committed speech.
pub fn decode_speech_committed_event(doc: &serde_json::Value) -> (res: Option<
    SpeechCommittedEvent,
>)
    ensures
        match res {
            Some(e) => is_speech_committed_event(contents(doc), e),
            None => forall|e: SpeechCommittedEvent| !is_speech_committed_event(contents(doc), e),
        },
{
    let event_id = optional_text(doc, "/event_id")?;
    let item_id = optional_text(doc, "/item_id")?;
    let previous_item_id = optional_text(doc, "/previous_item_id")?;
    Some(SpeechCommittedEvent { event_id, item_id, previous_item_id })
}

/// Whether `e` is the event on a part of a transcription that the
/// document describes.
pub open spec fn is_delta_event(c: JsonContents, e: TranscriptionDeltaEvent) -> bool {
    &&& optional_text_at(c, "/event_id"@) == Some(chars_of(e.event_id))
    &&& optional_text_at(c, "/item_id"@) == Some(chars_of(e.item_id))
    &&& optional_i32_at(c, "/content_index"@) == Some(e.content_index)
    &&& text_at(c, "/delta"@) == Some(e.delta@)
}

/// Decodes an event on a part of a transcription.
pub fn decode_delta_event(doc: &serde_json::Value) -> (res: Option<TranscriptionDeltaEvent>)
    ensures
        match res {
            Some(e) => is_delta_event(contents(doc), e),
            None => forall|e: TranscriptionDeltaEvent| !is_delta_event(contents(doc), e),
        },
{
    let event_id = optional_text(doc, "/event_id")?;
    let item_id = optional_text(doc, "/item_id")?;
    let content_index = optional_i32(doc, "/content_index")?;
    let delta = required_text(doc, "/delta")?;
    Some(TranscriptionDeltaEvent { event_id, item_id, content_index, delta })
}

/// Whether `e` is the event on a completed transcription that the
/// document describes.
pub open spec fn is_completed_event(c: JsonContents, e: TranscriptionCompletedEvent) -> bool {
    &&& optional_text_at(c, "/event_id"@) == Some(chars_of(e.event_id))
    &&& optional_text_at(c, "/item_id"@) == Some(chars_of(e.item_id))
    &&& optional_i32_at(c, "/content_index"@) == Some(e.content_index)
    &&& text_at(c, "/transcript"@) == Some(e.transcript@)
}

/// Decodes an event on a completed transcription.
pub fn decode_completed_event(doc: &serde_json::Value) -> (res: Option<
    TranscriptionCompletedEvent,
>)
    ensures
        match res {
            Some(e) => is_completed_event(contents(doc), e),
            None => forall|e: TranscriptionCompletedEvent| !is_completed_event(contents(doc), e),
        },
{
    let event_id = optional_text(doc, "/event_id")?;
    let item_id = optional_text(doc, "/item_id")?;
    let content_index = optional_i32(doc, "/content_index")?;
    let transcript = required_text(doc, "/transcript")?;
    Some(TranscriptionCompletedEvent { event_id, item_id, content_index, transcript })
}

/// The role that a text names, if it names one.
pub open spec fn role_of(name: Seq<char>) -> Option<MessageRole> {
    if name == "user"@ {
        Some(MessageRole::User)
    } else if name == "assistant"@ {
        Some(MessageRole::Assistant)
    } else if name == "system"@ {
        Some(MessageRole::System)
    } else {
        None
    }
}

/// The role that the text at `path` names, if one stands there.
pub open spec fn role_at(c: JsonContents, path: Seq<char>) -> Option<MessageRole> {
    match text_at(c, path) {
        Some(name) => role_of(name),
        None => None,
    }
}

fn decode_role(doc: &serde_json::Value, path: &str) -> (res: Option<MessageRole>)
    ensures
        res == role_at(contents(doc), path@),
{
    let name = required_text(doc, path)?;
    if same_text(&name, "user") {
        Some(MessageRole::User)
    } else if same_text(&name, "assistant") {
        Some(MessageRole::Assistant)
    } else if same_text(&name, "system") {
        Some(MessageRole::System)
    } else {
        None
    }
}

/// Whether `content` is the part of a message that stands at `path`: the
/// `type` there says which part it is.
pub open spec fn is_message_content(c: JsonContents, path: Seq<char>, content: MessageContent) -> bool {
    text_at(c, path + "/type"@) matches Some(kind) && if kind == "input_text"@ {
        content matches MessageContent::InputText { text } && text_at(c, path + "/text"@) == Some(
            text@,
        )
    } else if kind == "input_audio"@ {
        content matches MessageContent::InputAudio { audio, transcript } && optional_text_at(
            c,
            path + "/audio"@,
        ) == Some(chars_of(audio)) && optional_text_at(c, path + "/transcript"@) == Some(
            chars_of(transcript),
        )
    } else if kind == "item_reference"@ {
        content matches MessageContent::ItemReference { id } && text_at(c, path + "/id"@) == Some(
            id@,
        )
    } else if kind == "text"@ {
        content matches MessageContent::Text { text } && text_at(c, path + "/text"@) == Some(text@)
    } else {
        false
    }
}

fn decode_message_content(doc: &serde_json::Value, path: &str) -> (res: Option<MessageContent>)
    ensures
        match res {
            Some(content) => is_message_content(contents(doc), path@, content),
            None => forall|content: MessageContent|
                !is_message_content(contents(doc), path@, content),
        },
{
    let kind = required_text(doc, below(path, "/type").as_str())?;
    if same_text(&kind, "input_text") {
        let text = required_text(doc, below(path, "/text").as_str())?;
        Some(MessageContent::InputText { text })
    } else if same_text(&kind, "input_audio") {
        let audio = optional_text(doc, below(path, "/audio").as_str())?;
        let transcript = optional_text(doc, below(path, "/transcript").as_str())?;
        Some(MessageContent::InputAudio { audio, transcript })
    } else if same_text(&kind, "item_reference") {
        let id = required_text(doc, below(path, "/id").as_str())?;
        Some(MessageContent::ItemReference { id })
    } else if same_text(&kind, "text") {
        let text = required_text(doc, below(path, "/text").as_str())?;
        Some(MessageContent::Text { text })
    } else {
        None
    }
}

/// Whether `content` is the parts of a message that stand in the array at
/// `path`, element for element.
pub open spec fn is_content_list(c: JsonContents, path: Seq<char>, content: Seq<MessageContent>) -> bool {
    &&& array_len_at(c, path) == Some(content.len())
    &&& forall|i: int|
        0 <= i < content.len() ==> is_message_content(
            c,
            element_path(path, i),
            #[trigger] content[i],
        )
}

fn decode_content_list(doc: &serde_json::Value, path: &str) -> (res: Option<Vec<MessageContent>>)
    ensures
        match res {
            Some(content) => is_content_list(contents(doc), path@, content@),
            None => forall|content: Seq<MessageContent>|
                !is_content_list(contents(doc), path@, content),
        },
{
    let len = array_len(doc, path)?;
    let mut content: Vec<MessageContent> = Vec::new();
    let mut i: usize = 0;
    while i < len
        invariant
            i <= len,
            array_len_at(contents(doc), path@) == Some(len as nat),
            content@.len() == i,
            forall|j: int|
                0 <= j < i ==> is_message_content(
                    contents(doc),
                    element_path(path@, j),
                    #[trigger] content@[j],
                ),
        decreases len - i,
    {
        match decode_message_content(doc, element(path, i).as_str()) {
            Some(part) => {
                content.push(part);
            },
            None => {
                assert forall|other: Seq<MessageContent>|
                    !is_content_list(contents(doc), path@, other) by {
                    if is_content_list(contents(doc), path@, other) {
                        assert(is_message_content(
                            contents(doc),
                            element_path(path@, i as int),
                            other[i as int],
                        ));
                    }
                }
                return None;
            },
        }
        i = i + 1;
    }
    Some(content)
}

/// Whether `item` is the item of a conversation that stands at `path`: the
/// `type` there says which item it is.
pub open spec fn is_conversation_item(c: JsonContents, path: Seq<char>, item: ConversationItem) -> bool {
    text_at(c, path + "/type"@) matches Some(kind) && if kind == "message"@ {
        &&& item matches ConversationItem::Message { id, role, content, object, status }
        &&& text_at(c, path + "/id"@) == Some(id@)
        &&& role_at(c, path + "/role"@) == Some(role)
        &&& is_content_list(c, path + "/content"@, content@)
        &&& optional_text_at(c, path + "/object"@) == Some(chars_of(object))
        &&& optional_text_at(c, path + "/status"@) == Some(chars_of(status))
    } else if kind == "function_call"@ {
        &&& item matches ConversationItem::FunctionCall {
            id,
            name,
            arguments,
            call_id,
            object,
            status,
        }
        &&& text_at(c, path + "/id"@) == Some(id@)
        &&& text_at(c, path + "/name"@) == Some(name@)
        &&& text_at(c, path + "/arguments"@) == Some(arguments@)
        &&& text_at(c, path + "/call_id"@) == Some(call_id@)
        &&& optional_text_at(c, path + "/object"@) == Some(chars_of(object))
        &&& optional_text_at(c, path + "/status"@) == Some(chars_of(status))
    } else if kind == "function_call_output"@ {
        &&& item matches ConversationItem::FunctionCallOutput { id, call_id, object, status }
        &&& text_at(c, path + "/id"@) == Some(id@)
        &&& text_at(c, path + "/call_id"@) == Some(call_id@)
        &&& optional_text_at(c, path + "/object"@) == Some(chars_of(object))
        &&& optional_text_at(c, path + "/status"@) == Some(chars_of(status))
    } else {
        false
    }
}

fn decode_conversation_item(doc: &serde_json::Value, path: &str) -> (res: Option<ConversationItem>)
    ensures
        match res {
            Some(item) => is_conversation_item(contents(doc), path@, item),
            None => forall|item: ConversationItem|
                !is_conversation_item(contents(doc), path@, item),
        },
{
    let kind = required_text(doc, below(path, "/type").as_str())?;
    if same_text(&kind, "message") {
        let id = required_text(doc, below(path, "/id").as_str())?;
        let role = decode_role(doc, below(path, "/role").as_str())?;
        let content = decode_content_list(doc, below(path, "/content").as_str())?;
        let object = optional_text(doc, below(path, "/object").as_str())?;
        let status = optional_text(doc, below(path, "/status").as_str())?;
        Some(ConversationItem::Message { id, role, content, object, status })
    } else if same_text(&kind, "function_call") {
        let id = required_text(doc, below(path, "/id").as_str())?;
        let name = required_text(doc, below(path, "/name").as_str())?;
        let arguments = required_text(doc, below(path, "/arguments").as_str())?;
        let call_id = required_text(doc, below(path, "/call_id").as_str())?;
        let object = optional_text(doc, below(path, "/object").as_str())?;
        let status = optional_text(doc, below(path, "/status").as_str())?;
        Some(ConversationItem::FunctionCall { id, name, arguments, call_id, object, status })
    } else if same_text(&kind, "function_call_output") {
        let id = required_text(doc, below(path, "/id").as_str())?;
        let call_id = required_text(doc, below(path, "/call_id").as_str())?;
        let object = optional_text(doc, below(path, "/object").as_str())?;
        let status = optional_text(doc, below(path, "/status").as_str())?;
        Some(ConversationItem::FunctionCallOutput { id, call_id, object, status })
    } else {
        None
    }
}

/// Whether `e` is the event on a new item of the conversation that the
/// document describes.
pub open spec fn is_item_created_event(c: JsonContents, e: ConversationItemCreatedEvent) -> bool {
    &&& optional_text_at(c, "/event_id"@) == Some(chars_of(e.event_id))
    &&& optional_text_at(c, "/previous_item_id"@) == Some(chars_of(e.previous_item_id))
    &&& is_conversation_item(c, "/item"@, e.item)
}

/// Decodes an event on a new item of the conversation.
pub fn decode_item_created_event(doc: &serde_json::Value) -> (res: Option<
    ConversationItemCreatedEvent,
>)
    ensures
        match res {
            Some(e) => is_item_created_event(contents(doc), e),
            None => forall|e: ConversationItemCreatedEvent|
                !is_item_created_event(contents(doc), e),
        },
{
    let event_id = optional_text(doc, "/event_id")?;
    let previous_item_id = optional_text(doc, "/previous_item_id")?;
    let item = decode_conversation_item(doc, "/item")?;
    Some(ConversationItemCreatedEvent { event_id, previous_item_id, item })
}

/// Whether `m` is the event that the document describes: the `type` of
/// the document announces the kind of `m`, and the fields of the document
/// are those of `m`.
pub open spec fn is_message(c: JsonContents, m: TranscriptionMessage) -> bool {
    &&& text_at(c, "/type"@) matches Some(tag)
    &&& EventKind::of_tag(tag) == Some(m.kind_of())
    &&& match m {
        TranscriptionMessage::Error(e) => is_error_event(c, e),
        TranscriptionMessage::SessionCreated(e) => is_session_event(c, e),
        TranscriptionMessage::SessionUpdated(e) => is_session_event(c, e),
        TranscriptionMessage::SpeechStarted(e) => is_speech_boundary_event(c, e),
        TranscriptionMessage::SpeechStopped(e) => is_speech_boundary_event(c, e),
        TranscriptionMessage::SpeechCommitted(e) => is_speech_committed_event(c, e),
        TranscriptionMessage::ConversationItemCreated(e) => is_item_created_event(c, e),
        TranscriptionMessage::TranscriptionDelta(e) => is_delta_event(c, e),
        TranscriptionMessage::TranscriptionCompleted(e) => is_completed_event(c, e),
    }
}

/// Whether `event` is what decoding a document with the contents `c`
/// gives: the event that it describes, or `None` where it describes none.
pub open spec fn is_decoded(c: JsonContents, event: Option<TranscriptionMessage>) -> bool {
    match event {
        Some(m) => is_message(c, m),
        None => forall|m: TranscriptionMessage| !is_message(c, m),
    }
}

/// Decodes the event that a document describes.
pub fn decode_event(doc: &serde_json::Value) -> (res: Option<TranscriptionMessage>)
    ensures
        is_decoded(contents(doc), res),
{
    let tag = required_text(doc, "/type")?;
    let kind = EventKind::from_tag(&tag)?;
    match kind {
        EventKind::Error => Some(TranscriptionMessage::Error(decode_error_event(doc)?)),
        EventKind::SessionCreated => Some(
            TranscriptionMessage::SessionCreated(decode_session_event(doc)?),
        ),
        EventKind::SessionUpdated => Some(
            TranscriptionMessage::SessionUpdated(decode_session_event(doc)?),
        ),
        EventKind::SpeechStarted => Some(
            TranscriptionMessage::SpeechStarted(decode_speech_boundary_event(doc)?),
        ),
        EventKind::SpeechStopped => Some(
            TranscriptionMessage::SpeechStopped(decode_speech_boundary_event(doc)?),
        ),
        EventKind::SpeechCommitted => Some(
            TranscriptionMessage::SpeechCommitted(decode_speech_committed_event(doc)?),
        ),
        EventKind::ConversationItemCreated => Some(
            TranscriptionMessage::ConversationItemCreated(decode_item_created_event(doc)?),
        ),
        EventKind::TranscriptionDelta => Some(
            TranscriptionMessage::TranscriptionDelta(decode_delta_event(doc)?),
        ),
        EventKind::TranscriptionCompleted => Some(
            TranscriptionMessage::TranscriptionCompleted(decode_completed_event(doc)?),
        ),
    }
}

/// Whether `event` is what decoding `text` gives: the event that the JSON
/// document describes, and `None` for a text that is no JSON document or
/// describes no event.
pub open spec fn is_decoded_text(text: Seq<char>, event: Option<TranscriptionMessage>) -> bool {
    match json_document(text) {
        Some(c) => is_decoded(c, event),
        None => event is None,
    }
}

/// Decodes the event that a text frame holds.
pub fn decode_text(text: &str) -> (res: Option<TranscriptionMessage>)
    ensures
        is_decoded_text(text@, res),
{
    match parse_json(text) {
        Some(doc) => decode_event(&doc),
        None => None,
    }
}

} // verus!
