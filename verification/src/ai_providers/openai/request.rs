//! The body of a request to the responses API.

use vstd::prelude::*;
use std::collections::HashMap;
use crate::json::array_of;
use crate::json::chars_of;
use crate::json::json_array;
use crate::json::json_string;
use crate::json::optional_json;
use crate::json::push_name;
use crate::json::push_optional;
use crate::json::push_quoted;
use crate::json::quoted_name;
use crate::text::push_signed_decimal;
use crate::text::signed_decimal;
use crate::text::texts_of;
use crate::ai_providers::openai::OpenAIModelName;
use crate::session::model::Author;
use crate::session::model::InputModes;
use crate::session::model::OutputModes;
use crate::session::model::TextImage;
use crate::session::model::TextImageMessage;
use crate::session::model::TextMessage;

verus! {

#[derive(Debug)]
pub struct Body {
    pub included: Option<Vec<OutputOptions>>,
    pub input: Option<InputData>,
    pub instructions: Option<String>,
    pub model: OpenAIModelName,
}

#[derive(Debug)]
pub enum InputData {
    Single(String),
    Multiple(Vec<InputItem>),
}

#[derive(Debug)]
pub enum InputItem {
    Reference(InputItemReference),
    Message(Message),
}

#[allow(inconsistent_fields)]
#[derive(Debug)]
pub enum Message {
    UserMessage { status: Option<MessageStatus>, content: Vec<UserMessageTextImageItem> },
    AssistantMessage { status: MessageStatus, content: Vec<AssistantMessageTextItem>, id: MessageId },
}

#[derive(Debug)]
pub struct MessageId(pub String);

#[derive(Clone, Copy, Debug, PartialEq, Eq, Structural)]
pub enum Role {
    // Leaving out "System", as the "instructions' field in the request body
    // model makes more sense I believe
    User,
    Assistant,
}

#[derive(Clone, Copy, Debug, PartialEq, Eq, Structural)]
pub enum MessageStatus {
    InProgress,
    Completed,
    Incomplete,
}

pub trait UserMessageContentItem<I: InputModes> {

}

#[derive(Debug)]
pub enum UserMessageTextImageItem {
    InputText { text: String },
    InputImage { detail: ImageDetail, file_id: Option<String>, image_url: Option<String> },
}

#[derive(Clone, Copy, Debug, PartialEq, Eq, Structural)]
pub enum ImageDetail {
    High,
    Low,
    Auto(),
}

impl UserMessageContentItem<TextImageMessage> for UserMessageTextImageItem {

}

pub trait AssistantMessageContentItem<O: OutputModes> {

}

#[derive(Debug)]
pub enum AssistantMessageTextItem {
    OutputText { text: String, annotations: Vec<Annotation> },
    Refusal { refusal: String },
}

impl AssistantMessageContentItem<TextMessage> for AssistantMessageTextItem {

}

#[derive(Clone, Copy, Debug, PartialEq, Eq, Structural)]
pub enum LiteralOutputText {
    OutputText,
}

#[derive(Debug)]
pub enum Annotation {
    FileCitation { file_id: String, filename: String, index: i32 },
    UrlCitation { start_index: i32, end_index: i32, title: String, url: String },
    ContainerFileCitation {
        container_id: String,
        file_id: String,
        filename: String,
        start_index: i32,
        end_index: i32,
    },
    FilePath { file_id: String, index: i32 },
}

#[derive(Debug)]
pub struct InputItemReference {
    pub id: String,
}

/// Which tool the model is to use: the name of a choice, or the settings
/// of a tool.
#[derive(Debug)]
pub enum ToolChoice {
    Choice(String),
    Config(HashMap<String, serde_json::Value>),
}

#[derive(Clone, Copy, Debug, PartialEq, Eq, Structural)]
pub enum OutputOptions {
    CodeInterpreterCallOutputs,
    ComputerCallOutputOutputImageUrl,
    FileSearchCallResults,
    MessageInputImageImageUrl,
    MessageOutputTextLogprobs,
    ReasoningEncryptedContent,
}

impl OutputOptions {
    /// The name of the option as the API spells it.
    pub open spec fn name_text(&self) -> Seq<char> {
        match self {
            OutputOptions::CodeInterpreterCallOutputs => "code_interpreter_call.outputs"@,
            OutputOptions::ComputerCallOutputOutputImageUrl => "computer_call_output.output.image_url"@,
            OutputOptions::FileSearchCallResults => "file_search_call.results"@,
            OutputOptions::MessageInputImageImageUrl => "message.input_image.image_url"@,
            OutputOptions::MessageOutputTextLogprobs => "message.output_text.logprobs"@,
            OutputOptions::ReasoningEncryptedContent => "reasoning.encrypted_content"@,
        }
    }

    /// The name of the option as the API spells it.
    pub fn name(&self) -> (res: &'static str)
        ensures
            res@ == self.name_text(),
    {
        match self {
            OutputOptions::CodeInterpreterCallOutputs => "code_interpreter_call.outputs",
            OutputOptions::ComputerCallOutputOutputImageUrl => "computer_call_output.output.image_url",
            OutputOptions::FileSearchCallResults => "file_search_call.results",
            OutputOptions::MessageInputImageImageUrl => "message.input_image.image_url",
            OutputOptions::MessageOutputTextLogprobs => "message.output_text.logprobs",
            OutputOptions::ReasoningEncryptedContent => "reasoning.encrypted_content",
        }
    }
}

/// Whether every part of a message is a text.
pub open spec fn is_all_text(parts: Seq<TextImage>) -> bool {
    forall|i: int| 0 <= i < parts.len() ==> (#[trigger] parts[i]) is Text
}

/// The parts of a message as the content of a user's message: each text
/// becomes an input text.
pub open spec fn is_user_content(parts: Seq<TextImage>, content: Seq<UserMessageTextImageItem>) -> bool {
    &&& content.len() == parts.len()
    &&& forall|i: int|
        0 <= i < parts.len() ==> (#[trigger] content[i] matches UserMessageTextImageItem::InputText {
            text,
        } && parts[i] == TextImage::Text(text))
}

/// The parts of a message as the content of an assistant's message: each
/// text becomes an output text without annotations.
pub open spec fn is_assistant_content(
    parts: Seq<TextImage>,
    content: Seq<AssistantMessageTextItem>,
) -> bool {
    &&& content.len() == parts.len()
    &&& forall|i: int|
        0 <= i < parts.len() ==> (#[trigger] content[i] matches AssistantMessageTextItem::OutputText {
            text,
            annotations,
        } && parts[i] == TextImage::Text(text) && annotations@.len() == 0)
}

/// What a message of the conversation is sent as: a user's message
/// without a status, or an assistant's message that is completed and has
/// no identifier.
pub open spec fn is_input_item(message: TextImageMessage, item: InputItem) -> bool {
    match message.author {
        Author::User => item matches InputItem::Message(
            Message::UserMessage { status, content },
        ) && status is None && is_user_content(message.parts@, content@),
        Author::Assistant => item matches InputItem::Message(
            Message::AssistantMessage { status, content, id },
        ) && status == MessageStatus::Completed && is_assistant_content(message.parts@, content@)
            && id.0@.len() == 0,
    }
}

fn user_content(parts: &Vec<TextImage>) -> (res: Option<Vec<UserMessageTextImageItem>>)
    ensures
        match res {
            Some(content) => is_all_text(parts@) && is_user_content(parts@, content@),
            None => !is_all_text(parts@),
        },
{
    let mut content: Vec<UserMessageTextImageItem> = Vec::new();
    let mut i: usize = 0;
    while i < parts.len()
        invariant
            i <= parts@.len(),
            is_all_text(parts@.take(i as int)),
            is_user_content(parts@.take(i as int), content@),
        decreases parts@.len() - i,
    {
        match &parts[i] {
            TextImage::Text(text) => {
                content.push(UserMessageTextImageItem::InputText { text: text.clone() });
            },
            TextImage::Base64Image(_) | TextImage::ImageUrl(_) => {
                return None;
            },
        }
        i = i + 1;
    }
    assert(parts@.take(i as int) =~= parts@);
    Some(content)
}

fn assistant_content(parts: &Vec<TextImage>) -> (res: Option<Vec<AssistantMessageTextItem>>)
    ensures
        match res {
            Some(content) => is_all_text(parts@) && is_assistant_content(parts@, content@),
            None => !is_all_text(parts@),
        },
{
    let mut content: Vec<AssistantMessageTextItem> = Vec::new();
    let mut i: usize = 0;
    while i < parts.len()
        invariant
            i <= parts@.len(),
            is_all_text(parts@.take(i as int)),
            is_assistant_content(parts@.take(i as int), content@),
        decreases parts@.len() - i,
    {
        match &parts[i] {
            TextImage::Text(text) => {
                content.push(
                    AssistantMessageTextItem::OutputText {
                        text: text.clone(),
                        annotations: Vec::new(),
                    },
                );
            },
            TextImage::Base64Image(_) | TextImage::ImageUrl(_) => {
                return None;
            },
        }
        i = i + 1;
    }
    assert(parts@.take(i as int) =~= parts@);
    Some(content)
}

impl InputItem {
    /// What a message of the conversation is sent as. Only texts can be
    /// sent: a message that holds an image has no item.
    pub fn from(message: &TextImageMessage) -> (res: Option<Self>)
        ensures
            match res {
                Some(item) => is_all_text(message.parts@) && is_input_item(*message, item),
                None => !is_all_text(message.parts@),
            },
    {
        let api_message = match message.author {
            Author::User => {
                let content = match user_content(&message.parts) {
                    Some(content) => content,
                    None => {
                        return None;
                    },
                };
                Message::UserMessage { status: None, content }
            },
            Author::Assistant => {
                let content = match assistant_content(&message.parts) {
                    Some(content) => content,
                    None => {
                        return None;
                    },
                };
                // Fields like status and ID are not tracked in the
                // application model, as another provider may not have them.
                Message::AssistantMessage {
                    status: MessageStatus::Completed,
                    content,
                    id: MessageId(String::new()),
                }
            },
        };

        Some(InputItem::Message(api_message))
    }
}

impl MessageStatus {
    /// The name of the status as the API spells it.
    pub open spec fn name_text(&self) -> Seq<char> {
        match self {
            MessageStatus::InProgress => "in_progress"@,
            MessageStatus::Completed => "completed"@,
            MessageStatus::Incomplete => "incomplete"@,
        }
    }

    /// The name of the status as the API spells it.
    pub fn name(&self) -> (res: &'static str)
        ensures
            res@ == self.name_text(),
    {
        match self {
            MessageStatus::InProgress => "in_progress",
            MessageStatus::Completed => "completed",
            MessageStatus::Incomplete => "incomplete",
        }
    }
}

impl ImageDetail {
    /// The detail as JSON: its name, or for the automatic detail an object
    /// that holds the name with nothing to it.
    pub open spec fn json_text(&self) -> Seq<char> {
        match self {
            ImageDetail::High => "\"high\""@,
            ImageDetail::Low => "\"low\""@,
            ImageDetail::Auto() => "{\"auto\":[]}"@,
        }
    }

    /// The detail as JSON.
    pub fn to_json(&self) -> (res: &'static str)
        ensures
            res@ == self.json_text(),
    {
        match self {
            ImageDetail::High => "\"high\"",
            ImageDetail::Low => "\"low\"",
            ImageDetail::Auto() => "{\"auto\":[]}",
        }
    }
}

impl Annotation {
    /// The annotation as a JSON object: its `type` first, then its fields.
    pub open spec fn json_text(&self) -> Seq<char> {
        match self {
            Annotation::FileCitation { file_id, filename, index } => {
                "{\"type\":\"file_citation\",\"file_id\":"@ + json_string(file_id@)
                    + ",\"filename\":"@ + json_string(filename@) + ",\"index\":"@ + signed_decimal(
                    *index as int,
                ) + "}"@
            },
            Annotation::UrlCitation { start_index, end_index, title, url } => {
                "{\"type\":\"url_citation\",\"start_index\":"@ + signed_decimal(*start_index as int)
                    + ",\"end_index\":"@ + signed_decimal(*end_index as int) + ",\"title\":"@
                    + json_string(title@) + ",\"url\":"@ + json_string(url@) + "}"@
            },
            Annotation::ContainerFileCitation {
                container_id,
                file_id,
                filename,
                start_index,
                end_index,
            } => {
                "{\"type\":\"container_file_citation\",\"container_id\":"@ + json_string(
                    container_id@,
                ) + ",\"file_id\":"@ + json_string(file_id@) + ",\"filename\":"@ + json_string(
                    filename@,
                ) + ",\"start_index\":"@ + signed_decimal(*start_index as int) + ",\"end_index\":"@
                    + signed_decimal(*end_index as int) + "}"@
            },
            Annotation::FilePath { file_id, index } => {
                "{\"type\":\"file_path\",\"file_id\":"@ + json_string(file_id@) + ",\"index\":"@
                    + signed_decimal(*index as int) + "}"@
            },
        }
    }

    /// Writes the annotation as JSON.
    pub fn to_json(&self) -> (res: String)
        ensures
            res@ == self.json_text(),
    {
        match self {
            Annotation::FileCitation { file_id, filename, index } => {
                let mut out = String::from_str("{\"type\":\"file_citation\",\"file_id\":");
                push_quoted(&mut out, file_id.as_str());
                out.append(",\"filename\":");
                push_quoted(&mut out, filename.as_str());
                out.append(",\"index\":");
                push_signed_decimal(&mut out, *index);
                out.append("}");
                out
            },
            Annotation::UrlCitation { start_index, end_index, title, url } => {
                let mut out = String::from_str("{\"type\":\"url_citation\",\"start_index\":");
                push_signed_decimal(&mut out, *start_index);
                out.append(",\"end_index\":");
                push_signed_decimal(&mut out, *end_index);
                out.append(",\"title\":");
                push_quoted(&mut out, title.as_str());
                out.append(",\"url\":");
                push_quoted(&mut out, url.as_str());
                out.append("}");
                out
            },
            Annotation::ContainerFileCitation {
                container_id,
                file_id,
                filename,
                start_index,
                end_index,
            } => {
                let mut out = String::from_str(
                    "{\"type\":\"container_file_citation\",\"container_id\":",
                );
                push_quoted(&mut out, container_id.as_str());
                out.append(",\"file_id\":");
                push_quoted(&mut out, file_id.as_str());
                out.append(",\"filename\":");
                push_quoted(&mut out, filename.as_str());
                out.append(",\"start_index\":");
                push_signed_decimal(&mut out, *start_index);
                out.append(",\"end_index\":");
                push_signed_decimal(&mut out, *end_index);
                out.append("}");
                out
            },
            Annotation::FilePath { file_id, index } => {
                let mut out = String::from_str("{\"type\":\"file_path\",\"file_id\":");
                push_quoted(&mut out, file_id.as_str());
                out.append(",\"index\":");
                push_signed_decimal(&mut out, *index);
                out.append("}");
                out
            },
        }
    }
}

/// The annotations as a JSON array.
pub open spec fn annotations_json(list: Seq<Annotation>) -> Seq<char> {
    json_array(list.map_values(|a: Annotation| a.json_text()))
}

fn annotations_to_json(list: &Vec<Annotation>) -> (res: String)
    ensures
        res@ == annotations_json(list@),
{
    let ghost all = list@.map_values(|a: Annotation| a.json_text());
    let mut items: Vec<String> = Vec::new();
    let mut i: usize = 0;
    while i < list.len()
        invariant
            i <= list@.len(),
            all == list@.map_values(|a: Annotation| a.json_text()),
            texts_of(items@) == all.take(i as int),
        decreases list@.len() - i,
    {
        let item = list[i].to_json();
        let ghost text = item@;
        let ghost before = items@;
        items.push(item);
        assert(texts_of(items@) =~= texts_of(before).push(text));
        assert(all.take(i + 1) =~= all.take(i as int).push(all[i as int]));
        i = i + 1;
    }
    assert(all.take(i as int) =~= all);
    array_of(&items)
}

impl UserMessageTextImageItem {
    /// The part as a JSON object: its `type` first, then its fields.
    pub open spec fn json_text(&self) -> Seq<char> {
        match self {
            UserMessageTextImageItem::InputText { text } => {
                "{\"type\":\"input_text\",\"text\":"@ + json_string(text@) + "}"@
            },
            UserMessageTextImageItem::InputImage { detail, file_id, image_url } => {
                "{\"type\":\"input_image\",\"detail\":"@ + detail.json_text() + ",\"file_id\":"@
                    + optional_json(chars_of(*file_id)) + ",\"image_url\":"@ + optional_json(
                    chars_of(*image_url),
                ) + "}"@
            },
        }
    }

    /// Writes the part as JSON.
    pub fn to_json(&self) -> (res: String)
        ensures
            res@ == self.json_text(),
    {
        match self {
            UserMessageTextImageItem::InputText { text } => {
                let mut out = String::from_str("{\"type\":\"input_text\",\"text\":");
                push_quoted(&mut out, text.as_str());
                out.append("}");
                out
            },
            UserMessageTextImageItem::InputImage { detail, file_id, image_url } => {
                let mut out = String::from_str("{\"type\":\"input_image\",\"detail\":");
                out.append(detail.to_json());
                out.append(",\"file_id\":");
                push_optional(&mut out, file_id);
                out.append(",\"image_url\":");
                push_optional(&mut out, image_url);
                out.append("}");
                out
            },
        }
    }
}

impl AssistantMessageTextItem {
    /// The part as a JSON object: its `type` first, then its fields.
    pub open spec fn json_text(&self) -> Seq<char> {
        match self {
            AssistantMessageTextItem::OutputText { text, annotations } => {
                "{\"type\":\"output_text\",\"text\":"@ + json_string(text@) + ",\"annotations\":"@
                    + annotations_json(annotations@) + "}"@
            },
            AssistantMessageTextItem::Refusal { refusal } => {
                "{\"type\":\"refusal\",\"refusal\":"@ + json_string(refusal@) + "}"@
            },
        }
    }

    /// Writes the part as JSON.
    pub fn to_json(&self) -> (res: String)
        ensures
            res@ == self.json_text(),
    {
        match self {
            AssistantMessageTextItem::OutputText { text, annotations } => {
                let mut out = String::from_str("{\"type\":\"output_text\",\"text\":");
                push_quoted(&mut out, text.as_str());
                out.append(",\"annotations\":");
                let list = annotations_to_json(annotations);
                out.append(list.as_str());
                out.append("}");
                out
            },
            AssistantMessageTextItem::Refusal { refusal } => {
                let mut out = String::from_str("{\"type\":\"refusal\",\"refusal\":");
                push_quoted(&mut out, refusal.as_str());
                out.append("}");
                out
            },
        }
    }
}

/// The parts of a user's message as a JSON array.
pub open spec fn user_content_json(list: Seq<UserMessageTextImageItem>) -> Seq<char> {
    json_array(list.map_values(|item: UserMessageTextImageItem| item.json_text()))
}

fn user_content_to_json(list: &Vec<UserMessageTextImageItem>) -> (res: String)
    ensures
        res@ == user_content_json(list@),
{
    let ghost all = list@.map_values(|item: UserMessageTextImageItem| item.json_text());
    let mut items: Vec<String> = Vec::new();
    let mut i: usize = 0;
    while i < list.len()
        invariant
            i <= list@.len(),
            all == list@.map_values(|item: UserMessageTextImageItem| item.json_text()),
            texts_of(items@) == all.take(i as int),
        decreases list@.len() - i,
    {
        let item = list[i].to_json();
        let ghost text = item@;
        let ghost before = items@;
        items.push(item);
        assert(texts_of(items@) =~= texts_of(before).push(text));
        assert(all.take(i + 1) =~= all.take(i as int).push(all[i as int]));
        i = i + 1;
    }
    assert(all.take(i as int) =~= all);
    array_of(&items)
}

/// The parts of an assistant's message as a JSON array.
pub open spec fn assistant_content_json(list: Seq<AssistantMessageTextItem>) -> Seq<char> {
    json_array(list.map_values(|item: AssistantMessageTextItem| item.json_text()))
}

fn assistant_content_to_json(list: &Vec<AssistantMessageTextItem>) -> (res: String)
    ensures
        res@ == assistant_content_json(list@),
{
    let ghost all = list@.map_values(|item: AssistantMessageTextItem| item.json_text());
    let mut items: Vec<String> = Vec::new();
    let mut i: usize = 0;
    while i < list.len()
        invariant
            i <= list@.len(),
            all == list@.map_values(|item: AssistantMessageTextItem| item.json_text()),
            texts_of(items@) == all.take(i as int),
        decreases list@.len() - i,
    {
        let item = list[i].to_json();
        let ghost text = item@;
        let ghost before = items@;
        items.push(item);
        assert(texts_of(items@) =~= texts_of(before).push(text));
        assert(all.take(i + 1) =~= all.take(i as int).push(all[i as int]));
        i = i + 1;
    }
    assert(all.take(i as int) =~= all);
    array_of(&items)
}

/// The status of a message that may be absent, as JSON.
pub open spec fn optional_status_json(status: Option<MessageStatus>) -> Seq<char> {
    match status {
        Some(status) => quoted_name(status.name_text()),
        None => "null"@,
    }
}

impl InputItem {
    /// The item as a JSON object: its `type` first, then for a message its
    /// `role`, and then its fields.
    pub open spec fn json_text(&self) -> Seq<char> {
        match self {
            InputItem::Reference(reference) => {
                "{\"type\":\"item_reference\",\"id\":"@ + json_string(reference.id@) + "}"@
            },
            InputItem::Message(Message::UserMessage { status, content }) => {
                "{\"type\":\"message\",\"role\":\"user\",\"status\":"@ + optional_status_json(
                    *status,
                ) + ",\"content\":"@ + user_content_json(content@) + "}"@
            },
            InputItem::Message(Message::AssistantMessage { status, content, id }) => {
                "{\"type\":\"message\",\"role\":\"assistant\",\"status\":"@ + quoted_name(
                    status.name_text(),
                ) + ",\"content\":"@ + assistant_content_json(content@) + ",\"id\":"@
                    + json_string(id.0@) + "}"@
            },
        }
    }

    /// Writes the item as JSON.
    pub fn to_json(&self) -> (res: String)
        ensures
            res@ == self.json_text(),
    {
        match self {
            InputItem::Reference(reference) => {
                let mut out = String::from_str("{\"type\":\"item_reference\",\"id\":");
                push_quoted(&mut out, reference.id.as_str());
                out.append("}");
                out
            },
            InputItem::Message(Message::UserMessage { status, content }) => {
                let mut out = String::from_str("{\"type\":\"message\",\"role\":\"user\",\"status\":");
                match status {
                    Some(status) => {
                        push_name(&mut out, status.name());
                    },
                    None => {
                        out.append("null");
                    },
                }
                out.append(",\"content\":");
                let list = user_content_to_json(content);
                out.append(list.as_str());
                out.append("}");
                out
            },
            InputItem::Message(Message::AssistantMessage { status, content, id }) => {
                let mut out = String::from_str(
                    "{\"type\":\"message\",\"role\":\"assistant\",\"status\":",
                );
                push_name(&mut out, status.name());
                out.append(",\"content\":");
                let list = assistant_content_to_json(content);
                out.append(list.as_str());
                out.append(",\"id\":");
                push_quoted(&mut out, id.0.as_str());
                out.append("}");
                out
            },
        }
    }
}

/// The items as a JSON array.
pub open spec fn input_items_json(list: Seq<InputItem>) -> Seq<char> {
    json_array(list.map_values(|item: InputItem| item.json_text()))
}

fn input_items_to_json(list: &Vec<InputItem>) -> (res: String)
    ensures
        res@ == input_items_json(list@),
{
    let ghost all = list@.map_values(|item: InputItem| item.json_text());
    let mut items: Vec<String> = Vec::new();
    let mut i: usize = 0;
    while i < list.len()
        invariant
            i <= list@.len(),
            all == list@.map_values(|item: InputItem| item.json_text()),
            texts_of(items@) == all.take(i as int),
        decreases list@.len() - i,
    {
        let item = list[i].to_json();
        let ghost text = item@;
        let ghost before = items@;
        items.push(item);
        assert(texts_of(items@) =~= texts_of(before).push(text));
        assert(all.take(i + 1) =~= all.take(i as int).push(all[i as int]));
        i = i + 1;
    }
    assert(all.take(i as int) =~= all);
    array_of(&items)
}

/// The names of the options as a JSON array.
pub open spec fn options_json(list: Seq<OutputOptions>) -> Seq<char> {
    json_array(list.map_values(|option: OutputOptions| quoted_name(option.name_text())))
}

fn options_to_json(list: &Vec<OutputOptions>) -> (res: String)
    ensures
        res@ == options_json(list@),
{
    let ghost all = list@.map_values(|option: OutputOptions| quoted_name(option.name_text()));
    let mut items: Vec<String> = Vec::new();
    let mut i: usize = 0;
    while i < list.len()
        invariant
            i <= list@.len(),
            all == list@.map_values(|option: OutputOptions| quoted_name(option.name_text())),
            texts_of(items@) == all.take(i as int),
        decreases list@.len() - i,
    {
        let mut item = String::new();
        push_name(&mut item, list[i].name());
        assert(item@ =~= quoted_name(list@[i as int].name_text()));
        let ghost text = item@;
        let ghost before = items@;
        items.push(item);
        assert(texts_of(items@) =~= texts_of(before).push(text));
        assert(all.take(i + 1) =~= all.take(i as int).push(all[i as int]));
        i = i + 1;
    }
    assert(all.take(i as int) =~= all);
    array_of(&items)
}

impl Body {
    /// What is asked to be included, as JSON: `null`, or the names of the
    /// options.
    pub open spec fn included_json(&self) -> Seq<char> {
        match self.included {
            Some(options) => options_json(options@),
            None => "null"@,
        }
    }

    /// The input as JSON: `null`, a single text, or the items.
    pub open spec fn input_json(&self) -> Seq<char> {
        match self.input {
            Some(InputData::Single(text)) => json_string(text@),
            Some(InputData::Multiple(items)) => input_items_json(items@),
            None => "null"@,
        }
    }

    /// The body as a JSON object: what to include, the input, the
    /// instructions and the name of the model.
    pub open spec fn json_text(&self) -> Seq<char> {
        "{\"include\":"@ + self.included_json() + ",\"input\":"@ + self.input_json()
            + ",\"instructions\":"@ + optional_json(chars_of(self.instructions)) + ",\"model\":"@
            + quoted_name(self.model.name_text()) + "}"@
    }

    /// Writes the body as JSON. Texts are quoted by `serde_json`.
    pub fn to_json(&self) -> (res: String)
        ensures
            res@ == self.json_text(),
    {
        let mut out = String::from_str("{\"include\":");
        match &self.included {
            Some(options) => {
                out.append(options_to_json(options).as_str());
            },
            None => {
                out.append("null");
            },
        }
        out.append(",\"input\":");
        match &self.input {
            Some(InputData::Single(text)) => {
                push_quoted(&mut out, text.as_str());
            },
            Some(InputData::Multiple(items)) => {
                let list = input_items_to_json(items);
                out.append(list.as_str());
            },
            None => {
                out.append("null");
            },
        }
        out.append(",\"instructions\":");
        push_optional(&mut out, &self.instructions);
        out.append(",\"model\":");
        push_name(&mut out, self.model.name());
        out.append("}");
        out
    }
}

} // verus!
