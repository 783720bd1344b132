//! The body of a response of the responses API.

use vstd::prelude::*;
use crate::json::JsonContents;
use crate::json::array_len;
use crate::json::array_len_at;
use crate::json::below;
use crate::json::contents;
use crate::json::element;
use crate::json::element_path;
use crate::json::i32_at;
use crate::json::json_document;
use crate::json::parse_json;
use crate::json::required_i32;
use crate::json::required_text;
use crate::json::text_at;
use crate::text::same_text;

verus! {

#[derive(Debug)]
pub struct Body {
    pub id: String,
    pub output: Vec<Output>,
    pub status: Status,
    pub usage: Usage,
}

#[derive(Debug)]
pub enum Output {
    Message(MessageOutput),
    FileSearchToolCall(FileSearchToolCallOutput),
    FunctionToolCall(FunctionToolCallOutput),
    WebSearchToolCall(WebSearchToolCallOutput),
    ComputerToolCall(ComputerToolCallOutput),
    Reasoning(ReasoningOutput),
    CodeInterpreterToolCall(CodeInterpreterToolCallOutput),
    LocalShellCall(LocalShellCallOutput),
    MCPToolCall(MCPToolCallOutput),
    MCPToolList(MCPToolListOutput),
    MCPApprovalRequest(MCPApprovalRequestOutput),
    CustomToolCall(CustomToolCallOutput),
}

#[derive(Debug)]
pub struct MessageOutput {
    pub id: String,
    pub content: Vec<MessageOutputContent>,
}

#[derive(Debug)]
pub enum MessageOutputContent {
    OutputText(OutputTextContent),
    Refusal(RefusalContent),
}

#[derive(Debug)]
pub struct OutputTextContent {
    pub annotations: Vec<Annotation>,
    pub text: String,
}

#[derive(Debug)]
pub enum Annotation {
    FileCitation(FileCitation),
    UrlCitation(URLCitation),
    ContainerFileCitation(ContainerFileCitation),
    FilePath(FilePath),
}

#[derive(Debug)]
pub struct FileCitation {
    pub file_id: String,
    pub filename: String,
    pub index: i32,
}

#[derive(Debug)]
pub struct URLCitation {
    pub end_index: i32,
    pub start_index: i32,
    pub title: String,
    pub url: String,
}

#[derive(Debug)]
pub struct ContainerFileCitation {
    pub container_id: String,
    pub end_index: i32,
    pub file_id: String,
    pub filename: String,
    pub start_index: i32,
}

#[derive(Debug)]
pub struct FilePath {
    pub file_id: String,
    pub index: i32,
}

#[derive(Debug)]
pub struct RefusalContent {
    pub refusal: String,
}

#[derive(Debug)]
pub struct FileSearchToolCallOutput {}

#[derive(Debug)]
pub struct FunctionToolCallOutput {}

#[derive(Debug)]
pub struct WebSearchToolCallOutput {}

#[derive(Debug)]
pub struct ComputerToolCallOutput {}

#[derive(Debug)]
pub struct ReasoningOutput {}

#[derive(Debug)]
pub struct CodeInterpreterToolCallOutput {}

#[derive(Debug)]
pub struct LocalShellCallOutput {}

#[derive(Debug)]
pub struct MCPToolCallOutput {}

#[derive(Debug)]
pub struct MCPToolListOutput {}

#[derive(Debug)]
pub struct MCPApprovalRequestOutput {}

#[derive(Debug)]
pub struct CustomToolCallOutput {}

#[derive(Clone, Copy, Debug, PartialEq, Eq, Structural)]
pub enum Status {
    Completed,
    Failed,
    InProgress,
    Cancelled,
    Queued,
    Incomplete,
}

#[derive(Clone, Copy, Debug, PartialEq, Eq, Structural)]
pub struct InputTokenDetails {
    pub cached_tokens: i32,
}

#[derive(Clone, Copy, Debug, PartialEq, Eq, Structural)]
pub struct OutputTokenDetails {
    pub reasoning_tokens: i32,
}

#[derive(Clone, Copy, Debug, PartialEq, Eq, Structural)]
pub struct Usage {
    pub input_tokens: i32,
    pub input_tokens_details: InputTokenDetails,
    pub output_tokens: i32,
    pub output_tokens_details: OutputTokenDetails,
    pub total_tokens: i32,
}

/// Whether `a` is the annotation that stands at `path`: the `type` there
/// says which annotation it is.
pub open spec fn is_annotation(c: JsonContents, path: Seq<char>, a: Annotation) -> bool {
    text_at(c, path + "/type"@) matches Some(kind) && if kind == "file_citation"@ {
        &&& a matches Annotation::FileCitation(cite)
        &&& text_at(c, path + "/file_id"@) == Some(cite.file_id@)
        &&& text_at(c, path + "/filename"@) == Some(cite.filename@)
        &&& i32_at(c, path + "/index"@) == Some(cite.index)
    } else if kind == "url_citation"@ {
        &&& a matches Annotation::UrlCitation(cite)
        &&& i32_at(c, path + "/end_index"@) == Some(cite.end_index)
        &&& i32_at(c, path + "/start_index"@) == Some(cite.start_index)
        &&& text_at(c, path + "/title"@) == Some(cite.title@)
        &&& text_at(c, path + "/url"@) == Some(cite.url@)
    } else if kind == "container_file_citation"@ {
        &&& a matches Annotation::ContainerFileCitation(cite)
        &&& text_at(c, path + "/container_id"@) == Some(cite.container_id@)
        &&& i32_at(c, path + "/end_index"@) == Some(cite.end_index)
        &&& text_at(c, path + "/file_id"@) == Some(cite.file_id@)
        &&& text_at(c, path + "/filename"@) == Some(cite.filename@)
        &&& i32_at(c, path + "/start_index"@) == Some(cite.start_index)
    } else if kind == "file_path"@ {
        &&& a matches Annotation::FilePath(file)
        &&& text_at(c, path + "/file_id"@) == Some(file.file_id@)
        &&& i32_at(c, path + "/index"@) == Some(file.index)
    } else {
        false
    }
}

fn decode_annotation(doc: &serde_json::Value, path: &str) -> (res: Option<Annotation>)
    ensures
        match res {
            Some(a) => is_annotation(contents(doc), path@, a),
            None => forall|a: Annotation| !is_annotation(contents(doc), path@, a),
        },
{
    let kind = required_text(doc, below(path, "/type").as_str())?;
    if same_text(&kind, "file_citation") {
        let file_id = required_text(doc, below(path, "/file_id").as_str())?;
        let filename = required_text(doc, below(path, "/filename").as_str())?;
        let index = required_i32(doc, below(path, "/index").as_str())?;
        Some(Annotation::FileCitation(FileCitation { file_id, filename, index }))
    } else if same_text(&kind, "url_citation") {
        let end_index = required_i32(doc, below(path, "/end_index").as_str())?;
        let start_index = required_i32(doc, below(path, "/start_index").as_str())?;
        let title = required_text(doc, below(path, "/title").as_str())?;
        let url = required_text(doc, below(path, "/url").as_str())?;
        Some(Annotation::UrlCitation(URLCitation { end_index, start_index, title, url }))
    } else if same_text(&kind, "container_file_citation") {
        let container_id = required_text(doc, below(path, "/container_id").as_str())?;
        let end_index = required_i32(doc, below(path, "/end_index").as_str())?;
        let file_id = required_text(doc, below(path, "/file_id").as_str())?;
        let filename = required_text(doc, below(path, "/filename").as_str())?;
        let start_index = required_i32(doc, below(path, "/start_index").as_str())?;
        Some(
            Annotation::ContainerFileCitation(
                ContainerFileCitation { container_id, end_index, file_id, filename, start_index },
            ),
        )
    } else if same_text(&kind, "file_path") {
        let file_id = required_text(doc, below(path, "/file_id").as_str())?;
        let index = required_i32(doc, below(path, "/index").as_str())?;
        Some(Annotation::FilePath(FilePath { file_id, index }))
    } else {
        None
    }
}

/// Whether `list` is the annotations that stand in the array at `path`,
/// element for element.
pub open spec fn is_annotation_list(c: JsonContents, path: Seq<char>, list: Seq<Annotation>) -> bool {
    &&& array_len_at(c, path) == Some(list.len())
    &&& forall|i: int|
        0 <= i < list.len() ==> is_annotation(c, element_path(path, i), #[trigger] list[i])
}

fn decode_annotation_list(doc: &serde_json::Value, path: &str) -> (res: Option<Vec<Annotation>>)
    ensures
        match res {
            Some(list) => is_annotation_list(contents(doc), path@, list@),
            None => forall|list: Seq<Annotation>| !is_annotation_list(contents(doc), path@, list),
        },
{
    let len = array_len(doc, path)?;
    let mut list: Vec<Annotation> = Vec::new();
    let mut i: usize = 0;
    while i < len
        invariant
            i <= len,
            array_len_at(contents(doc), path@) == Some(len as nat),
            list@.len() == i,
            forall|j: int|
                0 <= j < i ==> is_annotation(
                    contents(doc),
                    element_path(path@, j),
                    #[trigger] list@[j],
                ),
        decreases len - i,
    {
        match decode_annotation(doc, element(path, i).as_str()) {
            Some(a) => {
                list.push(a);
            },
            None => {
                assert forall|other: Seq<Annotation>|
                    !is_annotation_list(contents(doc), path@, other) by {
                    if is_annotation_list(contents(doc), path@, other) {
                        assert(is_annotation(
                            contents(doc),
                            element_path(path@, i as int),
                            other[i as int],
                        ));
                    }
                }
                return None;
            },
        }
        i = i + 1;
    }
    Some(list)
}

/// Whether `content` is the part of a message that stands at `path`: a
/// text with its annotations, or a refusal.
pub open spec fn is_output_content(c: JsonContents, path: Seq<char>, content: MessageOutputContent) -> bool {
    text_at(c, path + "/type"@) matches Some(kind) && if kind == "output_text"@ {
        &&& content matches MessageOutputContent::OutputText(txt)
        &&& is_annotation_list(c, path + "/annotations"@, txt.annotations@)
        &&& text_at(c, path + "/text"@) == Some(txt.text@)
    } else if kind == "refusal"@ {
        &&& content matches MessageOutputContent::Refusal(no)
        &&& text_at(c, path + "/refusal"@) == Some(no.refusal@)
    } else {
        false
    }
}

fn decode_output_content(doc: &serde_json::Value, path: &str) -> (res: Option<
    MessageOutputContent,
>)
    ensures
        match res {
            Some(content) => is_output_content(contents(doc), path@, content),
            None => forall|content: MessageOutputContent|
                !is_output_content(contents(doc), path@, content),
        },
{
    let kind = required_text(doc, below(path, "/type").as_str())?;
    if same_text(&kind, "output_text") {
        let annotations = decode_annotation_list(doc, below(path, "/annotations").as_str())?;
        let text = required_text(doc, below(path, "/text").as_str())?;
        Some(MessageOutputContent::OutputText(OutputTextContent { annotations, text }))
    } else if same_text(&kind, "refusal") {
        let refusal = required_text(doc, below(path, "/refusal").as_str())?;
        Some(MessageOutputContent::Refusal(RefusalContent { refusal }))
    } else {
        None
    }
}

/// Whether `list` is the parts of a message that stand in the array at
/// `path`, element for element.
pub open spec fn is_output_content_list(
    c: JsonContents,
    path: Seq<char>,
    list: Seq<MessageOutputContent>,
) -> bool {
    &&& array_len_at(c, path) == Some(list.len())
    &&& forall|i: int|
        0 <= i < list.len() ==> is_output_content(c, element_path(path, i), #[trigger] list[i])
}

fn decode_output_content_list(doc: &serde_json::Value, path: &str) -> (res: Option<
    Vec<MessageOutputContent>,
>)
    ensures
        match res {
            Some(list) => is_output_content_list(contents(doc), path@, list@),
            None => forall|list: Seq<MessageOutputContent>|
                !is_output_content_list(contents(doc), path@, list),
        },
{
    let len = array_len(doc, path)?;
    let mut list: Vec<MessageOutputContent> = Vec::new();
    let mut i: usize = 0;
    while i < len
        invariant
            i <= len,
            array_len_at(contents(doc), path@) == Some(len as nat),
            list@.len() == i,
            forall|j: int|
                0 <= j < i ==> is_output_content(
                    contents(doc),
                    element_path(path@, j),
                    #[trigger] list@[j],
                ),
        decreases len - i,
    {
        match decode_output_content(doc, element(path, i).as_str()) {
            Some(content) => {
                list.push(content);
            },
            None => {
                assert forall|other: Seq<MessageOutputContent>|
                    !is_output_content_list(contents(doc), path@, other) by {
                    if is_output_content_list(contents(doc), path@, other) {
                        assert(is_output_content(
                            contents(doc),
                            element_path(path@, i as int),
                            other[i as int],
                        ));
                    }
                }
                return None;
            },
        }
        i = i + 1;
    }
    Some(list)
}

/// Whether `output` is the output that stands at `path`: the `type` there
/// says which output it is, and of a message the identifier and the parts
/// are read.
pub open spec fn is_output(c: JsonContents, path: Seq<char>, output: Output) -> bool {
    text_at(c, path + "/type"@) matches Some(kind) && if kind == "message"@ {
        &&& output matches Output::Message(message)
        &&& text_at(c, path + "/id"@) == Some(message.id@)
        &&& is_output_content_list(c, path + "/content"@, message.content@)
    } else if kind == "file_search_tool_call"@ {
        output is FileSearchToolCall
    } else if kind == "function_tool_call"@ {
        output is FunctionToolCall
    } else if kind == "web_search_tool_call"@ {
        output is WebSearchToolCall
    } else if kind == "computer_tool_call"@ {
        output is ComputerToolCall
    } else if kind == "reasoning"@ {
        output is Reasoning
    } else if kind == "code_interpreter_tool_call"@ {
        output is CodeInterpreterToolCall
    } else if kind == "local_shell_call"@ {
        output is LocalShellCall
    } else if kind == "m_c_p_tool_call"@ {
        output is MCPToolCall
    } else if kind == "m_c_p_tool_list"@ {
        output is MCPToolList
    } else if kind == "m_c_p_approval_request"@ {
        output is MCPApprovalRequest
    } else if kind == "custom_tool_call"@ {
        output is CustomToolCall
    } else {
        false
    }
}

fn decode_output(doc: &serde_json::Value, path: &str) -> (res: Option<Output>)
    ensures
        match res {
            Some(output) => is_output(contents(doc), path@, output),
            None => forall|output: Output| !is_output(contents(doc), path@, output),
        },
{
    let kind = required_text(doc, below(path, "/type").as_str())?;
    if same_text(&kind, "message") {
        let id = required_text(doc, below(path, "/id").as_str())?;
        let content = decode_output_content_list(doc, below(path, "/content").as_str())?;
        Some(Output::Message(MessageOutput { id, content }))
    } else if same_text(&kind, "file_search_tool_call") {
        Some(Output::FileSearchToolCall(FileSearchToolCallOutput {  }))
    } else if same_text(&kind, "function_tool_call") {
        Some(Output::FunctionToolCall(FunctionToolCallOutput {  }))
    } else if same_text(&kind, "web_search_tool_call") {
        Some(Output::WebSearchToolCall(WebSearchToolCallOutput {  }))
    } else if same_text(&kind, "computer_tool_call") {
        Some(Output::ComputerToolCall(ComputerToolCallOutput {  }))
    } else if same_text(&kind, "reasoning") {
        Some(Output::Reasoning(ReasoningOutput {  }))
    } else if same_text(&kind, "code_interpreter_tool_call") {
        Some(Output::CodeInterpreterToolCall(CodeInterpreterToolCallOutput {  }))
    } else if same_text(&kind, "local_shell_call") {
        Some(Output::LocalShellCall(LocalShellCallOutput {  }))
    } else if same_text(&kind, "m_c_p_tool_call") {
        Some(Output::MCPToolCall(MCPToolCallOutput {  }))
    } else if same_text(&kind, "m_c_p_tool_list") {
        Some(Output::MCPToolList(MCPToolListOutput {  }))
    } else if same_text(&kind, "m_c_p_approval_request") {
        Some(Output::MCPApprovalRequest(MCPApprovalRequestOutput {  }))
    } else if same_text(&kind, "custom_tool_call") {
        Some(Output::CustomToolCall(CustomToolCallOutput {  }))
    } else {
        None
    }
}

/// Whether `list` is the outputs that stand in the array at `path`,
/// element for element.
pub open spec fn is_output_list(c: JsonContents, path: Seq<char>, list: Seq<Output>) -> bool {
    &&& array_len_at(c, path) == Some(list.len())
    &&& forall|i: int|
        0 <= i < list.len() ==> is_output(c, element_path(path, i), #[trigger] list[i])
}

fn decode_output_list(doc: &serde_json::Value, path: &str) -> (res: Option<Vec<Output>>)
    ensures
        match res {
            Some(list) => is_output_list(contents(doc), path@, list@),
            None => forall|list: Seq<Output>| !is_output_list(contents(doc), path@, list),
        },
{
    let len = array_len(doc, path)?;
    let mut list: Vec<Output> = Vec::new();
    let mut i: usize = 0;
    while i < len
        invariant
            i <= len,
            array_len_at(contents(doc), path@) == Some(len as nat),
            list@.len() == i,
            forall|j: int|
                0 <= j < i ==> is_output(contents(doc), element_path(path@, j), #[trigger] list@[j]),
        decreases len - i,
    {
        match decode_output(doc, element(path, i).as_str()) {
            Some(output) => {
                list.push(output);
            },
            None => {
                assert forall|other: Seq<Output>|
                    !is_output_list(contents(doc), path@, other) by {
                    if is_output_list(contents(doc), path@, other) {
                        assert(is_output(
                            contents(doc),
                            element_path(path@, i as int),
                            other[i as int],
                        ));
                    }
                }
                return None;
            },
        }
        i = i + 1;
    }
    Some(list)
}

/// The status that a text names, if it names one.
pub open spec fn status_of(name: Seq<char>) -> Option<Status> {
    if name == "completed"@ {
        Some(Status::Completed)
    } else if name == "failed"@ {
        Some(Status::Failed)
    } else if name == "in_progress"@ {
        Some(Status::InProgress)
    } else if name == "cancelled"@ {
        Some(Status::Cancelled)
    } else if name == "queued"@ {
        Some(Status::Queued)
    } else if name == "incomplete"@ {
        Some(Status::Incomplete)
    } else {
        None
    }
}

/// The status that the text at `path` names, if one stands there.
pub open spec fn status_at(c: JsonContents, path: Seq<char>) -> Option<Status> {
    match text_at(c, path) {
        Some(name) => status_of(name),
        None => None,
    }
}

fn decode_status(doc: &serde_json::Value, path: &str) -> (res: Option<Status>)
    ensures
        res == status_at(contents(doc), path@),
{
    let name = required_text(doc, path)?;
    if same_text(&name, "completed") {
        Some(Status::Completed)
    } else if same_text(&name, "failed") {
        Some(Status::Failed)
    } else if same_text(&name, "in_progress") {
        Some(Status::InProgress)
    } else if same_text(&name, "cancelled") {
        Some(Status::Cancelled)
    } else if same_text(&name, "queued") {
        Some(Status::Queued)
    } else if same_text(&name, "incomplete") {
        Some(Status::Incomplete)
    } else {
        None
    }
}

/// The usage that stands at `/usage`, where every count of it stands
/// there.
pub open spec fn usage_at(c: JsonContents) -> Option<Usage> {
    match (
        i32_at(c, "/usage/input_tokens"@),
        i32_at(c, "/usage/input_tokens_details/cached_tokens"@),
        i32_at(c, "/usage/output_tokens"@),
        i32_at(c, "/usage/output_tokens_details/reasoning_tokens"@),
        i32_at(c, "/usage/total_tokens"@),
    ) {
        (
            Some(input_tokens),
            Some(cached_tokens),
            Some(output_tokens),
            Some(reasoning_tokens),
            Some(total_tokens),
        ) => Some(
            Usage {
                input_tokens,
                input_tokens_details: InputTokenDetails { cached_tokens },
                output_tokens,
                output_tokens_details: OutputTokenDetails { reasoning_tokens },
                total_tokens,
            },
        ),
        _ => None,
    }
}

fn decode_usage(doc: &serde_json::Value) -> (res: Option<Usage>)
    ensures
        res == usage_at(contents(doc)),
{
    let input_tokens = required_i32(doc, "/usage/input_tokens")?;
    let cached_tokens = required_i32(doc, "/usage/input_tokens_details/cached_tokens")?;
    let output_tokens = required_i32(doc, "/usage/output_tokens")?;
    let reasoning_tokens = required_i32(doc, "/usage/output_tokens_details/reasoning_tokens")?;
    let total_tokens = required_i32(doc, "/usage/total_tokens")?;
    Some(
        Usage {
            input_tokens,
            input_tokens_details: InputTokenDetails { cached_tokens },
            output_tokens,
            output_tokens_details: OutputTokenDetails { reasoning_tokens },
            total_tokens,
        },
    )
}

/// Whether `body` is the response that the document describes.
pub open spec fn is_body(c: JsonContents, body: Body) -> bool {
    &&& text_at(c, "/id"@) == Some(body.id@)
    &&& is_output_list(c, "/output"@, body.output@)
    &&& status_at(c, "/status"@) == Some(body.status)
    &&& usage_at(c) == Some(body.usage)
}

/// Whether `body` is what decoding a document with the contents `c`
/// gives: the response that it describes, or `None` where it describes
/// none.
pub open spec fn is_decoded_body(c: JsonContents, body: Option<Body>) -> bool {
    match body {
        Some(b) => is_body(c, b),
        None => forall|b: Body| !is_body(c, b),
    }
}

/// Whether `body` is what decoding `text` gives: the response that the
/// JSON document describes, and `None` for a text that is no JSON document
/// or describes no response.
pub open spec fn is_decoded_body_text(text: Seq<char>, body: Option<Body>) -> bool {
    match json_document(text) {
        Some(c) => is_decoded_body(c, body),
        None => body is None,
    }
}

impl Body {
    /// Decodes the response that a document describes. Fields that are
    /// unknown are passed over; a field that is missing, or that holds
    /// something else than it should, makes the document no response.
    pub fn from_document(doc: &serde_json::Value) -> (res: Option<Body>)
        ensures
            is_decoded_body(contents(doc), res),
    {
        let id = required_text(doc, "/id")?;
        let output = decode_output_list(doc, "/output")?;
        let status = decode_status(doc, "/status")?;
        let usage = decode_usage(doc)?;
        Some(Body { id, output, status, usage })
    }

    /// Decodes the response that a text holds.
    pub fn from_json(text: &str) -> (res: Option<Body>)
        ensures
            is_decoded_body_text(text@, res),
    {
        match parse_json(text) {
            Some(doc) => Self::from_document(&doc),
            None => None,
        }
    }
}

} // verus!
