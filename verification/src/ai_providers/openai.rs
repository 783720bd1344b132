//! The models of OpenAI, asked through the responses API.

pub mod request;
pub mod response;

use vstd::prelude::*;
use crate::ai_providers::openai::request::Body as ResponseApiRequestBody;
use crate::ai_providers::openai::request::InputData;
use crate::ai_providers::openai::request::InputItem;
use crate::ai_providers::openai::request::is_all_text;
use crate::ai_providers::openai::request::is_input_item;
use crate::ai_providers::openai::response::Body as ResponsesApiResponseBody;
use crate::ai_providers::openai::response::MessageOutput;
use crate::ai_providers::openai::response::MessageOutputContent;
use crate::ai_providers::openai::response::Output;
use crate::session::model::AIModel;
use crate::session::model::Author;
use crate::session::model::ModelInput;
use crate::session::model::ModelOutput;
use crate::session::model::TextImageMessage;
use crate::session::model::TextMessage;

verus! {

/// Where the responses API listens.
pub const RESPONSES_URL: &'static str = "https://api.openai.com/v1/responses";

pub struct Gpt4_1Nano {
    api_key: String,
}

#[derive(Clone, Copy, Debug, PartialEq, Eq, Structural)]
pub enum OpenAIModelName {
    Gpt4_1Nano,
}

impl OpenAIModelName {
    /// The name of the model as the API spells it.
    pub open spec fn name_text(&self) -> Seq<char> {
        match self {
            OpenAIModelName::Gpt4_1Nano => "gpt-4.1-nano-2025-04-14"@,
        }
    }

    /// The name of the model as the API spells it.
    pub fn name(&self) -> (res: &'static str)
        ensures
            res@ == self.name_text(),
    {
        match self {
            OpenAIModelName::Gpt4_1Nano => "gpt-4.1-nano-2025-04-14",
        }
    }
}

/// Whether every message of a log holds texts only.
pub open spec fn is_text_log(log: Seq<TextImageMessage>) -> bool {
    forall|i: int| 0 <= i < log.len() ==> is_all_text((#[trigger] log[i]).parts@)
}

/// The messages of a log as the items of a request, message for message.
pub open spec fn is_input_of(log: Seq<TextImageMessage>, items: Seq<InputItem>) -> bool {
    items.len() == log.len() && forall|i: int|
        0 <= i < log.len() ==> is_input_item(#[trigger] log[i], items[i])
}

/// Whether a message of the model holds nothing but texts.
pub open spec fn is_answer(message: MessageOutput) -> bool {
    forall|i: int|
        0 <= i < message.content@.len() ==> (#[trigger] message.content@[i]) is OutputText
}

/// Whether every message among the outputs holds nothing but texts.
pub open spec fn is_readable(outputs: Seq<Output>) -> bool {
    forall|i: int|
        0 <= i < outputs.len() ==> ((#[trigger] outputs[i]) matches Output::Message(message)
            ==> is_answer(message))
}

/// The texts that a message of the model holds, in order.
pub open spec fn answer_texts(message: MessageOutput) -> Seq<Seq<char>> {
    message.content@.map_values(
        |content: MessageOutputContent|
            match content {
                MessageOutputContent::OutputText(txt) => txt.text@,
                MessageOutputContent::Refusal(no) => no.refusal@,
            },
    )
}

/// The texts of the messages among the outputs, message for message; what
/// is no message is passed over.
pub open spec fn answers(outputs: Seq<Output>) -> Seq<Seq<Seq<char>>>
    decreases outputs.len(),
{
    if outputs.len() == 0 {
        Seq::empty()
    } else {
        match outputs.last() {
            Output::Message(message) => answers(outputs.drop_last()).push(answer_texts(message)),
            _ => answers(outputs.drop_last()),
        }
    }
}

/// The messages of the assistant as contracts speak of them: the texts of
/// each.
pub open spec fn texts_of_items(items: Seq<TextMessage>) -> Seq<Seq<Seq<char>>> {
    items.map_values(|item: TextMessage| item.parts@.map_values(|part: String| part@))
}

fn read_answer(message: &MessageOutput) -> (res: Option<TextMessage>)
    ensures
        match res {
            Some(item) => is_answer(*message) && item.author == Author::Assistant
                && item.parts@.map_values(|part: String| part@) == answer_texts(*message),
            None => !is_answer(*message),
        },
{
    let mut parts: Vec<String> = Vec::new();
    let mut i: usize = 0;
    while i < message.content.len()
        invariant
            i <= message.content@.len(),
            forall|j: int| 0 <= j < i ==> (#[trigger] message.content@[j]) is OutputText,
            parts@.map_values(|part: String| part@) == answer_texts(*message).take(i as int),
        decreases message.content@.len() - i,
    {
        let ghost before = parts@;
        match &message.content[i] {
            MessageOutputContent::OutputText(txt) => {
                parts.push(txt.text.clone());
                assert(answer_texts(*message)[i as int] == txt.text@);
            },
            MessageOutputContent::Refusal(_no) => {
                return None;
            },
        }
        assert(parts@.map_values(|part: String| part@) =~= before.map_values(
            |part: String| part@,
        ).push(answer_texts(*message)[i as int]));
        i = i + 1;
        assert(parts@.map_values(|part: String| part@) =~= answer_texts(*message).take(i as int));
    }
    assert(answer_texts(*message).take(i as int) =~= answer_texts(*message));
    Some(TextMessage { author: Author::Assistant, parts })
}

impl Gpt4_1Nano {
    pub closed spec fn api_key(&self) -> Seq<char> {
        self.api_key@
    }

    #[must_use]
    pub fn new(api_key: String) -> (res: Self)
        ensures
            res.api_key() == api_key@,
    {
        Self { api_key }
    }

    /// The key to authorise a request with.
    pub fn bearer_auth(&self) -> (res: &str)
        ensures
            res@ == self.api_key(),
    {
        self.api_key.as_str()
    }

    /// Whether `body` is the request that asks the model with `input`: it
    /// holds the instructions, and the log of the conversation message for
    /// message. A log that holds an image cannot be sent, and has no body.
    pub open spec fn is_request_body(
        input: ModelInput<TextImageMessage>,
        body: Option<ResponseApiRequestBody>,
    ) -> bool {
        match body {
            Some(body) => {
                &&& is_text_log(input.log@)
                &&& body.included is None
                &&& body.instructions == Some(input.instructions)
                &&& body.model == OpenAIModelName::Gpt4_1Nano
                &&& body.input matches Some(InputData::Multiple(items))
                &&& is_input_of(input.log@, items@)
            },
            None => !is_text_log(input.log@),
        }
    }

    /// Whether `output` is what the response holds: the messages of the
    /// assistant, each with its texts, where what is no message is passed
    /// over. A response in which the model refuses cannot be handed on.
    pub open spec fn is_response_output(
        resp: ResponsesApiResponseBody,
        output: Option<ModelOutput<TextMessage>>,
    ) -> bool {
        match output {
            Some(output) => {
                &&& is_readable(resp.output@)
                &&& texts_of_items(output.items@) == answers(resp.output@)
                &&& forall|i: int|
                    0 <= i < output.items@.len() ==> (#[trigger] output.items@[i]).author
                        == Author::Assistant
            },
            None => !is_readable(resp.output@),
        }
    }

    /// The body of the request that asks the model with `input`.
    pub fn request_body(&self, input: ModelInput<TextImageMessage>) -> (res: Option<
        ResponseApiRequestBody,
    >)
        ensures
            Self::is_request_body(input, res),
    {
        let mut items: Vec<InputItem> = Vec::new();
        let mut i: usize = 0;
        while i < input.log.len()
            invariant
                i <= input.log@.len(),
                is_text_log(input.log@.take(i as int)),
                is_input_of(input.log@.take(i as int), items@),
            decreases input.log@.len() - i,
        {
            match InputItem::from(&input.log[i]) {
                Some(item) => {
                    items.push(item);
                },
                None => {
                    return None;
                },
            }
            i = i + 1;
        }
        assert(input.log@.take(i as int) =~= input.log@);
        Some(
            ResponseApiRequestBody {
                included: None,
                input: Some(InputData::Multiple(items)),
                instructions: Some(input.instructions),
                model: OpenAIModelName::Gpt4_1Nano,
            },
        )
    }

    /// The messages of the assistant that a response holds.
    pub fn read_response(&self, resp: &ResponsesApiResponseBody) -> (res: Option<
        ModelOutput<TextMessage>,
    >)
        ensures
            Self::is_response_output(*resp, res),
    {
        let mut items: Vec<TextMessage> = Vec::new();
        let mut i: usize = 0;
        while i < resp.output.len()
            invariant
                i <= resp.output@.len(),
                is_readable(resp.output@.take(i as int)),
                texts_of_items(items@) == answers(resp.output@.take(i as int)),
                forall|j: int|
                    0 <= j < items@.len() ==> (#[trigger] items@[j]).author == Author::Assistant,
            decreases resp.output@.len() - i,
        {
            let ghost before = resp.output@.take(i as int);
            let ghost after = resp.output@.take(i + 1);
            assert(after.drop_last() =~= before);
            assert(after.last() == resp.output@[i as int]);
            match &resp.output[i] {
                Output::Message(msg) => {
                    match read_answer(msg) {
                        Some(item) => {
                            items.push(item);
                            assert(texts_of_items(items@) =~= answers(after));
                        },
                        None => {
                            return None;
                        },
                    }
                },
                _ => {},
            }
            i = i + 1;
        }
        assert(resp.output@.take(i as int) =~= resp.output@);
        Some(ModelOutput { items })
    }
}

impl AIModel<TextImageMessage, TextMessage> for Gpt4_1Nano {
    type Request = ResponseApiRequestBody;

    type Response = ResponsesApiResponseBody;

    open spec fn is_request(
        &self,
        i: ModelInput<TextImageMessage>,
        request: Option<ResponseApiRequestBody>,
    ) -> bool {
        Self::is_request_body(i, request)
    }

    open spec fn is_output(
        &self,
        response: ResponsesApiResponseBody,
        output: Option<ModelOutput<TextMessage>>,
    ) -> bool {
        Self::is_response_output(response, output)
    }

    fn request(&self, input: ModelInput<TextImageMessage>) -> (res: Option<ResponseApiRequestBody>) {
        self.request_body(input)
    }

    fn output(&self, resp: &ResponsesApiResponseBody) -> (res: Option<ModelOutput<TextMessage>>) {
        self.read_response(resp)
    }
}

} // verus!
