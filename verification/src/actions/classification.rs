//! Asking a model what the user wants: the instructions that it is given,
//! and the answer that is read from what it says.

use vstd::prelude::*;
use std::marker::PhantomData;
use crate::actions::model::Intent;
use crate::session::model::AIModel;
use crate::session::model::ConversationContext;
use crate::session::model::InputModes;
use crate::session::model::ModelInput;
use crate::session::model::ModelOutput;
use crate::session::model::OutputModes;
use crate::session::model::TextImage;
use crate::session::model::TextImageMessage;
use crate::session::model::TextMessage;
use crate::text::join;
use crate::text::joined;
use crate::text::prefixed_join;
use crate::text::texts_of;

verus! {

impl Intent {
    /// The line that explains the intent to the model.
    pub open spec fn description_text(&self) -> Seq<char> {
        match self {
            Intent::Unclear => "- unclear: It's not clear if or what the user wants the assistant to do"@,
            Intent::Nothing => "- nothing: The user does not want the AI to do anything, for example they just made a general remark, or talked to themselves while thinking"@,
            Intent::Ask => "- ask: The user expects the assistant to tell or explain something to the user"@,
            Intent::Brainstorm => "- brainstorm: The user has asked an open-ended question and wants to gather ideas"@,
            Intent::Change => "- change: The user told the assistant to edit the code"@,
        }
    }

    /// The line that explains the intent to the model.
    pub fn description(&self) -> (res: &'static str)
        ensures
            res@ == self.description_text(),
    {
        match self {
            Intent::Unclear => "- unclear: It's not clear if or what the user wants the assistant to do",
            Intent::Nothing => "- nothing: The user does not want the AI to do anything, for example they just made a general remark, or talked to themselves while thinking",
            Intent::Ask => "- ask: The user expects the assistant to tell or explain something to the user",
            Intent::Brainstorm => "- brainstorm: The user has asked an open-ended question and wants to gather ideas",
            Intent::Change => "- change: The user told the assistant to edit the code",
        }
    }
}

/// The lines that explain every intent, each after a line break.
pub open spec fn intents_text() -> Seq<char> {
    prefixed_join(Intent::all().map_values(|intent: Intent| intent.description_text()), "\n"@)
}

/// The lines that explain every intent, each after a line break.
pub fn intents() -> (res: String)
    ensures
        res@ == intents_text(),
{
    let variants = Intent::variants();
    let ghost lines = Intent::all().map_values(|intent: Intent| intent.description_text());
    let mut out = String::new();
    let mut i: usize = 0;
    while i < variants.len()
        invariant
            i <= variants@.len(),
            variants@ == Intent::all(),
            lines == Intent::all().map_values(|intent: Intent| intent.description_text()),
            out@ == prefixed_join(lines.take(i as int), "\n"@),
        decreases variants@.len() - i,
    {
        assert(lines.take(i + 1).drop_last() =~= lines.take(i as int));
        assert(lines.take(i + 1).last() == variants@[i as int].description_text());
        out.append("\n");
        out.append(variants[i].description());
        i = i + 1;
        assert(out@ =~= prefixed_join(lines.take(i as int), "\n"@));
    }
    assert(lines.take(i as int) =~= lines);
    out
}

/// The instructions for the model, around the lines that explain the
/// intents and the excerpt of the conversation.
pub open spec fn instructions_text(intents: Seq<char>, excerpt: Seq<char>) -> Seq<char> {
    "The following is an excerpt from a conversation between a user and an AI coding assistant. Given this excerpt, Your job is to classify based on the the last user interaction(s) what they intent for the AI assistant to do out of the following possible intentions:\n"@
        + intents + "\n\nHere is the excerpt: \"\"\"\n"@ + excerpt
        + "\n\"\"\"\n            \nReturn only the name of the classification.\n\nExample:\nExcerpt: <assistant>We can use XYZ<assistant><user>What is XYZ?</user>\nYour response: ask\n"@
}

/// Frames the instructions for the model.
pub fn instructions(intents: &str, excerpt: &str) -> (res: String)
    ensures
        res@ == instructions_text(intents@, excerpt@),
{
    let mut out = String::from_str(
        "The following is an excerpt from a conversation between a user and an AI coding assistant. Given this excerpt, Your job is to classify based on the the last user interaction(s) what they intent for the AI assistant to do out of the following possible intentions:\n",
    );
    out.append(intents);
    out.append("\n\nHere is the excerpt: \"\"\"\n");
    out.append(excerpt);
    out.append(
        "\n\"\"\"\n            \nReturn only the name of the classification.\n\nExample:\nExcerpt: <assistant>We can use XYZ<assistant><user>What is XYZ?</user>\nYour response: ask\n",
    );
    out
}

/// A message that can be shown in an excerpt of the conversation.
pub trait RenderForExcerpt: InputModes {
    /// The message as the excerpt shows it.
    spec fn rendering(&self) -> Seq<char>;

    fn render(&self) -> (res: String)
        ensures
            res@ == self.rendering(),
    ;
}

/// A message between the tags of its author.
pub open spec fn tagged(author: Seq<char>, text: Seq<char>) -> Seq<char> {
    "<"@ + author + ">"@ + text + "</"@ + author + ">"@
}

fn tag(author: &str, text: &str) -> (res: String)
    ensures
        res@ == tagged(author@, text@),
{
    let mut out = String::from_str("<");
    out.append(author);
    out.append(">");
    out.append(text);
    out.append("</");
    out.append(author);
    out.append(">");
    out
}

impl RenderForExcerpt for TextMessage {
    open spec fn rendering(&self) -> Seq<char> {
        tagged(self.author.name_text(), joined(texts_of(self.parts@), "\n\n"@))
    }

    fn render(&self) -> (res: String) {
        let author = self.author.name();
        let text = join(&self.parts, "\n\n");
        tag(author, text.as_str())
    }
}

/// How a part of a message shows in an excerpt: a text as it is, an image
/// as a placeholder.
pub open spec fn part_text(part: TextImage) -> Seq<char> {
    match part {
        TextImage::Text(t) => t@,
        TextImage::Base64Image(_) | TextImage::ImageUrl(_) => "<image>"@,
    }
}

impl RenderForExcerpt for TextImageMessage {
    open spec fn rendering(&self) -> Seq<char> {
        tagged(
            self.author.name_text(),
            prefixed_join(self.parts@.map_values(|part: TextImage| part_text(part)), "\n\n"@),
        )
    }

    fn render(&self) -> (res: String) {
        let author = self.author.name();
        let ghost shown = self.parts@.map_values(|part: TextImage| part_text(part));
        let mut text = String::new();
        let mut i: usize = 0;
        while i < self.parts.len()
            invariant
                i <= self.parts@.len(),
                shown == self.parts@.map_values(|part: TextImage| part_text(part)),
                text@ == prefixed_join(shown.take(i as int), "\n\n"@),
            decreases self.parts@.len() - i,
        {
            assert(shown.take(i + 1).drop_last() =~= shown.take(i as int));
            assert(shown.take(i + 1).last() == part_text(self.parts@[i as int]));
            text.append("\n\n");
            match &self.parts[i] {
                TextImage::Text(t) => {
                    text.append(t.as_str());
                },
                TextImage::Base64Image(_) | TextImage::ImageUrl(_) => {
                    text.append("<image>");
                },
            }
            i = i + 1;
            assert(text@ =~= prefixed_join(shown.take(i as int), "\n\n"@));
        }
        assert(shown.take(i as int) =~= shown);
        tag(author, text.as_str())
    }
}

/// The excerpt of a conversation: its messages as they are rendered, each
/// after a line break.
pub open spec fn excerpt_text<I: RenderForExcerpt>(log: Seq<I>) -> Seq<char> {
    prefixed_join(log.map_values(|message: I| message.rendering()), "\n"@)
}

/// The excerpt of a conversation.
pub fn excerpt<I: RenderForExcerpt>(log: &Vec<I>) -> (res: String)
    ensures
        res@ == excerpt_text(log@),
{
    let ghost shown = log@.map_values(|message: I| message.rendering());
    let mut out = String::new();
    let mut i: usize = 0;
    while i < log.len()
        invariant
            i <= log@.len(),
            shown == log@.map_values(|message: I| message.rendering()),
            out@ == prefixed_join(shown.take(i as int), "\n"@),
        decreases log@.len() - i,
    {
        assert(shown.take(i + 1).drop_last() =~= shown.take(i as int));
        assert(shown.take(i + 1).last() == log@[i as int].rendering());
        out.append("\n");
        let rendered = log[i].render();
        out.append(rendered.as_str());
        i = i + 1;
        assert(out@ =~= prefixed_join(shown.take(i as int), "\n"@));
    }
    assert(shown.take(i as int) =~= shown);
    out
}

/// A model has answered with nothing.
#[derive(Clone, Copy, Debug, PartialEq, Eq, Structural)]
pub struct EmptyModelOutput;

impl EmptyModelOutput {
    /// The message for a human reader.
    pub fn message(&self) -> (res: &'static str)
        ensures
            res@ == "The model output appears to be empty"@,
    {
        "The model output appears to be empty"
    }
}

/// An output of a model that holds the assistant's answer as text.
pub trait HasResponseText<O: OutputModes> {
    /// The answer that the output holds, if it holds one.
    spec fn response_text(output: &ModelOutput<O>) -> Option<Seq<char>>;

    fn get_assistant_text_response(output: &ModelOutput<O>) -> (res: Result<
        String,
        EmptyModelOutput,
    >)
        ensures
            match Self::response_text(output) {
                Some(text) => res matches Ok(answer) && answer@ == text,
                None => res is Err,
            },
    ;
}

impl HasResponseText<TextMessage> for TextMessage {
    /// The answer is the last item of the output, its parts set apart by an
    /// empty line.
    open spec fn response_text(output: &ModelOutput<TextMessage>) -> Option<Seq<char>> {
        if output.items@.len() == 0 {
            None
        } else {
            Some(joined(texts_of(output.items@.last().parts@), "\n\n"@))
        }
    }

    fn get_assistant_text_response(output: &ModelOutput<TextMessage>) -> (res: Result<
        String,
        EmptyModelOutput,
    >) {
        let count = output.items.len();
        if count == 0 {
            Err(EmptyModelOutput)
        } else {
            Ok(join(&output.items[count - 1].parts, "\n\n"))
        }
    }
}

pub struct IntentClassifier<I: InputModes, O: OutputModes, M: AIModel<I, O>> {
    model: M,
    i: PhantomData<I>,
    o: PhantomData<O>,
}

impl<I, O, M> IntentClassifier<I, O, M> where
    I: InputModes + RenderForExcerpt + Clone,
    O: OutputModes + HasResponseText<O>,
    M: AIModel<I, O>,
 {
    /// The model that is asked.
    pub closed spec fn model(&self) -> M {
        self.model
    }

    pub fn new(model: M) -> (res: Self)
        ensures
            res.model() == model,
    {
        Self { model, i: PhantomData, o: PhantomData }
    }

    /// Whether `input` is what the model is handed to classify the last
    /// interactions of a conversation: the instructions with the intents
    /// and the excerpt, and a copy of the log of the conversation.
    pub open spec fn is_model_input(
        recent_context: &ConversationContext<I>,
        input: ModelInput<I>,
    ) -> bool {
        &&& input.instructions@ == instructions_text(
            intents_text(),
            excerpt_text(recent_context.log@),
        )
        &&& input.log@.len() == recent_context.log@.len()
        &&& forall|i: int|
            0 <= i < recent_context.log@.len() ==> cloned::<I>(
                #[trigger] recent_context.log@[i],
                input.log@[i],
            )
    }

    /// What the model is handed to classify the last interactions of a
    /// conversation.
    pub fn model_input(&self, recent_context: &ConversationContext<I>) -> (res: ModelInput<I>)
        ensures
            Self::is_model_input(recent_context, res),
    {
        let intents = intents();
        let excerpt = excerpt(&recent_context.log);
        let instructions = instructions(intents.as_str(), excerpt.as_str());
        ModelInput { instructions, log: recent_context.log.clone() }
    }

    /// The request that asks the model to classify the last interactions of
    /// a conversation: what the model makes of the input that
    /// `model_input` describes, and `None` where the model cannot be asked
    /// with it.
    pub fn classify_intent(&self, recent_context: &ConversationContext<I>) -> (res: Option<
        M::Request,
    >)
        ensures
            exists|input: ModelInput<I>|
                Self::is_model_input(recent_context, input) && #[trigger] self.model().is_request(
                    input,
                    res,
                ),
    {
        let model_input = self.model_input(recent_context);
        let ghost input = model_input;
        let res = self.model.request(model_input);
        assert(self.model().is_request(input, res));
        res
    }

    /// Whether `answer` is what `output` says: the text that it holds, or
    /// an error where it holds none.
    pub open spec fn is_answer_of(
        output: ModelOutput<O>,
        answer: Result<String, EmptyModelOutput>,
    ) -> bool {
        match O::response_text(&output) {
            Some(text) => answer matches Ok(a) && a@ == text,
            None => answer is Err,
        }
    }

    /// The answer that the model gave, read from its response. It is `None`
    /// where the model finds nothing in the response that can be handed on,
    /// and an error where the output holds no answer.
    pub fn response(&self, response: &M::Response) -> (res: Option<
        Result<String, EmptyModelOutput>,
    >)
        ensures
            match res {
                Some(answer) => exists|output: ModelOutput<O>|
                    #[trigger] self.model().is_output(*response, Some(output))
                        && Self::is_answer_of(output, answer),
                None => self.model().is_output(*response, None),
            },
    {
        match self.model.output(response) {
            Some(output) => {
                let answer = O::get_assistant_text_response(&output);
                assert(self.model().is_output(*response, Some(output)) && Self::is_answer_of(
                    output,
                    answer,
                ));
                Some(answer)
            },
            None => None,
        }
    }
}

} // verus!
