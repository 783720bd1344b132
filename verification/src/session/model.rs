//! Conversations with a model: who said what, and what a model is handed
//! and hands back.

use vstd::prelude::*;
use vstd::std_specs::convert::FromSpecImpl;

verus! {

pub struct ConversationContext<I: InputModes> {
    pub log: Vec<I>,
}

/// A model that is asked in two steps: the request is made from the
/// input, and the output is read from what came back. Carrying the request
/// to the model is the caller's part.
pub trait AIModel<I: InputModes, O: OutputModes> {
    /// What is sent to the model.
    type Request;

    /// What the model sends back.
    type Response;

    /// Whether `request` is what this model is asked with for the input
    /// `i`, where `None` says that it cannot be asked with it.
    spec fn is_request(&self, i: ModelInput<I>, request: Option<Self::Request>) -> bool;

    /// Whether `output` is what `response` holds, where `None` says that it
    /// holds what cannot be handed on.
    spec fn is_output(&self, response: Self::Response, output: Option<ModelOutput<O>>) -> bool;

    /// The request for an input, or `None` for an input that the model
    /// cannot be asked with.
    fn request(&self, i: ModelInput<I>) -> (res: Option<Self::Request>)
        ensures
            self.is_request(i, res),
    ;

    /// The output that a response holds, or `None` for a response that
    /// holds what cannot be handed on.
    fn output(&self, response: &Self::Response) -> (res: Option<ModelOutput<O>>)
        ensures
            self.is_output(*response, res),
    ;
}

pub struct ModelInput<I: InputModes> {
    pub instructions: String,
    pub log: Vec<I>,
}

pub struct ModelOutput<O: OutputModes> {
    pub items: Vec<O>,
}

pub trait InputModes {

}

pub trait OutputModes {

}

pub trait TextMode {

}

pub trait ImageMode {

}

pub struct TextMessage {
    pub author: Author,
    pub parts: Vec<String>,
}

impl InputModes for TextMessage {

}

impl OutputModes for TextMessage {

}

impl TextMode for TextMessage {

}

#[derive(Clone)]
pub struct TextImageMessage {
    pub author: Author,
    pub parts: Vec<TextImage>,
}

#[derive(Clone)]
pub enum TextImage {
    Text(String),
    Base64Image(String),
    ImageUrl(String),
}

impl InputModes for TextImageMessage {

}

impl OutputModes for TextImageMessage {

}

impl TextMode for TextImageMessage {

}

impl ImageMode for TextImageMessage {

}

#[derive(Clone, Copy, Debug, PartialEq, Eq, Structural)]
pub enum Author {
    User,
    Assistant,
}

impl Author {
    /// The name of the author in an excerpt.
    pub open spec fn name_text(&self) -> Seq<char> {
        match self {
            Author::User => "user"@,
            Author::Assistant => "assistant"@,
        }
    }

    /// The name of the author in an excerpt.
    pub fn name(&self) -> (res: &'static str)
        ensures
            res@ == self.name_text(),
    {
        match self {
            Author::User => "user",
            Author::Assistant => "assistant",
        }
    }
}

/// The texts of a message as parts of a message that could hold images
/// too.
pub open spec fn as_text_parts(parts: Seq<String>) -> Seq<TextImage> {
    parts.map_values(|s: String| TextImage::Text(s))
}

impl TextMessage {
    /// The same message, as one that could hold images too: the author
    /// stays, and each text becomes a text part.
    pub open spec fn is_widened_to(&self, wide: TextImageMessage) -> bool {
        wide.author == self.author && wide.parts@ == as_text_parts(self.parts@)
    }

    /// The same message, as one that could hold images too.
    pub fn widen(&self) -> (res: TextImageMessage)
        ensures
            self.is_widened_to(res),
    {
        let mut parts: Vec<TextImage> = Vec::new();
        let mut i: usize = 0;
        while i < self.parts.len()
            invariant
                i <= self.parts@.len(),
                parts@ == as_text_parts(self.parts@.take(i as int)),
            decreases self.parts@.len() - i,
        {
            parts.push(TextImage::Text(self.parts[i].clone()));
            i = i + 1;
            assert(parts@ =~= as_text_parts(self.parts@.take(i as int)));
        }
        assert(self.parts@.take(i as int) =~= self.parts@);
        TextImageMessage { author: self.author, parts }
    }
}

/// The log of a conversation in text, as one of a conversation that could
/// hold images too: message for message.
pub open spec fn is_widened_log(log: Seq<TextMessage>, wide: Seq<TextImageMessage>) -> bool {
    wide.len() == log.len() && forall|i: int|
        0 <= i < log.len() ==> (#[trigger] log[i]).is_widened_to(wide[i])
}

impl From<ConversationContext<TextMessage>> for ConversationContext<TextImageMessage> {
    fn from(ctx: ConversationContext<TextMessage>) -> (res: Self)
        ensures
            is_widened_log(ctx.log@, res.log@),
    {
        let mut log: Vec<TextImageMessage> = Vec::new();
        let mut i: usize = 0;
        while i < ctx.log.len()
            invariant
                i <= ctx.log@.len(),
                is_widened_log(ctx.log@.take(i as int), log@),
            decreases ctx.log@.len() - i,
        {
            let wide = ctx.log[i].widen();
            log.push(wide);
            i = i + 1;
        }
        assert(ctx.log@.take(i as int) =~= ctx.log@);
        ConversationContext { log }
    }
}

impl FromSpecImpl<ConversationContext<TextMessage>> for ConversationContext<TextImageMessage> {
    open spec fn obeys_from_spec() -> bool {
        false
    }

    open spec fn from_spec(ctx: ConversationContext<TextMessage>) -> Self {
        arbitrary()
    }
}

} // verus!
