use jarvis_code::actions::classification::excerpt;
use jarvis_code::actions::classification::instructions;
use jarvis_code::actions::classification::intents;
use jarvis_code::actions::classification::EmptyModelOutput;
use jarvis_code::actions::classification::HasResponseText;
use jarvis_code::actions::classification::IntentClassifier;
use jarvis_code::actions::classification::RenderForExcerpt;
use jarvis_code::actions::model::Intent;
use jarvis_code::ai_providers::openai::request::InputData;
use jarvis_code::ai_providers::openai::response::Body;
use jarvis_code::ai_providers::openai::response::InputTokenDetails;
use jarvis_code::ai_providers::openai::response::MessageOutput;
use jarvis_code::ai_providers::openai::response::MessageOutputContent;
use jarvis_code::ai_providers::openai::response::Output;
use jarvis_code::ai_providers::openai::response::OutputTextContent;
use jarvis_code::ai_providers::openai::response::OutputTokenDetails;
use jarvis_code::ai_providers::openai::response::Status;
use jarvis_code::ai_providers::openai::response::Usage;
use jarvis_code::ai_providers::openai::Gpt4_1Nano;
use jarvis_code::session::model::Author;
use jarvis_code::session::model::ConversationContext;
use jarvis_code::session::model::ModelOutput;
use jarvis_code::session::model::TextImage;
use jarvis_code::session::model::TextImageMessage;
use jarvis_code::session::model::TextMessage;
use jarvis_code::text::join;

const INTENTS: &str = "\n- nothing: The user does not want the AI to do anything, for example they just made a general remark, or talked to themselves while thinking\n- unclear: It's not clear if or what the user wants the assistant to do\n- ask: The user expects the assistant to tell or explain something to the user\n- brainstorm: The user has asked an open-ended question and wants to gather ideas\n- change: The user told the assistant to edit the code";

fn text_message(author: Author, parts: &[&str]) -> TextMessage {
    TextMessage {
        author,
        parts: parts.iter().map(|s| String::from(*s)).collect(),
    }
}

fn strings(parts: &[&str]) -> Vec<String> {
    parts.iter().map(|s| String::from(*s)).collect()
}

#[test]
fn variants_lists_every_intent_in_order() {
    assert_eq!(
        Intent::variants(),
        vec![
            Intent::Nothing,
            Intent::Unclear,
            Intent::Ask,
            Intent::Brainstorm,
            Intent::Change
        ]
    );
}

#[test]
fn intents_are_explained_line_by_line() {
    assert_eq!(intents(), INTENTS);
    assert_eq!(
        Intent::Change.description(),
        "- change: The user told the assistant to edit the code"
    );
}

#[test]
fn join_puts_the_separator_between_the_parts() {
    assert_eq!(join(&strings(&[]), "\n\n"), "");
    assert_eq!(join(&strings(&["a"]), "\n\n"), "a");
    assert_eq!(join(&strings(&["a", "b", "c"]), ", "), "a, b, c");
    assert_eq!(join(&strings(&["", ""]), "-"), "-");
}

#[test]
fn text_message_is_rendered_between_the_tags_of_its_author() {
    assert_eq!(
        text_message(Author::User, &["What is XYZ?"]).render(),
        "<user>What is XYZ?</user>"
    );
    assert_eq!(
        text_message(Author::Assistant, &["We can use XYZ", "or ABC"]).render(),
        "<assistant>We can use XYZ\n\nor ABC</assistant>"
    );
    assert_eq!(text_message(Author::User, &[]).render(), "<user></user>");
}

#[test]
fn text_image_message_shows_images_as_placeholders() {
    let message = TextImageMessage {
        author: Author::User,
        parts: vec![
            TextImage::Text(String::from("look")),
            TextImage::Base64Image(String::from("aGVsbG8=")),
            TextImage::ImageUrl(String::from("https://example.org/a.png")),
        ],
    };
    assert_eq!(
        message.render(),
        "<user>\n\nlook\n\n<image>\n\n<image></user>"
    );
    let empty = TextImageMessage {
        author: Author::Assistant,
        parts: vec![],
    };
    assert_eq!(empty.render(), "<assistant></assistant>");
}

#[test]
fn excerpt_shows_each_message_after_a_line_break() {
    let log = vec![
        text_message(Author::Assistant, &["We can use XYZ"]),
        text_message(Author::User, &["What is XYZ?"]),
    ];
    assert_eq!(
        excerpt(&log),
        "\n<assistant>We can use XYZ</assistant>\n<user>What is XYZ?</user>"
    );
    assert_eq!(excerpt(&Vec::<TextMessage>::new()), "");
}

#[test]
fn instructions_are_framed_around_intents_and_excerpt() {
    assert_eq!(
        instructions("I", "E"),
        "The following is an excerpt from a conversation between a user and an AI coding assistant. Given this excerpt, Your job is to classify based on the the last user interaction(s) what they intent for the AI assistant to do out of the following possible intentions:\nI\n\nHere is the excerpt: \"\"\"\nE\n\"\"\"\n            \nReturn only the name of the classification.\n\nExample:\nExcerpt: <assistant>We can use XYZ<assistant><user>What is XYZ?</user>\nYour response: ask\n"
    );
}

#[test]
fn answer_is_the_last_item_of_the_output() {
    let output = ModelOutput {
        items: vec![
            text_message(Author::Assistant, &["first"]),
            text_message(Author::Assistant, &["ask", "really"]),
        ],
    };
    assert_eq!(
        TextMessage::get_assistant_text_response(&output),
        Ok(String::from("ask\n\nreally"))
    );
}

#[test]
fn empty_output_holds_no_answer() {
    let output: ModelOutput<TextMessage> = ModelOutput { items: vec![] };
    assert_eq!(
        TextMessage::get_assistant_text_response(&output),
        Err(EmptyModelOutput)
    );
    assert_eq!(
        EmptyModelOutput.message(),
        "The model output appears to be empty"
    );
}

fn context() -> ConversationContext<TextImageMessage> {
    ConversationContext {
        log: vec![TextImageMessage {
            author: Author::User,
            parts: vec![TextImage::Text(String::from("What is XYZ?"))],
        }],
    }
}

fn usage() -> Usage {
    Usage {
        input_tokens: 10,
        input_tokens_details: InputTokenDetails { cached_tokens: 0 },
        output_tokens: 1,
        output_tokens_details: OutputTokenDetails {
            reasoning_tokens: 0,
        },
        total_tokens: 11,
    }
}

#[test]
fn classifier_hands_the_model_instructions_and_log() {
    let classifier = IntentClassifier::new(Gpt4_1Nano::new(String::from("sk-test")));
    let input = classifier.model_input(&context());
    assert_eq!(
        input.instructions,
        instructions(INTENTS, "\n<user>\n\nWhat is XYZ?</user>")
    );
    assert_eq!(input.log.len(), 1);
    assert_eq!(input.log[0].author, Author::User);
}

#[test]
fn classifier_asks_the_model() {
    let classifier = IntentClassifier::new(Gpt4_1Nano::new(String::from("sk-test")));
    let body = classifier.classify_intent(&context()).unwrap();
    assert_eq!(
        body.instructions,
        Some(instructions(INTENTS, "\n<user>\n\nWhat is XYZ?</user>"))
    );
    match body.input {
        Some(InputData::Multiple(items)) => assert_eq!(items.len(), 1),
        _ => panic!("the log is sent message for message"),
    }
}

#[test]
fn classifier_reads_the_answer_of_the_model() {
    let classifier = IntentClassifier::new(Gpt4_1Nano::new(String::from("sk-test")));
    let response = Body {
        id: String::from("resp_1"),
        output: vec![Output::Message(MessageOutput {
            id: String::from("msg_1"),
            content: vec![MessageOutputContent::OutputText(OutputTextContent {
                annotations: vec![],
                text: String::from("ask"),
            })],
        })],
        status: Status::Completed,
        usage: usage(),
    };
    assert_eq!(
        classifier.response(&response),
        Some(Ok(String::from("ask")))
    );
    let nothing = Body {
        id: String::from("resp_2"),
        output: vec![],
        status: Status::Completed,
        usage: usage(),
    };
    assert_eq!(classifier.response(&nothing), Some(Err(EmptyModelOutput)));
}
