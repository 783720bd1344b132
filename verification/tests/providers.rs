use jarvis_code::ai_providers::openai::request::Annotation as RequestAnnotation;
use jarvis_code::ai_providers::openai::request::AssistantMessageTextItem;
use jarvis_code::ai_providers::openai::request::Body as RequestBody;
use jarvis_code::ai_providers::openai::request::ImageDetail;
use jarvis_code::ai_providers::openai::request::InputItemReference;
use jarvis_code::ai_providers::openai::request::MessageId;
use jarvis_code::ai_providers::openai::request::InputData;
use jarvis_code::ai_providers::openai::request::InputItem;
use jarvis_code::ai_providers::openai::request::Message;
use jarvis_code::ai_providers::openai::request::MessageStatus;
use jarvis_code::ai_providers::openai::request::OutputOptions;
use jarvis_code::ai_providers::openai::request::ToolChoice;
use jarvis_code::ai_providers::openai::request::UserMessageTextImageItem;
use jarvis_code::ai_providers::openai::response::Annotation;
use jarvis_code::ai_providers::openai::response::Body;
use jarvis_code::ai_providers::openai::response::InputTokenDetails;
use jarvis_code::ai_providers::openai::response::MessageOutput;
use jarvis_code::ai_providers::openai::response::MessageOutputContent;
use jarvis_code::ai_providers::openai::response::Output;
use jarvis_code::ai_providers::openai::response::OutputTextContent;
use jarvis_code::ai_providers::openai::response::OutputTokenDetails;
use jarvis_code::ai_providers::openai::response::ReasoningOutput;
use jarvis_code::ai_providers::openai::response::RefusalContent;
use jarvis_code::ai_providers::openai::response::Status;
use jarvis_code::ai_providers::openai::response::Usage;
use jarvis_code::ai_providers::openai::Gpt4_1Nano;
use jarvis_code::ai_providers::openai::OpenAIModelName;
use jarvis_code::ai_providers::openai::RESPONSES_URL;
use jarvis_code::session::model::AIModel;
use jarvis_code::session::model::Author;
use jarvis_code::session::model::ConversationContext;
use jarvis_code::session::model::ModelInput;
use jarvis_code::session::model::TextImage;
use jarvis_code::session::model::TextImageMessage;
use jarvis_code::session::model::TextMessage;

fn texts(author: Author, parts: &[&str]) -> TextImageMessage {
    TextImageMessage {
        author,
        parts: parts
            .iter()
            .map(|s| TextImage::Text(String::from(*s)))
            .collect(),
    }
}

fn body(output: Vec<Output>) -> Body {
    Body {
        id: String::from("resp_1"),
        output,
        status: Status::Completed,
        usage: Usage {
            input_tokens: 10,
            input_tokens_details: InputTokenDetails { cached_tokens: 0 },
            output_tokens: 1,
            output_tokens_details: OutputTokenDetails {
                reasoning_tokens: 0,
            },
            total_tokens: 11,
        },
    }
}

fn answer(parts: &[&str]) -> Output {
    Output::Message(MessageOutput {
        id: String::from("msg_1"),
        content: parts
            .iter()
            .map(|s| {
                MessageOutputContent::OutputText(OutputTextContent {
                    annotations: vec![],
                    text: String::from(*s),
                })
            })
            .collect(),
    })
}

#[test]
fn user_message_is_sent_as_input_texts_without_status() {
    let item = InputItem::from(&texts(Author::User, &["one", "two"])).unwrap();
    match item {
        InputItem::Message(Message::UserMessage { status, content }) => {
            assert_eq!(status, None);
            assert_eq!(content.len(), 2);
            match &content[0] {
                UserMessageTextImageItem::InputText { text } => assert_eq!(text, "one"),
                _ => panic!("a text is sent as text"),
            }
            match &content[1] {
                UserMessageTextImageItem::InputText { text } => assert_eq!(text, "two"),
                _ => panic!("a text is sent as text"),
            }
        }
        _ => panic!("a user's message is sent as such"),
    }
}

#[test]
fn assistant_message_is_sent_as_completed_output_texts() {
    let item = InputItem::from(&texts(Author::Assistant, &["answer"])).unwrap();
    match item {
        InputItem::Message(Message::AssistantMessage {
            status,
            content,
            id,
        }) => {
            assert_eq!(status, MessageStatus::Completed);
            assert_eq!(id.0, "");
            assert_eq!(content.len(), 1);
            match &content[0] {
                AssistantMessageTextItem::OutputText { text, annotations } => {
                    assert_eq!(text, "answer");
                    assert!(annotations.is_empty());
                }
                _ => panic!("a text is sent as text"),
            }
        }
        _ => panic!("an assistant's message is sent as such"),
    }
}

#[test]
fn message_with_an_image_has_no_item() {
    for author in [Author::User, Author::Assistant] {
        let base64 = TextImageMessage {
            author,
            parts: vec![
                TextImage::Text(String::from("look")),
                TextImage::Base64Image(String::from("aGVsbG8=")),
            ],
        };
        assert!(InputItem::from(&base64).is_none());
        let url = TextImageMessage {
            author,
            parts: vec![TextImage::ImageUrl(String::from("https://example.org"))],
        };
        assert!(InputItem::from(&url).is_none());
    }
}

#[test]
fn request_body_holds_instructions_and_log() {
    let model = Gpt4_1Nano::new(String::from("sk-test"));
    assert_eq!(model.bearer_auth(), "sk-test");
    let input = ModelInput {
        instructions: String::from("classify"),
        log: vec![
            texts(Author::Assistant, &["We can use XYZ"]),
            texts(Author::User, &["What is XYZ?"]),
        ],
    };
    let body = model.request_body(input).unwrap();
    assert_eq!(body.included, None);
    assert_eq!(body.instructions, Some(String::from("classify")));
    assert_eq!(body.model, OpenAIModelName::Gpt4_1Nano);
    match body.input {
        Some(InputData::Multiple(items)) => {
            assert_eq!(items.len(), 2);
            assert!(matches!(
                items[0],
                InputItem::Message(Message::AssistantMessage { .. })
            ));
            assert!(matches!(
                items[1],
                InputItem::Message(Message::UserMessage { .. })
            ));
        }
        _ => panic!("the log is sent message for message"),
    }
}

#[test]
fn log_with_an_image_has_no_request_body() {
    let model = Gpt4_1Nano::new(String::from("sk-test"));
    let input = ModelInput {
        instructions: String::from("classify"),
        log: vec![
            texts(Author::User, &["fine"]),
            TextImageMessage {
                author: Author::User,
                parts: vec![TextImage::ImageUrl(String::from("https://example.org"))],
            },
        ],
    };
    assert!(model.request(input).is_none());
}

#[test]
fn response_is_read_message_by_message() {
    let model = Gpt4_1Nano::new(String::from("sk-test"));
    let response = body(vec![
        Output::Reasoning(ReasoningOutput {}),
        answer(&["first", "second"]),
        answer(&[]),
        answer(&["ask"]),
    ]);
    let output = model.read_response(&response).unwrap();
    assert_eq!(output.items.len(), 3);
    for item in &output.items {
        assert_eq!(item.author, Author::Assistant);
    }
    assert_eq!(output.items[0].parts, vec!["first", "second"]);
    assert!(output.items[1].parts.is_empty());
    assert_eq!(output.items[2].parts, vec!["ask"]);
}

#[test]
fn response_without_messages_gives_no_items() {
    let model = Gpt4_1Nano::new(String::from("sk-test"));
    let output = model
        .output(&body(vec![Output::Reasoning(ReasoningOutput {})]))
        .unwrap();
    assert!(output.items.is_empty());
    assert!(model.read_response(&body(vec![])).unwrap().items.is_empty());
}

#[test]
fn refusal_cannot_be_handed_on() {
    let model = Gpt4_1Nano::new(String::from("sk-test"));
    let response = body(vec![
        answer(&["ask"]),
        Output::Message(MessageOutput {
            id: String::from("msg_2"),
            content: vec![MessageOutputContent::Refusal(RefusalContent {
                refusal: String::from("no"),
            })],
        }),
    ]);
    assert!(model.read_response(&response).is_none());
}

#[test]
fn names_are_spelled_as_the_api_spells_them() {
    assert_eq!(OpenAIModelName::Gpt4_1Nano.name(), "gpt-4.1-nano-2025-04-14");
    assert_eq!(RESPONSES_URL, "https://api.openai.com/v1/responses");
    assert_eq!(
        OutputOptions::CodeInterpreterCallOutputs.name(),
        "code_interpreter_call.outputs"
    );
    assert_eq!(
        OutputOptions::ComputerCallOutputOutputImageUrl.name(),
        "computer_call_output.output.image_url"
    );
    assert_eq!(
        OutputOptions::FileSearchCallResults.name(),
        "file_search_call.results"
    );
    assert_eq!(
        OutputOptions::MessageInputImageImageUrl.name(),
        "message.input_image.image_url"
    );
    assert_eq!(
        OutputOptions::MessageOutputTextLogprobs.name(),
        "message.output_text.logprobs"
    );
    assert_eq!(
        OutputOptions::ReasoningEncryptedContent.name(),
        "reasoning.encrypted_content"
    );
}

#[test]
fn conversation_in_text_becomes_one_that_could_hold_images() {
    let ctx = ConversationContext {
        log: vec![
            TextMessage {
                author: Author::User,
                parts: vec![String::from("one"), String::from("two")],
            },
            TextMessage {
                author: Author::Assistant,
                parts: vec![],
            },
        ],
    };
    let wide: ConversationContext<TextImageMessage> = ctx.into();
    assert_eq!(wide.log.len(), 2);
    assert_eq!(wide.log[0].author, Author::User);
    assert_eq!(wide.log[0].parts.len(), 2);
    match (&wide.log[0].parts[0], &wide.log[0].parts[1]) {
        (TextImage::Text(a), TextImage::Text(b)) => {
            assert_eq!(a, "one");
            assert_eq!(b, "two");
        }
        _ => panic!("texts stay texts"),
    }
    assert_eq!(wide.log[1].author, Author::Assistant);
    assert!(wide.log[1].parts.is_empty());
}

#[test]
fn text_message_is_widened_part_by_part() {
    let message = TextMessage {
        author: Author::Assistant,
        parts: vec![String::from("only")],
    };
    let wide = message.widen();
    assert_eq!(wide.author, Author::Assistant);
    assert!(matches!(&wide.parts[0], TextImage::Text(t) if t == "only"));
    assert_eq!(Author::User.name(), "user");
    assert_eq!(Author::Assistant.name(), "assistant");
}

fn json(text: &str) -> serde_json::Value {
    serde_json::from_str(text).expect("the text is JSON")
}

#[test]
fn request_body_is_written_as_json() {
    let model = Gpt4_1Nano::new(String::from("sk-test"));
    let input = ModelInput {
        instructions: String::from("classify \"this\""),
        log: vec![
            texts(Author::Assistant, &["We can use XYZ"]),
            texts(Author::User, &["What is XYZ?", "And why?"]),
        ],
    };
    let text = model.request_body(input).unwrap().to_json();
    assert_eq!(
        text,
        "{\"include\":null,\"input\":[{\"type\":\"message\",\"role\":\"assistant\",\"status\":\"completed\",\"content\":[{\"type\":\"output_text\",\"text\":\"We can use XYZ\",\"annotations\":[]}],\"id\":\"\"},{\"type\":\"message\",\"role\":\"user\",\"status\":null,\"content\":[{\"type\":\"input_text\",\"text\":\"What is XYZ?\"},{\"type\":\"input_text\",\"text\":\"And why?\"}]}],\"instructions\":\"classify \\\"this\\\"\",\"model\":\"gpt-4.1-nano-2025-04-14\"}"
    );
    let value = json(&text);
    assert_eq!(value["instructions"], "classify \"this\"");
    assert_eq!(value["input"][1]["content"][1]["text"], "And why?");
}

#[test]
fn request_body_without_input_is_written_with_nulls() {
    let body = RequestBody {
        included: Some(vec![
            OutputOptions::FileSearchCallResults,
            OutputOptions::ReasoningEncryptedContent,
        ]),
        input: None,
        instructions: None,
        model: OpenAIModelName::Gpt4_1Nano,
    };
    assert_eq!(
        body.to_json(),
        "{\"include\":[\"file_search_call.results\",\"reasoning.encrypted_content\"],\"input\":null,\"instructions\":null,\"model\":\"gpt-4.1-nano-2025-04-14\"}"
    );
    let empty = RequestBody {
        included: Some(vec![]),
        input: Some(InputData::Single(String::from("hi\n"))),
        instructions: None,
        model: OpenAIModelName::Gpt4_1Nano,
    };
    assert_eq!(
        empty.to_json(),
        "{\"include\":[],\"input\":\"hi\\n\",\"instructions\":null,\"model\":\"gpt-4.1-nano-2025-04-14\"}"
    );
}

#[test]
fn every_kind_of_input_item_is_written() {
    let reference = InputItem::Reference(InputItemReference {
        id: String::from("item_7"),
    });
    assert_eq!(
        reference.to_json(),
        "{\"type\":\"item_reference\",\"id\":\"item_7\"}"
    );

    let user = InputItem::Message(Message::UserMessage {
        status: Some(MessageStatus::InProgress),
        content: vec![
            UserMessageTextImageItem::InputImage {
                detail: ImageDetail::High,
                file_id: Some(String::from("file_1")),
                image_url: None,
            },
            UserMessageTextImageItem::InputImage {
                detail: ImageDetail::Auto(),
                file_id: None,
                image_url: Some(String::from("https://example.org/a.png")),
            },
            UserMessageTextImageItem::InputImage {
                detail: ImageDetail::Low,
                file_id: None,
                image_url: None,
            },
        ],
    });
    assert_eq!(
        user.to_json(),
        "{\"type\":\"message\",\"role\":\"user\",\"status\":\"in_progress\",\"content\":[{\"type\":\"input_image\",\"detail\":\"high\",\"file_id\":\"file_1\",\"image_url\":null},{\"type\":\"input_image\",\"detail\":{\"auto\":[]},\"file_id\":null,\"image_url\":\"https://example.org/a.png\"},{\"type\":\"input_image\",\"detail\":\"low\",\"file_id\":null,\"image_url\":null}]}"
    );

    let assistant = InputItem::Message(Message::AssistantMessage {
        status: MessageStatus::Incomplete,
        content: vec![
            AssistantMessageTextItem::Refusal {
                refusal: String::from("no"),
            },
            AssistantMessageTextItem::OutputText {
                text: String::from("see"),
                annotations: vec![
                    RequestAnnotation::FileCitation {
                        file_id: String::from("f"),
                        filename: String::from("a.rs"),
                        index: 3,
                    },
                    RequestAnnotation::UrlCitation {
                        start_index: 0,
                        end_index: -1,
                        title: String::from("t"),
                        url: String::from("u"),
                    },
                    RequestAnnotation::ContainerFileCitation {
                        container_id: String::from("c"),
                        file_id: String::from("f"),
                        filename: String::from("n"),
                        start_index: i32::MIN,
                        end_index: i32::MAX,
                    },
                    RequestAnnotation::FilePath {
                        file_id: String::from("f"),
                        index: 10,
                    },
                ],
            },
        ],
        id: MessageId(String::from("msg_1")),
    });
    let text = assistant.to_json();
    assert_eq!(
        text,
        "{\"type\":\"message\",\"role\":\"assistant\",\"status\":\"incomplete\",\"content\":[{\"type\":\"refusal\",\"refusal\":\"no\"},{\"type\":\"output_text\",\"text\":\"see\",\"annotations\":[{\"type\":\"file_citation\",\"file_id\":\"f\",\"filename\":\"a.rs\",\"index\":3},{\"type\":\"url_citation\",\"start_index\":0,\"end_index\":-1,\"title\":\"t\",\"url\":\"u\"},{\"type\":\"container_file_citation\",\"container_id\":\"c\",\"file_id\":\"f\",\"filename\":\"n\",\"start_index\":-2147483648,\"end_index\":2147483647},{\"type\":\"file_path\",\"file_id\":\"f\",\"index\":10}]}],\"id\":\"msg_1\"}"
    );
    assert!(json(&text).is_object());
}

const RESPONSE: &str = "{\"id\":\"resp_1\",\"object\":\"response\",\"status\":\"completed\",\"output\":[{\"type\":\"reasoning\",\"id\":\"rs_1\",\"summary\":[]},{\"type\":\"message\",\"id\":\"msg_1\",\"role\":\"assistant\",\"content\":[{\"type\":\"output_text\",\"text\":\"ask\",\"annotations\":[{\"type\":\"url_citation\",\"start_index\":1,\"end_index\":2,\"title\":\"t\",\"url\":\"u\"},{\"type\":\"file_path\",\"file_id\":\"f\",\"index\":-3}]},{\"type\":\"refusal\",\"refusal\":\"no\"}]},{\"type\":\"m_c_p_tool_call\"}],\"usage\":{\"input_tokens\":10,\"input_tokens_details\":{\"cached_tokens\":0},\"output_tokens\":1,\"output_tokens_details\":{\"reasoning_tokens\":0},\"total_tokens\":11}}";

#[test]
fn response_body_is_decoded_from_json() {
    let body = Body::from_json(RESPONSE).expect("the text is a response");
    assert_eq!(body.id, "resp_1");
    assert_eq!(body.status, Status::Completed);
    assert_eq!(body.usage.input_tokens, 10);
    assert_eq!(body.usage.input_tokens_details.cached_tokens, 0);
    assert_eq!(body.usage.output_tokens, 1);
    assert_eq!(body.usage.output_tokens_details.reasoning_tokens, 0);
    assert_eq!(body.usage.total_tokens, 11);
    assert_eq!(body.output.len(), 3);
    assert!(matches!(body.output[0], Output::Reasoning(_)));
    assert!(matches!(body.output[2], Output::MCPToolCall(_)));
    match &body.output[1] {
        Output::Message(message) => {
            assert_eq!(message.id, "msg_1");
            assert_eq!(message.content.len(), 2);
            match &message.content[0] {
                MessageOutputContent::OutputText(txt) => {
                    assert_eq!(txt.text, "ask");
                    assert_eq!(txt.annotations.len(), 2);
                    assert!(matches!(
                        &txt.annotations[0],
                        Annotation::UrlCitation(c)
                            if c.start_index == 1 && c.end_index == 2 && c.title == "t" && c.url == "u"
                    ));
                    assert!(matches!(
                        &txt.annotations[1],
                        Annotation::FilePath(p) if p.file_id == "f" && p.index == -3
                    ));
                }
                other => panic!("the part is a text: {other:?}"),
            }
            assert!(matches!(
                &message.content[1],
                MessageOutputContent::Refusal(no) if no.refusal == "no"
            ));
        }
        other => panic!("the output is a message: {other:?}"),
    }
}

#[test]
fn every_kind_of_output_and_status_is_decoded() {
    let usage = "\"usage\":{\"input_tokens\":1,\"input_tokens_details\":{\"cached_tokens\":2},\"output_tokens\":3,\"output_tokens_details\":{\"reasoning_tokens\":4},\"total_tokens\":5}";
    let kinds = [
        "file_search_tool_call",
        "function_tool_call",
        "web_search_tool_call",
        "computer_tool_call",
        "reasoning",
        "code_interpreter_tool_call",
        "local_shell_call",
        "m_c_p_tool_call",
        "m_c_p_tool_list",
        "m_c_p_approval_request",
        "custom_tool_call",
    ];
    let outputs: Vec<String> = kinds
        .iter()
        .map(|kind| format!("{{\"type\":\"{kind}\"}}"))
        .collect();
    for (name, status) in [
        ("completed", Status::Completed),
        ("failed", Status::Failed),
        ("in_progress", Status::InProgress),
        ("cancelled", Status::Cancelled),
        ("queued", Status::Queued),
        ("incomplete", Status::Incomplete),
    ] {
        let text = format!(
            "{{\"id\":\"r\",\"output\":[{}],\"status\":\"{name}\",{usage}}}",
            outputs.join(",")
        );
        let body = Body::from_json(&text).expect("the text is a response");
        assert_eq!(body.status, status);
        assert_eq!(body.usage.total_tokens, 5);
        assert_eq!(body.output.len(), 11);
        assert!(matches!(body.output[0], Output::FileSearchToolCall(_)));
        assert!(matches!(body.output[1], Output::FunctionToolCall(_)));
        assert!(matches!(body.output[2], Output::WebSearchToolCall(_)));
        assert!(matches!(body.output[3], Output::ComputerToolCall(_)));
        assert!(matches!(body.output[4], Output::Reasoning(_)));
        assert!(matches!(body.output[5], Output::CodeInterpreterToolCall(_)));
        assert!(matches!(body.output[6], Output::LocalShellCall(_)));
        assert!(matches!(body.output[7], Output::MCPToolCall(_)));
        assert!(matches!(body.output[8], Output::MCPToolList(_)));
        assert!(matches!(body.output[9], Output::MCPApprovalRequest(_)));
        assert!(matches!(body.output[10], Output::CustomToolCall(_)));
    }
}

#[test]
fn text_that_describes_no_response_is_refused() {
    let usage = "\"usage\":{\"input_tokens\":1,\"input_tokens_details\":{\"cached_tokens\":2},\"output_tokens\":3,\"output_tokens_details\":{\"reasoning_tokens\":4},\"total_tokens\":5}";
    for text in [
        String::from(""),
        String::from("{}"),
        String::from("[]"),
        format!("{{\"output\":[],\"status\":\"completed\",{usage}}}"),
        format!("{{\"id\":\"r\",\"status\":\"completed\",{usage}}}"),
        format!("{{\"id\":\"r\",\"output\":{{}},\"status\":\"completed\",{usage}}}"),
        format!("{{\"id\":\"r\",\"output\":[],{usage}}}"),
        format!("{{\"id\":\"r\",\"output\":[],\"status\":\"done\",{usage}}}"),
        String::from("{\"id\":\"r\",\"output\":[],\"status\":\"completed\"}"),
        String::from("{\"id\":\"r\",\"output\":[],\"status\":\"completed\",\"usage\":{\"input_tokens\":1}}"),
        format!("{{\"id\":\"r\",\"output\":[{{\"type\":\"mcp_tool_call\"}}],\"status\":\"completed\",{usage}}}"),
        format!("{{\"id\":\"r\",\"output\":[{{\"type\":\"message\",\"id\":\"m\"}}],\"status\":\"completed\",{usage}}}"),
        format!("{{\"id\":\"r\",\"output\":[{{\"type\":\"message\",\"id\":\"m\",\"content\":[{{\"type\":\"output_text\",\"text\":\"x\"}}]}}],\"status\":\"completed\",{usage}}}"),
        format!("{{\"id\":\"r\",\"output\":[{{\"type\":\"message\",\"id\":\"m\",\"content\":[{{\"type\":\"output_text\",\"text\":\"x\",\"annotations\":[{{\"type\":\"file_path\",\"file_id\":\"f\",\"index\":2147483648}}]}}]}}],\"status\":\"completed\",{usage}}}"),
        format!("{{\"id\":\"r\",\"output\":[{{\"id\":\"m\"}}],\"status\":\"completed\",{usage}}}"),
    ] {
        assert!(Body::from_json(&text).is_none(), "{text}");
    }
}

#[test]
fn answer_is_read_from_the_text_of_a_response() {
    let model = Gpt4_1Nano::new(String::from("sk-test"));
    let usage = "\"usage\":{\"input_tokens\":1,\"input_tokens_details\":{\"cached_tokens\":2},\"output_tokens\":3,\"output_tokens_details\":{\"reasoning_tokens\":4},\"total_tokens\":5}";
    let text = format!(
        "{{\"id\":\"r\",\"output\":[{{\"type\":\"message\",\"id\":\"m\",\"content\":[{{\"type\":\"output_text\",\"text\":\"ask\",\"annotations\":[]}}]}}],\"status\":\"completed\",{usage}}}"
    );
    let body = Body::from_json(&text).unwrap();
    let output = model.read_response(&body).unwrap();
    assert_eq!(output.items.len(), 1);
    assert_eq!(output.items[0].parts, vec!["ask"]);
    let refused = Body::from_json(RESPONSE).unwrap();
    assert!(model.read_response(&refused).is_none());
}

#[test]
fn tool_choice_is_a_name_or_settings() {
    let choice = ToolChoice::Choice(String::from("auto"));
    assert!(matches!(choice, ToolChoice::Choice(name) if name == "auto"));
    let mut settings = std::collections::HashMap::new();
    settings.insert(String::from("type"), json("\"function\""));
    let config = ToolChoice::Config(settings);
    assert!(matches!(config, ToolChoice::Config(map) if map["type"] == "function"));
}
