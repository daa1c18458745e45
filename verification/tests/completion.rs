use rig_gemini_grpc::error::CompletionError;
use rig_gemini_grpc::json::{Json, Number};
use rig_gemini_grpc::message::{
    AssistantContent, CompletionRequest, CompletionResponse, DocumentSourceKind, EmptyListError,
    Image, ImageDetail, ImageMediaType, Message, OneOrMany, Reasoning, ReasoningContent, Text,
    ToolCall, ToolChoice, ToolDefinition, ToolFunction, ToolResult, ToolResultContent, Usage,
    UserContent,
};
use rig_gemini_grpc::proto::{
    Blob, Candidate, Content, Data, FileData, FunctionCall, FunctionCallingConfig,
    FunctionDeclaration, FunctionResponse, GenerateContentRequest, GenerateContentResponse,
    GenerationConfig, Kind, Part, ProtoValue, Struct, Tool, ToolConfig, UsageMetadata, MODE_ANY,
    MODE_AUTO, MODE_NONE,
};
use rig_gemini_grpc::vertex::client::{build_auth, AuthSource, VertexClient, VertexGrpcEndpoint};
use rig_gemini_grpc::vertex::completion::{
    attach_image, call_to_tool_call, create_grpc_request, is_encodable_response, part_to_assistant_content,
    report_tool_result, rig_assistant_content_to_grpc_part, rig_message_to_grpc_content,
    rig_user_content_to_grpc_part, signed_count, supports_image, tool_choice_to_vertex,
    unsigned_count, CompletionModel,
};

fn client() -> VertexClient {
    let auth = match build_auth(Some("key".to_string()), None, None) {
        Ok(AuthSource::Known(auth)) => auth,
        _ => panic!("auth should build"),
    };
    VertexClient::new("p".to_string(), "l".to_string(), VertexGrpcEndpoint::Global, auth)
}

fn text_of(text: &str) -> Text {
    Text { text: text.to_string() }
}

fn plain(data: Data) -> Part {
    Part { data: Some(data), thought: false, thought_signature: vec![] }
}

fn text_part(text: &str) -> Part {
    plain(Data::Text(text.to_string()))
}

fn user(text: &str) -> Message {
    Message::User { content: OneOrMany::one(UserContent::Text(text_of(text))) }
}

fn request_error(text: &str) -> CompletionError {
    CompletionError::RequestError(text.to_string())
}

fn response_error(text: &str) -> CompletionError {
    CompletionError::ResponseError(text.to_string())
}

fn image(data: DocumentSourceKind, media_type: Option<ImageMediaType>) -> UserContent {
    UserContent::Image(Image { data, media_type, detail: None })
}

fn response(parts: Vec<Part>) -> GenerateContentResponse {
    GenerateContentResponse {
        candidates: vec![Candidate {
            content: Some(Content { role: "model".to_string(), parts }),
            finish_reason: 1,
        }],
        usage_metadata: None,
        model_version: String::new(),
        response_id: String::new(),
    }
}

fn arguments() -> Json {
    Json::Object(vec![(
        "city".to_string(),
        Json::String("Oslo".to_string()),
    )])
}

fn argument_struct() -> Struct {
    Struct {
        fields: vec![(
            "city".to_string(),
            ProtoValue { kind: Some(Kind::StringValue("Oslo".to_string())) },
        )],
    }
}

fn bare_request(history: OneOrMany<Message>) -> CompletionRequest {
    CompletionRequest {
        model: None,
        preamble: None,
        chat_history: history,
        tools: vec![],
        temperature: None,
        max_tokens: None,
        tool_choice: None,
        output_schema: None,
    }
}

#[test]
fn lists_of_one_or_many() {
    assert_eq!(OneOrMany::<u8>::many(vec![]), Err(EmptyListError));
    let list = OneOrMany::many(vec![1u8, 2, 3]).unwrap();
    assert_eq!(*list.first(), 1);
    assert_eq!(list.into_vec(), vec![1, 2, 3]);
    assert_eq!(OneOrMany::one(7u8).into_vec(), vec![7]);
}

#[test]
fn tool_choices() {
    let config = |mode, names: Vec<&str>| FunctionCallingConfig {
        mode,
        allowed_function_names: names.into_iter().map(|n| n.to_string()).collect(),
    };
    assert_eq!(tool_choice_to_vertex(ToolChoice::Auto), config(MODE_AUTO, vec![]));
    assert_eq!(tool_choice_to_vertex(ToolChoice::Required), config(MODE_ANY, vec![]));
    assert_eq!(tool_choice_to_vertex(ToolChoice::Never), config(MODE_NONE, vec![]));
    assert_eq!(
        tool_choice_to_vertex(ToolChoice::Specific {
            function_names: vec!["f".to_string(), "g".to_string()]
        }),
        config(MODE_ANY, vec!["f", "g"])
    );
    assert_eq!((MODE_AUTO, MODE_ANY, MODE_NONE), (1, 2, 3));
}

fn output_part(output: Kind) -> Part {
    plain(Data::FunctionResponse(FunctionResponse {
        name: "f".to_string(),
        response: Some(Struct {
            fields: vec![("output".to_string(), ProtoValue { kind: Some(output) })],
        }),
    }))
}

fn tool_result(content: ToolResultContent) -> UserContent {
    UserContent::ToolResult(ToolResult { id: "f".to_string(), content: OneOrMany::one(content) })
}

#[test]
fn tool_results() {
    let json = tool_result(ToolResultContent::Text(text_of("{\"a\": 2}")));
    assert_eq!(
        rig_user_content_to_grpc_part(json),
        Ok(output_part(Kind::StructValue(Struct {
            fields: vec![(
                "a".to_string(),
                ProtoValue { kind: Some(Kind::NumberValue(2.0f64.to_bits())) }
            )]
        })))
    );
    let words = tool_result(ToolResultContent::Text(text_of("sunny today")));
    assert_eq!(
        rig_user_content_to_grpc_part(words),
        Ok(output_part(Kind::StringValue("sunny today".to_string())))
    );
    let picture = tool_result(ToolResultContent::Image(Image {
        data: DocumentSourceKind::Unknown,
        media_type: None,
        detail: None,
    }));
    assert_eq!(
        rig_user_content_to_grpc_part(picture),
        Err(request_error("Tool result content must be text"))
    );
    assert_eq!(
        report_tool_result("f".to_string(), "t".to_string(), Some(Json::Bool(true))),
        output_part(Kind::BoolValue(true))
    );
    assert_eq!(
        report_tool_result("f".to_string(), "t".to_string(), None),
        output_part(Kind::StringValue("t".to_string()))
    );
}

#[test]
fn user_images() {
    let png = Some(ImageMediaType::PNG);
    let inline = |bytes: &[u8]| {
        plain(Data::InlineData(Blob { mime_type: "image/png".to_string(), data: bytes.to_vec() }))
    };
    assert_eq!(
        rig_user_content_to_grpc_part(image(
            DocumentSourceKind::Url("gs://b/o".to_string()),
            Some(ImageMediaType::JPEG)
        )),
        Ok(plain(Data::FileData(FileData {
            mime_type: "image/jpeg".to_string(),
            file_uri: "gs://b/o".to_string(),
        })))
    );
    assert_eq!(
        rig_user_content_to_grpc_part(image(DocumentSourceKind::Raw(vec![1, 2]), png)),
        Ok(inline(&[1, 2]))
    );
    assert_eq!(
        rig_user_content_to_grpc_part(image(DocumentSourceKind::Base64("aGk=".to_string()), png)),
        Ok(inline(b"hi"))
    );
    assert_eq!(
        rig_user_content_to_grpc_part(image(
            DocumentSourceKind::String("data:image/png;base64,aGk".to_string()),
            png
        )),
        Ok(inline(b"hi"))
    );
    assert_eq!(
        rig_user_content_to_grpc_part(image(DocumentSourceKind::Unknown, png)),
        Err(request_error("Image content has no body"))
    );
    assert_eq!(
        rig_user_content_to_grpc_part(image(DocumentSourceKind::Other, png)),
        Err(request_error("Unsupported document source kind"))
    );
    assert_eq!(
        rig_user_content_to_grpc_part(image(DocumentSourceKind::Raw(vec![]), None)),
        Err(request_error("Media type for image is required for Vertex"))
    );
    assert_eq!(
        rig_user_content_to_grpc_part(image(
            DocumentSourceKind::Raw(vec![]),
            Some(ImageMediaType::GIF)
        )),
        Err(request_error("Unsupported image media type GIF"))
    );
    assert_eq!(
        attach_image(ImageMediaType::WEBP, Ok(vec![9])),
        Ok(plain(Data::InlineData(Blob { mime_type: "image/webp".to_string(), data: vec![9] })))
    );
    assert_eq!(
        attach_image(ImageMediaType::WEBP, Err(request_error("no"))),
        Err(request_error("no"))
    );
}

#[test]
fn supported_images() {
    let all = [
        (ImageMediaType::JPEG, "image/jpeg", true),
        (ImageMediaType::PNG, "image/png", true),
        (ImageMediaType::GIF, "image/gif", false),
        (ImageMediaType::WEBP, "image/webp", true),
        (ImageMediaType::HEIC, "image/heic", true),
        (ImageMediaType::HEIF, "image/heif", true),
        (ImageMediaType::SVG, "image/svg+xml", false),
    ];
    for (media_type, mime_type, supported) in all {
        assert_eq!(supports_image(media_type), supported);
        assert_eq!(media_type.to_mime_type(), mime_type);
        assert_eq!(media_type.name(), format!("{media_type:?}"));
    }
}

#[test]
fn other_user_content() {
    for content in [UserContent::Audio, UserContent::Video, UserContent::Document] {
        assert_eq!(
            rig_user_content_to_grpc_part(content),
            Err(request_error("Unsupported user content type"))
        );
    }
}

fn tool_call(arguments: Json, signature: Option<&str>) -> AssistantContent {
    AssistantContent::ToolCall(ToolCall {
        id: "call-1".to_string(),
        function: ToolFunction { name: "weather".to_string(), arguments },
        signature: signature.map(|s| s.to_string()),
    })
}

#[test]
fn assistant_content() {
    assert_eq!(
        rig_assistant_content_to_grpc_part(AssistantContent::Text(text_of("hello"))),
        Ok(text_part("hello"))
    );
    assert_eq!(
        rig_assistant_content_to_grpc_part(tool_call(arguments(), Some("+/8="))),
        Ok(Part {
            data: Some(Data::FunctionCall(FunctionCall {
                name: "weather".to_string(),
                args: Some(argument_struct()),
            })),
            thought: false,
            thought_signature: vec![0xfb, 0xff],
        })
    );
    assert_eq!(
        rig_assistant_content_to_grpc_part(tool_call(Json::Null, Some("!"))),
        Err(request_error("Expected a JSON object for google.protobuf.Struct"))
    );
    assert!(matches!(
        rig_assistant_content_to_grpc_part(tool_call(arguments(), Some("!"))),
        Err(CompletionError::RequestError(text)) if text.starts_with("Invalid base64 data: ")
    ));
    assert_eq!(
        rig_assistant_content_to_grpc_part(AssistantContent::Image(Image {
            data: DocumentSourceKind::Unknown,
            media_type: None,
            detail: None,
        })),
        Err(request_error("Unsupported assistant content type"))
    );
}

#[test]
fn reasoning() {
    let reasoning = Reasoning {
        id: Some("r".to_string()),
        content: vec![
            ReasoningContent::Text { text: "one".to_string(), signature: None },
            ReasoningContent::Encrypted("secret".to_string()),
            ReasoningContent::Summary("two".to_string()),
            ReasoningContent::Redacted { data: "three".to_string() },
            ReasoningContent::Text { text: "four".to_string(), signature: Some("AQI=".to_string()) },
            ReasoningContent::Text { text: "five".to_string(), signature: Some("AwQ=".to_string()) },
        ],
    };
    assert_eq!(reasoning.display_text(), "one\ntwo\nthree\nfour\nfive");
    assert_eq!(reasoning.first_signature(), Some("AQI="));
    assert_eq!(
        rig_assistant_content_to_grpc_part(AssistantContent::Reasoning(reasoning)),
        Ok(Part {
            data: Some(Data::Text("one\ntwo\nthree\nfour\nfive".to_string())),
            thought: true,
            thought_signature: vec![1, 2],
        })
    );
}

#[test]
fn messages() {
    assert_eq!(
        rig_message_to_grpc_content(user("hi")),
        Ok(Content { role: "user".to_string(), parts: vec![text_part("hi")] })
    );
    let content = OneOrMany::many(vec![
        AssistantContent::Text(text_of("a")),
        AssistantContent::Text(text_of("b")),
    ])
    .unwrap();
    assert_eq!(
        rig_message_to_grpc_content(Message::Assistant { id: Some("x".to_string()), content }),
        Ok(Content { role: "model".to_string(), parts: vec![text_part("a"), text_part("b")] })
    );
    let content = OneOrMany::many(vec![
        UserContent::Text(text_of("fine")),
        UserContent::Audio,
        image(DocumentSourceKind::Unknown, None),
    ])
    .unwrap();
    assert_eq!(
        rig_message_to_grpc_content(Message::User { content }),
        Err(request_error("Unsupported user content type"))
    );
}

#[test]
fn a_bare_request() {
    let request = create_grpc_request(
        &client(),
        "gemini".to_string(),
        bare_request(OneOrMany::one(user("hi"))),
    );
    assert_eq!(
        request,
        Ok(GenerateContentRequest {
            model: "projects/p/locations/l/publishers/google/models/gemini".to_string(),
            contents: vec![Content { role: "user".to_string(), parts: vec![text_part("hi")] }],
            system_instruction: None,
            cached_content: String::new(),
            tools: vec![],
            tool_config: None,
            labels: vec![],
            safety_settings: vec![],
            model_armor_config: None,
            generation_config: None,
        })
    );
}

#[test]
fn a_full_request() {
    let history = OneOrMany::many(vec![
        user("hi"),
        Message::Assistant {
            id: None,
            content: OneOrMany::one(AssistantContent::Text(text_of("hello"))),
        },
        user("bye"),
    ])
    .unwrap();
    let tool = |name: &str| ToolDefinition {
        name: name.to_string(),
        description: format!("does {name}"),
        parameters: Json::Object(vec![]),
    };
    let declaration = |name: &str| FunctionDeclaration {
        name: name.to_string(),
        description: format!("does {name}"),
        parameters_json_schema: Some(ProtoValue {
            kind: Some(Kind::StructValue(Struct { fields: vec![] })),
        }),
    };
    let model = CompletionModel::new(client(), "default".to_string());
    let request = model
        .request(CompletionRequest {
            model: Some("endpoints/5".to_string()),
            preamble: Some("be brief".to_string()),
            chat_history: history,
            tools: vec![tool("f"), tool("g")],
            temperature: Some(0.5f32.to_bits()),
            max_tokens: Some(100),
            tool_choice: Some(ToolChoice::Required),
            output_schema: Some(Ok(Json::Bool(true))),
        })
        .expect("everything can be sent");
    assert_eq!(request.model, "endpoints/5");
    let spoken: Vec<(&str, &Part)> =
        request.contents.iter().map(|c| (c.role.as_str(), &c.parts[0])).collect();
    assert_eq!(
        spoken,
        vec![
            ("user", &text_part("hi")),
            ("model", &text_part("hello")),
            ("user", &text_part("bye")),
        ]
    );
    assert_eq!(
        request.system_instruction,
        Some(Content { role: "model".to_string(), parts: vec![text_part("be brief")] })
    );
    assert_eq!(
        request.tools,
        vec![Tool { function_declarations: vec![declaration("f"), declaration("g")] }]
    );
    assert_eq!(
        request.tool_config,
        Some(ToolConfig {
            function_calling_config: Some(FunctionCallingConfig {
                mode: MODE_ANY,
                allowed_function_names: vec![],
            }),
        })
    );
    assert_eq!(
        request.generation_config,
        Some(GenerationConfig {
            temperature: Some(0.5f32.to_bits()),
            max_output_tokens: Some(100),
            response_mime_type: "application/json".to_string(),
            response_json_schema: Some(ProtoValue { kind: Some(Kind::BoolValue(true)) }),
        })
    );
}

#[test]
fn one_setting_makes_a_generation_config() {
    let mut request = bare_request(OneOrMany::one(user("hi")));
    request.max_tokens = Some(0);
    let config = create_grpc_request(&client(), "m".to_string(), request)
        .expect("everything can be sent")
        .generation_config;
    assert_eq!(
        config,
        Some(GenerationConfig {
            temperature: None,
            max_output_tokens: Some(0),
            response_mime_type: String::new(),
            response_json_schema: None,
        })
    );
}

#[test]
fn requests_that_cannot_be_made() {
    let bad = || Message::User { content: OneOrMany::one(UserContent::Video) };
    let mut request = bare_request(OneOrMany::many(vec![user("fine"), bad()]).unwrap());
    request.output_schema = Some(Err("cycle".to_string()));
    assert_eq!(
        create_grpc_request(&client(), "m".to_string(), request),
        Err(request_error("Unsupported user content type"))
    );
    let mut request = bare_request(OneOrMany::one(user("fine")));
    request.output_schema = Some(Err("cycle".to_string()));
    assert_eq!(
        create_grpc_request(&client(), "m".to_string(), request),
        Err(request_error("Invalid output schema: cycle"))
    );
}

#[test]
fn counts_keep_their_low_bits() {
    for n in [0u64, 5, i32::MAX as u64, i32::MAX as u64 + 1, u32::MAX as u64, 1 << 32, u64::MAX] {
        assert_eq!(signed_count(n), n as i32);
    }
    for n in [0i32, 9, i32::MAX, -1, i32::MIN] {
        assert_eq!(unsigned_count(n), n as u64);
    }
    assert_eq!(signed_count(0x8000_0000), i32::MIN);
    assert_eq!(unsigned_count(-1), u64::MAX);
}

#[test]
fn a_response_is_a_completion() {
    let mut raw = response(vec![
        Part {
            data: Some(Data::Text("hm".to_string())),
            thought: true,
            thought_signature: vec![0xfb, 0xff],
        },
        text_part("hello"),
        Part {
            data: Some(Data::FunctionCall(FunctionCall {
                name: "weather".to_string(),
                args: Some(argument_struct()),
            })),
            thought: false,
            thought_signature: vec![],
        },
        plain(Data::FunctionCall(FunctionCall { name: "now".to_string(), args: None })),
        plain(Data::InlineData(Blob { mime_type: "image/png".to_string(), data: b"hi".to_vec() })),
    ]);
    raw.usage_metadata = Some(UsageMetadata {
        prompt_token_count: 1,
        candidates_token_count: 2,
        total_token_count: 3,
        cached_content_token_count: -1,
    });
    assert!(is_encodable_response(&raw));
    let completion = CompletionResponse::try_from(raw).expect("there is a candidate");
    assert_eq!(
        completion.usage,
        Usage {
            input_tokens: 1,
            output_tokens: 2,
            total_tokens: 3,
            cached_input_tokens: u64::MAX,
        }
    );
    assert_eq!(completion.message_id, None);
    assert_eq!(completion.raw_response.candidates.len(), 1);
    assert_eq!(
        completion.choice.into_vec(),
        vec![
            AssistantContent::Reasoning(Reasoning {
                id: None,
                content: vec![ReasoningContent::Text {
                    text: "hm".to_string(),
                    signature: Some("+/8=".to_string()),
                }],
            }),
            AssistantContent::Text(text_of("hello")),
            AssistantContent::ToolCall(ToolCall {
                id: "weather".to_string(),
                function: ToolFunction { name: "weather".to_string(), arguments: arguments() },
                signature: None,
            }),
            AssistantContent::ToolCall(ToolCall {
                id: "now".to_string(),
                function: ToolFunction {
                    name: "now".to_string(),
                    arguments: Json::Object(vec![]),
                },
                signature: None,
            }),
            AssistantContent::Image(Image {
                data: DocumentSourceKind::Base64("aGk=".to_string()),
                media_type: Some(ImageMediaType::PNG),
                detail: Some(ImageDetail::Auto),
            }),
        ]
    );
}

#[test]
fn responses_that_are_no_completions() {
    let choice = |raw| CompletionResponse::try_from(raw).map(|c| c.choice.into_vec());
    assert_eq!(
        choice(GenerateContentResponse::default()),
        Err(response_error("No response candidates in response"))
    );
    let mut raw = response(vec![]);
    raw.candidates[0].content = None;
    raw.candidates[0].finish_reason = -12;
    assert_eq!(
        choice(raw),
        Err(response_error("Vertex candidate missing content (finish_reason=-12)"))
    );
    assert_eq!(
        choice(response(vec![])),
        Err(response_error("Response contained no message or tool call (empty)"))
    );
    let part = Part { data: None, thought: false, thought_signature: vec![] };
    assert_eq!(
        choice(response(vec![text_part("a"), part])),
        Err(response_error("Response did not contain a message or tool call"))
    );
    let blob = |mime_type: &str| {
        plain(Data::InlineData(Blob { mime_type: mime_type.to_string(), data: vec![] }))
    };
    assert_eq!(
        choice(response(vec![blob("no/such")])),
        Err(response_error("Unsupported media type None"))
    );
    assert_eq!(
        choice(response(vec![blob("audio/wav")])),
        Err(response_error("Unsupported media type Some(Audio(WAV))"))
    );
}

#[test]
fn image_mime_types_are_understood() {
    for media_type in [
        ImageMediaType::JPEG,
        ImageMediaType::PNG,
        ImageMediaType::GIF,
        ImageMediaType::WEBP,
        ImageMediaType::HEIC,
        ImageMediaType::HEIF,
        ImageMediaType::SVG,
    ] {
        let part = plain(Data::InlineData(Blob {
            mime_type: media_type.to_mime_type().to_string(),
            data: vec![1],
        }));
        assert_eq!(
            part_to_assistant_content(&part),
            Ok(AssistantContent::Image(Image {
                data: DocumentSourceKind::Base64("AQ==".to_string()),
                media_type: Some(media_type),
                detail: Some(ImageDetail::Auto),
            }))
        );
    }
}

#[test]
fn completions_can_be_sent_back() {
    let parts = || {
        vec![
            Part {
                data: Some(Data::Text("hm".to_string())),
                thought: true,
                thought_signature: vec![1, 2, 3],
            },
            text_part("hello"),
            Part {
                data: Some(Data::FunctionCall(FunctionCall {
                    name: "weather".to_string(),
                    args: Some(argument_struct()),
                })),
                thought: false,
                thought_signature: vec![9],
            },
        ]
    };
    let completion = CompletionResponse::try_from(response(parts())).expect("there is a candidate");
    assert_eq!(
        rig_message_to_grpc_content(Message::Assistant { id: None, content: completion.choice }),
        Ok(Content { role: "model".to_string(), parts: parts() })
    );
}

#[test]
fn replies() {
    let completion = CompletionModel::completion(Ok(response(vec![text_part("hi")])))
        .expect("there is a candidate");
    assert_eq!(completion.choice.into_vec(), vec![AssistantContent::Text(text_of("hi"))]);
    assert_eq!(
        CompletionModel::completion(Err("status: Unavailable".to_string())),
        Err(CompletionError::ProviderError("status: Unavailable".to_string()))
    );
}

#[test]
fn what_a_response_says_of_itself() {
    let empty = GenerateContentResponse::default();
    assert_eq!(empty.get_response_id(), None);
    assert_eq!(empty.get_response_model_name(), None);
    assert_eq!(empty.get_text_response(), None);
    assert_eq!(empty.get_usage(), None);
    assert_eq!(empty.get_output_messages(), vec![]);
    let usage = UsageMetadata {
        prompt_token_count: 1,
        candidates_token_count: 2,
        total_token_count: 3,
        cached_content_token_count: 0,
    };
    let mut raw = response(vec![
        text_part("a"),
        plain(Data::FileData(FileData { mime_type: "x".to_string(), file_uri: "y".to_string() })),
        Part { data: Some(Data::Text("b".to_string())), thought: true, thought_signature: vec![7] },
    ]);
    raw.response_id = "id".to_string();
    raw.model_version = "v".to_string();
    raw.usage_metadata = Some(usage);
    assert_eq!(raw.get_response_id(), Some("id".to_string()));
    assert_eq!(raw.get_response_model_name(), Some("v".to_string()));
    assert_eq!(raw.get_text_response(), Some("a\nb".to_string()));
    assert_eq!(raw.get_usage(), Some(usage));
    assert_eq!(raw.get_output_messages(), raw.candidates);
}

#[test]
fn integers_in_arguments_are_floats_on_the_wire() {
    let call = tool_call(
        Json::Object(vec![("n".to_string(), Json::Number(Number::NegInt(-2)))]),
        None,
    );
    let part = rig_assistant_content_to_grpc_part(call).expect("an object is fine");
    assert_eq!(
        part.data,
        Some(Data::FunctionCall(FunctionCall {
            name: "weather".to_string(),
            args: Some(Struct {
                fields: vec![(
                    "n".to_string(),
                    ProtoValue { kind: Some(Kind::NumberValue((-2.0f64).to_bits())) }
                )]
            }),
        }))
    );
}

#[test]
fn tool_results_answer_tool_calls() {
    let call = FunctionCall { name: "weather".to_string(), args: None };
    let call = call_to_tool_call(&call, &[]);
    let result = UserContent::ToolResult(ToolResult {
        id: call.id,
        content: OneOrMany::one(ToolResultContent::Text(text_of("sunny"))),
    });
    let part = rig_user_content_to_grpc_part(result).expect("text is fine");
    assert!(matches!(
        part.data,
        Some(Data::FunctionResponse(response)) if response.name == "weather"
    ));
}
