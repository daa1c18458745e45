use rig_gemini_grpc::error::CompletionError;
use rig_gemini_grpc::json::Json;
use rig_gemini_grpc::message::{AssistantContent, CompletionResponse, ToolCall, ToolFunction};
use rig_gemini_grpc::proto::{
    Blob, Candidate, Content, Data, FunctionCall, GenerateContentResponse, Part,
};
use rig_gemini_grpc::vertex::streaming::{
    encode_signature, CompletionStream, RawStreamingChoice, StreamStep,
};

fn chunk(id: &str, parts: Vec<Part>, finish_reason: i32) -> GenerateContentResponse {
    GenerateContentResponse {
        candidates: vec![Candidate {
            content: Some(Content { role: "model".to_string(), parts }),
            finish_reason,
        }],
        usage_metadata: None,
        model_version: String::new(),
        response_id: id.to_string(),
    }
}

fn text(text: &str) -> Part {
    Part { data: Some(Data::Text(text.to_string())), thought: false, thought_signature: vec![] }
}

fn message(text: &str) -> Result<RawStreamingChoice, CompletionError> {
    Ok(RawStreamingChoice::Message(text.to_string()))
}

fn run(
    events: Vec<Result<GenerateContentResponse, String>>,
) -> Vec<Result<RawStreamingChoice, CompletionError>> {
    let mut stream = CompletionStream::new();
    let mut items = Vec::new();
    for event in events {
        let step = stream.step(Some(event));
        items.extend(step.items);
        if step.done {
            return items;
        }
    }
    let step = stream.step(None);
    assert!(step.done);
    items.extend(step.items);
    items
}

#[test]
fn pieces_come_as_they_are_received() {
    let mut stream = CompletionStream::new();
    let parts = vec![
        Part {
            data: Some(Data::Text("hm".to_string())),
            thought: true,
            thought_signature: vec![1],
        },
        text("hello"),
        Part {
            data: Some(Data::InlineData(Blob { mime_type: "image/png".to_string(), data: vec![] })),
            thought: false,
            thought_signature: vec![],
        },
        Part {
            data: Some(Data::FunctionCall(FunctionCall { name: "f".to_string(), args: None })),
            thought: false,
            thought_signature: vec![0xfb, 0xff],
        },
        Part { data: None, thought: false, thought_signature: vec![] },
    ];
    assert_eq!(
        stream.step(Some(Ok(chunk("1", parts, 0)))),
        StreamStep {
            items: vec![
                Ok(RawStreamingChoice::ReasoningDelta { id: None, reasoning: "hm".to_string() }),
                message("hello"),
                Ok(RawStreamingChoice::ToolCall(ToolCall {
                    id: "f".to_string(),
                    function: ToolFunction {
                        name: "f".to_string(),
                        arguments: Json::Object(vec![]),
                    },
                    signature: Some("+/8=".to_string()),
                })),
            ],
            done: false,
        }
    );
}

#[test]
fn a_finish_reason_ends_the_stream() {
    let items = run(vec![
        Ok(chunk("1", vec![text("a")], 0)),
        Ok(chunk("2", vec![text("b")], 1)),
        Ok(chunk("3", vec![text("c")], 0)),
    ]);
    assert_eq!(
        items,
        vec![
            message("a"),
            message("b"),
            Ok(RawStreamingChoice::FinalResponse(chunk("2", vec![text("b")], 1))),
        ]
    );
}

#[test]
fn the_last_response_closes_the_stream() {
    let items = run(vec![Ok(chunk("1", vec![text("a")], 0)), Ok(chunk("2", vec![], 0))]);
    assert_eq!(
        items,
        vec![message("a"), Ok(RawStreamingChoice::FinalResponse(chunk("2", vec![], 0)))]
    );
}

#[test]
fn an_empty_stream_closes_with_an_empty_response() {
    assert_eq!(
        run(vec![]),
        vec![Ok(RawStreamingChoice::FinalResponse(GenerateContentResponse::default()))]
    );
    assert_eq!(
        run(vec![Ok(GenerateContentResponse::default())]),
        vec![Ok(RawStreamingChoice::FinalResponse(GenerateContentResponse::default()))]
    );
}

#[test]
fn an_error_breaks_the_stream_off() {
    let items = run(vec![
        Ok(chunk("1", vec![text("a")], 0)),
        Err("status: Internal".to_string()),
        Ok(chunk("2", vec![text("b")], 1)),
    ]);
    assert_eq!(
        items,
        vec![
            message("a"),
            Err(CompletionError::ProviderError("status: Internal".to_string())),
        ]
    );
}

#[test]
fn a_candidate_without_content_can_be_final() {
    let mut response = chunk("1", vec![], 2);
    response.candidates[0].content = None;
    let mut same = chunk("1", vec![], 2);
    same.candidates[0].content = None;
    assert_eq!(run(vec![Ok(response)]), vec![Ok(RawStreamingChoice::FinalResponse(same))]);
}

#[test]
fn signatures_are_encoded() {
    assert_eq!(encode_signature(&[]), None);
    assert_eq!(encode_signature(b"hi"), Some("aGk=".to_string()));
}

#[test]
fn a_stream_says_what_a_completion_says() {
    let parts = || {
        vec![
            Part {
                data: Some(Data::Text("hm".to_string())),
                thought: true,
                thought_signature: vec![1],
            },
            text("hello"),
            Part {
                data: Some(Data::FunctionCall(FunctionCall { name: "f".to_string(), args: None })),
                thought: false,
                thought_signature: vec![2],
            },
        ]
    };
    let completion =
        CompletionResponse::try_from(chunk("1", parts(), 1)).expect("there is a candidate");
    let said: Vec<_> = completion
        .choice
        .into_vec()
        .into_iter()
        .map(|content| match content {
            AssistantContent::Text(text) => Ok(RawStreamingChoice::Message(text.text)),
            AssistantContent::Reasoning(reasoning) => Ok(RawStreamingChoice::ReasoningDelta {
                id: None,
                reasoning: reasoning.display_text(),
            }),
            AssistantContent::ToolCall(call) => Ok(RawStreamingChoice::ToolCall(call)),
            AssistantContent::Image(_) => panic!("there is no image"),
        })
        .collect();
    let mut streamed = run(vec![Ok(chunk("1", parts(), 1))]);
    assert_eq!(
        streamed.pop(),
        Some(Ok(RawStreamingChoice::FinalResponse(chunk("1", parts(), 1))))
    );
    assert_eq!(streamed, said);
}
