use gaise::anthropic::{AnthropicContent, AnthropicRequest};
use gaise::contracts::{
    GaiseContent, GaiseGenerationConfig, GaiseInstructRequest, GaiseMessage, GaiseTool,
    GaiseToolParameter, OneOrMany,
};
use gaise::named_map::NamedMap;
use gaise::anthropic::{ instruct_response_from, stream_item_from, AnthropicContentBlock, AnthropicDelta, AnthropicResponse, AnthropicStreamResponse, AnthropicUsage, };
use gaise::contracts::GaiseStreamChunk;
use gaise::contracts::{GaiseFunctionCall, GaiseToolCall};

#[test]
fn anthropic_mapping_tool_request() {
    let mut properties = NamedMap::new();
    properties.insert(
        "location".to_string(),
        GaiseToolParameter {
            kind: Some("string".to_string()),
            description: Some("The city and state, e.g. San Francisco, CA".to_string()),
            ..Default::default()
        },
    );

    let request = GaiseInstructRequest {
        model: "sonnet-3-5".to_string(),
        tools: Some(vec![GaiseTool {
            name: "get_current_weather".to_string(),
            description: Some("Get the current weather in a given location".to_string()),
            parameters: Some(GaiseToolParameter {
                kind: Some("object".to_string()),
                properties: Some(properties),
                required: Some(vec!["location".to_string()]),
                ..Default::default()
            }),
        }]),
        input: OneOrMany::One(GaiseMessage {
            role: "user".to_string(),
            content: Some(OneOrMany::One(GaiseContent::Text { text: "What's the weather like in Boston?".to_string() })),
            ..Default::default()
        }),
        ..Default::default()
    };

    let anthropic_request = AnthropicRequest::from(&request);

    let tools = anthropic_request.tools.expect("Missing tools");
    assert_eq!(tools.len(), 1);
    assert_eq!(tools[0].name, "get_current_weather");
    assert_eq!(
        tools[0].input_schema.kind,
        "object"
    );
    assert!(tools[0].input_schema
        .properties
        .contains_key("location"));
}

#[test]
fn anthropic_mapping_array_tool_request() {
    let mut properties = NamedMap::new();
    properties.insert(
        "tasks".to_string(),
        GaiseToolParameter {
            kind: Some("array".to_string()),
            description: Some("Array of tasks".to_string()),
            items: Some(Box::new(GaiseToolParameter {
                kind: Some("string".to_string()),
                ..Default::default()
            })),
            ..Default::default()
        },
    );

    let request = GaiseInstructRequest {
        model: "sonnet-3-5".to_string(),
        tools: Some(vec![GaiseTool {
            name: "todo_add".to_string(),
            description: Some("Add tasks".to_string()),
            parameters: Some(GaiseToolParameter {
                kind: Some("object".to_string()),
                properties: Some(properties),
                required: Some(vec!["tasks".to_string()]),
                ..Default::default()
            }),
        }]),
        input: OneOrMany::One(GaiseMessage {
            role: "user".to_string(),
            content: Some(OneOrMany::One(GaiseContent::Text { text: "Add some tasks".to_string() })),
            ..Default::default()
        }),
        ..Default::default()
    };

    let anthropic_request = AnthropicRequest::from(&request);

    let tools = anthropic_request.tools.expect("Missing tools");
    let prop = tools[0].input_schema.properties.get("tasks").expect("Missing tasks property");
    assert_eq!(prop.kind, "array");
    let items = prop.items.as_ref().expect("Missing items in array property");
    assert_eq!(items.kind, "string");
}

#[test]
fn anthropic_mapping_text_request() {
    let request = GaiseInstructRequest {
        model: "sonnet-3-5".to_string(),
        input: OneOrMany::One(GaiseMessage {
            role: "user".to_string(),
            content: Some(OneOrMany::One(GaiseContent::Text { text: "Hello".to_string() })),
            ..Default::default()
        }),
        generation_config: Some(GaiseGenerationConfig {
            max_tokens: Some(100),
            ..Default::default()
        }),
        ..Default::default()
    };

    let anthropic_request = AnthropicRequest::from(&request);

    assert_eq!(anthropic_request.messages.len(), 1);
    assert_eq!(anthropic_request.messages[0].role, "user");

    if let AnthropicContent::Text(text) = &anthropic_request.messages[0].content {
        assert_eq!(text, "Hello");
    } else {
        panic!("Expected text content");
    }

    assert_eq!(anthropic_request.max_tokens, 100);
}

#[test]
fn anthropic_mapping_multimodal_request() {
    let request = GaiseInstructRequest {
        model: "sonnet-3-5".to_string(),
        input: OneOrMany::One(GaiseMessage {
            role: "user".to_string(),
            content: Some(OneOrMany::Many(vec![
                GaiseContent::Text { text: "What is in this image?".to_string() },
                GaiseContent::Image { data: vec![1, 2, 3], format: Some("image/png".to_string()) },
            ])),
            ..Default::default()
        }),
        ..Default::default()
    };

    let anthropic_request = AnthropicRequest::from(&request);

    assert_eq!(anthropic_request.messages.len(), 1);

    if let AnthropicContent::Blocks(blocks) = &anthropic_request.messages[0].content {
        assert_eq!(blocks.len(), 2);
    } else {
        panic!("Expected blocks content");
    }
}

#[test]
fn anthropic_system_messages_stay_inline() {
    let request = GaiseInstructRequest {
        model: "sonnet-3-5".to_string(),
        input: OneOrMany::Many(vec![
            GaiseMessage {
                role: "system".to_string(),
                content: Some(OneOrMany::One(GaiseContent::Text { text: "You are a helpful assistant.".to_string() })),
                ..Default::default()
            },
            GaiseMessage {
                role: "user".to_string(),
                content: Some(OneOrMany::One(GaiseContent::Text { text: "Hello".to_string() })),
                ..Default::default()
            },
        ]),
        ..Default::default()
    };
    let anthropic_request = AnthropicRequest::from(&request);
    assert_eq!(anthropic_request.system, None);
    assert_eq!(anthropic_request.messages.len(), 2);
    assert_eq!(anthropic_request.messages[0].role, "system");
    assert_eq!(anthropic_request.max_tokens, 4096);
}

#[test]
fn anthropic_tool_messages() {
    let request = GaiseInstructRequest {
        model: "sonnet".to_string(),
        input: OneOrMany::Many(vec![
            GaiseMessage {
                role: "assistant".to_string(),
                content: None,
                tool_calls: Some(vec![GaiseToolCall {
                    id: "tu_1".to_string(),
                    kind: "function".to_string(),
                    function: GaiseFunctionCall { name: "f".to_string(), arguments: None },
                }]),
                tool_call_id: None,
            },
            GaiseMessage {
                role: "user".to_string(),
                content: Some(OneOrMany::Many(vec![
                    GaiseContent::Text { text: "a".to_string() },
                    GaiseContent::Text { text: "b".to_string() },
                ])),
                tool_calls: None,
                tool_call_id: Some("tu_1".to_string()),
            },
        ]),
        ..Default::default()
    };
    let r = AnthropicRequest::from(&request);
    match &r.messages[0].content {
        AnthropicContent::Blocks(bs) => {
            assert_eq!(bs.len(), 2);
            assert!(matches!(&bs[0], AnthropicContentBlock::Text { text } if text.is_empty()));
            assert!(matches!(&bs[1], AnthropicContentBlock::ToolUse { id, input, .. } if id == "tu_1" && input == "{}"));
        }
        _ => panic!("expected blocks"),
    }
    match &r.messages[1].content {
        AnthropicContent::Blocks(bs) => {
            assert_eq!(bs.len(), 1);
            assert!(matches!(&bs[0], AnthropicContentBlock::ToolResult { tool_use_id, content } if tool_use_id == "tu_1" && content == "a\nb"));
        }
        _ => panic!("expected blocks"),
    }
}

#[test]
fn anthropic_response_and_stream() {
    let resp = AnthropicResponse {
        id: "msg_1".to_string(),
        kind: "message".to_string(),
        role: "assistant".to_string(),
        content: vec![
            AnthropicContentBlock::Text { text: "Hi".to_string() },
            AnthropicContentBlock::ToolUse { id: "tu".to_string(), name: "f".to_string(), input: "{}".to_string() },
        ],
        model: "sonnet".to_string(),
        stop_reason: None,
        stop_sequence: None,
        usage: AnthropicUsage { input_tokens: 5, output_tokens: 6 },
    };
    let r = instruct_response_from(resp);
    match r.output {
        OneOrMany::One(m) => {
            assert!(matches!(m.content, Some(OneOrMany::One(GaiseContent::Text { ref text })) if text == "Hi"));
            assert_eq!(m.tool_calls.unwrap()[0].id, "tu");
        }
        _ => panic!("expected one"),
    }
    assert_eq!(r.usage.unwrap().output.unwrap().get("output_tokens"), Some(&6));
    let ev = AnthropicStreamResponse {
        kind: "content_block_delta".to_string(),
        index: Some(1),
        delta: Some(AnthropicDelta { kind: None, text: None, partial_json: Some("{\"a".to_string()) }),
        content_block: None,
        message: None,
    };
    match stream_item_from(&ev).unwrap().chunk {
        GaiseStreamChunk::ToolCall { index, arguments, .. } => {
            assert_eq!(index, 1);
            assert_eq!(arguments.as_deref(), Some("{\"a"));
        }
        _ => panic!("expected tool call"),
    }
    let ping = AnthropicStreamResponse { kind: "ping".to_string(), index: None, delta: None, content_block: None, message: None };
    assert!(stream_item_from(&ping).is_none());
}

#[test]
fn anthropic_has_no_embeddings() {
    assert!(matches!(gaise::anthropic::embeddings_unsupported(), gaise::routing::GaiseError::UnsupportedOperation(_)));
}
