use gaise::contracts::{
    GaiseContent, GaiseFunctionCall, GaiseGenerationConfig, GaiseInstructRequest, GaiseMessage,
    GaiseTool, GaiseToolCall, GaiseToolParameter, OneOrMany,
};
use gaise::named_map::NamedMap;
use gaise::openai::{OpenAIChatRequest, OpenAIContent, OpenAIContentPart};

#[test]
fn mapping_tests_test_mapping_tool_request() {
    let mut properties = NamedMap::new();
    properties.insert(
        "location".to_string(),
        GaiseToolParameter {
            kind: Some("string".to_string()),
            description: Some("The city and state, e.g. San Francisco, CA".to_string()),
            ..Default::default()
        },
    );

    let request = GaiseInstructRequest {
        model: "gpt-4o".to_string(),
        tools: Some(vec![GaiseTool {
            name: "get_current_weather".to_string(),
            description: Some("Get the current weather in a given location".to_string()),
            parameters: Some(GaiseToolParameter {
                kind: Some("object".to_string()),
                properties: Some(properties),
                required: Some(vec!["location".to_string()]),
                ..Default::default()
            }),
        }]),
        input: OneOrMany::One(GaiseMessage {
            role: "user".to_string(),
            content: Some(OneOrMany::One(GaiseContent::Text { text: "What's the weather like in Boston?".to_string() })),
            ..Default::default()
        }),
        ..Default::default()
    };

    let openai_request = OpenAIChatRequest::from(&request);

    let tools = openai_request.tools.expect("Missing tools");
    assert_eq!(tools.len(), 1);
    assert_eq!(tools[0].function.name, "get_current_weather");
    assert_eq!(
        tools[0].function.parameters.kind,
        "object"
    );
    assert!(tools[0].function
        .parameters
        .properties
        .contains_key("location"));
}

#[test]
fn mapping_tests_test_mapping_array_tool_request() {
    let mut properties = NamedMap::new();
    properties.insert(
        "tasks".to_string(),
        GaiseToolParameter {
            kind: Some("array".to_string()),
            description: Some("Array of tasks".to_string()),
            items: Some(Box::new(GaiseToolParameter {
                kind: Some("string".to_string()),
                ..Default::default()
            })),
            ..Default::default()
        },
    );

    let request = GaiseInstructRequest {
        model: "gpt-4o".to_string(),
        tools: Some(vec![GaiseTool {
            name: "todo_add".to_string(),
            description: Some("Add tasks".to_string()),
            parameters: Some(GaiseToolParameter {
                kind: Some("object".to_string()),
                properties: Some(properties),
                required: Some(vec!["tasks".to_string()]),
                ..Default::default()
            }),
        }]),
        input: OneOrMany::One(GaiseMessage {
            role: "user".to_string(),
            content: Some(OneOrMany::One(GaiseContent::Text { text: "Add some tasks".to_string() })),
            ..Default::default()
        }),
        ..Default::default()
    };

    let openai_request = OpenAIChatRequest::from(&request);

    let tools = openai_request.tools.expect("Missing tools");
    let prop = tools[0].function.parameters.properties.get("tasks").expect("Missing tasks property");
    assert_eq!(prop.kind, "array");
    let items = prop.items.as_ref().expect("Missing items in array property");
    assert_eq!(items.kind, "string");
}

#[test]
fn mapping_tests_test_mapping_text_request() {
    let request = GaiseInstructRequest {
        model: "gpt-4o".to_string(),
        input: OneOrMany::One(GaiseMessage {
            role: "user".to_string(),
            content: Some(OneOrMany::One(GaiseContent::Text { text: "Hello".to_string() })),
            ..Default::default()
        }),
        generation_config: Some(GaiseGenerationConfig {
            max_tokens: Some(100),
            ..Default::default()
        }),
        ..Default::default()
    };

    let openai_request = OpenAIChatRequest::from(&request);

    assert_eq!(openai_request.messages.len(), 1);
    assert_eq!(openai_request.messages[0].role, "user");
    
    if let Some(OpenAIContent::Text(text)) = &openai_request.messages[0].content {
        assert_eq!(text, "Hello");
    } else {
        panic!("Expected text content");
    }
    
    assert_eq!(openai_request.max_tokens, Some(100));
}

#[test]
fn test_mapping_cache_key() {
    let request = GaiseInstructRequest {
        model: "gpt-4o".to_string(),
        input: OneOrMany::One(GaiseMessage {
            role: "user".to_string(),
            content: Some(OneOrMany::One(GaiseContent::Text { text: "Hello".to_string() })),
            ..Default::default()
        }),
        generation_config: Some(GaiseGenerationConfig {
            cache_key: Some("test-cache-key".to_string()),
            ..Default::default()
        }),
        ..Default::default()
    };

    let openai_request = OpenAIChatRequest::from(&request);

    assert_eq!(openai_request.prompt_cache_key, Some("test-cache-key".to_string()));
}

#[test]
fn mapping_tests_test_mapping_multimodal_request() {
    let request = GaiseInstructRequest {
        model: "gpt-4o".to_string(),
        input: OneOrMany::One(GaiseMessage {
            role: "user".to_string(),
            content: Some(OneOrMany::Many(vec![
                GaiseContent::Text { text: "What is in this image?".to_string() },
                GaiseContent::Image { data: vec![1, 2, 3], format: Some("image/png".to_string()) },
            ])),
            ..Default::default()
        }),
        ..Default::default()
    };

    let openai_request = OpenAIChatRequest::from(&request);

    assert_eq!(openai_request.messages.len(), 1);
    
    if let Some(OpenAIContent::Parts(parts)) = &openai_request.messages[0].content {
        assert_eq!(parts.len(), 2);
        match &parts[0] {
            OpenAIContentPart::Text { text } => assert_eq!(text, "What is in this image?"),
            _ => panic!("Expected text part"),
        }
        match &parts[1] {
            OpenAIContentPart::ImageUrl { image_url } => {
                assert!(image_url.url.contains("data:image/png;base64,"));
                assert!(image_url.url.contains("AQID"));
            },
            _ => panic!("Expected image part"),
        }
    } else {
        panic!("Expected parts content");
    }
}

#[test]
fn mapping_tests_test_mapping_tool_response_request() {
    let request = GaiseInstructRequest {
        model: "gpt-4o".to_string(),
        input: OneOrMany::Many(vec![
            GaiseMessage {
                role: "user".to_string(),
                content: Some(OneOrMany::One(GaiseContent::Text { text: "What's the weather?".to_string() })),
                ..Default::default()
            },
            GaiseMessage {
                role: "assistant".to_string(),
                tool_calls: Some(vec![GaiseToolCall {
                    id: "call_123".to_string(),
                    kind: "function".to_string(),
                    function: GaiseFunctionCall {
                        name: "get_weather".to_string(),
                        arguments: Some("{\"location\": \"London\"}".to_string()),
                    },
                }]),
                ..Default::default()
            },
            GaiseMessage {
                role: "tool".to_string(),
                content: Some(OneOrMany::One(GaiseContent::Text { text: "{\"temp\": 15}".to_string() })),
                tool_call_id: Some("call_123".to_string()),
                ..Default::default()
            }
        ]),
        ..Default::default()
    };

    let openai_request = OpenAIChatRequest::from(&request);
    assert_eq!(openai_request.messages.len(), 3);
    assert_eq!(openai_request.messages[1].role, "assistant");
    let tool_calls = openai_request.messages[1].tool_calls.as_ref().expect("Missing tool_calls");
    assert_eq!(tool_calls.len(), 1);
    assert_eq!(tool_calls[0].id, "call_123");
    assert_eq!(tool_calls[0].function.name, "get_weather");
    assert_eq!(tool_calls[0].function.arguments, "{\"location\": \"London\"}");

    assert_eq!(openai_request.messages[2].role, "tool");
    assert_eq!(openai_request.messages[2].tool_call_id, Some("call_123".to_string()));
}

#[test]
fn nested_parts_are_flattened() {
    let request = GaiseInstructRequest {
        model: "gpt-4o".to_string(),
        input: OneOrMany::One(GaiseMessage {
            role: "user".to_string(),
            content: Some(OneOrMany::One(GaiseContent::Parts {
                parts: vec![
                    GaiseContent::Text { text: "a".to_string() },
                    GaiseContent::Parts {
                        parts: vec![
                            GaiseContent::File { data: vec![9], name: None },
                            GaiseContent::Audio { data: vec![1, 2, 3], format: None },
                        ],
                    },
                ],
            })),
            ..Default::default()
        }),
        ..Default::default()
    };
    let openai_request = OpenAIChatRequest::from(&request);
    match &openai_request.messages[0].content {
        Some(OpenAIContent::Parts(parts)) => {
            assert_eq!(parts.len(), 2);
            assert!(matches!(&parts[0], OpenAIContentPart::Text { text } if text == "a"));
            match &parts[1] {
                OpenAIContentPart::InputAudio { input_audio } => {
                    assert_eq!(input_audio.data, "AQID");
                    assert_eq!(input_audio.format, "mp3");
                }
                _ => panic!("Expected audio part"),
            }
        }
        _ => panic!("Expected parts content"),
    }
}

#[test]
fn image_without_format_defaults_to_jpeg() {
    let request = GaiseInstructRequest {
        model: "gpt-4o".to_string(),
        input: OneOrMany::One(GaiseMessage {
            role: "user".to_string(),
            content: Some(OneOrMany::One(GaiseContent::Image { data: vec![1, 2, 3], format: None })),
            ..Default::default()
        }),
        ..Default::default()
    };
    let openai_request = OpenAIChatRequest::from(&request);
    match &openai_request.messages[0].content {
        Some(OpenAIContent::Parts(parts)) => match &parts[0] {
            OpenAIContentPart::ImageUrl { image_url } => assert_eq!(image_url.url, "data:image/jpeg;base64,AQID"),
            _ => panic!("Expected image part"),
        },
        _ => panic!("Expected parts content"),
    }
}

#[test]
fn text_type_alias_becomes_string() {
    let mut properties = NamedMap::new();
    properties.insert(
        "note".to_string(),
        GaiseToolParameter { kind: Some("text".to_string()), ..Default::default() },
    );
    properties.insert("other".to_string(), GaiseToolParameter::default());
    let tool = gaise::openai::OpenAITool::from(GaiseTool {
        name: "t".to_string(),
        description: None,
        parameters: Some(GaiseToolParameter { properties: Some(properties), ..Default::default() }),
    });
    assert_eq!(tool.kind, "function");
    assert_eq!(tool.function.parameters.properties.get("note").unwrap().kind, "string");
    assert_eq!(tool.function.parameters.properties.get("other").unwrap().kind, "string");
    assert_eq!(tool.function.parameters.properties.get("other").unwrap().description, "");
    assert!(tool.function.parameters.required.is_empty());
}

#[test]
fn nested_object_properties_are_kept() {
    let mut inner = NamedMap::new();
    inner.insert("city".to_string(), GaiseToolParameter { kind: Some("text".to_string()), ..Default::default() });
    let mut properties = NamedMap::new();
    properties.insert(
        "place".to_string(),
        GaiseToolParameter {
            kind: Some("object".to_string()),
            properties: Some(inner),
            required: Some(vec!["city".to_string()]),
            ..Default::default()
        },
    );
    let tool = gaise::openai::OpenAITool::from(GaiseTool {
        name: "t".to_string(),
        description: None,
        parameters: Some(GaiseToolParameter { properties: Some(properties), ..Default::default() }),
    });
    let place = tool.function.parameters.properties.get("place").unwrap();
    assert_eq!(place.required, Some(vec!["city".to_string()]));
    let city = place.properties.as_ref().unwrap().get("city").unwrap();
    assert_eq!(city.kind, "string");
}
