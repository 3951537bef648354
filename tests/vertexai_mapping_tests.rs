use gaise::contracts::{
    GaiseContent, GaiseGenerationConfig, GaiseInstructRequest, GaiseMessage, GaiseTool,
    GaiseToolParameter, OneOrMany,
};
use gaise::google::GoogleInstructRequest;
use gaise::named_map::NamedMap;
use gaise::contracts::GaiseToolConfig;
use gaise::contracts::{GaiseFunctionCall, GaiseToolCall};
use gaise::google::{GoogleContent, GooglePart, GoogleSchema};
use gaise::google::{to_gaise_role, to_google_role};

#[test]
fn vertexai_mapping_tool_request() {
    let mut properties = NamedMap::new();
    properties.insert(
        "location".to_string(),
        GaiseToolParameter {
            kind: Some("string".to_string()),
            description: Some("The city and state, e.g. San Francisco, CA".to_string()),
            ..Default::default()
        },
    );

    let request = GaiseInstructRequest {
        model: "gemini-1.5-pro".to_string(),
        tools: Some(vec![GaiseTool {
            name: "get_current_weather".to_string(),
            description: Some("Get the current weather in a given location".to_string()),
            parameters: Some(GaiseToolParameter {
                kind: Some("object".to_string()),
                properties: Some(properties),
                required: Some(vec!["location".to_string()]),
                ..Default::default()
            }),
        }]),
        input: OneOrMany::One(GaiseMessage {
            role: "user".to_string(),
            content: Some(OneOrMany::One(GaiseContent::Text { text: "What's the weather like in Boston?".to_string() })),
            ..Default::default()
        }),
        ..Default::default()
    };

    let google_request = GoogleInstructRequest::from(&request);

    let tools = google_request.tools.expect("Missing tools");
    assert_eq!(tools.len(), 1);
    assert_eq!(tools[0].function_declarations.len(), 1);
    assert_eq!(tools[0].function_declarations[0].name, "get_current_weather");
    assert_eq!(
        tools[0].function_declarations[0].parameters.kind,
        "object"
    );
    assert!(tools[0].function_declarations[0]
        .parameters
        .properties
        .as_ref()
        .unwrap()
        .contains_key("location"));
}

#[test]
fn vertexai_mapping_array_tool_request() {
    let mut properties = NamedMap::new();
    properties.insert(
        "tasks".to_string(),
        GaiseToolParameter {
            kind: Some("array".to_string()),
            description: Some("Array of tasks".to_string()),
            items: Some(Box::new(GaiseToolParameter {
                kind: Some("string".to_string()),
                ..Default::default()
            })),
            ..Default::default()
        },
    );

    let request = GaiseInstructRequest {
        model: "gemini-1.5-pro".to_string(),
        tools: Some(vec![GaiseTool {
            name: "todo_add".to_string(),
            description: Some("Add tasks".to_string()),
            parameters: Some(GaiseToolParameter {
                kind: Some("object".to_string()),
                properties: Some(properties),
                required: Some(vec!["tasks".to_string()]),
                ..Default::default()
            }),
        }]),
        input: OneOrMany::One(GaiseMessage {
            role: "user".to_string(),
            content: Some(OneOrMany::One(GaiseContent::Text { text: "Add some tasks".to_string() })),
            ..Default::default()
        }),
        ..Default::default()
    };

    let google_request = GoogleInstructRequest::from(&request);

    let tools = google_request.tools.expect("Missing tools");
    let prop = tools[0].function_declarations[0].parameters.properties.as_ref().unwrap().get("tasks").expect("Missing tasks property");
    assert_eq!(prop.kind, "array");
    let items = prop.items.as_ref().expect("Missing items in array property");
    assert_eq!(items.kind, "string");
}

#[test]
fn vertexai_mapping_text_request() {
    let request = GaiseInstructRequest {
        model: "gemini-1.5-pro".to_string(),
        input: OneOrMany::One(GaiseMessage {
            role: "user".to_string(),
            content: Some(OneOrMany::One(GaiseContent::Text { text: "Hello".to_string() })),
            ..Default::default()
        }),
        generation_config: Some(GaiseGenerationConfig {
            max_tokens: Some(100),
            ..Default::default()
        }),
        ..Default::default()
    };

    let google_request = GoogleInstructRequest::from(&request);

    assert_eq!(google_request.contents.len(), 1);
    assert_eq!(google_request.contents[0].role, "user");
    assert_eq!(google_request.contents[0].parts.len(), 1);
    assert_eq!(google_request.contents[0].parts[0].text, Some("Hello".to_string()));
    
    let gen_config = google_request.generation_config.expect("Missing generation config");
    assert_eq!(gen_config.max_output_tokens, Some(100));
}

#[test]
fn vertexai_mapping_multimodal_request() {
    let request = GaiseInstructRequest {
        model: "gemini-1.5-flash".to_string(),
        input: OneOrMany::One(GaiseMessage {
            role: "user".to_string(),
            content: Some(OneOrMany::Many(vec![
                GaiseContent::Text { text: "What is in this image?".to_string() },
                GaiseContent::Image { data: vec![1, 2, 3], format: Some("image/png".to_string()) },
            ])),
            ..Default::default()
        }),
        ..Default::default()
    };

    let google_request = GoogleInstructRequest::from(&request);

    assert_eq!(google_request.contents.len(), 1);
    assert_eq!(google_request.contents[0].parts.len(), 2);
    
    assert_eq!(google_request.contents[0].parts[0].text, Some("What is in this image?".to_string()));
    
    let image_part = &google_request.contents[0].parts[1];
    assert!(image_part.text.is_none());
    let inline_data = image_part.inline_data.as_ref().expect("Missing inline data");
    assert_eq!(inline_data.mime_type, "image/png");
    assert_eq!(inline_data.data, "AQID"); // base64 for [1, 2, 3]
}

#[test]
fn test_mapping_multipart_multimodal_request() {
    let request = GaiseInstructRequest {
        model: "gemini-1.5-flash".to_string(),
        input: OneOrMany::One(GaiseMessage {
            role: "user".to_string(),
            content: Some(OneOrMany::Many(vec![
                GaiseContent::Text { text: "can you take this image".to_string() },
                GaiseContent::Image { data: vec![1, 2, 3], format: Some("image/png".to_string()) },
                GaiseContent::Text { text: "and make it look like this other images style".to_string() },
                GaiseContent::Image { data: vec![4, 5, 6], format: Some("image/jpeg".to_string()) },
            ])),
            ..Default::default()
        }),
        ..Default::default()
    };

    let google_request = GoogleInstructRequest::from(&request);

    assert_eq!(google_request.contents.len(), 1);
    assert_eq!(google_request.contents[0].parts.len(), 4);
    
    assert_eq!(google_request.contents[0].parts[0].text, Some("can you take this image".to_string()));
    assert_eq!(google_request.contents[0].parts[1].inline_data.as_ref().unwrap().data, "AQID");
    assert_eq!(google_request.contents[0].parts[2].text, Some("and make it look like this other images style".to_string()));
    assert_eq!(google_request.contents[0].parts[3].inline_data.as_ref().unwrap().data, "BAUG");
}

#[test]
fn test_mapping_nested_parts_request() {
    let request = GaiseInstructRequest {
        model: "gemini-1.5-flash".to_string(),
        input: OneOrMany::One(GaiseMessage {
            role: "user".to_string(),
            content: Some(OneOrMany::One(GaiseContent::Parts {
                parts: vec![
                    GaiseContent::Text { text: "Combined parts:".to_string() },
                    GaiseContent::Image { data: vec![1, 1, 1], format: Some("image/png".to_string()) },
                ]
            })),
            ..Default::default()
        }),
        ..Default::default()
    };

    let google_request = GoogleInstructRequest::from(&request);

    assert_eq!(google_request.contents.len(), 1);
    assert_eq!(google_request.contents[0].parts.len(), 2);
    assert_eq!(google_request.contents[0].parts[0].text, Some("Combined parts:".to_string()));
    assert_eq!(google_request.contents[0].parts[1].inline_data.as_ref().unwrap().data, "AQEB");
}

#[test]
fn test_mapping_system_instruction() {
    let request = GaiseInstructRequest {
        model: "gemini-1.5-pro".to_string(),
        input: OneOrMany::Many(vec![
            GaiseMessage {
                role: "system".to_string(),
                content: Some(OneOrMany::One(GaiseContent::Text { text: "You are a helpful assistant.".to_string() })),
                ..Default::default()
            },
            GaiseMessage {
                role: "user".to_string(),
                content: Some(OneOrMany::One(GaiseContent::Text { text: "Hi".to_string() })),
                ..Default::default()
            },
        ]),
        ..Default::default()
    };

    let google_request = GoogleInstructRequest::from(&request);

    let system_instruction = google_request.system_instruction.expect("Missing system instruction");
    assert_eq!(system_instruction.parts[0].text, Some("You are a helpful assistant.".to_string()));
    
    assert_eq!(google_request.contents.len(), 1);
    assert_eq!(google_request.contents[0].role, "user");
    assert_eq!(google_request.contents[0].parts[0].text, Some("Hi".to_string()));
}

#[test]
fn later_system_messages_stay_in_turns() {
    let request = GaiseInstructRequest {
        model: "gemini-1.5-pro".to_string(),
        input: OneOrMany::Many(vec![
            GaiseMessage {
                role: "system".to_string(),
                content: Some(OneOrMany::One(GaiseContent::Text { text: "first".to_string() })),
                ..Default::default()
            },
            GaiseMessage {
                role: "system".to_string(),
                content: Some(OneOrMany::One(GaiseContent::Text { text: "second".to_string() })),
                ..Default::default()
            },
            GaiseMessage {
                role: "assistant".to_string(),
                content: Some(OneOrMany::One(GaiseContent::Text { text: "ok".to_string() })),
                ..Default::default()
            },
        ]),
        ..Default::default()
    };
    let google_request = GoogleInstructRequest::from(&request);
    let si = google_request.system_instruction.expect("Missing system instruction");
    assert_eq!(si.parts[0].text, Some("first".to_string()));
    assert_eq!(google_request.contents.len(), 2);
    assert_eq!(google_request.contents[0].role, "system");
    assert_eq!(google_request.contents[1].role, "model");
}

#[test]
fn tool_calls_and_results_become_parts() {
    let request = GaiseInstructRequest {
        model: "gemini-1.5-pro".to_string(),
        input: OneOrMany::Many(vec![
            GaiseMessage {
                role: "assistant".to_string(),
                content: None,
                tool_calls: Some(vec![GaiseToolCall {
                    id: "c1".to_string(),
                    kind: "function".to_string(),
                    function: GaiseFunctionCall { name: "get_weather".to_string(), arguments: None },
                }]),
                tool_call_id: None,
            },
            GaiseMessage {
                role: "tool".to_string(),
                content: Some(OneOrMany::One(GaiseContent::Text { text: "{\"temp\": 15}".to_string() })),
                tool_calls: None,
                tool_call_id: Some("get_weather".to_string()),
            },
        ]),
        ..Default::default()
    };
    let google_request = GoogleInstructRequest::from(&request);
    assert_eq!(google_request.contents.len(), 2);
    let call = google_request.contents[0].parts[0].tool_call.as_ref().unwrap();
    assert_eq!(call.name, "get_weather");
    assert_eq!(call.args, "{}");
    assert_eq!(google_request.contents[1].parts.len(), 2);
    let resp = google_request.contents[1].parts[1].tool_response.as_ref().unwrap();
    assert_eq!(resp.name, "get_weather");
    assert_eq!(resp.response.as_deref(), Some("{\"temp\": 15}"));
}

#[test]
fn file_parts_take_mime_from_name() {
    let pdf = GooglePart::from(&GaiseContent::File { data: vec![1, 2, 3], name: Some("a.pdf".to_string()) });
    assert_eq!(pdf.inline_data.as_ref().unwrap().mime_type, "application/pdf");
    let other = GooglePart::from(&GaiseContent::File { data: vec![], name: Some("pdf".to_string()) });
    assert_eq!(other.inline_data.as_ref().unwrap().mime_type, "application/octet-stream");
    assert_eq!(other.inline_data.as_ref().unwrap().data, "");
    let audio = GooglePart::from(&GaiseContent::Audio { data: vec![1, 2, 3], format: None });
    assert_eq!(audio.inline_data.as_ref().unwrap().mime_type, "audio/mpeg");
    let empty = GooglePart::from(&GaiseContent::Parts { parts: vec![] });
    assert_eq!(empty.text, Some(String::new()));
}

#[test]
fn roles_map_both_ways() {
    assert_eq!(to_google_role("assistant"), Some("model".to_string()));
    assert_eq!(to_google_role("user"), Some("user".to_string()));
    assert_eq!(to_gaise_role("model"), Some("assistant".to_string()));
    assert_eq!(to_gaise_role("user"), Some("user".to_string()));
}

#[test]
fn tool_mode_is_upper_cased() {
    let request = GaiseInstructRequest {
        model: "gemini-1.5-pro".to_string(),
        tool_config: Some(GaiseToolConfig { mode: Some("any".to_string()) }),
        ..Default::default()
    };
    let google_request = GoogleInstructRequest::from(&request);
    assert_eq!(google_request.tool_config.unwrap().function_calling_config.mode, "ANY");
    let request = GaiseInstructRequest {
        model: "gemini-1.5-pro".to_string(),
        tool_config: Some(GaiseToolConfig { mode: None }),
        ..Default::default()
    };
    let google_request = GoogleInstructRequest::from(&request);
    assert_eq!(google_request.tool_config.unwrap().function_calling_config.mode, "AUTO");
}

#[test]
fn text_type_becomes_string_at_every_depth() {
    let mut inner = NamedMap::new();
    inner.insert("note".to_string(), GaiseToolParameter { kind: Some("text".to_string()), ..Default::default() });
    let p = GaiseToolParameter {
        kind: Some("object".to_string()),
        properties: Some(inner),
        items: Some(Box::new(GaiseToolParameter { kind: Some("text".to_string()), ..Default::default() })),
        ..Default::default()
    };
    let s = GoogleSchema::from(&p);
    assert_eq!(s.kind, "object");
    assert_eq!(s.properties.as_ref().unwrap().get("note").unwrap().kind, "string");
    assert_eq!(s.items.as_ref().unwrap().kind, "string");
    assert_eq!(GoogleSchema::from(&GaiseToolParameter::default()).kind, "object");
}

#[test]
fn empty_parts_give_one_empty_text_part() {
    let c = GoogleContent::from(&GaiseContent::Parts { parts: vec![] }, "user".to_string());
    assert_eq!(c.parts.len(), 1);
    assert_eq!(c.parts[0].text, Some(String::new()));
}
