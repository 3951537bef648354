use gaise::accumulator::GaiseStreamAccumulator;
use gaise::contracts::{
    GaiseContent, GaiseInstructStreamResponse, GaiseStreamChunk, GaiseUsage, OneOrMany, UsageCounts,
};

#[test]
fn test_accumulation_text() {
    let mut acc = GaiseStreamAccumulator::new();

    acc.push(&GaiseInstructStreamResponse {
        chunk: GaiseStreamChunk::Text("Hello ".to_string()),
        external_id: Some("ext-1".to_string()),
    });
    acc.push(&GaiseInstructStreamResponse {
        chunk: GaiseStreamChunk::Text("world!".to_string()),
        external_id: Some("ext-1".to_string()),
    });

    let msg = acc.finish();
    assert_eq!(msg.role, "assistant");

    if let Some(OneOrMany::One(GaiseContent::Text { text })) = msg.content {
        assert_eq!(text, "Hello world!");
    } else {
        panic!("Expected text content");
    }
}

#[test]
fn test_accumulation_tool_calls() {
    // Each fragment is assumed to arrive exactly once: a resent id or name
    // fragment would be appended a second time.
    let mut acc = GaiseStreamAccumulator::new();

    acc.push(&GaiseInstructStreamResponse {
        chunk: GaiseStreamChunk::ToolCall {
            index: 0,
            id: Some("call_1".to_string()),
            name: Some("get_weather".to_string()),
            arguments: Some("{\"loc".to_string()),
        },
        external_id: None,
    });

    acc.push(&GaiseInstructStreamResponse {
        chunk: GaiseStreamChunk::ToolCall {
            index: 0,
            id: None,
            name: None,
            arguments: Some("ation\": \"London\"}".to_string()),
        },
        external_id: None,
    });

    let msg = acc.finish();
    let tool_calls = msg.tool_calls.expect("Expected tool calls");
    assert_eq!(tool_calls.len(), 1);
    assert_eq!(tool_calls[0].id, "call_1");
    assert_eq!(tool_calls[0].function.name, "get_weather");
    assert_eq!(tool_calls[0].function.arguments.as_deref(), Some("{\"location\": \"London\"}"));
}

#[test]
fn test_accumulation_usage() {
    let mut acc = GaiseStreamAccumulator::new();

    let mut input_usage = UsageCounts::new();
    input_usage.insert("prompt".to_string(), 10);

    acc.push(&GaiseInstructStreamResponse {
        chunk: GaiseStreamChunk::Usage(GaiseUsage { input: Some(input_usage), output: None }),
        external_id: None,
    });

    let mut output_usage = UsageCounts::new();
    output_usage.insert("completion".to_string(), 5);

    acc.push(&GaiseInstructStreamResponse {
        chunk: GaiseStreamChunk::Usage(GaiseUsage { input: None, output: Some(output_usage) }),
        external_id: None,
    });

    assert!(acc.usage.is_some());
    let usage = acc.usage.as_ref().unwrap();
    assert_eq!(usage.input.as_ref().unwrap().get("prompt"), Some(&10));
    assert_eq!(usage.output.as_ref().unwrap().get("completion"), Some(&5));
}

#[test]
fn test_collect_stream() {
    let chunks: Vec<Result<GaiseInstructStreamResponse, String>> = vec![
        Ok(GaiseInstructStreamResponse {
            chunk: GaiseStreamChunk::Text("Hello ".to_string()),
            external_id: None,
        }),
        Ok(GaiseInstructStreamResponse {
            chunk: GaiseStreamChunk::Text("world!".to_string()),
            external_id: None,
        }),
    ];

    let msg = GaiseStreamAccumulator::collect(chunks).unwrap();

    if let Some(OneOrMany::One(GaiseContent::Text { text })) = msg.content {
        assert_eq!(text, "Hello world!");
    } else {
        panic!("Expected text content");
    }
}

#[test]
fn collect_returns_first_error() {
    let chunks: Vec<Result<GaiseInstructStreamResponse, String>> = vec![
        Ok(GaiseInstructStreamResponse { chunk: GaiseStreamChunk::Text("a".to_string()), external_id: None }),
        Err("first".to_string()),
        Err("second".to_string()),
    ];
    assert_eq!(GaiseStreamAccumulator::collect(chunks).err(), Some("first".to_string()));
}

#[test]
fn usage_counts_add_per_name() {
    let mut acc = GaiseStreamAccumulator::new();
    for n in [10usize, 5] {
        let mut input = UsageCounts::new();
        input.insert("prompt".to_string(), n);
        acc.push(&GaiseInstructStreamResponse {
            chunk: GaiseStreamChunk::Usage(GaiseUsage { input: Some(input), output: None }),
            external_id: None,
        });
    }
    let usage = acc.usage.as_ref().unwrap();
    assert_eq!(usage.input.as_ref().unwrap().get("prompt"), Some(&15));
    assert!(usage.output.is_none());
}

#[test]
fn usage_counts_saturate() {
    let mut acc = GaiseStreamAccumulator::new();
    for n in [usize::MAX, 7] {
        let mut output = UsageCounts::new();
        output.insert("completion".to_string(), n);
        acc.push(&GaiseInstructStreamResponse {
            chunk: GaiseStreamChunk::Usage(GaiseUsage { input: None, output: Some(output) }),
            external_id: None,
        });
    }
    let usage = acc.usage.as_ref().unwrap();
    assert_eq!(usage.output.as_ref().unwrap().get("completion"), Some(&usize::MAX));
}

#[test]
fn tool_calls_come_out_in_index_order() {
    let mut acc = GaiseStreamAccumulator::new();
    for (index, name) in [(2usize, "second"), (0, "first"), (2, "_more")] {
        acc.push(&GaiseInstructStreamResponse {
            chunk: GaiseStreamChunk::ToolCall { index, id: None, name: Some(name.to_string()), arguments: None },
            external_id: None,
        });
    }
    let msg = acc.finish();
    let calls = msg.tool_calls.unwrap();
    assert_eq!(calls.len(), 2);
    assert_eq!(calls[0].function.name, "first");
    assert_eq!(calls[1].function.name, "second_more");
    assert_eq!(calls[0].kind, "function");
    assert_eq!(calls[1].function.arguments, None);
    assert!(msg.content.is_none());
}

#[test]
fn first_external_id_is_kept() {
    let mut acc = GaiseStreamAccumulator::new();
    for ext in [None, Some("a"), Some("b")] {
        acc.push(&GaiseInstructStreamResponse {
            chunk: GaiseStreamChunk::Text(String::new()),
            external_id: ext.map(|s| s.to_string()),
        });
    }
    assert_eq!(acc.external_id.as_deref(), Some("a"));
    let msg = acc.finish();
    assert!(msg.content.is_none());
    assert!(msg.tool_calls.is_none());
}

#[test]
fn defaults_of_the_contract() {
    let m = gaise::contracts::GaiseMessage::default();
    assert_eq!(m.role, "user");
    assert!(matches!(m.content, Some(OneOrMany::One(GaiseContent::Text { ref text })) if text.is_empty()));
    let r = gaise::contracts::GaiseInstructRequest::default();
    assert!(r.model.is_empty());
    assert!(matches!(r.input, OneOrMany::One(_)));
}

#[test]
fn empty_external_id_is_not_captured() {
    let mut acc = GaiseStreamAccumulator::new();
    for ext in [Some(""), Some("ext-2"), Some("ext-3")] {
        acc.push(&GaiseInstructStreamResponse {
            chunk: GaiseStreamChunk::Text("x".to_string()),
            external_id: ext.map(|s| s.to_string()),
        });
    }
    assert_eq!(acc.external_id.as_deref(), Some("ext-2"));
}
