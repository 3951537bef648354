use gaise::contracts::{GaiseContent, GaiseEmbeddingsRequest, GaiseStreamChunk, OneOrMany};
use gaise::google::{
    GoogleCandidate, GoogleChatCompletionResponse, GoogleContent, GoogleEmbeddingsRequest,
    GoogleFunctionCall, GooglePart, GoogleUsageMetadata,
};

fn part(text: Option<&str>, call: Option<(&str, &str)>) -> GooglePart {
    GooglePart {
        text: text.map(|t| t.to_string()),
        inline_data: None,
        tool_call: call.map(|(n, a)| GoogleFunctionCall { name: n.to_string(), args: a.to_string() }),
        tool_response: None,
    }
}

fn response(prompt: Option<usize>, total: Option<usize>) -> GoogleChatCompletionResponse {
    GoogleChatCompletionResponse {
        candidates: vec![GoogleCandidate {
            content: GoogleContent {
                role: "model".to_string(),
                parts: vec![part(Some("Hi"), None), part(None, Some(("f", "{\"a\":1}")))],
            },
            finish_reason: None,
        }],
        usage_metadata: GoogleUsageMetadata {
            candidates_token_count: None,
            prompt_token_count: prompt,
            total_token_count: total,
            thoughts_token_count: None,
            traffic_type: None,
        },
    }
}

#[test]
fn view_maps_candidates() {
    let r = response(None, None).to_view();
    match r.output {
        OneOrMany::Many(ms) => {
            assert_eq!(ms.len(), 1);
            assert_eq!(ms[0].role, "assistant");
            match &ms[0].content {
                Some(OneOrMany::Many(items)) => {
                    assert_eq!(items.len(), 1);
                    assert!(matches!(&items[0], GaiseContent::Text { text } if text == "Hi"));
                }
                _ => panic!("expected text items"),
            }
            let calls = ms[0].tool_calls.as_ref().unwrap();
            assert_eq!(calls[0].function.name, "f");
            assert_eq!(calls[0].function.arguments.as_deref(), Some("{\"a\":1}"));
            assert_eq!(calls[0].kind, "function");
        }
        _ => panic!("expected many"),
    }
}

#[test]
fn stream_view_puts_usage_first() {
    let items = response(Some(3), Some(9)).to_stream_view();
    assert_eq!(items.len(), 3);
    match &items[0].chunk {
        GaiseStreamChunk::Usage(u) => {
            assert_eq!(u.input.as_ref().unwrap().get("prompt_tokens"), Some(&3));
            assert_eq!(u.output.as_ref().unwrap().get("total_tokens"), Some(&9));
            assert_eq!(u.output.as_ref().unwrap().get("candidates_tokens"), None);
        }
        _ => panic!("expected usage"),
    }
    assert!(matches!(&items[1].chunk, GaiseStreamChunk::Text(t) if t == "Hi"));
    match &items[2].chunk {
        GaiseStreamChunk::ToolCall { index, name, .. } => {
            assert_eq!(*index, 1);
            assert_eq!(name.as_deref(), Some("f"));
        }
        _ => panic!("expected tool call"),
    }
}

#[test]
fn stream_view_without_counts_has_no_usage() {
    let items = response(None, None).to_stream_view();
    assert_eq!(items.len(), 2);
}

#[test]
fn embeddings_request_has_one_instance_per_text() {
    let r = GoogleEmbeddingsRequest::from(&GaiseEmbeddingsRequest {
        model: "text-embedding".to_string(),
        correlation_id: None,
        input: OneOrMany::Many(vec!["a".to_string(), "b".to_string()]),
    });
    assert_eq!(r.instances.len(), 2);
    assert_eq!(r.instances[1].content.as_deref(), Some("b"));
    assert_eq!(r.parameters.auto_truncate, Some(true));
}
