use gaise::bedrock::{
    conversation_from, embedding_family, map_gaise_message_to_bedrock, response_from_blocks,
    BedrockContentBlock, BedrockDocumentFormat, BedrockImageFormat, BedrockOutputBlock, BedrockRole,
    EmbeddingFamily,
};
use gaise::contracts::{GaiseContent, GaiseInstructRequest, GaiseMessage, OneOrMany};
use gaise::routing::GaiseError;

fn msg(role: &str, content: Option<OneOrMany<GaiseContent>>) -> GaiseMessage {
    GaiseMessage { role: role.to_string(), content, tool_calls: None, tool_call_id: None }
}

fn text(t: &str) -> GaiseContent {
    GaiseContent::Text { text: t.to_string() }
}

#[test]
fn test_mapping_to_bedrock() {
    let request = GaiseInstructRequest {
        model: "amazon.titan-text-express-v1".to_string(),
        input: OneOrMany::One(msg("user", Some(OneOrMany::One(text("Hello"))))),
        ..Default::default()
    };
    let c = conversation_from(&request);
    assert_eq!(c.model_id, "amazon.titan-text-express-v1");
    assert_eq!(c.messages.len(), 1);
    assert!(matches!(c.messages[0].role, BedrockRole::User));
    assert!(matches!(&c.messages[0].content[0], BedrockContentBlock::Text(t) if t == "Hello"));
    assert!(c.system.is_empty());
}

#[test]
fn first_system_message_becomes_system_prompt() {
    let request = GaiseInstructRequest {
        model: "m".to_string(),
        input: OneOrMany::Many(vec![
            msg("user", Some(OneOrMany::One(text("a")))),
            msg("system", Some(OneOrMany::Many(vec![text("s1"), GaiseContent::Image { data: vec![1], format: None }, text("s2")]))),
            msg("system", Some(OneOrMany::One(text("later")))),
            msg("assistant", Some(OneOrMany::One(text("b")))),
            msg("tool", Some(OneOrMany::One(text("c")))),
        ]),
        ..Default::default()
    };
    let c = conversation_from(&request);
    assert_eq!(c.system, vec!["s1".to_string(), "s2".to_string()]);
    assert_eq!(c.messages.len(), 2);
    assert!(matches!(c.messages[1].role, BedrockRole::Assistant));
}

#[test]
fn content_blocks_take_formats() {
    let m = msg(
        "user",
        Some(OneOrMany::One(GaiseContent::Parts {
            parts: vec![
                GaiseContent::Image { data: vec![1, 2], format: Some("png".to_string()) },
                GaiseContent::Parts {
                    parts: vec![
                        GaiseContent::File { data: vec![3], name: Some("r.xlsx".to_string()) },
                        GaiseContent::File { data: vec![4], name: None },
                        GaiseContent::Audio { data: vec![5], format: None },
                    ],
                },
            ],
        })),
    );
    let b = map_gaise_message_to_bedrock(&m).unwrap();
    assert_eq!(b.content.len(), 3);
    assert!(matches!(&b.content[0], BedrockContentBlock::Image { image_format: BedrockImageFormat::Png, bytes } if bytes == &vec![1, 2]));
    assert!(matches!(&b.content[1], BedrockContentBlock::Document { document_format: BedrockDocumentFormat::Xlsx, .. }));
    assert!(matches!(&b.content[2], BedrockContentBlock::Document { name, document_format: BedrockDocumentFormat::Txt, .. } if name == "document"));
    assert!(map_gaise_message_to_bedrock(&msg("system", None)).is_none());
}

#[test]
fn embedding_families() {
    assert!(matches!(embedding_family("amazon.titan-embed-text-v2"), Ok(EmbeddingFamily::Titan)));
    assert!(matches!(embedding_family("cohere.embed-english-v3"), Ok(EmbeddingFamily::Cohere)));
    match embedding_family("other") {
        Err(GaiseError::UnsupportedOperation(m)) => assert_eq!(m, "Unsupported embedding model: other"),
        _ => panic!("expected unsupported"),
    }
}

#[test]
fn answer_blocks_become_message() {
    let r = response_from_blocks(vec![
        BedrockOutputBlock::Text("Hi".to_string()),
        BedrockOutputBlock::Other,
        BedrockOutputBlock::ToolUse { id: "t1".to_string(), name: "f".to_string(), input: "{}".to_string() },
    ]);
    match r.output {
        OneOrMany::One(m) => {
            assert_eq!(m.role, "assistant");
            assert!(matches!(m.content, Some(OneOrMany::Many(ref items)) if items.len() == 1));
            assert_eq!(m.tool_calls.unwrap()[0].id, "t1");
        }
        _ => panic!("expected one"),
    }
}
