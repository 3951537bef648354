//! A unified contract over several generative-AI provider APIs: the data
//! model, the stream accumulator, model routing, credential refresh decisions
//! and the per-provider request and response mappings.
pub mod accumulator;
pub mod anthropic;
pub mod bedrock;
pub mod contracts;
pub mod encoding;
pub mod google;
pub mod named_map;
pub mod ollama;
pub mod openai;
pub mod routing;
pub mod sse;
pub mod token;
pub mod tools;
