//! The provider-agnostic data contract shared by every adapter.
use vstd::prelude::*;
use crate::named_map::NamedMap;

verus! {

/// A field that holds either one item or an ordered list of items.
#[derive(Debug)]
pub enum OneOrMany<T> {
    One(T),
    Many(Vec<T>),
}

impl<T> OneOrMany<T> {
    /// The items in order: a single item is a list of one.
    pub open spec fn items(&self) -> Seq<T> {
        match self {
            OneOrMany::One(x) => seq![*x],
            OneOrMany::Many(v) => v@,
        }
    }
}

impl<T: Default> Default for OneOrMany<T> {
    fn default() -> (r: Self)
        ensures
            r is One,
    {
        OneOrMany::One(T::default())
    }
}

/// A piece of message content. `Parts` nests to any depth.
#[derive(Debug)]
pub enum GaiseContent {
    Text { text: String },
    Audio { data: Vec<u8>, format: Option<String> },
    Image { data: Vec<u8>, format: Option<String> },
    File { data: Vec<u8>, name: Option<String> },
    Parts { parts: Vec<GaiseContent> },
}

impl Default for GaiseContent {
    fn default() -> (r: Self)
        ensures
            r matches GaiseContent::Text { text } && text@.len() == 0,
    {
        GaiseContent::Text { text: String::new() }
    }
}

/// The leaves of a content tree, in order: every `Parts` is opened, at every depth.
pub open spec fn flatten(c: GaiseContent) -> Seq<GaiseContent>
    decreases c,
{
    match c {
        GaiseContent::Parts { parts } => flatten_seq(parts@),
        _ => seq![c],
    }
}

/// The leaves of a list of content trees, in order.
pub open spec fn flatten_seq(s: Seq<GaiseContent>) -> Seq<GaiseContent>
    decreases s,
{
    if s.len() == 0 {
        Seq::empty()
    } else {
        flatten_seq(s.drop_last()) + flatten(s.last())
    }
}

/// The leaves of every item of an optional `OneOrMany` content field.
pub open spec fn content_leaves(c: Option<OneOrMany<GaiseContent>>) -> Seq<GaiseContent> {
    match c {
        Some(items) => flatten_seq(items.items()),
        None => Seq::empty(),
    }
}

/// A message of a conversation.
#[derive(Debug)]
pub struct GaiseMessage {
    pub role: String,
    pub content: Option<OneOrMany<GaiseContent>>,
    pub tool_calls: Option<Vec<GaiseToolCall>>,
    pub tool_call_id: Option<String>,
}

impl Default for GaiseMessage {
    fn default() -> (r: Self)
        ensures
            r.role@ == seq!['u', 's', 'e', 'r'],
            r.content matches Some(OneOrMany::One(GaiseContent::Text { text })) && text@.len() == 0,
            r.tool_calls is None,
            r.tool_call_id is None,
    {
        let role = String::from_str("user");
        proof {
            reveal_strlit("user");
        }
        GaiseMessage {
            role,
            content: Some(OneOrMany::One(GaiseContent::Text { text: String::new() })),
            tool_calls: None,
            tool_call_id: None,
        }
    }
}

/// A call of a tool requested by the model.
#[derive(Debug)]
pub struct GaiseToolCall {
    pub id: String,
    /// The call's kind; `"function"` for every provider here.
    pub kind: String,
    pub function: GaiseFunctionCall,
}

/// The function named by a tool call, with its JSON-encoded arguments.
#[derive(Debug)]
pub struct GaiseFunctionCall {
    pub name: String,
    pub arguments: Option<String>,
}

/// How the model may choose tools (`"auto"` and the like).
#[derive(Debug)]
pub struct GaiseToolConfig {
    pub mode: Option<String>,
}

/// A JSON-Schema-like description of a tool parameter.
#[derive(Debug)]
pub struct GaiseToolParameter {
    pub kind: Option<String>,
    pub description: Option<String>,
    /// Named sub-parameters, in declaration order, names distinct.
    pub properties: Option<NamedMap<GaiseToolParameter>>,
    pub items: Option<Box<GaiseToolParameter>>,
    pub required: Option<Vec<String>>,
}

/// A tool offered to the model.
#[derive(Debug)]
pub struct GaiseTool {
    pub name: String,
    pub description: Option<String>,
    pub parameters: Option<GaiseToolParameter>,
}

/// Sampling settings that carry no fractional value.
#[derive(Debug)]
pub struct GaiseGenerationConfig {
    pub top_k: Option<usize>,
    pub max_tokens: Option<usize>,
    pub thinking_tokens: Option<usize>,
    pub thinking_effort: Option<String>,
    pub cache_key: Option<String>,
}

/// A chat request; `model` is `provider::model_id`.
#[derive(Debug)]
pub struct GaiseInstructRequest {
    pub model: String,
    pub correlation_id: Option<String>,
    pub tools: Option<Vec<GaiseTool>>,
    pub tool_config: Option<GaiseToolConfig>,
    pub generation_config: Option<GaiseGenerationConfig>,
    pub input: OneOrMany<GaiseMessage>,
}

impl Default for GaiseToolParameter {
    fn default() -> (r: Self)
        ensures
            r.kind is None && r.description is None && r.properties is None && r.items is None
                && r.required is None,
    {
        GaiseToolParameter { kind: None, description: None, properties: None, items: None, required: None }
    }
}

impl Default for GaiseGenerationConfig {
    fn default() -> (r: Self)
        ensures
            r.top_k is None && r.max_tokens is None && r.thinking_tokens is None
                && r.thinking_effort is None && r.cache_key is None,
    {
        GaiseGenerationConfig {
            top_k: None,
            max_tokens: None,
            thinking_tokens: None,
            thinking_effort: None,
            cache_key: None,
        }
    }
}

impl Default for GaiseInstructRequest {
    fn default() -> (r: Self)
        ensures
            r.model@.len() == 0,
            r.correlation_id is None && r.tools is None && r.tool_config is None
                && r.generation_config is None,
            r.input is One,
    {
        GaiseInstructRequest {
            model: String::new(),
            correlation_id: None,
            tools: None,
            tool_config: None,
            generation_config: None,
            input: OneOrMany::One(GaiseMessage::default()),
        }
    }
}

/// A chat response.
#[derive(Debug)]
pub struct GaiseInstructResponse {
    pub output: OneOrMany<GaiseMessage>,
    pub external_id: Option<String>,
    pub usage: Option<GaiseUsage>,
}

/// An embeddings request; `model` is `provider::model_id`.
#[derive(Debug)]
pub struct GaiseEmbeddingsRequest {
    pub model: String,
    pub correlation_id: Option<String>,
    pub input: OneOrMany<String>,
}

/// One choice of a text completion.
#[derive(Debug)]
pub struct GenerativeAITextChoice {
    pub index: Option<usize>,
    pub message: GaiseMessage,
    pub finish_reason: Option<String>,
}

/// One streamed delta.
#[derive(Debug)]
pub enum GaiseStreamChunk {
    Text(String),
    ToolCall { index: usize, id: Option<String>, name: Option<String>, arguments: Option<String> },
    Usage(GaiseUsage),
}

/// One item of a response stream.
#[derive(Debug)]
pub struct GaiseInstructStreamResponse {
    pub chunk: GaiseStreamChunk,
    pub external_id: Option<String>,
}

/// Token counters keyed by provider-specific metric names.
#[derive(Debug)]
pub struct GaiseUsage {
    pub input: Option<UsageCounts>,
    pub output: Option<UsageCounts>,
}

/// Counters by metric name.
pub type UsageCounts = NamedMap<usize>;

/// A copy of an optional string.
pub fn clone_opt_string(o: &Option<String>) -> (r: Option<String>)
    ensures
        r == *o,
{
    match o {
        Some(s) => Some(s.clone()),
        None => None,
    }
}

/// Whether two strings hold the same characters.
pub fn str_eq(a: &str, b: &str) -> (r: bool)
    ensures
        r == (a@ == b@),
{
    a.to_owned() == b.to_owned()
}

} // verus!
