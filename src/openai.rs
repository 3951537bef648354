//! Mapping between the unified contract and the hosted chat API that
//! takes `messages` with text, image-URL and input-audio parts.
use vstd::prelude::*;
use vstd::string::*;
use crate::contracts::{
    clone_opt_string, flatten, flatten_seq, str_eq, GaiseContent, GaiseEmbeddingsRequest,
    GaiseFunctionCall, GaiseInstructRequest, GaiseInstructResponse, GaiseInstructStreamResponse,
    GaiseMessage, GaiseStreamChunk, GaiseTool, GaiseToolCall, GaiseToolParameter, GaiseUsage,
    OneOrMany, UsageCounts,
};
use crate::accumulator::opt_view;
use crate::encoding::{base64_encode, base64_of};
use crate::named_map::NamedMap;
use crate::routing::or_default;

verus! {

/// A chat request of this API. Sampling temperatures are added where the
/// request is serialised.
#[derive(Debug)]
pub struct OpenAIChatRequest {
    pub model: String,
    pub messages: Vec<OpenAIMessage>,
    pub tools: Option<Vec<OpenAITool>>,
    pub max_tokens: Option<usize>,
    pub prompt_cache_key: Option<String>,
    pub stream: bool,
}

#[derive(Debug)]
pub struct OpenAIMessage {
    pub role: String,
    pub content: Option<OpenAIContent>,
    pub tool_calls: Option<Vec<OpenAIToolCall>>,
    pub tool_call_id: Option<String>,
}

#[derive(Debug)]
pub enum OpenAIContent {
    Text(String),
    Parts(Vec<OpenAIContentPart>),
}

#[derive(Debug)]
pub enum OpenAIContentPart {
    Text { text: String },
    ImageUrl { image_url: OpenAIImageUrl },
    InputAudio { input_audio: OpenAIInputAudio },
}

#[derive(Debug)]
pub struct OpenAIImageUrl {
    pub url: String,
}

#[derive(Debug)]
pub struct OpenAIInputAudio {
    pub data: String,
    pub format: String,
}

#[derive(Debug)]
pub struct OpenAITool {
    pub kind: String,
    pub function: OpenAIFunction,
}

#[derive(Debug)]
pub struct OpenAIFunction {
    pub name: String,
    pub description: Option<String>,
    pub parameters: OpenAIParameters,
}

#[derive(Debug)]
pub struct OpenAIParameters {
    pub kind: String,
    pub properties: NamedMap<OpenAIParameterProperty>,
    pub required: Vec<String>,
}

#[derive(Debug)]
pub struct OpenAIParameterProperty {
    pub kind: String,
    pub description: String,
    pub properties: Option<NamedMap<OpenAIParameterProperty>>,
    pub items: Option<Box<OpenAIParameterProperty>>,
    pub required: Option<Vec<String>>,
}

#[derive(Debug)]
pub struct OpenAIToolCall {
    pub id: String,
    pub kind: String,
    pub function: OpenAIFunctionCall,
}

#[derive(Debug)]
pub struct OpenAIFunctionCall {
    pub name: String,
    pub arguments: String,
}

#[derive(Debug)]
pub struct OpenAIChatResponse {
    pub id: String,
    pub object: String,
    pub created: u64,
    pub model: String,
    pub choices: Vec<OpenAIChoice>,
    pub usage: Option<OpenAIUsage>,
}

#[derive(Debug)]
pub struct OpenAIChoice {
    pub index: usize,
    pub message: OpenAIMessage,
    pub finish_reason: Option<String>,
}

#[derive(Debug)]
pub struct OpenAIUsage {
    pub prompt_tokens: usize,
    pub completion_tokens: usize,
    pub total_tokens: usize,
}

#[derive(Debug)]
pub struct OpenAIChatStreamResponse {
    pub id: String,
    pub object: String,
    pub created: u64,
    pub model: String,
    pub choices: Vec<OpenAIStreamChoice>,
}

#[derive(Debug)]
pub struct OpenAIStreamChoice {
    pub index: usize,
    pub delta: OpenAIStreamDelta,
    pub finish_reason: Option<String>,
}

#[derive(Debug)]
pub struct OpenAIStreamDelta {
    pub role: Option<String>,
    pub content: Option<String>,
    pub tool_calls: Option<Vec<OpenAIStreamToolCall>>,
}

#[derive(Debug)]
pub struct OpenAIStreamToolCall {
    pub index: usize,
    pub id: Option<String>,
    pub kind: Option<String>,
    pub function: Option<OpenAIStreamFunctionCall>,
}

#[derive(Debug)]
pub struct OpenAIStreamFunctionCall {
    pub name: Option<String>,
    pub arguments: Option<String>,
}

#[derive(Debug)]
pub struct OpenAIEmbedRequest {
    pub model: String,
    pub input: OpenAIEmbedInput,
}

#[derive(Debug)]
pub enum OpenAIEmbedInput {
    String(String),
    Array(Vec<String>),
}

/// A `data:` URI carrying `data` as base64 under `mime`.
pub open spec fn data_url(mime: Seq<char>, data: Seq<u8>) -> Seq<char> {
    "data:"@ + mime + ";base64,"@ + base64_of(data)
}

/// Content kinds this API takes inline; files are left out.
pub open spec fn openai_accepts(c: GaiseContent) -> bool {
    c is Text || c is Image || c is Audio
}

/// `p` is the part for the leaf `c`.
pub open spec fn openai_part_for(p: OpenAIContentPart, c: GaiseContent) -> bool {
    match c {
        GaiseContent::Text { text } => p matches OpenAIContentPart::Text { text: t } && t@ == text@,
        GaiseContent::Image { data, format } => p matches OpenAIContentPart::ImageUrl { image_url }
            && image_url.url@ == data_url(or_default(format, "image/jpeg"@), data@),
        GaiseContent::Audio { data, format } => p matches OpenAIContentPart::InputAudio { input_audio }
            && input_audio.data@ == base64_of(data@) && input_audio.format@ == or_default(format, "mp3"@),
        _ => false,
    }
}

/// `ps` are the parts for the accepted leaves of `leaves`, in order.
pub open spec fn openai_parts_for(ps: Seq<OpenAIContentPart>, leaves: Seq<GaiseContent>) -> bool
    decreases leaves.len(),
{
    if leaves.len() == 0 {
        ps.len() == 0
    } else if openai_accepts(leaves.last()) {
        ps.len() > 0 && openai_part_for(ps.last(), leaves.last()) && openai_parts_for(
            ps.drop_last(),
            leaves.drop_last(),
        )
    } else {
        openai_parts_for(ps, leaves.drop_last())
    }
}

/// `o` carries the leaves: a lone text part as plain text, else the parts.
pub open spec fn openai_content_for(o: OpenAIContent, leaves: Seq<GaiseContent>) -> bool {
    match o {
        OpenAIContent::Text(t) => exists|ps: Seq<OpenAIContentPart>|
            #[trigger] openai_parts_for(ps, leaves) && ps.len() == 1 && (ps[0] matches OpenAIContentPart::Text {
                text,
            } && text@ == t@),
        OpenAIContent::Parts(ps) => openai_parts_for(ps@, leaves) && !(ps@.len() == 1
            && ps@[0] is Text),
    }
}

pub open spec fn openai_call_for(o: OpenAIToolCall, g: GaiseToolCall) -> bool {
    &&& o.id@ == g.id@
    &&& o.kind@ == g.kind@
    &&& o.function.name@ == g.function.name@
    &&& o.function.arguments@ == or_default(g.function.arguments, Seq::empty())
}

/// `o` is the wire message for `m`: same role and tool-call id, content
/// flattened, tool calls with absent arguments sent as empty text.
pub open spec fn openai_message_for(o: OpenAIMessage, m: GaiseMessage) -> bool {
    &&& o.role@ == m.role@
    &&& o.tool_call_id == m.tool_call_id
    &&& match m.content {
        None => o.content is None,
        Some(c) => o.content matches Some(oc) && openai_content_for(oc, flatten_seq(c.items())),
    }
    &&& match m.tool_calls {
        None => o.tool_calls is None,
        Some(tcs) => o.tool_calls matches Some(ocs) && ocs@.len() == tcs@.len() && forall|i: int|
            0 <= i < tcs@.len() ==> openai_call_for(#[trigger] ocs@[i], tcs@[i]),
    }
}

/// The schema type: absent means `"string"`, and `"text"` is `"string"`.
pub open spec fn openai_kind(k: Option<String>) -> Seq<char> {
    match k {
        Some(s) => if s@ == "text"@ {
            "string"@
        } else {
            s@
        },
        None => "string"@,
    }
}

pub open spec fn openai_property_for(o: OpenAIParameterProperty, p: GaiseToolParameter) -> bool
    decreases p,
{
    &&& o.kind@ == openai_kind(p.kind)
    &&& o.description@ == or_default(p.description, Seq::empty())
    &&& match p.properties {
        None => o.properties is None,
        Some(props) => o.properties matches Some(op) && op.entries@.len() == props.entries@.len()
            && forall|i: int| 0 <= i < props.entries@.len() ==> (#[trigger] op.entries@[i]).0@
                == props.entries@[i].0@ && openai_property_for(op.entries@[i].1, props.entries@[i].1),
    }
    &&& match p.items {
        None => o.items is None,
        Some(pi) => o.items matches Some(oi) && openai_property_for(*oi, *pi),
    }
    &&& match p.required {
        None => o.required is None,
        Some(req) => o.required matches Some(r) && r@ == req@,
    }
}

/// `o` is the wire tool for `t`.
pub open spec fn openai_tool_for(o: OpenAITool, t: GaiseTool) -> bool {
    &&& o.kind@ == "function"@
    &&& o.function.name@ == t.name@
    &&& opt_view(o.function.description) == opt_view(t.description)
    &&& o.function.parameters.kind@ == "object"@
    &&& o.function.parameters.properties.wf()
    &&& match t.parameters {
        Some(p) => match p.properties {
            Some(props) => o.function.parameters.properties@.dom() == props@.dom() && forall|k: Seq<char>|
                #[trigger] props@.contains_key(k) ==> openai_property_for(
                    o.function.parameters.properties@[k],
                    props@[k],
                ),
            None => o.function.parameters.properties@.dom() == Set::<Seq<char>>::empty(),
        },
        None => o.function.parameters.properties@.dom() == Set::<Seq<char>>::empty(),
    }
    &&& match t.parameters {
        Some(p) => match p.required {
            Some(req) => o.function.parameters.required@ == req@,
            None => o.function.parameters.required@.len() == 0,
        },
        None => o.function.parameters.required@.len() == 0,
    }
}

/// Tool parameters whose property map is well formed.
pub open spec fn parameter_wf(p: GaiseToolParameter) -> bool {
    p.properties matches Some(props) ==> props.wf()
}

pub open spec fn tool_wf(t: GaiseTool) -> bool {
    match t.parameters {
        Some(p) => parameter_wf(p),
        None => true,
    }
}

pub open spec fn tools_wf(tools: Option<Vec<GaiseTool>>) -> bool {
    match tools {
        Some(ts) => forall|i: int| 0 <= i < ts@.len() ==> tool_wf(#[trigger] ts@[i]),
        None => true,
    }
}

pub(crate) fn clone_strings(v: &Vec<String>) -> (r: Vec<String>)
    ensures
        r@ == v@,
{
    let mut r: Vec<String> = Vec::new();
    let mut i: usize = 0;
    while i < v.len()
        invariant
            i <= v@.len(),
            r@ == v@.take(i as int),
        decreases v@.len() - i,
    {
        r.push(v[i].clone());
        i = i + 1;
        assert(r@ =~= v@.take(i as int));
    }
    assert(v@.take(i as int) =~= v@);
    r
}

pub(crate) fn string_or_empty(o: &Option<String>) -> (r: String)
    ensures
        r@ == or_default(*o, Seq::empty()),
{
    match o {
        Some(s) => s.clone(),
        None => String::new(),
    }
}

impl OpenAIParameterProperty {
    /// The schema of one parameter in this API's dialect.
    pub fn from_parameter(p: &GaiseToolParameter) -> (r: OpenAIParameterProperty)
        ensures
            openai_property_for(r, *p),
        decreases p,
    {
        proof {
            reveal_strlit("text");
            reveal_strlit("string");
        }
        let kind = match &p.kind {
            Some(k) => if str_eq(k.as_str(), "text") {
                String::from_str("string")
            } else {
                k.clone()
            },
            None => String::from_str("string"),
        };
        let properties = match &p.properties {
            Some(props) => {
                let mut entries: Vec<(String, OpenAIParameterProperty)> = Vec::new();
                let mut i: usize = 0;
                assert forall|k: int| 0 <= k < props.entries@.len() implies decreases_to!(*p => #[trigger] props.entries@[k].1) by {
                    assert(decreases_to!(*p => *props));
                    assert(decreases_to!(*props => props.entries));
                    assert(decreases_to!(props.entries => props.entries@));
                    assert(decreases_to!(props.entries@ => props.entries@[k]));
                }
                while i < props.entries.len()
                    invariant
                        i <= props.entries@.len(),
                        forall|k: int| 0 <= k < props.entries@.len() ==> decreases_to!(*p => #[trigger] props.entries@[k].1),
                        entries@.len() == i,
                        forall|k: int| 0 <= k < i ==> (#[trigger] entries@[k]).0@ == props.entries@[k].0@
                            && openai_property_for(entries@[k].1, props.entries@[k].1),
                    decreases props.entries@.len() - i,
                {
                    let e = &props.entries[i];
                    entries.push((e.0.clone(), OpenAIParameterProperty::from_parameter(&e.1)));
                    i = i + 1;
                }
                Some(NamedMap { entries })
            },
            None => None,
        };
        let items = match &p.items {
            Some(i) => Some(Box::new(OpenAIParameterProperty::from_parameter(i))),
            None => None,
        };
        let required = match &p.required {
            Some(req) => Some(clone_strings(req)),
            None => None,
        };
        OpenAIParameterProperty { kind, description: string_or_empty(&p.description), properties, items, required }
    }
}

impl OpenAITool {
    /// The wire tool for `t`: a function tool whose parameters are an
    /// object of the mapped properties.
    pub fn from(t: GaiseTool) -> (r: OpenAITool)
        requires
            tool_wf(t),
        ensures
            openai_tool_for(r, t),
    {
        OpenAITool::from_tool(&t)
    }

    /// As `from`, reading the tool in place.
    pub fn from_tool(t: &GaiseTool) -> (r: OpenAITool)
        requires
            tool_wf(*t),
        ensures
            openai_tool_for(r, *t),
    {
        let mut properties: NamedMap<OpenAIParameterProperty> = NamedMap::new();
        let mut required: Vec<String> = Vec::new();
        if let Some(p) = &t.parameters {
            if let Some(props) = &p.properties {
                proof {
                    props.lemma_entries();
                }
                let n = props.len();
                let mut i: usize = 0;
                while i < n
                    invariant
                        props.wf(),
                        parameter_wf(*p),
                        n == props.num_entries(),
                        i <= n,
                        properties.wf(),
                        forall|k: Seq<char>| properties@.contains_key(k) <==> exists|j: int|
                            0 <= j < i && #[trigger] props.key_at(j) == k,
                        forall|j: int| 0 <= j < i ==> openai_property_for(
                            properties@[#[trigger] props.key_at(j)],
                            props.value_at(j),
                        ),
                        forall|j: int, l: int| 0 <= j < l < n ==> props.key_at(j) != props.key_at(l),
                    decreases n - i,
                {
                    let (k, v) = props.entry(i);
                    let prop = OpenAIParameterProperty::from_parameter(v);
                    properties.insert(k.clone(), prop);
                    proof {
                        assert forall|k2: Seq<char>| properties@.contains_key(k2) <==> exists|j: int|
                            0 <= j < i + 1 && #[trigger] props.key_at(j) == k2 by {
                            if k2 == props.key_at(i as int) {
                                assert(props.key_at(i as int) == k2);
                            }
                        }
                        assert forall|j: int| 0 <= j < i + 1 implies openai_property_for(
                            properties@[#[trigger] props.key_at(j)],
                            props.value_at(j),
                        ) by {
                            if j < i {
                                assert(props.key_at(j) != props.key_at(i as int));
                            }
                        }
                    }
                    i = i + 1;
                }
                proof {
                    assert forall|k: Seq<char>| #[trigger] props@.contains_key(k) implies openai_property_for(
                        properties@[k],
                        props@[k],
                    ) by {
                        let j = choose|j: int| 0 <= j < props.num_entries() && props.key_at(j) == k;
                        assert(properties@[props.key_at(j)] == properties@[k]);
                    }
                    assert(properties@.dom() =~= props@.dom());
                }
            }
            if let Some(req) = &p.required {
                required = clone_strings(req);
            }
        }
        proof {
            reveal_strlit("function");
            reveal_strlit("object");
        }
        OpenAITool {
            kind: String::from_str("function"),
            function: OpenAIFunction {
                name: t.name.clone(),
                description: clone_opt_string(&t.description),
                parameters: OpenAIParameters {
                    kind: String::from_str("object"),
                    properties,
                    required,
                },
            },
        }
    }
}

fn push_openai_parts(c: &GaiseContent, out: &mut Vec<OpenAIContentPart>, Ghost(prev): Ghost<Seq<GaiseContent>>)
    requires
        openai_parts_for(old(out)@, prev),
    ensures
        openai_parts_for(final(out)@, prev + flatten(*c)),
    decreases c,
{
    match c {
        GaiseContent::Parts { parts } => {
            let mut j: usize = 0;
            assert(prev + flatten_seq(parts@.take(0)) =~= prev);
            assert forall|k: int| 0 <= k < parts@.len() implies decreases_to!(*c => #[trigger] parts@[k]) by {
                assert(decreases_to!(*c => *parts));
                assert(decreases_to!(*parts => parts@));
            }
            while j < parts.len()
                invariant
                    j <= parts@.len(),
                    forall|k: int| 0 <= k < parts@.len() ==> decreases_to!(*c => #[trigger] parts@[k]),
                    openai_parts_for(out@, prev + flatten_seq(parts@.take(j as int))),
                decreases parts@.len() - j,
            {
                assert(parts@.take(j as int + 1).drop_last() =~= parts@.take(j as int));
                push_openai_parts(&parts[j], out, Ghost(prev + flatten_seq(parts@.take(j as int))));
                assert(prev + flatten_seq(parts@.take(j as int)) + flatten(parts@[j as int]) =~= prev
                    + flatten_seq(parts@.take(j as int + 1)));
                j = j + 1;
            }
            assert(parts@.take(j as int) =~= parts@);
        },
        _ => {
            proof {
                reveal_strlit("image/jpeg");
                reveal_strlit("mp3");
                reveal_strlit("data:");
                reveal_strlit(";base64,");
            }
            let ghost before = out@;
            let ghost leaves = prev + flatten(*c);
            assert(leaves.drop_last() =~= prev);
            assert(leaves.last() == *c);
            match c {
                GaiseContent::Text { text } => {
                    out.push(OpenAIContentPart::Text { text: text.clone() });
                    assert(out@.drop_last() =~= before);
                },
                GaiseContent::Image { data, format } => {
                    let mime = match format {
                        Some(f) => f.clone(),
                        None => String::from_str("image/jpeg"),
                    };
                    let url = String::from_str("data:").concat(mime.as_str()).concat(";base64,").concat(
                        base64_encode(data).as_str(),
                    );
                    out.push(OpenAIContentPart::ImageUrl { image_url: OpenAIImageUrl { url } });
                    assert(out@.drop_last() =~= before);
                },
                GaiseContent::Audio { data, format } => {
                    let f = match format {
                        Some(f) => f.clone(),
                        None => String::from_str("mp3"),
                    };
                    out.push(
                        OpenAIContentPart::InputAudio {
                            input_audio: OpenAIInputAudio { data: base64_encode(data), format: f },
                        },
                    );
                    assert(out@.drop_last() =~= before);
                },
                _ => {},
            }
        },
    }
}

/// The wire content for a content field: its leaves in order, files left
/// out, a lone text part sent as plain text.
fn openai_content_from(c: &OneOrMany<GaiseContent>) -> (r: OpenAIContent)
    ensures
        openai_content_for(r, flatten_seq(c.items())),
{
    let mut parts: Vec<OpenAIContentPart> = Vec::new();
    match c {
        OneOrMany::One(x) => {
            push_openai_parts(x, &mut parts, Ghost(Seq::empty()));
            assert(flatten_seq(c.items()) =~= Seq::<GaiseContent>::empty() + flatten(*x)) by {
                assert(c.items().drop_last() =~= Seq::<GaiseContent>::empty());
                assert(c.items().last() == *x);
                assert(flatten_seq(Seq::<GaiseContent>::empty()) =~= Seq::<GaiseContent>::empty());
            }
        },
        OneOrMany::Many(xs) => {
            let mut j: usize = 0;
            assert(flatten_seq(xs@.take(0)) =~= Seq::<GaiseContent>::empty());
            while j < xs.len()
                invariant
                    j <= xs@.len(),
                    openai_parts_for(parts@, flatten_seq(xs@.take(j as int))),
                decreases xs@.len() - j,
            {
                assert(xs@.take(j as int + 1).drop_last() =~= xs@.take(j as int));
                push_openai_parts(&xs[j], &mut parts, Ghost(flatten_seq(xs@.take(j as int))));
                j = j + 1;
            }
            assert(xs@.take(j as int) =~= xs@);
        },
    }
    let lone_text = parts.len() == 1 && match &parts[0] {
        OpenAIContentPart::Text { .. } => true,
        _ => false,
    };
    if lone_text {
        let ghost ps = parts@;
        match parts.pop() {
            Some(OpenAIContentPart::Text { text }) => {
                assert(openai_parts_for(ps, flatten_seq(c.items())));
                OpenAIContent::Text(text)
            },
            _ => OpenAIContent::Parts(Vec::new()),
        }
    } else {
        OpenAIContent::Parts(parts)
    }
}

fn openai_message_from(m: &GaiseMessage) -> (r: OpenAIMessage)
    ensures
        openai_message_for(r, *m),
{
    let content = match &m.content {
        Some(c) => Some(openai_content_from(c)),
        None => None,
    };
    let tool_calls = match &m.tool_calls {
        Some(tcs) => {
            let mut out: Vec<OpenAIToolCall> = Vec::new();
            let mut i: usize = 0;
            while i < tcs.len()
                invariant
                    i <= tcs@.len(),
                    out@.len() == i,
                    forall|j: int| 0 <= j < i ==> openai_call_for(#[trigger] out@[j], tcs@[j]),
                decreases tcs@.len() - i,
            {
                let tc = &tcs[i];
                out.push(
                    OpenAIToolCall {
                        id: tc.id.clone(),
                        kind: tc.kind.clone(),
                        function: OpenAIFunctionCall {
                            name: tc.function.name.clone(),
                            arguments: string_or_empty(&tc.function.arguments),
                        },
                    },
                );
                i = i + 1;
            }
            Some(out)
        },
        None => None,
    };
    OpenAIMessage {
        role: m.role.clone(),
        content,
        tool_calls,
        tool_call_id: clone_opt_string(&m.tool_call_id),
    }
}

/// `r` is the wire request for `request`, streaming or not.
pub open spec fn openai_request_for(r: OpenAIChatRequest, request: GaiseInstructRequest) -> bool {
    &&& r.model@ == request.model@
    &&& r.messages@.len() == request.input.items().len()
    &&& forall|i: int| 0 <= i < r.messages@.len() ==> openai_message_for(#[trigger] r.messages@[i], request.input.items()[i])
    &&& match request.generation_config {
        Some(g) => r.max_tokens == g.max_tokens && r.prompt_cache_key == g.cache_key,
        None => r.max_tokens is None && r.prompt_cache_key is None,
    }
    &&& match request.tools {
        Some(ts) => r.tools matches Some(ots) && ots@.len() == ts@.len() && forall|i: int|
            0 <= i < ts@.len() ==> openai_tool_for(#[trigger] ots@[i], ts@[i]),
        None => r.tools is None,
    }
}


impl OpenAIChatRequest {
    /// The wire request for `request`, not streaming.
    pub fn from(request: &GaiseInstructRequest) -> (r: OpenAIChatRequest)
        requires
            tools_wf(request.tools),
        ensures
            openai_request_for(r, *request),
            !r.stream,
    {
        let mut messages: Vec<OpenAIMessage> = Vec::new();
        match &request.input {
            OneOrMany::One(m) => {
                messages.push(openai_message_from(m));
            },
            OneOrMany::Many(ms) => {
                let mut i: usize = 0;
                while i < ms.len()
                    invariant
                        i <= ms@.len(),
                        request.input == OneOrMany::Many(*ms),
                        messages@.len() == i,
                        forall|j: int| 0 <= j < i ==> openai_message_for(#[trigger] messages@[j], ms@[j]),
                    decreases ms@.len() - i,
                {
                    messages.push(openai_message_from(&ms[i]));
                    i = i + 1;
                }
            },
        }
        let tools = match &request.tools {
            Some(ts) => {
                let mut out: Vec<OpenAITool> = Vec::new();
                let mut i: usize = 0;
                while i < ts.len()
                    invariant
                        i <= ts@.len(),
                        forall|j: int| 0 <= j < ts@.len() ==> tool_wf(#[trigger] ts@[j]),
                        out@.len() == i,
                        forall|j: int| 0 <= j < i ==> openai_tool_for(#[trigger] out@[j], ts@[j]),
                    decreases ts@.len() - i,
                {
                    assert(tool_wf(ts@[i as int]));
                    out.push(OpenAITool::from_tool(&ts[i]));
                    i = i + 1;
                }
                Some(out)
            },
            None => None,
        };
        let (max_tokens, prompt_cache_key) = match &request.generation_config {
            Some(g) => (g.max_tokens, clone_opt_string(&g.cache_key)),
            None => (None, None),
        };
        OpenAIChatRequest {
            model: request.model.clone(),
            messages,
            tools,
            max_tokens,
            prompt_cache_key,
            stream: false,
        }
    }
}

/// The unified content for a wire content: plain text as one text item,
/// parts as their text items in order (image and audio parts are dropped).
pub open spec fn gaise_content_for(g: OneOrMany<GaiseContent>, o: OpenAIContent) -> bool {
    match o {
        OpenAIContent::Text(t) => g matches OneOrMany::One(GaiseContent::Text { text }) && text@ == t@,
        OpenAIContent::Parts(ps) => g matches OneOrMany::Many(items) && texts_for(items@, ps@),
    }
}

/// `items` are the text parts of `ps` as text content, in order.
pub open spec fn texts_for(items: Seq<GaiseContent>, ps: Seq<OpenAIContentPart>) -> bool
    decreases ps.len(),
{
    if ps.len() == 0 {
        items.len() == 0
    } else {
        match ps.last() {
            OpenAIContentPart::Text { text } => items.len() > 0 && (items.last() matches GaiseContent::Text {
                text: t,
            } && t@ == text@) && texts_for(items.drop_last(), ps.drop_last()),
            _ => texts_for(items, ps.drop_last()),
        }
    }
}

pub open spec fn gaise_call_for(g: GaiseToolCall, o: OpenAIToolCall) -> bool {
    &&& g.id@ == o.id@
    &&& g.kind@ == o.kind@
    &&& g.function.name@ == o.function.name@
    &&& g.function.arguments matches Some(a) && a@ == o.function.arguments@
}

/// `g` is the unified message for the wire message `o`.
pub open spec fn gaise_message_for(g: GaiseMessage, o: OpenAIMessage) -> bool {
    &&& g.role@ == o.role@
    &&& g.tool_call_id == o.tool_call_id
    &&& match o.content {
        None => g.content is None,
        Some(oc) => g.content matches Some(gc) && gaise_content_for(gc, oc),
    }
    &&& match o.tool_calls {
        None => g.tool_calls is None,
        Some(ocs) => g.tool_calls matches Some(gcs) && gcs@.len() == ocs@.len() && forall|i: int|
            0 <= i < ocs@.len() ==> gaise_call_for(#[trigger] gcs@[i], ocs@[i]),
    }
}

/// The unified message for a wire message.
pub fn map_from_openai_message(msg: OpenAIMessage) -> (r: GaiseMessage)
    ensures
        gaise_message_for(r, msg),
{
    let ghost orig = msg;
    let content = match msg.content {
        Some(OpenAIContent::Text(text)) => Some(OneOrMany::One(GaiseContent::Text { text })),
        Some(OpenAIContent::Parts(ps)) => {
            let ghost all = ps@;
            let mut rest = ps;
            let mut items: Vec<GaiseContent> = Vec::new();
            let ghost mut i: int = 0;
            while rest.len() > 0
                invariant
                    0 <= i <= all.len(),
                    rest@ == all.subrange(i, all.len() as int),
                    texts_for(items@, all.take(i)),
                decreases rest@.len(),
            {
                let p = rest.remove(0);
                let ghost before = items@;
                proof {
                    assert(p == all[i]);
                    assert(all.take(i + 1).drop_last() =~= all.take(i));
                }
                match p {
                    OpenAIContentPart::Text { text } => {
                        items.push(GaiseContent::Text { text });
                        assert(items@.drop_last() =~= before);
                    },
                    _ => {},
                }
                proof {
                    i = i + 1;
                }
            }
            assert(all.take(i) =~= all);
            Some(OneOrMany::Many(items))
        },
        None => None,
    };
    let tool_calls = match msg.tool_calls {
        Some(tcs) => {
            let ghost all = tcs@;
            let mut rest = tcs;
            let mut out: Vec<GaiseToolCall> = Vec::new();
            while rest.len() > 0
                invariant
                    out@.len() + rest@.len() == all.len(),
                    rest@ == all.subrange(out@.len() as int, all.len() as int),
                    forall|j: int| 0 <= j < out@.len() ==> gaise_call_for(#[trigger] out@[j], all[j]),
                decreases rest@.len(),
            {
                let tc = rest.remove(0);
                assert(tc == all[out@.len() as int]);
                out.push(
                    GaiseToolCall {
                        id: tc.id,
                        kind: tc.kind,
                        function: GaiseFunctionCall {
                            name: tc.function.name,
                            arguments: Some(tc.function.arguments),
                        },
                    },
                );
            }
            Some(out)
        },
        None => None,
    };
    GaiseMessage { role: msg.role, content, tool_calls, tool_call_id: msg.tool_call_id }
}

/// Usage of one exchange: prompt tokens as input, completion tokens as output.
pub fn usage_from(u: &OpenAIUsage) -> (r: GaiseUsage)
    ensures
        r.input matches Some(i) && i.wf() && i@ == map![("prompt_tokens"@) => u.prompt_tokens],
        r.output matches Some(o) && o.wf() && o@ == map![("completion_tokens"@) => u.completion_tokens],
{
    let mut input = UsageCounts::new();
    input.insert(String::from_str("prompt_tokens"), u.prompt_tokens);
    let mut output = UsageCounts::new();
    output.insert(String::from_str("completion_tokens"), u.completion_tokens);
    assert(input@ =~= map![("prompt_tokens"@) => u.prompt_tokens]);
    assert(output@ =~= map![("completion_tokens"@) => u.completion_tokens]);
    GaiseUsage { input: Some(input), output: Some(output) }
}

/// The unified response: every choice's message in order, the response id as
/// external id, and the usage when reported.
pub fn instruct_response_from(resp: OpenAIChatResponse) -> (r: GaiseInstructResponse)
    ensures
        r.output matches OneOrMany::Many(ms) && ms@.len() == resp.choices@.len() && forall|i: int|
            0 <= i < ms@.len() ==> gaise_message_for(#[trigger] ms@[i], resp.choices@[i].message),
        r.external_id matches Some(e) && e@ == resp.id@,
        match resp.usage {
            Some(u) => match r.usage {
                Some(ru) => (ru.input matches Some(i) && i.wf() && i@ == map![("prompt_tokens"@) => u.prompt_tokens])
                    && (ru.output matches Some(o) && o.wf() && o@ == map![("completion_tokens"@) => u.completion_tokens]),
                None => false,
            },
            None => r.usage is None,
        },
{
    let usage = match &resp.usage {
        Some(u) => Some(usage_from(u)),
        None => None,
    };
    let ghost all = resp.choices@;
    let mut rest = resp.choices;
    let mut out: Vec<GaiseMessage> = Vec::new();
    while rest.len() > 0
        invariant
            out@.len() + rest@.len() == all.len(),
            rest@ == all.subrange(out@.len() as int, all.len() as int),
            forall|j: int| 0 <= j < out@.len() ==> gaise_message_for(#[trigger] out@[j], all[j].message),
        decreases rest@.len(),
    {
        let c = rest.remove(0);
        assert(c == all[out@.len() as int]);
        out.push(map_from_openai_message(c.message));
    }
    GaiseInstructResponse { output: OneOrMany::Many(out), external_id: Some(resp.id), usage }
}

/// The stream item that one decoded frame yields: the first choice's first
/// tool-call delta, else its text delta; `None` for a frame with neither.
pub fn stream_item_from(chunk: &OpenAIChatStreamResponse) -> (r: Option<GaiseInstructStreamResponse>)
    ensures
        chunk.choices@.len() == 0 ==> r is None,
        chunk.choices@.len() > 0 ==> {
            let d = chunk.choices@[0].delta;
            match d.tool_calls {
                Some(tcs) if tcs@.len() > 0 => r matches Some(x) && (x.chunk matches GaiseStreamChunk::ToolCall {
                    index,
                    id,
                    name,
                    arguments,
                } && index == tcs@[0].index && id == tcs@[0].id && name == (match tcs@[0].function {
                    Some(f) => f.name,
                    None => None,
                }) && arguments == (match tcs@[0].function {
                    Some(f) => f.arguments,
                    None => None,
                })) && opt_view(x.external_id) == Some(chunk.id@),
                _ => match d.content {
                    Some(t) => r matches Some(x) && (x.chunk matches GaiseStreamChunk::Text(s) && s@ == t@)
                        && opt_view(x.external_id) == Some(chunk.id@),
                    None => r is None,
                },
            }
        },
{
    if chunk.choices.len() == 0 {
        return None;
    }
    let d = &chunk.choices[0].delta;
    if let Some(tcs) = &d.tool_calls {
        if tcs.len() > 0 {
            let tc = &tcs[0];
            let (name, arguments) = match &tc.function {
                Some(f) => (clone_opt_string(&f.name), clone_opt_string(&f.arguments)),
                None => (None, None),
            };
            return Some(
                GaiseInstructStreamResponse {
                    chunk: GaiseStreamChunk::ToolCall {
                        index: tc.index,
                        id: clone_opt_string(&tc.id),
                        name,
                        arguments,
                    },
                    external_id: Some(chunk.id.clone()),
                },
            );
        }
    }
    match &d.content {
        Some(t) => Some(
            GaiseInstructStreamResponse {
                chunk: GaiseStreamChunk::Text(t.clone()),
                external_id: Some(chunk.id.clone()),
            },
        ),
        None => None,
    }
}

/// The wire embeddings request: one input as a single string, many as an array.
pub fn embed_request_from(request: &GaiseEmbeddingsRequest) -> (r: OpenAIEmbedRequest)
    ensures
        r.model@ == request.model@,
        match request.input {
            OneOrMany::One(s) => r.input matches OpenAIEmbedInput::String(t) && t@ == s@,
            OneOrMany::Many(ss) => r.input matches OpenAIEmbedInput::Array(ts) && ts@ == ss@,
        },
{
    let input = match &request.input {
        OneOrMany::One(s) => OpenAIEmbedInput::String(s.clone()),
        OneOrMany::Many(ss) => OpenAIEmbedInput::Array(clone_strings(ss)),
    };
    OpenAIEmbedRequest { model: request.model.clone(), input }
}

} // verus!
