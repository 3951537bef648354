//! Mapping between the unified contract and the local inference
//! server's chat API (text content plus a list of base64 images).
use vstd::prelude::*;
use vstd::string::*;
use crate::contracts::{
    flatten, flatten_seq, str_eq, GaiseContent, GaiseEmbeddingsRequest,
    GaiseFunctionCall, GaiseInstructRequest, GaiseInstructResponse, GaiseInstructStreamResponse, GaiseMessage,
    GaiseStreamChunk, GaiseTool, GaiseToolCall, GaiseToolParameter, GaiseUsage, OneOrMany,
    UsageCounts,
};
use crate::encoding::{base64_encode, base64_of};
use crate::named_map::NamedMap;
use crate::openai::{clone_strings, openai_kind, parameter_wf, string_or_empty, tool_wf, tools_wf};
use crate::routing::or_default;

verus! {

#[derive(Debug)]
pub struct OllamaChatRequest {
    pub model: String,
    pub messages: Vec<OllamaMessage>,
    pub tools: Option<Vec<OllamaTool>>,
    pub options: Option<OllamaOptions>,
    pub stream: bool,
    pub format: Option<String>,
}

#[derive(Debug)]
pub struct OllamaMessage {
    pub role: String,
    pub content: Option<String>,
    pub images: Option<Vec<String>>,
    pub tool_calls: Option<Vec<OllamaToolCall>>,
}

#[derive(Debug)]
pub struct OllamaTool {
    pub kind: String,
    pub function: OllamaFunction,
}

#[derive(Debug)]
pub struct OllamaFunction {
    pub name: String,
    pub description: String,
    pub parameters: OllamaParameters,
}

#[derive(Debug)]
pub struct OllamaParameters {
    pub kind: String,
    pub properties: NamedMap<OllamaParameterProperty>,
    pub required: Vec<String>,
}

#[derive(Debug)]
pub struct OllamaParameterProperty {
    pub kind: String,
    pub description: String,
    pub properties: Option<NamedMap<OllamaParameterProperty>>,
    pub items: Option<Box<OllamaParameterProperty>>,
    pub required: Option<Vec<String>>,
}

#[derive(Debug)]
pub struct OllamaToolCall {
    pub function: OllamaFunctionCall,
}

/// A function call; `arguments` is the JSON text of its argument object.
#[derive(Debug)]
pub struct OllamaFunctionCall {
    pub name: String,
    pub arguments: String,
}

/// Generation options; sampling temperatures are added where the request is
/// serialised.
#[derive(Debug)]
pub struct OllamaOptions {
    pub top_k: Option<usize>,
    pub num_predict: Option<usize>,
}

#[derive(Debug)]
pub struct OllamaChatResponse {
    pub model: String,
    pub created_at: String,
    pub message: OllamaMessage,
    pub done: bool,
    pub total_duration: Option<u64>,
    pub load_duration: Option<u64>,
    pub prompt_eval_count: Option<usize>,
    pub eval_count: Option<usize>,
}

#[derive(Debug)]
pub struct OllamaEmbedRequest {
    pub model: String,
    pub input: Vec<String>,
    pub options: Option<OllamaOptions>,
}

pub open spec fn ollama_property_for(o: OllamaParameterProperty, p: GaiseToolParameter) -> bool
    decreases p,
{
    &&& o.kind@ == openai_kind(p.kind)
    &&& o.description@ == or_default(p.description, Seq::empty())
    &&& match p.properties {
        None => o.properties is None,
        Some(props) => o.properties matches Some(op) && op.entries@.len() == props.entries@.len()
            && forall|i: int| 0 <= i < props.entries@.len() ==> (#[trigger] op.entries@[i]).0@
                == props.entries@[i].0@ && ollama_property_for(op.entries@[i].1, props.entries@[i].1),
    }
    &&& match p.items {
        None => o.items is None,
        Some(pi) => o.items matches Some(oi) && ollama_property_for(*oi, *pi),
    }
    &&& match p.required {
        None => o.required is None,
        Some(req) => o.required matches Some(r) && r@ == req@,
    }
}

/// `o` is the wire tool for `t`; an absent description is empty text.
pub open spec fn ollama_tool_for(o: OllamaTool, t: GaiseTool) -> bool {
    &&& o.kind@ == "function"@
    &&& o.function.name@ == t.name@
    &&& o.function.description@ == or_default(t.description, Seq::empty())
    &&& o.function.parameters.kind@ == "object"@
    &&& o.function.parameters.properties.wf()
    &&& match t.parameters {
        Some(p) => match p.properties {
            Some(props) => o.function.parameters.properties@.dom() == props@.dom() && forall|k: Seq<char>|
                #[trigger] props@.contains_key(k) ==> ollama_property_for(
                    o.function.parameters.properties@[k],
                    props@[k],
                ),
            None => o.function.parameters.properties@.dom() == Set::<Seq<char>>::empty(),
        },
        None => o.function.parameters.properties@.dom() == Set::<Seq<char>>::empty(),
    }
    &&& match t.parameters {
        Some(p) => match p.required {
            Some(req) => o.function.parameters.required@ == req@,
            None => o.function.parameters.required@.len() == 0,
        },
        None => o.function.parameters.required@.len() == 0,
    }
}

impl OllamaParameterProperty {
    /// The schema of one parameter in this API's dialect.
    pub fn from_parameter(p: &GaiseToolParameter) -> (r: OllamaParameterProperty)
        ensures
            ollama_property_for(r, *p),
        decreases p,
    {
        proof {
            reveal_strlit("text");
            reveal_strlit("string");
        }
        let kind = match &p.kind {
            Some(k) => if str_eq(k.as_str(), "text") {
                String::from_str("string")
            } else {
                k.clone()
            },
            None => String::from_str("string"),
        };
        let properties = match &p.properties {
            Some(props) => {
                let mut entries: Vec<(String, OllamaParameterProperty)> = Vec::new();
                let mut i: usize = 0;
                assert forall|k: int| 0 <= k < props.entries@.len() implies decreases_to!(*p => #[trigger] props.entries@[k].1) by {
                    assert(decreases_to!(*p => *props));
                    assert(decreases_to!(*props => props.entries));
                    assert(decreases_to!(props.entries => props.entries@));
                    assert(decreases_to!(props.entries@ => props.entries@[k]));
                }
                while i < props.entries.len()
                    invariant
                        i <= props.entries@.len(),
                        forall|k: int| 0 <= k < props.entries@.len() ==> decreases_to!(*p => #[trigger] props.entries@[k].1),
                        entries@.len() == i,
                        forall|k: int| 0 <= k < i ==> (#[trigger] entries@[k]).0@ == props.entries@[k].0@
                            && ollama_property_for(entries@[k].1, props.entries@[k].1),
                    decreases props.entries@.len() - i,
                {
                    let e = &props.entries[i];
                    entries.push((e.0.clone(), OllamaParameterProperty::from_parameter(&e.1)));
                    i = i + 1;
                }
                Some(NamedMap { entries })
            },
            None => None,
        };
        let items = match &p.items {
            Some(i) => Some(Box::new(OllamaParameterProperty::from_parameter(i))),
            None => None,
        };
        let required = match &p.required {
            Some(req) => Some(clone_strings(req)),
            None => None,
        };
        OllamaParameterProperty { kind, description: string_or_empty(&p.description), properties, items, required }
    }
}

impl OllamaTool {
    /// The wire tool for `t`: a function tool whose parameters are an
    /// object of the mapped properties.
    pub fn from(t: GaiseTool) -> (r: OllamaTool)
        requires
            tool_wf(t),
        ensures
            ollama_tool_for(r, t),
    {
        OllamaTool::from_tool(&t)
    }

    /// As `from`, reading the tool in place.
    pub fn from_tool(t: &GaiseTool) -> (r: OllamaTool)
        requires
            tool_wf(*t),
        ensures
            ollama_tool_for(r, *t),
    {
        let mut properties: NamedMap<OllamaParameterProperty> = NamedMap::new();
        let mut required: Vec<String> = Vec::new();
        if let Some(p) = &t.parameters {
            if let Some(props) = &p.properties {
                proof {
                    props.lemma_entries();
                }
                let n = props.len();
                let mut i: usize = 0;
                while i < n
                    invariant
                        props.wf(),
                        parameter_wf(*p),
                        n == props.num_entries(),
                        i <= n,
                        properties.wf(),
                        forall|k: Seq<char>| properties@.contains_key(k) <==> exists|j: int|
                            0 <= j < i && #[trigger] props.key_at(j) == k,
                        forall|j: int| 0 <= j < i ==> ollama_property_for(
                            properties@[#[trigger] props.key_at(j)],
                            props.value_at(j),
                        ),
                        forall|j: int, l: int| 0 <= j < l < n ==> props.key_at(j) != props.key_at(l),
                    decreases n - i,
                {
                    let (k, v) = props.entry(i);
                    let prop = OllamaParameterProperty::from_parameter(v);
                    properties.insert(k.clone(), prop);
                    proof {
                        assert forall|k2: Seq<char>| properties@.contains_key(k2) <==> exists|j: int|
                            0 <= j < i + 1 && #[trigger] props.key_at(j) == k2 by {
                            if k2 == props.key_at(i as int) {
                                assert(props.key_at(i as int) == k2);
                            }
                        }
                        assert forall|j: int| 0 <= j < i + 1 implies ollama_property_for(
                            properties@[#[trigger] props.key_at(j)],
                            props.value_at(j),
                        ) by {
                            if j < i {
                                assert(props.key_at(j) != props.key_at(i as int));
                            }
                        }
                    }
                    i = i + 1;
                }
                proof {
                    assert forall|k: Seq<char>| #[trigger] props@.contains_key(k) implies ollama_property_for(
                        properties@[k],
                        props@[k],
                    ) by {
                        let j = choose|j: int| 0 <= j < props.num_entries() && props.key_at(j) == k;
                        assert(properties@[props.key_at(j)] == properties@[k]);
                    }
                    assert(properties@.dom() =~= props@.dom());
                }
            }
            if let Some(req) = &p.required {
                required = clone_strings(req);
            }
        }
        proof {
            reveal_strlit("function");
            reveal_strlit("object");
        }
        OllamaTool {
            kind: String::from_str("function"),
            function: OllamaFunction {
                name: t.name.clone(),
                description: string_or_empty(&t.description),
                parameters: OllamaParameters {
                    kind: String::from_str("object"),
                    properties,
                    required,
                },
            },
        }
    }
}


/// The text leaves' texts, concatenated in order.
pub open spec fn ollama_text(ls: Seq<GaiseContent>) -> Seq<char>
    decreases ls.len(),
{
    if ls.len() == 0 {
        Seq::empty()
    } else {
        ollama_text(ls.drop_last()) + match ls.last() {
            GaiseContent::Text { text } => text@,
            _ => Seq::empty(),
        }
    }
}

/// The base64 text of each image leaf, in order.
pub open spec fn ollama_images(ls: Seq<GaiseContent>) -> Seq<Seq<char>>
    decreases ls.len(),
{
    if ls.len() == 0 {
        Seq::empty()
    } else {
        ollama_images(ls.drop_last()) + match ls.last() {
            GaiseContent::Image { data, .. } => seq![base64_of(data@)],
            _ => Seq::empty(),
        }
    }
}

fn push_ollama_leaves(
    c: &GaiseContent,
    text: &mut String,
    images: &mut Vec<String>,
    Ghost(prev): Ghost<Seq<GaiseContent>>,
)
    requires
        old(text)@ == ollama_text(prev),
        old(images)@.map_values(|s: String| s@) == ollama_images(prev),
    ensures
        final(text)@ == ollama_text(prev + flatten(*c)),
        final(images)@.map_values(|s: String| s@) == ollama_images(prev + flatten(*c)),
    decreases c,
{
    match c {
        GaiseContent::Parts { parts } => {
            let mut j: usize = 0;
            assert(prev + flatten_seq(parts@.take(0)) =~= prev);
            assert forall|k: int| 0 <= k < parts@.len() implies decreases_to!(*c => #[trigger] parts@[k]) by {
                assert(decreases_to!(*c => *parts));
                assert(decreases_to!(*parts => parts@));
            }
            while j < parts.len()
                invariant
                    j <= parts@.len(),
                    forall|k: int| 0 <= k < parts@.len() ==> decreases_to!(*c => #[trigger] parts@[k]),
                    text@ == ollama_text(prev + flatten_seq(parts@.take(j as int))),
                    images@.map_values(|s: String| s@) == ollama_images(prev + flatten_seq(parts@.take(j as int))),
                decreases parts@.len() - j,
            {
                assert(parts@.take(j as int + 1).drop_last() =~= parts@.take(j as int));
                push_ollama_leaves(&parts[j], text, images, Ghost(prev + flatten_seq(parts@.take(j as int))));
                assert(prev + flatten_seq(parts@.take(j as int)) + flatten(parts@[j as int]) =~= prev
                    + flatten_seq(parts@.take(j as int + 1)));
                j = j + 1;
            }
            assert(parts@.take(j as int) =~= parts@);
        },
        _ => {
            let ghost leaves = prev + flatten(*c);
            assert(leaves.drop_last() =~= prev);
            assert(leaves.last() == *c);
            let ghost before = images@;
            match c {
                GaiseContent::Text { text: t } => {
                    text.append(t.as_str());
                },
                GaiseContent::Image { data, .. } => {
                    images.push(base64_encode(data));
                    assert(images@.map_values(|s: String| s@) =~= before.map_values(|s: String| s@).push(images@.last()@));
                },
                _ => {},
            }
            assert(images@.map_values(|s: String| s@) =~= ollama_images(leaves));
        },
    }
}

/// `o` is the wire message for `m`: the text leaves joined, the image
/// leaves as base64, tool calls with absent arguments sent as `{}`.
pub open spec fn ollama_message_for(o: OllamaMessage, m: GaiseMessage) -> bool {
    let ls = match m.content {
        Some(c) => flatten_seq(c.items()),
        None => Seq::empty(),
    };
    &&& o.role@ == m.role@
    &&& o.content matches Some(t) && t@ == ollama_text(ls)
    &&& (ollama_images(ls).len() == 0 ==> o.images is None)
    &&& (ollama_images(ls).len() > 0 ==> (o.images matches Some(imgs) && imgs@.map_values(|s: String| s@)
        == ollama_images(ls)))
    &&& match m.tool_calls {
        None => o.tool_calls is None,
        Some(tcs) => o.tool_calls matches Some(ocs) && ocs@.len() == tcs@.len() && forall|i: int|
            0 <= i < tcs@.len() ==> (#[trigger] ocs@[i]).function.name@ == tcs@[i].function.name@
                && ocs@[i].function.arguments@ == or_default(tcs@[i].function.arguments, "{}"@),
    }
}

fn ollama_message_from(m: &GaiseMessage) -> (r: OllamaMessage)
    ensures
        ollama_message_for(r, *m),
{
    proof {
        reveal_strlit("{}");
    }
    let mut text = String::new();
    let mut images: Vec<String> = Vec::new();
    assert(images@.map_values(|s: String| s@) =~= ollama_images(Seq::<GaiseContent>::empty()));
    match &m.content {
        Some(OneOrMany::One(x)) => {
            push_ollama_leaves(x, &mut text, &mut images, Ghost(Seq::empty()));
            assert(Seq::<GaiseContent>::empty() + flatten(*x) =~= flatten_seq(m.content->Some_0.items())) by {
                let items = m.content->Some_0.items();
                assert(items.drop_last() =~= Seq::<GaiseContent>::empty());
                assert(flatten_seq(Seq::<GaiseContent>::empty()) =~= Seq::<GaiseContent>::empty());
            }
        },
        Some(OneOrMany::Many(xs)) => {
            let mut j: usize = 0;
            assert(flatten_seq(xs@.take(0)) =~= Seq::<GaiseContent>::empty());
            while j < xs.len()
                invariant
                    j <= xs@.len(),
                    text@ == ollama_text(flatten_seq(xs@.take(j as int))),
                    images@.map_values(|s: String| s@) == ollama_images(flatten_seq(xs@.take(j as int))),
                decreases xs@.len() - j,
            {
                assert(xs@.take(j as int + 1).drop_last() =~= xs@.take(j as int));
                push_ollama_leaves(&xs[j], &mut text, &mut images, Ghost(flatten_seq(xs@.take(j as int))));
                j = j + 1;
            }
            assert(xs@.take(j as int) =~= xs@);
        },
        None => {},
    }
    let tool_calls = match &m.tool_calls {
        Some(tcs) => {
            let mut out: Vec<OllamaToolCall> = Vec::new();
            let mut i: usize = 0;
            while i < tcs.len()
                invariant
                    i <= tcs@.len(),
                    out@.len() == i,
                    forall|j: int| 0 <= j < i ==> (#[trigger] out@[j]).function.name@ == tcs@[j].function.name@
                        && out@[j].function.arguments@ == or_default(tcs@[j].function.arguments, "{}"@),
                decreases tcs@.len() - i,
            {
                let tc = &tcs[i];
                let arguments = match &tc.function.arguments {
                    Some(a) => a.clone(),
                    None => String::from_str("{}"),
                };
                out.push(OllamaToolCall { function: OllamaFunctionCall { name: tc.function.name.clone(), arguments } });
                i = i + 1;
            }
            Some(out)
        },
        None => None,
    };
    let images = if images.len() == 0 {
        None
    } else {
        Some(images)
    };
    OllamaMessage { role: m.role.clone(), content: Some(text), images, tool_calls }
}

/// `r` is the wire request for `request`, not streaming.
pub open spec fn ollama_request_for(r: OllamaChatRequest, request: GaiseInstructRequest) -> bool {
    &&& r.model@ == request.model@
    &&& !r.stream
    &&& r.format is None
    &&& r.messages@.len() == request.input.items().len()
    &&& forall|i: int| 0 <= i < r.messages@.len() ==> ollama_message_for(#[trigger] r.messages@[i], request.input.items()[i])
    &&& match request.generation_config {
        Some(g) => r.options matches Some(o) && o.top_k == g.top_k && o.num_predict == g.max_tokens,
        None => r.options is None,
    }
    &&& match request.tools {
        Some(ts) => r.tools matches Some(ots) && ots@.len() == ts@.len() && forall|i: int|
            0 <= i < ts@.len() ==> ollama_tool_for(#[trigger] ots@[i], ts@[i]),
        None => r.tools is None,
    }
}

impl OllamaChatRequest {
    /// The wire request for `request`.
    pub fn from(request: &GaiseInstructRequest) -> (r: OllamaChatRequest)
        requires
            tools_wf(request.tools),
        ensures
            ollama_request_for(r, *request),
    {
        let mut messages: Vec<OllamaMessage> = Vec::new();
        match &request.input {
            OneOrMany::One(m) => {
                messages.push(ollama_message_from(m));
            },
            OneOrMany::Many(ms) => {
                let mut i: usize = 0;
                while i < ms.len()
                    invariant
                        i <= ms@.len(),
                        request.input == OneOrMany::Many(*ms),
                        messages@.len() == i,
                        forall|j: int| 0 <= j < i ==> ollama_message_for(#[trigger] messages@[j], ms@[j]),
                    decreases ms@.len() - i,
                {
                    messages.push(ollama_message_from(&ms[i]));
                    i = i + 1;
                }
            },
        }
        let tools = match &request.tools {
            Some(ts) => {
                let mut out: Vec<OllamaTool> = Vec::new();
                let mut i: usize = 0;
                while i < ts.len()
                    invariant
                        i <= ts@.len(),
                        forall|j: int| 0 <= j < ts@.len() ==> tool_wf(#[trigger] ts@[j]),
                        out@.len() == i,
                        forall|j: int| 0 <= j < i ==> ollama_tool_for(#[trigger] out@[j], ts@[j]),
                    decreases ts@.len() - i,
                {
                    assert(tool_wf(ts@[i as int]));
                    out.push(OllamaTool::from_tool(&ts[i]));
                    i = i + 1;
                }
                Some(out)
            },
            None => None,
        };
        let options = match &request.generation_config {
            Some(g) => Some(OllamaOptions { top_k: g.top_k, num_predict: g.max_tokens }),
            None => None,
        };
        OllamaChatRequest { model: request.model.clone(), messages, tools, options, stream: false, format: None }
    }
}

/// The unified message for a wire message: empty text is no content; tool
/// calls carry their argument text and no id.
pub fn map_from_ollama_message(msg: OllamaMessage) -> (r: GaiseMessage)
    ensures
        r.role@ == msg.role@,
        r.tool_call_id is None,
        match msg.content {
            Some(t) if t@.len() > 0 => r.content matches Some(OneOrMany::One(GaiseContent::Text { text })) && text@ == t@,
            _ => r.content is None,
        },
        match msg.tool_calls {
            None => r.tool_calls is None,
            Some(ocs) => r.tool_calls matches Some(tcs) && tcs@.len() == ocs@.len() && forall|i: int|
                0 <= i < ocs@.len() ==> (#[trigger] tcs@[i]).id@.len() == 0 && tcs@[i].kind@ == "function"@
                    && tcs@[i].function.name@ == ocs@[i].function.name@ && (tcs@[i].function.arguments matches Some(a)
                    && a@ == ocs@[i].function.arguments@),
        },
{
    proof {
        reveal_strlit("function");
    }
    let content = match msg.content {
        Some(t) => if t.as_str().is_empty() {
            None
        } else {
            Some(OneOrMany::One(GaiseContent::Text { text: t }))
        },
        None => None,
    };
    let tool_calls = match msg.tool_calls {
        Some(ocs) => {
            let ghost all = ocs@;
            let mut rest = ocs;
            let mut out: Vec<GaiseToolCall> = Vec::new();
            while rest.len() > 0
                invariant
                    out@.len() + rest@.len() == all.len(),
                    rest@ == all.subrange(out@.len() as int, all.len() as int),
                    forall|j: int| 0 <= j < out@.len() ==> (#[trigger] out@[j]).id@.len() == 0 && out@[j].kind@ == "function"@
                        && out@[j].function.name@ == all[j].function.name@ && (out@[j].function.arguments matches Some(a)
                        && a@ == all[j].function.arguments@),
                decreases rest@.len(),
            {
                let tc = rest.remove(0);
                assert(tc == all[out@.len() as int]);
                out.push(
                    GaiseToolCall {
                        id: String::new(),
                        kind: String::from_str("function"),
                        function: GaiseFunctionCall { name: tc.function.name, arguments: Some(tc.function.arguments) },
                    },
                );
            }
            Some(out)
        },
        None => None,
    };
    GaiseMessage { role: msg.role, content, tool_calls, tool_call_id: None }
}

/// The stream item of one decoded line: its first tool call, else for the
/// final line the token counts, else its text.
pub fn stream_item_from(chunk: OllamaChatResponse) -> (r: GaiseInstructStreamResponse)
    ensures
        r.external_id is None,
        match chunk.message.tool_calls {
            Some(tcs) if tcs@.len() > 0 => r.chunk matches GaiseStreamChunk::ToolCall { index, id, name, arguments }
                && index == 0 && id is None && (name matches Some(n) && n@ == tcs@[0].function.name@) && (
            arguments matches Some(a) && a@ == tcs@[0].function.arguments@),
            _ => if chunk.done {
                r.chunk matches GaiseStreamChunk::Usage(u) && (u.input matches Some(i) && i.wf() && i@ == map![
                    ("prompt_tokens"@) => match chunk.prompt_eval_count { Some(n) => n, None => 0 }
                ]) && (u.output matches Some(o) && o.wf() && o@ == map![
                    ("completion_tokens"@) => match chunk.eval_count { Some(n) => n, None => 0 }
                ])
            } else {
                r.chunk matches GaiseStreamChunk::Text(t) && t@ == match chunk.message.content {
                    Some(c) => c@,
                    None => Seq::empty(),
                }
            },
        },
{
    let ghost orig = chunk;
    let done = chunk.done;
    let prompt = chunk.prompt_eval_count;
    let eval = chunk.eval_count;
    if let Some(mut tcs) = chunk.message.tool_calls {
        if tcs.len() > 0 {
            let tc = tcs.remove(0);
            return GaiseInstructStreamResponse {
                chunk: GaiseStreamChunk::ToolCall {
                    index: 0,
                    id: None,
                    name: Some(tc.function.name),
                    arguments: Some(tc.function.arguments),
                },
                external_id: None,
            };
        }
    }
    if done {
        return GaiseInstructStreamResponse {
            chunk: GaiseStreamChunk::Usage(usage_from(prompt, eval)),
            external_id: None,
        };
    }
    let text = match chunk.message.content {
        Some(c) => c,
        None => String::new(),
    };
    GaiseInstructStreamResponse { chunk: GaiseStreamChunk::Text(text), external_id: None }
}

/// Token counts of a finished exchange: prompt tokens as input, generated
/// tokens as output, zero where the server reports none.
pub fn usage_from(prompt: Option<usize>, eval: Option<usize>) -> (r: GaiseUsage)
    ensures
        r.input matches Some(i) && i.wf() && i@ == map![("prompt_tokens"@) => match prompt { Some(n) => n, None => 0 }],
        r.output matches Some(o) && o.wf() && o@ == map![("completion_tokens"@) => match eval { Some(n) => n, None => 0 }],
{
    let mut input = UsageCounts::new();
    input.insert(String::from_str("prompt_tokens"), match prompt { Some(n) => n, None => 0 });
    let mut output = UsageCounts::new();
    output.insert(String::from_str("completion_tokens"), match eval { Some(n) => n, None => 0 });
    assert(input@ =~= map![("prompt_tokens"@) => match prompt { Some(n) => n, None => 0 }]);
    assert(output@ =~= map![("completion_tokens"@) => match eval { Some(n) => n, None => 0 }]);
    GaiseUsage { input: Some(input), output: Some(output) }
}

/// The unified response: the reply message and the exchange's token counts.
pub fn instruct_response_from(resp: OllamaChatResponse) -> (r: GaiseInstructResponse)
    ensures
        r.output is One,
        r.external_id is None,
        r.usage matches Some(u) && (u.input matches Some(i) && i.wf() && i@ == map![
            ("prompt_tokens"@) => match resp.prompt_eval_count { Some(n) => n, None => 0 }
        ]) && (u.output matches Some(o) && o.wf() && o@ == map![
            ("completion_tokens"@) => match resp.eval_count { Some(n) => n, None => 0 }
        ]),
{
    let usage = usage_from(resp.prompt_eval_count, resp.eval_count);
    GaiseInstructResponse {
        output: OneOrMany::One(map_from_ollama_message(resp.message)),
        external_id: None,
        usage: Some(usage),
    }
}

/// The wire embeddings request: every input text, in order.
pub fn embed_request_from(request: &GaiseEmbeddingsRequest) -> (r: OllamaEmbedRequest)
    ensures
        r.model@ == request.model@,
        r.input@ == request.input.items(),
        r.options is None,
{
    let input = match &request.input {
        OneOrMany::One(s) => vec![s.clone()],
        OneOrMany::Many(ss) => clone_strings(ss),
    };
    proof {
        if request.input is One {
            assert(input@ =~= request.input.items());
        }
    }
    OllamaEmbedRequest { model: request.model.clone(), input, options: None }
}

} // verus!
