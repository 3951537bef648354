//! Mapping between the unified contract and the hosted chat API that
//! takes `messages` of text, image, tool-use and tool-result blocks.
use vstd::prelude::*;
use vstd::string::*;
use crate::contracts::{
    clone_opt_string, flatten, flatten_seq, str_eq, GaiseContent, GaiseFunctionCall,
    GaiseInstructRequest, GaiseInstructResponse, GaiseInstructStreamResponse, GaiseMessage,
    GaiseStreamChunk, GaiseTool, GaiseToolCall, GaiseToolParameter, GaiseUsage, OneOrMany,
    UsageCounts,
};
use crate::accumulator::opt_view;
use crate::encoding::{base64_encode, base64_of};
use crate::named_map::NamedMap;
use crate::openai::{clone_strings, openai_kind, parameter_wf, string_or_empty, tool_wf, tools_wf};
use crate::routing::{or_default, GaiseError};

verus! {

/// A messages request of this API. Sampling temperatures are added where
/// the request is serialised.
#[derive(Debug)]
pub struct AnthropicRequest {
    pub model: String,
    pub messages: Vec<AnthropicMessage>,
    pub max_tokens: usize,
    pub system: Option<String>,
    pub tools: Option<Vec<AnthropicTool>>,
    pub stream: Option<bool>,
}

#[derive(Debug)]
pub struct AnthropicMessage {
    pub role: String,
    pub content: AnthropicContent,
}

#[derive(Debug)]
pub enum AnthropicContent {
    Text(String),
    Blocks(Vec<AnthropicContentBlock>),
}

impl Default for AnthropicContent {
    fn default() -> (r: Self)
        ensures
            r matches AnthropicContent::Text(t) && t@.len() == 0,
    {
        AnthropicContent::Text(String::new())
    }
}

/// A content block; `input` of a tool use is the JSON text of its arguments.
#[derive(Debug)]
pub enum AnthropicContentBlock {
    Text { text: String },
    Image { source: AnthropicImageSource },
    ToolUse { id: String, name: String, input: String },
    ToolResult { tool_use_id: String, content: String },
}

#[derive(Debug)]
pub struct AnthropicImageSource {
    pub kind: String,
    pub media_type: String,
    pub data: String,
}

#[derive(Debug)]
pub struct AnthropicTool {
    pub name: String,
    pub description: Option<String>,
    pub input_schema: AnthropicInputSchema,
}

#[derive(Debug)]
pub struct AnthropicInputSchema {
    pub kind: String,
    pub properties: NamedMap<AnthropicProperty>,
    pub required: Vec<String>,
}

#[derive(Debug)]
pub struct AnthropicProperty {
    pub kind: String,
    pub description: String,
    pub properties: Option<NamedMap<AnthropicProperty>>,
    pub items: Option<Box<AnthropicProperty>>,
    pub required: Option<Vec<String>>,
}

#[derive(Debug)]
pub struct AnthropicResponse {
    pub id: String,
    pub kind: String,
    pub role: String,
    pub content: Vec<AnthropicContentBlock>,
    pub model: String,
    pub stop_reason: Option<String>,
    pub stop_sequence: Option<String>,
    pub usage: AnthropicUsage,
}

#[derive(Debug)]
pub struct AnthropicUsage {
    pub input_tokens: usize,
    pub output_tokens: usize,
}

#[derive(Debug)]
pub struct AnthropicStreamResponse {
    pub kind: String,
    pub index: Option<usize>,
    pub delta: Option<AnthropicDelta>,
    pub content_block: Option<AnthropicContentBlock>,
    pub message: Option<AnthropicStreamMessage>,
}

#[derive(Debug)]
pub struct AnthropicDelta {
    pub kind: Option<String>,
    pub text: Option<String>,
    pub partial_json: Option<String>,
}

#[derive(Debug)]
pub struct AnthropicStreamMessage {
    pub id: String,
    pub kind: String,
    pub role: String,
    pub model: String,
    pub usage: AnthropicUsage,
}

/// The output budget when the request names none.
pub const DEFAULT_MAX_TOKENS: usize = 4096;

/// Content kinds this API takes inline: text and images.
pub open spec fn anthropic_accepts(c: GaiseContent) -> bool {
    c is Text || c is Image
}

/// `b` is the block for the leaf `c`.
pub open spec fn anthropic_block_for(b: AnthropicContentBlock, c: GaiseContent) -> bool {
    match c {
        GaiseContent::Text { text } => b matches AnthropicContentBlock::Text { text: t } && t@ == text@,
        GaiseContent::Image { data, format } => b matches AnthropicContentBlock::Image { source }
            && source.kind@ == "base64"@ && source.media_type@ == or_default(format, "image/jpeg"@)
            && source.data@ == base64_of(data@),
        _ => false,
    }
}

/// `bs` are the blocks for the accepted leaves of `leaves`, in order.
pub open spec fn anthropic_blocks_for(bs: Seq<AnthropicContentBlock>, leaves: Seq<GaiseContent>) -> bool
    decreases leaves.len(),
{
    if leaves.len() == 0 {
        bs.len() == 0
    } else if anthropic_accepts(leaves.last()) {
        bs.len() > 0 && anthropic_block_for(bs.last(), leaves.last()) && anthropic_blocks_for(
            bs.drop_last(),
            leaves.drop_last(),
        )
    } else {
        anthropic_blocks_for(bs, leaves.drop_last())
    }
}

/// `o` carries the leaves: a lone text block as plain text, else the blocks.
pub open spec fn anthropic_content_for(o: AnthropicContent, leaves: Seq<GaiseContent>) -> bool {
    match o {
        AnthropicContent::Text(t) => exists|bs: Seq<AnthropicContentBlock>|
            #[trigger] anthropic_blocks_for(bs, leaves) && bs.len() == 1 && (bs[0] matches AnthropicContentBlock::Text {
                text,
            } && text@ == t@),
        AnthropicContent::Blocks(bs) => anthropic_blocks_for(bs@, leaves) && !(bs@.len() == 1
            && bs@[0] is Text),
    }
}

pub open spec fn anthropic_property_for(o: AnthropicProperty, p: GaiseToolParameter) -> bool
    decreases p,
{
    &&& o.kind@ == openai_kind(p.kind)
    &&& o.description@ == or_default(p.description, Seq::empty())
    &&& match p.properties {
        None => o.properties is None,
        Some(props) => o.properties matches Some(op) && op.entries@.len() == props.entries@.len()
            && forall|i: int| 0 <= i < props.entries@.len() ==> (#[trigger] op.entries@[i]).0@
                == props.entries@[i].0@ && anthropic_property_for(op.entries@[i].1, props.entries@[i].1),
    }
    &&& match p.items {
        None => o.items is None,
        Some(pi) => o.items matches Some(oi) && anthropic_property_for(*oi, *pi),
    }
    &&& match p.required {
        None => o.required is None,
        Some(req) => o.required matches Some(r) && r@ == req@,
    }
}

/// `o` is the wire tool for `t`.
pub open spec fn anthropic_tool_for(o: AnthropicTool, t: GaiseTool) -> bool {
    &&& o.name@ == t.name@
    &&& opt_view(o.description) == opt_view(t.description)
    &&& o.input_schema.kind@ == "object"@
    &&& o.input_schema.properties.wf()
    &&& match t.parameters {
        Some(p) => match p.properties {
            Some(props) => o.input_schema.properties@.dom() == props@.dom() && forall|k: Seq<char>|
                #[trigger] props@.contains_key(k) ==> anthropic_property_for(
                    o.input_schema.properties@[k],
                    props@[k],
                ),
            None => o.input_schema.properties@.dom() == Set::<Seq<char>>::empty(),
        },
        None => o.input_schema.properties@.dom() == Set::<Seq<char>>::empty(),
    }
    &&& match t.parameters {
        Some(p) => match p.required {
            Some(req) => o.input_schema.required@ == req@,
            None => o.input_schema.required@.len() == 0,
        },
        None => o.input_schema.required@.len() == 0,
    }
}

impl AnthropicProperty {
    /// The schema of one parameter in this API's dialect.
    pub fn from_parameter(p: &GaiseToolParameter) -> (r: AnthropicProperty)
        ensures
            anthropic_property_for(r, *p),
        decreases p,
    {
        proof {
            reveal_strlit("text");
            reveal_strlit("string");
        }
        let kind = match &p.kind {
            Some(k) => if str_eq(k.as_str(), "text") {
                String::from_str("string")
            } else {
                k.clone()
            },
            None => String::from_str("string"),
        };
        let properties = match &p.properties {
            Some(props) => {
                let mut entries: Vec<(String, AnthropicProperty)> = Vec::new();
                let mut i: usize = 0;
                assert forall|k: int| 0 <= k < props.entries@.len() implies decreases_to!(*p => #[trigger] props.entries@[k].1) by {
                    assert(decreases_to!(*p => *props));
                    assert(decreases_to!(*props => props.entries));
                    assert(decreases_to!(props.entries => props.entries@));
                    assert(decreases_to!(props.entries@ => props.entries@[k]));
                }
                while i < props.entries.len()
                    invariant
                        i <= props.entries@.len(),
                        forall|k: int| 0 <= k < props.entries@.len() ==> decreases_to!(*p => #[trigger] props.entries@[k].1),
                        entries@.len() == i,
                        forall|k: int| 0 <= k < i ==> (#[trigger] entries@[k]).0@ == props.entries@[k].0@
                            && anthropic_property_for(entries@[k].1, props.entries@[k].1),
                    decreases props.entries@.len() - i,
                {
                    let e = &props.entries[i];
                    entries.push((e.0.clone(), AnthropicProperty::from_parameter(&e.1)));
                    i = i + 1;
                }
                Some(NamedMap { entries })
            },
            None => None,
        };
        let items = match &p.items {
            Some(i) => Some(Box::new(AnthropicProperty::from_parameter(i))),
            None => None,
        };
        let required = match &p.required {
            Some(req) => Some(clone_strings(req)),
            None => None,
        };
        AnthropicProperty { kind, description: string_or_empty(&p.description), properties, items, required }
    }
}

impl AnthropicTool {
    /// The wire tool for `t`: its parameters as an object schema.
    pub fn from(t: GaiseTool) -> (r: AnthropicTool)
        requires
            tool_wf(t),
        ensures
            anthropic_tool_for(r, t),
    {
        AnthropicTool::from_tool(&t)
    }

    /// As `from`, reading the tool in place.
    pub fn from_tool(t: &GaiseTool) -> (r: AnthropicTool)
        requires
            tool_wf(*t),
        ensures
            anthropic_tool_for(r, *t),
    {
        let mut properties: NamedMap<AnthropicProperty> = NamedMap::new();
        let mut required: Vec<String> = Vec::new();
        if let Some(p) = &t.parameters {
            if let Some(props) = &p.properties {
                proof {
                    props.lemma_entries();
                }
                let n = props.len();
                let mut i: usize = 0;
                while i < n
                    invariant
                        props.wf(),
                        parameter_wf(*p),
                        n == props.num_entries(),
                        i <= n,
                        properties.wf(),
                        forall|k: Seq<char>| properties@.contains_key(k) <==> exists|j: int|
                            0 <= j < i && #[trigger] props.key_at(j) == k,
                        forall|j: int| 0 <= j < i ==> anthropic_property_for(
                            properties@[#[trigger] props.key_at(j)],
                            props.value_at(j),
                        ),
                        forall|j: int, l: int| 0 <= j < l < n ==> props.key_at(j) != props.key_at(l),
                    decreases n - i,
                {
                    let (k, v) = props.entry(i);
                    let prop = AnthropicProperty::from_parameter(v);
                    properties.insert(k.clone(), prop);
                    proof {
                        assert forall|k2: Seq<char>| properties@.contains_key(k2) <==> exists|j: int|
                            0 <= j < i + 1 && #[trigger] props.key_at(j) == k2 by {
                            if k2 == props.key_at(i as int) {
                                assert(props.key_at(i as int) == k2);
                            }
                        }
                        assert forall|j: int| 0 <= j < i + 1 implies anthropic_property_for(
                            properties@[#[trigger] props.key_at(j)],
                            props.value_at(j),
                        ) by {
                            if j < i {
                                assert(props.key_at(j) != props.key_at(i as int));
                            }
                        }
                    }
                    i = i + 1;
                }
                proof {
                    assert forall|k: Seq<char>| #[trigger] props@.contains_key(k) implies anthropic_property_for(
                        properties@[k],
                        props@[k],
                    ) by {
                        let j = choose|j: int| 0 <= j < props.num_entries() && props.key_at(j) == k;
                        assert(properties@[props.key_at(j)] == properties@[k]);
                    }
                    assert(properties@.dom() =~= props@.dom());
                }
            }
            if let Some(req) = &p.required {
                required = clone_strings(req);
            }
        }
        proof {
            reveal_strlit("object");
        }
        AnthropicTool {
            name: t.name.clone(),
            description: clone_opt_string(&t.description),
            input_schema: AnthropicInputSchema { kind: String::from_str("object"), properties, required },
        }
    }
}

fn push_anthropic_blocks(c: &GaiseContent, out: &mut Vec<AnthropicContentBlock>, Ghost(prev): Ghost<Seq<GaiseContent>>)
    requires
        anthropic_blocks_for(old(out)@, prev),
    ensures
        anthropic_blocks_for(final(out)@, prev + flatten(*c)),
    decreases c,
{
    match c {
        GaiseContent::Parts { parts } => {
            let mut j: usize = 0;
            assert(prev + flatten_seq(parts@.take(0)) =~= prev);
            assert forall|k: int| 0 <= k < parts@.len() implies decreases_to!(*c => #[trigger] parts@[k]) by {
                assert(decreases_to!(*c => *parts));
                assert(decreases_to!(*parts => parts@));
            }
            while j < parts.len()
                invariant
                    j <= parts@.len(),
                    forall|k: int| 0 <= k < parts@.len() ==> decreases_to!(*c => #[trigger] parts@[k]),
                    anthropic_blocks_for(out@, prev + flatten_seq(parts@.take(j as int))),
                decreases parts@.len() - j,
            {
                assert(parts@.take(j as int + 1).drop_last() =~= parts@.take(j as int));
                push_anthropic_blocks(&parts[j], out, Ghost(prev + flatten_seq(parts@.take(j as int))));
                assert(prev + flatten_seq(parts@.take(j as int)) + flatten(parts@[j as int]) =~= prev
                    + flatten_seq(parts@.take(j as int + 1)));
                j = j + 1;
            }
            assert(parts@.take(j as int) =~= parts@);
        },
        _ => {
            proof {
                reveal_strlit("image/jpeg");
                reveal_strlit("base64");
            }
            let ghost before = out@;
            let ghost leaves = prev + flatten(*c);
            assert(leaves.drop_last() =~= prev);
            assert(leaves.last() == *c);
            match c {
                GaiseContent::Text { text } => {
                    out.push(AnthropicContentBlock::Text { text: text.clone() });
                    assert(out@.drop_last() =~= before);
                },
                GaiseContent::Image { data, format } => {
                    let media_type = match format {
                        Some(f) => f.clone(),
                        None => String::from_str("image/jpeg"),
                    };
                    out.push(
                        AnthropicContentBlock::Image {
                            source: AnthropicImageSource {
                                kind: String::from_str("base64"),
                                media_type,
                                data: base64_encode(data),
                            },
                        },
                    );
                    assert(out@.drop_last() =~= before);
                },
                _ => {},
            }
        },
    }
}

/// The wire content for a content field: its leaves in order, files left
/// out, a lone text part sent as plain text.
fn anthropic_content_from(c: &OneOrMany<GaiseContent>) -> (r: AnthropicContent)
    ensures
        anthropic_content_for(r, flatten_seq(c.items())),
{
    let mut parts: Vec<AnthropicContentBlock> = Vec::new();
    match c {
        OneOrMany::One(x) => {
            push_anthropic_blocks(x, &mut parts, Ghost(Seq::empty()));
            assert(flatten_seq(c.items()) =~= Seq::<GaiseContent>::empty() + flatten(*x)) by {
                assert(c.items().drop_last() =~= Seq::<GaiseContent>::empty());
                assert(c.items().last() == *x);
                assert(flatten_seq(Seq::<GaiseContent>::empty()) =~= Seq::<GaiseContent>::empty());
            }
        },
        OneOrMany::Many(xs) => {
            let mut j: usize = 0;
            assert(flatten_seq(xs@.take(0)) =~= Seq::<GaiseContent>::empty());
            while j < xs.len()
                invariant
                    j <= xs@.len(),
                    anthropic_blocks_for(parts@, flatten_seq(xs@.take(j as int))),
                decreases xs@.len() - j,
            {
                assert(xs@.take(j as int + 1).drop_last() =~= xs@.take(j as int));
                push_anthropic_blocks(&xs[j], &mut parts, Ghost(flatten_seq(xs@.take(j as int))));
                j = j + 1;
            }
            assert(xs@.take(j as int) =~= xs@);
        },
    }
    let lone_text = parts.len() == 1 && match &parts[0] {
        AnthropicContentBlock::Text { .. } => true,
        _ => false,
    };
    if lone_text {
        let ghost ps = parts@;
        match parts.pop() {
            Some(AnthropicContentBlock::Text { text }) => {
                assert(anthropic_blocks_for(ps, flatten_seq(c.items())));
                AnthropicContent::Text(text)
            },
            _ => AnthropicContent::Blocks(Vec::new()),
        }
    } else {
        AnthropicContent::Blocks(parts)
    }
}


/// The texts of the text blocks, in order.
pub open spec fn block_texts(bs: Seq<AnthropicContentBlock>) -> Seq<Seq<char>>
    decreases bs.len(),
{
    if bs.len() == 0 {
        Seq::empty()
    } else {
        block_texts(bs.drop_last()) + match bs.last() {
            AnthropicContentBlock::Text { text } => seq![text@],
            _ => Seq::empty(),
        }
    }
}

/// The texts of the text leaves, in order.
pub open spec fn leaf_texts(ls: Seq<GaiseContent>) -> Seq<Seq<char>>
    decreases ls.len(),
{
    if ls.len() == 0 {
        Seq::empty()
    } else {
        leaf_texts(ls.drop_last()) + match ls.last() {
            GaiseContent::Text { text } => seq![text@],
            _ => Seq::empty(),
        }
    }
}

proof fn lemma_block_texts(bs: Seq<AnthropicContentBlock>, ls: Seq<GaiseContent>)
    requires
        anthropic_blocks_for(bs, ls),
    ensures
        block_texts(bs) == leaf_texts(ls),
    decreases ls.len(),
{
    if ls.len() > 0 {
        if anthropic_accepts(ls.last()) {
            lemma_block_texts(bs.drop_last(), ls.drop_last());
        } else {
            lemma_block_texts(bs, ls.drop_last());
        }
    }
}

/// The texts joined by line breaks.
pub open spec fn join_lines(ts: Seq<Seq<char>>) -> Seq<char>
    decreases ts.len(),
{
    if ts.len() == 0 {
        Seq::empty()
    } else if ts.len() == 1 {
        ts[0]
    } else {
        join_lines(ts.drop_last()) + "\n"@ + ts.last()
    }
}

fn join_block_texts(bs: &Vec<AnthropicContentBlock>) -> (r: String)
    ensures
        r@ == join_lines(block_texts(bs@)),
{
    let mut r = String::new();
    let mut any = false;
    let mut i: usize = 0;
    while i < bs.len()
        invariant
            i <= bs@.len(),
            any == (block_texts(bs@.take(i as int)).len() > 0),
            r@ == join_lines(block_texts(bs@.take(i as int))),
        decreases bs@.len() - i,
    {
        assert(bs@.take(i as int + 1).drop_last() =~= bs@.take(i as int));
        assert(bs@.take(i as int + 1).last() == bs@[i as int]);
        if let AnthropicContentBlock::Text { text } = &bs[i] {
            let ghost before = block_texts(bs@.take(i as int));
            assert(block_texts(bs@.take(i as int + 1)) =~= before.push(text@));
            assert(before.push(text@).drop_last() =~= before);
            if any {
                r.append("\n");
                r.append(text.as_str());
            } else {
                r = text.clone();
            }
            any = true;
        } else {
            assert(block_texts(bs@.take(i as int + 1)) =~= block_texts(bs@.take(i as int)));
        }
        i = i + 1;
    }
    assert(bs@.take(i as int) =~= bs@);
    r
}

/// The leaves of an optional content field.
pub open spec fn leaves_of(c: Option<OneOrMany<GaiseContent>>) -> Seq<GaiseContent> {
    match c {
        Some(x) => flatten_seq(x.items()),
        None => Seq::empty(),
    }
}

/// How many blocks a message's own content gives: its accepted leaves, or
/// one empty text block when it has no content.
pub open spec fn accepted_count(ls: Seq<GaiseContent>) -> nat
    decreases ls.len(),
{
    if ls.len() == 0 {
        0
    } else {
        accepted_count(ls.drop_last()) + if anthropic_accepts(ls.last()) {
            1nat
        } else {
            0nat
        }
    }
}

proof fn lemma_blocks_len(bs: Seq<AnthropicContentBlock>, ls: Seq<GaiseContent>)
    requires
        anthropic_blocks_for(bs, ls),
    ensures
        bs.len() == accepted_count(ls),
    decreases ls.len(),
{
    if ls.len() > 0 {
        if anthropic_accepts(ls.last()) {
            lemma_blocks_len(bs.drop_last(), ls.drop_last());
        } else {
            lemma_blocks_len(bs, ls.drop_last());
        }
    }
}

/// `bs` start with the blocks of the message's own content.
pub open spec fn base_blocks_ok(bs: Seq<AnthropicContentBlock>, m: GaiseMessage) -> bool {
    match m.content {
        Some(_) => anthropic_blocks_for(bs, leaves_of(m.content)),
        None => bs.len() == 1 && (bs[0] matches AnthropicContentBlock::Text { text } && text@.len() == 0),
    }
}

pub open spec fn base_count(m: GaiseMessage) -> nat {
    match m.content {
        Some(_) => accepted_count(leaves_of(m.content)),
        None => 1,
    }
}

/// `o` is the wire message for `m` (kept in place whatever its role): its
/// content blocks, then a tool-use block per tool call; or, for a tool
/// result, one result block holding its text lines; or its content alone.
pub open spec fn anthropic_message_for(o: AnthropicMessage, m: GaiseMessage) -> bool {
    &&& o.role@ == m.role@
    &&& match m.tool_calls {
        Some(tcs) => o.content matches AnthropicContent::Blocks(bs) && bs@.len() == base_count(m) + tcs@.len()
            && base_blocks_ok(bs@.take(base_count(m) as int), m) && forall|i: int| 0 <= i < tcs@.len() ==> (
        #[trigger] bs@[base_count(m) + i] matches AnthropicContentBlock::ToolUse { id, name, input } && id@
            == tcs@[i].id@ && name@ == tcs@[i].function.name@ && input@ == or_default(
            tcs@[i].function.arguments,
            "{}"@,
        )),
        None => match m.tool_call_id {
            Some(call_id) => o.content matches AnthropicContent::Blocks(bs) && bs@.len() == 1 && (
            bs@[0] matches AnthropicContentBlock::ToolResult { tool_use_id, content } && tool_use_id@ == call_id@
                && content@ == join_lines(leaf_texts(leaves_of(m.content)))),
            None => match m.content {
                Some(_) => anthropic_content_for(o.content, leaves_of(m.content)),
                None => o.content matches AnthropicContent::Text(t) && t@.len() == 0,
            },
        },
    }
}

fn anthropic_message_from(m: &GaiseMessage) -> (r: AnthropicMessage)
    ensures
        anthropic_message_for(r, *m),
{
    proof {
        reveal_strlit("{}");
        reveal_strlit("\n");
    }
    let content = match &m.content {
        Some(c) => anthropic_content_from(c),
        None => AnthropicContent::Text(String::new()),
    };
    let ghost ls = leaves_of(m.content);
    let final_content = if let Some(tcs) = &m.tool_calls {
        let mut blocks = match content {
            AnthropicContent::Text(t) => {
                let ghost tt = t;
                let v = vec![AnthropicContentBlock::Text { text: t }];
                proof {
                    if m.content is Some {
                        let bs = choose|bs: Seq<AnthropicContentBlock>| #[trigger] anthropic_blocks_for(bs, ls) && bs.len() == 1 && (bs[0] matches AnthropicContentBlock::Text { text } && text@ == tt@);
                        assert(anthropic_blocks_for(v@, ls)) by {
                            lemma_same_blocks(bs, v@, ls);
                        }
                        lemma_blocks_len(v@, ls);
                    }
                }
                v
            },
            AnthropicContent::Blocks(b) => {
                proof {
                    lemma_blocks_len(b@, ls);
                }
                b
            },
        };
        let ghost k = blocks@.len();
        assert(k == base_count(*m));
        assert(blocks@.take(k as int) =~= blocks@);
        let mut i: usize = 0;
        while i < tcs.len()
            invariant
                i <= tcs@.len(),
                m.tool_calls == Some(*tcs),
                k == base_count(*m),
                blocks@.len() == k + i,
                base_blocks_ok(blocks@.take(k as int), *m),
                forall|j: int| 0 <= j < i ==> (#[trigger] blocks@[k + j] matches AnthropicContentBlock::ToolUse { id, name, input }
                    && id@ == tcs@[j].id@ && name@ == tcs@[j].function.name@ && input@ == or_default(tcs@[j].function.arguments, "{}"@)),
            decreases tcs@.len() - i,
        {
            let tc = &tcs[i];
            let input = match &tc.function.arguments {
                Some(a) => a.clone(),
                None => String::from_str("{}"),
            };
            let ghost before = blocks@;
            blocks.push(AnthropicContentBlock::ToolUse { id: tc.id.clone(), name: tc.function.name.clone(), input });
            assert(blocks@.take(k as int) =~= before.take(k as int));
            assert forall|j: int| 0 <= j < i + 1 implies (#[trigger] blocks@[k + j] matches AnthropicContentBlock::ToolUse { id, name, input }
                && id@ == tcs@[j].id@ && name@ == tcs@[j].function.name@ && input@ == or_default(tcs@[j].function.arguments, "{}"@)) by {
                if j < i {
                    assert(blocks@[k + j] == before[k + j]);
                }
            }
            i = i + 1;
        }
        AnthropicContent::Blocks(blocks)
    } else if let Some(call_id) = &m.tool_call_id {
        let text = match content {
            AnthropicContent::Text(t) => {
                proof {
                    if m.content is Some {
                        let bs = choose|bs: Seq<AnthropicContentBlock>| #[trigger] anthropic_blocks_for(bs, ls) && bs.len() == 1 && (bs[0] matches AnthropicContentBlock::Text { text } && text@ == t@);
                        lemma_block_texts(bs, ls);
                        assert(block_texts(bs) =~= seq![t@]) by {
                            assert(bs.drop_last() =~= Seq::<AnthropicContentBlock>::empty());
                            assert(block_texts(Seq::<AnthropicContentBlock>::empty()) =~= Seq::<Seq<char>>::empty());
                            assert(bs.last() == bs[0]);
                        }
                    } else {
                        assert(ls =~= Seq::<GaiseContent>::empty());
                    }
                }
                t
            },
            AnthropicContent::Blocks(bs) => {
                proof {
                    lemma_block_texts(bs@, ls);
                }
                join_block_texts(&bs)
            },
        };
        AnthropicContent::Blocks(vec![AnthropicContentBlock::ToolResult { tool_use_id: call_id.clone(), content: text }])
    } else {
        content
    };
    AnthropicMessage { role: m.role.clone(), content: final_content }
}

proof fn lemma_same_blocks(a: Seq<AnthropicContentBlock>, b: Seq<AnthropicContentBlock>, ls: Seq<GaiseContent>)
    requires
        anthropic_blocks_for(a, ls),
        a.len() == b.len(),
        forall|i: int| 0 <= i < a.len() ==> (a[i] matches AnthropicContentBlock::Text { text: x } && (b[i] matches AnthropicContentBlock::Text { text: y } && x@ == y@)) || a[i] == b[i],
    ensures
        anthropic_blocks_for(b, ls),
    decreases ls.len(),
{
    if ls.len() > 0 {
        if anthropic_accepts(ls.last()) {
            lemma_same_blocks(a.drop_last(), b.drop_last(), ls.drop_last());
        } else {
            lemma_same_blocks(a, b, ls.drop_last());
        }
    }
}

/// `r` is the wire request for `request`, not streaming.
pub open spec fn anthropic_request_for(r: AnthropicRequest, request: GaiseInstructRequest) -> bool {
    &&& r.model@ == request.model@
    &&& r.messages@.len() == request.input.items().len()
    &&& forall|i: int| 0 <= i < r.messages@.len() ==> anthropic_message_for(#[trigger] r.messages@[i], request.input.items()[i])
    &&& r.max_tokens == match request.generation_config {
        Some(g) => match g.max_tokens {
            Some(n) => n,
            None => DEFAULT_MAX_TOKENS,
        },
        None => DEFAULT_MAX_TOKENS,
    }
    &&& r.system is None
    &&& r.stream == Some(false)
    &&& match request.tools {
        Some(ts) => r.tools matches Some(ots) && ots@.len() == ts@.len() && forall|i: int|
            0 <= i < ts@.len() ==> anthropic_tool_for(#[trigger] ots@[i], ts@[i]),
        None => r.tools is None,
    }
}

impl AnthropicRequest {
    /// The wire request for `request`; system messages stay in the turn list.
    pub fn from(request: &GaiseInstructRequest) -> (r: AnthropicRequest)
        requires
            tools_wf(request.tools),
        ensures
            anthropic_request_for(r, *request),
    {
        let mut messages: Vec<AnthropicMessage> = Vec::new();
        match &request.input {
            OneOrMany::One(m) => {
                messages.push(anthropic_message_from(m));
            },
            OneOrMany::Many(ms) => {
                let mut i: usize = 0;
                while i < ms.len()
                    invariant
                        i <= ms@.len(),
                        request.input == OneOrMany::Many(*ms),
                        messages@.len() == i,
                        forall|j: int| 0 <= j < i ==> anthropic_message_for(#[trigger] messages@[j], ms@[j]),
                    decreases ms@.len() - i,
                {
                    messages.push(anthropic_message_from(&ms[i]));
                    i = i + 1;
                }
            },
        }
        let tools = match &request.tools {
            Some(ts) => {
                let mut out: Vec<AnthropicTool> = Vec::new();
                let mut i: usize = 0;
                while i < ts.len()
                    invariant
                        i <= ts@.len(),
                        forall|j: int| 0 <= j < ts@.len() ==> tool_wf(#[trigger] ts@[j]),
                        out@.len() == i,
                        forall|j: int| 0 <= j < i ==> anthropic_tool_for(#[trigger] out@[j], ts@[j]),
                    decreases ts@.len() - i,
                {
                    assert(tool_wf(ts@[i as int]));
                    out.push(AnthropicTool::from_tool(&ts[i]));
                    i = i + 1;
                }
                Some(out)
            },
            None => None,
        };
        let max_tokens = match &request.generation_config {
            Some(g) => match g.max_tokens {
                Some(n) => n,
                None => DEFAULT_MAX_TOKENS,
            },
            None => DEFAULT_MAX_TOKENS,
        };
        AnthropicRequest {
            model: request.model.clone(),
            messages,
            max_tokens,
            system: None,
            tools,
            stream: Some(false),
        }
    }
}

/// The texts of the text blocks and the tool uses of the rest, in order.
pub open spec fn response_content_for(
    content: Option<OneOrMany<GaiseContent>>,
    calls: Option<Vec<GaiseToolCall>>,
    bs: Seq<AnthropicContentBlock>,
) -> bool {
    let texts = block_texts(bs);
    let uses = block_uses(bs);
    &&& (texts.len() == 0 ==> content is None)
    &&& (texts.len() == 1 ==> (content matches Some(OneOrMany::One(GaiseContent::Text { text })) && text@ == texts[0]))
    &&& (texts.len() > 1 ==> (content matches Some(OneOrMany::Many(items)) && items@.len() == texts.len() && forall|i: int|
        0 <= i < texts.len() ==> (#[trigger] items@[i] matches GaiseContent::Text { text } && text@ == texts[i])))
    &&& (uses.len() == 0 ==> calls is None)
    &&& (uses.len() > 0 ==> (calls matches Some(tcs) && tcs@.len() == uses.len() && forall|i: int|
        0 <= i < uses.len() ==> (#[trigger] tcs@[i]).id@ == uses[i].0 && tcs@[i].kind@ == "function"@
            && tcs@[i].function.name@ == uses[i].1 && (tcs@[i].function.arguments matches Some(a) && a@ == uses[i].2)))
}

/// The (id, name, input) of the tool-use blocks, in order.
pub open spec fn block_uses(bs: Seq<AnthropicContentBlock>) -> Seq<(Seq<char>, Seq<char>, Seq<char>)>
    decreases bs.len(),
{
    if bs.len() == 0 {
        Seq::empty()
    } else {
        block_uses(bs.drop_last()) + match bs.last() {
            AnthropicContentBlock::ToolUse { id, name, input } => seq![(id@, name@, input@)],
            _ => Seq::empty(),
        }
    }
}

/// The unified content and tool calls of a response's blocks.
pub fn map_from_anthropic_content(content: Vec<AnthropicContentBlock>) -> (r: (
    Option<OneOrMany<GaiseContent>>,
    Option<Vec<GaiseToolCall>>,
))
    ensures
        response_content_for(r.0, r.1, content@),
{
    proof {
        reveal_strlit("function");
    }
    let ghost all = content@;
    let mut rest = content;
    let mut texts: Vec<GaiseContent> = Vec::new();
    let mut calls: Vec<GaiseToolCall> = Vec::new();
    let ghost mut i: int = 0;
    while rest.len() > 0
        invariant
            0 <= i <= all.len(),
            rest@ == all.subrange(i, all.len() as int),
            texts@.len() == block_texts(all.take(i)).len(),
            forall|k: int| 0 <= k < texts@.len() ==> (#[trigger] texts@[k] matches GaiseContent::Text { text } && text@ == block_texts(all.take(i))[k]),
            calls@.len() == block_uses(all.take(i)).len(),
            forall|k: int| 0 <= k < calls@.len() ==> (#[trigger] calls@[k]).id@ == block_uses(all.take(i))[k].0
                && calls@[k].kind@ == "function"@ && calls@[k].function.name@ == block_uses(all.take(i))[k].1
                && (calls@[k].function.arguments matches Some(a) && a@ == block_uses(all.take(i))[k].2),
        decreases rest@.len(),
    {
        let b = rest.remove(0);
        proof {
            assert(b == all[i]);
            assert(all.take(i + 1).drop_last() =~= all.take(i));
            assert(all.take(i + 1).last() == all[i]);
        }
        match b {
            AnthropicContentBlock::Text { text } => {
                texts.push(GaiseContent::Text { text });
            },
            AnthropicContentBlock::ToolUse { id, name, input } => {
                calls.push(
                    GaiseToolCall {
                        id,
                        kind: String::from_str("function"),
                        function: GaiseFunctionCall { name, arguments: Some(input) },
                    },
                );
            },
            _ => {},
        }
        proof {
            i = i + 1;
        }
    }
    assert(all.take(i) =~= all);
    let content = if texts.len() == 0 {
        None
    } else if texts.len() == 1 {
        Some(OneOrMany::One(texts.remove(0)))
    } else {
        Some(OneOrMany::Many(texts))
    };
    let tool_calls = if calls.len() == 0 {
        None
    } else {
        Some(calls)
    };
    (content, tool_calls)
}

/// The unified response: one message with the response's role, its usage as
/// input and output tokens, its id as external id.
pub fn instruct_response_from(resp: AnthropicResponse) -> (r: GaiseInstructResponse)
    ensures
        r.output matches OneOrMany::One(m) && m.role@ == resp.role@ && m.tool_call_id is None
            && response_content_for(m.content, m.tool_calls, resp.content@),
        r.external_id matches Some(e) && e@ == resp.id@,
        r.usage matches Some(u) && (u.input matches Some(i) && i.wf() && i@ == map![("input_tokens"@) => resp.usage.input_tokens])
            && (u.output matches Some(o) && o.wf() && o@ == map![("output_tokens"@) => resp.usage.output_tokens]),
{
    let (content, tool_calls) = map_from_anthropic_content(resp.content);
    let mut input = UsageCounts::new();
    input.insert(String::from_str("input_tokens"), resp.usage.input_tokens);
    let mut output = UsageCounts::new();
    output.insert(String::from_str("output_tokens"), resp.usage.output_tokens);
    assert(input@ =~= map![("input_tokens"@) => resp.usage.input_tokens]);
    assert(output@ =~= map![("output_tokens"@) => resp.usage.output_tokens]);
    GaiseInstructResponse {
        output: OneOrMany::One(GaiseMessage { role: resp.role, content, tool_calls, tool_call_id: None }),
        external_id: Some(resp.id),
        usage: Some(GaiseUsage { input: Some(input), output: Some(output) }),
    }
}

/// The stream item of one decoded event: a text or argument delta of a
/// `content_block_delta`, or the id and name of a tool use that a
/// `content_block_start` opens; `None` for any other event.
pub fn stream_item_from(chunk: &AnthropicStreamResponse) -> (r: Option<GaiseInstructStreamResponse>)
    ensures
        r matches Some(x) ==> opt_view(x.external_id) == match chunk.message {
            Some(m) => Some(m.id@),
            None => None,
        },
        chunk.kind@ == "content_block_delta"@ ==> match chunk.delta {
            Some(d) => match d.text {
                Some(t) => r matches Some(x) && (x.chunk matches GaiseStreamChunk::Text(s) && s@ == t@),
                None => match d.partial_json {
                    Some(pj) => r matches Some(x) && (x.chunk matches GaiseStreamChunk::ToolCall { index, id, name, arguments }
                        && index == (match chunk.index { Some(n) => n, None => 0 }) && id is None && name is None
                        && opt_view(arguments) == Some(pj@)),
                    None => r is None,
                },
            },
            None => r is None,
        },
        chunk.kind@ == "content_block_start"@ ==> match chunk.content_block {
            Some(AnthropicContentBlock::ToolUse { id: uid, name: uname, input: _ }) => r matches Some(x) && (
            x.chunk matches GaiseStreamChunk::ToolCall { index, id, name, arguments } && index == (match chunk.index {
                Some(n) => n,
                None => 0,
            }) && opt_view(id) == Some(uid@) && opt_view(name) == Some(uname@) && arguments is None),
            _ => r is None,
        },
        !(chunk.kind@ == "content_block_delta"@ || chunk.kind@ == "content_block_start"@) ==> r is None,
{
    proof {
        reveal_strlit("content_block_delta");
        reveal_strlit("content_block_start");
        assert("content_block_delta"@.len() == 19);
        assert("content_block_start"@[14] != "content_block_delta"@[14]);
    }
    let external_id = match &chunk.message {
        Some(m) => Some(m.id.clone()),
        None => None,
    };
    let index = match chunk.index {
        Some(n) => n,
        None => 0,
    };
    if str_eq(chunk.kind.as_str(), "content_block_delta") {
        if let Some(d) = &chunk.delta {
            if let Some(t) = &d.text {
                return Some(GaiseInstructStreamResponse { chunk: GaiseStreamChunk::Text(t.clone()), external_id });
            }
            if let Some(pj) = &d.partial_json {
                return Some(
                    GaiseInstructStreamResponse {
                        chunk: GaiseStreamChunk::ToolCall { index, id: None, name: None, arguments: Some(pj.clone()) },
                        external_id,
                    },
                );
            }
        }
        return None;
    }
    if str_eq(chunk.kind.as_str(), "content_block_start") {
        if let Some(AnthropicContentBlock::ToolUse { id, name, .. }) = &chunk.content_block {
            return Some(
                GaiseInstructStreamResponse {
                    chunk: GaiseStreamChunk::ToolCall {
                        index,
                        id: Some(id.clone()),
                        name: Some(name.clone()),
                        arguments: None,
                    },
                    external_id,
                },
            );
        }
        return None;
    }
    None
}

/// This API has no embeddings operation.
pub fn embeddings_unsupported() -> (r: GaiseError)
    ensures
        r is UnsupportedOperation,
{
    GaiseError::UnsupportedOperation(String::from_str("Anthropic does not support embeddings API"))
}

} // verus!
