//! Mapping between the unified contract and the cloud-hosted model API
//! (`contents` of role-tagged parts, a separate system instruction).
use vstd::prelude::*;
use vstd::string::*;
use crate::contracts::{
    clone_opt_string, flatten, flatten_seq, str_eq, GaiseContent, GaiseEmbeddingsRequest,
    GaiseFunctionCall, GaiseInstructRequest, GaiseInstructResponse, GaiseInstructStreamResponse,
    GaiseMessage, GaiseStreamChunk, GaiseToolCall, GaiseToolParameter, GaiseUsage, OneOrMany,
    UsageCounts,
};
use crate::accumulator::opt_view;
use crate::encoding::{base64_encode, base64_of};
use crate::named_map::NamedMap;
use crate::openai::clone_strings;
use crate::routing::or_default;

verus! {

#[derive(Debug)]
pub struct GoogleInstructRequest {
    pub contents: Vec<GoogleContent>,
    pub system_instruction: Option<GoogleContent>,
    pub generation_config: Option<GoogleParameters>,
    pub tools: Option<Vec<GoogleTool>>,
    pub tool_config: Option<GoogleToolConfig>,
}

#[derive(Debug)]
pub struct GoogleTool {
    pub function_declarations: Vec<GoogleFunctionDeclaration>,
}

#[derive(Debug)]
pub struct GoogleFunctionDeclaration {
    pub name: String,
    pub description: String,
    pub parameters: GoogleSchema,
}

#[derive(Debug)]
pub struct GoogleSchema {
    pub kind: String,
    pub description: Option<String>,
    pub properties: Option<NamedMap<GoogleSchema>>,
    pub items: Option<Box<GoogleSchema>>,
    pub required: Option<Vec<String>>,
}

#[derive(Debug)]
pub struct GoogleToolConfig {
    pub function_calling_config: GoogleFunctionCallingConfig,
}

#[derive(Debug)]
pub struct GoogleFunctionCallingConfig {
    pub mode: String,
}

#[derive(Debug)]
pub struct GoogleContent {
    pub role: String,
    pub parts: Vec<GooglePart>,
}

#[derive(Debug)]
pub struct GooglePart {
    pub text: Option<String>,
    pub inline_data: Option<GoogleInlineData>,
    pub tool_call: Option<GoogleFunctionCall>,
    pub tool_response: Option<GoogleToolResponse>,
}

/// A function call; `args` is the JSON text of its arguments.
#[derive(Debug)]
pub struct GoogleFunctionCall {
    pub name: String,
    pub args: String,
}

/// A tool result; `response` is the result text, or `None` for JSON null.
#[derive(Debug)]
pub struct GoogleToolResponse {
    pub name: String,
    pub response: Option<String>,
}

#[derive(Debug)]
pub struct GoogleInlineData {
    pub mime_type: String,
    pub data: String,
}

/// Generation settings; sampling temperatures are added where the request
/// is serialised.
#[derive(Debug)]
pub struct GoogleParameters {
    pub max_output_tokens: Option<usize>,
    pub top_k: Option<usize>,
    pub auto_truncate: Option<bool>,
}

#[derive(Debug)]
pub struct GoogleEmbeddingsRequest {
    pub instances: Vec<GoogleInstance>,
    pub parameters: GoogleParameters,
}

#[derive(Debug)]
pub struct GoogleInstance {
    pub content: Option<String>,
    pub messages: Option<Vec<GoogleMessage>>,
    pub context: Option<String>,
}

#[derive(Debug)]
pub struct GoogleMessage {
    pub content: String,
    pub author: Option<String>,
}

#[derive(Debug)]
pub struct GoogleChatCompletionResponse {
    pub candidates: Vec<GoogleCandidate>,
    pub usage_metadata: GoogleUsageMetadata,
}

#[derive(Debug)]
pub struct GoogleCandidate {
    pub content: GoogleContent,
    pub finish_reason: Option<String>,
}

#[derive(Debug)]
pub struct GoogleEmbeddingsMetadata {
    pub total_billable_characters: Option<usize>,
    pub total_tokens: Option<usize>,
}

#[derive(Debug)]
pub struct GoogleUsageMetadata {
    pub candidates_token_count: Option<usize>,
    pub prompt_token_count: Option<usize>,
    pub total_token_count: Option<usize>,
    pub thoughts_token_count: Option<usize>,
    pub traffic_type: Option<String>,
}

/// The upper-case form of `s`.
pub uninterp spec fn uppercase_of(s: Seq<char>) -> Seq<char>;

/// Relies on `str::to_uppercase`: Unicode upper-case mapping, which depends
/// on the characters alone.
#[verifier::external_body]
fn to_uppercase(s: &str) -> (r: String)
    ensures
        r@ == uppercase_of(s@),
{
    s.to_uppercase()
}

/// This API's role name: `assistant` is `model`, others are kept.
pub open spec fn google_role(r: Seq<char>) -> Seq<char> {
    if r == "assistant"@ {
        "model"@
    } else {
        r
    }
}

/// The unified role name: `model` is `assistant`, others are kept.
pub open spec fn gaise_role(r: Seq<char>) -> Seq<char> {
    if r == "model"@ {
        "assistant"@
    } else {
        r
    }
}

/// The API's role name for a unified role.
pub fn to_google_role(input: &str) -> (r: Option<String>)
    ensures
        r matches Some(s) && s@ == google_role(input@),
{
    proof {
        reveal_strlit("assistant");
        reveal_strlit("model");
    }
    if str_eq(input, "assistant") {
        Some(String::from_str("model"))
    } else {
        Some(input.to_owned())
    }
}

/// The unified role for an API role name.
pub fn to_gaise_role(input: &str) -> (r: Option<String>)
    ensures
        r matches Some(s) && s@ == gaise_role(input@),
{
    proof {
        reveal_strlit("assistant");
        reveal_strlit("model");
    }
    if str_eq(input, "model") {
        Some(String::from_str("assistant"))
    } else {
        Some(input.to_owned())
    }
}

/// `s` ends with `.pdf`.
pub open spec fn is_pdf_name(s: Seq<char>) -> bool {
    s.len() >= 4 && s.skip(s.len() - 4) == ".pdf"@
}

/// The MIME type of a file part.
pub open spec fn file_mime(name: Option<String>) -> Seq<char> {
    match name {
        Some(n) => if is_pdf_name(n@) {
            "application/pdf"@
        } else {
            "application/octet-stream"@
        },
        None => "application/octet-stream"@,
    }
}

pub open spec fn inline_part(p: GooglePart, mime: Seq<char>, data: Seq<u8>) -> bool {
    &&& p.text is None
    &&& p.tool_call is None
    &&& p.tool_response is None
    &&& p.inline_data matches Some(d) && d.mime_type@ == mime && d.data@ == base64_of(data)
}

/// `p` is the part for the leaf `c`: text as text, media inline as base64
/// with a MIME type from the declared format or the kind's default.
pub open spec fn google_part_for(p: GooglePart, c: GaiseContent) -> bool {
    match c {
        GaiseContent::Text { text } => p.text matches Some(t) && t@ == text@ && p.inline_data is None
            && p.tool_call is None && p.tool_response is None,
        GaiseContent::Audio { data, format } => inline_part(p, or_default(format, "audio/mpeg"@), data@),
        GaiseContent::Image { data, format } => inline_part(p, or_default(format, "image/jpeg"@), data@),
        GaiseContent::File { data, name } => inline_part(p, file_mime(name), data@),
        GaiseContent::Parts { .. } => false,
    }
}

/// `ps` are the parts for `leaves`, one each, in order.
pub open spec fn google_parts_for(ps: Seq<GooglePart>, leaves: Seq<GaiseContent>) -> bool {
    ps.len() == leaves.len() && forall|i: int| 0 <= i < ps.len() ==> google_part_for(#[trigger] ps[i], leaves[i])
}

fn ends_with_pdf(s: &str) -> (r: bool)
    ensures
        r == is_pdf_name(s@),
{
    let n = s.unicode_len();
    if n < 4 {
        return false;
    }
    let tail = s.substring_char(n - 4, n);
    assert(tail@ =~= s@.skip(n - 4));
    str_eq(tail, ".pdf")
}

fn inline(mime: String, data: &Vec<u8>) -> (r: GooglePart)
    ensures
        inline_part(r, mime@, data@),
{
    GooglePart {
        text: None,
        inline_data: Some(GoogleInlineData { mime_type: mime, data: base64_encode(data) }),
        tool_call: None,
        tool_response: None,
    }
}

fn text_part(text: String) -> (r: GooglePart)
    ensures
        r.text == Some(text),
        r.inline_data is None && r.tool_call is None && r.tool_response is None,
{
    GooglePart { text: Some(text), inline_data: None, tool_call: None, tool_response: None }
}

fn leaf_part(c: &GaiseContent) -> (r: GooglePart)
    requires
        !(c is Parts),
    ensures
        google_part_for(r, *c),
{
    proof {
        reveal_strlit("audio/mpeg");
        reveal_strlit("image/jpeg");
        reveal_strlit("application/pdf");
        reveal_strlit("application/octet-stream");
    }
    match c {
        GaiseContent::Text { text } => text_part(text.clone()),
        GaiseContent::Audio { data, format } => {
            let mime = match format {
                Some(f) => f.clone(),
                None => String::from_str("audio/mpeg"),
            };
            inline(mime, data)
        },
        GaiseContent::Image { data, format } => {
            let mime = match format {
                Some(f) => f.clone(),
                None => String::from_str("image/jpeg"),
            };
            inline(mime, data)
        },
        GaiseContent::File { data, name } => {
            let pdf = match name {
                Some(n) => ends_with_pdf(n.as_str()),
                None => false,
            };
            let mime = if pdf {
                String::from_str("application/pdf")
            } else {
                String::from_str("application/octet-stream")
            };
            inline(mime, data)
        },
        GaiseContent::Parts { .. } => text_part(String::new()),
    }
}

fn push_google_parts(c: &GaiseContent, out: &mut Vec<GooglePart>, Ghost(prev): Ghost<Seq<GaiseContent>>)
    requires
        google_parts_for(old(out)@, prev),
    ensures
        google_parts_for(final(out)@, prev + flatten(*c)),
    decreases c,
{
    match c {
        GaiseContent::Parts { parts } => {
            let mut j: usize = 0;
            assert(prev + flatten_seq(parts@.take(0)) =~= prev);
            assert forall|k: int| 0 <= k < parts@.len() implies decreases_to!(*c => #[trigger] parts@[k]) by {
                assert(decreases_to!(*c => *parts));
                assert(decreases_to!(*parts => parts@));
            }
            while j < parts.len()
                invariant
                    j <= parts@.len(),
                    forall|k: int| 0 <= k < parts@.len() ==> decreases_to!(*c => #[trigger] parts@[k]),
                    google_parts_for(out@, prev + flatten_seq(parts@.take(j as int))),
                decreases parts@.len() - j,
            {
                assert(parts@.take(j as int + 1).drop_last() =~= parts@.take(j as int));
                push_google_parts(&parts[j], out, Ghost(prev + flatten_seq(parts@.take(j as int))));
                assert(prev + flatten_seq(parts@.take(j as int)) + flatten(parts@[j as int]) =~= prev
                    + flatten_seq(parts@.take(j as int + 1)));
                j = j + 1;
            }
            assert(parts@.take(j as int) =~= parts@);
        },
        _ => {
            let ghost before = out@;
            out.push(leaf_part(c));
            let ghost leaves = prev + flatten(*c);
            assert(leaves =~= prev.push(*c));
            assert forall|i: int| 0 <= i < out@.len() implies google_part_for(#[trigger] out@[i], leaves[i]) by {
                if i < before.len() {
                    assert(out@[i] == before[i]);
                }
            }
        },
    }
}

impl GooglePart {
    /// The parts for a content tree: one per leaf, in order.
    pub fn from_gaise(gaise: &GaiseContent) -> (r: Vec<GooglePart>)
        ensures
            google_parts_for(r@, flatten(*gaise)),
    {
        let mut out: Vec<GooglePart> = Vec::new();
        push_google_parts(gaise, &mut out, Ghost(Seq::empty()));
        assert(Seq::<GaiseContent>::empty() + flatten(*gaise) =~= flatten(*gaise));
        out
    }

    /// The single part for a content item: a tree gives its first leaf's
    /// part, or an empty text part when it has no leaves.
    pub fn from(gaise: &GaiseContent) -> (r: GooglePart)
        ensures
            flatten(*gaise).len() > 0 ==> google_part_for(r, flatten(*gaise)[0]),
            flatten(*gaise).len() == 0 ==> (r.text matches Some(t) && t@.len() == 0),
    {
        match gaise {
            GaiseContent::Parts { .. } => {
                let mut parts = GooglePart::from_gaise(gaise);
                if parts.len() > 0 {
                    parts.remove(0)
                } else {
                    text_part(String::new())
                }
            },
            _ => leaf_part(gaise),
        }
    }
}

impl GoogleContent {
    /// One content of `role` holding the part for `gaise`.
    pub fn from(gaise: &GaiseContent, role: String) -> (r: GoogleContent)
        ensures
            r.role == role,
            r.parts@.len() == 1,
            flatten(*gaise).len() > 0 ==> google_part_for(r.parts@[0], flatten(*gaise)[0]),
            flatten(*gaise).len() == 0 ==> (r.parts@[0].text matches Some(t) && t@.len() == 0),
    {
        GoogleContent { role, parts: vec![GooglePart::from(gaise)] }
    }

    /// One content of `role` holding the parts for every leaf of `gaise`.
    pub fn from_many(gaise: &[GaiseContent], role: String) -> (r: GoogleContent)
        ensures
            r.role == role,
            google_parts_for(r.parts@, flatten_seq(gaise@)),
    {
        let mut parts: Vec<GooglePart> = Vec::new();
        let mut j: usize = 0;
        assert(flatten_seq(gaise@.take(0)) =~= Seq::<GaiseContent>::empty());
        while j < gaise.len()
            invariant
                j <= gaise@.len(),
                google_parts_for(parts@, flatten_seq(gaise@.take(j as int))),
            decreases gaise@.len() - j,
        {
            assert(gaise@.take(j as int + 1).drop_last() =~= gaise@.take(j as int));
            push_google_parts(&gaise[j], &mut parts, Ghost(flatten_seq(gaise@.take(j as int))));
            j = j + 1;
        }
        assert(gaise@.take(j as int) =~= gaise@);
        GoogleContent { role, parts }
    }
}

/// The schema type: absent means `"object"`, and `"text"` is `"string"`.
pub open spec fn google_kind(k: Option<String>) -> Seq<char> {
    match k {
        Some(s) => if s@ == "text"@ {
            "string"@
        } else {
            s@
        },
        None => "object"@,
    }
}

/// The schema for a tool parameter: type `object` when absent, `text` as
/// `string`, properties
/// and items converted at every depth, in order.
pub open spec fn schema_for(g: GoogleSchema, p: GaiseToolParameter) -> bool
    decreases p,
{
    &&& g.kind@ == google_kind(p.kind)
    &&& g.description == p.description
    &&& match p.required {
        None => g.required is None,
        Some(req) => g.required matches Some(gr) && gr@ == req@,
    }
    &&& match p.properties {
        None => g.properties is None,
        Some(props) => g.properties matches Some(gp) && gp.entries@.len() == props.entries@.len()
            && forall|i: int| 0 <= i < props.entries@.len() ==> (#[trigger] gp.entries@[i]).0@
                == props.entries@[i].0@ && schema_for(gp.entries@[i].1, props.entries@[i].1),
    }
    &&& match p.items {
        None => g.items is None,
        Some(pi) => g.items matches Some(gi) && schema_for(*gi, *pi),
    }
}

impl GoogleSchema {
    /// The schema of a tool parameter in this API's dialect.
    pub fn from(source: &GaiseToolParameter) -> (r: GoogleSchema)
        ensures
            schema_for(r, *source),
        decreases source,
    {
        proof {
            reveal_strlit("object");
        }
        proof {
            reveal_strlit("text");
            reveal_strlit("string");
        }
        let kind = match &source.kind {
            Some(k) => if str_eq(k.as_str(), "text") {
                String::from_str("string")
            } else {
                k.clone()
            },
            None => String::from_str("object"),
        };
        let properties = match &source.properties {
            Some(props) => {
                let mut entries: Vec<(String, GoogleSchema)> = Vec::new();
                let mut i: usize = 0;
                assert forall|k: int| 0 <= k < props.entries@.len() implies decreases_to!(*source => #[trigger] props.entries@[k].1) by {
                    assert(decreases_to!(*source => *props));
                    assert(decreases_to!(*props => props.entries));
                    assert(decreases_to!(props.entries => props.entries@));
                    assert(decreases_to!(props.entries@ => props.entries@[k]));
                }
                while i < props.entries.len()
                    invariant
                        i <= props.entries@.len(),
                        forall|k: int| 0 <= k < props.entries@.len() ==> decreases_to!(*source => #[trigger] props.entries@[k].1),
                        entries@.len() == i,
                        forall|k: int| 0 <= k < i ==> (#[trigger] entries@[k]).0@ == props.entries@[k].0@
                            && schema_for(entries@[k].1, props.entries@[k].1),
                    decreases props.entries@.len() - i,
                {
                    let e = &props.entries[i];
                    entries.push((e.0.clone(), GoogleSchema::from(&e.1)));
                    i = i + 1;
                }
                Some(NamedMap { entries })
            },
            None => None,
        };
        let items = match &source.items {
            Some(b) => Some(Box::new(GoogleSchema::from(b))),
            None => None,
        };
        let required = match &source.required {
            Some(req) => Some(clone_strings(req)),
            None => None,
        };
        GoogleSchema { kind, description: clone_opt_string(&source.description), properties, items, required }
    }
}


/// The text of a system message: its content when that is a single text item.
pub open spec fn system_prompt(c: OneOrMany<GaiseContent>) -> Seq<char> {
    match c {
        OneOrMany::One(GaiseContent::Text { text }) => text@,
        _ => Seq::empty(),
    }
}

/// The leaves of a message's content.
pub open spec fn message_leaves(m: GaiseMessage) -> Seq<GaiseContent> {
    match m.content {
        Some(c) => flatten_seq(c.items()),
        None => Seq::empty(),
    }
}

pub open spec fn call_count(m: GaiseMessage) -> nat {
    match m.tool_calls {
        Some(tcs) => tcs@.len(),
        None => 0,
    }
}

/// A message with a tool-call id and content carries a tool result.
pub open spec fn has_tool_result(m: GaiseMessage) -> bool {
    m.tool_call_id is Some && m.content is Some
}

/// The number of parts a non-system message becomes.
pub open spec fn part_count(m: GaiseMessage) -> nat {
    message_leaves(m).len() + call_count(m) + if has_tool_result(m) {
        1nat
    } else {
        0nat
    }
}

/// `p` is the function-call part for `tc`; absent arguments are `{}`.
pub open spec fn call_part(p: GooglePart, tc: GaiseToolCall) -> bool {
    &&& p.text is None
    &&& p.inline_data is None
    &&& p.tool_response is None
    &&& p.tool_call matches Some(fc) && fc.name@ == tc.function.name@ && fc.args@ == or_default(
        tc.function.arguments,
        "{}"@,
    )
}

/// `p` is the tool-result part of `m`: keyed by the call id, holding the
/// content's text when it is a single text item.
pub open spec fn result_part(p: GooglePart, m: GaiseMessage) -> bool {
    &&& p.text is None
    &&& p.inline_data is None
    &&& p.tool_call is None
    &&& p.tool_response matches Some(tr) && Some(tr.name@) == opt_view(m.tool_call_id) && opt_view(tr.response)
        == match m.content {
        Some(OneOrMany::One(GaiseContent::Text { text })) => Some(text@),
        _ => None,
    }
}

/// `ps` are the parts of a non-system message: one per content leaf, then
/// one per tool call, then its tool result if it carries one.
pub open spec fn message_parts_for(ps: Seq<GooglePart>, m: GaiseMessage) -> bool {
    let n = message_leaves(m).len();
    &&& ps.len() == part_count(m)
    &&& google_parts_for(ps.take(n as int), message_leaves(m))
    &&& forall|i: int| 0 <= i < call_count(m) ==> call_part(#[trigger] ps[n + i], m.tool_calls->Some_0@[i])
    &&& has_tool_result(m) ==> result_part(ps.last(), m)
}

/// The conversation state of a request: its contents and system instruction.
pub open spec fn turns(r: GoogleInstructRequest) -> (Seq<GoogleContent>, Option<GoogleContent>) {
    (r.contents@, r.system_instruction)
}

/// A message takes the system slot when it is a system message with
/// content and the slot is still empty.
pub open spec fn takes_system(before: (Seq<GoogleContent>, Option<GoogleContent>), m: GaiseMessage) -> bool {
    m.role@ == "system"@ && before.1 is None && m.content is Some
}

/// `after` is `before` with `m` added.
pub open spec fn added(
    before: (Seq<GoogleContent>, Option<GoogleContent>),
    m: GaiseMessage,
    after: (Seq<GoogleContent>, Option<GoogleContent>),
) -> bool {
    if takes_system(before, m) {
        &&& after.0 == before.0
        &&& after.1 matches Some(si) && si.role@ == "system"@ && si.parts@.len() == 1 && (si.parts@[0].text matches Some(
            t,
        ) && t@ == system_prompt(m.content->Some_0))
    } else {
        &&& after.1 == before.1
        &&& part_count(m) == 0 ==> after.0 == before.0
        &&& part_count(m) > 0 ==> after.0.len() == before.0.len() + 1 && after.0.drop_last() == before.0
            && after.0.last().role@ == google_role(m.role@) && message_parts_for(after.0.last().parts@, m)
    }
}

/// `states` is the run of adding every message of `ms` in order: each
/// state is the one before with the next message added.
pub open spec fn added_chain(
    states: Seq<(Seq<GoogleContent>, Option<GoogleContent>)>,
    ms: Seq<GaiseMessage>,
) -> bool {
    &&& states.len() == ms.len() + 1
    &&& forall|i: int| 0 <= i < ms.len() ==> added(#[trigger] states[i], ms[i], states[i + 1])
}

impl GoogleInstructRequest {
    /// Adds one message: the first system message with content becomes the
    /// system instruction; any other message becomes one content of its
    /// role (`assistant` as `model`) when it yields any part.
    pub fn add_content(&mut self, msg: GaiseMessage)
        ensures
            added(turns(*old(self)), msg, turns(*final(self))),
            final(self).generation_config == old(self).generation_config,
            final(self).tools == old(self).tools,
            final(self).tool_config == old(self).tool_config,
    {
        self.add_message(&msg);
    }

    /// As `add_content`, reading the message in place.
    pub fn add_message(&mut self, msg: &GaiseMessage)
        ensures
            added(turns(*old(self)), *msg, turns(*final(self))),
            final(self).generation_config == old(self).generation_config,
            final(self).tools == old(self).tools,
            final(self).tool_config == old(self).tool_config,
    {
        proof {
            reveal_strlit("system");
            reveal_strlit("{}");
        }
        let is_system = str_eq(msg.role.as_str(), "system");
        if is_system && self.system_instruction.is_none() && msg.content.is_some() {
            let prompt = match &msg.content {
                Some(OneOrMany::One(GaiseContent::Text { text })) => text.clone(),
                _ => String::new(),
            };
            self.system_instruction = Some(GoogleContent { role: String::from_str("system"), parts: vec![text_part(prompt)] });
            return;
        }
        let mut parts: Vec<GooglePart> = Vec::new();
        match &msg.content {
            Some(OneOrMany::One(x)) => {
                push_google_parts(x, &mut parts, Ghost(Seq::empty()));
                assert(Seq::<GaiseContent>::empty() + flatten(*x) =~= message_leaves(*msg)) by {
                    let items = msg.content->Some_0.items();
                    assert(items.drop_last() =~= Seq::<GaiseContent>::empty());
                    assert(flatten_seq(Seq::<GaiseContent>::empty()) =~= Seq::<GaiseContent>::empty());
                }
            },
            Some(OneOrMany::Many(xs)) => {
                let mut j: usize = 0;
                assert(flatten_seq(xs@.take(0)) =~= Seq::<GaiseContent>::empty());
                while j < xs.len()
                    invariant
                        j <= xs@.len(),
                        google_parts_for(parts@, flatten_seq(xs@.take(j as int))),
                    decreases xs@.len() - j,
                {
                    assert(xs@.take(j as int + 1).drop_last() =~= xs@.take(j as int));
                    push_google_parts(&xs[j], &mut parts, Ghost(flatten_seq(xs@.take(j as int))));
                    j = j + 1;
                }
                assert(xs@.take(j as int) =~= xs@);
            },
            None => {},
        }
        let ghost n = message_leaves(*msg).len();
        assert(parts@.len() == n);
        assert(parts@.take(n as int) =~= parts@);
        if let Some(tcs) = &msg.tool_calls {
            let mut i: usize = 0;
            while i < tcs.len()
                invariant
                    i <= tcs@.len(),
                    msg.tool_calls == Some(*tcs),
                    parts@.len() == n + i,
                    google_parts_for(parts@.take(n as int), message_leaves(*msg)),
                    forall|k: int| 0 <= k < i ==> call_part(#[trigger] parts@[n + k], tcs@[k]),
                decreases tcs@.len() - i,
            {
                let tc = &tcs[i];
                let args = match &tc.function.arguments {
                    Some(a) => a.clone(),
                    None => String::from_str("{}"),
                };
                let ghost before = parts@;
                parts.push(
                    GooglePart {
                        text: None,
                        inline_data: None,
                        tool_call: Some(GoogleFunctionCall { name: tc.function.name.clone(), args }),
                        tool_response: None,
                    },
                );
                assert(parts@.take(n as int) =~= before.take(n as int));
                assert forall|k: int| 0 <= k < i + 1 implies call_part(#[trigger] parts@[n + k], tcs@[k]) by {
                    if k < i {
                        assert(parts@[n + k] == before[n + k]);
                    }
                }
                i = i + 1;
            }
        }
        let ghost calls_done = parts@;
        assert(calls_done.len() == n + call_count(*msg));
        if let Some(id) = &msg.tool_call_id {
            if let Some(content) = &msg.content {
                let response = match content {
                    OneOrMany::One(GaiseContent::Text { text }) => Some(text.clone()),
                    _ => None,
                };
                parts.push(
                    GooglePart {
                        text: None,
                        inline_data: None,
                        tool_call: None,
                        tool_response: Some(GoogleToolResponse { name: id.clone(), response }),
                    },
                );
                assert(parts@.take(n as int) =~= calls_done.take(n as int));
                assert forall|k: int| 0 <= k < call_count(*msg) implies call_part(#[trigger] parts@[n + k], msg.tool_calls->Some_0@[k]) by {
                    assert(parts@[n + k] == calls_done[n + k]);
                }
            }
        }
        if parts.len() > 0 {
            let role = match to_google_role(msg.role.as_str()) {
                Some(r) => r,
                None => msg.role.clone(),
            };
            let ghost before = self.contents@;
            self.contents.push(GoogleContent { role, parts });
            assert(self.contents@.drop_last() =~= before);
        }
    }
}


/// The declaration for a tool: its description or empty text, its
/// parameter schema or an empty object.
pub open spec fn declaration_for(d: GoogleFunctionDeclaration, t: crate::contracts::GaiseTool) -> bool {
    &&& d.name@ == t.name@
    &&& d.description@ == or_default(t.description, Seq::empty())
    &&& match t.parameters {
        Some(p) => schema_for(d.parameters, p),
        None => d.parameters.kind@ == "object"@ && d.parameters.description is None && d.parameters.items is None
            && d.parameters.required is None && (d.parameters.properties matches Some(m) && m.entries@.len() == 0),
    }
}

/// `r` is the request for `source` before any message is added.
pub open spec fn request_settings_for(r: GoogleInstructRequest, source: GaiseInstructRequest) -> bool {
    &&& match source.generation_config {
        Some(g) => r.generation_config matches Some(p) && p.max_output_tokens == g.max_tokens && p.top_k == g.top_k
            && p.auto_truncate is None,
        None => r.generation_config is None,
    }
    &&& match source.tools {
        Some(ts) => r.tools matches Some(gts) && gts@.len() == 1 && gts@[0].function_declarations@.len() == ts@.len()
            && forall|i: int| 0 <= i < ts@.len() ==> declaration_for(#[trigger] gts@[0].function_declarations@[i], ts@[i]),
        None => r.tools is None,
    }
    &&& match source.tool_config {
        Some(tc) => r.tool_config matches Some(c) && c.function_calling_config.mode@ == uppercase_of(
            or_default(tc.mode, "AUTO"@),
        ),
        None => r.tool_config is None,
    }
}

impl GoogleInstructRequest {
    /// The request for `source`: settings mapped, then every input message
    /// added in order.
    pub fn from(source: &GaiseInstructRequest) -> (r: GoogleInstructRequest)
        ensures
            request_settings_for(r, *source),
            exists|states: Seq<(Seq<GoogleContent>, Option<GoogleContent>)>|
                #[trigger] added_chain(states, source.input.items()) && states[0] == (Seq::<GoogleContent>::empty(), None::<GoogleContent>)
                    && states.last() == turns(r),
    {
        proof {
            reveal_strlit("object");
            reveal_strlit("AUTO");
        }
        let generation_config = match &source.generation_config {
            Some(g) => Some(GoogleParameters { max_output_tokens: g.max_tokens, top_k: g.top_k, auto_truncate: None }),
            None => None,
        };
        let tools = match &source.tools {
            Some(ts) => {
                let mut decls: Vec<GoogleFunctionDeclaration> = Vec::new();
                let mut i: usize = 0;
                while i < ts.len()
                    invariant
                        i <= ts@.len(),
                        decls@.len() == i,
                        forall|k: int| 0 <= k < i ==> declaration_for(#[trigger] decls@[k], ts@[k]),
                    decreases ts@.len() - i,
                {
                    let t = &ts[i];
                    let parameters = match &t.parameters {
                        Some(p) => GoogleSchema::from(p),
                        None => GoogleSchema {
                            kind: String::from_str("object"),
                            description: None,
                            properties: Some(NamedMap { entries: Vec::new() }),
                            items: None,
                            required: None,
                        },
                    };
                    let description = match &t.description {
                        Some(d) => d.clone(),
                        None => String::new(),
                    };
                    decls.push(GoogleFunctionDeclaration { name: t.name.clone(), description, parameters });
                    i = i + 1;
                }
                Some(vec![GoogleTool { function_declarations: decls }])
            },
            None => None,
        };
        let tool_config = match &source.tool_config {
            Some(tc) => {
                let mode = match &tc.mode {
                    Some(m) => m.clone(),
                    None => String::from_str("AUTO"),
                };
                Some(GoogleToolConfig { function_calling_config: GoogleFunctionCallingConfig { mode: to_uppercase(mode.as_str()) } })
            },
            None => None,
        };
        let mut request = GoogleInstructRequest {
            contents: Vec::new(),
            system_instruction: None,
            generation_config,
            tools,
            tool_config,
        };
        let ghost start = turns(request);
        assert(start == (Seq::<GoogleContent>::empty(), None::<GoogleContent>));
        match &source.input {
            OneOrMany::One(m) => {
                request.add_message(m);
                proof {
                    let ms = source.input.items();
                    let states = seq![start, turns(request)];
                    assert(ms[0] == *m);
                    assert(added_chain(states, ms));
                }
            },
            OneOrMany::Many(ms) => {
                let mut i: usize = 0;
                let ghost mut states = seq![start];
                while i < ms.len()
                    invariant
                        i <= ms@.len(),
                        source.input == OneOrMany::Many(*ms),
                        request_settings_for(request, *source),
                        states.len() == i + 1,
                        states[0] == start,
                        states.last() == turns(request),
                        forall|k: int| 0 <= k < i ==> added(#[trigger] states[k], ms@[k], states[k + 1]),
                    decreases ms@.len() - i,
                {
                    let ghost mid = turns(request);
                    request.add_message(&ms[i]);
                    proof {
                        let prev = states;
                        states = states.push(turns(request));
                        assert forall|k: int| 0 <= k < i + 1 implies added(#[trigger] states[k], ms@[k], states[k + 1]) by {
                            if k < i {
                                assert(states[k] == prev[k] && states[k + 1] == prev[k + 1]);
                            }
                        }
                    }
                    i = i + 1;
                }
                assert(added_chain(states, source.input.items()));
            },
        }
        request
    }
}

/// The texts of the parts that have text, in order.
pub open spec fn part_texts(ps: Seq<GooglePart>) -> Seq<Seq<char>>
    decreases ps.len(),
{
    if ps.len() == 0 {
        Seq::empty()
    } else {
        part_texts(ps.drop_last()) + match ps.last().text {
            Some(t) => seq![t@],
            None => Seq::empty(),
        }
    }
}

/// The (name, arguments) of the parts that hold a function call, in order.
pub open spec fn part_calls(ps: Seq<GooglePart>) -> Seq<(Seq<char>, Seq<char>)>
    decreases ps.len(),
{
    if ps.len() == 0 {
        Seq::empty()
    } else {
        part_calls(ps.drop_last()) + match ps.last().tool_call {
            Some(fc) => seq![(fc.name@, fc.args@)],
            None => Seq::empty(),
        }
    }
}

/// `m` is the unified message for a candidate's content: role mapped back,
/// its texts as text items, its function calls as tool calls.
pub open spec fn candidate_message_for(m: GaiseMessage, c: GoogleContent) -> bool {
    let texts = part_texts(c.parts@);
    let calls = part_calls(c.parts@);
    &&& m.role@ == gaise_role(c.role@)
    &&& m.tool_call_id is None
    &&& (texts.len() == 0 ==> m.content is None)
    &&& (texts.len() > 0 ==> (m.content matches Some(OneOrMany::Many(items)) && items@.len() == texts.len()
        && forall|i: int| 0 <= i < texts.len() ==> (#[trigger] items@[i] matches GaiseContent::Text { text } && text@
            == texts[i])))
    &&& (calls.len() == 0 ==> m.tool_calls is None)
    &&& (calls.len() > 0 ==> (m.tool_calls matches Some(tcs) && tcs@.len() == calls.len() && forall|i: int|
        0 <= i < calls.len() ==> (#[trigger] tcs@[i]).id@.len() == 0 && tcs@[i].kind@ == "function"@
            && tcs@[i].function.name@ == calls[i].0 && (tcs@[i].function.arguments matches Some(a) && a@
            == calls[i].1)))
}

fn candidate_message(c: &GoogleContent) -> (m: GaiseMessage)
    ensures
        candidate_message_for(m, *c),
{
    proof {
        reveal_strlit("function");
    }
    let mut contents: Vec<GaiseContent> = Vec::new();
    let mut tool_calls: Vec<GaiseToolCall> = Vec::new();
    let mut i: usize = 0;
    while i < c.parts.len()
        invariant
            i <= c.parts@.len(),
            contents@.len() == part_texts(c.parts@.take(i as int)).len(),
            forall|k: int| 0 <= k < contents@.len() ==> (#[trigger] contents@[k] matches GaiseContent::Text { text }
                && text@ == part_texts(c.parts@.take(i as int))[k]),
            tool_calls@.len() == part_calls(c.parts@.take(i as int)).len(),
            forall|k: int| 0 <= k < tool_calls@.len() ==> (#[trigger] tool_calls@[k]).id@.len() == 0
                && tool_calls@[k].kind@ == "function"@ && tool_calls@[k].function.name@ == part_calls(c.parts@.take(i as int))[k].0
                && (tool_calls@[k].function.arguments matches Some(a) && a@ == part_calls(c.parts@.take(i as int))[k].1),
        decreases c.parts@.len() - i,
    {
        let p = &c.parts[i];
        proof {
            assert(c.parts@.take(i as int + 1).drop_last() =~= c.parts@.take(i as int));
            assert(c.parts@.take(i as int + 1).last() == c.parts@[i as int]);
        }
        if let Some(t) = &p.text {
            contents.push(GaiseContent::Text { text: t.clone() });
        }
        if let Some(fc) = &p.tool_call {
            tool_calls.push(
                GaiseToolCall {
                    id: String::new(),
                    kind: String::from_str("function"),
                    function: GaiseFunctionCall { name: fc.name.clone(), arguments: Some(fc.args.clone()) },
                },
            );
        }
        i = i + 1;
    }
    assert(c.parts@.take(i as int) =~= c.parts@);
    let role = match to_gaise_role(c.role.as_str()) {
        Some(r) => r,
        None => String::from_str("assistant"),
    };
    GaiseMessage {
        role,
        content: if contents.len() == 0 {
            None
        } else {
            Some(OneOrMany::Many(contents))
        },
        tool_calls: if tool_calls.len() == 0 {
            None
        } else {
            Some(tool_calls)
        },
        tool_call_id: None,
    }
}

impl GoogleChatCompletionResponse {
    /// The unified response: one message per candidate, in order.
    pub fn to_view(&self) -> (r: GaiseInstructResponse)
        ensures
            r.output matches OneOrMany::Many(ms) && ms@.len() == self.candidates@.len() && forall|i: int|
                0 <= i < ms@.len() ==> candidate_message_for(#[trigger] ms@[i], self.candidates@[i].content),
            r.external_id is None,
            r.usage is None,
    {
        let mut out: Vec<GaiseMessage> = Vec::new();
        let mut i: usize = 0;
        while i < self.candidates.len()
            invariant
                i <= self.candidates@.len(),
                out@.len() == i,
                forall|k: int| 0 <= k < i ==> candidate_message_for(#[trigger] out@[k], self.candidates@[k].content),
            decreases self.candidates@.len() - i,
        {
            out.push(candidate_message(&self.candidates[i].content));
            i = i + 1;
        }
        GaiseInstructResponse { output: OneOrMany::Many(out), external_id: None, usage: None }
    }
}

impl GoogleEmbeddingsRequest {
    /// One instance per input text, with automatic truncation.
    pub fn from(model: &GaiseEmbeddingsRequest) -> (r: GoogleEmbeddingsRequest)
        ensures
            r.instances@.len() == model.input.items().len(),
            forall|i: int| 0 <= i < r.instances@.len() ==> ((#[trigger] r.instances@[i]).content matches Some(c)
                && c@ == model.input.items()[i]@ && r.instances@[i].messages is None && r.instances@[i].context is None),
            r.parameters.auto_truncate == Some(true),
            r.parameters.max_output_tokens is None && r.parameters.top_k is None,
    {
        let mut instances: Vec<GoogleInstance> = Vec::new();
        match &model.input {
            OneOrMany::One(x) => {
                instances.push(GoogleInstance { content: Some(x.clone()), messages: None, context: None });
            },
            OneOrMany::Many(xs) => {
                let mut i: usize = 0;
                while i < xs.len()
                    invariant
                        i <= xs@.len(),
                        model.input == OneOrMany::Many(*xs),
                        instances@.len() == i,
                        forall|k: int| 0 <= k < i ==> ((#[trigger] instances@[k]).content matches Some(c) && c@ == xs@[k]@
                            && instances@[k].messages is None && instances@[k].context is None),
                    decreases xs@.len() - i,
                {
                    instances.push(GoogleInstance { content: Some(xs[i].clone()), messages: None, context: None });
                    i = i + 1;
                }
            },
        }
        GoogleEmbeddingsRequest {
            instances,
            parameters: GoogleParameters { max_output_tokens: None, top_k: None, auto_truncate: Some(true) },
        }
    }
}


/// How many stream items a part yields: one for its text, one for its call.
pub open spec fn part_item_count(p: GooglePart) -> nat {
    (if p.text is Some {
        1nat
    } else {
        0nat
    }) + (if p.tool_call is Some {
        1nat
    } else {
        0nat
    })
}

pub open spec fn parts_item_count(ps: Seq<GooglePart>) -> nat
    decreases ps.len(),
{
    if ps.len() == 0 {
        0
    } else {
        parts_item_count(ps.drop_last()) + part_item_count(ps.last())
    }
}

/// `items` are the stream items of a candidate's parts, in order: a part's
/// text, then its function call indexed by the part's position.
pub open spec fn parts_items_ok(items: Seq<GaiseInstructStreamResponse>, ps: Seq<GooglePart>) -> bool
    decreases ps.len(),
{
    if ps.len() == 0 {
        items.len() == 0
    } else {
        let p = ps.last();
        let k = part_item_count(p);
        let n = items.len();
        &&& n >= k
        &&& parts_items_ok(items.take(n - k), ps.drop_last())
        &&& (p.text matches Some(t) ==> (items[n - k].chunk matches GaiseStreamChunk::Text(s) && s@ == t@
            && items[n - k].external_id is None))
        &&& (p.tool_call matches Some(fc) ==> (items[n - 1].chunk matches GaiseStreamChunk::ToolCall {
            index,
            id,
            name,
            arguments,
        } && index == ps.len() - 1 && id is None && opt_view(name) == Some(fc.name@) && opt_view(arguments)
            == Some(fc.args@) && items[n - 1].external_id is None))
    }
}

/// `items` are the stream items of every candidate, in order.
pub open spec fn candidates_items_ok(items: Seq<GaiseInstructStreamResponse>, cs: Seq<GoogleCandidate>) -> bool
    decreases cs.len(),
{
    if cs.len() == 0 {
        items.len() == 0
    } else {
        let k = parts_item_count(cs.last().content.parts@);
        let n = items.len();
        &&& n >= k
        &&& candidates_items_ok(items.take(n - k), cs.drop_last())
        &&& parts_items_ok(items.skip(n - k), cs.last().content.parts@)
    }
}

proof fn lemma_parts_items_len(items: Seq<GaiseInstructStreamResponse>, ps: Seq<GooglePart>)
    requires
        parts_items_ok(items, ps),
    ensures
        items.len() == parts_item_count(ps),
    decreases ps.len(),
{
    if ps.len() > 0 {
        let k = part_item_count(ps.last());
        lemma_parts_items_len(items.take(items.len() - k), ps.drop_last());
    }
}

pub open spec fn count_map(name: Seq<char>, v: Option<usize>) -> Map<Seq<char>, usize> {
    match v {
        Some(n) => map![name => n],
        None => Map::empty(),
    }
}

/// The usage that the metadata reports: prompt tokens as input; candidate
/// and total tokens as output; a side with no count is absent.
pub open spec fn metadata_usage_ok(u: GaiseUsage, m: GoogleUsageMetadata) -> bool {
    let input = count_map("prompt_tokens"@, m.prompt_token_count);
    let output = count_map("candidates_tokens"@, m.candidates_token_count).union_prefer_right(
        count_map("total_tokens"@, m.total_token_count),
    );
    &&& (m.prompt_token_count is None ==> u.input is None)
    &&& (m.prompt_token_count is Some ==> (u.input matches Some(c) && c.wf() && c@ == input))
    &&& (m.candidates_token_count is None && m.total_token_count is None ==> u.output is None)
    &&& (!(m.candidates_token_count is None && m.total_token_count is None) ==> (u.output matches Some(c) && c.wf()
        && c@ == output))
}

pub open spec fn has_counts(m: GoogleUsageMetadata) -> bool {
    m.prompt_token_count is Some || m.candidates_token_count is Some || m.total_token_count is Some
}

fn add_count(c: &mut UsageCounts, name: &str, v: Option<usize>)
    requires
        old(c).wf(),
        !old(c)@.contains_key(name@),
    ensures
        final(c).wf(),
        final(c)@ == old(c)@.union_prefer_right(count_map(name@, v)),
{
    if let Some(n) = v {
        c.insert(name.to_owned(), n);
        assert(final(c)@ =~= old(c)@.union_prefer_right(count_map(name@, v)));
    } else {
        assert(old(c)@ =~= old(c)@.union_prefer_right(count_map(name@, v)));
    }
}

impl GoogleChatCompletionResponse {
    /// The stream items of one decoded frame: a usage item first when the
    /// metadata holds any count, then each candidate's part items in order.
    pub fn to_stream_view(&self) -> (r: Vec<GaiseInstructStreamResponse>)
        ensures
            has_counts(self.usage_metadata) ==> (r@.len() > 0 && (r@[0].chunk matches GaiseStreamChunk::Usage(u)
                && metadata_usage_ok(u, self.usage_metadata)) && r@[0].external_id is None && candidates_items_ok(
                r@.skip(1),
                self.candidates@,
            )),
            !has_counts(self.usage_metadata) ==> candidates_items_ok(r@, self.candidates@),
    {
        proof {
            reveal_strlit("prompt_tokens");
            reveal_strlit("candidates_tokens");
            reveal_strlit("total_tokens");
        }
        let m = &self.usage_metadata;
        let mut responses: Vec<GaiseInstructStreamResponse> = Vec::new();
        let mut input = UsageCounts::new();
        add_count(&mut input, "prompt_tokens", m.prompt_token_count);
        let mut output = UsageCounts::new();
        add_count(&mut output, "candidates_tokens", m.candidates_token_count);
        assert(!output@.contains_key("total_tokens"@)) by {
            assert("total_tokens"@.len() != "candidates_tokens"@.len());
        }
        add_count(&mut output, "total_tokens", m.total_token_count);
        assert(count_map("candidates_tokens"@, m.candidates_token_count) =~= Map::<Seq<char>, usize>::empty().union_prefer_right(count_map("candidates_tokens"@, m.candidates_token_count)));
        let has_input = m.prompt_token_count.is_some();
        let has_output = m.candidates_token_count.is_some() || m.total_token_count.is_some();
        if has_input || has_output {
            let usage = GaiseUsage {
                input: if has_input { Some(input) } else { None },
                output: if has_output { Some(output) } else { None },
            };
            assert(input@ =~= count_map("prompt_tokens"@, m.prompt_token_count));
            responses.push(GaiseInstructStreamResponse { chunk: GaiseStreamChunk::Usage(usage), external_id: None });
        }
        let ghost off = responses@.len();
        assert(responses@.skip(off as int) =~= Seq::<GaiseInstructStreamResponse>::empty());
        let mut j: usize = 0;
        while j < self.candidates.len()
            invariant
                j <= self.candidates@.len(),
                off <= responses@.len(),
                off == (if has_counts(self.usage_metadata) { 1int } else { 0int }),
                has_counts(self.usage_metadata) ==> (responses@[0].chunk matches GaiseStreamChunk::Usage(u)
                    && metadata_usage_ok(u, self.usage_metadata)) && responses@[0].external_id is None,
                candidates_items_ok(responses@.skip(off as int), self.candidates@.take(j as int)),
            decreases self.candidates@.len() - j,
        {
            let parts = &self.candidates[j].content.parts;
            let ghost before = responses@;
            let mut cand: Vec<GaiseInstructStreamResponse> = Vec::new();
            let mut i: usize = 0;
            while i < parts.len()
                invariant
                    i <= parts@.len(),
                    parts_items_ok(cand@, parts@.take(i as int)),
                decreases parts@.len() - i,
            {
                let p = &parts[i];
                let ghost b = cand@;
                proof {
                    assert(parts@.take(i as int + 1).drop_last() =~= parts@.take(i as int));
                    assert(parts@.take(i as int + 1).last() == parts@[i as int]);
                }
                if let Some(t) = &p.text {
                    cand.push(GaiseInstructStreamResponse { chunk: GaiseStreamChunk::Text(t.clone()), external_id: None });
                }
                if let Some(fc) = &p.tool_call {
                    cand.push(
                        GaiseInstructStreamResponse {
                            chunk: GaiseStreamChunk::ToolCall {
                                index: i,
                                id: None,
                                name: Some(fc.name.clone()),
                                arguments: Some(fc.args.clone()),
                            },
                            external_id: None,
                        },
                    );
                }
                proof {
                    let k = part_item_count(parts@[i as int]);
                    assert(cand@.take(cand@.len() - k) =~= b);
                }
                i = i + 1;
            }
            assert(parts@.take(i as int) =~= parts@);
            let ghost cand_all = cand@;
            proof {
                lemma_parts_items_len(cand@, parts@);
            }
            responses.append(&mut cand);
            proof {
                let all = responses@.skip(off as int);
                let cs = self.candidates@.take(j as int + 1);
                let n = all.len();
                let k = parts_item_count(parts@);
                assert(cs.drop_last() =~= self.candidates@.take(j as int));
                assert(cs.last() == self.candidates@[j as int]);
                assert(all.take(n - k) =~= before.skip(off as int));
                assert(all.skip(n - k) =~= responses@.skip(before.len() as int));
                assert(responses@.skip(before.len() as int) =~= cand_all);
                if off == 1 {
                    assert(responses@[0] == before[0]);
                }
            }
            j = j + 1;
        }
        assert(self.candidates@.take(j as int) =~= self.candidates@);
        assert(off == 0 ==> responses@.skip(0) =~= responses@);
        responses
    }
}

} // verus!
