//! The managed-runtime provider's conversation model: which turns it takes,
//! how content becomes its blocks, the first system message as its system
//! prompt, and which embedding model family a model id names.
use vstd::prelude::*;
use vstd::string::*;
use crate::contracts::{
    flatten, flatten_seq, str_eq, GaiseContent, GaiseFunctionCall, GaiseInstructRequest,
    GaiseInstructResponse, GaiseInstructStreamResponse, GaiseMessage, GaiseStreamChunk,
    GaiseToolCall, OneOrMany,
};
use crate::routing::GaiseError;

verus! {

#[derive(Debug)]
pub enum BedrockImageFormat {
    Png,
    Jpeg,
    Webp,
    Gif,
}

#[derive(Debug)]
pub enum BedrockDocumentFormat {
    Pdf,
    Csv,
    Doc,
    Docx,
    Xls,
    Xlsx,
    Html,
    Txt,
    Md,
}

/// A content block of a conversation turn.
#[derive(Debug)]
pub enum BedrockContentBlock {
    Text(String),
    Image { image_format: BedrockImageFormat, bytes: Vec<u8> },
    Document { name: String, document_format: BedrockDocumentFormat, bytes: Vec<u8> },
}

#[derive(Debug)]
pub enum BedrockRole {
    User,
    Assistant,
}

#[derive(Debug)]
pub struct BedrockMessage {
    pub role: BedrockRole,
    pub content: Vec<BedrockContentBlock>,
}

/// A conversation request; tools and sampling settings are attached where
/// the request is sent.
#[derive(Debug)]
pub struct BedrockConversation {
    pub model_id: String,
    pub messages: Vec<BedrockMessage>,
    pub system: Vec<String>,
    pub max_tokens: Option<usize>,
}

/// A block of the model's answer; `input` is the text of a tool use's input.
#[derive(Debug)]
pub enum BedrockOutputBlock {
    Text(String),
    ToolUse { id: String, name: String, input: String },
    Other,
}

/// The embedding model families this provider is called with.
#[derive(Debug)]
pub enum EmbeddingFamily {
    Titan,
    Cohere,
}

/// `s` ends with `t`.
pub open spec fn ends_with(s: Seq<char>, t: Seq<char>) -> bool {
    s.len() >= t.len() && s.skip(s.len() - t.len()) == t
}

/// `t` occurs in `s`.
pub open spec fn contains_seq(s: Seq<char>, t: Seq<char>) -> bool {
    exists|i: int| 0 <= i && i + t.len() <= s.len() && #[trigger] s.subrange(i, i + t.len()) == t
}

fn str_ends_with(s: &str, t: &str) -> (r: bool)
    ensures
        r == ends_with(s@, t@),
{
    let n = s.unicode_len();
    let k = t.unicode_len();
    if n < k {
        return false;
    }
    let tail = s.substring_char(n - k, n);
    assert(tail@ =~= s@.skip(n - k));
    str_eq(tail, t)
}

fn str_contains(s: &str, t: &str) -> (r: bool)
    ensures
        r == contains_seq(s@, t@),
{
    let n = s.unicode_len();
    let k = t.unicode_len();
    if n < k {
        return false;
    }
    if k == 0 {
        assert(s@.subrange(0, 0 + t@.len() as int) =~= t@);
        return true;
    }
    let mut i: usize = 0;
    while i < n - k + 1
        invariant
            n == s@.len(),
            k == t@.len(),
            1 <= k <= n,
            i <= n - k + 1,
            forall|j: int| 0 <= j < i ==> #[trigger] s@.subrange(j, j + k) != t@,
        decreases n - k + 1 - i,
    {
        if str_eq(s.substring_char(i, i + k), t) {
            return true;
        }
        i = i + 1;
    }
    proof {
        if contains_seq(s@, t@) {
            let j = choose|j: int| 0 <= j && j + t@.len() <= s@.len() && #[trigger] s@.subrange(j, j + t@.len()) == t@;
            assert(s@.subrange(j, j + k) != t@);
        }
    }
    false
}

/// The image format a declared format names; JPEG when unknown or absent.
pub open spec fn image_format(f: Option<String>) -> BedrockImageFormat {
    match f {
        Some(s) => if s@ == "png"@ {
            BedrockImageFormat::Png
        } else if s@ == "webp"@ {
            BedrockImageFormat::Webp
        } else if s@ == "gif"@ {
            BedrockImageFormat::Gif
        } else {
            BedrockImageFormat::Jpeg
        },
        None => BedrockImageFormat::Jpeg,
    }
}

/// The document format a file name's extension names; plain text otherwise.
pub open spec fn document_format(name: Option<String>) -> BedrockDocumentFormat {
    match name {
        Some(n) => if ends_with(n@, ".pdf"@) {
            BedrockDocumentFormat::Pdf
        } else if ends_with(n@, ".csv"@) {
            BedrockDocumentFormat::Csv
        } else if ends_with(n@, ".doc"@) {
            BedrockDocumentFormat::Doc
        } else if ends_with(n@, ".docx"@) {
            BedrockDocumentFormat::Docx
        } else if ends_with(n@, ".xls"@) {
            BedrockDocumentFormat::Xls
        } else if ends_with(n@, ".xlsx"@) {
            BedrockDocumentFormat::Xlsx
        } else if ends_with(n@, ".html"@) {
            BedrockDocumentFormat::Html
        } else if ends_with(n@, ".md"@) {
            BedrockDocumentFormat::Md
        } else {
            BedrockDocumentFormat::Txt
        },
        None => BedrockDocumentFormat::Txt,
    }
}

/// Content kinds this provider takes: text, images and files.
pub open spec fn bedrock_accepts(c: GaiseContent) -> bool {
    c is Text || c is Image || c is File
}

/// `b` is the block for the leaf `c`.
pub open spec fn bedrock_block_for(b: BedrockContentBlock, c: GaiseContent) -> bool {
    match c {
        GaiseContent::Text { text } => b matches BedrockContentBlock::Text(t) && t@ == text@,
        GaiseContent::Image { data, format } => b matches BedrockContentBlock::Image { image_format: f, bytes }
            && f == image_format(format) && bytes@ == data@,
        GaiseContent::File { data, name } => b matches BedrockContentBlock::Document { name: n, document_format: df, bytes }
            && n@ == (match name {
            Some(x) => x@,
            None => "document"@,
        }) && df == document_format(name) && bytes@ == data@,
        _ => false,
    }
}

/// `bs` are the blocks for the accepted leaves of `leaves`, in order.
pub open spec fn bedrock_blocks_for(bs: Seq<BedrockContentBlock>, leaves: Seq<GaiseContent>) -> bool
    decreases leaves.len(),
{
    if leaves.len() == 0 {
        bs.len() == 0
    } else if bedrock_accepts(leaves.last()) {
        bs.len() > 0 && bedrock_block_for(bs.last(), leaves.last()) && bedrock_blocks_for(
            bs.drop_last(),
            leaves.drop_last(),
        )
    } else {
        bedrock_blocks_for(bs, leaves.drop_last())
    }
}

fn copy_bytes(v: &Vec<u8>) -> (r: Vec<u8>)
    ensures
        r@ == v@,
{
    let mut r: Vec<u8> = Vec::new();
    let mut i: usize = 0;
    while i < v.len()
        invariant
            i <= v@.len(),
            r@ == v@.take(i as int),
        decreases v@.len() - i,
    {
        r.push(v[i]);
        i = i + 1;
        assert(r@ =~= v@.take(i as int));
    }
    assert(v@.take(i as int) =~= v@);
    r
}

fn image_format_of(f: &Option<String>) -> (r: BedrockImageFormat)
    ensures
        r == image_format(*f),
{
    proof {
        reveal_strlit("png");
        reveal_strlit("jpeg");
        reveal_strlit("jpg");
        reveal_strlit("webp");
        reveal_strlit("gif");
        assert("png"@[0] == 'p' && "jpeg"@[0] == 'j' && "jpg"@[0] == 'j' && "webp"@[0] == 'w' && "gif"@[0] == 'g');
    }
    match f {
        Some(s) => {
            if str_eq(s.as_str(), "png") {
                BedrockImageFormat::Png
            } else if str_eq(s.as_str(), "jpeg") || str_eq(s.as_str(), "jpg") {
                BedrockImageFormat::Jpeg
            } else if str_eq(s.as_str(), "webp") {
                BedrockImageFormat::Webp
            } else if str_eq(s.as_str(), "gif") {
                BedrockImageFormat::Gif
            } else {
                BedrockImageFormat::Jpeg
            }
        },
        None => BedrockImageFormat::Jpeg,
    }
}

fn document_format_of(name: &Option<String>) -> (r: BedrockDocumentFormat)
    ensures
        r == document_format(*name),
{
    match name {
        Some(n) => {
            let n = n.as_str();
            if str_ends_with(n, ".pdf") {
                BedrockDocumentFormat::Pdf
            } else if str_ends_with(n, ".csv") {
                BedrockDocumentFormat::Csv
            } else if str_ends_with(n, ".doc") {
                BedrockDocumentFormat::Doc
            } else if str_ends_with(n, ".docx") {
                BedrockDocumentFormat::Docx
            } else if str_ends_with(n, ".xls") {
                BedrockDocumentFormat::Xls
            } else if str_ends_with(n, ".xlsx") {
                BedrockDocumentFormat::Xlsx
            } else if str_ends_with(n, ".html") {
                BedrockDocumentFormat::Html
            } else if str_ends_with(n, ".md") {
                BedrockDocumentFormat::Md
            } else {
                BedrockDocumentFormat::Txt
            }
        },
        None => BedrockDocumentFormat::Txt,
    }
}

fn push_bedrock_blocks(c: &GaiseContent, out: &mut Vec<BedrockContentBlock>, Ghost(prev): Ghost<Seq<GaiseContent>>)
    requires
        bedrock_blocks_for(old(out)@, prev),
    ensures
        bedrock_blocks_for(final(out)@, prev + flatten(*c)),
    decreases c,
{
    match c {
        GaiseContent::Parts { parts } => {
            let mut j: usize = 0;
            assert(prev + flatten_seq(parts@.take(0)) =~= prev);
            assert forall|k: int| 0 <= k < parts@.len() implies decreases_to!(*c => #[trigger] parts@[k]) by {
                assert(decreases_to!(*c => *parts));
                assert(decreases_to!(*parts => parts@));
            }
            while j < parts.len()
                invariant
                    j <= parts@.len(),
                    forall|k: int| 0 <= k < parts@.len() ==> decreases_to!(*c => #[trigger] parts@[k]),
                    bedrock_blocks_for(out@, prev + flatten_seq(parts@.take(j as int))),
                decreases parts@.len() - j,
            {
                assert(parts@.take(j as int + 1).drop_last() =~= parts@.take(j as int));
                push_bedrock_blocks(&parts[j], out, Ghost(prev + flatten_seq(parts@.take(j as int))));
                assert(prev + flatten_seq(parts@.take(j as int)) + flatten(parts@[j as int]) =~= prev
                    + flatten_seq(parts@.take(j as int + 1)));
                j = j + 1;
            }
            assert(parts@.take(j as int) =~= parts@);
        },
        _ => {
            proof {
                reveal_strlit("document");
            }
            let ghost before = out@;
            let ghost leaves = prev + flatten(*c);
            assert(leaves.drop_last() =~= prev);
            assert(leaves.last() == *c);
            match c {
                GaiseContent::Text { text } => {
                    out.push(BedrockContentBlock::Text(text.clone()));
                    assert(out@.drop_last() =~= before);
                },
                GaiseContent::Image { data, format } => {
                    out.push(BedrockContentBlock::Image { image_format: image_format_of(format), bytes: copy_bytes(data) });
                    assert(out@.drop_last() =~= before);
                },
                GaiseContent::File { data, name } => {
                    let n = match name {
                        Some(x) => x.clone(),
                        None => String::from_str("document"),
                    };
                    out.push(
                        BedrockContentBlock::Document {
                            name: n,
                            document_format: document_format_of(name),
                            bytes: copy_bytes(data),
                        },
                    );
                    assert(out@.drop_last() =~= before);
                },
                _ => {},
            }
        },
    }
}

/// The leaves of an optional content field.
pub open spec fn content_leaves_of(c: Option<OneOrMany<GaiseContent>>) -> Seq<GaiseContent> {
    match c {
        Some(x) => flatten_seq(x.items()),
        None => Seq::empty(),
    }
}

proof fn lemma_turns_skip_outside(out: Seq<BedrockMessage>, ms: Seq<GaiseMessage>, s1: int, s2: int)
    requires
        turns_for(out, ms, s1),
        !(0 <= s1 < ms.len()),
        !(0 <= s2 < ms.len()),
    ensures
        turns_for(out, ms, s2),
    decreases ms.len(),
{
    if ms.len() > 0 {
        if !(ms.last().role@ == "user"@ || ms.last().role@ == "assistant"@) {
            lemma_turns_skip_outside(out, ms.drop_last(), s1, s2);
        } else {
            lemma_turns_skip_outside(out.drop_last(), ms.drop_last(), s1, s2);
        }
    }
}

/// `o` is the turn for `m`: user and assistant turns only, with the blocks
/// of the message's content leaves.
pub open spec fn bedrock_message_for(o: Option<BedrockMessage>, m: GaiseMessage) -> bool {
    if m.role@ == "user"@ {
        o matches Some(b) && b.role is User && bedrock_blocks_for(b.content@, content_leaves_of(m.content))
    } else if m.role@ == "assistant"@ {
        o matches Some(b) && b.role is Assistant && bedrock_blocks_for(b.content@, content_leaves_of(m.content))
    } else {
        o is None
    }
}

/// The turn for a message, or `None` for a role other than user or assistant.
pub fn map_gaise_message_to_bedrock(msg: &GaiseMessage) -> (r: Option<BedrockMessage>)
    ensures
        bedrock_message_for(r, *msg),
{
    proof {
        reveal_strlit("user");
        reveal_strlit("assistant");
    }
    let role = if str_eq(msg.role.as_str(), "user") {
        BedrockRole::User
    } else if str_eq(msg.role.as_str(), "assistant") {
        BedrockRole::Assistant
    } else {
        return None;
    };
    let mut blocks: Vec<BedrockContentBlock> = Vec::new();
    match &msg.content {
        Some(OneOrMany::One(x)) => {
            push_bedrock_blocks(x, &mut blocks, Ghost(Seq::empty()));
            assert(Seq::<GaiseContent>::empty() + flatten(*x) =~= content_leaves_of(msg.content)) by {
                let items = msg.content->Some_0.items();
                assert(items.drop_last() =~= Seq::<GaiseContent>::empty());
                assert(flatten_seq(Seq::<GaiseContent>::empty()) =~= Seq::<GaiseContent>::empty());
            }
        },
        Some(OneOrMany::Many(xs)) => {
            let mut j: usize = 0;
            assert(flatten_seq(xs@.take(0)) =~= Seq::<GaiseContent>::empty());
            while j < xs.len()
                invariant
                    j <= xs@.len(),
                    bedrock_blocks_for(blocks@, flatten_seq(xs@.take(j as int))),
                decreases xs@.len() - j,
            {
                assert(xs@.take(j as int + 1).drop_last() =~= xs@.take(j as int));
                push_bedrock_blocks(&xs[j], &mut blocks, Ghost(flatten_seq(xs@.take(j as int))));
                j = j + 1;
            }
            assert(xs@.take(j as int) =~= xs@);
        },
        None => {},
    }
    Some(BedrockMessage { role, content: blocks })
}

/// The texts of the text items of a system message's content, in order.
pub open spec fn system_texts(c: Option<OneOrMany<GaiseContent>>) -> Seq<Seq<char>> {
    match c {
        Some(OneOrMany::One(GaiseContent::Text { text })) => seq![text@],
        Some(OneOrMany::Many(items)) => item_texts(items@),
        _ => Seq::empty(),
    }
}

pub open spec fn item_texts(items: Seq<GaiseContent>) -> Seq<Seq<char>>
    decreases items.len(),
{
    if items.len() == 0 {
        Seq::empty()
    } else {
        item_texts(items.drop_last()) + match items.last() {
            GaiseContent::Text { text } => seq![text@],
            _ => Seq::empty(),
        }
    }
}

/// The index of the first system message of `ms`, if any.
pub open spec fn first_system(ms: Seq<GaiseMessage>, i: int) -> bool {
    0 <= i < ms.len() && ms[i].role@ == "system"@ && forall|j: int| 0 <= j < i ==> ms[j].role@ != "system"@
}

/// The turns of `ms` other than message `skip`, in order, as
/// `map_gaise_message_to_bedrock` gives them (roles it drops are dropped).
pub open spec fn turns_for(out: Seq<BedrockMessage>, ms: Seq<GaiseMessage>, skip: int) -> bool
    decreases ms.len(),
{
    if ms.len() == 0 {
        out.len() == 0
    } else if ms.len() - 1 == skip || !(ms.last().role@ == "user"@ || ms.last().role@ == "assistant"@) {
        turns_for(out, ms.drop_last(), skip)
    } else {
        out.len() > 0 && bedrock_message_for(Some(out.last()), ms.last()) && turns_for(
            out.drop_last(),
            ms.drop_last(),
            skip,
        )
    }
}

fn texts_of_items(items: &Vec<GaiseContent>) -> (r: Vec<String>)
    ensures
        r@.map_values(|s: String| s@) == item_texts(items@),
{
    let mut r: Vec<String> = Vec::new();
    let mut i: usize = 0;
    assert(r@.map_values(|s: String| s@) =~= item_texts(items@.take(0)));
    while i < items.len()
        invariant
            i <= items@.len(),
            r@.map_values(|s: String| s@) == item_texts(items@.take(i as int)),
        decreases items@.len() - i,
    {
        assert(items@.take(i as int + 1).drop_last() =~= items@.take(i as int));
        assert(items@.take(i as int + 1).last() == items@[i as int]);
        let ghost before = r@;
        if let GaiseContent::Text { text } = &items[i] {
            r.push(text.clone());
            assert(r@.map_values(|s: String| s@) =~= before.map_values(|s: String| s@).push(text@));
        } else {
            assert(r@.map_values(|s: String| s@) =~= item_texts(items@.take(i as int + 1)));
        }
        i = i + 1;
    }
    assert(items@.take(i as int) =~= items@);
    r
}

/// The conversation for `request`: the first system message's text items
/// become the system prompt; every other user or assistant message becomes
/// a turn.
pub fn conversation_from(request: &GaiseInstructRequest) -> (r: BedrockConversation)
    ensures
        r.model_id@ == request.model@,
        r.max_tokens == match request.generation_config {
            Some(g) => g.max_tokens,
            None => None,
        },
        (forall|i: int| 0 <= i < request.input.items().len() ==> request.input.items()[i].role@ != "system"@)
            ==> r.system@.len() == 0 && turns_for(r.messages@, request.input.items(), -1),
        forall|s: int| #[trigger] first_system(request.input.items(), s) ==> r.system@.map_values(|x: String| x@)
            == system_texts(request.input.items()[s].content) && turns_for(r.messages@, request.input.items(), s),
{
    proof {
        reveal_strlit("system");
        reveal_strlit("user");
        reveal_strlit("assistant");
        assert("system"@.len() == 6 && "user"@.len() == 4 && "assistant"@.len() == 9);
    }
    let ghost ms = request.input.items();
    let n: usize = match &request.input {
        OneOrMany::One(_) => 1,
        OneOrMany::Many(v) => v.len(),
    };
    let mut system: Vec<String> = Vec::new();
    let mut messages: Vec<BedrockMessage> = Vec::new();
    let mut seen_system = false;
    let ghost mut skip: int = -1;
    let mut i: usize = 0;
    assert(messages@ =~= Seq::<BedrockMessage>::empty());
    assert(ms.take(0) =~= Seq::<GaiseMessage>::empty());
    while i < n
        invariant
            n == ms.len(),
            ms == request.input.items(),
            i <= n,
            seen_system == (skip != -1),
            skip == -1 ==> system@.len() == 0 && forall|j: int| 0 <= j < i ==> ms[j].role@ != "system"@,
            skip != -1 ==> first_system(ms, skip) && skip < i && system@.map_values(|x: String| x@) == system_texts(ms[skip].content),
            turns_for(messages@, ms.take(i as int), skip),
        decreases n - i,
    {
        let msg: &GaiseMessage = match &request.input {
            OneOrMany::One(m) => m,
            OneOrMany::Many(v) => &v[i],
        };
        assert(*msg == ms[i as int]);
        let ghost pre = ms.take(i as int);
        let ghost post = ms.take(i as int + 1);
        assert(post.drop_last() =~= pre);
        assert(post.last() == ms[i as int]);
        let ghost before = messages@;
        let is_system = str_eq(msg.role.as_str(), "system");
        if is_system && !seen_system {
            system = match &msg.content {
                Some(OneOrMany::One(GaiseContent::Text { text })) => vec![text.clone()],
                Some(OneOrMany::Many(items)) => texts_of_items(items),
                _ => Vec::new(),
            };
            seen_system = true;
            proof {
                lemma_turns_skip_outside(before, pre, -1, i as int);
                skip = i as int;
                assert(system@.map_values(|x: String| x@) =~= system_texts(ms[skip].content));
                assert(turns_for(before, post, skip));
            }
        } else {
            match map_gaise_message_to_bedrock(msg) {
                Some(m) => {
                    messages.push(m);
                    assert(messages@.drop_last() =~= before);
                    assert(turns_for(messages@, post, skip));
                },
                None => {
                    assert(turns_for(messages@, post, skip));
                },
            }
        }
        i = i + 1;
    }
    assert(ms.take(i as int) =~= ms);
    proof {
        assert forall|s: int| #[trigger] first_system(ms, s) implies system@.map_values(|x: String| x@)
            == system_texts(ms[s].content) && turns_for(messages@, ms, s) by {
            if skip == -1 {
                assert(ms[s].role@ != "system"@);
            } else if s < skip {
                assert(ms[s].role@ != "system"@);
            } else if skip < s {
                assert(ms[skip].role@ != "system"@);
            }
        }
    }
    BedrockConversation {
        model_id: request.model.clone(),
        messages,
        system,
        max_tokens: match &request.generation_config {
            Some(g) => g.max_tokens,
            None => None,
        },
    }
}

/// The family of an embedding model id: ids naming `titan` are Titan
/// models, else ids naming `cohere` are Cohere models; others are refused.
pub fn embedding_family(model: &str) -> (r: Result<EmbeddingFamily, GaiseError>)
    ensures
        contains_seq(model@, "titan"@) ==> r matches Ok(EmbeddingFamily::Titan),
        !contains_seq(model@, "titan"@) && contains_seq(model@, "cohere"@) ==> r matches Ok(EmbeddingFamily::Cohere),
        !contains_seq(model@, "titan"@) && !contains_seq(model@, "cohere"@) ==> r matches Err(GaiseError::UnsupportedOperation(_)),
{
    if str_contains(model, "titan") {
        Ok(EmbeddingFamily::Titan)
    } else if str_contains(model, "cohere") {
        Ok(EmbeddingFamily::Cohere)
    } else {
        let msg = String::from_str("Unsupported embedding model: ").concat(model);
        Err(GaiseError::UnsupportedOperation(msg))
    }
}

/// The texts of the text blocks, in order.
pub open spec fn output_texts(bs: Seq<BedrockOutputBlock>) -> Seq<Seq<char>>
    decreases bs.len(),
{
    if bs.len() == 0 {
        Seq::empty()
    } else {
        output_texts(bs.drop_last()) + match bs.last() {
            BedrockOutputBlock::Text(t) => seq![t@],
            _ => Seq::empty(),
        }
    }
}

/// The (id, name, input) of the tool-use blocks, in order.
pub open spec fn output_uses(bs: Seq<BedrockOutputBlock>) -> Seq<(Seq<char>, Seq<char>, Seq<char>)>
    decreases bs.len(),
{
    if bs.len() == 0 {
        Seq::empty()
    } else {
        output_uses(bs.drop_last()) + match bs.last() {
            BedrockOutputBlock::ToolUse { id, name, input } => seq![(id@, name@, input@)],
            _ => Seq::empty(),
        }
    }
}

/// The unified response for the model's answer: one assistant message with
/// the text blocks as text items and the tool uses as tool calls.
pub fn response_from_blocks(blocks: Vec<BedrockOutputBlock>) -> (r: GaiseInstructResponse)
    ensures
        r.external_id is None && r.usage is None,
        r.output matches OneOrMany::One(m) && m.role@ == "assistant"@ && m.tool_call_id is None && {
            let texts = output_texts(blocks@);
            let uses = output_uses(blocks@);
            &&& (texts.len() == 0 ==> m.content is None)
            &&& (texts.len() > 0 ==> (m.content matches Some(OneOrMany::Many(items)) && items@.len() == texts.len()
                && forall|i: int| 0 <= i < texts.len() ==> (#[trigger] items@[i] matches GaiseContent::Text { text }
                && text@ == texts[i])))
            &&& (uses.len() == 0 ==> m.tool_calls is None)
            &&& (uses.len() > 0 ==> (m.tool_calls matches Some(tcs) && tcs@.len() == uses.len() && forall|i: int|
                0 <= i < uses.len() ==> (#[trigger] tcs@[i]).id@ == uses[i].0 && tcs@[i].kind@ == "function"@
                    && tcs@[i].function.name@ == uses[i].1 && (tcs@[i].function.arguments matches Some(a) && a@
                    == uses[i].2)))
        },
{
    proof {
        reveal_strlit("function");
    }
    let ghost all = blocks@;
    let mut rest = blocks;
    let mut texts: Vec<GaiseContent> = Vec::new();
    let mut calls: Vec<GaiseToolCall> = Vec::new();
    let ghost mut i: int = 0;
    while rest.len() > 0
        invariant
            0 <= i <= all.len(),
            rest@ == all.subrange(i, all.len() as int),
            texts@.len() == output_texts(all.take(i)).len(),
            forall|k: int| 0 <= k < texts@.len() ==> (#[trigger] texts@[k] matches GaiseContent::Text { text } && text@ == output_texts(all.take(i))[k]),
            calls@.len() == output_uses(all.take(i)).len(),
            forall|k: int| 0 <= k < calls@.len() ==> (#[trigger] calls@[k]).id@ == output_uses(all.take(i))[k].0
                && calls@[k].kind@ == "function"@ && calls@[k].function.name@ == output_uses(all.take(i))[k].1
                && (calls@[k].function.arguments matches Some(a) && a@ == output_uses(all.take(i))[k].2),
        decreases rest@.len(),
    {
        let b = rest.remove(0);
        proof {
            assert(b == all[i]);
            assert(all.take(i + 1).drop_last() =~= all.take(i));
            assert(all.take(i + 1).last() == all[i]);
        }
        match b {
            BedrockOutputBlock::Text(text) => {
                texts.push(GaiseContent::Text { text });
            },
            BedrockOutputBlock::ToolUse { id, name, input } => {
                calls.push(
                    GaiseToolCall {
                        id,
                        kind: String::from_str("function"),
                        function: GaiseFunctionCall { name, arguments: Some(input) },
                    },
                );
            },
            BedrockOutputBlock::Other => {},
        }
        proof {
            i = i + 1;
        }
    }
    assert(all.take(i) =~= all);
    let content = if texts.len() == 0 {
        None
    } else {
        Some(OneOrMany::Many(texts))
    };
    let tool_calls = if calls.len() == 0 {
        None
    } else {
        Some(calls)
    };
    GaiseInstructResponse {
        output: OneOrMany::One(
            GaiseMessage { role: String::from_str("assistant"), content, tool_calls, tool_call_id: None },
        ),
        external_id: None,
        usage: None,
    }
}

/// The stream item for a text delta of the event stream.
pub fn stream_text_item(text: String) -> (r: GaiseInstructStreamResponse)
    ensures
        r.chunk == GaiseStreamChunk::Text(text),
        r.external_id is None,
{
    GaiseInstructStreamResponse { chunk: GaiseStreamChunk::Text(text), external_id: None }
}

} // verus!
