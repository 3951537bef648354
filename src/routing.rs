//! Model identifiers, provider selection, the adapter cache and the
//! stream filter of the routing registry.
use vstd::prelude::*;
use vstd::string::*;
use crate::contracts::{
    clone_opt_string, str_eq, GaiseEmbeddingsRequest, GaiseInstructRequest,
    GaiseInstructStreamResponse, GaiseStreamChunk,
};
use crate::named_map::NamedMap;
use crate::token::ServiceAccount;

verus! {

/// The failures of the unified contract.
#[derive(Debug)]
pub enum GaiseError {
    /// The model identifier has no `::`.
    BadModelFormat,
    /// No adapter is known under the provider name.
    UnknownOrDisabledProvider(String),
    /// The provider's configuration lacks a required value; names it.
    ProviderConfigMissing(String),
    /// The upstream answered with a non-success status; holds its body.
    UpstreamHttpError(String),
    /// The upstream's answer could not be decoded.
    UpstreamDecodeError(String),
    /// A credential could not be signed or exchanged.
    AuthError(String),
    /// The adapter cannot perform the operation.
    UnsupportedOperation(String),
}

/// `::` starts at `i`.
pub open spec fn sep_at(s: Seq<char>, i: int) -> bool {
    0 <= i && i + 1 < s.len() && s[i] == ':' && s[i + 1] == ':'
}

/// `i` is where the first `::` starts.
pub open spec fn first_sep(s: Seq<char>, i: int) -> bool {
    sep_at(s, i) && forall|j: int| 0 <= j < i ==> !sep_at(s, j)
}

pub open spec fn has_sep(s: Seq<char>) -> bool {
    exists|i: int| sep_at(s, i)
}

/// Splits `provider::model_id` at the first `::`; the model id may hold
/// further `::`.
pub fn parse_model(model: &str) -> (r: Result<(&str, &str), GaiseError>)
    ensures
        r is Err <==> !has_sep(model@),
        r matches Err(e) ==> e is BadModelFormat,
        r matches Ok((p, m)) ==> exists|i: int|
            #[trigger] first_sep(model@, i) && p@ == model@.take(i) && m@ == model@.skip(i + 2),
{
    let n = model.unicode_len();
    let mut i: usize = 0;
    while n > 0 && i < n - 1
        invariant
            n == model@.len(),
            forall|j: int| 0 <= j < i ==> !sep_at(model@, j),
        decreases n - i,
    {
        if model.get_char(i) == ':' && model.get_char(i + 1) == ':' {
            let p = model.substring_char(0, i);
            let m = model.substring_char(i + 2, n);
            assert(first_sep(model@, i as int));
            assert(p@ =~= model@.take(i as int));
            assert(m@ =~= model@.skip(i as int + 2));
            return Ok((p, m));
        }
        i = i + 1;
    }
    assert forall|j: int| !sep_at(model@, j) by {
        if sep_at(model@, j) {
            assert(j < i);
        }
    }
    Err(GaiseError::BadModelFormat)
}

/// Each `::`-free identifier is refused.
pub proof fn lemma_no_separator_is_refused(s: Seq<char>)
    requires
        forall|i: int| 0 <= i && i + 1 < s.len() ==> !(#[trigger] s[i] == ':' && s[i + 1] == ':'),
    ensures
        !has_sep(s),
{
}

/// `p::m` splits into `p` and `m` whenever `p` holds no `::` and does not
/// end with `:` (for `a:` the first `::` of `a:::m` starts inside `p`): the
/// first `::` is the one after `p`, so `parse_model` returns `(p, m)` and the
/// routed request carries the model `m`.
pub proof fn lemma_split_provider(p: Seq<char>, m: Seq<char>, i: int)
    requires
        !has_sep(p),
        !(p.len() > 0 && p.last() == ':'),
        first_sep(p + seq![':', ':'] + m, i),
    ensures
        i == p.len(),
        (p + seq![':', ':'] + m).take(i) == p,
        (p + seq![':', ':'] + m).skip(i + 2) == m,
{
    let s = p + seq![':', ':'] + m;
    assert(s.take(p.len() as int) =~= p);
    assert(s.skip(p.len() as int + 2) =~= m);
    assert forall|j: int| 0 <= j < p.len() implies !sep_at(s, j) by {
        assert(s[j] == p[j]);
        if j + 1 < p.len() {
            assert(s[j + 1] == p[j + 1]);
            assert(!sep_at(p, j));
        } else {
            assert(p[j] == p.last());
        }
    }
    assert(sep_at(s, p.len() as int));
    if i > p.len() {
        assert(!sep_at(s, p.len() as int));
    }
}

/// The configuration that adapters are built from.
#[derive(Debug)]
pub struct GaiseClientConfig {
    pub ollama_url: Option<String>,
    pub vertexai_api_url: Option<String>,
    pub vertexai_sa: Option<ServiceAccount>,
    pub openai_api_url: Option<String>,
    pub openai_api_key: Option<String>,
    pub bedrock_region: Option<String>,
    pub anthropic_api_url: Option<String>,
    pub anthropic_api_key: Option<String>,
}

/// Which adapter to build for a provider, and from what.
#[derive(Debug)]
pub enum ClientPlan {
    Ollama { url: String },
    VertexAI { account: ServiceAccount, api_url: String },
    OpenAI { api_url: String, api_key: String },
    Bedrock { region: Option<String> },
    Anthropic { api_url: String, api_key: String },
}

pub open spec fn or_default(o: Option<String>, d: Seq<char>) -> Seq<char> {
    match o {
        Some(s) => s@,
        None => d,
    }
}

fn string_or(o: &Option<String>, d: &str) -> (r: String)
    ensures
        r@ == or_default(*o, d@),
{
    match o {
        Some(s) => s.clone(),
        None => d.to_owned(),
    }
}

/// Decides which adapter a provider name asks for and checks that its
/// configuration is complete. Absent URLs take the providers' public
/// defaults; absent credentials are refused.
pub fn plan_client(config: &GaiseClientConfig, provider: &str) -> (r: Result<ClientPlan, GaiseError>)
    ensures
        provider@ == "ollama"@ ==> (r matches Ok(ClientPlan::Ollama { url })
            && url@ == or_default(config.ollama_url, "http://localhost:11434"@)),
        provider@ == "vertexai"@ ==> match (config.vertexai_sa, config.vertexai_api_url) {
            (Some(sa), Some(u)) => r matches Ok(ClientPlan::VertexAI { account, api_url })
                && account.private_key@ == sa.private_key@ && account.client_email@ == sa.client_email@
                && api_url@ == u@,
            (None, _) => r matches Err(GaiseError::ProviderConfigMissing(m))
                && m@ == "VertexAI Service Account not configured"@,
            (Some(_), None) => r matches Err(GaiseError::ProviderConfigMissing(m))
                && m@ == "VertexAI API URL not configured"@,
        },
        provider@ == "openai"@ ==> match config.openai_api_key {
            Some(k) => r matches Ok(ClientPlan::OpenAI { api_url, api_key })
                && api_url@ == or_default(config.openai_api_url, "https://api.openai.com/v1"@)
                && api_key@ == k@,
            None => r matches Err(GaiseError::ProviderConfigMissing(m))
                && m@ == "OpenAI API Key not configured"@,
        },
        provider@ == "bedrock"@ ==> (r matches Ok(ClientPlan::Bedrock { region })
            && region == config.bedrock_region),
        provider@ == "anthropic"@ ==> match config.anthropic_api_key {
            Some(k) => r matches Ok(ClientPlan::Anthropic { api_url, api_key })
                && api_url@ == or_default(config.anthropic_api_url, "https://api.anthropic.com/v1"@)
                && api_key@ == k@,
            None => r matches Err(GaiseError::ProviderConfigMissing(m))
                && m@ == "Anthropic API Key not configured"@,
        },
        !(provider@ == "ollama"@ || provider@ == "vertexai"@ || provider@ == "openai"@
            || provider@ == "bedrock"@ || provider@ == "anthropic"@) ==> (r matches Err(
            GaiseError::UnknownOrDisabledProvider(p),
        ) && p@ == provider@),
{
    proof {
        reveal_strlit("ollama");
        reveal_strlit("vertexai");
        reveal_strlit("openai");
        reveal_strlit("bedrock");
        reveal_strlit("anthropic");
        assert("ollama"@.len() == 6 && "ollama"@[1] == 'l');
        assert("openai"@.len() == 6 && "openai"@[1] == 'p');
        assert("vertexai"@.len() == 8);
        assert("bedrock"@.len() == 7);
        assert("anthropic"@.len() == 9);
    }
    if str_eq(provider, "ollama") {
        return Ok(ClientPlan::Ollama { url: string_or(&config.ollama_url, "http://localhost:11434") });
    }
    if str_eq(provider, "vertexai") {
        let sa = match &config.vertexai_sa {
            Some(sa) => sa,
            None => {
                return Err(
                    GaiseError::ProviderConfigMissing(
                        String::from_str("VertexAI Service Account not configured"),
                    ),
                );
            },
        };
        let url = match &config.vertexai_api_url {
            Some(u) => u,
            None => {
                return Err(
                    GaiseError::ProviderConfigMissing(String::from_str("VertexAI API URL not configured")),
                );
            },
        };
        return Ok(
            ClientPlan::VertexAI {
                account: ServiceAccount {
                    private_key: sa.private_key.clone(),
                    client_email: sa.client_email.clone(),
                },
                api_url: url.clone(),
            },
        );
    }
    if str_eq(provider, "openai") {
        let key = match &config.openai_api_key {
            Some(k) => k,
            None => {
                return Err(
                    GaiseError::ProviderConfigMissing(String::from_str("OpenAI API Key not configured")),
                );
            },
        };
        return Ok(
            ClientPlan::OpenAI {
                api_url: string_or(&config.openai_api_url, "https://api.openai.com/v1"),
                api_key: key.clone(),
            },
        );
    }
    if str_eq(provider, "bedrock") {
        return Ok(ClientPlan::Bedrock { region: clone_opt_string(&config.bedrock_region) });
    }
    if str_eq(provider, "anthropic") {
        let key = match &config.anthropic_api_key {
            Some(k) => k,
            None => {
                return Err(
                    GaiseError::ProviderConfigMissing(
                        String::from_str("Anthropic API Key not configured"),
                    ),
                );
            },
        };
        return Ok(
            ClientPlan::Anthropic {
                api_url: string_or(&config.anthropic_api_url, "https://api.anthropic.com/v1"),
                api_key: key.clone(),
            },
        );
    }
    Err(GaiseError::UnknownOrDisabledProvider(provider.to_owned()))
}

/// The adapters built so far, by provider name.
pub type ClientCache<C> = NamedMap<C>;

/// The cache after a first-use insertion: a provider already present keeps
/// the adapter it has.
pub open spec fn cache_first_use<C>(m: Map<Seq<char>, C>, p: Seq<char>, c: C) -> Map<Seq<char>, C> {
    if m.contains_key(p) {
        m
    } else {
        m.insert(p, c)
    }
}

/// However many first-use insertions race for a provider, the cache ends up
/// holding exactly one adapter for it: the first one inserted.
pub proof fn lemma_first_use_single_instance<C>(m: Map<Seq<char>, C>, p: Seq<char>, a: C, b: C)
    requires
        !m.contains_key(p),
    ensures
        cache_first_use(cache_first_use(m, p, a), p, b) == cache_first_use(m, p, a),
        cache_first_use(cache_first_use(m, p, a), p, b)[p] == a,
        cache_first_use(cache_first_use(m, p, a), p, b).dom() == m.dom().insert(p),
{
}

/// The cached adapter for `provider`, or `built` stored for it when there is
/// none yet. The result is the adapter that the cache holds afterwards.
pub fn get_or_insert<'a, C>(cache: &'a mut ClientCache<C>, provider: &str, built: C) -> (r: &'a C)
    requires
        old(cache).wf(),
    ensures
        final(cache).wf(),
        final(cache)@ == cache_first_use(old(cache)@, provider@, built),
        *r == final(cache)@[provider@],
{
    cache.insert_if_absent(provider.to_owned(), built);
    cache.get(provider).unwrap()
}

/// A stream item reaches the caller unless it is an empty text delta.
pub open spec fn passes_filter(r: GaiseInstructStreamResponse) -> bool {
    !(r.chunk matches GaiseStreamChunk::Text(t) && t@.len() == 0)
}

/// Whether the registry hands a stream item on to its caller.
pub fn keep_stream_item(r: &GaiseInstructStreamResponse) -> (b: bool)
    ensures
        b == passes_filter(*r),
{
    match &r.chunk {
        GaiseStreamChunk::Text(t) => !t.as_str().is_empty(),
        _ => true,
    }
}

pub open spec fn item_passes<E>(x: Result<GaiseInstructStreamResponse, E>) -> bool {
    match x {
        Ok(r) => passes_filter(r),
        Err(_) => true,
    }
}

/// The items of a stream that reach the caller, in order: errors and every
/// item but an empty text delta.
pub fn filter_stream<E>(items: Vec<Result<GaiseInstructStreamResponse, E>>) -> (r: Vec<
    Result<GaiseInstructStreamResponse, E>,
>)
    ensures
        r@ == items@.filter(|x: Result<GaiseInstructStreamResponse, E>| item_passes(x)),
{
    let ghost all = items@;
    let mut rest = items;
    let mut out: Vec<Result<GaiseInstructStreamResponse, E>> = Vec::new();
    let ghost mut i: int = 0;
    while rest.len() > 0
        invariant
            0 <= i <= all.len(),
            rest@ == all.subrange(i, all.len() as int),
            out@ == all.take(i).filter(|x: Result<GaiseInstructStreamResponse, E>| item_passes(x)),
        decreases rest@.len(),
    {
        let item = rest.remove(0);
        proof {
            assert(item == all[i]);
            assert(all.take(i + 1).drop_last() =~= all.take(i));
            reveal(Seq::filter);
        }
        let keep = match &item {
            Ok(x) => keep_stream_item(x),
            Err(_) => true,
        };
        if keep {
            out.push(item);
        }
        proof {
            i = i + 1;
        }
    }
    proof {
        assert(all.take(i) =~= all);
    }
    out
}

/// An instruct request with its model field replaced by `model`.
pub fn with_model(request: GaiseInstructRequest, model: &str) -> (r: GaiseInstructRequest)
    ensures
        r.model@ == model@,
        r.correlation_id == request.correlation_id,
        r.tools == request.tools,
        r.tool_config == request.tool_config,
        r.generation_config == request.generation_config,
        r.input == request.input,
{
    let mut r = request;
    r.model = model.to_owned();
    r
}

/// Resolves an instruct request: the provider to use, and the request the
/// adapter receives, whose model is the provider-local model id.
pub fn route_instruct(request: GaiseInstructRequest) -> (r: Result<(String, GaiseInstructRequest), GaiseError>)
    ensures
        r is Err <==> !has_sep(request.model@),
        r matches Err(e) ==> e is BadModelFormat,
        r matches Ok((p, q)) ==> exists|i: int|
            #[trigger] first_sep(request.model@, i) && p@ == request.model@.take(i) && q.model@
                == request.model@.skip(i + 2),
        r matches Ok((p, q)) ==> q.correlation_id == request.correlation_id && q.tools == request.tools
            && q.tool_config == request.tool_config && q.generation_config
            == request.generation_config && q.input == request.input,
{
    let model = request.model.clone();
    match parse_model(model.as_str()) {
        Ok((p, m)) => {
            let provider = p.to_owned();
            let q = with_model(request, m);
            Ok((provider, q))
        },
        Err(e) => Err(e),
    }
}

/// Resolves an embeddings request as `route_instruct` does.
pub fn route_embeddings(request: GaiseEmbeddingsRequest) -> (r: Result<(String, GaiseEmbeddingsRequest), GaiseError>)
    ensures
        r is Err <==> !has_sep(request.model@),
        r matches Err(e) ==> e is BadModelFormat,
        r matches Ok((p, q)) ==> exists|i: int|
            #[trigger] first_sep(request.model@, i) && p@ == request.model@.take(i) && q.model@
                == request.model@.skip(i + 2),
        r matches Ok((p, q)) ==> q.correlation_id == request.correlation_id && q.input == request.input,
{
    let model = request.model.clone();
    match parse_model(model.as_str()) {
        Ok((p, m)) => {
            let provider = p.to_owned();
            let mut q = request;
            q.model = m.to_owned();
            Ok((provider, q))
        },
        Err(e) => Err(e),
    }
}

} // verus!
