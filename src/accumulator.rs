//! Folds a sequence of streamed deltas into one message.
use vstd::prelude::*;
use vstd::string::*;
use crate::named_map::merge_counts;
use crate::contracts::{
    clone_opt_string, GaiseContent, GaiseFunctionCall, GaiseInstructStreamResponse,
    GaiseMessage, GaiseStreamChunk, GaiseToolCall, GaiseUsage, OneOrMany, UsageCounts,
};

verus! {

/// What a tool call holds, as character sequences.
pub struct ToolCallView {
    pub id: Seq<char>,
    pub kind: Seq<char>,
    pub name: Seq<char>,
    pub arguments: Option<Seq<char>>,
}

/// Usage counters as maps.
pub struct UsageView {
    pub input: Option<Map<Seq<char>, usize>>,
    pub output: Option<Map<Seq<char>, usize>>,
}

/// The state of an accumulator.
pub struct AccumulatorView {
    pub role: Seq<char>,
    pub text: Seq<char>,
    /// Tool-call builders keyed by their stream index.
    pub calls: Map<usize, ToolCallView>,
    pub usage: Option<UsageView>,
    pub external_id: Option<Seq<char>>,
}

pub open spec fn opt_view(o: Option<String>) -> Option<Seq<char>> {
    match o {
        Some(s) => Some(s@),
        None => None,
    }
}

pub open spec fn call_view(t: GaiseToolCall) -> ToolCallView {
    ToolCallView {
        id: t.id@,
        kind: t.kind@,
        name: t.function.name@,
        arguments: opt_view(t.function.arguments),
    }
}

pub open spec fn function_kind() -> Seq<char> {
    seq!['f', 'u', 'n', 'c', 't', 'i', 'o', 'n']
}

pub open spec fn assistant_role() -> Seq<char> {
    seq!['a', 's', 's', 'i', 's', 't', 'a', 'n', 't']
}

/// A builder as it is created: kind `"function"`, all else empty.
pub open spec fn fresh_call() -> ToolCallView {
    ToolCallView { id: Seq::empty(), kind: function_kind(), name: Seq::empty(), arguments: None }
}

pub open spec fn append_opt(cur: Seq<char>, frag: Option<String>) -> Seq<char> {
    match frag {
        Some(f) => cur + f@,
        None => cur,
    }
}

/// A builder with one fragment appended to each field that the fragment has.
pub open spec fn apply_fragment(
    c: ToolCallView,
    id: Option<String>,
    name: Option<String>,
    arguments: Option<String>,
) -> ToolCallView {
    ToolCallView {
        id: append_opt(c.id, id),
        kind: c.kind,
        name: append_opt(c.name, name),
        arguments: match arguments {
            Some(a) => Some(
                match c.arguments {
                    Some(x) => x,
                    None => Seq::empty(),
                } + a@,
            ),
            None => c.arguments,
        },
    }
}

pub open spec fn counts_view(c: Option<UsageCounts>) -> Option<Map<Seq<char>, usize>> {
    match c {
        Some(m) => Some(m@),
        None => None,
    }
}

pub open spec fn usage_view(u: GaiseUsage) -> UsageView {
    UsageView { input: counts_view(u.input), output: counts_view(u.output) }
}

pub open spec fn usage_wf(u: GaiseUsage) -> bool {
    &&& u.input matches Some(c) ==> c.wf()
    &&& u.output matches Some(c) ==> c.wf()
}

/// Counters merged per name; a side that has no map keeps what it had.
pub open spec fn merge_opt(
    cur: Option<Map<Seq<char>, usize>>,
    add: Option<Map<Seq<char>, usize>>,
) -> Option<Map<Seq<char>, usize>> {
    match add {
        None => cur,
        Some(a) => Some(
            merge_counts(
                match cur {
                    Some(c) => c,
                    None => Map::empty(),
                },
                a,
            ),
        ),
    }
}

pub open spec fn merge_usage(cur: Option<UsageView>, add: UsageView) -> UsageView {
    let base = match cur {
        Some(u) => u,
        None => UsageView { input: None, output: None },
    };
    UsageView { input: merge_opt(base.input, add.input), output: merge_opt(base.output, add.output) }
}

/// A stream item whose usage maps are well formed.
pub open spec fn response_wf(r: GaiseInstructStreamResponse) -> bool {
    r.chunk matches GaiseStreamChunk::Usage(u) ==> usage_wf(u)
}

/// The state after one item is pushed.
pub open spec fn push_spec(v: AccumulatorView, r: GaiseInstructStreamResponse) -> AccumulatorView {
    let ext = if v.external_id is None && (r.external_id matches Some(e) && e@.len() > 0) {
        opt_view(r.external_id)
    } else {
        v.external_id
    };
    match r.chunk {
        GaiseStreamChunk::Text(t) => AccumulatorView {
            role: v.role,
            text: v.text + t@,
            calls: v.calls,
            usage: v.usage,
            external_id: ext,
        },
        GaiseStreamChunk::ToolCall { index, id, name, arguments } => AccumulatorView {
            role: v.role,
            text: v.text,
            calls: v.calls.insert(
                index,
                apply_fragment(
                    if v.calls.contains_key(index) {
                        v.calls[index]
                    } else {
                        fresh_call()
                    },
                    id,
                    name,
                    arguments,
                ),
            ),
            usage: v.usage,
            external_id: ext,
        },
        GaiseStreamChunk::Usage(u) => AccumulatorView {
            role: v.role,
            text: v.text,
            calls: v.calls,
            usage: Some(merge_usage(v.usage, usage_view(u))),
            external_id: ext,
        },
    }
}

/// The state after every item of `rs` is pushed, in order.
pub open spec fn push_all(v: AccumulatorView, rs: Seq<GaiseInstructStreamResponse>) -> AccumulatorView
    decreases rs.len(),
{
    if rs.len() == 0 {
        v
    } else {
        push_spec(push_all(v, rs.drop_last()), rs.last())
    }
}

/// The state of a new accumulator.
pub open spec fn initial_view() -> AccumulatorView {
    AccumulatorView {
        role: assistant_role(),
        text: Seq::empty(),
        calls: Map::empty(),
        usage: None,
        external_id: None,
    }
}

/// The builders of a list of (index, call) pairs, keyed by index.
pub open spec fn calls_map(v: Seq<(usize, GaiseToolCall)>) -> Map<usize, ToolCallView>
    decreases v.len(),
{
    if v.len() == 0 {
        Map::empty()
    } else {
        calls_map(v.drop_last()).insert(v.last().0, call_view(v.last().1))
    }
}

pub open spec fn ascending(v: Seq<(usize, GaiseToolCall)>) -> bool {
    forall|i: int, j: int| 0 <= i < j < v.len() ==> v[i].0 < v[j].0
}

pub open spec fn keys_ascending(ks: Seq<usize>) -> bool {
    forall|i: int, j: int| 0 <= i < j < ks.len() ==> ks[i] < ks[j]
}

/// `m` is the message that an accumulator in state `v` finishes with: the
/// text as one `Text` item when there is any, and the tool calls in
/// ascending index order when there are any.
pub open spec fn finished_message(m: GaiseMessage, v: AccumulatorView) -> bool {
    &&& m.role@ == v.role
    &&& m.tool_call_id is None
    &&& (v.text.len() == 0 ==> m.content is None)
    &&& (v.text.len() > 0 ==> (m.content matches Some(OneOrMany::One(GaiseContent::Text { text }))
        && text@ == v.text))
    &&& (v.calls.dom() == Set::<usize>::empty() ==> m.tool_calls is None)
    &&& (v.calls.dom() != Set::<usize>::empty() ==> (m.tool_calls matches Some(list) && exists|ks: Seq<usize>|
        #[trigger] keys_ascending(ks) && ks.len() == list@.len() && ks.to_set() == v.calls.dom()
            && forall|j: int| 0 <= j < ks.len() ==> call_view(#[trigger] list@[j]) == v.calls[ks[j]]))
}

proof fn lemma_calls_map_keys(v: Seq<(usize, GaiseToolCall)>)
    requires
        ascending(v),
    ensures
        calls_map(v).dom() == v.map_values(|p: (usize, GaiseToolCall)| p.0).to_set(),
        forall|j: int| 0 <= j < v.len() ==> calls_map(v)[#[trigger] v[j].0] == call_view(v[j].1),
        calls_map(v).dom().finite(),
        calls_map(v).len() == v.len(),
    decreases v.len(),
{
    let ks = v.map_values(|p: (usize, GaiseToolCall)| p.0);
    if v.len() > 0 {
        let d = v.drop_last();
        lemma_calls_map_keys(d);
        let dks = d.map_values(|p: (usize, GaiseToolCall)| p.0);
        assert(ks =~= dks.push(v.last().0));
        assert(!calls_map(d).dom().contains(v.last().0)) by {
            if calls_map(d).dom().contains(v.last().0) {
                assert(dks.to_set().contains(v.last().0));
                let j = choose|j: int| 0 <= j < dks.len() && dks[j] == v.last().0;
                assert(v[j].0 < v[v.len() - 1].0);
            }
        }
        assert(ks.to_set() =~= dks.to_set().insert(v.last().0)) by {
            assert forall|x: usize| ks.to_set().contains(x) <==> dks.to_set().insert(v.last().0).contains(x) by {
                if ks.to_set().contains(x) {
                    let j = choose|j: int| 0 <= j < ks.len() && ks[j] == x;
                    if j < dks.len() {
                        assert(dks[j] == x);
                    }
                }
                if dks.to_set().contains(x) {
                    let j = choose|j: int| 0 <= j < dks.len() && dks[j] == x;
                    assert(ks[j] == x);
                }
                if x == v.last().0 {
                    assert(ks[ks.len() - 1] == x);
                }
            }
        }
        assert forall|j: int| 0 <= j < v.len() implies calls_map(v)[#[trigger] v[j].0] == call_view(v[j].1) by {
            if j < v.len() - 1 {
                assert(d[j] == v[j]);
                assert(v[j].0 < v[v.len() - 1].0);
            }
        }
    } else {
        assert(ks.to_set() =~= Set::<usize>::empty());
    }
}

proof fn lemma_calls_map_update(v: Seq<(usize, GaiseToolCall)>, j: int, t: GaiseToolCall)
    requires
        ascending(v),
        0 <= j < v.len(),
    ensures
        calls_map(v.update(j, (v[j].0, t))) == calls_map(v).insert(v[j].0, call_view(t)),
    decreases v.len(),
{
    let w = v.update(j, (v[j].0, t));
    if j == v.len() - 1 {
        assert(w.drop_last() =~= v.drop_last());
        assert(calls_map(w) =~= calls_map(v).insert(v[j].0, call_view(t)));
    } else {
        assert(w.drop_last() =~= v.drop_last().update(j, (v[j].0, t)));
        lemma_calls_map_update(v.drop_last(), j, t);
        assert(v[j].0 < v.last().0);
        assert(calls_map(w) =~= calls_map(v).insert(v[j].0, call_view(t)));
    }
}

proof fn lemma_calls_map_insert(v: Seq<(usize, GaiseToolCall)>, j: int, k: usize, t: GaiseToolCall)
    requires
        0 <= j <= v.len(),
        forall|i: int| 0 <= i < v.len() ==> v[i].0 != k,
    ensures
        calls_map(v.insert(j, (k, t))) == calls_map(v).insert(k, call_view(t)),
    decreases v.len(),
{
    let w = v.insert(j, (k, t));
    if j == v.len() {
        assert(w.drop_last() =~= v);
        assert(calls_map(w) =~= calls_map(v).insert(k, call_view(t)));
    } else {
        assert(w.drop_last() =~= v.drop_last().insert(j, (k, t)));
        assert(w.last() == v.last());
        lemma_calls_map_insert(v.drop_last(), j, k, t);
        assert(v.last().0 != k);
        assert(calls_map(w) =~= calls_map(v).insert(k, call_view(t)));
    }
}

/// Folds streamed deltas into one message.
#[derive(Debug)]
pub struct GaiseStreamAccumulator {
    pub role: String,
    pub text: String,
    /// Tool-call builders with their stream index, in ascending index order.
    pub tool_calls: Vec<(usize, GaiseToolCall)>,
    pub usage: Option<GaiseUsage>,
    pub external_id: Option<String>,
}

impl View for GaiseStreamAccumulator {
    type V = AccumulatorView;

    open spec fn view(&self) -> AccumulatorView {
        AccumulatorView {
            role: self.role@,
            text: self.text@,
            calls: calls_map(self.tool_calls@),
            usage: match self.usage {
                Some(u) => Some(usage_view(u)),
                None => None,
            },
            external_id: opt_view(self.external_id),
        }
    }
}

fn merge_side(cur: &mut Option<UsageCounts>, add: &Option<UsageCounts>)
    requires
        *old(cur) matches Some(c) ==> c.wf(),
        add matches Some(c) ==> c.wf(),
    ensures
        *final(cur) matches Some(c) ==> c.wf(),
        counts_view(*final(cur)) == merge_opt(counts_view(*old(cur)), counts_view(*add)),
{
    if let Some(a) = add {
        let mut c = match cur.take() {
            Some(c) => c,
            None => UsageCounts::new(),
        };
        c.merge_from(a);
        *cur = Some(c);
    }
}

impl GaiseStreamAccumulator {
    pub open spec fn wf(&self) -> bool {
        &&& ascending(self.tool_calls@)
        &&& self.usage matches Some(u) ==> usage_wf(u)
    }

    /// An empty accumulator with role `"assistant"`.
    pub fn new() -> (r: Self)
        ensures
            r.wf(),
            r@ == initial_view(),
    {
        let role = String::from_str("assistant");
        proof {
            reveal_strlit("assistant");
        }
        let r = GaiseStreamAccumulator {
            role,
            text: String::new(),
            tool_calls: Vec::new(),
            usage: None,
            external_id: None,
        };
        assert(r@.calls =~= Map::<usize, ToolCallView>::empty());
        assert(r@.role =~= assistant_role());
        r
    }

    /// Folds one stream item in: text is appended, a tool-call fragment is
    /// appended field by field to the builder of its index (created on first
    /// sight), usage is added per name. The first non-empty external id is kept.
    pub fn push(&mut self, response: &GaiseInstructStreamResponse)
        requires
            old(self).wf(),
            response_wf(*response),
        ensures
            final(self).wf(),
            final(self)@ == push_spec(old(self)@, *response),
    {
        let fresh = match &response.external_id {
            Some(e) => !e.as_str().is_empty(),
            None => false,
        };
        if self.external_id.is_none() && fresh {
            self.external_id = clone_opt_string(&response.external_id);
        }
        match &response.chunk {
            GaiseStreamChunk::Text(t) => {
                self.text.append(t.as_str());
            },
            GaiseStreamChunk::ToolCall { index, id, name, arguments } => {
                self.push_tool_fragment(*index, id, name, arguments);
            },
            GaiseStreamChunk::Usage(u) => {
                let mut cur = match self.usage.take() {
                    Some(c) => c,
                    None => GaiseUsage { input: None, output: None },
                };
                merge_side(&mut cur.input, &u.input);
                merge_side(&mut cur.output, &u.output);
                self.usage = Some(cur);
            },
        }
    }

    fn push_tool_fragment(
        &mut self,
        index: usize,
        id: &Option<String>,
        name: &Option<String>,
        arguments: &Option<String>,
    )
        requires
            old(self).wf(),
        ensures
            final(self).wf(),
            final(self).role == old(self).role,
            final(self).text == old(self).text,
            final(self).usage == old(self).usage,
            final(self).external_id == old(self).external_id,
            calls_map(final(self).tool_calls@) == old(self)@.calls.insert(
                index,
                apply_fragment(
                    if old(self)@.calls.contains_key(index) {
                        old(self)@.calls[index]
                    } else {
                        fresh_call()
                    },
                    *id,
                    *name,
                    *arguments,
                ),
            ),
    {
        proof {
            lemma_calls_map_keys(self.tool_calls@);
        }
        let mut j: usize = 0;
        while j < self.tool_calls.len() && self.tool_calls[j].0 < index
            invariant
                j <= self.tool_calls@.len(),
                forall|i: int| 0 <= i < j ==> self.tool_calls@[i].0 < index,
            decreases self.tool_calls@.len() - j,
        {
            j = j + 1;
        }
        let found = j < self.tool_calls.len() && self.tool_calls[j].0 == index;
        let ghost v = self.tool_calls@;
        let mut call = if found {
            let (_, c) = self.tool_calls.remove(j);
            c
        } else {
            let kind = String::from_str("function");
            proof {
                reveal_strlit("function");
            }
            GaiseToolCall {
                id: String::new(),
                kind,
                function: GaiseFunctionCall { name: String::new(), arguments: None },
            }
        };
        proof {
            if found {
                assert(call == v[j as int].1);
                let ks = v.map_values(|p: (usize, GaiseToolCall)| p.0);
                assert(ks[j as int] == index);
                assert(ks.to_set().contains(index));
                assert(calls_map(v)[index] == call_view(call));
            } else {
                assert forall|i: int| 0 <= i < v.len() implies v[i].0 != index by {
                    if i >= j {
                        assert(v[i].0 >= v[j as int].0 || i == j);
                    }
                }
                assert(!calls_map(v).contains_key(index)) by {
                    if calls_map(v).contains_key(index) {
                        let ks = v.map_values(|p: (usize, GaiseToolCall)| p.0);
                        let i = choose|i: int| 0 <= i < ks.len() && ks[i] == index;
                        assert(v[i].0 == index);
                    }
                }
                assert(call.kind@ =~= function_kind());
                assert(call_view(call) == fresh_call());
            }
        }
        if let Some(s) = id {
            call.id.append(s.as_str());
        }
        if let Some(s) = name {
            call.function.name.append(s.as_str());
        }
        if let Some(s) = arguments {
            let mut a = match call.function.arguments.take() {
                Some(x) => x,
                None => String::new(),
            };
            a.append(s.as_str());
            call.function.arguments = Some(a);
        }
        self.tool_calls.insert(j, (index, call));
        proof {
            if found {
                assert(self.tool_calls@ =~= v.update(j as int, (index, call)));
                lemma_calls_map_update(v, j as int, call);
            } else {
                assert forall|i: int| 0 <= i < v.len() implies v[i].0 != index by {
                    if i >= j {
                        assert(v[i].0 >= v[j as int].0 || i == j);
                    }
                }
                lemma_calls_map_insert(v, j as int, index, call);
            }
        }
    }

    /// The message accumulated so far.
    pub fn finish(self) -> (m: GaiseMessage)
        requires
            self.wf(),
        ensures
            finished_message(m, self@),
    {
        let ghost v = self.tool_calls@;
        proof {
            lemma_calls_map_keys(v);
        }
        let content = if self.text.as_str().is_empty() {
            None
        } else {
            Some(OneOrMany::One(GaiseContent::Text { text: self.text }))
        };
        let mut pairs = self.tool_calls;
        let tool_calls = if pairs.len() == 0 {
            None
        } else {
            let mut list: Vec<GaiseToolCall> = Vec::new();
            let n = pairs.len();
            while pairs.len() > 0
                invariant
                    list@.len() + pairs@.len() == n,
                    n == v.len(),
                    pairs@ == v.subrange(list@.len() as int, n as int),
                    forall|j: int| 0 <= j < list@.len() ==> list@[j] == v[j].1,
                decreases pairs@.len(),
            {
                let (_, c) = pairs.remove(0);
                list.push(c);
            }
            proof {
                let ks = v.map_values(|p: (usize, GaiseToolCall)| p.0);
                assert(keys_ascending(ks));
                assert forall|j: int| 0 <= j < ks.len() implies call_view(#[trigger] list@[j]) == calls_map(v)[ks[j]] by {
                    assert(calls_map(v)[v[j].0] == call_view(v[j].1));
                }
            }
            Some(list)
        };
        GaiseMessage { role: self.role, content, tool_calls, tool_call_id: None }
    }

    /// Drains `items` in order and finishes; the first error met is returned
    /// instead, and nothing after it is read.
    pub fn collect<E>(items: Vec<Result<GaiseInstructStreamResponse, E>>) -> (r: Result<GaiseMessage, E>)
        requires
            forall|i: int| 0 <= i < items@.len() ==> (#[trigger] items@[i] matches Ok(x) ==> response_wf(x)),
        ensures
            (exists|i: int| 0 <= i < items@.len() && items@[i] is Err) ==> exists|i: int|
                0 <= i < items@.len() && #[trigger] items@[i] is Err && (forall|j: int| 0 <= j < i ==> items@[j] is Ok)
                    && r == Err::<GaiseMessage, E>(items@[i]->Err_0),
            (forall|i: int| 0 <= i < items@.len() ==> items@[i] is Ok) ==> (r matches Ok(m)
                && finished_message(m, push_all(initial_view(), items@.map_values(|x: Result<GaiseInstructStreamResponse, E>| x->Ok_0)))),
    {
        let ghost all = items@;
        let ghost oks = all.map_values(|x: Result<GaiseInstructStreamResponse, E>| x->Ok_0);
        let mut acc = GaiseStreamAccumulator::new();
        let mut rest = items;
        let n = rest.len();
        assert(all.len() == n);
        let mut i: usize = 0;
        while rest.len() > 0
            invariant
                acc.wf(),
                rest@ == all.subrange(i as int, all.len() as int),
                i <= all.len(),
                forall|j: int| 0 <= j < i ==> all[j] is Ok,
                forall|j: int| 0 <= j < all.len() ==> (#[trigger] all[j] matches Ok(x) ==> response_wf(x)),
                acc@ == push_all(initial_view(), oks.take(i as int)),
                oks == all.map_values(|x: Result<GaiseInstructStreamResponse, E>| x->Ok_0),
                all == items@,
                all.len() <= usize::MAX,
            decreases rest@.len(),
        {
            let item = rest.remove(0);
            assert(item == all[i as int]);
            match item {
                Ok(x) => {
                    acc.push(&x);
                    proof {
                        assert(oks.take(i as int + 1).drop_last() =~= oks.take(i as int));
                    }
                    i = i + 1;
                },
                Err(e) => {
                    proof {
                        assert(all[i as int] is Err);
                    }
                    return Err(e);
                },
            }
        }
        proof {
            assert(oks.take(i as int) =~= oks);
            assert(forall|j: int| 0 <= j < all.len() ==> all[j] is Ok);
        }
        Ok(acc.finish())
    }
}

} // verus!
