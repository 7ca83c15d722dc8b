//! Token counters of the `llamacpp` metrics plugin.

use vstd::prelude::*;

use crate::runner::{exponent_in_range, json_get_u64, json_u64_at};

verus! {

/// Token usage reported by a llama.cpp server for one completion request.
#[derive(Clone, Copy, Debug, PartialEq, Eq, Structural)]
pub struct TokenUsage {
    pub prompt_tokens: u64,
    pub completion_tokens: u64,
}

/// The token usage that a llama.cpp response document reports in
/// `usage.prompt_tokens` and `usage.completion_tokens`, when both are
/// unsigned integers.
pub open spec fn usage_of(text: Seq<char>) -> Option<TokenUsage> {
    match (
        json_u64_at(text, "usage"@, "prompt_tokens"@),
        json_u64_at(text, "usage"@, "completion_tokens"@),
    ) {
        (Some(p), Some(c)) => Some(TokenUsage { prompt_tokens: p, completion_tokens: c }),
        _ => None,
    }
}

/// Reads the token usage out of the text of a llama.cpp response:
/// `usage.prompt_tokens` and `usage.completion_tokens`.
pub fn token_usage(text: &str) -> (r: Option<TokenUsage>)
    requires
        exponent_in_range(text@),
    ensures
        r == usage_of(text@),
{
    let prompt = json_get_u64(text, "usage", "prompt_tokens");
    let completion = json_get_u64(text, "usage", "completion_tokens");
    match (prompt, completion) {
        (Some(p), Some(c)) => Some(TokenUsage { prompt_tokens: p, completion_tokens: c }),
        _ => None,
    }
}

/// Integer state of the `llamacpp` plugin for one worker thread (or, after
/// aggregation, for all of them).
#[derive(Clone, Copy, Debug)]
pub struct LlamaCppCounters {
    n_successes: u64,
    n_total_tokens: u64,
    n_completion_tokens: u64,
    n_prompt_tokens: u64,
}

impl LlamaCppCounters {
    /// Every token counted is either a prompt or a completion token.
    #[verifier::type_invariant]
    spec fn tokens_add_up(self) -> bool {
        self.n_total_tokens == self.n_prompt_tokens + self.n_completion_tokens
    }

    /// Responses whose usage was recorded.
    pub closed spec fn successes(self) -> nat {
        self.n_successes as nat
    }

    /// Prompt tokens recorded.
    pub closed spec fn prompt_tokens(self) -> nat {
        self.n_prompt_tokens as nat
    }

    /// Completion tokens recorded.
    pub closed spec fn completion_tokens(self) -> nat {
        self.n_completion_tokens as nat
    }

    /// All tokens recorded.
    pub closed spec fn total_tokens(self) -> nat {
        self.n_total_tokens as nat
    }

    /// Counters with nothing recorded.
    pub fn new() -> (r: Self)
        ensures
            r.successes() == 0,
            r.prompt_tokens() == 0,
            r.completion_tokens() == 0,
            r.total_tokens() == 0,
    {
        LlamaCppCounters {
            n_successes: 0,
            n_total_tokens: 0,
            n_completion_tokens: 0,
            n_prompt_tokens: 0,
        }
    }

    /// Responses whose usage was recorded.
    pub fn n_successes(&self) -> (r: u64)
        ensures
            r == self.successes(),
    {
        self.n_successes
    }

    /// Prompt tokens recorded.
    pub fn n_prompt_tokens(&self) -> (r: u64)
        ensures
            r == self.prompt_tokens(),
    {
        self.n_prompt_tokens
    }

    /// Completion tokens recorded.
    pub fn n_completion_tokens(&self) -> (r: u64)
        ensures
            r == self.completion_tokens(),
    {
        self.n_completion_tokens
    }

    /// All tokens recorded: the prompt and the completion tokens together.
    pub fn n_total_tokens(&self) -> (r: u64)
        ensures
            r == self.total_tokens(),
            r == self.prompt_tokens() + self.completion_tokens(),
    {
        proof {
            use_type_invariant(self);
        }
        self.n_total_tokens
    }

    /// Whether recording `usage` keeps every counter within `u64`.
    pub open spec fn can_record(self, usage: TokenUsage) -> bool {
        &&& self.successes() + 1 <= u64::MAX
        &&& usage.prompt_tokens + usage.completion_tokens <= u64::MAX
        &&& self.total_tokens() + usage.prompt_tokens + usage.completion_tokens <= u64::MAX
        &&& self.prompt_tokens() + usage.prompt_tokens <= u64::MAX
        &&& self.completion_tokens() + usage.completion_tokens <= u64::MAX
    }

    /// Tells whether recording `usage` keeps every counter within `u64`.
    pub fn fits(&self, usage: TokenUsage) -> (r: bool)
        ensures
            r == self.can_record(usage),
    {
        self.n_successes < u64::MAX && usage.prompt_tokens <= u64::MAX - usage.completion_tokens
            && self.n_total_tokens <= u64::MAX - usage.prompt_tokens - usage.completion_tokens
            && self.n_prompt_tokens <= u64::MAX - usage.prompt_tokens && self.n_completion_tokens
            <= u64::MAX - usage.completion_tokens
    }

    /// Records a successful response. A response without a usage report
    /// (`None`: the body was not JSON) leaves the counters unchanged.
    pub fn on_success_response(&mut self, usage: Option<TokenUsage>)
        requires
            usage matches Some(u) ==> old(self).can_record(u),
        ensures
            final(self).total_tokens() == final(self).prompt_tokens() + final(self).completion_tokens(),
            usage is None ==> final(self).successes() == old(self).successes()
                && final(self).prompt_tokens() == old(self).prompt_tokens()
                && final(self).completion_tokens() == old(self).completion_tokens()
                && final(self).total_tokens() == old(self).total_tokens(),
            usage matches Some(u) ==> final(self).successes() == old(self).successes() + 1
                && final(self).prompt_tokens() == old(self).prompt_tokens() + u.prompt_tokens
                && final(self).completion_tokens() == old(self).completion_tokens()
                + u.completion_tokens && final(self).total_tokens() == old(self).total_tokens()
                + u.prompt_tokens + u.completion_tokens,
    {
        proof {
            use_type_invariant(&*self);
        }
        match usage {
            None => {},
            Some(u) => {
                let prompt_tokens = u.prompt_tokens;
                let completion_tokens = u.completion_tokens;
                *self = LlamaCppCounters {
                    n_successes: self.n_successes + 1,
                    n_total_tokens: self.n_total_tokens + (prompt_tokens + completion_tokens),
                    n_prompt_tokens: self.n_prompt_tokens + prompt_tokens,
                    n_completion_tokens: self.n_completion_tokens + completion_tokens,
                };
            },
        }
    }
}

/// Successes recorded by the given threads.
pub open spec fn sum_successes(locals: Seq<LlamaCppCounters>) -> nat
    decreases locals.len(),
{
    if locals.len() == 0 {
        0
    } else {
        sum_successes(locals.drop_last()) + locals.last().successes()
    }
}

/// Prompt tokens recorded by the given threads.
pub open spec fn sum_prompt_tokens(locals: Seq<LlamaCppCounters>) -> nat
    decreases locals.len(),
{
    if locals.len() == 0 {
        0
    } else {
        sum_prompt_tokens(locals.drop_last()) + locals.last().prompt_tokens()
    }
}

/// Completion tokens recorded by the given threads.
pub open spec fn sum_completion_tokens(locals: Seq<LlamaCppCounters>) -> nat
    decreases locals.len(),
{
    if locals.len() == 0 {
        0
    } else {
        sum_completion_tokens(locals.drop_last()) + locals.last().completion_tokens()
    }
}

/// All tokens recorded by the given threads.
pub open spec fn sum_total_tokens(locals: Seq<LlamaCppCounters>) -> nat
    decreases locals.len(),
{
    if locals.len() == 0 {
        0
    } else {
        sum_total_tokens(locals.drop_last()) + locals.last().total_tokens()
    }
}

/// The sums over no thread are zero, and over one thread they are that
/// thread's counters.
pub proof fn lemma_sums_of_one_thread(c: LlamaCppCounters)
    ensures
        sum_successes(Seq::<LlamaCppCounters>::empty()) == 0,
        sum_prompt_tokens(Seq::<LlamaCppCounters>::empty()) == 0,
        sum_completion_tokens(Seq::<LlamaCppCounters>::empty()) == 0,
        sum_total_tokens(Seq::<LlamaCppCounters>::empty()) == 0,
        sum_successes(seq![c]) == c.successes(),
        sum_prompt_tokens(seq![c]) == c.prompt_tokens(),
        sum_completion_tokens(seq![c]) == c.completion_tokens(),
        sum_total_tokens(seq![c]) == c.total_tokens(),
{
    let one = seq![c];
    assert(one.drop_last() =~= Seq::<LlamaCppCounters>::empty());
    assert(one.last() == c);
    assert(sum_successes(one) == sum_successes(one.drop_last()) + c.successes());
    assert(sum_prompt_tokens(one) == sum_prompt_tokens(one.drop_last()) + c.prompt_tokens());
    assert(sum_completion_tokens(one) == sum_completion_tokens(one.drop_last())
        + c.completion_tokens());
    assert(sum_total_tokens(one) == sum_total_tokens(one.drop_last()) + c.total_tokens());
}

/// Adding up the threads in two groups and then the two group sums gives
/// the same sums as adding up all threads at once.
pub proof fn lemma_sums_split(first: Seq<LlamaCppCounters>, second: Seq<LlamaCppCounters>)
    ensures
        sum_successes(first + second) == sum_successes(first) + sum_successes(second),
        sum_prompt_tokens(first + second) == sum_prompt_tokens(first) + sum_prompt_tokens(second),
        sum_completion_tokens(first + second) == sum_completion_tokens(first)
            + sum_completion_tokens(second),
        sum_total_tokens(first + second) == sum_total_tokens(first) + sum_total_tokens(second),
    decreases second.len(),
{
    if second.len() == 0 {
        assert(first + second =~= first);
    } else {
        assert((first + second).drop_last() =~= first + second.drop_last());
        lemma_sums_split(first, second.drop_last());
    }
}

/// Appending a thread adds its counters to the sums.
pub proof fn lemma_sums_push(locals: Seq<LlamaCppCounters>, c: LlamaCppCounters)
    ensures
        sum_successes(locals.push(c)) == sum_successes(locals) + c.successes(),
        sum_prompt_tokens(locals.push(c)) == sum_prompt_tokens(locals) + c.prompt_tokens(),
        sum_completion_tokens(locals.push(c)) == sum_completion_tokens(locals)
            + c.completion_tokens(),
        sum_total_tokens(locals.push(c)) == sum_total_tokens(locals) + c.total_tokens(),
{
    lemma_sums_split(locals, seq![c]);
    lemma_sums_of_one_thread(c);
    assert(locals + seq![c] =~= locals.push(c));
}

/// The usage read from a response is exactly the pair of integers that its
/// document holds at `usage.prompt_tokens` and `usage.completion_tokens`,
/// with no other condition on them; when either is missing there is none.
pub proof fn lemma_usage_of_reads_both_fields(text: Seq<char>, p: u64, c: u64)
    ensures
        json_u64_at(text, "usage"@, "prompt_tokens"@) == Some(p) && json_u64_at(
            text,
            "usage"@,
            "completion_tokens"@,
        ) == Some(c) ==> usage_of(text) == Some(TokenUsage { prompt_tokens: p, completion_tokens: c }),
        usage_of(text) is Some <==> (json_u64_at(text, "usage"@, "prompt_tokens"@) is Some
            && json_u64_at(text, "usage"@, "completion_tokens"@) is Some),
        usage_of(text) matches Some(u) ==> json_u64_at(text, "usage"@, "prompt_tokens"@) == Some(
            u.prompt_tokens,
        ) && json_u64_at(text, "usage"@, "completion_tokens"@) == Some(u.completion_tokens),
{
}

/// Whether all four sums over the threads fit in `u64`.
pub open spec fn sums_fit(locals: Seq<LlamaCppCounters>) -> bool {
    &&& sum_successes(locals) <= u64::MAX
    &&& sum_prompt_tokens(locals) <= u64::MAX
    &&& sum_completion_tokens(locals) <= u64::MAX
    &&& sum_total_tokens(locals) <= u64::MAX
}

/// Sums over a prefix never exceed the sums over the whole sequence.
proof fn lemma_sums_grow(locals: Seq<LlamaCppCounters>, k: nat)
    requires
        k <= locals.len(),
    ensures
        sum_successes(locals.take(k as int)) <= sum_successes(locals),
        sum_prompt_tokens(locals.take(k as int)) <= sum_prompt_tokens(locals),
        sum_completion_tokens(locals.take(k as int)) <= sum_completion_tokens(locals),
        sum_total_tokens(locals.take(k as int)) <= sum_total_tokens(locals),
    decreases locals.len(),
{
    if k < locals.len() {
        assert(locals.drop_last().take(k as int) =~= locals.take(k as int));
        lemma_sums_grow(locals.drop_last(), k);
    } else {
        assert(locals.take(k as int) =~= locals);
    }
}

/// Adds up the counters of all threads, as the global display does.
/// `None` when a sum leaves the range of `u64`.
pub fn aggregate(locals: &Vec<LlamaCppCounters>) -> (r: Option<LlamaCppCounters>)
    ensures
        r is Some <==> sums_fit(locals@),
        r matches Some(g) ==> {
            &&& g.total_tokens() == g.prompt_tokens() + g.completion_tokens()
            &&& sum_total_tokens(locals@) == sum_prompt_tokens(locals@) + sum_completion_tokens(
                locals@,
            )
            &&& g.successes() == sum_successes(locals@)
            &&& g.prompt_tokens() == sum_prompt_tokens(locals@)
            &&& g.completion_tokens() == sum_completion_tokens(locals@)
            &&& g.total_tokens() == sum_total_tokens(locals@)
        },
{
    let mut g = LlamaCppCounters::new();
    let mut i: usize = 0;
    while i < locals.len()
        invariant
            i <= locals.len(),
            sum_total_tokens(locals@.take(i as int)) == sum_prompt_tokens(locals@.take(i as int))
                + sum_completion_tokens(locals@.take(i as int)),
            g.successes() == sum_successes(locals@.take(i as int)),
            g.prompt_tokens() == sum_prompt_tokens(locals@.take(i as int)),
            g.completion_tokens() == sum_completion_tokens(locals@.take(i as int)),
            g.total_tokens() == sum_total_tokens(locals@.take(i as int)),
        decreases locals.len() - i,
    {
        assert(locals@.take(i + 1).drop_last() =~= locals@.take(i as int));
        let local = &locals[i];
        proof {
            use_type_invariant(local);
            use_type_invariant(&g);
        }
        if local.n_successes > u64::MAX - g.n_successes
            || local.n_prompt_tokens > u64::MAX - g.n_prompt_tokens
            || local.n_completion_tokens > u64::MAX - g.n_completion_tokens
            || local.n_total_tokens > u64::MAX - g.n_total_tokens {
            proof {
                lemma_sums_grow(locals@, (i + 1) as nat);
            }
            return None;
        }
        g = LlamaCppCounters {
            n_successes: g.n_successes + local.n_successes,
            n_total_tokens: g.n_total_tokens + local.n_total_tokens,
            n_completion_tokens: g.n_completion_tokens + local.n_completion_tokens,
            n_prompt_tokens: g.n_prompt_tokens + local.n_prompt_tokens,
        };
        i = i + 1;
    }
    assert(locals@.take(locals.len() as int) =~= locals@);
    Some(g)
}

} // verus!
