//! Request counters of the `basic` metrics plugin.

use vstd::prelude::*;

verus! {

/// Integer state of the `basic` plugin for one worker thread.
///
/// `n_requests` counts the successful responses of the current snapshot
/// window; `n_successes` and `n_failures` count over the whole run.
#[derive(Clone, Copy, Debug)]
pub struct BasicCounters {
    n_requests: u64,
    n_successes: u64,
    n_failures: u64,
}

impl BasicCounters {
    /// The window never holds more successes than the whole run.
    #[verifier::type_invariant]
    spec fn window_within_run(self) -> bool {
        self.n_requests <= self.n_successes
    }

    /// Successful responses of the current snapshot window.
    pub closed spec fn window(self) -> nat {
        self.n_requests as nat
    }

    /// Successful responses of the run.
    pub closed spec fn successes(self) -> nat {
        self.n_successes as nat
    }

    /// Failed responses of the run.
    pub closed spec fn failures(self) -> nat {
        self.n_failures as nat
    }

    /// Counters with nothing recorded.
    pub fn new() -> (r: Self)
        ensures
            r.window() == 0,
            r.successes() == 0,
            r.failures() == 0,
    {
        BasicCounters { n_requests: 0, n_successes: 0, n_failures: 0 }
    }

    /// Successful responses of the current snapshot window.
    /// The window never holds more successes than the run.
    pub fn n_requests(&self) -> (r: u64)
        ensures
            r == self.window(),
            r <= self.successes(),
    {
        proof {
            use_type_invariant(self);
        }
        self.n_requests
    }

    /// Successful responses of the run.
    pub fn n_successes(&self) -> (r: u64)
        ensures
            r == self.successes(),
    {
        self.n_successes
    }

    /// Failed responses of the run.
    pub fn n_failures(&self) -> (r: u64)
        ensures
            r == self.failures(),
    {
        self.n_failures
    }

    /// Records a successful response: it counts in the window and in the run.
    pub fn on_success_response(&mut self)
        requires
            old(self).successes() < u64::MAX,
        ensures
            final(self).window() == old(self).window() + 1,
            final(self).successes() == old(self).successes() + 1,
            final(self).failures() == old(self).failures(),
    {
        proof {
            use_type_invariant(&*self);
        }
        self.n_successes = self.n_successes + 1;
        self.n_requests = self.n_requests + 1;
    }

    /// Records a failed response.
    pub fn on_error_response(&mut self)
        requires
            old(self).failures() < u64::MAX,
        ensures
            final(self).window() == old(self).window(),
            final(self).successes() == old(self).successes(),
            final(self).failures() == old(self).failures() + 1,
    {
        proof {
            use_type_invariant(&*self);
        }
        self.n_failures = self.n_failures + 1;
    }

    /// Closes the snapshot window: returns the successes it counted and
    /// starts an empty one. The run totals are kept.
    pub fn on_snapshot(&mut self) -> (r: u64)
        ensures
            r == old(self).window(),
            final(self).window() == 0,
            final(self).successes() == old(self).successes(),
            final(self).failures() == old(self).failures(),
    {
        let r = self.n_requests;
        self.n_requests = 0;
        r
    }

    /// Requests sent over the run, successful or not.
    pub fn total_requests(&self) -> (r: u64)
        requires
            self.successes() + self.failures() <= u64::MAX,
        ensures
            r == self.successes() + self.failures(),
    {
        self.n_successes + self.n_failures
    }
}

/// Run totals of the `basic` plugin over all worker threads.
#[derive(Clone, Copy, Debug, PartialEq, Eq)]
pub struct BasicTotals {
    pub n_successes: u64,
    pub n_failures: u64,
}

/// Successful responses recorded by the given threads.
pub open spec fn sum_successes(locals: Seq<BasicCounters>) -> nat
    decreases locals.len(),
{
    if locals.len() == 0 {
        0
    } else {
        sum_successes(locals.drop_last()) + locals.last().successes()
    }
}

/// Failed responses recorded by the given threads.
pub open spec fn sum_failures(locals: Seq<BasicCounters>) -> nat
    decreases locals.len(),
{
    if locals.len() == 0 {
        0
    } else {
        sum_failures(locals.drop_last()) + locals.last().failures()
    }
}

/// Adding up the threads in two groups and then the two group totals gives
/// the same totals as adding up all threads at once.
pub proof fn lemma_sums_split(first: Seq<BasicCounters>, second: Seq<BasicCounters>)
    ensures
        sum_successes(first + second) == sum_successes(first) + sum_successes(second),
        sum_failures(first + second) == sum_failures(first) + sum_failures(second),
    decreases second.len(),
{
    if second.len() == 0 {
        assert(first + second =~= first);
    } else {
        assert((first + second).drop_last() =~= first + second.drop_last());
        lemma_sums_split(first, second.drop_last());
    }
}

/// The totals over no thread are zero, and over one thread they are that
/// thread's run totals, whatever its current snapshot window holds.
pub proof fn lemma_sums_of_one_thread(c: BasicCounters)
    ensures
        sum_successes(Seq::<BasicCounters>::empty()) == 0,
        sum_failures(Seq::<BasicCounters>::empty()) == 0,
        sum_successes(seq![c]) == c.successes(),
        sum_failures(seq![c]) == c.failures(),
{
    assert(seq![c].drop_last() =~= Seq::<BasicCounters>::empty());
}

/// Appending a thread adds its run totals (not its window) to the totals.
pub proof fn lemma_sums_push(locals: Seq<BasicCounters>, c: BasicCounters)
    ensures
        sum_successes(locals.push(c)) == sum_successes(locals) + c.successes(),
        sum_failures(locals.push(c)) == sum_failures(locals) + c.failures(),
{
    lemma_sums_split(locals, seq![c]);
    lemma_sums_of_one_thread(c);
    assert(locals + seq![c] =~= locals.push(c));
}

/// Adds up the run totals of all threads, as the global display does.
/// `None` when a sum leaves the range of `u64`.
pub fn aggregate(locals: &Vec<BasicCounters>) -> (r: Option<BasicTotals>)
    ensures
        r is Some <==> (sum_successes(locals@) <= u64::MAX && sum_failures(locals@) <= u64::MAX),
        r matches Some(t) ==> t.n_successes == sum_successes(locals@) && t.n_failures
            == sum_failures(locals@),
{
    let mut g_n_successes: u64 = 0;
    let mut g_n_failures: u64 = 0;
    let mut i: usize = 0;
    while i < locals.len()
        invariant
            i <= locals.len(),
            g_n_successes == sum_successes(locals@.take(i as int)),
            g_n_failures == sum_failures(locals@.take(i as int)),
        decreases locals.len() - i,
    {
        assert(locals@.take(i + 1).drop_last() =~= locals@.take(i as int));
        let local = &locals[i];
        let s = local.n_successes();
        let f = local.n_failures();
        if s > u64::MAX - g_n_successes {
            proof {
                lemma_sums_grow(locals@, (i + 1) as nat);
            }
            return None;
        }
        if f > u64::MAX - g_n_failures {
            proof {
                lemma_sums_grow(locals@, (i + 1) as nat);
            }
            return None;
        }
        g_n_successes = g_n_successes + s;
        g_n_failures = g_n_failures + f;
        i = i + 1;
    }
    assert(locals@.take(locals.len() as int) =~= locals@);
    Some(BasicTotals { n_successes: g_n_successes, n_failures: g_n_failures })
}

/// The sums over a prefix never exceed the sums over the whole sequence.
proof fn lemma_sums_grow(locals: Seq<BasicCounters>, k: nat)
    requires
        k <= locals.len(),
    ensures
        sum_successes(locals.take(k as int)) <= sum_successes(locals),
        sum_failures(locals.take(k as int)) <= sum_failures(locals),
    decreases locals.len(),
{
    if k < locals.len() {
        assert(locals.drop_last().take(k as int) =~= locals.take(k as int));
        lemma_sums_grow(locals.drop_last(), k);
    } else {
        assert(locals.take(k as int) =~= locals);
    }
}

} // verus!
