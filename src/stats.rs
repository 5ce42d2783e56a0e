use vstd::prelude::*;

use crate::error::OllamaError;
use crate::generate::Stats;

verus! {

broadcast use vstd::seq_lib::group_to_multiset_ensures;

/// The figures of one outcome that aggregation adds up.
pub enum Figure {
    PromptEvalCount,
    PromptEvalDuration,
    EvalCount,
    EvalDuration,
}

/// The value of figure `f` in `x`.
pub open spec fn figure(x: Stats, f: Figure) -> int {
    match f {
        Figure::PromptEvalCount => x.prompt_eval_count as int,
        Figure::PromptEvalDuration => x.prompt_eval_duration as int,
        Figure::EvalCount => x.eval_count as int,
        Figure::EvalDuration => x.eval_duration as int,
    }
}

/// Sum of figure `f` over the elements of `s`.
pub open spec fn sum_of(s: Seq<Stats>, f: Figure) -> int
    decreases s.len(),
{
    if s.len() == 0 {
        0
    } else {
        sum_of(s.drop_last(), f) + figure(s.last(), f)
    }
}

/// The exact totals that the batch means and throughputs are derived from.
pub ghost struct Totals {
    pub runs: nat,
    pub prompt_eval_count: int,
    pub prompt_eval_duration: int,
    pub eval_count: int,
    pub eval_duration: int,
}

/// The totals of a set of successful outcomes.
pub open spec fn totals_of(s: Seq<Stats>) -> Totals {
    Totals {
        runs: s.len(),
        prompt_eval_count: sum_of(s, Figure::PromptEvalCount),
        prompt_eval_duration: sum_of(s, Figure::PromptEvalDuration),
        eval_count: sum_of(s, Figure::EvalCount),
        eval_duration: sum_of(s, Figure::EvalDuration),
    }
}

/// Removing one element takes exactly its term out of a sum.
proof fn lemma_sum_remove(s: Seq<Stats>, j: int, f: Figure)
    requires
        0 <= j < s.len(),
    ensures
        sum_of(s, f) == sum_of(s.remove(j), f) + figure(s[j], f),
    decreases s.len(),
{
    if j == s.len() - 1 {
        assert(s.remove(j) =~= s.drop_last());
    } else {
        let r = s.remove(j);
        assert(r.drop_last() =~= s.drop_last().remove(j));
        assert(r.last() == s.last());
        lemma_sum_remove(s.drop_last(), j, f);
    }
}

/// A sum depends only on which elements occur, and how often.
proof fn lemma_sum_permutation(a: Seq<Stats>, b: Seq<Stats>, f: Figure)
    requires
        a.to_multiset() == b.to_multiset(),
    ensures
        sum_of(a, f) == sum_of(b, f),
    decreases a.len(),
{
    if a.len() == 0 {
        assert(b.to_multiset().len() == 0);
    } else {
        let x = a.last();
        let rest = a.drop_last();
        assert(a =~= rest.push(x));
        assert(a.to_multiset().count(x) > 0);
        assert(b.contains(x));
        let j = b.index_of(x);
        lemma_sum_remove(b, j, f);
        let br = b.remove(j);
        assert(br.to_multiset() =~= b.to_multiset().remove(x));
        assert(rest.to_multiset() =~= a.to_multiset().remove(x));
        lemma_sum_permutation(rest, br, f);
    }
}

/// The aggregate of a batch does not depend on the order in which its
/// outcomes arrived: any rearrangement of the same outcomes has the same
/// totals, hence the same means and throughputs.
pub proof fn lemma_totals_order_free(a: Seq<Stats>, b: Seq<Stats>)
    requires
        a.to_multiset() == b.to_multiset(),
    ensures
        totals_of(a) == totals_of(b),
{
    a.to_multiset_ensures();
    b.to_multiset_ensures();
    lemma_sum_permutation(a, b, Figure::PromptEvalCount);
    lemma_sum_permutation(a, b, Figure::PromptEvalDuration);
    lemma_sum_permutation(a, b, Figure::EvalCount);
    lemma_sum_permutation(a, b, Figure::EvalDuration);
}

/// A fraction `num / den`.
#[derive(Debug, Clone, Copy, PartialEq, Eq, Structural)]
pub struct Ratio {
    pub num: u128,
    pub den: u128,
}

/// Aggregate figures of a batch of successful generations. It keeps the
/// exact totals; every mean and throughput is a fraction of them.
#[derive(Debug, Clone, Copy)]
pub struct MeanStats {
    runs: usize,
    prompt_eval_count: u128,
    prompt_eval_duration: u128,
    eval_count: u128,
    eval_duration: u128,
}

impl View for MeanStats {
    type V = Totals;

    closed spec fn view(&self) -> Totals {
        Totals {
            runs: self.runs as nat,
            prompt_eval_count: self.prompt_eval_count as int,
            prompt_eval_duration: self.prompt_eval_duration as int,
            eval_count: self.eval_count as int,
            eval_duration: self.eval_duration as int,
        }
    }
}

const MAX_TERM: u128 = 0xFFFF_FFFF_FFFF_FFFF;

impl MeanStats {
    /// Each total is within what its number of terms allows.
    pub closed spec fn bounded(&self) -> bool {
        &&& self.prompt_eval_count <= self.runs * MAX_TERM
        &&& self.prompt_eval_duration <= self.runs * MAX_TERM
        &&& self.eval_count <= self.runs * MAX_TERM
        &&& self.eval_duration <= self.runs * MAX_TERM
    }

    /// The totals of no outcome at all.
    pub(crate) fn zero() -> (r: MeanStats)
        ensures
            r@ == totals_of(Seq::empty()),
            r.bounded(),
    {
        MeanStats {
            runs: 0,
            prompt_eval_count: 0,
            prompt_eval_duration: 0,
            eval_count: 0,
            eval_duration: 0,
        }
    }

    /// Adds the figures of one more outcome to the totals of `s`.
    pub(crate) fn add(&mut self, st: &Stats, Ghost(s): Ghost<Seq<Stats>>)
        requires
            old(self)@ == totals_of(s),
            old(self).bounded(),
            old(self)@.runs < usize::MAX,
        ensures
            final(self)@ == totals_of(s.push(*st)),
            final(self).bounded(),
    {
        let k = self.runs;
        assert((k + 1) * MAX_TERM <= u128::MAX) by (nonlinear_arith)
            requires
                k < usize::MAX,
                usize::MAX <= u64::MAX,
        ;
        assert(k * MAX_TERM + MAX_TERM == (k + 1) * MAX_TERM) by (nonlinear_arith);
        assert(s.push(*st).drop_last() =~= s);
        self.runs = self.runs + 1;
        self.prompt_eval_count = self.prompt_eval_count + st.prompt_eval_count as u128;
        self.prompt_eval_duration = self.prompt_eval_duration + st.prompt_eval_duration as u128;
        self.eval_count = self.eval_count + st.eval_count as u128;
        self.eval_duration = self.eval_duration + st.eval_duration as u128;
    }

    /// Aggregates the statistics of the successful outcomes of a batch.
    /// There is no aggregate of nothing: an empty batch is an error.
    pub fn new(stats_group: &[Stats]) -> (r: Result<MeanStats, OllamaError>)
        ensures
            r is Err <==> stats_group@.len() == 0,
            r matches Err(e) ==> e is NoSuccessfulOutcome,
            r matches Ok(m) ==> m@ == totals_of(stats_group@),
    {
        let n = stats_group.len();
        if n == 0 {
            return Err(OllamaError::NoSuccessfulOutcome);
        }
        let ghost s = stats_group@;
        let mut acc = MeanStats::zero();
        let mut i: usize = 0;
        assert(s.take(0) =~= Seq::<Stats>::empty());
        while i < n
            invariant
                n == s.len(),
                s == stats_group@,
                i <= n,
                acc@ == totals_of(s.take(i as int)),
                acc.bounded(),
            decreases n - i,
        {
            assert(s.take(i + 1) =~= s.take(i as int).push(s[i as int]));
            acc.add(&stats_group[i], Ghost(s.take(i as int)));
            i = i + 1;
        }
        assert(s.take(n as int) =~= s);
        Ok(acc)
    }

    /// How many outcomes were aggregated.
    pub fn runs(&self) -> (r: usize)
        ensures
            r == self@.runs,
    {
        self.runs
    }

    /// Mean number of prompt tokens evaluated per outcome.
    pub fn prompt_eval_count(&self) -> (r: Ratio)
        ensures
            r.num == self@.prompt_eval_count,
            r.den == self@.runs,
    {
        Ratio { num: self.prompt_eval_count, den: self.runs as u128 }
    }

    /// Mean prompt evaluation time per outcome, in nanoseconds.
    pub fn prompt_eval_duration(&self) -> (r: Ratio)
        ensures
            r.num == self@.prompt_eval_duration,
            r.den == self@.runs,
    {
        Ratio { num: self.prompt_eval_duration, den: self.runs as u128 }
    }

    /// Prompt evaluation throughput over the whole batch, in tokens per
    /// nanosecond: all tokens over all time, not a mean of per-outcome
    /// rates. Absent when no time was spent at all.
    pub fn prompt_eval_speed(&self) -> (r: Option<Ratio>)
        ensures
            r is None <==> self@.prompt_eval_duration == 0,
            r matches Some(q) ==> q.num == self@.prompt_eval_count && q.den
                == self@.prompt_eval_duration,
    {
        if self.prompt_eval_duration == 0 {
            None
        } else {
            Some(Ratio { num: self.prompt_eval_count, den: self.prompt_eval_duration })
        }
    }

    /// Mean number of generated tokens per outcome.
    pub fn eval_count(&self) -> (r: Ratio)
        ensures
            r.num == self@.eval_count,
            r.den == self@.runs,
    {
        Ratio { num: self.eval_count, den: self.runs as u128 }
    }

    /// Mean generation time per outcome, in nanoseconds.
    pub fn eval_duration(&self) -> (r: Ratio)
        ensures
            r.num == self@.eval_duration,
            r.den == self@.runs,
    {
        Ratio { num: self.eval_duration, den: self.runs as u128 }
    }

    /// Generation throughput over the whole batch, in tokens per nanosecond:
    /// all tokens over all time, not a mean of per-outcome rates. Absent
    /// when no time was spent at all.
    pub fn eval_speed(&self) -> (r: Option<Ratio>)
        ensures
            r is None <==> self@.eval_duration == 0,
            r matches Some(q) ==> q.num == self@.eval_count && q.den == self@.eval_duration,
    {
        if self.eval_duration == 0 {
            None
        } else {
            Some(Ratio { num: self.eval_count, den: self.eval_duration })
        }
    }
}

} // verus!
