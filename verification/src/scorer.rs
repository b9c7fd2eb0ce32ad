use vstd::prelude::*;
use crate::closure::total_val;
use crate::filter::Filter;
use crate::sorter::{Order, Sorter};

verus! {

/// A relevance score for an entry under a query: higher is more relevant, and
/// `0` stands for "no match".
pub trait Scorer {
    type Context;

    /// Whether this scorer may give `score` to `ctx` under the query `input`.
    /// For a scorer whose score depends on the entry and the query alone,
    /// exactly one score is possible for each. A scorer that says nothing of
    /// itself may give any.
    open spec fn rates(&self, ctx: &Self::Context, input: Seq<char>, score: u32) -> bool {
        true
    }

    fn predicate_score(&self, ctx: &Self::Context, input: &str) -> (score: u32)
        ensures
            self.rates(ctx, input@, score),
    ;
}

/// How two scores stand to each other.
pub open spec fn order_of_scores(lhs: u32, rhs: u32) -> Order {
    if lhs < rhs {
        Order::Less
    } else if lhs == rhs {
        Order::Equal
    } else {
        Order::Greater
    }
}

/// A scorer used as a sorter: entries are ordered by their scores.
#[verifier::reject_recursive_types(C)]
pub struct ScorerSorter<C, T>(pub T) where T: Scorer<Context = C>;

impl<C, T> ScorerSorter<C, T> where T: Scorer<Context = C> {
    pub fn new(t: T) -> (sorter: Self)
        ensures
            sorter.0 == t,
    {
        ScorerSorter(t)
    }
}

impl<C, T> Sorter for ScorerSorter<C, T> where T: Scorer<Context = C> {
    type Context = C;

    /// How a score of the left-hand entry stands to a score of the
    /// right-hand one. Each side is scored afresh.
    open spec fn ranks(&self, lhs: &C, rhs: &C, input: Seq<char>, outcome: Order) -> bool {
        exists|left: u32, right: u32|
            #![trigger self.0.rates(lhs, input, left), self.0.rates(rhs, input, right)]
            self.0.rates(lhs, input, left) && self.0.rates(rhs, input, right) && outcome
                == order_of_scores(left, right)
    }

    fn compare(&self, lhs: &C, rhs: &C, input: &str) -> (outcome: Order) {
        let left = self.0.predicate_score(lhs, input);
        let right = self.0.predicate_score(rhs, input);
        if left < right {
            Order::Less
        } else if left == right {
            Order::Equal
        } else {
            Order::Greater
        }
    }
}

/// A scorer used as a filter: an entry is kept when a caller-supplied
/// predicate holds of its score.
#[verifier::reject_recursive_types(C)]
pub struct ScorerFilter<C, T, F>(T, F) where T: Scorer<Context = C>, F: Fn(u32) -> bool;

impl<C, T, F> ScorerFilter<C, T, F> where T: Scorer<Context = C>, F: Fn(u32) -> bool {
    #[verifier::type_invariant]
    spec fn well_formed(self) -> bool {
        total_val(self.1)
    }

    /// The scorer whose scores are tested.
    pub closed spec fn scorer(&self) -> T {
        self.0
    }

    /// The test applied to each score.
    pub closed spec fn threshold(&self) -> F {
        self.1
    }

    pub fn new(t: T, f: F) -> (filter: Self)
        requires
            total_val(f),
        ensures
            filter.scorer() == t,
            filter.threshold() == f,
    {
        Self(t, f)
    }

    /// The scorer and the test, borrowed.
    pub fn parts(&self) -> (parts: (&T, &F))
        ensures
            *parts.0 == self.scorer(),
            *parts.1 == self.threshold(),
    {
        (&self.0, &self.1)
    }

    /// The scorer and the test, handed back.
    pub fn into_parts(self) -> (parts: (T, F))
        ensures
            parts.0 == self.scorer(),
            parts.1 == self.threshold(),
    {
        (self.0, self.1)
    }
}

impl<C, T, F> Filter for ScorerFilter<C, T, F> where T: Scorer<Context = C>, F: Fn(u32) -> bool {
    type Context = C;

    /// What the test makes of a score of the entry. The entry is scored
    /// afresh for each decision.
    open spec fn decides(&self, ctx: &C, input: Seq<char>, keep: bool) -> bool {
        exists|score: u32| #[trigger]
            self.scorer().rates(ctx, input, score) && self.threshold().ensures((score,), keep)
    }

    fn predicate(&self, ctx: &C, input: &str) -> (keep: bool) {
        proof {
            use_type_invariant(self);
        }
        let score = self.0.predicate_score(ctx, input);
        let keep = (self.1)(score);
        assert(self.scorer().rates(ctx, input@, score));
        keep
    }
}

/// The adapters, as methods of every scorer.
pub trait ScorerExt: Scorer + Sized {
    /// This scorer as a sorter that orders entries by their scores.
    fn into_sorter(self) -> (sorter: ScorerSorter<Self::Context, Self>)
        ensures
            sorter.0 == self,
    {
        ScorerSorter::new(self)
    }

    /// This scorer as a filter that keeps the entries whose score `predicate`
    /// holds of.
    fn into_filter<F>(self, predicate: F) -> (filter: ScorerFilter<Self::Context, Self, F>) where
        F: Fn(u32) -> bool,

        requires
            total_val(predicate),
        ensures
            filter.scorer() == self,
            filter.threshold() == predicate,
    {
        ScorerFilter::new(self, predicate)
    }
}

impl<T: Scorer> ScorerExt for T {

}

} // verus!
