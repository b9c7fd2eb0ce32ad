use std::marker::PhantomData;
use vstd::prelude::*;
use crate::closure::{total, total2};

verus! {

/// A predicate over entries: `true` keeps the entry for the given query.
pub trait Filter {
    type Context;

    /// Whether this filter may give the decision `keep` for `ctx` under the
    /// query `input`. For a filter whose decision depends on the entry and
    /// the query alone, exactly one decision is possible for each. A filter
    /// that says nothing of itself may give either.
    open spec fn decides(&self, ctx: &Self::Context, input: Seq<char>, keep: bool) -> bool {
        true
    }

    fn predicate(&self, ctx: &Self::Context, input: &str) -> (keep: bool)
        ensures
            self.decides(ctx, input@, keep),
    ;
}

/// A filter over `FilterContext` seen as a filter over `Cushion`, through a
/// projection from the one to the other.
#[verifier::reject_recursive_types(FilterContext)]
#[verifier::reject_recursive_types(Cushion)]
pub struct FilterWrapper<FilterContext, FilterT, F, Cushion> where
    F: Fn(&Cushion) -> FilterContext,
    FilterT: Filter<Context = FilterContext>,
 {
    f: F,
    filter: FilterT,
    _marker: PhantomData<(FilterContext, Cushion)>,
}

impl<FilterContext, FilterT, F, Cushion> FilterWrapper<FilterContext, FilterT, F, Cushion> where
    F: Fn(&Cushion) -> FilterContext,
    FilterT: Filter<Context = FilterContext>,
 {
    #[verifier::type_invariant]
    spec fn well_formed(self) -> bool {
        total(self.f)
    }

    /// The wrapped filter.
    pub closed spec fn inner(&self) -> FilterT {
        self.filter
    }

    /// The projection applied to each entry before the wrapped filter sees it.
    pub closed spec fn transformer(&self) -> F {
        self.f
    }

    pub fn new(filter: FilterT, transformer: F) -> (wrapped: Self)
        requires
            total(transformer),
        ensures
            wrapped.inner() == filter,
            wrapped.transformer() == transformer,
    {
        Self { f: transformer, filter, _marker: PhantomData }
    }
}

impl<FilterContext, FilterT, F, Cushion> Filter for FilterWrapper<
    FilterContext,
    FilterT,
    F,
    Cushion,
> where F: Fn(&Cushion) -> FilterContext, FilterT: Filter<Context = FilterContext> {
    type Context = Cushion;

    /// The wrapped filter's decision on a projection of the entry.
    open spec fn decides(&self, ctx: &Cushion, input: Seq<char>, keep: bool) -> bool {
        exists|projected: FilterContext| #[trigger]
            self.transformer().ensures((ctx,), projected) && self.inner().decides(
                &projected,
                input,
                keep,
            )
    }

    fn predicate(&self, ctx: &Cushion, input: &str) -> (keep: bool) {
        proof {
            use_type_invariant(self);
        }
        let projected = (self.f)(ctx);
        let keep = self.filter.predicate(&projected, input);
        assert(self.transformer().ensures((ctx,), projected));
        keep
    }
}

/// A filter that is consulted only for the entries its guard selects; every
/// other entry passes.
#[verifier::reject_recursive_types(Ctx)]
pub struct FilterIf<T, Ctx, F> where T: Filter<Context = Ctx>, F: Fn(&Ctx) -> bool {
    filter: T,
    f: F,
    _ctx: PhantomData<Ctx>,
}

impl<T, Ctx, F> FilterIf<T, Ctx, F> where T: Filter<Context = Ctx>, F: Fn(&Ctx) -> bool {
    #[verifier::type_invariant]
    spec fn well_formed(self) -> bool {
        total(self.f)
    }

    /// The guarded filter.
    pub closed spec fn inner(&self) -> T {
        self.filter
    }

    /// The guard that decides, entry by entry, whether the filter is consulted.
    pub closed spec fn guard(&self) -> F {
        self.f
    }
}

impl<Cushion, F, InnerF, TransF, Ctx> FilterIf<
    FilterWrapper<Ctx, InnerF, TransF, Cushion>,
    Cushion,
    F,
> where
    F: Fn(&Cushion) -> bool,
    TransF: Fn(&Cushion) -> Ctx,
    InnerF: Filter<Context = Ctx>,
 {
    pub fn new(filter: InnerF, f: F, transformer: TransF) -> (guarded: Self)
        requires
            total(f),
            total(transformer),
        ensures
            guarded.guard() == f,
            guarded.inner().inner() == filter,
            guarded.inner().transformer() == transformer,
    {
        Self { filter: FilterWrapper::new(filter, transformer), f, _ctx: PhantomData }
    }
}

impl<T, Ctx, F> Filter for FilterIf<T, Ctx, F> where T: Filter<Context = Ctx>, F: Fn(&Ctx) -> bool {
    type Context = Ctx;

    /// The guarded filter's decision where the guard selects the entry, and
    /// `true` where it does not.
    open spec fn decides(&self, ctx: &Ctx, input: Seq<char>, keep: bool) -> bool {
        exists|selected: bool| #[trigger]
            self.guard().ensures((ctx,), selected) && if selected {
                self.inner().decides(ctx, input, keep)
            } else {
                keep
            }
    }

    fn predicate(&self, ctx: &Ctx, input: &str) -> (keep: bool) {
        proof {
            use_type_invariant(self);
        }
        let selected = (self.f)(ctx);
        assert(self.guard().ensures((ctx,), selected));
        if selected {
            self.filter.predicate(ctx, input)
        } else {
            true
        }
    }
}

/// A filter that keeps exactly the entries its inner filter drops.
#[verifier::reject_recursive_types(Ctx)]
pub struct ReversedFilter<T, Ctx> where T: Filter<Context = Ctx> {
    filter: T,
    _ctx: PhantomData<Ctx>,
}

impl<T, Ctx> ReversedFilter<T, Ctx> where T: Filter<Context = Ctx> {
    /// The negated filter.
    pub closed spec fn inner(&self) -> T {
        self.filter
    }

    pub fn new(filter: T) -> (reversed: Self)
        ensures
            reversed.inner() == filter,
    {
        Self { filter, _ctx: PhantomData }
    }
}

impl<T, Ctx> Filter for ReversedFilter<T, Ctx> where T: Filter<Context = Ctx> {
    type Context = Ctx;

    /// The opposite of a decision of the inner filter.
    open spec fn decides(&self, ctx: &Ctx, input: Seq<char>, keep: bool) -> bool {
        self.inner().decides(ctx, input, !keep)
    }

    fn predicate(&self, ctx: &Ctx, input: &str) -> (keep: bool) {
        !self.filter.predicate(ctx, input)
    }
}

/// Two filters over their own contexts, each fed by a projection of one shared
/// entry, with their two decisions folded by a caller-supplied boolean function.
#[verifier::reject_recursive_types(Cushion)]
#[verifier::reject_recursive_types(C1)]
#[verifier::reject_recursive_types(C2)]
pub struct FilterComb<Cushion, T1, T2, C1, C2, F1, F2, F3> where
    F1: Fn(&Cushion) -> C1,
    F2: Fn(&Cushion) -> C2,
    F3: Fn(bool, bool) -> bool,
    T1: Filter<Context = C1>,
    T2: Filter<Context = C2>,
 {
    filter1: T1,
    filter2: T2,
    transformer1: F1,
    transformer2: F2,
    predicater: F3,
    _cushion: PhantomData<Cushion>,
}

impl<Cushion, T1, T2, C1, C2, F1, F2, F3> FilterComb<Cushion, T1, T2, C1, C2, F1, F2, F3> where
    F1: Fn(&Cushion) -> C1,
    F2: Fn(&Cushion) -> C2,
    F3: Fn(bool, bool) -> bool,
    T1: Filter<Context = C1>,
    T2: Filter<Context = C2>,
 {
    #[verifier::type_invariant]
    spec fn well_formed(self) -> bool {
        &&& total(self.transformer1)
        &&& total(self.transformer2)
        &&& total2(self.predicater)
    }

    /// The first filter.
    pub closed spec fn first(&self) -> T1 {
        self.filter1
    }

    /// The second filter.
    pub closed spec fn second(&self) -> T2 {
        self.filter2
    }

    /// The projection that feeds the first filter.
    pub closed spec fn first_transformer(&self) -> F1 {
        self.transformer1
    }

    /// The projection that feeds the second filter.
    pub closed spec fn second_transformer(&self) -> F2 {
        self.transformer2
    }

    /// The function that folds the two decisions into one.
    pub closed spec fn combiner(&self) -> F3 {
        self.predicater
    }

    /// Whether the first filter may give the decision `keep` for its
    /// projection of `ctx`.
    pub open spec fn first_decides(&self, ctx: &Cushion, input: Seq<char>, keep: bool) -> bool {
        exists|projected: C1| #[trigger]
            self.first_transformer().ensures((ctx,), projected) && self.first().decides(
                &projected,
                input,
                keep,
            )
    }

    /// Whether the second filter may give the decision `keep` for its
    /// projection of `ctx`.
    pub open spec fn second_decides(&self, ctx: &Cushion, input: Seq<char>, keep: bool) -> bool {
        exists|projected: C2| #[trigger]
            self.second_transformer().ensures((ctx,), projected) && self.second().decides(
                &projected,
                input,
                keep,
            )
    }

    pub fn new(
        filter1: T1,
        transformer1: F1,
        filter2: T2,
        transformer2: F2,
        predicater: F3,
    ) -> (combined: Self)
        requires
            total(transformer1),
            total(transformer2),
            total2(predicater),
        ensures
            combined.first() == filter1,
            combined.second() == filter2,
            combined.first_transformer() == transformer1,
            combined.second_transformer() == transformer2,
            combined.combiner() == predicater,
    {
        Self { filter1, filter2, transformer1, transformer2, predicater, _cushion: PhantomData }
    }
}

impl<Cushion, T1, T2, C1, C2, F1, F2, F3> Filter for FilterComb<
    Cushion,
    T1,
    T2,
    C1,
    C2,
    F1,
    F2,
    F3,
> where
    F1: Fn(&Cushion) -> C1,
    F2: Fn(&Cushion) -> C2,
    F3: Fn(bool, bool) -> bool,
    T1: Filter<Context = C1>,
    T2: Filter<Context = C2>,
 {
    type Context = Cushion;

    /// What the combining function makes of a decision of each filter.
    open spec fn decides(&self, ctx: &Cushion, input: Seq<char>, keep: bool) -> bool {
        exists|keep1: bool, keep2: bool| #[trigger]
            self.combiner().ensures((keep1, keep2), keep) && self.first_decides(ctx, input, keep1)
                && self.second_decides(ctx, input, keep2)
    }

    fn predicate(&self, ctx: &Cushion, input: &str) -> (keep: bool) {
        proof {
            use_type_invariant(self);
        }
        let ctx1 = (self.transformer1)(ctx);
        let ctx2 = (self.transformer2)(ctx);
        let keep1 = self.filter1.predicate(&ctx1, input);
        let keep2 = self.filter2.predicate(&ctx2, input);
        let keep = (self.predicater)(keep1, keep2);
        assert(self.first_transformer().ensures((ctx,), ctx1));
        assert(self.second_transformer().ensures((ctx,), ctx2));
        assert(self.combiner().ensures((keep1, keep2), keep));
        keep
    }
}

/// The combinators, as methods of every filter.
pub trait FilterExt: Filter + Sized {
    /// Lifts this filter to `Cushion` through `transformer` and consults it
    /// only for the entries that `f` selects; the others pass.
    fn to_if<Cushion, F, TransF>(self, f: F, transformer: TransF) -> (guarded: FilterIf<
        FilterWrapper<Self::Context, Self, TransF, Cushion>,
        Cushion,
        F,
    >) where F: Fn(&Cushion) -> bool, TransF: Fn(&Cushion) -> Self::Context
        requires
            total(f),
            total(transformer),
        ensures
            guarded.guard() == f,
            guarded.inner().inner() == self,
            guarded.inner().transformer() == transformer,
    {
        FilterIf::new(self, f, transformer)
    }

    /// The filter that keeps what this one drops.
    fn reverse(self) -> (reversed: ReversedFilter<Self, Self::Context>)
        ensures
            reversed.inner() == self,
    {
        ReversedFilter::new(self)
    }

    /// Combines this filter with `filter2` over one shared entry type.
    fn comb<Cushion, T, Ctx, F1, F2, F3>(
        self,
        transformer1: F1,
        filter2: T,
        transformer2: F2,
        predicater: F3,
    ) -> (combined: FilterComb<Cushion, Self, T, Self::Context, Ctx, F1, F2, F3>) where
        T: Filter<Context = Ctx>,
        F1: Fn(&Cushion) -> Self::Context,
        F2: Fn(&Cushion) -> Ctx,
        F3: Fn(bool, bool) -> bool,

        requires
            total(transformer1),
            total(transformer2),
            total2(predicater),
        ensures
            combined.first() == self,
            combined.second() == filter2,
            combined.first_transformer() == transformer1,
            combined.second_transformer() == transformer2,
            combined.combiner() == predicater,
    {
        FilterComb::new(self, transformer1, filter2, transformer2, predicater)
    }
}

impl<T: Filter> FilterExt for T {

}

/// A filter reversed twice decides as the filter itself does.
pub proof fn lemma_reverse_reverse<T, Ctx>(
    filter: T,
    once: ReversedFilter<T, Ctx>,
    twice: ReversedFilter<ReversedFilter<T, Ctx>, Ctx>,
    ctx: &Ctx,
    input: Seq<char>,
    keep: bool,
) where T: Filter<Context = Ctx>
    requires
        once.inner() == filter,
        twice.inner() == once,
    ensures
        twice.decides(ctx, input, keep) == filter.decides(ctx, input, keep),
{
}

/// Behind a guard that selects no entry, every entry passes, whatever the
/// guarded filter would decide.
pub proof fn lemma_guard_never<T, Ctx, F>(
    guarded: FilterIf<T, Ctx, F>,
    ctx: &Ctx,
    input: Seq<char>,
    keep: bool,
) where T: Filter<Context = Ctx>, F: Fn(&Ctx) -> bool
    requires
        forall|c: &Ctx, selected: bool| #[trigger]
            guarded.guard().ensures((c,), selected) ==> !selected,
        guarded.decides(ctx, input, keep),
    ensures
        keep,
{
}

/// Combined by conjunction, two filters keep an entry exactly when both keep
/// their projection of it: every decision of the combination is the
/// conjunction of a decision of each.
pub proof fn lemma_comb_and<Cushion, T1, T2, C1, C2, F1, F2, F3>(
    combined: FilterComb<Cushion, T1, T2, C1, C2, F1, F2, F3>,
    ctx: &Cushion,
    input: Seq<char>,
    keep: bool,
) where
    F1: Fn(&Cushion) -> C1,
    F2: Fn(&Cushion) -> C2,
    F3: Fn(bool, bool) -> bool,
    T1: Filter<Context = C1>,
    T2: Filter<Context = C2>,

    requires
        forall|a: bool, b: bool, both: bool| #[trigger]
            combined.combiner().ensures((a, b), both) ==> both == (a && b),
        combined.decides(ctx, input, keep),
    ensures
        exists|keep1: bool, keep2: bool|
            keep == (keep1 && keep2) && #[trigger] combined.first_decides(ctx, input, keep1)
                && #[trigger] combined.second_decides(ctx, input, keep2),
{
    let (keep1, keep2) = choose|keep1: bool, keep2: bool| #[trigger]
        combined.combiner().ensures((keep1, keep2), keep) && combined.first_decides(
            ctx,
            input,
            keep1,
        ) && combined.second_decides(ctx, input, keep2);
    assert(keep == (keep1 && keep2));
    assert(combined.first_decides(ctx, input, keep1) && combined.second_decides(
        ctx,
        input,
        keep2,
    ));
}

} // verus!
