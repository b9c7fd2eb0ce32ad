use std::marker::PhantomData;
use vstd::prelude::*;
use crate::closure::total;

verus! {

/// The outcome of comparing two entries.
#[derive(Clone, Copy, Debug, PartialEq, Eq, Structural)]
pub enum Order {
    Less,
    Equal,
    Greater,
}

impl Order {
    /// The outcome with the two sides exchanged: `Less` and `Greater` trade
    /// places, `Equal` stays.
    pub open spec fn reversed(self) -> Order {
        match self {
            Order::Less => Order::Greater,
            Order::Equal => Order::Equal,
            Order::Greater => Order::Less,
        }
    }

    pub fn reverse(self) -> (flipped: Order)
        ensures
            flipped == self.reversed(),
    {
        match self {
            Order::Less => Order::Greater,
            Order::Equal => Order::Equal,
            Order::Greater => Order::Less,
        }
    }
}

/// A comparator over entries under a query.
pub trait Sorter {
    type Context;

    /// Whether this sorter may give `outcome` for `lhs` against `rhs` under
    /// the query `input`. For a sorter whose outcome depends on the two
    /// entries and the query alone, exactly one outcome is possible for each.
    /// A sorter that says nothing of itself may give any.
    open spec fn ranks(
        &self,
        lhs: &Self::Context,
        rhs: &Self::Context,
        input: Seq<char>,
        outcome: Order,
    ) -> bool {
        true
    }

    fn compare(&self, lhs: &Self::Context, rhs: &Self::Context, input: &str) -> (outcome: Order)
        ensures
            self.ranks(lhs, rhs, input@, outcome),
    ;
}

/// A sorter over `SorterContext` seen as a sorter over `Cushion`, through a
/// projection applied to both sides.
#[verifier::reject_recursive_types(SorterContext)]
#[verifier::reject_recursive_types(Cushion)]
pub struct SorterWrapper<SorterContext, SorterT, F, Cushion> where
    F: Fn(&Cushion) -> SorterContext,
    SorterT: Sorter<Context = SorterContext>,
 {
    f: F,
    sorter: SorterT,
    _marker: PhantomData<(SorterContext, Cushion)>,
}

impl<SorterContext, SorterT, F, Cushion> SorterWrapper<SorterContext, SorterT, F, Cushion> where
    F: Fn(&Cushion) -> SorterContext,
    SorterT: Sorter<Context = SorterContext>,
 {
    #[verifier::type_invariant]
    spec fn well_formed(self) -> bool {
        total(self.f)
    }

    /// The wrapped sorter.
    pub closed spec fn inner(&self) -> SorterT {
        self.sorter
    }

    /// The projection applied to each side before the wrapped sorter sees it.
    pub closed spec fn transformer(&self) -> F {
        self.f
    }

    pub fn new(sorter: SorterT, transformer: F) -> (wrapped: Self)
        requires
            total(transformer),
        ensures
            wrapped.inner() == sorter,
            wrapped.transformer() == transformer,
    {
        Self { f: transformer, sorter, _marker: PhantomData }
    }
}

impl<SorterContext, SorterT, F, Cushion> Sorter for SorterWrapper<
    SorterContext,
    SorterT,
    F,
    Cushion,
> where F: Fn(&Cushion) -> SorterContext, SorterT: Sorter<Context = SorterContext> {
    type Context = Cushion;

    /// The wrapped sorter's outcome on a projection of each side.
    open spec fn ranks(&self, lhs: &Cushion, rhs: &Cushion, input: Seq<char>, outcome: Order) -> bool {
        exists|left: SorterContext, right: SorterContext|
            #![trigger self.transformer().ensures((lhs,), left), self.transformer().ensures((rhs,), right)]
            self.transformer().ensures((lhs,), left) && self.transformer().ensures((rhs,), right)
                && self.inner().ranks(&left, &right, input, outcome)
    }

    fn compare(&self, lhs: &Cushion, rhs: &Cushion, input: &str) -> (outcome: Order) {
        proof {
            use_type_invariant(self);
        }
        let left = (self.f)(lhs);
        let right = (self.f)(rhs);
        assert(self.transformer().ensures((lhs,), left));
        assert(self.transformer().ensures((rhs,), right));
        self.sorter.compare(&left, &right, input)
    }
}

/// A sorter that is consulted only for the pairs whose two entries its guard
/// selects; every other pair compares `Equal`, whichever way round it is
/// asked.
#[verifier::reject_recursive_types(Cushion)]
pub struct SorterIf<T, Cushion, F> where T: Sorter<Context = Cushion>, F: Fn(&Cushion) -> bool {
    sorter: T,
    f: F,
    _ctx: PhantomData<Cushion>,
}

impl<T, Cushion, F> SorterIf<T, Cushion, F> where
    T: Sorter<Context = Cushion>,
    F: Fn(&Cushion) -> bool,
 {
    #[verifier::type_invariant]
    spec fn well_formed(self) -> bool {
        total(self.f)
    }

    /// The guarded sorter.
    pub closed spec fn inner(&self) -> T {
        self.sorter
    }

    /// The guard, asked about both entries of each pair.
    pub closed spec fn guard(&self) -> F {
        self.f
    }
}

impl<Cushion, F, InnerT, TransF, Ctx> SorterIf<
    SorterWrapper<Ctx, InnerT, TransF, Cushion>,
    Cushion,
    F,
> where
    F: Fn(&Cushion) -> bool,
    InnerT: Sorter<Context = Ctx>,
    TransF: Fn(&Cushion) -> Ctx,
 {
    pub fn new(sorter: InnerT, f: F, transformer: TransF) -> (guarded: Self)
        requires
            total(f),
            total(transformer),
        ensures
            guarded.guard() == f,
            guarded.inner().inner() == sorter,
            guarded.inner().transformer() == transformer,
    {
        Self { sorter: SorterWrapper::new(sorter, transformer), f, _ctx: PhantomData }
    }
}

impl<T, Ctx, F> Sorter for SorterIf<T, Ctx, F> where T: Sorter<Context = Ctx>, F: Fn(&Ctx) -> bool {
    type Context = Ctx;

    /// The guarded sorter's outcome where the guard selects both entries, and
    /// `Equal` where it leaves out either.
    open spec fn ranks(&self, lhs: &Ctx, rhs: &Ctx, input: Seq<char>, outcome: Order) -> bool {
        exists|left: bool, right: bool|
            #![trigger self.guard().ensures((lhs,), left), self.guard().ensures((rhs,), right)]
            self.guard().ensures((lhs,), left) && self.guard().ensures((rhs,), right) && if left
                && right {
                self.inner().ranks(lhs, rhs, input, outcome)
            } else {
                outcome == Order::Equal
            }
    }

    fn compare(&self, lhs: &Ctx, rhs: &Ctx, input: &str) -> (outcome: Order) {
        proof {
            use_type_invariant(self);
        }
        let left = (self.f)(lhs);
        let right = (self.f)(rhs);
        assert(self.guard().ensures((lhs,), left));
        assert(self.guard().ensures((rhs,), right));
        if left && right {
            self.sorter.compare(lhs, rhs, input)
        } else {
            Order::Equal
        }
    }
}

/// A sorter that gives each pair the reverse of its inner sorter's outcome.
#[verifier::reject_recursive_types(Ctx)]
pub struct ReversedSorter<T, Ctx> where T: Sorter<Context = Ctx> {
    sorter: T,
    _ctx: PhantomData<Ctx>,
}

impl<T, Ctx> ReversedSorter<T, Ctx> where T: Sorter<Context = Ctx> {
    /// The reversed sorter.
    pub closed spec fn inner(&self) -> T {
        self.sorter
    }

    pub fn new(sorter: T) -> (reversed: Self)
        ensures
            reversed.inner() == sorter,
    {
        Self { sorter, _ctx: PhantomData }
    }
}

impl<T, Ctx> Sorter for ReversedSorter<T, Ctx> where T: Sorter<Context = Ctx> {
    type Context = Ctx;

    /// The reverse of an outcome of the inner sorter for the same pair.
    open spec fn ranks(&self, lhs: &Ctx, rhs: &Ctx, input: Seq<char>, outcome: Order) -> bool {
        self.inner().ranks(lhs, rhs, input, outcome.reversed())
    }

    fn compare(&self, lhs: &Ctx, rhs: &Ctx, input: &str) -> (outcome: Order) {
        self.sorter.compare(lhs, rhs, input).reverse()
    }
}

/// The combinators, as methods of every sorter.
pub trait SorterExt: Sorter + Sized {
    /// Lifts this sorter to `Cushion` through `transformer` and consults it
    /// only for the pairs whose two entries `f` selects; the others compare
    /// `Equal`.
    fn to_if<Cushion, F, TransF>(self, f: F, transformer: TransF) -> (guarded: SorterIf<
        SorterWrapper<Self::Context, Self, TransF, Cushion>,
        Cushion,
        F,
    >) where F: Fn(&Cushion) -> bool, TransF: Fn(&Cushion) -> Self::Context
        requires
            total(f),
            total(transformer),
        ensures
            guarded.guard() == f,
            guarded.inner().inner() == self,
            guarded.inner().transformer() == transformer,
    {
        SorterIf::new(self, f, transformer)
    }

    /// The sorter with every outcome reversed.
    fn reverse(self) -> (reversed: ReversedSorter<Self, Self::Context>)
        ensures
            reversed.inner() == self,
    {
        ReversedSorter::new(self)
    }
}

impl<T: Sorter> SorterExt for T {

}

/// A guard takes nothing from a comparator: where the guarded sorter gives a
/// pair and the exchanged pair opposite outcomes, so does the sorter behind
/// the guard.
pub proof fn lemma_guarded_keeps_exchange<T, Ctx, F>(
    guarded: SorterIf<T, Ctx, F>,
    lhs: &Ctx,
    rhs: &Ctx,
    input: Seq<char>,
    outcome: Order,
) where T: Sorter<Context = Ctx>, F: Fn(&Ctx) -> bool
    requires
        guarded.inner().ranks(rhs, lhs, input, outcome) == guarded.inner().ranks(
            lhs,
            rhs,
            input,
            outcome.reversed(),
        ),
    ensures
        guarded.ranks(rhs, lhs, input, outcome) == guarded.ranks(
            lhs,
            rhs,
            input,
            outcome.reversed(),
        ),
{
    let turned = outcome.reversed();
    assert((turned == Order::Equal) == (outcome == Order::Equal));
    if guarded.ranks(rhs, lhs, input, outcome) {
        let (left, right) = choose|left: bool, right: bool|
            #![trigger guarded.guard().ensures((rhs,), left), guarded.guard().ensures((lhs,), right)]
            guarded.guard().ensures((rhs,), left) && guarded.guard().ensures((lhs,), right) && if left
                && right {
                guarded.inner().ranks(rhs, lhs, input, outcome)
            } else {
                outcome == Order::Equal
            };
        assert(guarded.guard().ensures((lhs,), right) && guarded.guard().ensures((rhs,), left));
    }
    if guarded.ranks(lhs, rhs, input, turned) {
        let (left, right) = choose|left: bool, right: bool|
            #![trigger guarded.guard().ensures((lhs,), left), guarded.guard().ensures((rhs,), right)]
            guarded.guard().ensures((lhs,), left) && guarded.guard().ensures((rhs,), right) && if left
                && right {
                guarded.inner().ranks(lhs, rhs, input, turned)
            } else {
                turned == Order::Equal
            };
        assert(guarded.guard().ensures((rhs,), right) && guarded.guard().ensures((lhs,), left));
    }
}

/// A projection takes nothing from a comparator: where the wrapped sorter
/// gives every pair and the exchanged pair opposite outcomes, so does the
/// sorter behind the projection.
pub proof fn lemma_wrapped_keeps_exchange<SorterContext, SorterT, F, Cushion>(
    wrapped: SorterWrapper<SorterContext, SorterT, F, Cushion>,
    lhs: &Cushion,
    rhs: &Cushion,
    input: Seq<char>,
    outcome: Order,
) where F: Fn(&Cushion) -> SorterContext, SorterT: Sorter<Context = SorterContext>
    requires
        forall|left: &SorterContext, right: &SorterContext| #[trigger]
            wrapped.inner().ranks(right, left, input, outcome) == wrapped.inner().ranks(
                left,
                right,
                input,
                outcome.reversed(),
            ),
    ensures
        wrapped.ranks(rhs, lhs, input, outcome) == wrapped.ranks(
            lhs,
            rhs,
            input,
            outcome.reversed(),
        ),
{
    let turned = outcome.reversed();
    if wrapped.ranks(rhs, lhs, input, outcome) {
        let (left, right) = choose|left: SorterContext, right: SorterContext|
            #![trigger wrapped.transformer().ensures((rhs,), left), wrapped.transformer().ensures((lhs,), right)]
            wrapped.transformer().ensures((rhs,), left) && wrapped.transformer().ensures(
                (lhs,),
                right,
            ) && wrapped.inner().ranks(&left, &right, input, outcome);
        assert(wrapped.inner().ranks(&left, &right, input, outcome) == wrapped.inner().ranks(
            &right,
            &left,
            input,
            turned,
        ));
        assert(wrapped.transformer().ensures((lhs,), right) && wrapped.transformer().ensures(
            (rhs,),
            left,
        ));
    }
    if wrapped.ranks(lhs, rhs, input, turned) {
        let (left, right) = choose|left: SorterContext, right: SorterContext|
            #![trigger wrapped.transformer().ensures((lhs,), left), wrapped.transformer().ensures((rhs,), right)]
            wrapped.transformer().ensures((lhs,), left) && wrapped.transformer().ensures(
                (rhs,),
                right,
            ) && wrapped.inner().ranks(&left, &right, input, turned);
        assert(wrapped.inner().ranks(&right, &left, input, outcome) == wrapped.inner().ranks(
            &left,
            &right,
            input,
            turned,
        ));
        assert(wrapped.transformer().ensures((rhs,), right) && wrapped.transformer().ensures(
            (lhs,),
            left,
        ));
    }
}

/// A sorter made by `to_if` from a sorter that gives every pair and the
/// exchanged pair opposite outcomes does so too, and so its reversal compares
/// a pair as it compares the exchanged pair.
pub proof fn lemma_to_if_keeps_exchange<Cushion, F, InnerT, TransF, Ctx>(
    guarded: SorterIf<SorterWrapper<Ctx, InnerT, TransF, Cushion>, Cushion, F>,
    reversed: ReversedSorter<SorterIf<SorterWrapper<Ctx, InnerT, TransF, Cushion>, Cushion, F>, Cushion>,
    lhs: &Cushion,
    rhs: &Cushion,
    input: Seq<char>,
    outcome: Order,
) where F: Fn(&Cushion) -> bool, InnerT: Sorter<Context = Ctx>, TransF: Fn(&Cushion) -> Ctx
    requires
        reversed.inner() == guarded,
        forall|left: &Ctx, right: &Ctx| #[trigger]
            guarded.inner().inner().ranks(right, left, input, outcome)
                == guarded.inner().inner().ranks(left, right, input, outcome.reversed()),
    ensures
        guarded.ranks(rhs, lhs, input, outcome) == guarded.ranks(
            lhs,
            rhs,
            input,
            outcome.reversed(),
        ),
        reversed.ranks(lhs, rhs, input, outcome) == guarded.ranks(rhs, lhs, input, outcome),
{
    lemma_wrapped_keeps_exchange(guarded.inner(), lhs, rhs, input, outcome);
    lemma_guarded_keeps_exchange(guarded, lhs, rhs, input, outcome);
}

/// A reversed sorter gives a pair the reverse of what the sorter gives it.
/// So it compares a pair as the sorter compares the exchanged pair wherever
/// the sorter gives the pair and the exchanged pair opposite outcomes.
pub proof fn lemma_reverse_swaps<T, Ctx>(
    sorter: T,
    reversed: ReversedSorter<T, Ctx>,
    lhs: &Ctx,
    rhs: &Ctx,
    input: Seq<char>,
    outcome: Order,
) where T: Sorter<Context = Ctx>
    requires
        reversed.inner() == sorter,
        sorter.ranks(rhs, lhs, input, outcome) == sorter.ranks(lhs, rhs, input, outcome.reversed()),
    ensures
        reversed.ranks(lhs, rhs, input, outcome) == sorter.ranks(rhs, lhs, input, outcome),
{
}

/// A sorter reversed twice compares as the sorter itself does.
pub proof fn lemma_reverse_reverse<T, Ctx>(
    sorter: T,
    once: ReversedSorter<T, Ctx>,
    twice: ReversedSorter<ReversedSorter<T, Ctx>, Ctx>,
    lhs: &Ctx,
    rhs: &Ctx,
    input: Seq<char>,
    outcome: Order,
) where T: Sorter<Context = Ctx>
    requires
        once.inner() == sorter,
        twice.inner() == once,
    ensures
        twice.ranks(lhs, rhs, input, outcome) == sorter.ranks(lhs, rhs, input, outcome),
{
    assert(outcome.reversed().reversed() == outcome);
}

/// Behind a guard that selects no entry, every pair compares `Equal`,
/// whatever the guarded sorter would say.
pub proof fn lemma_guard_never<T, Ctx, F>(
    guarded: SorterIf<T, Ctx, F>,
    lhs: &Ctx,
    rhs: &Ctx,
    input: Seq<char>,
    outcome: Order,
) where T: Sorter<Context = Ctx>, F: Fn(&Ctx) -> bool
    requires
        forall|c: &Ctx, selected: bool| #[trigger]
            guarded.guard().ensures((c,), selected) ==> !selected,
        guarded.ranks(lhs, rhs, input, outcome),
    ensures
        outcome == Order::Equal,
{
}

} // verus!
