use std::marker::PhantomData;
use ltrait::color_eyre::eyre::Report;
use vstd::prelude::*;
use crate::closure::total;

verus! {

/// `eyre::Report`, the error report that a failed action hands to the
/// embedding application. Its contents are not read here: a report is only
/// passed on.
#[verifier::external_type_specification]
#[verifier::external_body]
pub struct ExReport(Report);

/// A side effect run once for the entry that the user commits.
///
/// What an action does is outside this library's sight; what can be said is
/// which outcomes it may end in, [`Action::may_end`].
pub trait Action {
    type Context;

    /// Whether running this action on `ctx` may end in `outcome`. An action
    /// that says no more of itself may end in success or in any failure.
    open spec fn may_end(&self, ctx: &Self::Context, outcome: Result<(), Report>) -> bool {
        true
    }

    fn act(&self, ctx: &Self::Context) -> (outcome: Result<(), Report>)
        ensures
            self.may_end(ctx, outcome),
    ;
}

/// An action over `ActionContext` seen as an action over `Cushion`, through a
/// projection from the one to the other.
#[verifier::reject_recursive_types(ActionContext)]
#[verifier::reject_recursive_types(Cushion)]
pub struct ActionWrapper<ActionContext, ActionT, F, Cushion> where
    F: Fn(&Cushion) -> ActionContext,
    ActionT: Action<Context = ActionContext>,
 {
    f: F,
    action: ActionT,
    _marker: PhantomData<Cushion>,
}

impl<ActionContext, ActionT, F, Cushion> ActionWrapper<ActionContext, ActionT, F, Cushion> where
    F: Fn(&Cushion) -> ActionContext,
    ActionT: Action<Context = ActionContext>,
 {
    #[verifier::type_invariant]
    spec fn well_formed(self) -> bool {
        total(self.f)
    }

    /// The wrapped action.
    pub closed spec fn inner(&self) -> ActionT {
        self.action
    }

    /// The projection applied to the entry before the wrapped action runs.
    pub closed spec fn transformer(&self) -> F {
        self.f
    }

    pub fn new(action: ActionT, transformer: F) -> (wrapped: Self)
        requires
            total(transformer),
        ensures
            wrapped.inner() == action,
            wrapped.transformer() == transformer,
    {
        Self { f: transformer, action, _marker: PhantomData }
    }
}

impl<ActionContext, ActionT, F, Cushion> Action for ActionWrapper<
    ActionContext,
    ActionT,
    F,
    Cushion,
> where F: Fn(&Cushion) -> ActionContext, ActionT: Action<Context = ActionContext> {
    type Context = Cushion;

    /// An outcome of the wrapped action on a projection of the entry.
    open spec fn may_end(&self, ctx: &Cushion, outcome: Result<(), Report>) -> bool {
        exists|projected: ActionContext| #[trigger]
            self.transformer().ensures((ctx,), projected) && self.inner().may_end(
                &projected,
                outcome,
            )
    }

    fn act(&self, ctx: &Cushion) -> (outcome: Result<(), Report>) {
        proof {
            use_type_invariant(self);
        }
        let projected = (self.f)(ctx);
        assert(self.transformer().ensures((ctx,), projected));
        self.action.act(&projected)
    }
}

/// An action that runs only for the entries its guard selects; for every
/// other entry it succeeds without running.
#[verifier::reject_recursive_types(Ctx)]
pub struct ActionIf<T, Ctx, F> where T: Action<Context = Ctx>, F: Fn(&Ctx) -> bool {
    inner: T,
    f: F,
}

impl<T, Ctx, F> ActionIf<T, Ctx, F> where T: Action<Context = Ctx>, F: Fn(&Ctx) -> bool {
    #[verifier::type_invariant]
    spec fn well_formed(self) -> bool {
        total(self.f)
    }

    /// The guarded action.
    pub closed spec fn guarded(&self) -> T {
        self.inner
    }

    /// The guard that decides, entry by entry, whether the action runs.
    pub closed spec fn guard(&self) -> F {
        self.f
    }
}

impl<Cushion, F, Inner, TransF, Ctx> ActionIf<
    ActionWrapper<Ctx, Inner, TransF, Cushion>,
    Cushion,
    F,
> where F: Fn(&Cushion) -> bool, TransF: Fn(&Cushion) -> Ctx, Inner: Action<Context = Ctx> {
    pub fn new(inner: Inner, f: F, transformer: TransF) -> (conditional: Self)
        requires
            total(f),
            total(transformer),
        ensures
            conditional.guard() == f,
            conditional.guarded().inner() == inner,
            conditional.guarded().transformer() == transformer,
    {
        Self { inner: ActionWrapper::new(inner, transformer), f }
    }
}

impl<T, Ctx, F> Action for ActionIf<T, Ctx, F> where T: Action<Context = Ctx>, F: Fn(&Ctx) -> bool {
    type Context = Ctx;

    /// An outcome of the guarded action where the guard selects the entry,
    /// and success where it does not.
    open spec fn may_end(&self, ctx: &Ctx, outcome: Result<(), Report>) -> bool {
        exists|selected: bool| #[trigger]
            self.guard().ensures((ctx,), selected) && if selected {
                self.guarded().may_end(ctx, outcome)
            } else {
                outcome is Ok
            }
    }

    fn act(&self, ctx: &Ctx) -> (outcome: Result<(), Report>) {
        proof {
            use_type_invariant(self);
        }
        let selected = (self.f)(ctx);
        assert(self.guard().ensures((ctx,), selected));
        if selected {
            self.inner.act(ctx)
        } else {
            Ok(())
        }
    }
}

/// The combinator, as a method of every action.
pub trait ActionExt: Action + Sized {
    /// Lifts this action to `Cushion` through `transformer` and runs it only
    /// for the entries that `f` selects; for the others it succeeds at once.
    fn to_if<Cushion, F, TransF>(self, f: F, transformer: TransF) -> (conditional: ActionIf<
        ActionWrapper<Self::Context, Self, TransF, Cushion>,
        Cushion,
        F,
    >) where F: Fn(&Cushion) -> bool, TransF: Fn(&Cushion) -> Self::Context
        requires
            total(f),
            total(transformer),
        ensures
            conditional.guard() == f,
            conditional.guarded().inner() == self,
            conditional.guarded().transformer() == transformer,
    {
        ActionIf::new(self, f, transformer)
    }
}

impl<T: Action> ActionExt for T {

}

/// Behind a guard that selects no entry, an action ends in success and in
/// nothing else, whatever the guarded action would do.
pub proof fn lemma_guard_never<T, Ctx, F>(
    conditional: ActionIf<T, Ctx, F>,
    ctx: &Ctx,
    outcome: Result<(), Report>,
) where T: Action<Context = Ctx>, F: Fn(&Ctx) -> bool
    requires
        forall|c: &Ctx, selected: bool| #[trigger]
            conditional.guard().ensures((c,), selected) ==> !selected,
        conditional.may_end(ctx, outcome),
    ensures
        outcome is Ok,
{
}

} // verus!
