use vstd::prelude::*;

verus! {

/// Whether `f` may be called on every borrowed argument.
pub open spec fn total<A, R, F: Fn(&A) -> R>(f: F) -> bool {
    forall|a: &A| #[trigger] f.requires((a,))
}

/// Whether `f` may be called on every argument taken by value.
pub open spec fn total_val<A, R, F: Fn(A) -> R>(f: F) -> bool {
    forall|a: A| #[trigger] f.requires((a,))
}

/// Whether `f` may be called on every pair of arguments taken by value.
pub open spec fn total2<A, B, R, F: Fn(A, B) -> R>(f: F) -> bool {
    forall|a: A, b: B| #[trigger] f.requires((a, b))
}

} // verus!
