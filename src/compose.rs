use vstd::prelude::*;

use crate::semigroup::Semigroup;

verus! {

/// `h` behaves as the pointwise sum of `f` and `g`: every result of `h(x)` is
/// `f(x1) + g(x2)`, with `f`'s result on the left, where `x1` and `x2` are
/// duplicates of `x`.
pub open spec fn is_pointwise_sum<In: Clone, Out: Semigroup, F: Fn(In) -> Out, G: Fn(In) -> Out, H: Fn(In) -> Out>(
    f: F,
    g: G,
    h: H,
) -> bool {
    &&& forall|x: In| #[trigger] h.requires((x,))
    &&& forall|x: In, r: Out|
        #[trigger] h.ensures((x,), r) ==> exists|x1: In, x2: In, a: Out, b: Out|
            cloned(x, x1) && cloned(x, x2) && f.ensures((x1,), a) && g.ensures((x2,), b)
                && r@ == Out::combine(a@, b@)
}

/// Additively composes `f` and `g`: the result maps `x` to `f(x) + g(x)`.
///
/// Each call of the result calls `f` on a duplicate of its argument, then `g`
/// on another, and adds the two results in that order. Nothing is cached.
pub fn add_functions<In: Clone, Out: Semigroup, F: Fn(In) -> Out, G: Fn(In) -> Out>(
    f: F,
    g: G,
) -> (h: impl Fn(In) -> Out)
    requires
        forall|x: In| #[trigger] f.requires((x,)),
        forall|x: In| #[trigger] g.requires((x,)),
    ensures
        is_pointwise_sum(f, g, h),
{
    move |x: In| -> (r: Out)
        ensures
            exists|x1: In, x2: In, a: Out, b: Out|
                cloned(x, x1) && cloned(x, x2) && f.ensures((x1,), a) && g.ensures((x2,), b)
                    && r@ == Out::combine(a@, b@),
        {
            let x1 = x.clone();
            let a = f(x1);
            let x2 = x.clone();
            let b = g(x2);
            a.add(b)
        }
}

} // verus!

verus! {

/// A unary function kept in a value of its own, so that two of them can be
/// added.
pub struct SavedMap<F>(pub F);

impl<F> SavedMap<F> {
    /// The function held.
    pub open spec fn function(&self) -> F {
        self.0
    }

    /// Keeps `f`.
    pub fn new(f: F) -> (r: Self)
        ensures
            r.function() == f,
    {
        SavedMap(f)
    }

    /// Calls the function held on `x`.
    pub fn call<In, Out>(&self, x: In) -> (r: Out)
        where
            F: Fn(In) -> Out,
        requires
            self.function().requires((x,)),
        ensures
            self.function().ensures((x,), r),
    {
        (self.0)(x)
    }

    /// The pointwise sum of the two functions held, `self`'s on the left.
    pub fn add<In: Clone, Out: Semigroup, G: Fn(In) -> Out>(self, rhs: SavedMap<G>) -> (r: SavedMap<
        impl Fn(In) -> Out,
    >)
        where
            F: Fn(In) -> Out,
        requires
            forall|x: In| #[trigger] self.function().requires((x,)),
            forall|x: In| #[trigger] rhs.function().requires((x,)),
        ensures
            is_pointwise_sum(self.function(), rhs.function(), r.function()),
    {
        SavedMap(add_functions(self.0, rhs.0))
    }
}

impl<F> core::ops::Deref for SavedMap<F> {
    type Target = F;

    fn deref(&self) -> (r: &F)
        ensures
            *r == self.0,
    {
        &self.0
    }
}

} // verus!
