use vstd::prelude::*;

verus! {

/// A type with an associative addition operator.
///
/// The addition is described on the type's view by `combine`, and every
/// implementation proves that `combine` is associative. Commutativity is not
/// required.
pub trait Semigroup: View + Sized {
    /// What `add` computes, stated on views.
    spec fn combine(a: Self::V, b: Self::V) -> Self::V;

    /// Adding is associative: `(a + b) + c` and `a + (b + c)` agree.
    proof fn lemma_combine_associative(a: Self::V, b: Self::V, c: Self::V)
        ensures
            Self::combine(Self::combine(a, b), c) == Self::combine(a, Self::combine(b, c)),
    ;

    /// Consumes both operands and returns their sum, `self` on the left.
    fn add(self, other: Self) -> (r: Self)
        ensures
            r@ == Self::combine(self@, other@),
    ;
}

/// Vectors add by concatenation: the left operand's elements come first.
impl<T> Semigroup for Vec<T> {
    open spec fn combine(a: Seq<T>, b: Seq<T>) -> Seq<T> {
        a + b
    }

    proof fn lemma_combine_associative(a: Seq<T>, b: Seq<T>, c: Seq<T>) {
        assert((a + b) + c =~= a + (b + c));
    }

    fn add(self, other: Self) -> (r: Self) {
        let mut left = self;
        let mut right = other;
        left.append(&mut right);
        left
    }
}

} // verus!
