use vstd::prelude::*;
use vstd::std_specs::ops::MulSpec;

verus! {

/// Returns its argument.
pub fn identity<T>(x: T) -> (r: T)
    ensures
        r == x,
{
    x
}

/// Multiplies `x` by two with `G`'s multiplication.
pub fn double<G: core::ops::Mul<i32, Output = G>>(x: G) -> (r: G)
    requires
        x.mul_req(2i32),
    ensures
        G::obeys_mul_spec() ==> r == x.mul_spec(2i32),
{
    x * 2i32
}

/// The negation of `unsigned`, in a signed type wide enough to hold it.
pub fn negate_unsigned(unsigned: u32) -> (r: i64)
    ensures
        r == -(unsigned as int),
{
    -(unsigned as i64)
}

} // verus!
