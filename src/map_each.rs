use vstd::prelude::*;

verus! {

/// A sequence of elements that can be mapped, one by one in order, into a
/// vector.
pub trait MapEach<T>: View<V = Seq<T>> + Sized {
    /// Consumes the container and returns `f` applied to each element, in the
    /// container's order.
    fn map_each<U, F: Fn(T) -> U>(self, f: F) -> (r: Vec<U>)
        requires
            forall|i: int| 0 <= i < self@.len() ==> f.requires((#[trigger] self@[i],)),
        ensures
            r@.len() == self@.len(),
            forall|i: int| 0 <= i < self@.len() ==> f.ensures((self@[i],), #[trigger] r@[i]),
    ;
}

impl<T> MapEach<T> for Vec<T> {
    fn map_each<U, F: Fn(T) -> U>(self, f: F) -> (r: Vec<U>) {
        let ghost items = self@;
        let mut rest = self;
        // Popping from the back leaves the elements in reverse order.
        let mut reversed: Vec<T> = Vec::new();
        while rest.len() > 0
            invariant
                rest@.len() + reversed@.len() == items.len(),
                rest@ == items.subrange(0, rest@.len() as int),
                forall|j: int|
                    0 <= j < reversed@.len() ==> reversed@[j] == items[items.len() - 1 - j],
            decreases rest@.len(),
        {
            let item = rest.pop().unwrap();
            reversed.push(item);
        }
        let mut out: Vec<U> = Vec::new();
        while reversed.len() > 0
            invariant
                out@.len() + reversed@.len() == items.len(),
                forall|j: int|
                    0 <= j < reversed@.len() ==> reversed@[j] == items[items.len() - 1 - j],
                forall|i: int| 0 <= i < items.len() ==> f.requires((#[trigger] items[i],)),
                forall|i: int| 0 <= i < out@.len() ==> f.ensures((items[i],), #[trigger] out@[i]),
            decreases reversed@.len(),
        {
            let item = reversed.pop().unwrap();
            let mapped = f(item);
            out.push(mapped);
        }
        out
    }
}

impl<T: Copy, const N: usize> MapEach<T> for [T; N] {
    fn map_each<U, F: Fn(T) -> U>(self, f: F) -> (r: Vec<U>) {
        let mut out: Vec<U> = Vec::new();
        let mut i: usize = 0;
        while i < N
            invariant
                i <= N,
                N == self@.len(),
                out@.len() == i,
                forall|k: int| 0 <= k < self@.len() ==> f.requires((#[trigger] self@[k],)),
                forall|k: int| 0 <= k < i ==> f.ensures((self@[k],), #[trigger] out@[k]),
            decreases N - i,
        {
            let mapped = f(self[i]);
            out.push(mapped);
            i = i + 1;
        }
        out
    }
}

} // verus!
